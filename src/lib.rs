//! An icon cache for a shortcut launcher: a memory tier with remembered
//! failures, a content-addressed disk tier, and the decisions that put them
//! in front of an expensive icon rasterizer; with the launcher's path,
//! settings, storage and hotkey rules around it.
use vstd::prelude::*;
use vstd::string::*;

pub mod codec;
pub mod text;
pub mod memory;
pub mod disk;
pub mod raster;
pub mod guards;
pub mod resolve;
pub mod paths;
pub mod settings;
pub mod storage;
pub mod hotkey;

verus! {

/// The greeting the interface shows for `name`.
pub fn greet(name: &str) -> (r: String)
    ensures
        r@ == "Hello, "@ + name@ + "! You've been greeted from Rust!"@,
{
    let mut s = String::from_str("Hello, ");
    s.append(name);
    s.append("! You've been greeted from Rust!");
    s
}

} // verus!
