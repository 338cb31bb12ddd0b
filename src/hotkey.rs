//! The global toggle hotkey: which registration changes a new setting needs,
//! and what the toggle does to the main window.
use vstd::prelude::*;
use vstd::string::*;
use crate::text::{trim, trim_spec};
use crate::memory::data_model;

verus! {

/// The lower-case mapping of a text, as std's `str::to_lowercase` gives it.
pub uninterp spec fn lower_of(s: Seq<char>) -> Seq<char>;

/// Relies on std's `str::to_lowercase`: the result depends on the characters
/// alone, and an empty text stays empty.
#[verifier::external_body]
fn to_lowercase(s: &str) -> (r: String)
    ensures
        r@ == lower_of(s@),
        s@.len() == 0 ==> r@.len() == 0,
{
    s.to_lowercase()
}

/// The hotkey a setting asks for: trimmed and lower-cased, none where blank.
pub open spec fn requested_spec(hotkey: Seq<char>) -> Option<Seq<char>> {
    if lower_of(trim_spec(hotkey)).len() == 0 {
        None
    } else {
        Some(lower_of(trim_spec(hotkey)))
    }
}

pub fn requested_hotkey(hotkey: &str) -> (r: Option<String>)
    ensures
        data_model(r) == requested_spec(hotkey@),
{
    let normalized = to_lowercase(trim(hotkey));
    if normalized.as_str().unicode_len() == 0 {
        None
    } else {
        Some(normalized)
    }
}

/// The hotkey currently registered, if any.
#[derive(Debug)]
pub struct HotkeyState(pub Option<String>);

/// The registration changes that a requested hotkey needs.
#[derive(Debug)]
pub enum HotkeyPlan {
    /// Already registered as requested.
    Keep,
    /// Drop the registration, releasing the old hotkey where there is one.
    Clear { unregister: Option<String> },
    /// Register the new hotkey first; only once that succeeded release the
    /// old one and record the new one.
    Replace { register: String, unregister: Option<String> },
}

impl HotkeyState {
    /// Plans the move from the current hotkey to `requested`.
    pub fn plan(&self, requested: Option<String>) -> (r: HotkeyPlan)
        ensures
            data_model(requested) == data_model(self.0) ==> r is Keep,
            data_model(requested) != data_model(self.0) && requested is None ==> (r matches HotkeyPlan::Clear {
                unregister,
            } && data_model(unregister) == data_model(self.0)),
            data_model(requested) != data_model(self.0) && requested is Some ==> (r matches HotkeyPlan::Replace {
                register,
                unregister,
            } && Some(register@) == data_model(requested) && data_model(unregister) == data_model(
                self.0,
            )),
    {
        let same = match (&self.0, &requested) {
            (Some(a), Some(b)) => *a == *b,
            (None, None) => true,
            _ => false,
        };
        if same {
            return HotkeyPlan::Keep;
        }
        let unregister = match &self.0 {
            Some(a) => Some(a.clone()),
            None => None,
        };
        match requested {
            None => HotkeyPlan::Clear { unregister },
            Some(next) => HotkeyPlan::Replace { register: next, unregister },
        }
    }

    /// Records the hotkey now registered.
    pub fn set(&mut self, registered: Option<String>)
        ensures
            data_model(final(self).0) == data_model(registered),
    {
        self.0 = registered;
    }
}

/// What the toggle does to the main window.
#[derive(Debug)]
pub enum WindowAction {
    Hide,
    ShowAndFocus,
}

/// A window known to be visible is hidden; otherwise (hidden, or its state
/// unreadable) it is shown and focused.
pub fn toggle_action(visible: Option<bool>) -> (r: WindowAction)
    ensures
        (r is Hide) == (visible == Some(true)),
{
    match visible {
        Some(true) => WindowAction::Hide,
        _ => WindowAction::ShowAndFocus,
    }
}

} // verus!
