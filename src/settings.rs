//! The launcher's interface settings and their defaults.
use vstd::prelude::*;
use vstd::string::*;
use crate::text::{trim, trim_spec};

verus! {

/// Interface settings, stored as one record.
#[derive(Debug)]
pub struct UiSettings {
    pub language: String,
    pub card_width: u32,
    pub card_height: u32,
    pub toggle_hotkey: String,
    pub theme: String,
    pub sidebar_width: u32,
    pub font_family: String,
    pub font_size: u32,
    pub card_font_size: u32,
    pub card_icon_scale: u32,
    pub dbl_click_blank_to_hide: bool,
    pub always_on_top: bool,
    pub hide_on_startup: bool,
    pub use_relative_path: bool,
    pub enable_group_drag_sort: bool,
    pub auto_start: bool,
}

/// No language chosen: the interface follows the system.
pub fn default_language() -> (r: String)
    ensures
        r@ == Seq::<char>::empty(),
{
    String::new()
}

/// Default card width, in pixels.
pub fn default_card_size() -> (r: u32)
    ensures
        r == 120,
{
    120
}

/// Default card height, in pixels.
pub fn default_card_height() -> (r: u32)
    ensures
        r == 96,
{
    96
}

/// Default colour theme.
pub fn default_theme() -> (r: String)
    ensures
        r@ == "dark"@,
{
    String::from_str("dark")
}

/// Default sidebar width, in pixels.
pub fn default_sidebar_width() -> (r: u32)
    ensures
        r == 140,
{
    140
}

/// Default font family.
pub fn default_font_family() -> (r: String)
    ensures
        r@ == "maye"@,
{
    String::from_str("maye")
}

/// Default interface font size.
pub fn default_font_size() -> (r: u32)
    ensures
        r == 13,
{
    13
}

/// Default font size on cards.
pub fn default_card_font_size() -> (r: u32)
    ensures
        r == 11,
{
    11
}

/// Default icon scale on cards, in percent.
pub fn default_card_icon_scale() -> (r: u32)
    ensures
        r == 56,
{
    56
}

/// By default a double click on blank space hides the window.
pub fn default_dbl_click_blank_to_hide() -> (r: bool)
    ensures
        r,
{
    true
}

/// By default the window stays on top.
pub fn default_always_on_top() -> (r: bool)
    ensures
        r,
{
    true
}

/// By default the window shows at startup.
pub fn default_hide_on_startup() -> (r: bool)
    ensures
        !r,
{
    false
}

/// By default paths are stored as given.
pub fn default_use_relative_path() -> (r: bool)
    ensures
        !r,
{
    false
}

/// By default groups are not reordered by dragging.
pub fn default_enable_group_drag_sort() -> (r: bool)
    ensures
        !r,
{
    false
}

/// Whether `s` holds the default of every field.
pub open spec fn is_default_settings(s: UiSettings) -> bool {
    &&& s.language@ == Seq::<char>::empty()
    &&& s.card_width == 120
    &&& s.card_height == 96
    &&& s.toggle_hotkey@ == Seq::<char>::empty()
    &&& s.theme@ == "dark"@
    &&& s.sidebar_width == 140
    &&& s.font_family@ == "maye"@
    &&& s.font_size == 13
    &&& s.card_font_size == 11
    &&& s.card_icon_scale == 56
    &&& s.dbl_click_blank_to_hide
    &&& s.always_on_top
    &&& !s.hide_on_startup
    &&& !s.use_relative_path
    &&& !s.enable_group_drag_sort
    &&& !s.auto_start
}

impl Default for UiSettings {
    fn default() -> (r: UiSettings)
        ensures
            is_default_settings(r),
    {
        UiSettings {
            language: default_language(),
            card_width: default_card_size(),
            card_height: default_card_height(),
            toggle_hotkey: String::new(),
            theme: default_theme(),
            sidebar_width: default_sidebar_width(),
            font_family: default_font_family(),
            font_size: default_font_size(),
            card_font_size: default_card_font_size(),
            card_icon_scale: default_card_icon_scale(),
            dbl_click_blank_to_hide: default_dbl_click_blank_to_hide(),
            always_on_top: default_always_on_top(),
            hide_on_startup: default_hide_on_startup(),
            use_relative_path: default_use_relative_path(),
            enable_group_drag_sort: default_enable_group_drag_sort(),
            auto_start: false,
        }
    }
}

/// The saved toggle hotkey: the trimmed setting, or none where it is blank.
pub fn saved_hotkey(settings: &UiSettings) -> (r: Option<String>)
    ensures
        trim_spec(settings.toggle_hotkey@).len() == 0 ==> r is None,
        trim_spec(settings.toggle_hotkey@).len() != 0 ==> (r matches Some(v) && v@ == trim_spec(
            settings.toggle_hotkey@,
        )),
{
    let v = trim(settings.toggle_hotkey.as_str());
    if v.unicode_len() == 0 {
        None
    } else {
        Some(String::from_str(v))
    }
}

} // verus!
