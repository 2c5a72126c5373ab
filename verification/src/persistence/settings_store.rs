//! User settings and the saved window geometry.
use vstd::prelude::*;
use vstd::string::StringExecFns;

verus! {

/// The user's settings.
#[derive(Debug, Clone)]
pub struct Settings {
    pub theme: String,
}

/// The theme of settings that do not set one.
pub fn default_theme() -> (r: String)
    ensures
        r@ == "system"@,
{
    String::from_str("system")
}

impl Default for Settings {
    fn default() -> (r: Self)
        ensures
            r.theme@ == "system"@,
    {
        Self { theme: default_theme() }
    }
}

/// The geometry of the main window when it was last closed.
#[derive(Debug, Clone, Copy, PartialEq, Eq)]
pub struct WindowState {
    pub width: u32,
    pub height: u32,
    pub x: i32,
    pub y: i32,
}

impl WindowState {
    /// Returns `true` if dimensions are positive, guarding against a 0×0 window
    /// that can occur when deserializing an empty or partially-written JSON file.
    pub fn is_valid(&self) -> (r: bool)
        ensures
            r == (self.width > 0 && self.height > 0),
    {
        self.width > 0 && self.height > 0
    }
}

} // verus!
