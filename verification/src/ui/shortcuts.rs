//! The keyboard shortcuts of the main window.
use vstd::prelude::*;

use crate::text::{ascii_lower, str_eq, to_ascii_lowercase};

verus! {

/// A key press as the shortcuts read it.
#[derive(Clone, Debug, PartialEq, Eq)]
pub enum KeyPress {
    /// A key that types text.
    Character(String),
    /// The Escape key.
    Escape,
    /// Any other key.
    Other,
}

/// What a shortcut does.
#[derive(Clone, Copy, Debug, PartialEq, Eq)]
pub enum Shortcut {
    /// Opens the search palette, or closes it when it is open.
    ToggleSearch,
    /// Reloads the data of the workspace.
    Refresh,
    /// Ends the connection.
    Disconnect,
    /// Closes the open search palette.
    CloseSearch,
}

/// The key types `letter` whatever the case.
pub open spec fn types_letter(key: KeyPress, letter: char) -> bool {
    key matches KeyPress::Character(k) && ascii_lower(k@) == seq![letter]
}

/// The shortcut of a key press: Cmd+K toggles the search palette, Cmd+R
/// refreshes, Cmd+Shift+D disconnects, and Escape closes an open palette.
/// `meta` is the Command (or Super) modifier.
pub open spec fn shortcut_of(key: KeyPress, meta: bool, shift: bool, search_open: bool) -> Option<
    Shortcut,
> {
    if meta && !shift && types_letter(key, 'k') {
        Some(Shortcut::ToggleSearch)
    } else if meta && !shift && types_letter(key, 'r') {
        Some(Shortcut::Refresh)
    } else if meta && shift && types_letter(key, 'd') {
        Some(Shortcut::Disconnect)
    } else if key is Escape && search_open {
        Some(Shortcut::CloseSearch)
    } else {
        None
    }
}

fn key_is_letter(key: &KeyPress, letter: &str) -> (r: bool)
    requires
        letter@.len() == 1,
    ensures
        r == types_letter(*key, letter@[0]),
{
    match key {
        KeyPress::Character(k) => {
            let lower = to_ascii_lowercase(k.as_str());
            let r = str_eq(lower.as_str(), letter);
            assert(letter@ =~= seq![letter@[0]]);
            r
        },
        _ => false,
    }
}

/// The shortcut of a key press, if it is one.
pub fn shortcut_for(key: &KeyPress, meta: bool, shift: bool, search_open: bool) -> (r: Option<
    Shortcut,
>)
    ensures
        r == shortcut_of(*key, meta, shift, search_open),
{
    proof {
        reveal_strlit("k");
        reveal_strlit("r");
        reveal_strlit("d");
    }
    if meta && !shift && key_is_letter(key, "k") {
        Some(Shortcut::ToggleSearch)
    } else if meta && !shift && key_is_letter(key, "r") {
        Some(Shortcut::Refresh)
    } else if meta && shift && key_is_letter(key, "d") {
        Some(Shortcut::Disconnect)
    } else if matches!(key, KeyPress::Escape) && search_open {
        Some(Shortcut::CloseSearch)
    } else {
        None
    }
}

/// Whether the key press is kept from reaching the page: so it is for every
/// shortcut but closing the palette.
pub fn prevents_default(s: Shortcut) -> (r: bool)
    ensures
        r == !(s is CloseSearch),
{
    !matches!(s, Shortcut::CloseSearch)
}

} // verus!
