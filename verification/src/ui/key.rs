//! Key presses as the interfaces see them.

use vstd::prelude::*;

verus! {

/// The key of a key press.
#[derive(Debug, Clone, Copy, PartialEq, Eq, Structural)]
pub enum Key {
    Char(char),
    Enter,
    Esc,
    Tab,
    Left,
    Right,
    /// Any other key.
    Other,
}

/// A key press: the key, and whether the control modifier was held.
#[derive(Debug, Clone, Copy, PartialEq, Eq, Structural)]
pub struct KeyPress {
    pub code: Key,
    pub ctrl: bool,
}

/// The names of the held modifiers, in the order Control, Alt, Shift.
pub open spec fn modifier_names(ctrl: bool, alt: bool, shift: bool) -> Seq<Seq<char>> {
    (if ctrl { seq!["CTRL"@] } else { Seq::empty() }) + (if alt { seq!["Alt"@] } else {
        Seq::empty()
    }) + (if shift { seq!["Shift"@] } else { Seq::empty() })
}

/// The names shown for the modifiers held with a key.
pub fn modifier_labels(ctrl: bool, alt: bool, shift: bool) -> (r: Vec<&'static str>)
    ensures
        r@.map_values(|s: &'static str| s@) == modifier_names(ctrl, alt, shift),
{
    let mut r: Vec<&'static str> = Vec::new();
    if ctrl {
        r.push("CTRL");
    }
    if alt {
        r.push("Alt");
    }
    if shift {
        r.push("Shift");
    }
    assert(r@.map_values(|s: &'static str| s@) =~= modifier_names(ctrl, alt, shift));
    r
}

} // verus!
