//! A row of tabs with a cursor that wraps around.

use vstd::prelude::*;
use crate::ui::key::Key;

verus! {

/// The tab after `selected` among `len` tabs, wrapping from the last to the first.
pub open spec fn next_index(selected: int, len: int) -> int {
    (selected + 1) % len
}

/// The tab before `selected` among `len` tabs, wrapping from the first to the last.
pub open spec fn previous_index(selected: int, len: int) -> int {
    (selected + len - 1) % len
}

/// The tab bar's state.
pub struct App {
    pub titles: Vec<&'static str>,
    pub selected_tab: usize,
}

impl App {
    /// Moves to the next tab, wrapping from the last to the first.
    pub fn next_tab(&mut self)
        requires
            old(self).titles@.len() > 0,
            old(self).selected_tab < usize::MAX,
        ensures
            final(self).titles@ == old(self).titles@,
            final(self).selected_tab == next_index(
                old(self).selected_tab as int,
                old(self).titles@.len() as int,
            ),
            final(self).selected_tab < final(self).titles@.len(),
    {
        let len = self.titles.len();
        self.selected_tab = (self.selected_tab + 1) % len;
    }

    /// Moves to the previous tab, wrapping from the first to the last.
    pub fn previous_tab(&mut self)
        requires
            old(self).titles@.len() > 0,
            old(self).selected_tab + old(self).titles@.len() <= usize::MAX,
        ensures
            final(self).titles@ == old(self).titles@,
            final(self).selected_tab == previous_index(
                old(self).selected_tab as int,
                old(self).titles@.len() as int,
            ),
            final(self).selected_tab < final(self).titles@.len(),
    {
        // equivalent to subtracting 1
        let len = self.titles.len();
        self.selected_tab = (self.selected_tab + (len - 1)) % len;
    }

    /// Reacts to a key: Esc or `q` quits (returns false), `h` or Left goes
    /// to the previous tab, `l` or Right to the next; other keys do nothing.
    pub fn handle_key(&mut self, key: Key) -> (r: bool)
        requires
            old(self).titles@.len() > 0,
            old(self).selected_tab < old(self).titles@.len(),
            old(self).selected_tab + old(self).titles@.len() <= usize::MAX,
        ensures
            final(self).titles@ == old(self).titles@,
            final(self).selected_tab < final(self).titles@.len(),
            !r <==> (key == Key::Esc || key == Key::Char('q')),
            (key == Key::Char('h') || key == Key::Left) ==> final(self).selected_tab
                == previous_index(old(self).selected_tab as int, old(self).titles@.len() as int),
            (key == Key::Char('l') || key == Key::Right) ==> final(self).selected_tab
                == next_index(old(self).selected_tab as int, old(self).titles@.len() as int),
            !(key == Key::Char('h') || key == Key::Left || key == Key::Char('l') || key
                == Key::Right) ==> final(self).selected_tab == old(self).selected_tab,
    {
        match key {
            Key::Esc | Key::Char('q') => false,
            Key::Char('h') | Key::Left => {
                self.previous_tab();
                true
            },
            Key::Char('l') | Key::Right => {
                self.next_tab();
                true
            },
            _ => true,
        }
    }
}

/// The text shown under each of the three tabs.
pub fn tab_text(selected_tab: usize) -> (r: &'static str)
    requires
        selected_tab < 3,
    ensures
        selected_tab == 0 ==> r@ == "First tab's text"@,
        selected_tab == 1 ==> r@ == "Second tab also has text"@,
        selected_tab == 2 ==> r@ == "Definitely tab 3's text"@,
{
    if selected_tab == 0 {
        "First tab's text"
    } else if selected_tab == 1 {
        "Second tab also has text"
    } else {
        "Definitely tab 3's text"
    }
}

/// A value below twice the modulus reduces by at most one modulus.
proof fn lemma_mod_below_twice(x: int, len: int)
    requires
        0 <= x < 2 * len,
    ensures
        x % len == (if x < len { x } else { x - len }),
{
    if x < len {
        vstd::arithmetic::div_mod::lemma_small_mod(x as nat, len as nat);
    } else {
        vstd::arithmetic::div_mod::lemma_mod_add_multiples_vanish(x - len, len);
        vstd::arithmetic::div_mod::lemma_small_mod((x - len) as nat, len as nat);
    }
}

/// Going to the next tab and then to the previous one comes back to the
/// tab one started from, and so does the other order.
pub proof fn lemma_next_previous_inverse(selected: int, len: int)
    requires
        0 <= selected < len,
    ensures
        previous_index(next_index(selected, len), len) == selected,
        next_index(previous_index(selected, len), len) == selected,
{
    lemma_mod_below_twice(selected + 1, len);
    lemma_mod_below_twice(((selected + 1) % len) + len - 1, len);
    lemma_mod_below_twice(selected + len - 1, len);
    lemma_mod_below_twice(((selected + len - 1) % len) + 1, len);
}

} // verus!
