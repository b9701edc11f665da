//! A main window and a side window that a key opens and closes.

use vstd::prelude::*;

verus! {

/// Whether the side window is shown.
pub struct App {
    pub show_side_win: bool,
}

impl App {
    /// Only the main window is shown.
    pub fn new() -> (r: Self)
        ensures
            !r.show_side_win,
    {
        App { show_side_win: false }
    }

    /// Opens the side window if closed, closes it if open.
    pub fn toggle_side_window(&mut self)
        ensures
            final(self).show_side_win == !old(self).show_side_win,
    {
        self.show_side_win = !self.show_side_win;
    }
}

} // verus!
