//! Two windows and a popup that a key shows and hides.

use vstd::prelude::*;

verus! {

/// Whether the popup is shown.
pub struct App {
    pub show_popup: bool,
}

impl Default for App {
    fn default() -> (r: Self)
        ensures
            !r.show_popup,
    {
        App { show_popup: false }
    }
}

impl App {
    /// Shows the popup if hidden, hides it if shown.
    pub fn toggle_popup(&mut self)
        ensures
            final(self).show_popup == !old(self).show_popup,
    {
        self.show_popup = !self.show_popup;
    }
}

} // verus!
