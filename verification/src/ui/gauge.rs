//! A counter shown as a gauge: it grows in steps of seven up to 100.

use vstd::prelude::*;
use crate::ui::key::Key;

verus! {

/// What the gauge reacts to.
#[derive(Debug, Clone, Copy, PartialEq, Eq, Structural)]
pub enum Message {
    Increment,
    Reset,
    Exit,
}

/// The gauge's state.
pub struct App {
    pub count: u16,
    pub exit: bool,
}

impl Default for App {
    fn default() -> (r: Self)
        ensures
            r.count == 0,
            !r.exit,
    {
        App { count: 0, exit: false }
    }
}

/// The count after an increment: seven more, but never above 100.
pub open spec fn incremented(count: u16) -> u16 {
    if count + 7 <= 100 {
        (count + 7) as u16
    } else {
        100
    }
}

impl App {
    /// Applies a message: increment by seven capped at 100, reset to 0, or exit.
    pub fn update(&mut self, message: Message)
        requires
            message == Message::Increment ==> old(self).count + 7 <= u16::MAX,
        ensures
            message == Message::Increment ==> final(self).count == incremented(old(self).count)
                && final(self).exit == old(self).exit,
            message == Message::Reset ==> final(self).count == 0 && final(self).exit == old(self).exit,
            message == Message::Exit ==> final(self).count == old(self).count && final(self).exit,
            old(self).count <= 100 ==> final(self).count <= 100,
    {
        match message {
            Message::Increment => {
                let next = self.count + 7;
                self.count = if next < 100 {
                    next
                } else {
                    100
                };
            },
            Message::Reset => self.count = 0,
            Message::Exit => self.exit = true,
        }
    }
}

/// The message for a key: `r` resets, any other key exits.
pub fn message_for_key(key: Key) -> (r: Message)
    ensures
        r == (if key == Key::Char('r') { Message::Reset } else { Message::Exit }),
{
    match key {
        Key::Char('r') => Message::Reset,
        _ => Message::Exit,
    }
}

} // verus!
