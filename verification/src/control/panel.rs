//! The list of power commands an operator picks from.

use vstd::prelude::*;
use crate::devices::power::{command_label, Fault, PowerCommand, PowerMode};

verus! {

/// Number of commands in the panel.
pub const PANEL_LEN: usize = 6;

/// The commands of the panel, in display order.
pub open spec fn panel_commands() -> Seq<PowerCommand> {
    seq![
        PowerCommand::SetMode(PowerMode::Idle),
        PowerCommand::SetMode(PowerMode::Charging),
        PowerCommand::SetMode(PowerMode::Discharging),
        PowerCommand::ClearFault,
        PowerCommand::InjectFault(Fault::OverTemp),
        PowerCommand::InjectFault(Fault::UnderVoltage),
    ]
}

/// A list of power commands with a selection cursor. The cursor moves like
/// a list widget's: it may run past the last item until the list is drawn.
pub struct CommandPanel {
    commands: [PowerCommand; 6],
    selected: Option<usize>,
}

impl CommandPanel {
    /// The commands shown, in order.
    pub closed spec fn commands_view(&self) -> Seq<PowerCommand> {
        self.commands@
    }

    /// The cursor position, if any.
    pub closed spec fn selection_view(&self) -> Option<usize> {
        self.selected
    }

    /// The cursor is on an item or absent.
    pub open spec fn selection_valid(&self) -> bool {
        self.selection_view() matches Some(i) ==> i < PANEL_LEN
    }

    /// The cursor position, if any.
    pub fn selection(&self) -> (r: Option<usize>)
        ensures
            r == self.selection_view(),
    {
        self.selected
    }

    /// Moves the cursor down one item (onto the first item when there is no cursor).
    pub fn next(&mut self)
        ensures
            final(self).commands_view() == old(self).commands_view(),
            final(self).selection_view() == Some(
                match old(self).selection_view() {
                    Some(i) => if i < usize::MAX {
                        (i + 1) as usize
                    } else {
                        usize::MAX
                    },
                    None => 0usize,
                },
            ),
    {
        let next = match self.selected {
            Some(i) => if i < usize::MAX {
                i + 1
            } else {
                usize::MAX
            },
            None => 0,
        };
        self.selected = Some(next);
    }

    /// Moves the cursor up one item (to the end of the list when there is no cursor).
    pub fn previous(&mut self)
        ensures
            final(self).commands_view() == old(self).commands_view(),
            final(self).selection_view() == Some(
                match old(self).selection_view() {
                    Some(i) => if i > 0 {
                        (i - 1) as usize
                    } else {
                        0usize
                    },
                    None => usize::MAX,
                },
            ),
    {
        let previous = match self.selected {
            Some(i) => if i > 0 {
                i - 1
            } else {
                0
            },
            None => usize::MAX,
        };
        self.selected = Some(previous);
    }

    /// Puts the cursor where the drawn list left it.
    pub fn set_selection(&mut self, selected: Option<usize>)
        ensures
            final(self).commands_view() == old(self).commands_view(),
            final(self).selection_view() == selected,
    {
        self.selected = selected;
    }

    /// The command under the cursor, if there is a cursor.
    pub fn selected(&self) -> (r: Option<PowerCommand>)
        requires
            self.selection_valid(),
        ensures
            r == (match self.selection_view() {
                Some(i) => Some(self.commands_view()[i as int]),
                None => None,
            }),
    {
        match self.selected {
            Some(index) => Some(self.commands[index]),
            None => None,
        }
    }

    /// The display text of each command, in order.
    pub fn list_commands(&self) -> (r: Vec<String>)
        ensures
            r@.len() == self.commands_view().len(),
            forall|i: int| 0 <= i < r@.len() ==> #[trigger] r@[i]@ == command_label(self.commands_view()[i]),
    {
        let mut out: Vec<String> = Vec::new();
        for i in 0..PANEL_LEN
            invariant
                self.commands@.len() == PANEL_LEN,
                out@.len() == i,
                forall|j: int| 0 <= j < i ==> #[trigger] out@[j]@ == command_label(self.commands@[j]),
        {
            out.push(self.commands[i].to_string());
        }
        out
    }
}

impl Default for CommandPanel {
    fn default() -> (r: Self)
        ensures
            r.commands_view() == panel_commands(),
            r.selection_view() == Some(0usize),
    {
        let r = CommandPanel {
            commands: [
                PowerCommand::SetMode(PowerMode::Idle),
                PowerCommand::SetMode(PowerMode::Charging),
                PowerCommand::SetMode(PowerMode::Discharging),
                PowerCommand::ClearFault,
                PowerCommand::InjectFault(Fault::OverTemp),
                PowerCommand::InjectFault(Fault::UnderVoltage),
            ],
            selected: Some(0),
        };
        assert(r.commands@ =~= panel_commands());
        r
    }
}

} // verus!
