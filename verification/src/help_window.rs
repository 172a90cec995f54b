//! Input handling for the help overlay: a read-only window that closes
//! on Esc or `q` and swallows everything else.

use vstd::prelude::*;

use crate::types::Action;
use crate::types::GuiState;
use crate::types::Key;
use crate::types::WindowFocus;

verus! {

/// What one key does while the help window has the focus: Esc or `q`
/// return to the table, everything else is ignored.
pub open spec fn help_transition(pre: GuiState, post: GuiState, key: Key, act: Action) -> bool {
    act is Continue && match key {
        Key::Esc => post == (GuiState { focus: WindowFocus::Table, ..pre }),
        Key::Char(c) => if c == 'q' {
            post == (GuiState { focus: WindowFocus::Table, ..pre })
        } else {
            post == pre
        },
        _ => post == pre,
    }
}

/// help window input handler
pub fn handle_input(state: &mut GuiState, key: Key) -> (act: Action)
    requires
        old(state).wf(),
        old(state).focus is Help,
    ensures
        final(state).wf(),
        help_transition(*old(state), *final(state), key, act),
{
    match key {
        Key::Esc => {
            state.focus = WindowFocus::Table;
        },
        Key::Char(c) => {
            if c == 'q' {
                state.focus = WindowFocus::Table;
            }
        },
        _ => {},
    }
    Action::Continue
}

} // verus!
