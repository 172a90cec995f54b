//! Input handling for the stage-edit popup: a one-line text buffer over
//! the record whose stage is being rewritten. The buffer starts as a
//! copy of the record's stage, so what is committed is exactly what the
//! buffer holds when Enter is pressed — nothing of the old stage
//! survives an edit that removed it.

use vstd::prelude::*;

use crate::records::staged_record;
use crate::text::string_pop;
use crate::text::string_push;
use crate::types::Action;
use crate::types::Date;
use crate::types::GuiState;
use crate::types::Key;
use crate::types::WindowFocus;

verus! {

/// What one key does while the stage-edit window has the focus: Esc
/// discards the buffer, Enter commits it as the record's new stage
/// (dating the record today), characters and Backspace edit the buffer,
/// everything else is ignored.
pub open spec fn stage_edit_transition(
    pre: GuiState,
    post: GuiState,
    key: Key,
    today: Date,
    act: Action,
) -> bool {
    pre.focus matches WindowFocus::StageEdit(txt, ri) && act is Continue && match key {
        Key::Esc => post == (GuiState { focus: WindowFocus::Table, ..pre }),
        Key::Enter => {
            &&& post.rdr@ == pre.rdr@.update(ri as int, staged_record(pre.rdr@[ri as int], txt, today))
            &&& post.focus is Table
            &&& post.selected == pre.selected
            &&& post.view == pre.view
            &&& post.changed_this_session == pre.changed_this_session
            &&& post.search == pre.search
            &&& post.add == pre.add
        },
        Key::Char(c) => {
            &&& (post.focus matches WindowFocus::StageEdit(t2, ri2) && t2@ == txt@.push(c) && ri2
                == ri)
            &&& post.rdr == pre.rdr
            &&& post.selected == pre.selected
            &&& post.view == pre.view
            &&& post.changed_this_session == pre.changed_this_session
            &&& post.search == pre.search
            &&& post.add == pre.add
        },
        Key::Backspace => {
            &&& (post.focus matches WindowFocus::StageEdit(t2, ri2) && t2@ == (if txt@.len() == 0 {
                txt@
            } else {
                txt@.drop_last()
            }) && ri2 == ri)
            &&& post.rdr == pre.rdr
            &&& post.selected == pre.selected
            &&& post.view == pre.view
            &&& post.changed_this_session == pre.changed_this_session
            &&& post.search == pre.search
            &&& post.add == pre.add
        },
        _ => post == pre,
    }
}

/// handle input for the stage-edit popup
pub fn handle_input(state: &mut GuiState, key: Key, today: Date) -> (act: Action)
    requires
        old(state).wf(),
        old(state).focus is StageEdit,
    ensures
        final(state).wf(),
        stage_edit_transition(*old(state), *final(state), key, today, act),
{
    match key {
        Key::Esc => {
            state.focus = WindowFocus::Table;
        },
        Key::Enter => {
            let (txt, real_index) = match &state.focus {
                WindowFocus::StageEdit(t, i) => (t.clone(), *i),
                _ => (String::new(), 0),
            };
            let record = &mut state.rdr.0[real_index];
            record.set_stage(txt, today);
            state.focus = WindowFocus::Table;
        },
        Key::Char(c) => {
            match &mut state.focus {
                WindowFocus::StageEdit(txt, _) => {
                    string_push(txt, c);
                },
                _ => {},
            }
        },
        Key::Backspace => {
            match &mut state.focus {
                WindowFocus::StageEdit(txt, _) => {
                    string_pop(txt);
                },
                _ => {},
            }
        },
        _ => {},
    }
    Action::Continue
}

} // verus!
