//! Input handling for the add/edit popup: a three-field form (company,
//! job name, place) with a cursor cycling among the fields. Confirming
//! the form builds a fresh record — appended when adding, replacing in
//! place when editing — and asks the caller to persist at once: a full
//! entry is a complete, low-frequency transaction, unlike the quick
//! status and stage edits that are only written out at session end.

use vstd::prelude::*;

use crate::records::is_new_record;
use crate::records::Record;
use crate::text::string_pop;
use crate::text::string_push;
use crate::types::Action;
use crate::types::AddStruct;
use crate::types::Date;
use crate::types::GuiState;
use crate::types::Key;
use crate::types::WindowFocus;

verus! {

/// The form after one character was appended to the focused field.
pub open spec fn form_with_char(f: AddStruct, g: AddStruct, c: char) -> bool {
    &&& g.focus == f.focus
    &&& g.modify == f.modify
    &&& match f.focus {
        crate::types::AddFocusField::Company => g.company@ == f.company@.push(c) && g.jobname
            == f.jobname && g.place == f.place,
        crate::types::AddFocusField::JobName => g.jobname@ == f.jobname@.push(c) && g.company
            == f.company && g.place == f.place,
        crate::types::AddFocusField::Place => g.place@ == f.place@.push(c) && g.company
            == f.company && g.jobname == f.jobname,
    }
}

/// The form after the last character of the focused field was removed
/// (a no-op on an empty field).
pub open spec fn form_with_backspace(f: AddStruct, g: AddStruct) -> bool {
    &&& g.focus == f.focus
    &&& g.modify == f.modify
    &&& match f.focus {
        crate::types::AddFocusField::Company => g.company@ == (if f.company@.len() == 0 {
            f.company@
        } else {
            f.company@.drop_last()
        }) && g.jobname == f.jobname && g.place == f.place,
        crate::types::AddFocusField::JobName => g.jobname@ == (if f.jobname@.len() == 0 {
            f.jobname@
        } else {
            f.jobname@.drop_last()
        }) && g.company == f.company && g.place == f.place,
        crate::types::AddFocusField::Place => g.place@ == (if f.place@.len() == 0 {
            f.place@
        } else {
            f.place@.drop_last()
        }) && g.company == f.company && g.jobname == f.jobname,
    }
}

/// Confirming the form: a fresh record built from the three fields,
/// dated today with status Todo. With a modify index the record at that
/// index is replaced in place and the collection keeps its length;
/// without one the record is appended and the length grows by exactly
/// one. The form closes, the table regains the focus with the last
/// visible row selected, and the caller is asked to persist now.
pub open spec fn commit_transition(pre: GuiState, post: GuiState, f: AddStruct, today: Date) -> bool {
    let nvis = post.visible_indices(today).len();
    &&& match f.modify {
        Some(ix) => {
            &&& post.rdr@.len() == pre.rdr@.len()
            &&& is_new_record(post.rdr@[ix as int], f.company@, f.jobname@, f.place@, today)
            &&& (forall|k: int|
                0 <= k < pre.rdr@.len() && k != ix as int ==> post.rdr@[k] == pre.rdr@[k])
        },
        None => {
            &&& post.rdr@.len() == pre.rdr@.len() + 1
            &&& post.rdr@.drop_last() == pre.rdr@
            &&& is_new_record(post.rdr@.last(), f.company@, f.jobname@, f.place@, today)
        },
    }
    &&& post.add is None
    &&& post.focus is Table
    &&& post.selected as int == (if nvis > 0 {
        nvis - 1
    } else {
        0int
    })
    &&& post.view == pre.view
    &&& post.changed_this_session == pre.changed_this_session
    &&& post.search == pre.search
}

/// What one key does while the add window has the focus.
pub open spec fn add_transition(
    pre: GuiState,
    post: GuiState,
    key: Key,
    today: Date,
    act: Action,
) -> bool {
    pre.add matches Some(f) && match key {
        Key::Esc => act is Continue && post == (GuiState {
            focus: WindowFocus::Table,
            add: None,
            ..pre
        }),
        Key::Up => act is Continue && post == (GuiState {
            add: Some(AddStruct { focus: f.focus.spec_prev(), ..f }),
            ..pre
        }),
        Key::Down | Key::Tab => act is Continue && post == (GuiState {
            add: Some(AddStruct { focus: f.focus.spec_next(), ..f }),
            ..pre
        }),
        Key::Char(c) => {
            &&& act is Continue
            &&& (post.add matches Some(g) && form_with_char(f, g, c))
            &&& post.rdr == pre.rdr
            &&& post.selected == pre.selected
            &&& post.view == pre.view
            &&& post.focus == pre.focus
            &&& post.changed_this_session == pre.changed_this_session
            &&& post.search == pre.search
        },
        Key::Backspace => {
            &&& act is Continue
            &&& (post.add matches Some(g) && form_with_backspace(f, g))
            &&& post.rdr == pre.rdr
            &&& post.selected == pre.selected
            &&& post.view == pre.view
            &&& post.focus == pre.focus
            &&& post.changed_this_session == pre.changed_this_session
            &&& post.search == pre.search
        },
        Key::Enter => act is Persist && commit_transition(pre, post, f, today),
        _ => act is Continue && post == pre,
    }
}

/// add window input handler
pub fn handle_input(state: &mut GuiState, key: Key, today: Date) -> (act: Action)
    requires
        old(state).wf(),
        old(state).focus is Add,
    ensures
        final(state).wf(),
        add_transition(*old(state), *final(state), key, today, act),
{
    match key {
        Key::Esc => {
            state.focus = WindowFocus::Table;
            state.add = None;
            Action::Continue
        },
        Key::Up => {
            match &mut state.add {
                Some(f) => {
                    let moved = f.focus.prev();
                    f.focus = moved;
                },
                None => {},
            }
            Action::Continue
        },
        Key::Down | Key::Tab => {
            match &mut state.add {
                Some(f) => {
                    let moved = f.focus.next();
                    f.focus = moved;
                },
                None => {},
            }
            Action::Continue
        },
        Key::Char(c) => {
            match &mut state.add {
                Some(f) => {
                    match f.focus {
                        crate::types::AddFocusField::Company => string_push(&mut f.company, c),
                        crate::types::AddFocusField::JobName => string_push(&mut f.jobname, c),
                        crate::types::AddFocusField::Place => string_push(&mut f.place, c),
                    }
                },
                None => {},
            }
            Action::Continue
        },
        Key::Backspace => {
            match &mut state.add {
                Some(f) => {
                    match f.focus {
                        crate::types::AddFocusField::Company => {
                            string_pop(&mut f.company);
                        },
                        crate::types::AddFocusField::JobName => {
                            string_pop(&mut f.jobname);
                        },
                        crate::types::AddFocusField::Place => {
                            string_pop(&mut f.place);
                        },
                    }
                },
                None => {},
            }
            Action::Continue
        },
        Key::Enter => {
            let (company, jobname, place, modify) = match &state.add {
                Some(f) => (f.company.clone(), f.jobname.clone(), f.place.clone(), f.modify),
                None => (String::new(), String::new(), String::new(), None),
            };
            let record = Record::new(company, jobname, place, today);
            match modify {
                Some(index) => {
                    let slot = &mut state.rdr.0[index];
                    *slot = record;
                },
                None => {
                    state.rdr.0.push(record);
                    proof {
                        assert(state.rdr@.drop_last() =~= old(state).rdr@);
                    }
                },
            }
            state.add = None;
            state.focus = WindowFocus::Table;
            let nvis = state.visible_count(today);
            let ghost mid = *state;
            state.selected = if nvis > 0 {
                nvis - 1
            } else {
                0
            };
            proof {
                GuiState::lemma_visible_up_to_agrees(mid, *state, mid.rdr@.len() as int, today);
            }
            Action::Persist
        },
        _ => Action::Continue,
    }
}

} // verus!
