//! Input handling for the table, the base window of the interactive
//! session. Every key the table consumes is specified by
//! [`table_transition`]; the search bar delegates its unclaimed keys
//! here, so the same transition also governs navigation while a search
//! filter is active.

use vstd::prelude::*;

use crate::records::advanced_record;
use crate::types::Action;
use crate::types::AddFocusField;
use crate::types::AddStruct;
use crate::types::Date;
use crate::types::GuiState;
use crate::types::Key;
use crate::types::Save;
use crate::types::WindowFocus;

verus! {

/// The selection cursor after a navigation key: moved one row up or
/// down, or jumped to the first or last row, then clamped to the
/// visible rows (to 0 when no row is visible).
pub open spec fn nav_selected(selected: int, nvis: int, key: Key) -> int {
    let target = match key {
        Key::Up => if selected > 0 {
            selected - 1
        } else {
            0
        },
        Key::Down => selected + 1,
        Key::PageUp => 0,
        Key::PageDown => nvis - 1,
        _ => selected,
    };
    if nvis <= 0 {
        0
    } else if target > nvis - 1 {
        nvis - 1
    } else if target < 0 {
        0
    } else {
        target
    }
}

/// The fields a pure record edit leaves alone: everything except the
/// records themselves and the changed-this-session set.
pub open spec fn same_ui(pre: GuiState, post: GuiState) -> bool {
    &&& post.selected == pre.selected
    &&& post.view == pre.view
    &&& post.focus == pre.focus
    &&& post.search == pre.search
    &&& post.add == pre.add
}

/// Enter on the table: the selected visible row is resolved to its real
/// index, that record's status is advanced one step (dating it today),
/// and the index is remembered as changed this session. Without a
/// selected visible row nothing happens.
pub open spec fn advance_transition(pre: GuiState, post: GuiState, today: Date) -> bool {
    let vis = pre.visible_indices(today);
    if (pre.selected as int) < vis.len() {
        let ri = vis[pre.selected as int];
        &&& post.rdr@ == pre.rdr@.update(ri, advanced_record(pre.rdr@[ri], today))
        &&& post.changed_this_session@ == pre.changed_this_session@.insert(ri as usize)
        &&& same_ui(pre, post)
    } else {
        post == pre
    }
}

/// Delete on the table: the record at the resolved real index leaves
/// the collection; every other record is untouched. Without a selected
/// visible row nothing happens.
pub open spec fn delete_transition(pre: GuiState, post: GuiState, today: Date) -> bool {
    let vis = pre.visible_indices(today);
    if (pre.selected as int) < vis.len() {
        let ri = vis[pre.selected as int];
        &&& post.rdr@ == pre.rdr@.remove(ri)
        &&& post.changed_this_session == pre.changed_this_session
        &&& same_ui(pre, post)
    } else {
        post == pre
    }
}

/// `s` on the table: the stage-edit window opens over the resolved
/// record, its buffer pre-filled with that record's current stage, and
/// the index is remembered as changed this session.
pub open spec fn stage_open_transition(pre: GuiState, post: GuiState, today: Date) -> bool {
    let vis = pre.visible_indices(today);
    if (pre.selected as int) < vis.len() {
        let ri = vis[pre.selected as int];
        &&& post.focus == WindowFocus::StageEdit(pre.rdr@[ri].stage, ri as usize)
        &&& post.changed_this_session@ == pre.changed_this_session@.insert(ri as usize)
        &&& post.rdr == pre.rdr
        &&& post.selected == pre.selected
        &&& post.view == pre.view
        &&& post.search == pre.search
        &&& post.add == pre.add
    } else {
        post == pre
    }
}

/// `a` on the table: the add window opens with a blank form.
pub open spec fn add_open_transition(pre: GuiState, post: GuiState) -> bool {
    &&& post.focus is Add
    &&& (post.add matches Some(f) && f.company@ == Seq::<char>::empty() && f.jobname@
        == Seq::<char>::empty() && f.place@ == Seq::<char>::empty() && f.focus is Company
        && f.modify is None)
    &&& post.rdr == pre.rdr
    &&& post.selected == pre.selected
    &&& post.view == pre.view
    &&& post.changed_this_session == pre.changed_this_session
    &&& post.search == pre.search
}

/// `e` on the table: the add window opens pre-filled from the resolved
/// record, remembering that record's index so that confirming the form
/// replaces it in place.
pub open spec fn edit_open_transition(pre: GuiState, post: GuiState, today: Date) -> bool {
    let vis = pre.visible_indices(today);
    if (pre.selected as int) < vis.len() {
        let ri = vis[pre.selected as int];
        &&& post.focus is Add
        &&& (post.add matches Some(f) && f.company == pre.rdr@[ri].name && f.jobname == pre.rdr@[
            ri].subname && f.place == pre.rdr@[ri].place && f.focus is Company && f.modify
            == Some(ri as usize))
        &&& post.rdr == pre.rdr
        &&& post.selected == pre.selected
        &&& post.view == pre.view
        &&& post.changed_this_session == pre.changed_this_session
        &&& post.search == pre.search
    } else {
        post == pre
    }
}

/// `i` on the table: the info window opens, provided the selection
/// resolves to a record it can show.
pub open spec fn info_open_transition(pre: GuiState, post: GuiState, today: Date) -> bool {
    if (pre.selected as int) < pre.visible_indices(today).len() {
        post == (GuiState { focus: WindowFocus::Info, ..pre })
    } else {
        post == pre
    }
}

/// What one key does to the table: the transition relation of the base
/// window of the state machine. Keys the table does not know are
/// ignored.
pub open spec fn table_transition(
    pre: GuiState,
    post: GuiState,
    key: Key,
    today: Date,
    act: Action,
) -> bool {
    match key {
        Key::Esc => post == pre && act == Action::Exit(Save::DoNotSave),
        Key::Up | Key::Down | Key::PageUp | Key::PageDown => act is Continue && post == (GuiState {
            selected: nav_selected(
                pre.selected as int,
                pre.visible_indices(today).len() as int,
                key,
            ) as usize,
            ..pre
        }),
        Key::Enter => act is Continue && advance_transition(pre, post, today),
        Key::Delete => act is Continue && delete_transition(pre, post, today),
        Key::Char(c) => if c == 'q' {
            post == pre && act == Action::Exit(Save::Save)
        } else {
            act is Continue && if c == 'v' {
                post == (GuiState { view: pre.view.spec_next(), ..pre })
            } else if c == 's' {
                stage_open_transition(pre, post, today)
            } else if c == '?' {
                post == (GuiState { focus: WindowFocus::Help, ..pre })
            } else if c == '/' {
                post == (GuiState { focus: WindowFocus::Search, ..pre })
            } else if c == 'a' {
                add_open_transition(pre, post)
            } else if c == 'i' {
                info_open_transition(pre, post, today)
            } else if c == 'e' {
                edit_open_transition(pre, post, today)
            } else {
                post == pre
            }
        },
        _ => post == pre && act is Continue,
    }
}

/// Move the selection cursor for one navigation key and clamp it to the
/// visible rows.
fn navigate(state: &mut GuiState, key: Key, today: Date)
    requires
        key is Up || key is Down || key is PageUp || key is PageDown,
    ensures
        *final(state) == (GuiState {
            selected: nav_selected(
                old(state).selected as int,
                old(state).visible_indices(today).len() as int,
                key,
            ) as usize,
            ..*old(state)
        }),
{
    let nvis = state.visible_count(today);
    let sel = state.selected;
    let new_sel: usize = if nvis == 0 {
        0
    } else {
        match key {
            Key::Up => {
                let t = if sel > 0 {
                    sel - 1
                } else {
                    0
                };
                if t > nvis - 1 {
                    nvis - 1
                } else {
                    t
                }
            },
            Key::Down => {
                if sel >= nvis - 1 {
                    nvis - 1
                } else {
                    sel + 1
                }
            },
            Key::PageUp => 0,
            Key::PageDown => nvis - 1,
            _ => sel,
        }
    };
    state.selected = new_sel;
}

/// handle input for the table (and for the keys the search bar hands
/// down while a search is active)
pub fn handle_input(state: &mut GuiState, key: Key, today: Date) -> (act: Action)
    requires
        old(state).wf(),
        old(state).focus is Table || old(state).focus is Search,
    ensures
        final(state).wf(),
        table_transition(*old(state), *final(state), key, today, act),
{
    match key {
        Key::Esc => Action::Exit(Save::DoNotSave),
        Key::Up | Key::Down | Key::PageUp | Key::PageDown => {
            navigate(state, key, today);
            Action::Continue
        },
        Key::Enter => {
            match state.get_real_index(today) {
                Some(real_index) => {
                    let record = &mut state.rdr.0[real_index];
                    record.next_stage(today);
                    state.changed_this_session.insert(real_index);
                },
                None => {},
            }
            Action::Continue
        },
        Key::Delete => {
            match state.get_real_index(today) {
                Some(real_index) => {
                    state.rdr.0.remove(real_index);
                },
                None => {},
            }
            Action::Continue
        },
        Key::Char(c) => {
            if c == 'q' {
                Action::Exit(Save::Save)
            } else {
                if c == 'v' {
                    let next_view = state.view.next();
                    state.view = next_view;
                } else if c == 's' {
                    match state.get_real_index(today) {
                        Some(real_index) => {
                            state.changed_this_session.insert(real_index);
                            let txt = state.rdr.get(real_index).unwrap().stage.clone();
                            state.focus = WindowFocus::StageEdit(txt, real_index);
                        },
                        None => {},
                    }
                } else if c == '?' {
                    state.focus = WindowFocus::Help;
                } else if c == '/' {
                    state.focus = WindowFocus::Search;
                } else if c == 'a' {
                    state.focus = WindowFocus::Add;
                    state.add = Some(
                        AddStruct {
                            company: String::new(),
                            jobname: String::new(),
                            place: String::new(),
                            focus: AddFocusField::Company,
                            modify: None,
                        },
                    );
                } else if c == 'i' {
                    if state.get_real_index(today).is_some() {
                        state.focus = WindowFocus::Info;
                    }
                } else if c == 'e' {
                    match state.get_real_index(today) {
                        Some(real_index) => {
                            let record = state.rdr.get(real_index).unwrap();
                            let form = AddStruct {
                                company: record.name.clone(),
                                jobname: record.subname.clone(),
                                place: record.place.clone(),
                                focus: AddFocusField::Company,
                                modify: Some(real_index),
                            };
                            state.focus = WindowFocus::Add;
                            state.add = Some(form);
                        },
                        None => {},
                    }
                }
                Action::Continue
            }
        },
        _ => Action::Continue,
    }
}

} // verus!
