//! The decision core of the interactive session: building the initial
//! state over a freshly sorted collection, and routing one key event to
//! whichever window has the focus. The caller owns the loop around it —
//! it renders, polls for a key with a timeout, hands the key here,
//! performs the returned action, and repeats until an exit action.

use std::collections::HashSet;

use vstd::prelude::*;

use crate::add_window;
use crate::add_window::add_transition;
use crate::help_window;
use crate::help_window::help_transition;
use crate::info_window;
use crate::info_window::info_transition;
use crate::records::sorted_records;
use crate::records::Records;
use crate::searchbar;
use crate::searchbar::search_transition;
use crate::status_edit_window;
use crate::status_edit_window::stage_edit_transition;
use crate::table_window;
use crate::table_window::table_transition;
use crate::types::Action;
use crate::types::Date;
use crate::types::GuiState;
use crate::types::GuiView;
use crate::types::Key;
use crate::types::WindowFocus;

verus! {

/// What one key event does to the whole session: the window that has
/// the focus consumes it, under its own transition relation.
pub open spec fn session_transition(
    pre: GuiState,
    post: GuiState,
    key: Key,
    today: Date,
    act: Action,
) -> bool {
    match pre.focus {
        WindowFocus::Table => table_transition(pre, post, key, today, act),
        WindowFocus::StageEdit(_, _) => stage_edit_transition(pre, post, key, today, act),
        WindowFocus::Help => help_transition(pre, post, key, act),
        WindowFocus::Search => search_transition(pre, post, key, today, act),
        WindowFocus::Add => add_transition(pre, post, key, today, act),
        WindowFocus::Info => info_transition(pre, post, key, act),
    }
}

impl GuiState {
    /// The state a session starts in: the collection sorted into its
    /// canonical order, the cursor on the first row, the Normal view,
    /// the table focused, nothing searched, nothing being added and
    /// nothing changed yet.
    pub fn new(rdr: Records) -> (s: GuiState)
        ensures
            s.rdr@.to_multiset() == rdr@.to_multiset(),
            s.rdr@.len() == rdr@.len(),
            sorted_records(s.rdr@),
            s.selected == 0,
            s.view is Normal,
            s.focus is Table,
            s.changed_this_session@ == Set::<usize>::empty(),
            s.search is None,
            s.add is None,
            s.wf(),
    {
        let mut rdr = rdr;
        rdr.sort();
        GuiState {
            rdr,
            selected: 0,
            view: GuiView::Normal,
            focus: WindowFocus::Table,
            changed_this_session: HashSet::new(),
            search: None,
            add: None,
        }
    }
}

/// Route one key event to the window that has the focus, and say what
/// the caller must do next: keep going, persist the records now, or end
/// the session with the given save decision.
pub fn handle_key(state: &mut GuiState, key: Key, today: Date) -> (act: Action)
    requires
        old(state).wf(),
    ensures
        final(state).wf(),
        session_transition(*old(state), *final(state), key, today, act),
{
    match &state.focus {
        WindowFocus::Table => table_window::handle_input(state, key, today),
        WindowFocus::StageEdit(_, _) => status_edit_window::handle_input(state, key, today),
        WindowFocus::Help => help_window::handle_input(state, key),
        WindowFocus::Search => searchbar::handle_input(state, key, today),
        WindowFocus::Add => add_window::handle_input(state, key, today),
        WindowFocus::Info => info_window::handle_input(state, key),
    }
}

} // verus!
