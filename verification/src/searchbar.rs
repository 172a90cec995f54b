//! Input handling for the search bar. Characters grow the search text
//! (creating it on the first one), Esc clears it, and every key the bar
//! does not know is handed down to the table handler, so navigation and
//! record actions keep working while a search filter is active.

use vstd::prelude::*;

use crate::table_window;
use crate::table_window::table_transition;
use crate::text::string_pop;
use crate::text::string_push;
use crate::types::Action;
use crate::types::Date;
use crate::types::GuiState;
use crate::types::Key;
use crate::types::WindowFocus;

verus! {

/// What one key does while the search bar has the focus. A character
/// appends to the search text; Backspace removes its last character and
/// is a no-op without one; Esc drops the search text altogether and
/// returns to the table; any other key behaves exactly as it would on
/// the table, with the search text untouched.
pub open spec fn search_transition(
    pre: GuiState,
    post: GuiState,
    key: Key,
    today: Date,
    act: Action,
) -> bool {
    match key {
        Key::Esc => act is Continue && post == (GuiState {
            search: None,
            focus: WindowFocus::Table,
            ..pre
        }),
        Key::Char(c) => {
            &&& act is Continue
            &&& (post.search matches Some(t) && t@ == (match pre.search {
                Some(s) => s@,
                None => Seq::<char>::empty(),
            }).push(c))
            &&& post.rdr == pre.rdr
            &&& post.selected == pre.selected
            &&& post.view == pre.view
            &&& post.focus == pre.focus
            &&& post.changed_this_session == pre.changed_this_session
            &&& post.add == pre.add
        },
        Key::Backspace => {
            &&& act is Continue
            &&& match pre.search {
                None => post == pre,
                Some(s) => {
                    &&& (post.search matches Some(t) && t@ == (if s@.len() == 0 {
                        s@
                    } else {
                        s@.drop_last()
                    }))
                    &&& post.rdr == pre.rdr
                    &&& post.selected == pre.selected
                    &&& post.view == pre.view
                    &&& post.focus == pre.focus
                    &&& post.changed_this_session == pre.changed_this_session
                    &&& post.add == pre.add
                },
            }
        },
        _ => table_transition(pre, post, key, today, act),
    }
}

/// While the search bar has the focus, a navigation key moves the table
/// selection exactly as it would move on the table, and leaves the
/// search text, the focus and every record untouched: delegating a key
/// does not disturb the active filter.
pub proof fn lemma_navigation_delegates(
    pre: GuiState,
    post: GuiState,
    key: Key,
    today: Date,
    act: Action,
)
    requires
        key is Up || key is Down || key is PageUp || key is PageDown,
        search_transition(pre, post, key, today, act),
    ensures
        post.search == pre.search,
        post.focus == pre.focus,
        post.rdr == pre.rdr,
        post.selected as int == crate::table_window::nav_selected(
            pre.selected as int,
            pre.visible_indices(today).len() as int,
            key,
        ),
        act is Continue,
{
    pre.lemma_visible_up_to_props(pre.rdr@.len() as int, today);
    // a Vec never holds more elements than a usize can count
    assert(pre.rdr.0.len() == pre.rdr.0@.len());
}

/// handle search input and defer to the table if we do not know what to
/// do with it
pub fn handle_input(state: &mut GuiState, key: Key, today: Date) -> (act: Action)
    requires
        old(state).wf(),
        old(state).focus is Search,
    ensures
        final(state).wf(),
        search_transition(*old(state), *final(state), key, today, act),
{
    match key {
        Key::Esc => {
            state.search = None;
            state.focus = WindowFocus::Table;
            Action::Continue
        },
        Key::Char(k) => {
            let mut s = match state.search.take() {
                Some(s) => s,
                None => String::new(),
            };
            string_push(&mut s, k);
            state.search = Some(s);
            Action::Continue
        },
        Key::Backspace => {
            match &mut state.search {
                Some(s) => {
                    string_pop(s);
                },
                None => {},
            }
            Action::Continue
        },
        _ => {
            // we still want normal stuff
            table_window::handle_input(state, key, today)
        },
    }
}

} // verus!
