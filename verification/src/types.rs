//! Plain value types shared by the whole tracker: dates as day counts,
//! the application status, the view mode of the table, key events, and
//! the modal focus of the interactive session.

use std::collections::HashSet;

use vstd::prelude::*;

use crate::records::Record;
use crate::records::Records;
use crate::text::contains_seq;
use crate::text::str_contains;

verus! {

broadcast use vstd::std_specs::hash::group_hash_axioms;

/// A calendar date, counted in whole days from the calendar's day zero
/// (the Julian day number). All date arithmetic the tracker needs is
/// comparison and day differences, so a day count is the whole model;
/// turning a day count into a printed date is left to the callers.
#[derive(Clone, Copy, Debug, PartialEq, Eq, Structural, Hash)]
pub struct Date {
    pub days: u64,
}

/// Status of a job application.
#[derive(Clone, Copy, Debug, PartialEq, Eq, Structural, Hash)]
pub enum Status {
    /// we need to do something
    Todo,
    /// we are waiting for an update
    Pending,
    /// we got rejected
    Rejected,
    /// we declined the offer
    Declined,
}

impl Status {
    /// The successor in the manual status cycle: Todo -> Pending ->
    /// Rejected -> Todo. Declined is only ever set by hand and cycles
    /// back to Todo.
    pub open spec fn spec_next(self) -> Status {
        match self {
            Status::Todo => Status::Pending,
            Status::Pending => Status::Rejected,
            Status::Rejected => Status::Todo,
            Status::Declined => Status::Todo,
        }
    }

    /// function to toggle status in order, returning the new status
    #[must_use]
    pub fn next(&self) -> (r: Status)
        ensures
            r == self.spec_next(),
    {
        match self {
            Status::Todo => Status::Pending,
            Status::Pending => Status::Rejected,
            Status::Rejected => Status::Todo,
            Status::Declined => Status::Todo,
        }
    }

    /// The plain display name of the status.
    pub open spec fn spec_label(self) -> Seq<char> {
        match self {
            Status::Todo => "Todo"@,
            Status::Pending => "Pending"@,
            Status::Rejected => "Rejected"@,
            Status::Declined => "Declined"@,
        }
    }

    /// Display string for the status, for plain text output.
    pub fn label(&self) -> (r: String)
        ensures
            r@ == self.spec_label(),
    {
        match self {
            Status::Todo => "Todo".to_owned(),
            Status::Pending => "Pending".to_owned(),
            Status::Rejected => "Rejected".to_owned(),
            Status::Declined => "Declined".to_owned(),
        }
    }
}

/// Applying the cycle three times from Todo comes back to Todo, and one
/// application to Declined yields Todo.
pub proof fn lemma_status_cycle()
    ensures
        Status::Todo.spec_next().spec_next().spec_next() == Status::Todo,
        Status::Declined.spec_next() == Status::Todo,
{
}

/// Which part of the tracked jobs the table shows.
#[derive(Clone, Copy, Debug, PartialEq, Eq, Structural)]
pub enum GuiView {
    /// Show only non-old Pending and Todo jobs
    Normal,
    /// Show Todo and Pending jobs, old ones included
    Old,
    /// Show all jobs
    All,
}

impl GuiView {
    /// The next view mode in the cycle Normal -> Old -> All -> Normal.
    pub open spec fn spec_next(self) -> GuiView {
        match self {
            GuiView::Normal => GuiView::Old,
            GuiView::Old => GuiView::All,
            GuiView::All => GuiView::Normal,
        }
    }

    /// toggle the view mode
    pub fn next(&mut self) -> (r: GuiView)
        ensures
            *final(self) == *old(self),
            r == old(self).spec_next(),
    {
        match self {
            GuiView::Normal => GuiView::Old,
            GuiView::Old => GuiView::All,
            GuiView::All => GuiView::Normal,
        }
    }
}

/// Which input field of the add/edit form has the cursor.
#[derive(Clone, Copy, Debug, PartialEq, Eq, Structural)]
pub enum AddFocusField {
    Company,
    JobName,
    Place,
}

impl AddFocusField {
    /// The field after this one, cycling forward.
    pub open spec fn spec_next(self) -> AddFocusField {
        match self {
            AddFocusField::Company => AddFocusField::JobName,
            AddFocusField::JobName => AddFocusField::Place,
            AddFocusField::Place => AddFocusField::Company,
        }
    }

    /// The field before this one, cycling backward.
    pub open spec fn spec_prev(self) -> AddFocusField {
        match self {
            AddFocusField::Company => AddFocusField::Place,
            AddFocusField::JobName => AddFocusField::Company,
            AddFocusField::Place => AddFocusField::JobName,
        }
    }

    pub fn next(&self) -> (r: AddFocusField)
        ensures
            r == self.spec_next(),
    {
        match self {
            AddFocusField::Company => AddFocusField::JobName,
            AddFocusField::JobName => AddFocusField::Place,
            AddFocusField::Place => AddFocusField::Company,
        }
    }

    pub fn prev(&self) -> (r: AddFocusField)
        ensures
            r == self.spec_prev(),
    {
        match self {
            AddFocusField::Company => AddFocusField::Place,
            AddFocusField::JobName => AddFocusField::Company,
            AddFocusField::Place => AddFocusField::JobName,
        }
    }
}

/// Should the records be written back to disk when the session ends.
#[derive(Clone, Copy, Debug, PartialEq, Eq, Structural)]
pub enum Save {
    /// Save the records to disk
    Save,
    /// Do not save the records to disk
    DoNotSave,
}

/// One key event, as the interactive session understands it. The caller
/// turns whatever its terminal backend reports into one of these; every
/// key the state machine does not care about maps to `Other`.
#[derive(Clone, Copy, Debug, PartialEq, Eq)]
pub enum Key {
    Esc,
    Enter,
    Backspace,
    Tab,
    Up,
    Down,
    PageUp,
    PageDown,
    Delete,
    Char(char),
    Other,
}

/// What the caller that runs the interactive loop must do after one key
/// was handled: nothing beyond redrawing, write the records to disk now
/// (confirming the add form commits immediately), or end the session
/// with the given save decision.
#[derive(Clone, Copy, Debug, PartialEq, Eq, Structural)]
pub enum Action {
    Continue,
    Persist,
    Exit(Save),
}

/// A job we are about to add or edit: the three text fields of the form,
/// the field that has the cursor, and — when an existing entry is being
/// edited — the real index of that entry.
#[derive(Debug)]
pub struct AddStruct {
    pub company: String,
    pub jobname: String,
    pub place: String,
    pub focus: AddFocusField,
    pub modify: Option<usize>,
}

/// Which window of the interactive session has the input focus. Exactly
/// one is active at a time.
#[derive(Debug, PartialEq, Eq)]
pub enum WindowFocus {
    /// The table
    Table,
    /// The edit stage popup, with its text buffer and the real index of
    /// the record being edited
    StageEdit(String, usize),
    /// The help window
    Help,
    /// The search lower bar
    Search,
    /// The add popup
    Add,
    /// the info popup
    Info,
}

/// The state of the interactive session.
pub struct GuiState {
    /// The records
    pub rdr: Records,
    /// The selection cursor of the table: a position within the visible
    /// rows, not a real index into the collection
    pub selected: usize,
    /// Which parts of the jobs we show
    pub view: GuiView,
    /// which window we have in focus
    pub focus: WindowFocus,
    /// the real indices of all records touched this session, so that we
    /// keep showing them whatever their status or date became
    pub changed_this_session: HashSet<usize>,
    /// Are we searching something
    pub search: Option<String>,
    /// A job we want to add
    pub add: Option<AddStruct>,
}

impl GuiState {
    /// The internal consistency of the session state: any real index
    /// carried by an overlay points into the collection, and the add
    /// form exists exactly while the add window has the focus. Every
    /// transition of the state machine preserves this.
    pub open spec fn wf(&self) -> bool {
        &&& (self.focus matches WindowFocus::StageEdit(_, idx) ==> idx < self.rdr@.len())
        &&& (self.focus is Add ==> self.add is Some)
        &&& (self.add matches Some(f) ==> self.focus is Add && (f.modify matches Some(ix)
            ==> ix < self.rdr@.len()))
    }

    /// Is a search filter active: a search text exists and is non-empty.
    pub open spec fn search_active(&self) -> bool {
        self.search matches Some(s) && s@.len() > 0
    }

    /// The filter rule of the table. With an active search, a record is
    /// visible exactly when its company name contains the searched text
    /// (case-sensitive). Otherwise Todo records and records touched this
    /// session are always visible, and the view mode decides the rest:
    /// Normal shows pending records that are not stale, Old also shows
    /// stale ones, All shows everything.
    pub open spec fn spec_filter(&self, index: int, r: Record, today: Date) -> bool {
        if self.search_active() {
            contains_seq(r.name@, self.search->0@)
        } else {
            ||| r.status is Todo
            ||| self.changed_this_session@.contains(index as usize)
            ||| match self.view {
                GuiView::Normal => r.status is Pending && !r.spec_is_old(today),
                GuiView::Old => r.status is Todo || r.status is Pending,
                GuiView::All => true,
            }
        }
    }

    /// the filter function of which ones to show
    pub fn filter(&self, index: &usize, r: &Record, today: Date) -> (b: bool)
        ensures
            b == self.spec_filter(*index as int, *r, today),
    {
        let normal_filtering = match &self.search {
            Some(s) => s.as_str().is_empty(),
            None => true,
        };
        if normal_filtering {
            r.status == Status::Todo || self.changed_this_session.contains(index) || (
            match self.view {
                GuiView::Normal => r.status == Status::Pending && !r.is_old(today),
                GuiView::Old => r.status == Status::Todo || r.status == Status::Pending,
                GuiView::All => true,
            })
        } else {
            let search_string = self.search.as_ref().unwrap();
            str_contains(r.name.as_str(), search_string.as_str())
        }
    }

    /// Is the record at real index `i` visible.
    pub open spec fn visible_at(&self, i: int, today: Date) -> bool {
        self.spec_filter(i, self.rdr@[i], today)
    }

    /// The real indices of the visible records among the first `n`, in
    /// increasing order.
    pub open spec fn visible_up_to(&self, n: int, today: Date) -> Seq<int>
        decreases n,
    {
        if n <= 0 {
            Seq::empty()
        } else if self.visible_at(n - 1, today) {
            self.visible_up_to(n - 1, today).push(n - 1)
        } else {
            self.visible_up_to(n - 1, today)
        }
    }

    /// The real indices of all visible records, in increasing order: the
    /// sequence the table displays, row by row.
    pub open spec fn visible_indices(&self, today: Date) -> Seq<int> {
        self.visible_up_to(self.rdr@.len() as int, today)
    }

    /// The visible rows of a shorter prefix of the collection are a
    /// prefix of the visible rows of a longer one.
    pub proof fn lemma_visible_up_to_prefix(&self, m: int, n: int, today: Date)
        requires
            0 <= m <= n,
        ensures
            ({
                let a = self.visible_up_to(m, today);
                let b = self.visible_up_to(n, today);
                a.len() <= b.len() && (forall|k: int| 0 <= k < a.len() ==> #[trigger] b[k] == a[k])
            }),
        decreases n,
    {
        if m < n {
            self.lemma_visible_up_to_prefix(m, n - 1, today);
        }
    }

    /// The visible rows of the first `n` records are exactly the real
    /// indices below `n` that pass the filter, each once, in strictly
    /// increasing order.
    pub proof fn lemma_visible_up_to_props(&self, n: int, today: Date)
        requires
            0 <= n <= self.rdr@.len(),
        ensures
            ({
                let v = self.visible_up_to(n, today);
                &&& v.len() <= n
                &&& (forall|k: int|
                    0 <= k < v.len() ==> 0 <= #[trigger] v[k] < n && self.visible_at(v[k], today))
                &&& (forall|k1: int, k2: int|
                    #![trigger v[k1], v[k2]]
                    0 <= k1 < k2 < v.len() ==> v[k1] < v[k2])
                &&& (forall|i: int|
                    0 <= i < n && #[trigger] self.visible_at(i, today) ==> v.contains(i))
            }),
        decreases n,
    {
        if n > 0 {
            self.lemma_visible_up_to_props(n - 1, today);
            let prev = self.visible_up_to(n - 1, today);
            let v = self.visible_up_to(n, today);
            assert forall|i: int|
                0 <= i < n && #[trigger] self.visible_at(i, today) implies v.contains(i) by {
                if i == n - 1 {
                    assert(v[v.len() - 1] == i);
                } else {
                    assert(prev.contains(i));
                    let k = choose|k: int| 0 <= k < prev.len() && prev[k] == i;
                    assert(v[k] == i);
                }
            }
        }
    }

    /// Visibility depends only on the records, the view mode, the search
    /// text, the changed set and the day — never on the cursor position
    /// or on which window has the focus.
    pub proof fn lemma_visible_up_to_agrees(s1: GuiState, s2: GuiState, n: int, today: Date)
        requires
            s1.rdr@ == s2.rdr@,
            s1.search == s2.search,
            s1.view == s2.view,
            s1.changed_this_session@ == s2.changed_this_session@,
        ensures
            s1.visible_up_to(n, today) == s2.visible_up_to(n, today),
        decreases n,
    {
        if n > 0 {
            Self::lemma_visible_up_to_agrees(s1, s2, n - 1, today);
        }
    }

    /// For a session state with at least one visible record, every valid
    /// visible position resolves to a real index; the resolved indices
    /// are strictly increasing, each passes the filter, and together they
    /// are exactly the indices a direct filtered scan of the collection
    /// finds.
    pub proof fn lemma_index_round_trip(&self, today: Date)
        ensures
            ({
                let vis = self.visible_indices(today);
                &&& vis.len() <= self.rdr@.len()
                &&& (forall|k: int|
                    0 <= k < vis.len() ==> 0 <= #[trigger] vis[k] < self.rdr@.len()
                        && self.visible_at(vis[k], today))
                &&& (forall|k1: int, k2: int|
                    #![trigger vis[k1], vis[k2]]
                    0 <= k1 < k2 < vis.len() ==> vis[k1] < vis[k2])
                &&& (forall|i: int|
                    0 <= i < self.rdr@.len() && #[trigger] self.visible_at(i, today)
                        ==> vis.contains(i))
            }),
    {
        self.lemma_visible_up_to_props(self.rdr@.len() as int, today);
    }

    /// A record with status Todo is visible under every view mode,
    /// whenever the search text is absent, empty, or a substring of its
    /// company name.
    pub proof fn lemma_todo_always_visible(&self, i: int, today: Date)
        requires
            0 <= i < self.rdr@.len(),
            self.rdr@[i].status is Todo,
            self.search matches Some(t) ==> t@.len() == 0 || contains_seq(self.rdr@[i].name@, t@),
        ensures
            self.visible_at(i, today),
    {
    }

    /// get the index in the record vector from the selection of the
    /// table. The selection may point past the visible rows (for
    /// instance right after a deletion shrank the table); that is
    /// reported as `None` and callers treat it as "nothing selected".
    pub fn get_real_index(&self, today: Date) -> (r: Option<usize>)
        ensures
            ({
                let vis = self.visible_indices(today);
                match r {
                    Some(i) => self.selected < vis.len() && i == vis[self.selected as int]
                        && i < self.rdr@.len(),
                    None => self.selected >= vis.len(),
                }
            }),
    {
        let n = self.rdr.len();
        let mut idx: usize = 0;
        let mut seen: usize = 0;
        while idx < n
            invariant
                n == self.rdr@.len(),
                idx <= n,
                seen == self.visible_up_to(idx as int, today).len(),
                seen <= self.selected,
            decreases n - idx,
        {
            if self.filter(&idx, &self.rdr.0[idx], today) {
                if seen == self.selected {
                    proof {
                        self.lemma_visible_up_to_prefix(idx + 1, n as int, today);
                        assert(self.visible_up_to(idx + 1, today)[seen as int] == idx);
                    }
                    return Some(idx);
                }
                seen += 1;
            }
            idx += 1;
        }
        None
    }

    /// How many rows the table shows.
    pub fn visible_count(&self, today: Date) -> (n: usize)
        ensures
            n == self.visible_indices(today).len(),
    {
        let total = self.rdr.len();
        let mut idx: usize = 0;
        let mut seen: usize = 0;
        while idx < total
            invariant
                total == self.rdr@.len(),
                idx <= total,
                seen == self.visible_up_to(idx as int, today).len(),
                seen <= idx,
            decreases total - idx,
        {
            if self.filter(&idx, &self.rdr.0[idx], today) {
                seen += 1;
            }
            idx += 1;
        }
        seen
    }

    /// The real indices of the visible rows, top to bottom: the direct
    /// filtered scan of the collection that the table renders.
    pub fn visible_rows(&self, today: Date) -> (v: Vec<usize>)
        ensures
            ({
                let vis = self.visible_indices(today);
                v@.len() == vis.len() && (forall|k: int|
                    0 <= k < vis.len() ==> #[trigger] v@[k] as int == vis[k])
            }),
    {
        let n = self.rdr.len();
        let mut v: Vec<usize> = Vec::new();
        let mut idx: usize = 0;
        while idx < n
            invariant
                n == self.rdr@.len(),
                idx <= n,
                v@.len() == self.visible_up_to(idx as int, today).len(),
                forall|k: int|
                    0 <= k < v@.len() ==> #[trigger] v@[k] as int == self.visible_up_to(
                        idx as int,
                        today,
                    )[k],
            decreases n - idx,
        {
            if self.filter(&idx, &self.rdr.0[idx], today) {
                v.push(idx);
            }
            idx += 1;
        }
        v
    }
}

} // verus!
