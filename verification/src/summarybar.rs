//! The numbers behind the summary line of the session: how many records
//! are in each status, how many pending ones have gone stale, and the
//! date of the most recent action. Formatting them — percentages, colors
//! — is the caller's business.

use vstd::prelude::*;

use crate::records::Record;
use crate::records::Records;
use crate::types::Date;

verus! {

/// The tallies the summary line shows.
#[derive(Clone, Copy, Debug, PartialEq, Eq)]
pub struct Stats {
    /// how many records there are
    pub total: usize,
    /// how many are Todo
    pub todos: usize,
    /// how many are Pending, stale ones included
    pub pending: usize,
    /// how many are Pending and stale
    pub pending_old: usize,
    /// how many are Rejected
    pub rejected: usize,
    /// how many are Declined
    pub declined: usize,
    /// the most recent last-action date, or nothing when the collection
    /// is empty
    pub last_edit: Option<Date>,
}

/// Count the records of the collection by status, the stale pending
/// ones apart, and find the most recent last-action date.
pub fn stats(rdr: &Records, today: Date) -> (st: Stats)
    ensures
        st.total == rdr@.len(),
        st.todos == rdr@.filter(|r: Record| r.status is Todo).len(),
        st.pending == rdr@.filter(|r: Record| r.status is Pending).len(),
        st.pending_old == rdr@.filter(
            |r: Record| r.status is Pending && r.spec_is_old(today),
        ).len(),
        st.rejected == rdr@.filter(|r: Record| r.status is Rejected).len(),
        st.declined == rdr@.filter(|r: Record| r.status is Declined).len(),
        match st.last_edit {
            Some(d) => rdr@.len() > 0 && (exists|i: int|
                0 <= i < rdr@.len() && (#[trigger] rdr@[i]).last_action_date == d) && (forall|
                i: int,
            |
                0 <= i < rdr@.len() ==> (#[trigger] rdr@[i]).last_action_date.days <= d.days),
            None => rdr@.len() == 0,
        },
{
    broadcast use vstd::seq_lib::group_filter_ensures;

    let n = rdr.len();
    let mut st = Stats {
        total: n,
        todos: 0,
        pending: 0,
        pending_old: 0,
        rejected: 0,
        declined: 0,
        last_edit: None,
    };
    let mut idx: usize = 0;
    while idx < n
        invariant
            n == rdr@.len(),
            idx <= n,
            st.total == n,
            st.todos == rdr@.take(idx as int).filter(|r: Record| r.status is Todo).len(),
            st.pending == rdr@.take(idx as int).filter(|r: Record| r.status is Pending).len(),
            st.pending_old == rdr@.take(idx as int).filter(
                |r: Record| r.status is Pending && r.spec_is_old(today),
            ).len(),
            st.rejected == rdr@.take(idx as int).filter(|r: Record| r.status is Rejected).len(),
            st.declined == rdr@.take(idx as int).filter(|r: Record| r.status is Declined).len(),
            match st.last_edit {
                Some(d) => idx > 0 && (exists|i: int|
                    0 <= i < idx && (#[trigger] rdr@[i]).last_action_date == d) && (forall|i: int|
                    0 <= i < idx ==> (#[trigger] rdr@[i]).last_action_date.days <= d.days),
                None => idx == 0,
            },
        decreases n - idx,
    {
        let r = &rdr.0[idx];
        proof {
            assert(rdr@.take(idx + 1).drop_last() =~= rdr@.take(idx as int));
            assert(rdr@.take(idx + 1).last() == rdr@[idx as int]);
            reveal_with_fuel(Seq::filter, 2);
        }
        match r.status {
            crate::types::Status::Todo => st.todos += 1,
            crate::types::Status::Pending => {
                st.pending += 1;
                if r.is_old(today) {
                    st.pending_old += 1;
                }
            },
            crate::types::Status::Rejected => st.rejected += 1,
            crate::types::Status::Declined => st.declined += 1,
        }
        let d = r.get_date();
        st.last_edit = match st.last_edit {
            Some(best) => if d.days > best.days {
                Some(d)
            } else {
                Some(best)
            },
            None => Some(d),
        };
        idx += 1;
    }
    proof {
        assert(rdr@.take(n as int) =~= rdr@);
    }
    st
}

} // verus!
