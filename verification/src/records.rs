//! The record model: one job-application entry, and the ordered
//! collection of all entries with its canonical sort order.
//!
//! Reading the collection from disk and writing it back are left to the
//! callers; the library receives and hands back plain records.

use vstd::prelude::*;

use crate::text::contains_seq;
use crate::text::str_contains;
use crate::types::Date;
use crate::types::Status;

verus! {

/// A record of a job application.
///
/// Every mutation of the status or the stage also sets
/// `last_action_date`, so the date is a derived audit trail of the entry,
/// never free-form input.
#[derive(Clone, Debug, PartialEq, Eq)]
pub struct Record {
    /// the last time any action happened to this job
    pub last_action_date: Date,
    /// the name of the company
    pub name: String,
    /// the job name
    pub subname: String,
    /// at what stage are we, i.e., first interview, second and so on
    pub stage: String,
    /// some additional information we want to store
    pub additional_info: String,
    /// the status of the job
    pub status: Status,
    /// where
    pub place: String,
}

/// A fresh record as the constructor builds it: the three text fields as
/// given, everything else empty, status Todo, dated today.
pub open spec fn is_new_record(
    r: Record,
    company: Seq<char>,
    jobname: Seq<char>,
    place: Seq<char>,
    today: Date,
) -> bool {
    &&& r.name@ == company
    &&& r.subname@ == jobname
    &&& r.place@ == place
    &&& r.stage@ == Seq::<char>::empty()
    &&& r.additional_info@ == Seq::<char>::empty()
    &&& r.status is Todo
    &&& r.last_action_date == today
}

/// The record after its status was advanced one step in the cycle.
pub open spec fn advanced_record(r: Record, today: Date) -> Record {
    Record { status: r.status.spec_next(), last_action_date: today, ..r }
}

/// The record after its stage text was replaced.
pub open spec fn staged_record(r: Record, stage: String, today: Date) -> Record {
    Record { stage: stage, last_action_date: today, ..r }
}

impl Record {
    /// A record is stale ("old") when it is out of our hands and nothing
    /// has happened to it for two weeks or more.
    pub open spec fn spec_is_old(self, today: Date) -> bool {
        !(self.status is Todo) && self.last_action_date.days + 14 <= today.days
    }

    /// construct a new one
    pub fn new(company: String, jobname: String, place: String, today: Date) -> (r: Record)
        ensures
            is_new_record(r, company@, jobname@, place@, today),
            r.name == company,
            r.subname == jobname,
            r.place == place,
    {
        Record {
            name: company,
            subname: jobname,
            stage: String::new(),
            additional_info: String::new(),
            status: Status::Todo,
            last_action_date: today,
            place,
        }
    }

    /// update the last action date
    pub fn update_date(&mut self, today: Date)
        ensures
            *final(self) == (Record { last_action_date: today, ..*old(self) }),
    {
        self.last_action_date = today;
    }

    /// returns the date of the last action
    pub fn get_date(&self) -> (d: Date)
        ensures
            d == self.last_action_date,
    {
        self.last_action_date
    }

    /// toggle the status one step along the cycle
    pub fn next_stage(&mut self, today: Date)
        ensures
            *final(self) == advanced_record(*old(self), today),
    {
        self.status = self.status.next();
        self.update_date(today);
    }

    /// sets the status
    pub fn set_status(&mut self, status: Status, today: Date)
        ensures
            *final(self) == (Record { status: status, last_action_date: today, ..*old(self) }),
    {
        self.status = status;
        self.update_date(today);
    }

    /// sets the stage of the job
    pub fn set_stage(&mut self, stage: String, today: Date)
        ensures
            *final(self) == staged_record(*old(self), stage, today),
    {
        self.stage = stage;
        self.update_date(today);
    }

    /// test if the job is old, i.e., 2 weeks after the last action date
    pub fn is_old(&self, today: Date) -> (b: bool)
        ensures
            b == self.spec_is_old(today),
    {
        self.status != Status::Todo && today.days >= 14 && self.last_action_date.days
            <= today.days - 14
    }

    /// Whether the record appears in the plain listing: everything when
    /// all entries were asked for, otherwise only open entries.
    pub fn shown_in_list(&self, show_all: bool) -> (b: bool)
        ensures
            b == (show_all || self.status is Pending || self.status is Todo),
    {
        show_all || self.status == Status::Pending || self.status == Status::Todo
    }
}

/// The canonical order of the collection: every Todo record comes before
/// every non-Todo record, and within each of the two groups the most
/// recently touched record comes first.
pub open spec fn record_le(a: Record, b: Record) -> bool {
    if a.status is Todo && !(b.status is Todo) {
        true
    } else if !(a.status is Todo) && b.status is Todo {
        false
    } else {
        a.last_action_date.days >= b.last_action_date.days
    }
}

/// The sequence is sorted in the canonical order.
pub open spec fn sorted_records(s: Seq<Record>) -> bool {
    forall|i: int, j: int| 0 <= i < j < s.len() ==> record_le(#[trigger] s[i], #[trigger] s[j])
}

/// In a canonically sorted sequence, every Todo record precedes every
/// non-Todo record, and within each of the two groups the dates are
/// descending.
pub proof fn lemma_canonical_order(s: Seq<Record>)
    requires
        sorted_records(s),
    ensures
        forall|i: int, j: int|
            0 <= i < j < s.len() && (#[trigger] s[j]).status is Todo ==> (
            #[trigger] s[i]).status is Todo,
        forall|i: int, j: int|
            0 <= i < j < s.len() && ((#[trigger] s[i]).status is Todo <==> (
            #[trigger] s[j]).status is Todo) ==> s[i].last_action_date.days
                >= s[j].last_action_date.days,
{
}

fn record_le_exec(a: &Record, b: &Record) -> (r: bool)
    ensures
        r == record_le(*a, *b),
{
    if a.status == Status::Todo && b.status != Status::Todo {
        true
    } else if a.status != Status::Todo && b.status == Status::Todo {
        false
    } else {
        a.last_action_date.days >= b.last_action_date.days
    }
}

/// The position where element `i` belongs among the already sorted prefix
/// `v[0..i]`: the first slot whose record does not come before `v[i]`.
fn insertion_point(v: &Vec<Record>, i: usize) -> (j: usize)
    requires
        i < v@.len(),
    ensures
        j <= i,
        forall|a: int| 0 <= a < j ==> record_le(#[trigger] v@[a], v@[i as int]),
        j < i ==> !record_le(v@[j as int], v@[i as int]),
{
    let mut j: usize = 0;
    while j < i
        invariant
            j <= i,
            i < v@.len(),
            forall|a: int| 0 <= a < j ==> record_le(#[trigger] v@[a], v@[i as int]),
        decreases i - j,
    {
        if !record_le_exec(&v[j], &v[i]) {
            return j;
        }
        j += 1;
    }
    j
}

/// The ordered collection of records.
#[derive(Debug)]
pub struct Records(pub Vec<Record>);

impl View for Records {
    type V = Seq<Record>;

    open spec fn view(&self) -> Seq<Record> {
        self.0@
    }
}

impl Records {
    pub fn get(&self, index: usize) -> (r: Option<&Record>)
        ensures
            match r {
                Some(rec) => index < self@.len() && *rec == self@[index as int],
                None => index >= self@.len(),
            },
    {
        if index < self.0.len() {
            Some(&self.0[index])
        } else {
            None
        }
    }

    pub fn get_mut(&mut self, index: usize) -> (r: Option<&mut Record>)
        ensures
            index < old(self)@.len() ==> (r matches Some(rec) && *rec == old(self)@[index as int]
                && final(self)@ == old(self)@.update(index as int, *final(rec))),
            index >= old(self)@.len() ==> r is None && final(self)@ == old(self)@,
    {
        if index < self.0.len() {
            Some(&mut self.0[index])
        } else {
            None
        }
    }

    pub fn len(&self) -> (n: usize)
        ensures
            n == self@.len(),
    {
        self.0.len()
    }

    /// Sort the collection into its canonical order: a permutation of the
    /// input in which every Todo record precedes every non-Todo record
    /// and within each group the dates are descending.
    pub fn sort(&mut self)
        ensures
            final(self)@.to_multiset() == old(self)@.to_multiset(),
            final(self)@.len() == old(self)@.len(),
            sorted_records(final(self)@),
    {
        broadcast use vstd::seq_lib::group_to_multiset_ensures;

        if self.0.len() < 2 {
            return ;
        }
        let mut i: usize = 1;
        while i < self.0.len()
            invariant
                1 <= i <= self@.len(),
                self@.len() == old(self)@.len(),
                self@.to_multiset() == old(self)@.to_multiset(),
                sorted_records(self@.take(i as int)),
            decreases self@.len() - i,
        {
            let ghost pre = self@;
            let j = insertion_point(&self.0, i);
            let x = self.0.remove(i);
            self.0.insert(j, x);
            proof {
                let n = pre.len();
                let post = self@;
                assert(x == pre[i as int]);
                // the new prefix is the old one with x inserted at j
                assert(post =~= pre.remove(i as int).insert(j as int, x));
                assert(post.to_multiset() == pre.to_multiset()) by {
                    let removed = pre.remove(i as int);
                    vstd::seq_lib::to_multiset_remove::<Record>(pre, i as int);
                    vstd::seq_lib::to_multiset_insert::<Record>(removed, j as int, x);
                    assert(removed.to_multiset() == pre.to_multiset().remove(x));
                    assert(removed.insert(j as int, x).to_multiset() == removed.to_multiset()
                        .insert(x));
                    broadcast use vstd::multiset::group_multiset_axioms;

                    assert(pre.contains(x));
                    vstd::seq_lib::to_multiset_contains::<Record>(pre, x);
                    assert(pre.to_multiset().count(x) > 0);
                    assert(pre.to_multiset().remove(x).insert(x) =~= pre.to_multiset());
                }
                assert(sorted_records(post.take(i + 1))) by {
                    let removed = pre.remove(i as int);
                    pre.remove_ensures(i as int);
                    removed.insert_ensures(j as int, x);
                    let taken = post.take(i + 1);
                    // positions in the new prefix, related to the old one:
                    // below j nothing moved, at j stands x, above j
                    // everything shifted up by one
                    assert(forall|k: int| 0 <= k < j ==> #[trigger] post[k] == pre[k]);
                    assert(post[j as int] == x);
                    assert forall|k: int| j < k <= i implies #[trigger] post[k] == pre[k - 1] by {
                        assert(post[k] == removed.insert(j as int, x)[(k - 1) + 1]);
                        assert(removed.insert(j as int, x)[(k - 1) + 1] == removed[k - 1]);
                    }
                    assert forall|a: int, b: int| 0 <= a < b < taken.len() implies record_le(
                        #[trigger] taken[a],
                        #[trigger] taken[b],
                    ) by {
                        assert(taken[a] == post[a]);
                        assert(taken[b] == post[b]);
                        let stale = pre.take(i as int);
                        assert(forall|k: int| 0 <= k < i ==> #[trigger] stale[k] == pre[k]);
                        if a == j as int {
                            // x comes before the record it displaced, and
                            // before everything after it in the sorted prefix
                            assert(b > j);
                            assert(post[b] == pre[b - 1]);
                            assert(j < i);
                            assert(!record_le(pre[j as int], x));
                            assert(record_le(x, pre[j as int]));
                            if b - 1 > j {
                                assert(record_le(stale[j as int], stale[b - 1]));
                            }
                        } else if b == j as int {
                            assert(post[a] == pre[a]);
                            assert(record_le(pre[a], x));
                        } else {
                            let a2 = if a < j { a } else { a - 1 };
                            let b2 = if b < j { b } else { b - 1 };
                            assert(post[a] == pre[a2]);
                            assert(post[b] == pre[b2]);
                            if a2 < b2 {
                                assert(record_le(stale[a2], stale[b2]));
                            } else {
                                assert(a2 == b2);
                            }
                        }
                    }
                }
            }
            i += 1;
        }
        proof {
            if self@.len() > 0 {
                assert(self@.take(self@.len() as int) =~= self@);
            }
        }
    }

    /// Group the freshly loaded records: rejected and declined entries
    /// first, then pending ones, then the to-dos, keeping the relative
    /// order within each group.
    pub fn load_order(input: Vec<Record>) -> (r: Records)
        ensures
            r@ == input@.filter(|a: Record| a.status is Declined || a.status is Rejected)
                + input@.filter(|a: Record| a.status is Pending) + input@.filter(
                |a: Record| a.status is Todo,
            ),
    {
        let mut rest = input;
        let mut rej: Vec<Record> = Vec::new();
        let mut pen: Vec<Record> = Vec::new();
        let mut todo: Vec<Record> = Vec::new();
        let ghost orig = rest@;
        let ghost done: int = 0;
        while rest.len() > 0
            invariant
                0 <= done <= orig.len(),
                rest@ == orig.skip(done),
                rej@ == orig.take(done).filter(
                    |a: Record| a.status is Declined || a.status is Rejected,
                ),
                pen@ == orig.take(done).filter(|a: Record| a.status is Pending),
                todo@ == orig.take(done).filter(|a: Record| a.status is Todo),
            decreases orig.len() - done,
        {
            let r = rest.remove(0);
            proof {
                assert(r == orig[done]);
                assert(rest@ =~= orig.skip(done + 1));
                assert(orig.take(done + 1).drop_last() =~= orig.take(done));
                assert(orig.take(done + 1).last() == orig[done]);
            }
            match r.status {
                Status::Declined => rej.push(r),
                Status::Rejected => rej.push(r),
                Status::Pending => pen.push(r),
                Status::Todo => todo.push(r),
            }
            proof {
                reveal_with_fuel(Seq::filter, 2);
                done = done + 1;
            }
        }
        proof {
            assert(orig.take(done) =~= orig);
        }
        let mut all = rej;
        all.append(&mut pen);
        all.append(&mut todo);
        Records(all)
    }

    /// All records whose company name contains the searched text, in
    /// collection order.
    pub fn search(self, text: &str) -> (r: Records)
        ensures
            r@ == self@.filter(|a: Record| contains_seq(a.name@, text@)),
    {
        let mut rest = self.0;
        let mut found: Vec<Record> = Vec::new();
        let ghost orig = rest@;
        let ghost done: int = 0;
        while rest.len() > 0
            invariant
                0 <= done <= orig.len(),
                rest@ == orig.skip(done),
                found@ == orig.take(done).filter(|a: Record| contains_seq(a.name@, text@)),
            decreases orig.len() - done,
        {
            let r = rest.remove(0);
            proof {
                assert(r == orig[done]);
                assert(rest@ =~= orig.skip(done + 1));
                assert(orig.take(done + 1).drop_last() =~= orig.take(done));
                assert(orig.take(done + 1).last() == orig[done]);
            }
            if str_contains(r.name.as_str(), text) {
                found.push(r);
            }
            proof {
                reveal_with_fuel(Seq::filter, 2);
                done = done + 1;
            }
        }
        proof {
            assert(orig.take(done) =~= orig);
        }
        Records(found)
    }
}

} // verus!
