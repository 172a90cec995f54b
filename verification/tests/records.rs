//! Tests for the record model and the collection: construction,
//! mutation, staleness, the canonical sort, load grouping, search and
//! the summary tallies.

use jobtrack::records::Record;
use jobtrack::records::Records;
use jobtrack::summarybar::stats;
use jobtrack::types::Date;
use jobtrack::types::Status;

fn record(name: &str, status: Status, days: u64) -> Record {
    Record {
        last_action_date: Date { days },
        name: name.to_string(),
        subname: String::new(),
        stage: String::new(),
        additional_info: String::new(),
        status,
        place: String::new(),
    }
}

#[test]
fn new_record_is_todo_and_dated_today() {
    let r = Record::new(
        "Acme".to_string(),
        "Engineer".to_string(),
        "Berlin".to_string(),
        Date { days: 1000 },
    );
    assert_eq!(r.name, "Acme");
    assert_eq!(r.subname, "Engineer");
    assert_eq!(r.place, "Berlin");
    assert_eq!(r.stage, "");
    assert_eq!(r.additional_info, "");
    assert_eq!(r.status, Status::Todo);
    assert_eq!(r.last_action_date, Date { days: 1000 });
}

#[test]
fn status_cycle_three_steps_from_todo_returns_to_todo() {
    let s = Status::Todo;
    assert_eq!(s.next().next().next(), Status::Todo);
}

#[test]
fn status_cycle_declined_goes_to_todo() {
    assert_eq!(Status::Declined.next(), Status::Todo);
}

#[test]
fn advancing_status_updates_the_date() {
    let mut r = record("Acme", Status::Todo, 100);
    r.next_stage(Date { days: 120 });
    assert_eq!(r.status, Status::Pending);
    assert_eq!(r.last_action_date, Date { days: 120 });
}

#[test]
fn setting_stage_updates_the_date() {
    let mut r = record("Acme", Status::Pending, 100);
    r.set_stage("2nd interview".to_string(), Date { days: 150 });
    assert_eq!(r.stage, "2nd interview");
    assert_eq!(r.last_action_date, Date { days: 150 });
    assert_eq!(r.status, Status::Pending);
}

#[test]
fn setting_status_updates_the_date() {
    let mut r = record("Acme", Status::Todo, 100);
    r.set_status(Status::Declined, Date { days: 130 });
    assert_eq!(r.status, Status::Declined);
    assert_eq!(r.last_action_date, Date { days: 130 });
}

#[test]
fn stale_needs_fourteen_days_and_not_todo() {
    let pending = record("Acme", Status::Pending, 100);
    assert!(!pending.is_old(Date { days: 113 }));
    assert!(pending.is_old(Date { days: 114 }));
    assert!(pending.is_old(Date { days: 200 }));
    let todo = record("Acme", Status::Todo, 100);
    assert!(!todo.is_old(Date { days: 200 }));
}

#[test]
fn listing_hides_closed_entries_unless_all_is_asked() {
    let rejected = record("Acme", Status::Rejected, 100);
    assert!(!rejected.shown_in_list(false));
    assert!(rejected.shown_in_list(true));
    let pending = record("Acme", Status::Pending, 100);
    assert!(pending.shown_in_list(false));
    let todo = record("Acme", Status::Todo, 100);
    assert!(todo.shown_in_list(false));
}

#[test]
fn sort_puts_todos_first_then_dates_descending() {
    let mut rdr = Records(vec![
        record("a", Status::Rejected, 500),
        record("b", Status::Todo, 100),
        record("c", Status::Pending, 900),
        record("d", Status::Todo, 300),
        record("e", Status::Declined, 700),
    ]);
    rdr.sort();
    let names: Vec<&str> = rdr.0.iter().map(|r| r.name.as_str()).collect();
    assert_eq!(names, vec!["d", "b", "c", "e", "a"]);
}

#[test]
fn sort_keeps_every_record() {
    let mut rdr = Records(vec![
        record("a", Status::Pending, 1),
        record("b", Status::Pending, 1),
        record("c", Status::Todo, 2),
    ]);
    rdr.sort();
    assert_eq!(rdr.len(), 3);
    let mut names: Vec<&str> = rdr.0.iter().map(|r| r.name.as_str()).collect();
    names.sort();
    assert_eq!(names, vec!["a", "b", "c"]);
}

#[test]
fn load_order_groups_closed_then_pending_then_todo() {
    let loaded = Records::load_order(vec![
        record("todo-a", Status::Todo, 1),
        record("rej-a", Status::Rejected, 2),
        record("pen-a", Status::Pending, 3),
        record("dec-a", Status::Declined, 4),
        record("todo-b", Status::Todo, 5),
        record("pen-b", Status::Pending, 6),
    ]);
    let names: Vec<&str> = loaded.0.iter().map(|r| r.name.as_str()).collect();
    assert_eq!(names, vec!["rej-a", "dec-a", "pen-a", "pen-b", "todo-a", "todo-b"]);
}

#[test]
fn search_finds_case_sensitive_substrings_of_the_name() {
    let rdr = Records(vec![
        record("Acme Corp", Status::Todo, 1),
        record("Globex", Status::Pending, 2),
        record("acme gmbh", Status::Rejected, 3),
    ]);
    let found = rdr.search("cme");
    let names: Vec<&str> = found.0.iter().map(|r| r.name.as_str()).collect();
    assert_eq!(names, vec!["Acme Corp", "acme gmbh"]);

    let rdr = Records(vec![
        record("Acme Corp", Status::Todo, 1),
        record("acme gmbh", Status::Rejected, 3),
    ]);
    let found = rdr.search("Acme");
    let names: Vec<&str> = found.0.iter().map(|r| r.name.as_str()).collect();
    assert_eq!(names, vec!["Acme Corp"]);
}

#[test]
fn get_and_len_follow_the_collection() {
    let rdr = Records(vec![record("a", Status::Todo, 1), record("b", Status::Pending, 2)]);
    assert_eq!(rdr.len(), 2);
    assert_eq!(rdr.get(0).unwrap().name, "a");
    assert_eq!(rdr.get(1).unwrap().name, "b");
    assert!(rdr.get(2).is_none());
}

#[test]
fn get_mut_edits_in_place() {
    let mut rdr = Records(vec![record("a", Status::Todo, 1)]);
    rdr.get_mut(0).unwrap().set_status(Status::Pending, Date { days: 9 });
    assert_eq!(rdr.get(0).unwrap().status, Status::Pending);
    assert!(rdr.get_mut(7).is_none());
}

#[test]
fn stats_counts_by_status_and_finds_the_latest_date() {
    let rdr = Records(vec![
        record("t", Status::Todo, 50),
        record("p-fresh", Status::Pending, 95),
        record("p-stale", Status::Pending, 10),
        record("r", Status::Rejected, 70),
        record("d", Status::Declined, 60),
    ]);
    let st = stats(&rdr, Date { days: 100 });
    assert_eq!(st.total, 5);
    assert_eq!(st.todos, 1);
    assert_eq!(st.pending, 2);
    assert_eq!(st.pending_old, 1);
    assert_eq!(st.rejected, 1);
    assert_eq!(st.declined, 1);
    assert_eq!(st.last_edit, Some(Date { days: 95 }));
}

#[test]
fn stats_of_an_empty_collection_has_no_last_edit() {
    let st = stats(&Records(Vec::new()), Date { days: 1 });
    assert_eq!(st.total, 0);
    assert_eq!(st.last_edit, None);
}

#[test]
fn status_labels() {
    assert_eq!(Status::Todo.label(), "Todo");
    assert_eq!(Status::Pending.label(), "Pending");
    assert_eq!(Status::Rejected.label(), "Rejected");
    assert_eq!(Status::Declined.label(), "Declined");
}
