//! Tests for the view filter, the visible-row scan and the mapping from
//! a visible position back to the real index in the collection.

use std::collections::HashSet;

use jobtrack::records::Record;
use jobtrack::records::Records;
use jobtrack::types::Date;
use jobtrack::types::GuiState;
use jobtrack::types::GuiView;
use jobtrack::types::Status;
use jobtrack::types::WindowFocus;

fn record(name: &str, status: Status, days: u64) -> Record {
    Record {
        last_action_date: Date { days },
        name: name.to_string(),
        subname: String::new(),
        stage: String::new(),
        additional_info: String::new(),
        status,
        place: String::new(),
    }
}

fn state(records: Vec<Record>, view: GuiView, search: Option<&str>) -> GuiState {
    GuiState {
        rdr: Records(records),
        selected: 0,
        view,
        focus: WindowFocus::Table,
        changed_this_session: HashSet::new(),
        search: search.map(|s| s.to_string()),
        add: None,
    }
}

const TODAY: Date = Date { days: 1000 };

#[test]
fn todo_records_are_visible_under_every_view_mode() {
    for view in [GuiView::Normal, GuiView::Old, GuiView::All] {
        let s = state(vec![record("Acme", Status::Todo, 1)], view, None);
        assert!(s.filter(&0, &s.rdr.0[0], TODAY));
    }
}

#[test]
fn todo_records_are_visible_with_a_matching_search() {
    for text in ["", "Acme", "cm"] {
        let s = state(vec![record("Acme", Status::Todo, 1)], GuiView::Normal, Some(text));
        assert!(s.filter(&0, &s.rdr.0[0], TODAY));
    }
}

#[test]
fn normal_view_hides_stale_pending_records() {
    let fresh = record("f", Status::Pending, 995);
    let stale = record("s", Status::Pending, 980);
    let s = state(vec![fresh, stale], GuiView::Normal, None);
    assert!(s.filter(&0, &s.rdr.0[0], TODAY));
    assert!(!s.filter(&1, &s.rdr.0[1], TODAY));
}

#[test]
fn old_view_shows_stale_pending_but_hides_closed_records() {
    let s = state(
        vec![
            record("stale", Status::Pending, 1),
            record("rej", Status::Rejected, 999),
            record("dec", Status::Declined, 999),
        ],
        GuiView::Old,
        None,
    );
    assert!(s.filter(&0, &s.rdr.0[0], TODAY));
    assert!(!s.filter(&1, &s.rdr.0[1], TODAY));
    assert!(!s.filter(&2, &s.rdr.0[2], TODAY));
}

#[test]
fn all_view_shows_everything() {
    let s = state(
        vec![
            record("rej", Status::Rejected, 1),
            record("dec", Status::Declined, 1),
            record("stale", Status::Pending, 1),
        ],
        GuiView::All,
        None,
    );
    for i in 0..3usize {
        assert!(s.filter(&i, &s.rdr.0[i], TODAY));
    }
}

#[test]
fn records_changed_this_session_stay_visible() {
    let mut s = state(vec![record("rej", Status::Rejected, 1)], GuiView::Normal, None);
    assert!(!s.filter(&0, &s.rdr.0[0], TODAY));
    s.changed_this_session.insert(0);
    assert!(s.filter(&0, &s.rdr.0[0], TODAY));
}

#[test]
fn an_active_search_decides_visibility_alone() {
    let s = state(
        vec![
            record("Acme", Status::Todo, 1),
            record("Globex Acme", Status::Rejected, 1),
            record("Globex", Status::Todo, 1),
        ],
        GuiView::Normal,
        Some("Acme"),
    );
    // only the name counts while searching: even a Todo record is hidden
    // when it does not match, and a rejected one shows when it does
    assert!(s.filter(&0, &s.rdr.0[0], TODAY));
    assert!(s.filter(&1, &s.rdr.0[1], TODAY));
    assert!(!s.filter(&2, &s.rdr.0[2], TODAY));
}

#[test]
fn an_empty_search_text_means_no_filter() {
    let s = state(vec![record("rej", Status::Rejected, 999)], GuiView::All, Some(""));
    assert!(s.filter(&0, &s.rdr.0[0], TODAY));
}

#[test]
fn visible_rows_are_the_filtered_scan_in_order() {
    let s = state(
        vec![
            record("t1", Status::Todo, 1),
            record("rej", Status::Rejected, 1),
            record("t2", Status::Todo, 1),
            record("stale", Status::Pending, 1),
            record("fresh", Status::Pending, 999),
        ],
        GuiView::Normal,
        None,
    );
    assert_eq!(s.visible_rows(TODAY), vec![0, 2, 4]);
    assert_eq!(s.visible_count(TODAY), 3);
}

#[test]
fn every_visible_position_resolves_to_the_scanned_real_index() {
    let mut s = state(
        vec![
            record("rej", Status::Rejected, 1),
            record("t1", Status::Todo, 1),
            record("stale", Status::Pending, 1),
            record("t2", Status::Todo, 1),
            record("fresh", Status::Pending, 999),
        ],
        GuiView::Normal,
        None,
    );
    let rows = s.visible_rows(TODAY);
    assert_eq!(rows, vec![1, 3, 4]);
    for (pos, real) in rows.iter().enumerate() {
        s.selected = pos;
        assert_eq!(s.get_real_index(TODAY), Some(*real));
    }
    s.selected = rows.len();
    assert_eq!(s.get_real_index(TODAY), None);
}

#[test]
fn resolving_on_an_empty_table_fails_loudly_with_none() {
    let s = state(vec![record("rej", Status::Rejected, 1)], GuiView::Normal, None);
    assert_eq!(s.visible_count(TODAY), 0);
    assert_eq!(s.get_real_index(TODAY), None);
}
