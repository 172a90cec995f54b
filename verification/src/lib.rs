//! A personal job-application tracker.
//!
//! The library holds the verified core of the tool: the record model with
//! its canonical ordering, the view filter that decides which records are
//! shown, the mapping from a visible row back to the real position in the
//! collection, and the modal state machine of the interactive table view.
//! Terminal rendering, key polling and file persistence live outside the
//! library and talk to it through plain values.

pub mod add_window;
pub mod gui;
pub mod help_window;
pub mod info_window;
pub mod records;
pub mod searchbar;
pub mod status_edit_window;
pub mod summarybar;
pub mod table_window;
pub mod text;
pub mod types;
