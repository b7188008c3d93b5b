//! Core of an interactive file-triage session: an ordered list of file
//! records is reviewed one at a time, each file receiving a keep-or-trash
//! decision that can be undone, while a staged cache produces a preview of
//! the current file without ever being computed twice for the same file.
pub mod domain;
pub mod error;
pub mod ledger;
pub mod preview;
pub mod session;
pub mod text;
