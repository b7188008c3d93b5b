//! Typed outcomes of the session core. Malformed input (an index past the
//! list, an empty undo stack) is an expected, recoverable condition and is
//! reported through these variants; nothing in the core panics on it.
use vstd::prelude::*;
use vstd::string::StringExecFns;
use crate::text::dec_digits;
use crate::text::u64_to_string;

verus! {

/// Every failure the session core or its collaborators can report.
#[derive(Debug, Clone, PartialEq, Eq)]
pub enum FileTinderError {
    /// An I/O failure of an external collaborator, kept as its message.
    Io(String),
    /// The directory to scan does not exist or cannot be read.
    DirectoryNotFound { path: String },
    /// A file vanished between discovery and use.
    FileNotFound { path: String },
    /// A ledger index at or past the file-list length.
    InvalidIndex { index: usize, max: usize },
    /// Undo was requested on an empty history.
    NothingToUndo,
    /// The preview generator could not produce content.
    PreviewError { reason: String },
    /// Moving a file to the trash failed.
    TrashError(String),
    /// A configuration value could not be used.
    ConfigError(String),
    /// Launching an external editor or viewer failed.
    OpenFileError(String),
}

/// The display text of each failure.
pub open spec fn message_of(e: FileTinderError) -> Seq<char> {
    match e {
        FileTinderError::Io(m) => "IO error: "@ + m@,
        FileTinderError::DirectoryNotFound { path } => "Directory not found: "@ + path@,
        FileTinderError::FileNotFound { path } => "File not found: "@ + path@,
        FileTinderError::InvalidIndex { index, max } => "Invalid file index: "@ + dec_digits(
            index as int,
        ) + " (max: "@ + dec_digits(max as int) + ")"@,
        FileTinderError::NothingToUndo => "No decisions to undo"@,
        FileTinderError::PreviewError { reason } => "Preview generation failed: "@ + reason@,
        FileTinderError::TrashError(m) => "Trash operation failed: "@ + m@,
        FileTinderError::ConfigError(m) => "Configuration error: "@ + m@,
        FileTinderError::OpenFileError(m) => "Failed to open file: "@ + m@,
    }
}

impl FileTinderError {
    /// Writes the failure for display, matching `message_of`.
    pub fn message(&self) -> (r: String)
        ensures
            r@ == message_of(*self),
    {
        match self {
            FileTinderError::Io(m) => {
                let mut s = "IO error: ".to_owned();
                s.append(m.as_str());
                s
            },
            FileTinderError::DirectoryNotFound { path } => {
                let mut s = "Directory not found: ".to_owned();
                s.append(path.as_str());
                s
            },
            FileTinderError::FileNotFound { path } => {
                let mut s = "File not found: ".to_owned();
                s.append(path.as_str());
                s
            },
            FileTinderError::InvalidIndex { index, max } => {
                let mut s = "Invalid file index: ".to_owned();
                let index_text = u64_to_string(*index as u64);
                s.append(index_text.as_str());
                s.append(" (max: ");
                let max_text = u64_to_string(*max as u64);
                s.append(max_text.as_str());
                s.append(")");
                s
            },
            FileTinderError::NothingToUndo => "No decisions to undo".to_owned(),
            FileTinderError::PreviewError { reason } => {
                let mut s = "Preview generation failed: ".to_owned();
                s.append(reason.as_str());
                s
            },
            FileTinderError::TrashError(m) => {
                let mut s = "Trash operation failed: ".to_owned();
                s.append(m.as_str());
                s
            },
            FileTinderError::ConfigError(m) => {
                let mut s = "Configuration error: ".to_owned();
                s.append(m.as_str());
                s
            },
            FileTinderError::OpenFileError(m) => {
                let mut s = "Failed to open file: ".to_owned();
                s.append(m.as_str());
                s
            },
        }
    }
}

} // verus!
