//! What can go wrong, and how it reads to the user.

use vstd::prelude::*;
use vstd::string::*;

verus! {

/// A percent-encoded field of the magnet link whose decoded bytes are not
/// text.
#[derive(Clone, Copy, Debug, PartialEq, Eq, Structural)]
pub enum DecodeError {
    /// The display name.
    DisplayName,
    /// The tracker at this position.
    Tracker(usize),
}

impl DecodeError {
    /// A sentence for the status line.
    pub fn message(&self) -> (text: String)
        ensures
            text@ == match *self {
                DecodeError::DisplayName => "The display name is not valid percent-encoded text"@,
                DecodeError::Tracker(_) => "A tracker address is not valid percent-encoded text"@,
            },
    {
        match self {
            DecodeError::DisplayName => String::from_str(
                "The display name is not valid percent-encoded text",
            ),
            DecodeError::Tracker(_) => String::from_str(
                "A tracker address is not valid percent-encoded text",
            ),
        }
    }
}

/// Why an export did not happen.
#[derive(Clone, Debug, PartialEq, Eq)]
pub enum ExportError {
    /// No destination is highlighted.
    NoSelection,
    /// The file could not be created or written; the text says why.
    IoError(String),
}

/// What an [`ExportError`] holds, as mathematical values.
pub enum ExportErrorView {
    NoSelection,
    IoError(Seq<char>),
}

impl DeepView for ExportError {
    type V = ExportErrorView;

    open spec fn deep_view(&self) -> ExportErrorView {
        match self {
            ExportError::NoSelection => ExportErrorView::NoSelection,
            ExportError::IoError(reason) => ExportErrorView::IoError(reason@),
        }
    }
}

/// The sentence that reports an export failure.
pub open spec fn export_error_text(error: ExportErrorView) -> Seq<char> {
    match error {
        ExportErrorView::NoSelection => "No instance selected"@,
        ExportErrorView::IoError(reason) => "Could not write the file: "@ + reason,
    }
}

impl ExportError {
    /// A sentence for the status line.
    pub fn message(&self) -> (text: String)
        ensures
            text@ == export_error_text(self.deep_view()),
    {
        match self {
            ExportError::NoSelection => String::from_str("No instance selected"),
            ExportError::IoError(reason) => String::from_str("Could not write the file: ").concat(
                reason.as_str(),
            ),
        }
    }
}

/// Why the program cannot start with what it was given.
#[derive(Clone, Copy, Debug, PartialEq, Eq, Structural)]
pub enum ConfigError {
    /// Neither an output name nor a display name in the link.
    MissingName,
    /// The link's display name is not valid percent-encoded text.
    UndecodableName,
}

impl ConfigError {
    /// A sentence for the user.
    pub fn message(&self) -> (text: String)
        ensures
            text@ == match *self {
                ConfigError::MissingName =>
                    "No output file name provided and no name found in magnet link"@,
                ConfigError::UndecodableName =>
                    "The display name is not valid percent-encoded text"@,
            },
    {
        match self {
            ConfigError::MissingName => String::from_str(
                "No output file name provided and no name found in magnet link",
            ),
            ConfigError::UndecodableName => String::from_str(
                "The display name is not valid percent-encoded text",
            ),
        }
    }
}

} // verus!
