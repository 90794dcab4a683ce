//! The two ways in which opening a file can fail, and the text shown for each.

use vstd::prelude::*;

verus! {

/// Why a file was not handed to the operating system.
#[derive(Clone, Debug, PartialEq, Eq)]
pub enum OpenError {
    /// The path was empty. Nothing was started.
    InvalidInput,
    /// The operating system could not start the launcher.
    SpawnFailure {
        /// The operating system's own words for what went wrong.
        detail: String,
    },
}

/// The mathematical content of an [`OpenError`].
pub enum OpenFailure {
    InvalidInput,
    SpawnFailure { detail: Seq<char> },
}

impl View for OpenError {
    type V = OpenFailure;

    open spec fn view(&self) -> OpenFailure {
        match self {
            OpenError::InvalidInput => OpenFailure::InvalidInput,
            OpenError::SpawnFailure { detail } => OpenFailure::SpawnFailure { detail: detail@ },
        }
    }
}

/// The text shown when the path is empty.
pub open spec fn empty_path_message() -> Seq<char> {
    "path is empty"@
}

/// The text shown when the launcher could not be started: a fixed
/// introduction followed by the operating system's words.
pub open spec fn spawn_failure_message(detail: Seq<char>) -> Seq<char> {
    "Failed to open file: "@ + detail
}

/// The text shown to the user for a failure.
pub open spec fn failure_message(failure: OpenFailure) -> Seq<char> {
    match failure {
        OpenFailure::InvalidInput => empty_path_message(),
        OpenFailure::SpawnFailure { detail } => spawn_failure_message(detail),
    }
}

impl OpenError {
    /// The text to show to the user.
    pub fn message(&self) -> (text: String)
        ensures
            text@ == failure_message(self@),
    {
        match self {
            OpenError::InvalidInput => "path is empty".to_owned(),
            OpenError::SpawnFailure { detail } => {
                let mut text = "Failed to open file: ".to_owned();
                text.append(detail.as_str());
                text
            },
        }
    }
}

} // verus!
