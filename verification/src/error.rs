//! The conditions that end a run.

use vstd::prelude::*;
use vstd::string::*;

verus! {

/// A condition that makes a query unanswerable.
#[derive(Debug, PartialEq, Eq)]
pub enum ClippyError {
    /// A second public declaration was registered under `name`.
    DuplicateSymbol { name: String },
    /// More than one file has a top-level declaration called `name`.
    AmbiguousFilter { name: String, candidate_files: Vec<String> },
    /// The target of a reverse query matches no declaration.
    UnresolvedQueryTarget { path: String },
    /// The declarations of `file` could not be extracted.
    ExtractionFailure { file: String, cause: String },
}

/// The mathematical content of a [`ClippyError`].
pub enum ClippyErrorView {
    DuplicateSymbol { name: Seq<char> },
    AmbiguousFilter { name: Seq<char>, candidate_files: Seq<Seq<char>> },
    UnresolvedQueryTarget { path: Seq<char> },
    ExtractionFailure { file: Seq<char>, cause: Seq<char> },
}

impl View for ClippyError {
    type V = ClippyErrorView;

    open spec fn view(&self) -> ClippyErrorView {
        match *self {
            ClippyError::DuplicateSymbol { name } => ClippyErrorView::DuplicateSymbol {
                name: name@,
            },
            ClippyError::AmbiguousFilter {
                name,
                candidate_files,
            } => ClippyErrorView::AmbiguousFilter {
                name: name@,
                candidate_files: candidate_files.deep_view(),
            },
            ClippyError::UnresolvedQueryTarget { path } => ClippyErrorView::UnresolvedQueryTarget {
                path: path@,
            },
            ClippyError::ExtractionFailure { file, cause } => ClippyErrorView::ExtractionFailure {
                file: file@,
                cause: cause@,
            },
        }
    }
}

impl ClippyErrorView {
    /// The symbol, path or file that the error is about.
    pub open spec fn subject(self) -> Seq<char> {
        match self {
            ClippyErrorView::DuplicateSymbol { name } => name,
            ClippyErrorView::AmbiguousFilter { name, .. } => name,
            ClippyErrorView::UnresolvedQueryTarget { path } => path,
            ClippyErrorView::ExtractionFailure { file, .. } => file,
        }
    }

    /// What is said before the subject.
    pub open spec fn headline(self) -> Seq<char> {
        match self {
            ClippyErrorView::DuplicateSymbol { .. } => "more than one public item is named "@,
            ClippyErrorView::AmbiguousFilter { .. } => "more than one file declares "@,
            ClippyErrorView::UnresolvedQueryTarget { .. } => "no declaration found for "@,
            ClippyErrorView::ExtractionFailure { .. } => "could not extract "@,
        }
    }

    /// What is said after the subject: the cause, where one is known.
    pub open spec fn detail(self) -> Seq<char> {
        match self {
            ClippyErrorView::ExtractionFailure { cause, .. } => ": "@ + cause,
            _ => Seq::empty(),
        }
    }

    /// The text shown to the user: the headline, the subject, and the
    /// detail.
    pub open spec fn message(self) -> Seq<char> {
        self.headline() + self.subject() + self.detail()
    }
}

impl ClippyError {
    /// The text shown to the user when the run ends with this error. It
    /// names the offending symbol.
    pub fn message(&self) -> (text: String)
        ensures
            text@ == self@.message(),
    {
        match self {
            ClippyError::DuplicateSymbol { name } => {
                let mut text = "more than one public item is named ".to_owned();
                text.append(name.as_str());
                text
            },
            ClippyError::AmbiguousFilter { name, .. } => {
                let mut text = "more than one file declares ".to_owned();
                text.append(name.as_str());
                text
            },
            ClippyError::UnresolvedQueryTarget { path } => {
                let mut text = "no declaration found for ".to_owned();
                text.append(path.as_str());
                text
            },
            ClippyError::ExtractionFailure { file, cause } => {
                let mut text = "could not extract ".to_owned();
                text.append(file.as_str());
                text.append(": ");
                text.append(cause.as_str());
                text
            },
        }
    }
}

} // verus!
