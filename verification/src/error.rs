//! What can go wrong between the host's parameters and the result.

use vstd::prelude::*;

verus! {

/// Why a command call was turned down. None of these is cancellation: a
/// dialog that the user dismisses gives a result, not an error.
#[derive(Clone, Copy, Debug, PartialEq, Eq, Structural)]
pub enum ValidationError {
    /// The base directory is not a string, or names no existing directory.
    InvalidBaseDirectory,
    /// The title is not a string.
    InvalidTitle,
    /// The filter is not a record of lists of strings.
    InvalidFilter,
    /// Several directories were asked for at once.
    ConflictingOptions,
    /// A chosen path has no representation as text.
    UnrepresentablePath,
}

/// A stretch of the host's source text, by the offsets of its first
/// character and of the one after its last.
#[derive(Clone, Copy, Debug, PartialEq, Eq, Structural)]
pub struct Location {
    /// The offset of the first character.
    pub start: usize,
    /// The offset of the character after the last.
    pub end: usize,
}

/// An error made ready for the host: what went wrong, in words, and the place
/// in the host's source text that the words belong to.
#[derive(Debug, PartialEq, Eq)]
pub struct Report {
    /// What went wrong.
    pub error: ValidationError,
    /// The headline.
    pub message: String,
    /// The note beside the place.
    pub label: String,
    /// The place: that of the call.
    pub location: Location,
}

/// The mathematical value of a [`Report`].
pub struct ReportView {
    pub error: ValidationError,
    pub message: Seq<char>,
    pub label: Seq<char>,
    pub location: Location,
}

impl View for Report {
    type V = ReportView;

    open spec fn view(&self) -> ReportView {
        ReportView {
            error: self.error,
            message: self.message@,
            label: self.label@,
            location: self.location,
        }
    }
}

impl ValidationError {
    /// The headline of the error, as the host shows it.
    pub open spec fn message_text(self) -> Seq<char> {
        match self {
            ValidationError::InvalidBaseDirectory => "dir has an incorrect type/path"@,
            ValidationError::InvalidTitle => "title has an incorrect type"@,
            ValidationError::InvalidFilter => "filter has an incorrect type"@,
            ValidationError::ConflictingOptions => "Cannot select multiple directories"@,
            ValidationError::UnrepresentablePath => "Non utf-8 path"@,
        }
    }

    /// The note that the host puts beside the place of the call.
    pub open spec fn label_text(self) -> Seq<char> {
        match self {
            ValidationError::InvalidBaseDirectory => "dir has to be a directory"@,
            ValidationError::InvalidTitle => "title has to be a string"@,
            ValidationError::InvalidFilter => "filter has to be a record of List(String)"@,
            ValidationError::ConflictingOptions =>
                "Only one of `--multiple` or `--only-dir` can be used"@,
            ValidationError::UnrepresentablePath => "a selected path is not valid text"@,
        }
    }

    /// Whether the error is known before any dialog is shown. Only a path
    /// without a text form is found out afterwards.
    pub open spec fn precedes_dialog(self) -> bool {
        self != ValidationError::UnrepresentablePath
    }

    /// The error with its words, pointing at a place.
    pub open spec fn reported_at(self, location: Location) -> ReportView {
        ReportView {
            error: self,
            message: self.message_text(),
            label: self.label_text(),
            location,
        }
    }

    /// The headline of the error.
    pub fn message(&self) -> (r: String)
        ensures
            r@ == self.message_text(),
    {
        match self {
            ValidationError::InvalidBaseDirectory => "dir has an incorrect type/path".to_owned(),
            ValidationError::InvalidTitle => "title has an incorrect type".to_owned(),
            ValidationError::InvalidFilter => "filter has an incorrect type".to_owned(),
            ValidationError::ConflictingOptions => "Cannot select multiple directories".to_owned(),
            ValidationError::UnrepresentablePath => "Non utf-8 path".to_owned(),
        }
    }

    /// The note that goes with the place of the call.
    pub fn label(&self) -> (r: String)
        ensures
            r@ == self.label_text(),
    {
        match self {
            ValidationError::InvalidBaseDirectory => "dir has to be a directory".to_owned(),
            ValidationError::InvalidTitle => "title has to be a string".to_owned(),
            ValidationError::InvalidFilter => "filter has to be a record of List(String)".to_owned(),
            ValidationError::ConflictingOptions =>
                "Only one of `--multiple` or `--only-dir` can be used".to_owned(),
            ValidationError::UnrepresentablePath => "a selected path is not valid text".to_owned(),
        }
    }

    /// Makes the error ready for the host, pointing at `location`.
    pub fn report(self, location: Location) -> (r: Report)
        ensures
            r@ == self.reported_at(location),
    {
        Report { error: self, message: self.message(), label: self.label(), location }
    }
}

} // verus!
