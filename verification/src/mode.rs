//! The three ways a selection dialog can be presented.

use crate::error::ValidationError;
use vstd::prelude::*;

verus! {

/// How the dialog is presented. Choosing several directories at once is not
/// a mode: no value of this type stands for it.
#[derive(Clone, Copy, Debug, PartialEq, Eq, Structural)]
pub enum Mode {
    /// Pick one file.
    SingleFile,
    /// Pick any number of files.
    MultiFile,
    /// Pick one directory.
    SingleDir,
}

/// The kind of value that the command returns.
#[derive(Clone, Copy, Debug, PartialEq, Eq, Structural)]
pub enum ResultKind {
    /// A string.
    Text,
    /// A list of strings.
    TextList,
}

impl Mode {
    /// The mode that a pair of flags asks for. The two together ask for
    /// nothing that can be shown.
    pub open spec fn of_flags(dir_only: bool, multiple: bool) -> Result<Mode, ValidationError> {
        if dir_only && multiple {
            Err(ValidationError::ConflictingOptions)
        } else if multiple {
            Ok(Mode::MultiFile)
        } else if dir_only {
            Ok(Mode::SingleDir)
        } else {
            Ok(Mode::SingleFile)
        }
    }

    /// Turns the two flags into a mode, or says that they conflict.
    pub fn from_flags(dir_only: bool, multiple: bool) -> (r: Result<Mode, ValidationError>)
        ensures
            r == Mode::of_flags(dir_only, multiple),
    {
        match (dir_only, multiple) {
            (true, true) => Err(ValidationError::ConflictingOptions),
            (false, true) => Ok(Mode::MultiFile),
            (true, false) => Ok(Mode::SingleDir),
            (false, false) => Ok(Mode::SingleFile),
        }
    }

    /// The kind of value that the dialog of this mode leads to: a list from
    /// the one that lets the user pick several files, a string from the
    /// other two.
    pub open spec fn kind(self) -> ResultKind {
        if self == Mode::MultiFile {
            ResultKind::TextList
        } else {
            ResultKind::Text
        }
    }

    /// The kind of value that the dialog of this mode leads to.
    pub fn result_kind(self) -> (r: ResultKind)
        ensures
            r == self.kind(),
    {
        match self {
            Mode::MultiFile => ResultKind::TextList,
            Mode::SingleFile => ResultKind::Text,
            Mode::SingleDir => ResultKind::Text,
        }
    }
}

} // verus!
