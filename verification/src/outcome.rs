//! What the dialog hands back, and the result that the command makes of it.

use crate::error::ValidationError;
use crate::mode::Mode;
use crate::mode::ResultKind;
use vstd::prelude::*;

verus! {

/// A path that the user chose: its text, where it has one.
#[derive(Debug, PartialEq, Eq)]
pub enum ChosenPath {
    /// The path as text.
    Text(String),
    /// The path cannot be written as text.
    Unrepresentable,
}

/// The mathematical value of a [`ChosenPath`].
pub enum ChosenPathView {
    Text(Seq<char>),
    Unrepresentable,
}

impl View for ChosenPath {
    type V = ChosenPathView;

    open spec fn view(&self) -> ChosenPathView {
        match self {
            ChosenPath::Text(text) => ChosenPathView::Text(text@),
            ChosenPath::Unrepresentable => ChosenPathView::Unrepresentable,
        }
    }
}

impl DeepView for ChosenPath {
    type V = ChosenPathView;

    open spec fn deep_view(&self) -> ChosenPathView {
        self.view()
    }
}

/// What a dialog came back with.
#[derive(Debug, PartialEq, Eq)]
pub enum Outcome {
    /// From a dialog that lets the user pick one path: the path, or nothing
    /// where the user cancelled.
    Single(Option<ChosenPath>),
    /// From a dialog that lets the user pick several: the paths in the order
    /// the dialog gave them, none where the user cancelled.
    Multiple(Vec<ChosenPath>),
}

/// The mathematical value of an [`Outcome`].
pub enum OutcomeView {
    Single(Option<ChosenPathView>),
    Multiple(Seq<ChosenPathView>),
}

impl View for Outcome {
    type V = OutcomeView;

    open spec fn view(&self) -> OutcomeView {
        match self {
            Outcome::Single(path) => OutcomeView::Single(path.deep_view()),
            Outcome::Multiple(paths) => OutcomeView::Multiple(paths.deep_view()),
        }
    }
}

/// What the command returns.
#[derive(Debug, PartialEq, Eq)]
pub enum SelectionResult {
    /// One path, or the empty string where nothing was chosen.
    Single(String),
    /// The chosen paths, none where nothing was chosen.
    Multiple(Vec<String>),
}

/// The mathematical value of a [`SelectionResult`].
pub enum SelectionResultView {
    Single(Seq<char>),
    Multiple(Seq<Seq<char>>),
}

impl View for SelectionResult {
    type V = SelectionResultView;

    open spec fn view(&self) -> SelectionResultView {
        match self {
            SelectionResult::Single(path) => SelectionResultView::Single(path@),
            SelectionResult::Multiple(paths) => SelectionResultView::Multiple(paths.deep_view()),
        }
    }
}

impl SelectionResultView {
    /// Whether the result is a string or a list.
    pub open spec fn kind(self) -> ResultKind {
        match self {
            SelectionResultView::Single(_) => ResultKind::Text,
            SelectionResultView::Multiple(_) => ResultKind::TextList,
        }
    }
}

impl OutcomeView {
    /// Whether the outcome is of the kind that the dialog of `mode` gives:
    /// the multi-file dialog gives several paths, the other two at most one.
    pub open spec fn fits(self, mode: Mode) -> bool {
        (self is Multiple) == (mode == Mode::MultiFile)
    }
}

/// Whether each of the paths has a text.
pub open spec fn all_text(paths: Seq<ChosenPathView>) -> bool {
    forall|i: int| 0 <= i < paths.len() ==> (#[trigger] paths[i]) is Text
}

/// The texts of paths that all have one, in order.
pub open spec fn texts_of(paths: Seq<ChosenPathView>) -> Seq<Seq<char>>
    recommends
        all_text(paths),
{
    Seq::new(paths.len(), |i: int| paths[i]->Text_0)
}

/// The result that an outcome amounts to. Cancelling is no error: it gives
/// the empty string, or the empty list. A path without a text is one.
pub open spec fn normalized(outcome: OutcomeView) -> Result<SelectionResultView, ValidationError> {
    match outcome {
        OutcomeView::Single(None) => Ok(SelectionResultView::Single(Seq::empty())),
        OutcomeView::Single(Some(ChosenPathView::Text(text))) => Ok(
            SelectionResultView::Single(text),
        ),
        OutcomeView::Single(Some(ChosenPathView::Unrepresentable)) => Err(
            ValidationError::UnrepresentablePath,
        ),
        OutcomeView::Multiple(paths) => if all_text(paths) {
            Ok(SelectionResultView::Multiple(texts_of(paths)))
        } else {
            Err(ValidationError::UnrepresentablePath)
        },
    }
}

impl SelectionResult {
    /// Whether the result is a string or a list.
    pub fn kind(&self) -> (r: ResultKind)
        ensures
            r == self@.kind(),
    {
        match self {
            SelectionResult::Single(_) => ResultKind::Text,
            SelectionResult::Multiple(_) => ResultKind::TextList,
        }
    }
}

impl Outcome {
    /// Whether the outcome is of the kind that the dialog of `mode` gives.
    pub fn fits(&self, mode: Mode) -> (r: bool)
        ensures
            r == self@.fits(mode),
    {
        match (self, mode) {
            (Outcome::Multiple(_), Mode::MultiFile) => true,
            (Outcome::Multiple(_), _) => false,
            (Outcome::Single(_), Mode::MultiFile) => false,
            (Outcome::Single(_), _) => true,
        }
    }
}

/// Turns what the dialog handed back into the command's result.
pub fn normalize(outcome: &Outcome) -> (r: Result<SelectionResult, ValidationError>)
    ensures
        match r {
            Ok(result) => normalized(outcome@) == Ok::<SelectionResultView, ValidationError>(
                result@,
            ),
            Err(e) => normalized(outcome@) == Err::<SelectionResultView, ValidationError>(e),
        },
{
    match outcome {
        Outcome::Single(None) => Ok(SelectionResult::Single(String::new())),
        Outcome::Single(Some(ChosenPath::Text(text))) => Ok(SelectionResult::Single(text.clone())),
        Outcome::Single(Some(ChosenPath::Unrepresentable)) => Err(
            ValidationError::UnrepresentablePath,
        ),
        Outcome::Multiple(paths) => {
            let mut texts: Vec<String> = Vec::new();
            let mut i: usize = 0;
            while i < paths.len()
                invariant
                    i <= paths.len(),
                    texts@.len() == i,
                    outcome@ == OutcomeView::Multiple(paths.deep_view()),
                    forall|k: int| 0 <= k < i ==> (#[trigger] paths@[k]@) is Text,
                    forall|k: int| 0 <= k < i ==> (#[trigger] texts@[k])@ == paths@[k]@->Text_0,
                decreases paths.len() - i,
            {
                match &paths[i] {
                    ChosenPath::Text(text) => texts.push(text.clone()),
                    ChosenPath::Unrepresentable => {
                        assert(!(paths.deep_view()[i as int] is Text));
                        return Err(ValidationError::UnrepresentablePath);
                    },
                }
                i += 1;
            }
            assert(texts.deep_view() =~= texts_of(paths.deep_view()));
            Ok(SelectionResult::Multiple(texts))
        },
    }
}

} // verus!
