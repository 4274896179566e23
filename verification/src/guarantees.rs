//! What holds of every call, proved from the definitions of validation,
//! normalisation and the steps of a call.

use crate::dialog::kept_extensions;
use crate::dialog::kept_filters;
use crate::error::ValidationError;
use crate::mode::Mode;
use crate::outcome::normalized;
use crate::outcome::texts_of;
use crate::outcome::Outcome;
use crate::outcome::OutcomeView;
use crate::outcome::SelectionResultView;
use crate::request::FilterGroupView;
use crate::request::HostAnswer;
use crate::request::HostAnswerView;
use crate::request::ProbeView;
use crate::request::RawParameters;
use crate::request::SelectionRequestView;
use crate::session::next;
use crate::session::ActionView;
use crate::session::Event;
use crate::session::EventView;
use crate::session::State;
use crate::validate::resolved_base_directory;
use crate::validate::resolved_filters;
use crate::validate::resolved_title;
use crate::validate::validated;
use crate::validate::well_shaped;
use crate::value::RawValueView;
use vstd::prelude::*;

verus! {

/// Whether a value has the shape of a filter: a record in which every value
/// is a list of texts.
pub open spec fn filter_shaped(value: RawValueView) -> bool {
    value matches RawValueView::Record(entries) && well_shaped(entries)
}

/// Whether a step shows the dialog.
pub open spec fn shows_dialog(step: Option<(State, ActionView)>) -> bool {
    step matches Some((_, action)) && action is Present
}

/// Several directories at once are never granted. Where the base directory,
/// the title and the filter are in order, the call fails as a conflict of
/// options, whatever those three hold.
pub proof fn conflicting_flags_are_refused(params: RawParameters, answer: HostAnswer)
    requires
        params.multiple,
        params.dir_only,
        resolved_base_directory(params@.base_dir, answer@) is Ok,
        resolved_title(params@.title) is Ok,
        resolved_filters(params@.filter) is Ok,
    ensures
        validated(params@, answer@) == Err::<SelectionRequestView, ValidationError>(
            ValidationError::ConflictingOptions,
        ),
{
}

/// With both flags set no step of the call shows a dialog, whatever else is
/// given and whatever happens.
pub proof fn conflicting_flags_show_no_dialog(params: RawParameters, state: State, event: Event)
    requires
        params.multiple,
        params.dir_only,
    ensures
        !shows_dialog(next(params@, state, event@)),
{
}

/// A filter that is no record of lists of texts fails the call as an invalid
/// filter, where the base directory and the title are in order. (Where they
/// are not, theirs is the error: they are looked at first.)
pub proof fn misshapen_filter_is_refused(params: RawParameters, answer: HostAnswer)
    requires
        params@.filter matches Some(value) && !filter_shaped(value),
        resolved_base_directory(params@.base_dir, answer@) is Ok,
        resolved_title(params@.title) is Ok,
    ensures
        validated(params@, answer@) == Err::<SelectionRequestView, ValidationError>(
            ValidationError::InvalidFilter,
        ),
{
}

/// With a filter that is no record of lists of texts no step of the call
/// shows a dialog, whatever else is given and whatever happens.
pub proof fn misshapen_filter_shows_no_dialog(params: RawParameters, state: State, event: Event)
    requires
        params@.filter matches Some(value) && !filter_shaped(value),
    ensures
        !shows_dialog(next(params@, state, event@)),
{
}

/// Without a base directory the host is asked for its working directory, and
/// the directory it names is the one the request opens in.
pub proof fn unset_base_directory_is_working_directory(params: RawParameters, answer: HostAnswer)
    requires
        params.base_dir is None,
        answer is CurrentDirectory,
    ensures
        next(params@, State::Start, EventView::Begin) == Some(
            (State::AwaitingHost, ActionView::Ask(ProbeView::CurrentDirectory)),
        ),
        resolved_base_directory(params@.base_dir, answer@) == Ok::<Seq<char>, ValidationError>(
            answer@->CurrentDirectory_0,
        ),
        validated(params@, answer@) matches Ok(request) ==> request.base_directory
            == answer@->CurrentDirectory_0,
{
}

/// A base directory given as text is asked about. Where the host finds no
/// directory under it, the call fails on the base directory, whatever else
/// is given, and ends there: no dialog is shown.
pub proof fn missing_base_directory_is_refused(params: RawParameters)
    requires
        params@.base_dir matches Some(RawValueView::Text(_)),
    ensures
        next(params@, State::Start, EventView::Begin) == Some(
            (
                State::AwaitingHost,
                ActionView::Ask(ProbeView::Directory(params@.base_dir->0->Text_0)),
            ),
        ),
        validated(params@, HostAnswerView::Directory(false)) == Err::<
            SelectionRequestView,
            ValidationError,
        >(ValidationError::InvalidBaseDirectory),
        next(params@, State::AwaitingHost, EventView::Host(HostAnswerView::Directory(false)))
            == Some(
            (
                State::Finished,
                ActionView::Fail(
                    ValidationError::InvalidBaseDirectory.reported_at(params.head),
                ),
            ),
        ),
{
}

/// The filter groups of a request are those of the record, one for one and
/// in the order of its keys, each with the texts of its list.
pub proof fn filter_order_is_kept(params: RawParameters, answer: HostAnswer)
    requires
        params@.filter matches Some(RawValueView::Record(_)),
        validated(params@, answer@) is Ok,
    ensures
        ({
            let entries = params@.filter->0->Record_0;
            let request = validated(params@, answer@)->Ok_0;
            &&& request.filters matches Some(groups)
            &&& groups.len() == entries.len()
            &&& forall|i: int|
                0 <= i < entries.len() ==> (#[trigger] groups[i]).label == entries[i].key
                    && groups[i].extensions == entries[i].value.texts()
        }),
{
}

/// Where every group has at least one extension, the builder of the dialog
/// holds the groups one for one and in their order, each under its label.
pub proof fn builder_keeps_filter_order(groups: Seq<FilterGroupView>)
    requires
        forall|i: int| 0 <= i < groups.len() ==> (#[trigger] groups[i]).extensions.len() > 0,
    ensures
        kept_filters(groups).len() == groups.len(),
        forall|i: int|
            0 <= i < groups.len() ==> (#[trigger] kept_filters(groups)[i]) == (
                groups[i].label,
                kept_extensions(groups[i].extensions),
            ),
{
    let wanted = |g: FilterGroupView| g.extensions.len() > 0;
    lemma_filter_keeps_all(groups, wanted);
}

/// The builder of the dialog holds of a list of groups what it holds of the
/// front of the list, followed by what it holds of the rest: whether a group
/// is left out or kept, those that are kept stand in the order given.
pub proof fn builder_keeps_parts_in_order(front: Seq<FilterGroupView>, rest: Seq<FilterGroupView>)
    ensures
        kept_filters(front + rest) == kept_filters(front) + kept_filters(rest),
{
    let wanted = |g: FilterGroupView| g.extensions.len() > 0;
    Seq::filter_distributes_over_add(front, rest, wanted);
}

/// A filter that every item passes leaves the sequence as it is.
proof fn lemma_filter_keeps_all<A>(s: Seq<A>, pred: spec_fn(A) -> bool)
    requires
        forall|i: int| 0 <= i < s.len() ==> pred(#[trigger] s[i]),
    ensures
        s.filter(pred) == s,
    decreases s.len(),
{
    reveal(Seq::filter);
    if s.len() > 0 {
        lemma_filter_keeps_all(s.drop_last(), pred);
    }
}

/// A dialog is shown for a validated request and for nothing else: the step
/// that shows one is the step that takes the host's answer, and the request
/// it shows is the one that validation yields for that answer.
pub proof fn dialog_follows_validation(params: RawParameters, state: State, event: Event)
    requires
        shows_dialog(next(params@, state, event@)),
    ensures
        state == State::AwaitingHost,
        event@ is Host,
        validated(params@, event@->Host_0) is Ok,
        next(params@, state, event@) == Some(
            (
                State::AwaitingDialog(validated(params@, event@->Host_0)->Ok_0.mode),
                ActionView::Present(validated(params@, event@->Host_0)->Ok_0),
            ),
        ),
{
}

/// Cancelling is no error: a dismissed dialog leads to the empty string, or
/// to the empty list where several paths could have been chosen.
pub proof fn cancelling_is_no_error()
    ensures
        normalized(OutcomeView::Single(None)) == Ok::<SelectionResultView, ValidationError>(
            SelectionResultView::Single(Seq::empty()),
        ),
        normalized(OutcomeView::Multiple(Seq::empty())) == Ok::<
            SelectionResultView,
            ValidationError,
        >(SelectionResultView::Multiple(Seq::empty())),
{
    assert(texts_of(Seq::empty()) =~= Seq::<Seq<char>>::empty());
}

/// The result is of the kind that goes with the mode: a list from the
/// dialog for several files, a string from the other two.
pub proof fn result_kind_follows_mode(mode: Mode, outcome: Outcome)
    requires
        outcome@.fits(mode),
        normalized(outcome@) is Ok,
    ensures
        normalized(outcome@)->Ok_0.kind() == mode.kind(),
{
}

/// Every error but that of a path without text is found before a dialog is
/// shown, and that one only when a dialog has been closed.
pub proof fn errors_precede_the_dialog(params: RawParameters, state: State, event: Event)
    ensures
        next(params@, state, event@) matches Some((_, ActionView::Fail(report)))
            ==> (report.error.precedes_dialog() <==> !(state is AwaitingDialog)),
{
}

/// Every error is reported in its own words and at the place of the call.
pub proof fn errors_point_at_the_call(params: RawParameters, state: State, event: Event)
    ensures
        next(params@, state, event@) matches Some((_, ActionView::Fail(report))) ==> report
            == report.error.reported_at(params.head),
{
}

/// A call never stalls: the start takes the call coming in, the wait for the
/// host takes any answer, and the wait for the dialog takes any outcome of
/// the kind that its dialog gives.
pub proof fn awaited_events_are_taken(params: RawParameters, answer: HostAnswer, outcome: Outcome)
    ensures
        next(params@, State::Start, EventView::Begin) is Some,
        next(params@, State::AwaitingHost, EventView::Host(answer@)) is Some,
        forall|mode: Mode|
            outcome@.fits(mode) ==> (#[trigger] next(
                params@,
                State::AwaitingDialog(mode),
                EventView::Dialog(outcome@),
            )) is Some,
{
}

/// Each step leaves the call waiting for what its action brings: for the
/// host after a question, for the dialog of the request's mode after showing
/// it, and for nothing more after a result or an error.
pub proof fn steps_await_their_answer(params: RawParameters, state: State, event: Event)
    ensures
        next(params@, state, event@) matches Some((after, action)) ==> match action {
            ActionView::Ask(_) => after == State::AwaitingHost,
            ActionView::Present(request) => after == State::AwaitingDialog(request.mode),
            ActionView::Return(_) => after == State::Finished,
            ActionView::Fail(_) => after == State::Finished,
        },
{
}

/// A call that is over takes no further step.
pub proof fn finished_is_final(params: RawParameters, event: Event)
    ensures
        next(params@, State::Finished, event@) is None,
{
}

} // verus!
