//! One call of the command as a sequence of steps.
//!
//! The library decides, the host program acts. [`step`] takes where the call
//! stands and what has just happened, and says where it stands next and what
//! is to be done: ask the host something, show the dialog, hand back the
//! result or the error. The host program does that and comes back with what
//! came of it.

use crate::error::Report;
use crate::error::ReportView;
use crate::mode::Mode;
use crate::outcome::normalize;
use crate::outcome::normalized;
use crate::outcome::Outcome;
use crate::outcome::OutcomeView;
use crate::outcome::SelectionResult;
use crate::outcome::SelectionResultView;
use crate::request::HostAnswer;
use crate::request::HostAnswerView;
use crate::request::Probe;
use crate::request::ProbeView;
use crate::request::RawParameters;
use crate::request::RawParametersView;
use crate::request::SelectionRequest;
use crate::request::SelectionRequestView;
use crate::validate::probe_for;
use crate::validate::probe_needed;
use crate::validate::validate;
use crate::validate::validated;
use vstd::prelude::*;

verus! {

/// Where a call stands.
#[derive(Clone, Copy, Debug, PartialEq, Eq, Structural)]
pub enum State {
    /// Nothing has been done yet.
    Start,
    /// The host has been asked about the base directory.
    AwaitingHost,
    /// The dialog of this mode is being shown.
    AwaitingDialog(Mode),
    /// The call is over: its result or its error has been handed out.
    Finished,
}

/// What has just happened.
#[derive(Debug, PartialEq, Eq)]
pub enum Event {
    /// The call came in.
    Begin,
    /// The host answered.
    Host(HostAnswer),
    /// The dialog was closed.
    Dialog(Outcome),
}

/// The mathematical value of an [`Event`].
pub enum EventView {
    Begin,
    Host(HostAnswerView),
    Dialog(OutcomeView),
}

impl View for Event {
    type V = EventView;

    open spec fn view(&self) -> EventView {
        match self {
            Event::Begin => EventView::Begin,
            Event::Host(answer) => EventView::Host(answer@),
            Event::Dialog(outcome) => EventView::Dialog(outcome@),
        }
    }
}

/// What is to be done next.
#[derive(Debug, PartialEq, Eq)]
pub enum Action {
    /// Ask the host, and come back with its answer.
    Ask(Probe),
    /// Show the dialog for this request, and come back with its outcome.
    Present(SelectionRequest),
    /// Hand this result to the host.
    Return(SelectionResult),
    /// Report this error to the host.
    Fail(Report),
}

/// The mathematical value of an [`Action`].
pub enum ActionView {
    Ask(ProbeView),
    Present(SelectionRequestView),
    Return(SelectionResultView),
    Fail(ReportView),
}

impl View for Action {
    type V = ActionView;

    open spec fn view(&self) -> ActionView {
        match self {
            Action::Ask(probe) => ActionView::Ask(probe@),
            Action::Present(request) => ActionView::Present(request@),
            Action::Return(result) => ActionView::Return(result@),
            Action::Fail(report) => ActionView::Fail(report@),
        }
    }
}

/// The step that an event leads to, where the event is one that the state
/// waits for:
///
/// - at the start, the host is asked about the base directory, unless that is
///   no text;
/// - with the host's answer, the parameters are validated and the dialog is
///   shown, unless they are turned down;
/// - with the outcome of the dialog of the awaited kind, the result is
///   handed back, unless a path has no text.
///
/// An error is reported with its words, at the place of the call. Any other
/// event leads nowhere.
pub open spec fn next(params: RawParametersView, state: State, event: EventView) -> Option<
    (State, ActionView),
> {
    match (state, event) {
        (State::Start, EventView::Begin) => Some(
            match probe_needed(params.base_dir) {
                Ok(probe) => (State::AwaitingHost, ActionView::Ask(probe)),
                Err(e) => (State::Finished, ActionView::Fail(e.reported_at(params.head))),
            },
        ),
        (State::AwaitingHost, EventView::Host(answer)) => Some(
            match validated(params, answer) {
                Ok(request) => (State::AwaitingDialog(request.mode), ActionView::Present(request)),
                Err(e) => (State::Finished, ActionView::Fail(e.reported_at(params.head))),
            },
        ),
        (State::AwaitingDialog(mode), EventView::Dialog(outcome)) => if outcome.fits(mode) {
            Some(
                match normalized(outcome) {
                    Ok(result) => (State::Finished, ActionView::Return(result)),
                    Err(e) => (State::Finished, ActionView::Fail(e.reported_at(params.head))),
                },
            )
        } else {
            None
        },
        _ => None,
    }
}

/// Takes one step of a call: from where it stands and what has happened to
/// where it stands next and what is to be done. `None` says that the event is
/// not one that the state waits for; nothing is to be done then.
pub fn step(params: &RawParameters, state: State, event: &Event) -> (r: Option<(State, Action)>)
    ensures
        match r {
            Some((state_after, action)) => next(params@, state, event@) == Some(
                (state_after, action@),
            ),
            None => next(params@, state, event@) is None,
        },
{
    match (state, event) {
        (State::Start, Event::Begin) => match probe_for(params) {
            Ok(probe) => Some((State::AwaitingHost, Action::Ask(probe))),
            Err(e) => Some((State::Finished, Action::Fail(e.report(params.head)))),
        },
        (State::AwaitingHost, Event::Host(answer)) => match validate(params, answer) {
            Ok(request) => Some((State::AwaitingDialog(request.mode()), Action::Present(request))),
            Err(e) => Some((State::Finished, Action::Fail(e.report(params.head)))),
        },
        (State::AwaitingDialog(mode), Event::Dialog(outcome)) => {
            if outcome.fits(mode) {
                match normalize(outcome) {
                    Ok(result) => Some((State::Finished, Action::Return(result))),
                    Err(e) => Some((State::Finished, Action::Fail(e.report(params.head)))),
                }
            } else {
                None
            }
        },
        _ => None,
    }
}

} // verus!
