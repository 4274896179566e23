//! Validation of the host's parameters, in the order in which errors are
//! reported: base directory, title, filter, then the two flags together.
//!
//! A call goes in two steps. [`probe_for`] says what the host has to find
//! out first; [`validate`] takes the answer and yields the request.

use crate::error::ValidationError;
use crate::mode::Mode;
use crate::request::FilterGroup;
use crate::request::FilterGroupView;
use crate::request::HostAnswer;
use crate::request::HostAnswerView;
use crate::request::Probe;
use crate::request::ProbeView;
use crate::request::RawParameters;
use crate::request::RawParametersView;
use crate::request::SelectionRequest;
use crate::request::SelectionRequestView;
use crate::value::RawEntryView;
use crate::value::RawValue;
use crate::value::RawValueView;
use vstd::prelude::*;

verus! {

/// What the host is asked about the base directory: about the path, where
/// one is given as text; for its working directory, where none is given.
/// Anything but text is turned down unasked.
pub open spec fn probe_needed(base_dir: Option<RawValueView>) -> Result<
    ProbeView,
    ValidationError,
> {
    match base_dir {
        Some(RawValueView::Text(path)) => Ok(ProbeView::Directory(path)),
        None => Ok(ProbeView::CurrentDirectory),
        Some(_) => Err(ValidationError::InvalidBaseDirectory),
    }
}

/// The base directory: the given path where the host found a directory
/// there, the host's working directory where no path was given. An answer to
/// the question that was not asked settles nothing.
pub open spec fn resolved_base_directory(
    base_dir: Option<RawValueView>,
    answer: HostAnswerView,
) -> Result<Seq<char>, ValidationError> {
    match (base_dir, answer) {
        (Some(RawValueView::Text(path)), HostAnswerView::Directory(true)) => Ok(path),
        (None, HostAnswerView::CurrentDirectory(dir)) => Ok(dir),
        _ => Err(ValidationError::InvalidBaseDirectory),
    }
}

/// The title: the given text, or none.
pub open spec fn resolved_title(title: Option<RawValueView>) -> Result<
    Option<Seq<char>>,
    ValidationError,
> {
    match title {
        Some(RawValueView::Text(text)) => Ok(Some(text)),
        None => Ok(None),
        Some(_) => Err(ValidationError::InvalidTitle),
    }
}

/// Whether every entry of a record holds a list of texts.
pub open spec fn well_shaped(entries: Seq<RawEntryView>) -> bool {
    forall|i: int| 0 <= i < entries.len() ==> (#[trigger] entries[i]).value.is_text_list()
}

/// The filter groups that a record of lists of texts spells out: one for
/// each entry, in the order of the entries.
pub open spec fn filter_groups(entries: Seq<RawEntryView>) -> Seq<FilterGroupView>
    recommends
        well_shaped(entries),
{
    Seq::new(
        entries.len(),
        |i: int| FilterGroupView { label: entries[i].key, extensions: entries[i].value.texts() },
    )
}

/// The filter groups: those of a well-shaped record, or none where no
/// filter was given.
pub open spec fn resolved_filters(filter: Option<RawValueView>) -> Result<
    Option<Seq<FilterGroupView>>,
    ValidationError,
> {
    match filter {
        None => Ok(None),
        Some(RawValueView::Record(entries)) => if well_shaped(entries) {
            Ok(Some(filter_groups(entries)))
        } else {
            Err(ValidationError::InvalidFilter)
        },
        Some(_) => Err(ValidationError::InvalidFilter),
    }
}

/// The request that the parameters and the host's answer amount to, or the
/// first error in the order base directory, title, filter, flags.
pub open spec fn validated(params: RawParametersView, answer: HostAnswerView) -> Result<
    SelectionRequestView,
    ValidationError,
> {
    match resolved_base_directory(params.base_dir, answer) {
        Err(e) => Err(e),
        Ok(base_directory) => match resolved_title(params.title) {
            Err(e) => Err(e),
            Ok(title) => match resolved_filters(params.filter) {
                Err(e) => Err(e),
                Ok(filters) => match Mode::of_flags(params.dir_only, params.multiple) {
                    Err(e) => Err(e),
                    Ok(mode) => Ok(SelectionRequestView { mode, base_directory, title, filters }),
                },
            },
        },
    }
}

/// Says what the host has to find out before validation can go on, or turns
/// the call down where the base directory is not text.
pub fn probe_for(params: &RawParameters) -> (r: Result<Probe, ValidationError>)
    ensures
        match r {
            Ok(probe) => probe_needed(params@.base_dir) == Ok::<ProbeView, ValidationError>(probe@),
            Err(e) => probe_needed(params@.base_dir) == Err::<ProbeView, ValidationError>(e),
        },
{
    match &params.base_dir {
        Some(RawValue::Text(path)) => Ok(Probe::Directory(path.clone())),
        None => Ok(Probe::CurrentDirectory),
        Some(_) => Err(ValidationError::InvalidBaseDirectory),
    }
}

/// Settles the base directory from the option and the host's answer.
pub fn resolve_base_directory(base_dir: &Option<RawValue>, answer: &HostAnswer) -> (r: Result<
    String,
    ValidationError,
>)
    ensures
        match r {
            Ok(dir) => resolved_base_directory(base_dir.deep_view(), answer@) == Ok::<
                Seq<char>,
                ValidationError,
            >(dir@),
            Err(e) => resolved_base_directory(base_dir.deep_view(), answer@) == Err::<
                Seq<char>,
                ValidationError,
            >(e),
        },
{
    match (base_dir, answer) {
        (Some(RawValue::Text(path)), HostAnswer::Directory(true)) => Ok(path.clone()),
        (None, HostAnswer::CurrentDirectory(dir)) => Ok(dir.clone()),
        _ => Err(ValidationError::InvalidBaseDirectory),
    }
}

/// Settles the title.
pub fn resolve_title(title: &Option<RawValue>) -> (r: Result<Option<String>, ValidationError>)
    ensures
        match r {
            Ok(text) => resolved_title(title.deep_view()) == Ok::<
                Option<Seq<char>>,
                ValidationError,
            >(text.deep_view()),
            Err(e) => resolved_title(title.deep_view()) == Err::<
                Option<Seq<char>>,
                ValidationError,
            >(e),
        },
{
    match title {
        Some(RawValue::Text(text)) => Ok(Some(text.clone())),
        None => Ok(None),
        Some(_) => Err(ValidationError::InvalidTitle),
    }
}

/// Settles the filter groups. Every entry is checked before any group is
/// handed out: one entry that is no list of texts fails the whole filter.
pub fn resolve_filters(filter: &Option<RawValue>) -> (r: Result<
    Option<Vec<FilterGroup>>,
    ValidationError,
>)
    ensures
        match r {
            Ok(groups) => resolved_filters(filter.deep_view()) == Ok::<
                Option<Seq<FilterGroupView>>,
                ValidationError,
            >(groups.deep_view()),
            Err(e) => resolved_filters(filter.deep_view()) == Err::<
                Option<Seq<FilterGroupView>>,
                ValidationError,
            >(e),
        },
{
    match filter {
        None => Ok(None),
        Some(RawValue::Record(entries)) => {
            proof {
                RawValue::lemma_record_view(*entries);
            }
            let ghost spelled = RawValue::Record(*entries)@->Record_0;
            let mut groups: Vec<FilterGroup> = Vec::new();
            let mut i: usize = 0;
            while i < entries.len()
                invariant
                    i <= entries.len(),
                    groups@.len() == i,
                    filter.deep_view() == Some(RawValueView::Record(spelled)),
                    spelled.len() == entries@.len(),
                    forall|k: int|
                        0 <= k < entries@.len() ==> (#[trigger] spelled[k]) == (RawEntryView {
                            key: entries@[k].0@,
                            value: entries@[k].1@,
                        }),
                    forall|k: int| 0 <= k < i ==> (#[trigger] spelled[k]).value.is_text_list(),
                    forall|k: int|
                        0 <= k < i ==> (#[trigger] groups@[k])@ == (FilterGroupView {
                            label: spelled[k].key,
                            extensions: spelled[k].value.texts(),
                        }),
                decreases entries.len() - i,
            {
                match entries[i].1.as_text_list() {
                    Some(extensions) => {
                        groups.push(FilterGroup { label: entries[i].0.clone(), extensions });
                    },
                    None => {
                        assert(!spelled[i as int].value.is_text_list());
                        return Err(ValidationError::InvalidFilter);
                    },
                }
                i += 1;
            }
            assert(groups.deep_view() =~= filter_groups(spelled));
            Ok(Some(groups))
        },
        Some(_) => Err(ValidationError::InvalidFilter),
    }
}

/// Validates the parameters against the host's answer and assembles the
/// request. Errors come in a fixed order: the base directory first, then the
/// title, then the filter, and the conflict of the two flags last.
pub fn validate(params: &RawParameters, answer: &HostAnswer) -> (r: Result<
    SelectionRequest,
    ValidationError,
>)
    ensures
        match r {
            Ok(request) => validated(params@, answer@) == Ok::<
                SelectionRequestView,
                ValidationError,
            >(request@),
            Err(e) => validated(params@, answer@) == Err::<SelectionRequestView, ValidationError>(
                e,
            ),
        },
{
    let base_directory = match resolve_base_directory(&params.base_dir, answer) {
        Ok(dir) => dir,
        Err(e) => return Err(e),
    };
    let title = match resolve_title(&params.title) {
        Ok(title) => title,
        Err(e) => return Err(e),
    };
    let filters = match resolve_filters(&params.filter) {
        Ok(filters) => filters,
        Err(e) => return Err(e),
    };
    let mode = match Mode::from_flags(params.dir_only, params.multiple) {
        Ok(mode) => mode,
        Err(e) => return Err(e),
    };
    Ok(SelectionRequest::new(mode, base_directory, title, filters))
}

} // verus!
