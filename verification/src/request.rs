//! What the host hands in, what it is asked on the way, and the request that
//! a successful validation yields.

use crate::error::Location;
use crate::mode::Mode;
use crate::value::RawValue;
use crate::value::RawValueView;
use vstd::prelude::*;

verus! {

/// The parameters of one call, as the host supplies them. The two flags are
/// plain booleans; the three options are there or not, and of any type.
#[derive(Debug, PartialEq, Eq)]
pub struct RawParameters {
    /// Where in the host's source text the call stands.
    pub head: Location,
    /// Several files may be chosen.
    pub multiple: bool,
    /// A directory is chosen, not a file.
    pub dir_only: bool,
    /// Where the dialog opens.
    pub base_dir: Option<RawValue>,
    /// The window title.
    pub title: Option<RawValue>,
    /// The filter groups: a record from label to list of extensions.
    pub filter: Option<RawValue>,
}

/// The mathematical value of [`RawParameters`].
pub struct RawParametersView {
    pub head: Location,
    pub multiple: bool,
    pub dir_only: bool,
    pub base_dir: Option<RawValueView>,
    pub title: Option<RawValueView>,
    pub filter: Option<RawValueView>,
}

impl View for RawParameters {
    type V = RawParametersView;

    open spec fn view(&self) -> RawParametersView {
        RawParametersView {
            head: self.head,
            multiple: self.multiple,
            dir_only: self.dir_only,
            base_dir: self.base_dir.deep_view(),
            title: self.title.deep_view(),
            filter: self.filter.deep_view(),
        }
    }
}

/// What has to be learned from the host before the base directory is known.
#[derive(Debug, PartialEq, Eq)]
pub enum Probe {
    /// Does this path name an existing directory?
    Directory(String),
    /// Which directory is the host working in?
    CurrentDirectory,
}

/// The mathematical value of a [`Probe`].
pub enum ProbeView {
    Directory(Seq<char>),
    CurrentDirectory,
}

impl View for Probe {
    type V = ProbeView;

    open spec fn view(&self) -> ProbeView {
        match self {
            Probe::Directory(path) => ProbeView::Directory(path@),
            Probe::CurrentDirectory => ProbeView::CurrentDirectory,
        }
    }
}

/// The host's answer to a [`Probe`].
#[derive(Debug, PartialEq, Eq)]
pub enum HostAnswer {
    /// Whether the path that was asked about names an existing directory.
    Directory(bool),
    /// The host's current working directory.
    CurrentDirectory(String),
}

/// The mathematical value of a [`HostAnswer`].
pub enum HostAnswerView {
    Directory(bool),
    CurrentDirectory(Seq<char>),
}

impl View for HostAnswer {
    type V = HostAnswerView;

    open spec fn view(&self) -> HostAnswerView {
        match self {
            HostAnswer::Directory(exists) => HostAnswerView::Directory(*exists),
            HostAnswer::CurrentDirectory(dir) => HostAnswerView::CurrentDirectory(dir@),
        }
    }
}

/// A named set of file extensions that the dialog offers as one choice.
#[derive(Debug, PartialEq, Eq)]
pub struct FilterGroup {
    /// The name shown to the user.
    pub label: String,
    /// The extensions, as they were given.
    pub extensions: Vec<String>,
}

/// The mathematical value of a [`FilterGroup`].
pub struct FilterGroupView {
    pub label: Seq<char>,
    pub extensions: Seq<Seq<char>>,
}

impl View for FilterGroup {
    type V = FilterGroupView;

    open spec fn view(&self) -> FilterGroupView {
        FilterGroupView { label: self.label@, extensions: self.extensions.deep_view() }
    }
}

impl DeepView for FilterGroup {
    type V = FilterGroupView;

    open spec fn deep_view(&self) -> FilterGroupView {
        self.view()
    }
}

/// A validated request for one dialog. Only validation makes one, and
/// nothing changes it afterwards.
#[derive(Debug, PartialEq, Eq)]
pub struct SelectionRequest {
    mode: Mode,
    base_directory: String,
    title: Option<String>,
    filters: Option<Vec<FilterGroup>>,
}

/// The mathematical value of a [`SelectionRequest`].
pub struct SelectionRequestView {
    /// Which dialog to show.
    pub mode: Mode,
    /// Where the dialog opens.
    pub base_directory: Seq<char>,
    /// The window title; without one the dialog keeps its own.
    pub title: Option<Seq<char>>,
    /// The filter groups in the order they were given, if any were.
    pub filters: Option<Seq<FilterGroupView>>,
}

impl View for SelectionRequest {
    type V = SelectionRequestView;

    closed spec fn view(&self) -> SelectionRequestView {
        SelectionRequestView {
            mode: self.mode,
            base_directory: self.base_directory@,
            title: self.title.deep_view(),
            filters: self.filters.deep_view(),
        }
    }
}

impl SelectionRequest {
    /// Puts a request together from parts that validation has settled.
    pub(crate) fn new(
        mode: Mode,
        base_directory: String,
        title: Option<String>,
        filters: Option<Vec<FilterGroup>>,
    ) -> (r: SelectionRequest)
        ensures
            r@ == (SelectionRequestView {
                mode,
                base_directory: base_directory@,
                title: title.deep_view(),
                filters: filters.deep_view(),
            }),
    {
        SelectionRequest { mode, base_directory, title, filters }
    }

    /// Which dialog to show.
    pub fn mode(&self) -> (r: Mode)
        ensures
            r == self@.mode,
    {
        self.mode
    }

    /// Where the dialog opens.
    pub fn base_directory(&self) -> (r: &String)
        ensures
            r@ == self@.base_directory,
    {
        &self.base_directory
    }

    /// The window title, where one was given.
    pub fn title(&self) -> (r: &Option<String>)
        ensures
            r.deep_view() == self@.title,
    {
        &self.title
    }

    /// The filter groups in the order they were given, if any were.
    pub fn filters(&self) -> (r: &Option<Vec<FilterGroup>>)
        ensures
            r.deep_view() == self@.filters,
    {
        &self.filters
    }
}

} // verus!
