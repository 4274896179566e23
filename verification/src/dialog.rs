//! Hands a validated request to the builder of the native dialog.
//!
//! The builder is the dialog library's own. What it holds is described by
//! three uninterpreted functions; what its methods do to it is assumed,
//! method by method, as the library's source shows it, and the assembly is
//! proved from that.

use crate::request::FilterGroup;
use crate::request::FilterGroupView;
use crate::request::SelectionRequest;
use native_dialog::DialogBuilder;
use native_dialog::FileDialogBuilder;
use vstd::prelude::*;

verus! {

/// `native_dialog::FileDialogBuilder`, carried as it is: nothing inside it
/// is read here.
#[verifier::external_type_specification]
#[verifier::external_body]
pub struct ExFileDialogBuilder(native_dialog::FileDialogBuilder);

/// The filter groups that a builder holds, in the order in which the dialog
/// lists them: each a label with its extensions.
pub uninterp spec fn builder_filters(b: FileDialogBuilder) -> Seq<(Seq<char>, Seq<Seq<char>>)>;

/// The window title that a builder holds, where one was set.
pub uninterp spec fn builder_title(b: FileDialogBuilder) -> Option<Seq<char>>;

/// The directory in which a builder lets the dialog open, as text, where one
/// was set.
pub uninterp spec fn builder_location(b: FileDialogBuilder) -> Option<Seq<char>>;

/// An extension as the builder keeps it: with a dot in front.
pub open spec fn dotted(extension: Seq<char>) -> Seq<char> {
    if extension.len() > 0 && extension[0] == '.' {
        extension
    } else {
        seq!['.'] + extension
    }
}

/// The extensions that the builder keeps of those it is given: the empty
/// ones are left out, the others get their dot.
pub open spec fn kept_extensions(extensions: Seq<Seq<char>>) -> Seq<Seq<char>> {
    extensions.filter(|e: Seq<char>| e.len() > 0).map_values(|e: Seq<char>| dotted(e))
}

/// The filter groups that the builder keeps of those it is given, in the
/// same order: a group without extensions is left out.
pub open spec fn kept_filters(groups: Seq<FilterGroupView>) -> Seq<(Seq<char>, Seq<Seq<char>>)> {
    groups.filter(|g: FilterGroupView| g.extensions.len() > 0).map_values(
        |g: FilterGroupView| (g.label, kept_extensions(g.extensions)),
    )
}

/// `native_dialog::DialogBuilder::file`: a builder that holds no filter, no
/// title and no location.
#[verifier::external_body]
fn empty_builder() -> (b: FileDialogBuilder)
    ensures
        builder_filters(b) == Seq::<(Seq<char>, Seq<Seq<char>>)>::empty(),
        builder_title(b) == None::<Seq<char>>,
        builder_location(b) == None::<Seq<char>>,
{
    DialogBuilder::file()
}

/// `native_dialog::FileDialogBuilder::add_filter`: appends one group under
/// its label, unless the list of extensions is empty; then nothing changes.
/// Of the extensions the library's `FileFilter::new` keeps what
/// [`kept_extensions`] says. Title and location stay.
#[verifier::external_body]
fn with_filter(b: FileDialogBuilder, label: &String, extensions: &Vec<String>) -> (r:
    FileDialogBuilder)
    ensures
        builder_filters(r) == if extensions@.len() == 0 {
            builder_filters(b)
        } else {
            builder_filters(b).push((label@, kept_extensions(extensions.deep_view())))
        },
        builder_title(r) == builder_title(b),
        builder_location(r) == builder_location(b),
{
    b.add_filter(label, extensions)
}

/// `native_dialog::FileDialogBuilder::set_title`: sets the title and leaves
/// filters and location as they were.
#[verifier::external_body]
fn with_title(b: FileDialogBuilder, title: &String) -> (r: FileDialogBuilder)
    ensures
        builder_title(r) == Some(title@),
        builder_filters(r) == builder_filters(b),
        builder_location(r) == builder_location(b),
{
    b.set_title(title)
}

/// `native_dialog::FileDialogBuilder::set_location`: sets the directory to
/// open in and leaves filters and title as they were.
#[verifier::external_body]
fn with_location(b: FileDialogBuilder, directory: &String) -> (r: FileDialogBuilder)
    ensures
        builder_location(r) == Some(directory@),
        builder_filters(r) == builder_filters(b),
        builder_title(r) == builder_title(b),
{
    b.set_location(directory)
}

/// Taking one more group into account appends what the builder keeps of it.
proof fn lemma_kept_filters_step(groups: Seq<FilterGroupView>, i: int)
    requires
        0 <= i < groups.len(),
    ensures
        kept_filters(groups.take(i + 1)) == if groups[i].extensions.len() == 0 {
            kept_filters(groups.take(i))
        } else {
            kept_filters(groups.take(i)).push(
                (groups[i].label, kept_extensions(groups[i].extensions)),
            )
        },
{
    reveal(Seq::filter);
    let longer = groups.take(i + 1);
    assert(longer.drop_last() =~= groups.take(i));
}

/// Puts the groups into the builder, one after the other.
fn add_filters(b: FileDialogBuilder, groups: &Vec<FilterGroup>) -> (r: FileDialogBuilder)
    ensures
        builder_filters(r) == builder_filters(b) + kept_filters(groups.deep_view()),
        builder_title(r) == builder_title(b),
        builder_location(r) == builder_location(b),
{
    let ghost all = groups.deep_view();
    let ghost start = b;
    let mut builder = b;
    let mut i: usize = 0;
    while i < groups.len()
        invariant
            i <= groups.len(),
            all == groups.deep_view(),
            builder_filters(builder) == builder_filters(start) + kept_filters(all.take(i as int)),
            builder_title(builder) == builder_title(start),
            builder_location(builder) == builder_location(start),
        decreases groups.len() - i,
    {
        proof {
            lemma_kept_filters_step(all, i as int);
        }
        builder = with_filter(builder, &groups[i].label, &groups[i].extensions);
        i += 1;
    }
    proof {
        assert(all.take(groups.len() as int) =~= all);
    }
    builder
}

/// Assembles the builder of the dialog that a request asks for: the filter
/// groups in their order, then the title where there is one, then the base
/// directory.
pub fn assemble(request: &SelectionRequest) -> (b: FileDialogBuilder)
    ensures
        builder_filters(b) == match request@.filters {
            Some(groups) => kept_filters(groups),
            None => Seq::empty(),
        },
        builder_title(b) == request@.title,
        builder_location(b) == Some(request@.base_directory),
{
    let mut builder = empty_builder();
    match request.filters() {
        Some(groups) => {
            builder = add_filters(builder, groups);
        },
        None => {},
    }
    match request.title() {
        Some(title) => {
            builder = with_title(builder, title);
        },
        None => {},
    }
    with_location(builder, request.base_directory())
}

} // verus!
