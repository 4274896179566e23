//! The face that the command shows to the host: its name, its flags and
//! options, and the kinds of value it returns.

use crate::mode::Mode;
use crate::mode::ResultKind;
use vstd::prelude::*;

verus! {

/// What a flag or option takes.
#[derive(Clone, Copy, Debug, PartialEq, Eq, Structural)]
pub enum Accepts {
    /// Nothing: the flag is there or it is not.
    Switch,
    /// The path of a directory.
    Directory,
    /// A string.
    Text,
    /// A record.
    Record,
}

/// What the command takes from the pipeline.
#[derive(Clone, Copy, Debug, PartialEq, Eq, Structural)]
pub enum InputKind {
    /// Nothing: the command reads no input.
    Nothing,
}

/// One flag or option of the command.
#[derive(Clone, Copy, Debug, PartialEq, Eq)]
pub struct Parameter {
    /// The long name, written after two dashes.
    pub long: &'static str,
    /// The short name, written after one dash.
    pub short: char,
    /// What it takes.
    pub accepts: Accepts,
    /// What the host's help says of it.
    pub help: &'static str,
}

/// The mathematical value of a [`Parameter`].
pub struct ParameterView {
    pub long: Seq<char>,
    pub short: char,
    pub accepts: Accepts,
    pub help: Seq<char>,
}

impl View for Parameter {
    type V = ParameterView;

    open spec fn view(&self) -> ParameterView {
        ParameterView {
            long: self.long@,
            short: self.short,
            accepts: self.accepts,
            help: self.help@,
        }
    }
}

impl DeepView for Parameter {
    type V = ParameterView;

    open spec fn deep_view(&self) -> ParameterView {
        self.view()
    }
}

/// The name under which the host knows the command.
pub open spec fn command_name() -> Seq<char> {
    "file-dialog"@
}

/// What the host's help says of the command.
pub open spec fn command_description() -> Seq<char> {
    "Select file(s) using the native dialog"@
}

/// The two flags and the three options, in the order of the host's help.
pub open spec fn command_parameters() -> Seq<ParameterView> {
    seq![
        ParameterView {
            long: "multiple"@,
            short: 'm',
            accepts: Accepts::Switch,
            help: "Select multiple values"@,
        },
        ParameterView {
            long: "dir-only"@,
            short: 'd',
            accepts: Accepts::Switch,
            help: "Select a directory instead of files"@,
        },
        ParameterView {
            long: "base-dir"@,
            short: 'b',
            accepts: Accepts::Directory,
            help: "Base dir to search"@,
        },
        ParameterView {
            long: "title"@,
            short: 't',
            accepts: Accepts::Text,
            help: "Window title"@,
        },
        ParameterView {
            long: "filter"@,
            short: 'f',
            accepts: Accepts::Record,
            help: "Filters to use"@,
        },
    ]
}

/// The name under which the host knows the command.
pub fn name() -> (r: &'static str)
    ensures
        r@ == command_name(),
{
    "file-dialog"
}

/// What the host's help says of the command.
pub fn description() -> (r: &'static str)
    ensures
        r@ == command_description(),
{
    "Select file(s) using the native dialog"
}

/// The flags and options of the command.
pub fn parameters() -> (r: Vec<Parameter>)
    ensures
        r.deep_view() == command_parameters(),
{
    let mut table: Vec<Parameter> = Vec::new();
    table.push(
        Parameter {
            long: "multiple",
            short: 'm',
            accepts: Accepts::Switch,
            help: "Select multiple values",
        },
    );
    table.push(
        Parameter {
            long: "dir-only",
            short: 'd',
            accepts: Accepts::Switch,
            help: "Select a directory instead of files",
        },
    );
    table.push(
        Parameter {
            long: "base-dir",
            short: 'b',
            accepts: Accepts::Directory,
            help: "Base dir to search",
        },
    );
    table.push(
        Parameter { long: "title", short: 't', accepts: Accepts::Text, help: "Window title" },
    );
    table.push(
        Parameter { long: "filter", short: 'f', accepts: Accepts::Record, help: "Filters to use" },
    );
    table
}

/// What the command takes from the pipeline and what it gives back, pair
/// by pair, as the host is told beforehand: it takes nothing, and every mode
/// leads to one of the kinds of result.
pub fn input_output_kinds() -> (r: Vec<(InputKind, ResultKind)>)
    ensures
        r@ == seq![
            (InputKind::Nothing, ResultKind::Text),
            (InputKind::Nothing, ResultKind::TextList),
        ],
        forall|mode: Mode| r@.contains((InputKind::Nothing, #[trigger] mode.kind())),
{
    let mut kinds: Vec<(InputKind, ResultKind)> = Vec::new();
    kinds.push((InputKind::Nothing, ResultKind::Text));
    kinds.push((InputKind::Nothing, ResultKind::TextList));
    assert(kinds@[0] == (InputKind::Nothing, ResultKind::Text) && kinds@[1] == (
        InputKind::Nothing,
        ResultKind::TextList,
    ));
    kinds
}

} // verus!
