//! The `source` builtin: runs the commands of a file in the current shell.

use vstd::prelude::*;

verus! {

/// What `source` does.
#[derive(Debug)]
pub enum SourceAction {
    /// Run the file at this path; its exit status is that of the command.
    Run(String),
    /// Print this line to the error stream and end with exit status 0.
    Complain(String),
}

/// What `source` does, as text.
pub enum SourceActionView {
    Run(Seq<char>),
    Complain(Seq<char>),
}

impl View for SourceAction {
    type V = SourceActionView;

    open spec fn view(&self) -> SourceActionView {
        match *self {
            SourceAction::Run(path) => SourceActionView::Run(path@),
            SourceAction::Complain(line) => SourceActionView::Complain(line@),
        }
    }
}

/// The complaint about a missing argument.
pub open spec fn missing_filename() -> Seq<char> {
    "nsh: source: filename argument required"@
}

/// The action for the argument vector `argv`, whose first item is the name
/// of the command.
pub open spec fn source_action(argv: Seq<Seq<char>>) -> SourceActionView {
    if argv.len() > 1 {
        SourceActionView::Run(argv[1])
    } else {
        SourceActionView::Complain(missing_filename())
    }
}

/// Decides what `source` does.
pub fn command(argv: &Vec<String>) -> (action: SourceAction)
    ensures
        action@ == source_action(argv.deep_view()),
{
    if argv.len() > 1 {
        SourceAction::Run(argv[1].clone())
    } else {
        SourceAction::Complain("nsh: source: filename argument required".to_owned())
    }
}

} // verus!
