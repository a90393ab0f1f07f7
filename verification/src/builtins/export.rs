//! The `export` builtin: with an argument it marks that variable as
//! exported, without one it lists the exported variables.

use vstd::prelude::*;

verus! {

/// What `export` does.
#[derive(Debug)]
pub enum ExportAction {
    /// Mark the variable of this name as exported.
    Mark(String),
    /// Print the exported variables.
    List,
}

/// What `export` does, as text.
pub enum ExportActionView {
    Mark(Seq<char>),
    List,
}

impl View for ExportAction {
    type V = ExportActionView;

    open spec fn view(&self) -> ExportActionView {
        match *self {
            ExportAction::Mark(name) => ExportActionView::Mark(name@),
            ExportAction::List => ExportActionView::List,
        }
    }
}

/// The action for the argument vector `argv`, whose first item is the name
/// of the command.
pub open spec fn export_action(argv: Seq<Seq<char>>) -> ExportActionView {
    if argv.len() > 1 {
        ExportActionView::Mark(argv[1])
    } else {
        ExportActionView::List
    }
}

/// The line that lists one variable.
pub open spec fn listing_line(name: Seq<char>, value: Seq<char>) -> Seq<char> {
    name + seq!['='] + value + seq!['\n']
}

/// The listing of `vars`, pairs of a name and the value of that variable if
/// it is set: one line for each variable that is set, in order.
pub open spec fn listing_text(vars: Seq<(Seq<char>, Option<Seq<char>>)>) -> Seq<char>
    decreases vars.len(),
{
    if vars.len() == 0 {
        Seq::empty()
    } else {
        let before = listing_text(vars.drop_last());
        match vars.last().1 {
            Some(value) => before + listing_line(vars.last().0, value),
            None => before,
        }
    }
}

/// Decides what `export` does. The command itself always ends with exit
/// status 0.
pub fn command(argv: &Vec<String>) -> (action: ExportAction)
    ensures
        action@ == export_action(argv.deep_view()),
{
    if argv.len() > 1 {
        ExportAction::Mark(argv[1].clone())
    } else {
        ExportAction::List
    }
}

/// The text that `export` prints for the exported variables `vars`.
pub fn listing(vars: &Vec<(String, Option<String>)>) -> (text: String)
    ensures
        text@ == listing_text(vars.deep_view()),
{
    let ghost all = vars.deep_view();
    let mut text = String::new();
    let mut i: usize = 0;
    while i < vars.len()
        invariant
            i <= vars.len(),
            all == vars.deep_view(),
            text@ == listing_text(all.take(i as int)),
        decreases vars.len() - i,
    {
        proof {
            assert(all.take(i + 1).drop_last() =~= all.take(i as int));
        }
        if let Some(value) = &vars[i].1 {
            text.append(vars[i].0.as_str());
            text.push('=');
            text.append(value.as_str());
            text.push('\n');
        }
        i += 1;
    }
    assert(all.take(i as int) =~= all);
    text
}

} // verus!
