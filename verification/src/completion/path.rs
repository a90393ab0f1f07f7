//! Path completion and command completion.
//!
//! Listing a directory and looking up executables are the caller's part.
//! Path completion therefore runs in two steps: `scan_directory` names the
//! directory to list, and `path_completion` turns what the listing gave
//! into candidates that remain to be ranked. `cmd_completion` names the
//! prefix to look up.

use crate::completion::compgen::CompGen;
use crate::completion::compgen::Generated;
use crate::completion::compgen::GeneratedView;
use crate::context::InputContext;
use crate::text::ends_with_separator;
use crate::text::has_separator;
use crate::text::has_trailing_separator;
use crate::text::path_separator;
use crate::text::strip_current_dir;
use crate::text::without_current_dir;
use std::sync::Arc;
use vstd::prelude::*;

verus! {

/// What `std::path::Path::parent` returns for the path written as `path`:
/// the path without its final component, or nothing where the path ends in
/// a root or is empty.
pub uninterp spec fn path_parent(path: Seq<char>) -> Option<Seq<char>>;

/// Calls `std::path::Path::parent` on `path`. The contract only names the
/// result. The parent of a path that came from text is a part of that text,
/// so it comes back as text unchanged.
#[verifier::external_body]
fn parent_of(path: &str) -> (parent: Option<String>)
    ensures
        parent.deep_view() == path_parent(path@),
{
    match std::path::Path::new(path).parent() {
        Some(parent) => Some(parent.to_string_lossy().into_owned()),
        None => None,
    }
}

/// The directory that holds the entries of the current directory.
pub open spec fn current_dir() -> Seq<char> {
    seq!['.']
}

/// The directory whose entries complete `word`: `word` itself where it ends
/// with the separator, its parent where it holds a separator elsewhere,
/// and the current directory otherwise. There is none where such a parent
/// does not exist.
pub open spec fn directory_of(word: Option<Seq<char>>) -> Option<Seq<char>> {
    match word {
        Some(w) => {
            if ends_with_separator(w) {
                Some(w)
            } else if w.contains(path_separator()) {
                path_parent(w)
            } else {
                Some(current_dir())
            }
        },
        None => Some(current_dir()),
    }
}

/// The candidate that one entry of a listing stands for: its path without
/// a leading `./`, or none where the entry could not be read.
pub open spec fn listed_path(entry: Option<Seq<char>>) -> Option<Seq<char>> {
    match entry {
        Some(path) => Some(without_current_dir(path)),
        None => None,
    }
}

/// The candidates that a listing stands for: the paths that could be read,
/// in listing order, each without a leading `./`.
pub open spec fn listed_paths(listing: Seq<Option<Seq<char>>>) -> Seq<Seq<char>> {
    listing.filter_map(|entry: Option<Seq<char>>| listed_path(entry))
}

/// What path completion yields for a query and a listing: nothing where the
/// scan failed, else the listed paths, to be ranked by the query.
pub open spec fn path_candidates(
    query: Seq<char>,
    listing: Option<Seq<Option<Seq<char>>>>,
) -> GeneratedView {
    match listing {
        None => GeneratedView::Ready(Seq::empty()),
        Some(entries) => GeneratedView::Rank { entries: listed_paths(entries), query },
    }
}

/// The directory to list for the current word, or `None` where there is
/// nothing to list.
pub fn scan_directory(ctx: &InputContext) -> (dir: Option<String>)
    ensures
        dir.deep_view() == directory_of(ctx.word_text()),
{
    match &ctx.word {
        Some(word) => {
            let word = word.as_str();
            if has_trailing_separator(word) {
                Some(word.to_owned())
            } else if has_separator(word) {
                parent_of(word)
            } else {
                Some(here())
            }
        },
        None => Some(here()),
    }
}

fn here() -> (dir: String)
    ensures
        dir@ == current_dir(),
{
    let dir = ".";
    proof {
        reveal_strlit(".");
    }
    dir.to_owned()
}

/// Turns the outcome of listing the directory of `scan_directory` into
/// candidates. `listing` is `None` where the scan failed, and holds `None`
/// for each entry that could not be read or is no text: a failed scan gives
/// no candidates, and such an entry is left out. The listed paths are to be
/// ranked by the current word, or by the empty query where there is no
/// current word.
pub fn path_completion(ctx: &InputContext, listing: Option<Vec<Option<String>>>) -> (out: Generated)
    ensures
        out@ == path_candidates(ctx.query_text(), listing.deep_view()),
        listing is None ==> out@ == GeneratedView::Ready(Seq::empty()),
{
    match listing {
        None => {
            let none: Vec<Arc<String>> = Vec::new();
            assert(none.deep_view() =~= Seq::empty());
            Generated::Ready(none)
        },
        Some(paths) => {
            let ghost listed = paths.deep_view();
            let mut entries: Vec<Arc<String>> = Vec::new();
            let mut i: usize = 0;
            while i < paths.len()
                invariant
                    i <= paths.len(),
                    listed == paths.deep_view(),
                    entries.deep_view() == listed_paths(listed.take(i as int)),
                decreases paths.len() - i,
            {
                proof {
                    listed.lemma_filter_map_take_succ(
                        |entry: Option<Seq<char>>| listed_path(entry),
                        i as int,
                    );
                }
                if let Some(path) = &paths[i] {
                    entries.push(Arc::new(strip_current_dir(path.as_str()).to_owned()));
                }
                i += 1;
            }
            assert(listed.take(i as int) =~= listed);
            let query = match &ctx.word {
                Some(word) => word.as_str(),
                None => "",
            };
            proof {
                reveal_strlit("");
            }
            assert(query@ =~= ctx.query_text());
            let mut compgen = CompGen::new();
            compgen.entries(entries).filter_by(query);
            compgen.generate()
        },
    }
}

/// The request that command completion makes of the executable lookup.
#[derive(Debug)]
pub struct CommandLookup {
    /// The candidates are the lookup's matches for this prefix, unchanged.
    pub prefix: Arc<String>,
}

impl CommandLookup {
    /// The candidates: what `complete`, the executable lookup, returns for
    /// the prefix.
    pub fn resolve<C>(self, complete: C) -> (candidates: Vec<Arc<String>>) where
        C: FnOnce(Arc<String>) -> Vec<Arc<String>>,

        requires
            complete.requires((self.prefix,)),
        ensures
            complete.ensures((self.prefix,), candidates),
    {
        complete(self.prefix)
    }
}

/// Command completion looks up the current word, or the empty prefix where
/// there is no current word.
pub fn cmd_completion(ctx: &InputContext) -> (lookup: CommandLookup)
    ensures
        lookup.prefix@ == ctx.query_text(),
{
    match &ctx.word {
        Some(query) => CommandLookup { prefix: query.clone() },
        None => CommandLookup { prefix: Arc::new(String::new()) },
    }
}

} // verus!
