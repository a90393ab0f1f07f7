//! The candidate generator: assembles a raw candidate list and says whether
//! it still has to be ranked. The ranking itself is a service of the caller.

use crate::text::split;
use crate::text::split_words;
use std::sync::Arc;
use vstd::prelude::*;

verus! {

/// What a generator is configured with.
pub struct CompGenView {
    /// The raw candidates, in insertion order.
    pub entries: Seq<Seq<char>>,
    /// The query to rank the candidates by, if one was recorded.
    pub query: Option<Seq<char>>,
    /// Whether the candidates stand for command names.
    pub include_commands: bool,
    /// Whether the candidates stand for file names.
    pub include_files: bool,
    /// Whether the candidates stand for directory names.
    pub include_dirs: bool,
}

impl CompGenView {
    /// A generator that nothing was recorded in.
    pub open spec fn empty() -> CompGenView {
        CompGenView {
            entries: Seq::empty(),
            query: None,
            include_commands: false,
            include_files: false,
            include_dirs: false,
        }
    }

    /// What generation yields: without a query the entries as they are,
    /// with one the request to rank them by it.
    pub open spec fn generate(self) -> GeneratedView {
        match self.query {
            None => GeneratedView::Ready(self.entries),
            Some(query) => GeneratedView::Rank { entries: self.entries, query },
        }
    }
}

/// The outcome of a generation.
#[derive(Debug)]
pub enum Generated {
    /// The candidates are final.
    Ready(Vec<Arc<String>>),
    /// The candidates are what the ranking service returns for `entries`
    /// and `query`.
    Rank { entries: Vec<Arc<String>>, query: String },
}

/// The outcome of a generation, as texts.
pub enum GeneratedView {
    Ready(Seq<Seq<char>>),
    Rank { entries: Seq<Seq<char>>, query: Seq<char> },
}

impl View for Generated {
    type V = GeneratedView;

    open spec fn view(&self) -> GeneratedView {
        match *self {
            Generated::Ready(entries) => GeneratedView::Ready(entries.deep_view()),
            Generated::Rank { entries, query } => GeneratedView::Rank {
                entries: entries.deep_view(),
                query: query@,
            },
        }
    }
}

impl Generated {
    /// The candidates: those of `Ready` as they are, or what `rank`, the
    /// ranking service, returns for the entries and the query of `Rank`.
    pub fn resolve<R>(self, rank: R) -> (candidates: Vec<Arc<String>>) where
        R: FnOnce(Vec<Arc<String>>, String) -> Vec<Arc<String>>,

        requires
            (self matches Generated::Rank { entries, query } ==> rank.requires((entries, query))),
        ensures
            self matches Generated::Ready(entries) ==> candidates == entries,
            (self matches Generated::Rank { entries, query } ==> rank.ensures(
                (entries, query),
                candidates,
            )),
    {
        match self {
            Generated::Ready(entries) => entries,
            Generated::Rank { entries, query } => rank(entries, query),
        }
    }
}

/// Builder of one candidate list. It is configured by chained calls and
/// used up by `generate`.
///
/// The three `include_*` flags record which kinds of names the list stands
/// for. Generation does not enumerate anything by them: the caller that
/// fills in the entries reads them back through `includes_commands`,
/// `includes_files` and `includes_dirs`.
pub struct CompGen {
    entries: Vec<Arc<String>>,
    query: Option<String>,
    include_commands: bool,
    include_files: bool,
    include_dirs: bool,
}

impl View for CompGen {
    type V = CompGenView;

    closed spec fn view(&self) -> CompGenView {
        CompGenView {
            entries: self.entries.deep_view(),
            query: match self.query {
                Some(q) => Some(q@),
                None => None,
            },
            include_commands: self.include_commands,
            include_files: self.include_files,
            include_dirs: self.include_dirs,
        }
    }
}

impl CompGen {
    /// A generator without entries, query or flags.
    pub fn new() -> (r: CompGen)
        ensures
            r@ == CompGenView::empty(),
    {
        let r = CompGen {
            entries: Vec::new(),
            query: None,
            include_commands: false,
            include_files: false,
            include_dirs: false,
        };
        assert(r.entries.deep_view() =~= Seq::empty());
        r
    }

    /// Records whether the candidates stand for command names.
    pub fn include_commands<'a>(&'a mut self, enable: bool) -> (r: &'a mut CompGen)
        ensures
            r@ == (CompGenView { include_commands: enable, ..old(self)@ }),
            *final(self) == *final(r),
    {
        self.include_commands = enable;
        self
    }

    /// Records whether the candidates stand for file names.
    pub fn include_files<'a>(&'a mut self, enable: bool) -> (r: &'a mut CompGen)
        ensures
            r@ == (CompGenView { include_files: enable, ..old(self)@ }),
            *final(self) == *final(r),
    {
        self.include_files = enable;
        self
    }

    /// Records whether the candidates stand for directory names.
    pub fn include_dirs<'a>(&'a mut self, enable: bool) -> (r: &'a mut CompGen)
        ensures
            r@ == (CompGenView { include_dirs: enable, ..old(self)@ }),
            *final(self) == *final(r),
    {
        self.include_dirs = enable;
        self
    }

    /// Replaces the entries by the words of `wordlist`, split at every
    /// character of `ifs`.
    pub fn wordlist<'a>(&'a mut self, wordlist: &str, ifs: &str) -> (r: &'a mut CompGen)
        ensures
            r@ == (CompGenView { entries: split_words(wordlist@, ifs@), ..old(self)@ }),
            *final(self) == *final(r),
    {
        self.entries = split(wordlist, ifs);
        self
    }

    /// Replaces the entries by `entries`.
    pub fn entries<'a>(&'a mut self, entries: Vec<Arc<String>>) -> (r: &'a mut CompGen)
        ensures
            r@ == (CompGenView { entries: entries.deep_view(), ..old(self)@ }),
            *final(self) == *final(r),
    {
        self.entries = entries;
        self
    }

    /// Records the query to rank the entries by.
    pub fn filter_by<'a>(&'a mut self, query: &str) -> (r: &'a mut CompGen)
        ensures
            r@ == (CompGenView { query: Some(query@), ..old(self)@ }),
            *final(self) == *final(r),
    {
        self.query = Some(query.to_owned());
        self
    }

    /// Whether the candidates were declared to stand for command names.
    pub fn includes_commands(&self) -> (r: bool)
        ensures
            r == self@.include_commands,
    {
        self.include_commands
    }

    /// Whether the candidates were declared to stand for file names.
    pub fn includes_files(&self) -> (r: bool)
        ensures
            r == self@.include_files,
    {
        self.include_files
    }

    /// Whether the candidates were declared to stand for directory names.
    pub fn includes_dirs(&self) -> (r: bool)
        ensures
            r == self@.include_dirs,
    {
        self.include_dirs
    }

    /// Uses the generator up. Without a recorded query the entries come
    /// back unchanged and in insertion order; with one, entries and query
    /// come back for the ranking service.
    pub fn generate(self) -> (out: Generated)
        ensures
            out@ == self@.generate(),
            self@.query is None ==> out@ == GeneratedView::Ready(self@.entries),
    {
        match self.query {
            Some(query) => Generated::Rank { entries: self.entries, query },
            None => Generated::Ready(self.entries),
        }
    }
}

} // verus!
