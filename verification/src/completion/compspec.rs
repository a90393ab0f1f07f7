//! The completion policy registered for one command.

use vstd::prelude::*;

verus! {

/// What a completion policy holds.
pub struct CompSpecView {
    /// Name of the function that generates the candidates, if any.
    pub func_name: Option<Seq<char>>,
    /// Whether file names are offered when that function yields nothing.
    pub filenames_if_empty: bool,
    /// Whether directory names are offered when that function yields nothing.
    pub dirnames_if_empty: bool,
}

impl CompSpecView {
    /// The policy that nothing was set in.
    pub open spec fn empty() -> CompSpecView {
        CompSpecView { func_name: None, filenames_if_empty: false, dirnames_if_empty: false }
    }
}

/// The completion policy of one command. It is made by a `CompSpecBuilder`
/// and does not change afterwards.
#[derive(Debug)]
pub struct CompSpec {
    func_name: Option<String>,
    filenames_if_empty: bool,
    dirnames_if_empty: bool,
}

impl View for CompSpec {
    type V = CompSpecView;

    closed spec fn view(&self) -> CompSpecView {
        CompSpecView {
            func_name: self.func_name.deep_view(),
            filenames_if_empty: self.filenames_if_empty,
            dirnames_if_empty: self.dirnames_if_empty,
        }
    }
}

impl Clone for CompSpec {
    fn clone(&self) -> (r: CompSpec)
        ensures
            r@ == self@,
    {
        CompSpec {
            func_name: match &self.func_name {
                Some(name) => Some(name.clone()),
                None => None,
            },
            filenames_if_empty: self.filenames_if_empty,
            dirnames_if_empty: self.dirnames_if_empty,
        }
    }
}

impl CompSpec {
    /// Name of the function to call for candidates, if one was set.
    pub fn func_name(&self) -> (r: Option<&String>)
        ensures
            r.deep_view() == self@.func_name,
    {
        self.func_name.as_ref()
    }

    /// Whether file names are the fallback for an empty result.
    pub fn filenames_if_empty(&self) -> (r: bool)
        ensures
            r == self@.filenames_if_empty,
    {
        self.filenames_if_empty
    }

    /// Whether directory names are the fallback for an empty result.
    pub fn dirnames_if_empty(&self) -> (r: bool)
        ensures
            r == self@.dirnames_if_empty,
    {
        self.dirnames_if_empty
    }
}

/// Collects the parts of a completion policy.
#[derive(Debug)]
pub struct CompSpecBuilder {
    func_name: Option<String>,
    filenames_if_empty: bool,
    dirnames_if_empty: bool,
}

impl View for CompSpecBuilder {
    type V = CompSpecView;

    closed spec fn view(&self) -> CompSpecView {
        CompSpecView {
            func_name: self.func_name.deep_view(),
            filenames_if_empty: self.filenames_if_empty,
            dirnames_if_empty: self.dirnames_if_empty,
        }
    }
}

impl CompSpecBuilder {
    /// A builder with no function and both fallbacks off.
    pub fn new() -> (r: CompSpecBuilder)
        ensures
            r@ == CompSpecView::empty(),
    {
        CompSpecBuilder { func_name: None, filenames_if_empty: false, dirnames_if_empty: false }
    }

    /// Sets the function to call for candidates.
    pub fn func_name<'a>(&'a mut self, func_name: String) -> (r: &'a mut CompSpecBuilder)
        ensures
            r@ == (CompSpecView { func_name: Some(func_name@), ..old(self)@ }),
            *final(self) == *final(r),
    {
        self.func_name = Some(func_name);
        self
    }

    /// Sets whether directory names are the fallback for an empty result.
    pub fn dirnames_if_empty<'a>(&'a mut self, enable: bool) -> (r: &'a mut CompSpecBuilder)
        ensures
            r@ == (CompSpecView { dirnames_if_empty: enable, ..old(self)@ }),
            *final(self) == *final(r),
    {
        self.dirnames_if_empty = enable;
        self
    }

    /// Sets whether file names are the fallback for an empty result.
    pub fn filenames_if_empty<'a>(&'a mut self, enable: bool) -> (r: &'a mut CompSpecBuilder)
        ensures
            r@ == (CompSpecView { filenames_if_empty: enable, ..old(self)@ }),
            *final(self) == *final(r),
    {
        self.filenames_if_empty = enable;
        self
    }

    /// The policy with what was set so far.
    pub fn build(self) -> (spec: CompSpec)
        ensures
            spec@ == self@,
    {
        CompSpec {
            func_name: self.func_name,
            filenames_if_empty: self.filenames_if_empty,
            dirnames_if_empty: self.dirnames_if_empty,
        }
    }
}

} // verus!
