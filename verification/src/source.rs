//! The emitted file as a list of fragments, in the order in which they stand.
use vstd::prelude::*;
use vstd::string::*;
use crate::text::{join, join_seq, strs};

verus! {

/// An ordered list of text fragments. The finished text is the fragments
/// with a line break between neighbours.
pub struct ConcatSource {
    parts: Vec<String>,
}

impl View for ConcatSource {
    type V = Seq<Seq<char>>;

    closed spec fn view(&self) -> Seq<Seq<char>> {
        strs(self.parts@)
    }
}

impl ConcatSource {
    pub fn new() -> (s: ConcatSource)
        ensures
            s@ == Seq::<Seq<char>>::empty(),
    {
        let s = ConcatSource { parts: Vec::new() };
        proof {
            assert(s@ =~= Seq::<Seq<char>>::empty());
        }
        s
    }

    /// Adds a fragment at the end.
    pub fn add_source(&mut self, source: String)
        ensures
            final(self)@ == old(self)@.push(source@),
    {
        self.parts.push(source);
        proof {
            assert(self@ =~= old(self)@.push(source@));
        }
    }

    /// How many fragments there are.
    pub fn len(&self) -> (n: usize)
        ensures
            n == self@.len(),
    {
        self.parts.len()
    }

    /// The fragment at place `i`.
    pub fn part(&self, i: usize) -> (s: &str)
        requires
            i < self@.len(),
        ensures
            s@ == self@[i as int],
    {
        self.parts[i].as_str()
    }

    /// The finished text.
    pub fn content(&self) -> (text: String)
        ensures
            text@ == join_seq(self@, "\n"@),
    {
        join(&self.parts, "\n")
    }
}

impl Default for ConcatSource {
    fn default() -> (s: ConcatSource)
        ensures
            s@ == Seq::<Seq<char>>::empty(),
    {
        ConcatSource::new()
    }
}

/// Adding plain text to something that collects fragments.
pub trait AddRawString {
    /// The fragments collected so far.
    spec fn fragments(&self) -> Seq<Seq<char>>;

    /// Adds `content` as the last fragment.
    fn add_raw(&mut self, content: String)
        ensures
            final(self).fragments() == old(self).fragments().push(content@),
    ;

    /// Adds `content` as the last fragment, if there is any.
    fn add_optional_raw(&mut self, content: Option<String>)
        ensures
            final(self).fragments() == with_optional(old(self).fragments(), content),
    ;
}

/// `parts` with `content` behind it, where there is one.
pub open spec fn with_optional(parts: Seq<Seq<char>>, content: Option<String>) -> Seq<Seq<char>> {
    match content {
        Some(text) => parts.push(text@),
        None => parts,
    }
}

impl AddRawString for ConcatSource {
    open spec fn fragments(&self) -> Seq<Seq<char>> {
        self@
    }

    fn add_raw(&mut self, content: String) {
        self.add_source(content);
    }

    fn add_optional_raw(&mut self, content: Option<String>) {
        if let Some(content) = content {
            self.add_raw(content);
        }
    }
}

} // verus!
