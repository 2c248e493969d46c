//! The emitters, one for each output format, and what they share: the
//! optional fragments around the module bodies, and the bodies themselves in
//! chunk order.
use vstd::prelude::*;
use vstd::string::*;
use crate::context::RenderedModuleSource;
use crate::source::{AddRawString, ConcatSource};
use crate::text::strs;

pub mod app;
pub mod cjs;
pub mod esm;
pub mod iife;

verus! {

/// The strict-mode pragma.
pub open spec fn use_strict_pragma() -> Seq<char> {
    "\"use strict\";"@
}

/// An optional text as a list of fragments: one, or none.
pub open spec fn optional_part(text: Option<String>) -> Seq<Seq<char>> {
    match text {
        Some(t) => seq![t@],
        None => Seq::empty(),
    }
}

/// An optional text as a list of fragments: one, or none.
pub open spec fn optional_text(text: Option<Seq<char>>) -> Seq<Seq<char>> {
    match text {
        Some(t) => seq![t],
        None => Seq::empty(),
    }
}

/// `part` if `present`, else nothing.
pub open spec fn part_if(present: bool, part: Seq<char>) -> Seq<Seq<char>> {
    if present {
        seq![part]
    } else {
        Seq::empty()
    }
}

/// The fragments of one rendered module.
pub open spec fn fragments_of(module: RenderedModuleSource) -> Seq<Seq<char>> {
    match module.sources {
        Some(sources) => strs(sources@),
        None => Seq::empty(),
    }
}

/// The fragments of `modules`, module after module.
pub open spec fn module_fragments(modules: Seq<RenderedModuleSource>) -> Seq<Seq<char>>
    decreases modules.len(),
{
    if modules.len() == 0 {
        Seq::empty()
    } else {
        module_fragments(modules.drop_last()) + fragments_of(modules.last())
    }
}

/// Adds an optional text.
pub fn add_optional(source: &mut ConcatSource, text: Option<String>)
    ensures
        final(source)@ == old(source)@ + optional_part(text),
{
    proof {
        assert(source@ + Seq::<Seq<char>>::empty() =~= source@);
        if text is Some {
            assert(source@.push(text->0@) =~= source@ + seq![text->0@]);
        }
    }
    source.add_optional_raw(text);
}

/// Adds a text.
pub fn add_text(source: &mut ConcatSource, text: String)
    ensures
        final(source)@ == old(source)@ + seq![text@],
{
    proof {
        assert(source@.push(text@) =~= source@ + seq![text@]);
    }
    source.add_raw(text);
}

/// Adds the fragments of one module.
fn add_fragments(source: &mut ConcatSource, module: &RenderedModuleSource)
    ensures
        final(source)@ == old(source)@ + fragments_of(*module),
{
    match &module.sources {
        Some(sources) => {
            let mut i: usize = 0;
            while i < sources.len()
                invariant
                    i <= sources.len(),
                    source@ == old(source)@ + strs(sources@).take(i as int),
                decreases sources.len() - i,
            {
                source.add_source(sources[i].clone());
                proof {
                    assert(source@ =~= old(source)@ + strs(sources@).take(i + 1));
                }
                i += 1;
            }
            proof {
                assert(strs(sources@).take(sources@.len() as int) =~= strs(sources@));
            }
        },
        None => {
            proof {
                assert(source@ + Seq::<Seq<char>>::empty() =~= source@);
            }
        },
    }
}

/// Adds the bodies of `modules[from..to]`, in order.
pub fn add_module_sources(
    source: &mut ConcatSource,
    modules: &Vec<RenderedModuleSource>,
    from: usize,
    to: usize,
)
    requires
        from <= to <= modules@.len(),
    ensures
        final(source)@ == old(source)@ + module_fragments(modules@.subrange(from as int, to as int)),
{
    let mut i: usize = from;
    proof {
        assert(source@ + Seq::<Seq<char>>::empty() =~= source@);
    }
    while i < to
        invariant
            from <= i <= to <= modules.len(),
            source@ == old(source)@ + module_fragments(modules@.subrange(from as int, i as int)),
        decreases to - i,
    {
        add_fragments(source, &modules[i]);
        proof {
            let upto = modules@.subrange(from as int, i + 1);
            assert(upto.drop_last() =~= modules@.subrange(from as int, i as int));
            assert(upto.last() == modules@[i as int]);
            assert(source@ =~= old(source)@ + module_fragments(upto));
        }
        i += 1;
    }
}

} // verus!
