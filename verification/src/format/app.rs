//! The emitter for a plain script: the module bodies between the texts that
//! the hooks gave, and nothing else.
use vstd::prelude::*;
use vstd::string::*;
use crate::context::{GenerateContext, RenderedModuleSource};
use crate::format::{add_module_sources, add_optional, module_fragments, optional_part};
use crate::source::ConcatSource;

verus! {

/// The fragments of the script, in order.
pub open spec fn app_parts(
    modules: Seq<RenderedModuleSource>,
    banner: Option<String>,
    footer: Option<String>,
    intro: Option<String>,
    outro: Option<String>,
) -> Seq<Seq<char>> {
    optional_part(banner) + optional_part(intro) + module_fragments(modules) + optional_part(outro)
        + optional_part(footer)
}

/// Emits a chunk as a script without exports: banner, intro, the module
/// bodies in chunk order, outro, footer.
pub fn render_app(
    ctx: &GenerateContext,
    module_sources: Vec<RenderedModuleSource>,
    banner: Option<String>,
    footer: Option<String>,
    intro: Option<String>,
    outro: Option<String>,
) -> (source: ConcatSource)
    ensures
        source@ == app_parts(module_sources@, banner, footer, intro, outro),
{
    let mut concat_source = ConcatSource::new();
    add_optional(&mut concat_source, banner);
    add_optional(&mut concat_source, intro);
    add_module_sources(&mut concat_source, &module_sources, 0, module_sources.len());
    proof {
        assert(module_sources@.subrange(0, module_sources@.len() as int) =~= module_sources@);
    }
    add_optional(&mut concat_source, outro);
    add_optional(&mut concat_source, footer);
    assert(concat_source@ =~= app_parts(module_sources@, banner, footer, intro, outro));
    concat_source
}

} // verus!
