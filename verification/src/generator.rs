//! Renders one chunk into its preliminary asset: collects the texts of the
//! hooks in their fixed order, picks the emitter of the configured format,
//! and packs the result with the warnings of the pass.
use std::path::PathBuf;
use vstd::pervasive::unreached;
use vstd::prelude::*;
use vstd::string::*;
use crate::format::app::{app_parts, render_app};
use crate::format::cjs::render_cjs;
use crate::context::{
    ChunkKind, GenerateContext, Module, RenderedModuleSource, RenderedModuleView,
};
use crate::diagnostic::{diagnostics, BuildDiagnostic, BuildDiagnosticView};
use crate::format::esm::render_esm;
use crate::format::iife::render_iife;
use crate::options::OutputFormat;
use crate::source::ConcatSource;
use crate::text::{first_char, join_seq, strs};

verus! {

/// The four texts that hooks may add to a chunk.
#[derive(Clone, Copy, Debug, PartialEq, Eq, Structural)]
pub enum AddonKind {
    Banner,
    Intro,
    Outro,
    Footer,
}

/// What is to be done next while the texts of the hooks are collected.
#[derive(Clone, Copy, Debug, PartialEq, Eq, Structural)]
pub enum AddonStep {
    /// Call the user's hook of this kind, if there is one.
    CallHook(AddonKind),
    /// Hand the hook's text to the plugins' hook of this kind.
    CallPlugins(AddonKind),
    /// All four texts are there.
    Finished,
}

/// The kind whose hook is called after that of `kind`.
pub open spec fn kind_after(kind: AddonKind) -> Option<AddonKind> {
    match kind {
        AddonKind::Banner => Some(AddonKind::Intro),
        AddonKind::Intro => Some(AddonKind::Outro),
        AddonKind::Outro => Some(AddonKind::Footer),
        AddonKind::Footer => None,
    }
}

/// The step that follows `step` once its call has returned.
pub open spec fn step_after(step: AddonStep) -> AddonStep {
    match step {
        AddonStep::CallHook(kind) => AddonStep::CallPlugins(kind),
        AddonStep::CallPlugins(kind) => match kind_after(kind) {
            Some(next) => AddonStep::CallHook(next),
            None => AddonStep::Finished,
        },
        AddonStep::Finished => AddonStep::Finished,
    }
}

/// The step reached from the start after `n` calls have returned.
pub open spec fn step_number(n: nat) -> AddonStep
    decreases n,
{
    if n == 0 {
        AddonStep::CallHook(AddonKind::Banner)
    } else {
        step_after(step_number((n - 1) as nat))
    }
}

/// The calls come in one order: the banner's hook, the plugins' banner, then
/// the same for intro, outro and footer; after eight calls nothing is left.
pub proof fn lemma_addon_order()
    ensures
        step_number(0) == AddonStep::CallHook(AddonKind::Banner),
        step_number(1) == AddonStep::CallPlugins(AddonKind::Banner),
        step_number(2) == AddonStep::CallHook(AddonKind::Intro),
        step_number(3) == AddonStep::CallPlugins(AddonKind::Intro),
        step_number(4) == AddonStep::CallHook(AddonKind::Outro),
        step_number(5) == AddonStep::CallPlugins(AddonKind::Outro),
        step_number(6) == AddonStep::CallHook(AddonKind::Footer),
        step_number(7) == AddonStep::CallPlugins(AddonKind::Footer),
        forall|n: nat| n >= 8 ==> #[trigger] step_number(n) == AddonStep::Finished,
{
    reveal_with_fuel(step_number, 9);
    assert forall|n: nat| n >= 8 implies #[trigger] step_number(n) == AddonStep::Finished by {
        lemma_finished_stays(n);
    }
}

proof fn lemma_finished_stays(n: nat)
    requires
        n >= 8,
    ensures
        step_number(n) == AddonStep::Finished,
    decreases n,
{
    reveal_with_fuel(step_number, 9);
    if n > 8 {
        lemma_finished_stays((n - 1) as nat);
    }
}

/// The texts of the hooks as far as they are collected, and the call that
/// is due next. `injection` is what the user's hook gave and the plugins'
/// hook is still to receive.
#[derive(Debug)]
pub struct Addons {
    pub step: AddonStep,
    pub injection: String,
    pub banner: Option<String>,
    pub intro: Option<String>,
    pub outro: Option<String>,
    pub footer: Option<String>,
}

/// The text of an optional string, empty where it is missing.
pub open spec fn text_or_default(text: Option<String>) -> Seq<char> {
    match text {
        Some(t) => t@,
        None => Seq::empty(),
    }
}

impl Addons {
    /// The text collected for `kind`.
    pub open spec fn slot(&self, kind: AddonKind) -> Option<String> {
        match kind {
            AddonKind::Banner => self.banner,
            AddonKind::Intro => self.intro,
            AddonKind::Outro => self.outro,
            AddonKind::Footer => self.footer,
        }
    }

    /// Nothing collected yet; the banner's hook is due.
    pub fn new() -> (a: Addons)
        ensures
            a.step == AddonStep::CallHook(AddonKind::Banner),
            a.injection@.len() == 0,
            a.banner is None && a.intro is None && a.outro is None && a.footer is None,
    {
        Addons {
            step: AddonStep::CallHook(AddonKind::Banner),
            injection: String::new(),
            banner: None,
            intro: None,
            outro: None,
            footer: None,
        }
    }

    /// Takes what the user's hook returned (nothing where there is no hook):
    /// its text, or the empty text, is what the plugins' hook gets next.
    pub fn hook_returned(&mut self, result: Option<String>)
        requires
            old(self).step is CallHook,
        ensures
            final(self).step == step_after(old(self).step),
            final(self).injection@ == text_or_default(result),
            forall|k: AddonKind| final(self).slot(k) == old(self).slot(k),
    {
        self.injection = match result {
            Some(text) => text,
            None => String::new(),
        };
        self.step = match self.step {
            AddonStep::CallHook(kind) => AddonStep::CallPlugins(kind),
            other => other,
        };
    }

    /// Takes what the plugins' hook made of the injection: that is the text
    /// of this kind. The hook of the next kind is due, or nothing more.
    pub fn plugins_returned(&mut self, result: Option<String>)
        requires
            old(self).step is CallPlugins,
        ensures
            final(self).step == step_after(old(self).step),
            final(self).slot(old(self).step->CallPlugins_0) == result,
            forall|k: AddonKind|
                k != old(self).step->CallPlugins_0 ==> final(self).slot(k) == old(self).slot(k),
    {
        match self.step {
            AddonStep::CallPlugins(kind) => {
                match kind {
                    AddonKind::Banner => {
                        self.banner = result;
                        self.step = AddonStep::CallHook(AddonKind::Intro);
                    },
                    AddonKind::Intro => {
                        self.intro = result;
                        self.step = AddonStep::CallHook(AddonKind::Outro);
                    },
                    AddonKind::Outro => {
                        self.outro = result;
                        self.step = AddonStep::CallHook(AddonKind::Footer);
                    },
                    AddonKind::Footer => {
                        self.footer = result;
                        self.step = AddonStep::Finished;
                    },
                }
            },
            _ => {},
        }
    }
}

/// A module as the rendered chunk reports it.
#[derive(Debug)]
pub struct RenderedModule {
    pub code: Option<String>,
}

/// The asset of one chunk before its file name is final.
#[derive(Debug)]
pub struct PreliminaryAsset {
    pub origin_chunk: usize,
    pub content: String,
    pub map_sources: Option<Vec<String>>,
    pub rendered_modules: Vec<String>,
    pub file_dir: PathBuf,
    pub preliminary_filename: String,
}

#[derive(Debug)]
pub struct GenerateOutput {
    pub assets: Vec<PreliminaryAsset>,
    pub warnings: Vec<BuildDiagnostic>,
}

/// Whether a module is shown to the outside: one whose id begins with a
/// null character is not.
pub open spec fn is_exposed(id: Seq<char>) -> bool {
    id.len() == 0 || id[0] != '\0'
}

/// The ids of the modules that are shown to the outside, in order.
pub open spec fn exposed_ids(modules: Seq<RenderedModuleSource>) -> Seq<Seq<char>>
    decreases modules.len(),
{
    if modules.len() == 0 {
        Seq::empty()
    } else if is_exposed(modules.last().id@) {
        exposed_ids(modules.drop_last()).push(modules.last().id@)
    } else {
        exposed_ids(modules.drop_last())
    }
}

/// The first of `rendered` that is the body of module `idx`.
pub open spec fn first_of_module(rendered: Seq<RenderedModuleSource>, idx: usize) -> Option<
    RenderedModuleSource,
>
    decreases rendered.len(),
{
    if rendered.len() == 0 {
        None
    } else if rendered[0].idx == idx {
        Some(rendered[0])
    } else {
        first_of_module(rendered.drop_first(), idx)
    }
}

/// The rendered bodies in the order of `order`: for each module of the
/// chunk its body, where one was rendered.
pub open spec fn in_chunk_order(order: Seq<usize>, rendered: Seq<RenderedModuleSource>) -> Seq<
    RenderedModuleSource,
> {
    order.filter_map(|idx: usize| first_of_module(rendered, idx))
}

/// The views of a list of rendered modules.
pub open spec fn module_views(modules: Seq<RenderedModuleSource>) -> Seq<RenderedModuleView> {
    modules.map_values(|m: RenderedModuleSource| m@)
}

/// What is found for a module is a body of that module, and one of those
/// that were rendered.
pub proof fn lemma_first_of_module(rendered: Seq<RenderedModuleSource>, idx: usize)
    ensures
        first_of_module(rendered, idx) matches Some(found) ==> found.idx == idx
            && rendered.contains(found),
        first_of_module(rendered, idx) is None ==> forall|k: int|
            0 <= k < rendered.len() ==> (#[trigger] rendered[k]).idx != idx,
    decreases rendered.len(),
{
    if rendered.len() > 0 {
        if rendered[0].idx == idx {
            assert(rendered.contains(rendered[0]));
        } else {
            let rest = rendered.drop_first();
            lemma_first_of_module(rest, idx);
            if first_of_module(rest, idx) is Some {
                let found = first_of_module(rest, idx)->0;
                let k = choose|k: int| 0 <= k < rest.len() && rest[k] == found;
                assert(rendered[k + 1] == found);
            }
            assert forall|k: int| 0 <= k < rendered.len() && first_of_module(rendered, idx)
                is None implies (#[trigger] rendered[k]).idx != idx by {
                if k > 0 {
                    assert(rest[k - 1] == rendered[k]);
                }
            }
        }
    }
}

/// However the bodies arrive, they are emitted in the order of the chunk's
/// modules: the modules of the ordered bodies are those modules of the
/// chunk for which a body was rendered, in the chunk's order.
pub proof fn lemma_chunk_order_is_restored(order: Seq<usize>, rendered: Seq<RenderedModuleSource>)
    ensures
        in_chunk_order(order, rendered).map_values(|m: RenderedModuleSource| m.idx)
            == order.filter(|idx: usize| first_of_module(rendered, idx) is Some),
    decreases order.len(),
{
    reveal(Seq::filter);
    let ordered = in_chunk_order(order, rendered);
    let kept = order.filter(|idx: usize| first_of_module(rendered, idx) is Some);
    if order.len() == 0 {
        assert(ordered.map_values(|m: RenderedModuleSource| m.idx) =~= kept);
    } else {
        let rest = order.drop_last();
        lemma_chunk_order_is_restored(rest, rendered);
        lemma_first_of_module(rendered, order.last());
        let before = in_chunk_order(rest, rendered);
        match first_of_module(rendered, order.last()) {
            Some(m) => {
                assert(ordered == before + seq![m]);
                assert(kept == rest.filter(
                    |idx: usize| first_of_module(rendered, idx) is Some,
                ).push(order.last()));
                assert(ordered.map_values(|m: RenderedModuleSource| m.idx) =~= before.map_values(
                    |m: RenderedModuleSource| m.idx,
                ).push(order.last()));
            },
            None => {
                assert(ordered == before);
                assert(kept == rest.filter(|idx: usize| first_of_module(rendered, idx) is Some));
            },
        }
    }
}

/// A copy of a rendered module.
fn copy_of(module: &RenderedModuleSource) -> (copy: RenderedModuleSource)
    ensures
        copy@ == module@,
{
    let sources = match &module.sources {
        Some(sources) => {
            let mut copied: Vec<String> = Vec::new();
            let mut i: usize = 0;
            while i < sources.len()
                invariant
                    i <= sources.len(),
                    copied@.map_values(|s: String| s@) == sources@.take(i as int).map_values(
                        |s: String| s@,
                    ),
                decreases sources.len() - i,
            {
                let ghost before = copied@.map_values(|s: String| s@);
                copied.push(sources[i].clone());
                proof {
                    assert(copied@.map_values(|s: String| s@) =~= before.push(sources@[i as int]@));
                    assert(sources@.take(i + 1).map_values(|s: String| s@) =~= before.push(
                        sources@[i as int]@,
                    ));
                }
                i += 1;
            }
            proof {
                assert(sources@.take(sources@.len() as int) =~= sources@);
            }
            Some(copied)
        },
        None => None,
    };
    RenderedModuleSource { idx: module.idx, id: module.id.clone(), sources }
}

impl GenerateContext {
    /// Whether the chunk can be rendered in the configured format: a
    /// wrapper format needs an entry module that is part of the bundle.
    pub open spec fn renderable(&self) -> bool {
        (self.options.format == OutputFormat::Iife || self.options.format == OutputFormat::Amd)
            ==> self.entry_module() is Some
    }

    /// What rendering the chunk comes to: the fragments of the file, or the
    /// error that ends the rendering.
    pub open spec fn render_outcome(
        &self,
        modules: Seq<RenderedModuleSource>,
        banner: Option<String>,
        footer: Option<String>,
        intro: Option<String>,
        outro: Option<String>,
    ) -> Result<Seq<Seq<char>>, BuildDiagnosticView> {
        match self.options.format {
            OutputFormat::Esm => Ok(self.esm_parts(modules, banner, footer, intro, outro)),
            OutputFormat::Cjs => Ok(self.cjs_parts(modules, banner, footer, intro, outro)),
            OutputFormat::App => Ok(app_parts(modules, banner, footer, intro, outro)),
            OutputFormat::Iife => self.wrapper_outcome(
                modules,
                banner,
                footer,
                intro,
                outro,
                true,
            ),
            OutputFormat::Amd => self.wrapper_outcome(
                modules,
                banner,
                footer,
                intro,
                outro,
                false,
            ),
        }
    }

    /// The warnings that rendering adds where it succeeds.
    pub open spec fn render_warnings(&self) -> Seq<BuildDiagnosticView> {
        match self.options.format {
            OutputFormat::Iife | OutputFormat::Amd => self.wrapper_warnings(),
            _ => Seq::empty(),
        }
    }
}

pub struct EcmaGenerator;

impl EcmaGenerator {
    /// Tests whether the chunk can be rendered in the configured format.
    pub fn is_renderable(ctx: &GenerateContext) -> (b: bool)
        requires
            ctx.wf(),
        ensures
            b == ctx.renderable(),
    {
        match ctx.options.format {
            OutputFormat::Iife | OutputFormat::Amd => match ctx.chunk.kind {
                ChunkKind::EntryPoint { module } => match &ctx.link_output.modules[module] {
                    Module::Ecma(_) => true,
                    Module::External(_) => false,
                },
                ChunkKind::Common => false,
            },
            _ => true,
        }
    }

    /// The ids of the rendered modules that are reported: all but those
    /// whose id begins with a null character.
    pub fn rendered_module_ids(module_sources: &Vec<RenderedModuleSource>) -> (ids: Vec<String>)
        ensures
            strs(ids@) == exposed_ids(module_sources@),
    {
        let mut ids: Vec<String> = Vec::new();
        let mut i: usize = 0;
        proof {
            assert(strs(ids@) =~= exposed_ids(module_sources@.take(0)));
        }
        while i < module_sources.len()
            invariant
                i <= module_sources.len(),
                strs(ids@) == exposed_ids(module_sources@.take(i as int)),
            decreases module_sources.len() - i,
        {
            let id = &module_sources[i].id;
            proof {
                assert(module_sources@.take(i + 1).drop_last() =~= module_sources@.take(i as int));
                assert(module_sources@.take(i + 1).last() == module_sources@[i as int]);
            }
            let hidden = match first_char(id.as_str()) {
                Some(c) => c == '\0',
                None => false,
            };
            if !hidden {
                let ghost before = strs(ids@);
                ids.push(id.clone());
                proof {
                    assert(strs(ids@) =~= before.push(id@));
                }
            }
            i += 1;
        }
        proof {
            assert(module_sources@.take(module_sources@.len() as int) =~= module_sources@);
        }
        ids
    }

    /// Puts rendered bodies, which may arrive in any order, into the order
    /// of the chunk's modules. A module without a body is passed over.
    pub fn collect_in_chunk_order(
        order: &Vec<usize>,
        rendered: &Vec<RenderedModuleSource>,
    ) -> (ordered: Vec<RenderedModuleSource>)
        ensures
            module_views(ordered@) == module_views(in_chunk_order(order@, rendered@)),
    {
        let ghost found = |idx: usize| first_of_module(rendered@, idx);
        let mut ordered: Vec<RenderedModuleSource> = Vec::new();
        let mut i: usize = 0;
        proof {
            assert(module_views(ordered@) =~= module_views(order@.take(0).filter_map(found)));
        }
        while i < order.len()
            invariant
                i <= order.len(),
                found == |idx: usize| first_of_module(rendered@, idx),
                module_views(ordered@) == module_views(order@.take(i as int).filter_map(found)),
            decreases order.len() - i,
        {
            let idx = order[i];
            proof {
                assert(order@.take(i + 1).drop_last() =~= order@.take(i as int));
                assert(order@.take(i + 1).last() == idx);
            }
            let mut k: usize = 0;
            proof {
                assert(rendered@.subrange(0, rendered@.len() as int) =~= rendered@);
            }
            while k < rendered.len() && rendered[k].idx != idx
                invariant
                    k <= rendered.len(),
                    first_of_module(rendered@, idx) == first_of_module(
                        rendered@.subrange(k as int, rendered@.len() as int),
                        idx,
                    ),
                decreases rendered.len() - k,
            {
                proof {
                    let rest = rendered@.subrange(k as int, rendered@.len() as int);
                    assert(rest[0] == rendered@[k as int]);
                    assert(rest.drop_first() =~= rendered@.subrange(
                        k + 1,
                        rendered@.len() as int,
                    ));
                }
                k += 1;
            }
            if k < rendered.len() {
                let ghost before = module_views(ordered@);
                ordered.push(copy_of(&rendered[k]));
                proof {
                    let m = rendered@[k as int];
                    let rest = rendered@.subrange(k as int, rendered@.len() as int);
                    assert(rest[0] == m);
                    assert(found(idx) == Some(m));
                    assert(module_views(ordered@) =~= before.push(m@));
                    assert(module_views(order@.take(i as int).filter_map(found) + seq![m])
                        =~= before.push(m@));
                }
            } else {
                proof {
                    assert(found(idx) is None);
                }
            }
            i += 1;
        }
        proof {
            assert(order@.take(order@.len() as int) =~= order@);
        }
        ordered
    }

    /// Emits the chunk in the configured format.
    pub fn render_chunk(
        ctx: &mut GenerateContext,
        module_sources: Vec<RenderedModuleSource>,
        banner: Option<String>,
        footer: Option<String>,
        intro: Option<String>,
        outro: Option<String>,
    ) -> (r: Result<ConcatSource, Vec<BuildDiagnostic>>)
        requires
            old(ctx).wf(),
            old(ctx).renderable(),
        ensures
            final(ctx).same_input(old(ctx)),
            match old(ctx).render_outcome(module_sources@, banner, footer, intro, outro) {
                Ok(parts) => {
                    &&& r matches Ok(source) && source@ == parts
                    &&& diagnostics(final(ctx).warnings@) == diagnostics(old(ctx).warnings@) + old(
                        ctx,
                    ).render_warnings()
                },
                Err(error) => {
                    &&& r matches Err(errors) && diagnostics(errors@) == seq![error]
                    &&& diagnostics(final(ctx).warnings@) == diagnostics(old(ctx).warnings@)
                },
            },
    {
        proof {
            assert(diagnostics(ctx.warnings@) + Seq::<BuildDiagnosticView>::empty() =~= diagnostics(
                ctx.warnings@,
            ));
        }
        match ctx.options.format {
            OutputFormat::Esm => Ok(render_esm(ctx, module_sources, banner, footer, intro, outro)),
            OutputFormat::Cjs => render_cjs(ctx, module_sources, banner, footer, intro, outro),
            OutputFormat::App => Ok(render_app(ctx, module_sources, banner, footer, intro, outro)),
            OutputFormat::Iife => render_iife(
                ctx,
                module_sources,
                banner,
                footer,
                intro,
                outro,
                true,
            ),
            OutputFormat::Amd => render_iife(
                ctx,
                module_sources,
                banner,
                footer,
                intro,
                outro,
                false,
            ),
        }
    }

    /// Renders the chunk and packs its one preliminary asset.
    ///
    /// `addons` holds the four texts of the hooks, all of them collected,
    /// `file_dir` the directory of the emitted file, and `map_sources` the
    /// source map's list of sources as paths relative to that directory. On
    /// success the asset's content is the fragments of the format's emitter
    /// joined by line breaks, its sources are the given ones, and the
    /// warnings of the pass move from the context into the output. On an
    /// error nothing is produced and the warnings stay.
    pub fn render_preliminary_assets(
        ctx: &mut GenerateContext,
        module_sources: Vec<RenderedModuleSource>,
        addons: Addons,
        file_dir: PathBuf,
        map_sources: Option<Vec<String>>,
    ) -> (r: Result<GenerateOutput, Vec<BuildDiagnostic>>)
        requires
            old(ctx).wf(),
            old(ctx).renderable(),
            old(ctx).chunk.preliminary_filename is Some,
            addons.step == AddonStep::Finished,
        ensures
            final(ctx).same_input(old(ctx)),
            match old(ctx).render_outcome(
                module_sources@,
                addons.banner,
                addons.footer,
                addons.intro,
                addons.outro,
            ) {
                Ok(parts) => {
                    &&& r matches Ok(output)
                    &&& output.assets@.len() == 1
                    &&& output.assets@[0].content@ == join_seq(parts, "\n"@)
                    &&& output.assets@[0].origin_chunk == old(ctx).chunk_idx
                    &&& output.assets@[0].map_sources == map_sources
                    &&& strs(output.assets@[0].rendered_modules@) == exposed_ids(module_sources@)
                    &&& output.assets@[0].file_dir == file_dir
                    &&& output.assets@[0].preliminary_filename@ == old(
                        ctx,
                    ).chunk.preliminary_filename->0@
                    &&& diagnostics(output.warnings@) == diagnostics(old(ctx).warnings@) + old(
                        ctx,
                    ).render_warnings()
                    &&& final(ctx).warnings@.len() == 0
                },
                Err(error) => {
                    &&& r matches Err(errors) && diagnostics(errors@) == seq![error]
                    &&& diagnostics(final(ctx).warnings@) == diagnostics(old(ctx).warnings@)
                },
            },
    {
        let rendered_modules = EcmaGenerator::rendered_module_ids(&module_sources);
        let Addons { banner, intro, outro, footer, .. } = addons;
        let concat_source = match EcmaGenerator::render_chunk(
            ctx,
            module_sources,
            banner,
            footer,
            intro,
            outro,
        ) {
            Ok(source) => source,
            Err(errors) => {
                return Err(errors);
            },
        };
        let content = concat_source.content();
        let preliminary_filename = match &ctx.chunk.preliminary_filename {
            Some(name) => name.clone(),
            None => unreached(),
        };
        let mut assets: Vec<PreliminaryAsset> = Vec::new();
        assets.push(
            PreliminaryAsset {
                origin_chunk: ctx.chunk_idx,
                content,
                map_sources,
                rendered_modules,
                file_dir,
                preliminary_filename,
            },
        );
        let mut warnings: Vec<BuildDiagnostic> = Vec::new();
        std::mem::swap(&mut warnings, &mut ctx.warnings);
        Ok(GenerateOutput { assets, warnings })
    }
}

} // verus!
