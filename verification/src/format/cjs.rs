//! The CommonJS emitter.
use vstd::prelude::*;
use vstd::string::*;
use crate::context::{
    bindings_fit, ChunkKind, ExportsKind, GenerateContext, Module, RenderedModuleSource,
    StarExportBinding, WrapKind,
};
use crate::diagnostic::BuildDiagnostic;
use crate::exports::{
    default_export_line, determine_export_mode, determine_use_strict, es_module_marker,
    exports_default, get_export_items, has_default_export, marks_es_module, named_export_line,
    namespace_markers, render_chunk_exports, render_namespace_markers, resolved_export_mode,
};
use crate::format::{
    add_module_sources, add_optional, add_text, module_fragments, optional_part, optional_text,
    part_if, use_strict_pragma,
};
use crate::interop::render_interop_chunk_imports;
use crate::options::{EsModuleFlag, OutputExports, OutputFormat};
use crate::source::ConcatSource;
use crate::text::{join_seq, lemma_join_starts_with_first};

verus! {

/// `var <name> = require("<module>");`
pub open spec fn star_require_line(name: Seq<char>, module: Seq<char>) -> Seq<char> {
    "var "@ + name + " = require(\""@ + module + "\");"@
}

/// The loop that copies every key of the namespace `name` but `default`
/// onto `exports`, as accessors, unless `exports` has the key already.
pub open spec fn star_reexport_loop(name: Seq<char>) -> Seq<char> {
    "Object.keys("@ + name
        + ").forEach(function (k) {\n  if (k !== 'default' && !Object.prototype.hasOwnProperty.call(exports, k)) Object.defineProperty(exports, k, {\n    enumerable: true,\n    get: function () { return "@
        + name + "[k]; }\n  });\n});\n"@
}

/// `<name>();`: runs the initializer of an entry wrapped as an ES module.
pub open spec fn esm_wrapper_call(name: Seq<char>) -> Seq<char> {
    name + "();"@
}

/// `export default <name>();` and a line break: hands out what the
/// initializer of an entry wrapped as a CommonJS module returns.
pub open spec fn cjs_wrapper_call(name: Seq<char>) -> Seq<char> {
    "export default "@ + name + "();\n"@
}

impl GenerateContext {
    /// The export mode that CommonJS emission works with: resolved for an
    /// entry that is an ECMAScript module, and none for any other chunk.
    pub open spec fn cjs_export_mode(&self) -> Option<OutputExports> {
        if self.entry_is_esm() {
            resolved_export_mode(self.options.exports, ExportsKind::Esm, self.export_items())
        } else {
            None
        }
    }

    /// The two fragments for each `export *` binding among `bindings`.
    pub open spec fn star_export_parts(&self, bindings: Seq<StarExportBinding>) -> Seq<Seq<char>>
        decreases bindings.len(),
    {
        if bindings.len() == 0 {
            Seq::empty()
        } else {
            let b = bindings.last();
            self.star_export_parts(bindings.drop_last()) + seq![
                star_require_line(
                    self.name_of(b.binding),
                    self.link_output.modules@[b.importee as int].spec_stable_id(),
                ),
                star_reexport_loop(self.name_of(b.binding)),
            ]
        }
    }

    /// What CommonJS writes before any binding for an entry that is an
    /// ECMAScript module: the namespace marker where the exports are named,
    /// then the star re-exports.
    pub open spec fn cjs_entry_prelude(&self) -> Seq<Seq<char>> {
        match self.chunk.kind {
            ChunkKind::EntryPoint { module } => if self.entry_is_esm() {
                (if self.cjs_export_mode() == Some(OutputExports::Named) {
                    optional_text(
                        namespace_markers(
                            self.options.es_module,
                            exports_default(self.export_items()),
                            false,
                        ),
                    )
                } else {
                    Seq::empty()
                }) + self.star_export_parts(
                    self.link_output.metas@[module as int].require_bindings_for_star_exports@,
                )
            } else {
                Seq::empty()
            },
            ChunkKind::Common => Seq::empty(),
        }
    }

    /// The call of the entry's initializer, where the entry was wrapped.
    pub open spec fn entry_wrapper_call(&self) -> Seq<Seq<char>> {
        match self.chunk.kind {
            ChunkKind::EntryPoint { module } => {
                let meta = self.link_output.metas@[module as int];
                match meta.wrap_kind {
                    WrapKind::Esm => seq![esm_wrapper_call(self.name_of(meta.wrapper_ref->0))],
                    WrapKind::Cjs => seq![cjs_wrapper_call(self.name_of(meta.wrapper_ref->0))],
                    WrapKind::Unwrapped => Seq::empty(),
                }
            },
            ChunkKind::Common => Seq::empty(),
        }
    }

    /// How many of the rendered modules stand before the `require` bindings:
    /// the runtime module, where it leads the chunk.
    pub open spec fn leading_modules(&self, modules: Seq<RenderedModuleSource>) -> int {
        if modules.len() > 0 && modules[0].idx == self.link_output.runtime {
            1
        } else {
            0
        }
    }

    /// The fragments of the CommonJS file, in order.
    pub open spec fn cjs_parts(
        &self,
        modules: Seq<RenderedModuleSource>,
        banner: Option<String>,
        footer: Option<String>,
        intro: Option<String>,
        outro: Option<String>,
    ) -> Seq<Seq<char>> {
        let lead = self.leading_modules(modules);
        let mode = match self.cjs_export_mode() {
            Some(mode) => mode,
            None => OutputExports::Auto,
        };
        optional_part(banner) + part_if(self.uses_strict(), use_strict_pragma()) + optional_part(
            intro,
        ) + self.cjs_entry_prelude() + module_fragments(modules.subrange(0, lead)) + seq![
            self.interop_text(),
        ] + module_fragments(modules.subrange(lead, modules.len() as int))
            + self.entry_wrapper_call() + optional_text(self.chunk_exports(mode)) + optional_part(
            outro,
        ) + optional_part(footer)
    }
}

/// Whether `text` is one of the statements that mark a module namespace.
pub open spec fn is_namespace_marker(text: Seq<char>) -> bool {
    exists|flag: EsModuleFlag, has_default: bool, tag: bool|
        #[trigger] namespace_markers(flag, has_default, tag) == Some(text)
}

/// With named exports, and a setting under which the module is marked, the
/// CommonJS file holds the `__esModule` marker right behind the intro, and
/// its export statements, if there are any, are assignments to properties
/// of `exports`: none of them assigns `module.exports`.
pub proof fn lemma_named_cjs_is_marked(
    ctx: GenerateContext,
    modules: Seq<RenderedModuleSource>,
    banner: Option<String>,
    footer: Option<String>,
    intro: Option<String>,
    outro: Option<String>,
)
    requires
        ctx.options.format == OutputFormat::Cjs,
        ctx.cjs_export_mode() == Some(OutputExports::Named),
        marks_es_module(ctx.options.es_module, exports_default(ctx.export_items())),
    ensures
        ({
            let parts = ctx.cjs_parts(modules, banner, footer, intro, outro);
            let at = (optional_part(banner) + part_if(ctx.uses_strict(), use_strict_pragma())
                + optional_part(intro)).len() as int;
            at < parts.len() && parts[at] == es_module_marker()
        }),
        ctx.chunk_exports(OutputExports::Named) matches Some(text) ==> {
            &&& text == join_seq(ctx.export_lines(ctx.export_items(), false), "\n"@)
            &&& forall|binding: Seq<char>|
                text != #[trigger] default_export_line(OutputFormat::Cjs, binding)
        },
{
    let head = optional_part(banner) + part_if(ctx.uses_strict(), use_strict_pragma())
        + optional_part(intro);
    let prelude = ctx.cjs_entry_prelude();
    assert(prelude[0] == es_module_marker());
    let parts = ctx.cjs_parts(modules, banner, footer, intro, outro);
    assert(parts[head.len() as int] == prelude[0]);
    if ctx.chunk_exports(OutputExports::Named) is Some {
        let text = ctx.chunk_exports(OutputExports::Named)->0;
        let lines = ctx.export_lines(ctx.export_items(), false);
        assert(text == join_seq(lines, "\n"@));
        assert(lines.len() > 0);
        lemma_join_starts_with_first(lines, "\n"@);
        reveal_strlit("exports.");
        reveal_strlit("module.exports = ");
        let item = ctx.export_items()[0];
        assert(lines[0] == named_export_line(item.exported_name@, ctx.name_of(item.symbol)));
        assert(lines[0][0] == 'e');
        assert(text.subrange(0, lines[0].len() as int)[0] == 'e');
        assert forall|binding: Seq<char>| text != #[trigger] default_export_line(
            OutputFormat::Cjs,
            binding,
        ) by {
            assert(default_export_line(OutputFormat::Cjs, binding)[0] == 'm');
        }
    }
}

/// Every fragment of the star re-exports is a `require` binding or a
/// re-export loop.
proof fn lemma_star_export_parts(ctx: GenerateContext, bindings: Seq<StarExportBinding>, i: int)
    requires
        0 <= i < ctx.star_export_parts(bindings).len(),
    ensures
        ctx.star_export_parts(bindings)[i][0] == 'v' || ctx.star_export_parts(bindings)[i][7]
            == 'k',
    decreases bindings.len(),
{
    reveal_strlit("var ");
    reveal_strlit("Object.keys(");
    if bindings.len() > 0 {
        let before = ctx.star_export_parts(bindings.drop_last());
        if i < before.len() {
            lemma_star_export_parts(ctx, bindings.drop_last(), i);
        } else {
            let b = bindings.last();
            let name = ctx.name_of(b.binding);
            let module = ctx.link_output.modules@[b.importee as int].spec_stable_id();
            assert(star_require_line(name, module)[0] == 'v');
            assert(star_reexport_loop(name)[7] == 'k');
        }
    }
}

/// With a default export, CommonJS writes no namespace marker: what stands
/// between the intro and the bindings is the star re-exports alone, and
/// none of their fragments is a marker.
pub proof fn lemma_default_cjs_is_unmarked(ctx: GenerateContext)
    requires
        ctx.cjs_export_mode() == Some(OutputExports::Default),
    ensures
        ctx.cjs_entry_prelude() == ctx.star_export_parts(
            ctx.link_output.metas@[ctx.entry()->0 as int].require_bindings_for_star_exports@,
        ),
        forall|i: int|
            0 <= i < ctx.cjs_entry_prelude().len() ==> !is_namespace_marker(
                #[trigger] ctx.cjs_entry_prelude()[i],
            ),
{
    let bindings = ctx.link_output.metas@[ctx.entry()->0 as int].require_bindings_for_star_exports@;
    assert(ctx.cjs_entry_prelude() =~= ctx.star_export_parts(bindings));
    assert forall|i: int| 0 <= i < ctx.cjs_entry_prelude().len() implies !is_namespace_marker(
        #[trigger] ctx.cjs_entry_prelude()[i],
    ) by {
        let part = ctx.cjs_entry_prelude()[i];
        lemma_star_export_parts(ctx, bindings, i);
        if is_namespace_marker(part) {
            let (flag, has_default, tag) = choose|
                flag: EsModuleFlag,
                has_default: bool,
                tag: bool,
            | #[trigger] namespace_markers(flag, has_default, tag) == Some(part);
            reveal_strlit(
                "Object.defineProperties(exports, { __esModule: { value: true }, [Symbol.toStringTag]: { value: 'Module' } });",
            );
            reveal_strlit("Object.defineProperty(exports, '__esModule', { value: true });");
            reveal_strlit(
                "Object.defineProperty(exports, Symbol.toStringTag, { value: 'Module' });",
            );
            assert(part[0] == 'O' && part[7] == 'd');
        }
    }
}

/// A chunk whose entry exports one binding under a name other than
/// `default` has named exports, and its export statements are the single
/// line `exports.<name> = <binding>;`.
pub proof fn lemma_single_named_export(ctx: GenerateContext)
    requires
        ctx.options.format == OutputFormat::Cjs,
        ctx.entry_is_esm(),
        ctx.options.exports == OutputExports::Auto || ctx.options.exports == OutputExports::Named,
        ctx.export_items().len() == 1,
        ctx.export_items()[0].exported_name@ != "default"@,
    ensures
        ctx.cjs_export_mode() == Some(OutputExports::Named),
        ctx.chunk_exports(OutputExports::Named) == Some(
            named_export_line(
                ctx.export_items()[0].exported_name@,
                ctx.name_of(ctx.export_items()[0].symbol),
            ),
        ),
{
    reveal_strlit("exports.");
    let item = ctx.export_items()[0];
    let lines = ctx.export_lines(ctx.export_items(), false);
    assert(lines.len() == 1);
    assert(lines[0] == named_export_line(item.exported_name@, ctx.name_of(item.symbol)));
    assert(join_seq(lines, "\n"@) == lines[0]);
    assert(lines[0].len() > 0);
}

/// Adds the `require` binding and the re-export loop of every `export *`.
fn add_star_exports(
    source: &mut ConcatSource,
    ctx: &GenerateContext,
    bindings: &Vec<StarExportBinding>,
)
    requires
        bindings_fit(bindings@, ctx.names(), ctx.link_output.modules@.len() as int),
    ensures
        final(source)@ == old(source)@ + ctx.star_export_parts(bindings@),
{
    proof {
        assert(source@ + Seq::<Seq<char>>::empty() =~= source@);
    }
    let mut i: usize = 0;
    while i < bindings.len()
        invariant
            i <= bindings.len(),
            bindings_fit(bindings@, ctx.names(), ctx.link_output.modules@.len() as int),
            source@ == old(source)@ + ctx.star_export_parts(bindings@.take(i as int)),
        decreases bindings.len() - i,
    {
        let b = &bindings[i];
        let name = ctx.canonical_name_for(b.binding);
        let importee = &ctx.link_output.modules[b.importee];
        let mut require = String::new();
        require.append("var ");
        require.append(name);
        require.append(" = require(\"");
        require.append(importee.stable_id());
        require.append("\");");
        let mut reexport = String::new();
        reexport.append("Object.keys(");
        reexport.append(name);
        reexport.append(
            ").forEach(function (k) {\n  if (k !== 'default' && !Object.prototype.hasOwnProperty.call(exports, k)) Object.defineProperty(exports, k, {\n    enumerable: true,\n    get: function () { return ",
        );
        reexport.append(name);
        reexport.append("[k]; }\n  });\n});\n");
        add_text(source, require);
        add_text(source, reexport);
        proof {
            let upto = bindings@.take(i + 1);
            assert(upto.drop_last() =~= bindings@.take(i as int));
            assert(upto.last() == bindings@[i as int]);
            assert(source@ =~= old(source)@ + ctx.star_export_parts(upto));
        }
        i += 1;
    }
    proof {
        assert(bindings@.take(bindings@.len() as int) =~= bindings@);
    }
}

/// Emits a chunk as a CommonJS file.
///
/// In order: the banner; the strict-mode pragma where the chunk's modules
/// are strict; the intro; for an entry that is an ES module the namespace
/// marker (named exports only) and the star re-exports; the runtime module
/// where it leads the chunk; the `require` bindings; the remaining module
/// bodies in chunk order; the call of the entry's initializer where it was
/// wrapped; the export statements; the outro; the footer. It never fails and
/// adds no warning.
pub fn render_cjs(
    ctx: &mut GenerateContext,
    module_sources: Vec<RenderedModuleSource>,
    banner: Option<String>,
    footer: Option<String>,
    intro: Option<String>,
    outro: Option<String>,
) -> (r: Result<ConcatSource, Vec<BuildDiagnostic>>)
    requires
        old(ctx).wf(),
        old(ctx).cjs_fits(),
    ensures
        *final(ctx) == *old(ctx),
        r matches Ok(source) && source@ == old(ctx).cjs_parts(
            module_sources@,
            banner,
            footer,
            intro,
            outro,
        ),
{
    let mut concat_source = ConcatSource::new();
    add_optional(&mut concat_source, banner);
    if determine_use_strict(ctx) {
        add_text(&mut concat_source, "\"use strict\";".to_owned());
    }
    add_optional(&mut concat_source, intro);
    let ghost head = optional_part(banner) + part_if(ctx.uses_strict(), use_strict_pragma())
        + optional_part(intro);
    assert(concat_source@ =~= head);

    let mut export_mode: Option<OutputExports> = None;
    match ctx.chunk.kind {
        ChunkKind::EntryPoint { module: entry_id } => {
            match &ctx.link_output.modules[entry_id] {
                Module::Ecma(entry_module) => {
                    if entry_module.exports_kind == ExportsKind::Esm {
                        let export_items = get_export_items(ctx);
                        let has_default = has_default_export(export_items);
                        let mode = match determine_export_mode(ctx, entry_module, export_items) {
                            Ok(mode) => mode,
                            Err(errors) => {
                                return Err(errors);
                            },
                        };
                        if mode == OutputExports::Named {
                            let marker = render_namespace_markers(
                                &ctx.options.es_module,
                                has_default,
                                false,
                            );
                            add_optional(&mut concat_source, marker);
                        }
                        add_star_exports(
                            &mut concat_source,
                            ctx,
                            &ctx.link_output.metas[entry_id].require_bindings_for_star_exports,
                        );
                        export_mode = Some(mode);
                    }
                },
                Module::External(_) => {},
            }
        },
        ChunkKind::Common => {},
    }
    assert(export_mode == ctx.cjs_export_mode());
    assert(concat_source@ =~= head + ctx.cjs_entry_prelude());

    let lead: usize = if module_sources.len() > 0 && module_sources[0].idx
        == ctx.link_output.runtime {
        1
    } else {
        0
    };
    add_module_sources(&mut concat_source, &module_sources, 0, lead);

    let (imports, _) = render_interop_chunk_imports(ctx);
    add_text(&mut concat_source, imports);
    add_module_sources(&mut concat_source, &module_sources, lead, module_sources.len());

    match ctx.chunk.kind {
        ChunkKind::EntryPoint { module: entry_id } => {
            let entry_meta = &ctx.link_output.metas[entry_id];
            match entry_meta.wrap_kind {
                WrapKind::Esm => {
                    let wrapper_ref = entry_meta.wrapper_ref.unwrap();
                    let mut call = String::new();
                    call.append(ctx.canonical_name_for(wrapper_ref));
                    call.append("();");
                    add_text(&mut concat_source, call);
                },
                WrapKind::Cjs => {
                    let wrapper_ref = entry_meta.wrapper_ref.unwrap();
                    let mut call = String::new();
                    call.append("export default ");
                    call.append(ctx.canonical_name_for(wrapper_ref));
                    call.append("();\n");
                    add_text(&mut concat_source, call);
                },
                WrapKind::Unwrapped => {},
            }
        },
        ChunkKind::Common => {},
    }
    let export_mode = match export_mode {
        Some(mode) => mode,
        None => OutputExports::Auto,
    };
    let exports = render_chunk_exports(ctx, &export_mode);
    add_optional(&mut concat_source, exports);
    add_optional(&mut concat_source, outro);
    add_optional(&mut concat_source, footer);
    assert(concat_source@ =~= ctx.cjs_parts(module_sources@, banner, footer, intro, outro));
    Ok(concat_source)
}

} // verus!
