//! The emitter for the formats that wrap the chunk in a function: called at
//! once with the external modules as arguments, or handed on as a value.
use vstd::pervasive::unreached;
use vstd::prelude::*;
use vstd::string::*;
use crate::context::{ChunkKind, GenerateContext, Module, RenderedModuleSource};
use crate::diagnostic::{
    diagnostics, illegal_identifier_error, missing_global_name_warning,
    unsupported_module_shape_error, BuildDiagnostic, BuildDiagnosticView,
};
use crate::exports::{
    determine_export_mode, determine_use_strict, exports_default, get_export_items,
    has_default_export, namespace_markers, render_chunk_exports, render_namespace_markers,
    resolved_export_mode,
};
use crate::format::{
    add_module_sources, add_optional, add_text, module_fragments, optional_part, optional_text,
    part_if, use_strict_pragma,
};
use crate::identifier::{legitimize_identifier_name, legitimized};
use crate::interop::render_interop_chunk_imports;
use crate::namespace::{generate_identifier, identifier_for_name, identifier_warnings};
use crate::options::{GlobalName, OutputExports, OutputFormat};
use crate::source::ConcatSource;
use crate::text::{join, join_seq, str_eq, strs};

verus! {

/// The global configured for an external module: the first entry of
/// `globals` under its specifier.
pub open spec fn global_for(globals: Seq<GlobalName>, specifier: Seq<char>) -> Option<Seq<char>>
    decreases globals.len(),
{
    if globals.len() == 0 {
        None
    } else if globals[0].specifier@ == specifier {
        Some(globals[0].global@)
    } else {
        global_for(globals.drop_first(), specifier)
    }
}

/// The argument that stands for an external module where the wrapper is
/// called: its configured global, or else its specifier, as an identifier.
pub open spec fn external_argument(globals: Seq<GlobalName>, external: Seq<char>) -> Seq<char> {
    match global_for(globals, external) {
        Some(global) => legitimized(global),
        None => legitimized(external),
    }
}

/// The wrapper's formal parameters: `exports` where the chunk hands out
/// named exports, then one for each external module.
pub open spec fn wrapper_parameters(exports_key: bool, externals: Seq<Seq<char>>) -> Seq<
    Seq<char>,
> {
    part_if(exports_key, "exports"@) + externals.map_values(|e: Seq<char>| legitimized(e))
}

/// The arguments of the wrapper's call, aligned with its parameters.
pub open spec fn wrapper_arguments(
    exports_argument: Option<Seq<char>>,
    globals: Seq<GlobalName>,
    externals: Seq<Seq<char>>,
) -> Seq<Seq<char>> {
    optional_text(exports_argument) + externals.map_values(
        |e: Seq<char>| external_argument(globals, e),
    )
}

/// One warning for each external module without a configured global, in
/// the order of the modules.
pub open spec fn missing_globals(globals: Seq<GlobalName>, externals: Seq<Seq<char>>) -> Seq<
    BuildDiagnosticView,
>
    decreases externals.len(),
{
    if externals.len() == 0 {
        Seq::empty()
    } else {
        let before = missing_globals(globals, externals.drop_last());
        if global_for(globals, externals.last()) is None {
            before.push(missing_global_name_warning(externals.last(), legitimized(externals.last())))
        } else {
            before
        }
    }
}

/// The parameter and the argument of each external module stand at the same
/// place of their lists, which are equally long; `exports`, where present,
/// leads both.
pub proof fn lemma_wrapper_lists_aligned(
    exports_argument: Option<Seq<char>>,
    globals: Seq<GlobalName>,
    externals: Seq<Seq<char>>,
)
    ensures
        wrapper_parameters(exports_argument is Some, externals).len() == wrapper_arguments(
            exports_argument,
            globals,
            externals,
        ).len(),
        forall|i: int|
            #![trigger externals[i]]
            0 <= i < externals.len() ==> {
                let lead: int = if exports_argument is Some {
                    1
                } else {
                    0
                };
                &&& wrapper_parameters(exports_argument is Some, externals)[i + lead]
                    == legitimized(externals[i])
                &&& wrapper_arguments(exports_argument, globals, externals)[i + lead]
                    == external_argument(globals, externals[i])
            },
{
}

/// An external module without a global gets exactly one warning, and its
/// argument is its specifier made into an identifier.
pub proof fn lemma_missing_global_is_one_warning(globals: Seq<GlobalName>, external: Seq<char>)
    requires
        global_for(globals, external) is None,
    ensures
        missing_globals(globals, seq![external]) == seq![
            missing_global_name_warning(external, legitimized(external)),
        ],
        wrapper_arguments(None, globals, seq![external]) == seq![legitimized(external)],
{
    let one = seq![external];
    assert(one.drop_last() =~= Seq::<Seq<char>>::empty());
    assert(missing_globals(globals, one.drop_last()) =~= Seq::<BuildDiagnosticView>::empty());
    assert(missing_globals(globals, one) =~= seq![
        missing_global_name_warning(external, legitimized(external)),
    ]);
    assert(wrapper_arguments(None, globals, one) =~= seq![legitimized(external)]);
}

/// An external module with a global gets no warning.
pub proof fn lemma_known_global_is_silent(globals: Seq<GlobalName>, external: Seq<char>)
    requires
        global_for(globals, external) is Some,
    ensures
        missing_globals(globals, seq![external]).len() == 0,
{
    let one = seq![external];
    assert(one.drop_last() =~= Seq::<Seq<char>>::empty());
    assert(missing_globals(globals, one.drop_last()) =~= Seq::<BuildDiagnosticView>::empty());
    assert(one.last() == external);
}

/// Looks `specifier` up in `globals`.
fn find_global<'a>(globals: &'a Vec<GlobalName>, specifier: &str) -> (found: Option<&'a str>)
    ensures
        match global_for(globals@, specifier@) {
            Some(global) => found matches Some(g) && g@ == global,
            None => found is None,
        },
{
    let mut i: usize = 0;
    proof {
        assert(globals@.subrange(0, globals@.len() as int) =~= globals@);
    }
    while i < globals.len()
        invariant
            i <= globals.len(),
            global_for(globals@, specifier@) == global_for(
                globals@.subrange(i as int, globals@.len() as int),
                specifier@,
            ),
        decreases globals.len() - i,
    {
        let ghost rest = globals@.subrange(i as int, globals@.len() as int);
        proof {
            assert(rest[0] == globals@[i as int]);
            assert(rest.drop_first() =~= globals@.subrange(i + 1, globals@.len() as int));
        }
        if str_eq(globals[i].specifier.as_str(), specifier) {
            return Some(globals[i].global.as_str());
        }
        i += 1;
    }
    None
}

/// The wrapper's parameter list and the argument list of its call, each
/// joined with `, `. An external module without an entry in `globals` is
/// passed under its own name, made into an identifier, and a warning says so.
pub fn render_iife_arguments(
    ctx: &mut GenerateContext,
    externals: &Vec<String>,
    exports_argument: Option<&str>,
) -> (r: (String, String))
    ensures
        final(ctx).same_input(old(ctx)),
        diagnostics(final(ctx).warnings@) == diagnostics(old(ctx).warnings@) + missing_globals(
            old(ctx).options.globals@,
            strs(externals@),
        ),
        r.0@ == join_seq(wrapper_parameters(exports_argument is Some, strs(externals@)), ", "@),
        r.1@ == join_seq(
            wrapper_arguments(
                match exports_argument {
                    Some(a) => Some(a@),
                    None => None,
                },
                old(ctx).options.globals@,
                strs(externals@),
            ),
            ", "@,
        ),
{
    let ghost globals = ctx.options.globals@;
    let ghost all = strs(externals@);
    let ghost key: Option<Seq<char>> = match exports_argument {
        Some(a) => Some(a@),
        None => None,
    };
    let mut input_args: Vec<String> = Vec::new();
    let mut output_args: Vec<String> = Vec::new();
    match exports_argument {
        Some(argument) => {
            input_args.push("exports".to_owned());
            output_args.push(argument.to_owned());
        },
        None => {},
    }
    proof {
        assert(strs(input_args@) =~= wrapper_parameters(key is Some, all.take(0)));
        assert(strs(output_args@) =~= wrapper_arguments(key, globals, all.take(0)));
        assert(diagnostics(ctx.warnings@) + Seq::<BuildDiagnosticView>::empty() =~= diagnostics(
            ctx.warnings@,
        ));
    }
    let mut i: usize = 0;
    while i < externals.len()
        invariant
            i <= externals.len(),
            ctx.same_input(old(ctx)),
            globals == old(ctx).options.globals@,
            all == strs(externals@),
            key is Some == exports_argument is Some,
            strs(input_args@) == wrapper_parameters(key is Some, all.take(i as int)),
            strs(output_args@) == wrapper_arguments(key, globals, all.take(i as int)),
            diagnostics(ctx.warnings@) == diagnostics(old(ctx).warnings@) + missing_globals(
                globals,
                all.take(i as int),
            ),
        decreases externals.len() - i,
    {
        let external = externals[i].as_str();
        let ghost inputs = strs(input_args@);
        let ghost outputs = strs(output_args@);
        let ghost warned = diagnostics(ctx.warnings@);
        proof {
            assert(all.take(i + 1).drop_last() =~= all.take(i as int));
            assert(all.take(i + 1).last() == external@);
        }
        let parameter = legitimize_identifier_name(external);
        input_args.push(parameter);
        match find_global(&ctx.options.globals, external) {
            Some(global) => {
                let argument = legitimize_identifier_name(global);
                output_args.push(argument);
            },
            None => {
                let target = legitimize_identifier_name(external);
                ctx.warnings.push(
                    BuildDiagnostic::missing_global_name(
                        external.to_owned(),
                        target.clone(),
                    ).with_severity_warning(),
                );
                output_args.push(target);
            },
        }
        proof {
            assert(strs(input_args@) =~= inputs.push(legitimized(external@)));
            assert(strs(output_args@) =~= outputs.push(external_argument(globals, external@)));
            assert(wrapper_parameters(key is Some, all.take(i + 1)) =~= inputs.push(
                legitimized(external@),
            ));
            assert(wrapper_arguments(key, globals, all.take(i + 1)) =~= outputs.push(
                external_argument(globals, external@),
            ));
            if global_for(globals, external@) is None {
                assert(diagnostics(ctx.warnings@) =~= warned.push(
                    missing_global_name_warning(external@, legitimized(external@)),
                ));
            }
            assert(diagnostics(ctx.warnings@) =~= diagnostics(old(ctx).warnings@)
                + missing_globals(globals, all.take(i + 1)));
        }
        i += 1;
    }
    proof {
        assert(all.take(all.len() as int) =~= all);
    }
    (join(&input_args, ", "), join(&output_args, ", "))
}

/// What is written before `(function(`: the namespace set-up, then the
/// assignment of the wrapper's result, unless the wrapper extends the
/// target itself or there is none.
pub open spec fn wrapper_prefix(
    definition: Seq<char>,
    assignment: Seq<char>,
    extends_target: bool,
) -> Seq<char> {
    if extends_target || assignment.len() == 0 {
        definition
    } else {
        definition + assignment + " = "@
    }
}

/// The line that opens the wrapper.
pub open spec fn wrapper_header(prefix: Seq<char>, parameters: Seq<char>) -> Seq<char> {
    prefix + "(function("@ + parameters + ") {\n"@
}

/// The fragment that closes the wrapper: with its call, or bare.
pub open spec fn wrapper_closer(invoke: bool, arguments: Seq<char>) -> Seq<char> {
    if invoke {
        "})("@ + arguments + ");"@
    } else {
        "})"@
    }
}

/// The line that opens the wrapper.
fn render_header(
    definition: &str,
    assignment: &str,
    extends_target: bool,
    parameters: &str,
) -> (header: String)
    ensures
        header@ == wrapper_header(
            wrapper_prefix(definition@, assignment@, extends_target),
            parameters@,
        ),
{
    let mut header = String::new();
    header.append(definition);
    if !(extends_target || assignment.is_empty()) {
        header.append(assignment);
        header.append(" = ");
    }
    header.append("(function(");
    header.append(parameters);
    header.append(") {\n");
    header
}

/// The fragment that closes the wrapper.
fn render_closer(invoke: bool, arguments: &str) -> (closer: String)
    ensures
        closer@ == wrapper_closer(invoke, arguments@),
{
    let mut closer = String::new();
    if invoke {
        closer.append("})(");
        closer.append(arguments);
        closer.append(");");
    } else {
        closer.append("})");
    }
    closer
}

impl GenerateContext {
    /// The export mode of a wrapped chunk, or nothing where the entry
    /// module cannot have the exports that the setting asks for.
    pub open spec fn wrapper_export_mode(&self) -> Option<OutputExports> {
        resolved_export_mode(
            self.options.exports,
            self.entry_module()->0.exports_kind,
            self.export_items(),
        )
    }

    /// The namespace set-up and the assignment target of a wrapped chunk, or
    /// the configured name where it cannot be declared.
    pub open spec fn wrapper_identifier(&self, mode: OutputExports) -> Result<
        (Seq<char>, Seq<char>),
        Seq<char>,
    > {
        match self.options.name {
            Some(name) => identifier_for_name(
                name@,
                self.options.format == OutputFormat::Iife,
                self.options.extend,
                mode == OutputExports::Named,
                "this"@,
            ),
            None => Ok((Seq::empty(), Seq::empty())),
        }
    }

    /// Whether the wrapper takes an `exports` object.
    pub open spec fn passes_exports(&self, mode: OutputExports) -> bool {
        self.export_items().len() > 0 && mode == OutputExports::Named
    }

    /// What is passed for `exports`: the target itself where the wrapper
    /// extends it, a new object otherwise.
    pub open spec fn exports_argument(&self, mode: OutputExports, assignment: Seq<char>) -> Option<
        Seq<char>,
    > {
        if !self.passes_exports(mode) {
            None
        } else if self.options.extend && assignment.len() > 0 {
            Some(assignment)
        } else {
            Some("{}"@)
        }
    }

    /// The fragments of the wrapped file, in order.
    pub open spec fn iife_parts(
        &self,
        modules: Seq<RenderedModuleSource>,
        banner: Option<String>,
        footer: Option<String>,
        intro: Option<String>,
        outro: Option<String>,
        invoke: bool,
        mode: OutputExports,
        definition: Seq<char>,
        assignment: Seq<char>,
    ) -> Seq<Seq<char>> {
        let named = mode == OutputExports::Named;
        let externals = self.interop_externals();
        let key = self.exports_argument(mode, assignment);
        wrapped_parts(
            optional_part(banner),
            wrapper_header(
                wrapper_prefix(definition, assignment, self.options.extend && named),
                join_seq(wrapper_parameters(key is Some, externals), ", "@),
            ),
            part_if(self.uses_strict(), use_strict_pragma()),
            optional_part(intro),
            if named {
                optional_text(
                    namespace_markers(
                        self.options.es_module,
                        exports_default(self.export_items()),
                        false,
                    ),
                )
            } else {
                Seq::empty()
            },
            self.interop_text(),
            module_fragments(modules),
            optional_text(self.chunk_exports(mode)),
            optional_part(outro),
            part_if(self.passes_exports(mode), "return exports;"@),
            wrapper_closer(
                invoke,
                join_seq(wrapper_arguments(key, self.options.globals@, externals), ", "@),
            ),
            optional_part(footer),
        )
    }
}

/// The fragments of a wrapped file, put together in their order: what
/// stands outside the function first and last, and inside it the pragma,
/// the intro, the marker, the imports, the bodies, the exports, the outro
/// and the return.
pub open spec fn wrapped_parts(
    banner: Seq<Seq<char>>,
    header: Seq<char>,
    pragma: Seq<Seq<char>>,
    intro: Seq<Seq<char>>,
    marker: Seq<Seq<char>>,
    imports: Seq<char>,
    bodies: Seq<Seq<char>>,
    exports: Seq<Seq<char>>,
    outro: Seq<Seq<char>>,
    return_exports: Seq<Seq<char>>,
    closer: Seq<char>,
    footer: Seq<Seq<char>>,
) -> Seq<Seq<char>> {
    banner + seq![header] + pragma + intro + marker + seq![imports] + bodies + exports + outro
        + return_exports + seq![closer] + footer
}

/// Puts the fragments of a wrapped file together.
fn assemble_wrapper(
    banner: Option<String>,
    header: String,
    strict: bool,
    intro: Option<String>,
    marker: Option<String>,
    import_code: String,
    module_sources: &Vec<RenderedModuleSource>,
    exports: Option<String>,
    outro: Option<String>,
    return_exports: bool,
    closer: String,
    footer: Option<String>,
) -> (source: ConcatSource)
    ensures
        source@ == wrapped_parts(
            optional_part(banner),
            header@,
            part_if(strict, use_strict_pragma()),
            optional_part(intro),
            optional_part(marker),
            import_code@,
            module_fragments(module_sources@),
            optional_part(exports),
            optional_part(outro),
            part_if(return_exports, "return exports;"@),
            closer@,
            optional_part(footer),
        ),
{
    let mut concat_source = ConcatSource::new();
    add_optional(&mut concat_source, banner);
    add_text(&mut concat_source, header);
    if strict {
        add_text(&mut concat_source, "\"use strict\";".to_owned());
    }
    add_optional(&mut concat_source, intro);
    add_optional(&mut concat_source, marker);
    add_text(&mut concat_source, import_code);
    add_module_sources(&mut concat_source, module_sources, 0, module_sources.len());
    proof {
        assert(module_sources@.subrange(0, module_sources@.len() as int) =~= module_sources@);
    }
    add_optional(&mut concat_source, exports);
    add_optional(&mut concat_source, outro);
    if return_exports {
        add_text(&mut concat_source, "return exports;".to_owned());
    }
    add_text(&mut concat_source, closer);
    add_optional(&mut concat_source, footer);
    proof {
        assert(concat_source@ =~= wrapped_parts(
            optional_part(banner),
            header@,
            part_if(strict, use_strict_pragma()),
            optional_part(intro),
            optional_part(marker),
            import_code@,
            module_fragments(module_sources@),
            optional_part(exports),
            optional_part(outro),
            part_if(return_exports, "return exports;"@),
            closer@,
            optional_part(footer),
        ));
    }
    concat_source
}

impl GenerateContext {
    /// What wrapping the chunk comes to: the fragments of the file, or the
    /// error that ends the rendering.
    pub open spec fn wrapper_outcome(
        &self,
        modules: Seq<RenderedModuleSource>,
        banner: Option<String>,
        footer: Option<String>,
        intro: Option<String>,
        outro: Option<String>,
        invoke: bool,
    ) -> Result<Seq<Seq<char>>, BuildDiagnosticView> {
        match self.wrapper_export_mode() {
            None => Err(unsupported_module_shape_error(self.entry_module()->0.id@)),
            Some(mode) => match self.wrapper_identifier(mode) {
                Err(name) => Err(illegal_identifier_error(name)),
                Ok(texts) => Ok(
                    self.iife_parts(
                        modules,
                        banner,
                        footer,
                        intro,
                        outro,
                        invoke,
                        mode,
                        texts.0,
                        texts.1,
                    ),
                ),
            },
        }
    }

    /// The warnings of a wrapped chunk that was rendered: one where exports
    /// have no output name, then one for each external module without a
    /// global.
    pub open spec fn wrapper_warnings(&self) -> Seq<BuildDiagnosticView> {
        identifier_warnings(self.options.name, self.export_items().len() > 0) + missing_globals(
            self.options.globals@,
            self.interop_externals(),
        )
    }
}

/// Emits an entry chunk wrapped in a function.
///
/// In order: the banner; the header, which sets the output name up and
/// opens the function with `exports` (named exports only) and one parameter
/// per external module; the strict-mode pragma where the chunk's modules are
/// strict; the intro; the namespace marker for named exports; the import
/// bindings; the module bodies in chunk order; the export statements; the
/// outro; `return exports;` for named exports; the closer, with the call and
/// its arguments if `invoke` is set; the footer.
///
/// It fails where the entry module cannot have the exports that the setting
/// asks for, and where the output name cannot be declared. It warns of
/// exports without an output name and of each external module without a
/// global.
pub fn render_iife(
    ctx: &mut GenerateContext,
    module_sources: Vec<RenderedModuleSource>,
    banner: Option<String>,
    footer: Option<String>,
    intro: Option<String>,
    outro: Option<String>,
    invoke: bool,
) -> (r: Result<ConcatSource, Vec<BuildDiagnostic>>)
    requires
        old(ctx).wf(),
        old(ctx).entry_module() is Some,
    ensures
        final(ctx).same_input(old(ctx)),
        match old(ctx).wrapper_outcome(module_sources@, banner, footer, intro, outro, invoke) {
            Ok(parts) => {
                &&& r matches Ok(source) && source@ == parts
                &&& diagnostics(final(ctx).warnings@) == diagnostics(old(ctx).warnings@) + old(
                    ctx,
                ).wrapper_warnings()
            },
            Err(error) => {
                &&& r matches Err(errors) && diagnostics(errors@) == seq![error]
                &&& diagnostics(final(ctx).warnings@) == diagnostics(old(ctx).warnings@)
            },
        },
{
    let export_items = get_export_items(ctx);
    let has_exports = export_items.len() > 0;
    let has_default = has_default_export(export_items);
    let determined = match ctx.chunk.kind {
        ChunkKind::EntryPoint { module } => match &ctx.link_output.modules[module] {
            Module::Ecma(entry_module) => determine_export_mode(ctx, entry_module, export_items),
            Module::External(_) => unreached(),
        },
        ChunkKind::Common => unreached(),
    };
    let export_mode = match determined {
        Ok(mode) => mode,
        Err(errors) => {
            return Err(errors);
        },
    };
    let named_exports = export_mode == OutputExports::Named;

    let (import_code, externals) = render_interop_chunk_imports(ctx);
    let strict = determine_use_strict(ctx);
    let exports = render_chunk_exports(ctx, &export_mode);
    let marker = if named_exports {
        render_namespace_markers(&ctx.options.es_module, has_default, false)
    } else {
        None
    };

    let (definition, assignment) = match generate_identifier(
        ctx,
        &export_mode,
        has_exports,
        "this",
    ) {
        Ok(texts) => texts,
        Err(errors) => {
            proof {
                assert(diagnostics(old(ctx).warnings@) + Seq::<BuildDiagnosticView>::empty()
                    =~= diagnostics(old(ctx).warnings@));
            }
            return Err(errors);
        },
    };
    let extend = ctx.options.extend;
    let exports_argument: Option<&str> = if !(has_exports && named_exports) {
        None
    } else if extend && !assignment.as_str().is_empty() {
        Some(assignment.as_str())
    } else {
        Some("{}")
    };
    let (input_args, output_args) = render_iife_arguments(ctx, &externals, exports_argument);

    let header = render_header(
        definition.as_str(),
        assignment.as_str(),
        extend && named_exports,
        input_args.as_str(),
    );
    let closer = render_closer(invoke, output_args.as_str());
    Ok(
        assemble_wrapper(
            banner,
            header,
            strict,
            intro,
            marker,
            import_code,
            &module_sources,
            exports,
            outro,
            named_exports && has_exports,
            closer,
            footer,
        ),
    )
}

} // verus!
