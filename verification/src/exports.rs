//! The public surface of a chunk: which exports it has, which shape they
//! take, and the statements that hand them out.
use vstd::prelude::*;
use vstd::string::*;
use crate::context::{ChunkKind, EcmaModule, ExportItem, ExportsKind, GenerateContext, Module};
use crate::diagnostic::{diagnostics, unsupported_module_shape_error, BuildDiagnostic};
use crate::options::{EsModuleFlag, OutputExports, OutputFormat};
use crate::text::{join, join_seq, str_eq, strs};

verus! {

/// Whether one of `items` is exported under the name `default`.
pub open spec fn exports_default(items: Seq<ExportItem>) -> bool {
    exists|i: int| 0 <= i < items.len() && (#[trigger] items[i]).exported_name@ == "default"@
}

/// The place of the first item exported as `default`, or the number of items
/// where there is none.
pub open spec fn default_position(items: Seq<ExportItem>) -> int
    decreases items.len(),
{
    if items.len() == 0 {
        0
    } else if items[0].exported_name@ == "default"@ {
        0
    } else {
        1 + default_position(items.drop_first())
    }
}

/// The mode that `Auto` stands for, given the chunk's exports: none at all,
/// one default value, or named bindings.
pub open spec fn auto_export_mode(items: Seq<ExportItem>) -> OutputExports {
    if items.len() == 0 {
        OutputExports::NoExports
    } else if items.len() == 1 && items[0].exported_name@ == "default"@ {
        OutputExports::Default
    } else {
        OutputExports::Named
    }
}

/// The export mode of a chunk, or nothing where the setting asks for named
/// or default exports of a module that is not an ECMAScript module.
pub open spec fn resolved_export_mode(
    setting: OutputExports,
    kind: ExportsKind,
    items: Seq<ExportItem>,
) -> Option<OutputExports> {
    match setting {
        OutputExports::Auto => Some(auto_export_mode(items)),
        OutputExports::Named | OutputExports::Default => if kind == ExportsKind::Esm {
            Some(setting)
        } else {
            None
        },
        OutputExports::NoExports => Some(OutputExports::NoExports),
    }
}

impl GenerateContext {
    /// Whether the chunk is emitted in strict mode: it has a module of the
    /// bundle, and each of its modules is strict by itself.
    pub open spec fn uses_strict(&self) -> bool {
        let modules = self.link_output.modules@;
        let own = self.chunk.modules@;
        &&& exists|i: int| 0 <= i < own.len() && modules[#[trigger] own[i] as int] is Ecma
        &&& forall|i: int| 0 <= i < own.len() ==> modules[#[trigger] own[i] as int].is_strict()
    }
}

/// The exports at the chunk's surface.
pub fn get_export_items(ctx: &GenerateContext) -> (items: &Vec<ExportItem>)
    requires
        ctx.wf(),
    ensures
        items@ == ctx.export_items(),
{
    match ctx.chunk.kind {
        ChunkKind::EntryPoint { module } => &ctx.link_output.metas[module].resolved_exports,
        ChunkKind::Common => &ctx.chunk.exports_to_other_chunks,
    }
}

/// Whether one of `items` is exported under the name `default`.
pub fn has_default_export(items: &Vec<ExportItem>) -> (found: bool)
    ensures
        found == exports_default(items@),
{
    let mut i: usize = 0;
    while i < items.len()
        invariant
            i <= items.len(),
            forall|k: int| 0 <= k < i ==> (#[trigger] items@[k]).exported_name@ != "default"@,
        decreases items.len() - i,
    {
        if str_eq(items[i].exported_name.as_str(), "default") {
            return true;
        }
        i += 1;
    }
    false
}

/// Whether the chunk is emitted in strict mode.
pub fn determine_use_strict(ctx: &GenerateContext) -> (strict: bool)
    requires
        ctx.wf(),
    ensures
        strict == ctx.uses_strict(),
{
    let mut any_ecma = false;
    let mut i: usize = 0;
    while i < ctx.chunk.modules.len()
        invariant
            ctx.wf(),
            i <= ctx.chunk.modules@.len(),
            any_ecma == exists|k: int|
                0 <= k < i && ctx.link_output.modules@[#[trigger] ctx.chunk.modules@[k] as int]
                    is Ecma,
            forall|k: int|
                0 <= k < i ==> ctx.link_output.modules@[#[trigger] ctx.chunk.modules@[k] as int].is_strict(),
        decreases ctx.chunk.modules@.len() - i,
    {
        let idx = ctx.chunk.modules[i];
        match &ctx.link_output.modules[idx] {
            Module::Ecma(m) => {
                if !(m.exports_kind == ExportsKind::Esm || m.contains_use_strict) {
                    return false;
                }
                any_ecma = true;
            },
            Module::External(_) => {},
        }
        i += 1;
    }
    any_ecma
}

/// Decides the shape of the chunk's public surface.
///
/// A setting other than `Auto` is returned as it is; named and default
/// exports are refused for an entry module whose exports are not those of an
/// ECMAScript module. `Auto` becomes `NoExports` without exports, `Default`
/// for a single export named `default`, and `Named` otherwise. The result is
/// never `Auto`.
pub fn determine_export_mode(
    ctx: &GenerateContext,
    module: &EcmaModule,
    export_items: &Vec<ExportItem>,
) -> (r: Result<OutputExports, Vec<BuildDiagnostic>>)
    ensures
        match resolved_export_mode(ctx.options.exports, module.exports_kind, export_items@) {
            Some(mode) => r == Ok::<OutputExports, Vec<BuildDiagnostic>>(mode),
            None => r matches Err(errors) && diagnostics(errors@) == seq![
                unsupported_module_shape_error(module.id@),
            ],
        },
        r != Ok::<OutputExports, Vec<BuildDiagnostic>>(OutputExports::Auto),
{
    match ctx.options.exports {
        OutputExports::Auto => {
            if export_items.len() == 0 {
                Ok(OutputExports::NoExports)
            } else if export_items.len() == 1 && str_eq(
                export_items[0].exported_name.as_str(),
                "default",
            ) {
                Ok(OutputExports::Default)
            } else {
                Ok(OutputExports::Named)
            }
        },
        OutputExports::Named | OutputExports::Default => {
            if module.exports_kind == ExportsKind::Esm {
                Ok(ctx.options.exports)
            } else {
                let mut errors: Vec<BuildDiagnostic> = Vec::new();
                errors.push(BuildDiagnostic::unsupported_module_shape(module.id.clone()));
                proof {
                    assert(diagnostics(errors@) =~= seq![
                        unsupported_module_shape_error(module.id@),
                    ]);
                }
                Err(errors)
            }
        },
        OutputExports::NoExports => Ok(OutputExports::NoExports),
    }
}

/// Whether the `__esModule` marker is written.
pub open spec fn marks_es_module(flag: EsModuleFlag, has_default_export: bool) -> bool {
    flag == EsModuleFlag::Always || (flag == EsModuleFlag::IfDefaultProp && has_default_export)
}

/// The statement that marks `exports` as the namespace of an ECMAScript
/// module.
pub open spec fn es_module_marker() -> Seq<char> {
    "Object.defineProperty(exports, '__esModule', { value: true });"@
}

/// The namespace markers, if any are due.
pub open spec fn namespace_markers(
    flag: EsModuleFlag,
    has_default_export: bool,
    namespace_to_string_tag: bool,
) -> Option<Seq<char>> {
    if marks_es_module(flag, has_default_export) && namespace_to_string_tag {
        Some(
            "Object.defineProperties(exports, { __esModule: { value: true }, [Symbol.toStringTag]: { value: 'Module' } });"@,
        )
    } else if marks_es_module(flag, has_default_export) {
        Some(es_module_marker())
    } else if namespace_to_string_tag {
        Some("Object.defineProperty(exports, Symbol.toStringTag, { value: 'Module' });"@)
    } else {
        None
    }
}

/// The statement that marks the exports object as a module namespace: the
/// `__esModule` flag where the setting asks for it, the `Symbol.toStringTag`
/// where that is asked for, both in one statement, or nothing.
pub fn render_namespace_markers(
    es_module_flag: &EsModuleFlag,
    has_default_export: bool,
    namespace_to_string_tag: bool,
) -> (marker: Option<String>)
    ensures
        match namespace_markers(*es_module_flag, has_default_export, namespace_to_string_tag) {
            Some(text) => marker matches Some(m) && m@ == text,
            None => marker is None,
        },
{
    let es_module = match es_module_flag {
        EsModuleFlag::Always => true,
        EsModuleFlag::IfDefaultProp => has_default_export,
        EsModuleFlag::Never => false,
    };
    if es_module && namespace_to_string_tag {
        Some(
            "Object.defineProperties(exports, { __esModule: { value: true }, [Symbol.toStringTag]: { value: 'Module' } });".to_owned(),
        )
    } else if es_module {
        Some("Object.defineProperty(exports, '__esModule', { value: true });".to_owned())
    } else if namespace_to_string_tag {
        Some("Object.defineProperty(exports, Symbol.toStringTag, { value: 'Module' });".to_owned())
    } else {
        None
    }
}

/// `exports.<name> = <binding>;`
pub open spec fn named_export_line(name: Seq<char>, binding: Seq<char>) -> Seq<char> {
    "exports."@ + name + " = "@ + binding + ";"@
}

/// The accessor through which another chunk reads a live binding.
pub open spec fn live_export_line(name: Seq<char>, binding: Seq<char>) -> Seq<char> {
    "Object.defineProperty(exports, '"@ + name
        + "', {\n  enumerable: true,\n  get: function () {\n    return "@ + binding
        + ";\n  }\n});"@
}

/// The statement that hands out the single default value.
pub open spec fn default_export_line(format: OutputFormat, binding: Seq<char>) -> Seq<char> {
    if format == OutputFormat::Cjs {
        "module.exports = "@ + binding + ";"@
    } else {
        "return "@ + binding + ";"@
    }
}

impl GenerateContext {
    /// One line for each item, in order.
    pub open spec fn export_lines(&self, items: Seq<ExportItem>, live: bool) -> Seq<Seq<char>> {
        items.map_values(
            |item: ExportItem|
                if live {
                    live_export_line(item.exported_name@, self.name_of(item.symbol))
                } else {
                    named_export_line(item.exported_name@, self.name_of(item.symbol))
                },
        )
    }

    /// The export statements of the chunk under `mode`, before an empty
    /// text is dropped.
    pub open spec fn exports_text(&self, mode: OutputExports) -> Seq<char> {
        let items = self.export_items();
        match self.chunk.kind {
            ChunkKind::Common => join_seq(self.export_lines(items, true), "\n"@),
            ChunkKind::EntryPoint { .. } => if !self.entry_is_esm() {
                Seq::empty()
            } else {
                match mode {
                    OutputExports::Named => join_seq(self.export_lines(items, false), "\n"@),
                    OutputExports::Default => if exports_default(items) {
                        default_export_line(
                            self.options.format,
                            self.name_of(items[default_position(items)].symbol),
                        )
                    } else {
                        Seq::empty()
                    },
                    _ => Seq::empty(),
                }
            },
        }
    }

    /// The export trailer: the statements, or nothing where there are none
    /// or the format writes none.
    pub open spec fn chunk_exports(&self, mode: OutputExports) -> Option<Seq<char>> {
        if self.options.format == OutputFormat::Esm || self.options.format == OutputFormat::App
            || self.exports_text(mode).len() == 0 {
            None
        } else {
            Some(self.exports_text(mode))
        }
    }
}

/// The first item exported as `default` stands at `default_position`.
pub proof fn lemma_default_position(items: Seq<ExportItem>)
    ensures
        0 <= default_position(items) <= items.len(),
        exports_default(items) <==> default_position(items) < items.len(),
        default_position(items) < items.len() ==> items[default_position(
            items,
        )].exported_name@ == "default"@,
        forall|k: int|
            0 <= k < default_position(items) ==> (#[trigger] items[k]).exported_name@
                != "default"@,
    decreases items.len(),
{
    if items.len() > 0 && items[0].exported_name@ != "default"@ {
        let rest = items.drop_first();
        lemma_default_position(rest);
        assert forall|k: int| 0 <= k < default_position(items) implies (#[trigger] items[k]).exported_name@
            != "default"@ by {
            if k > 0 {
                assert(items[k] == rest[k - 1]);
            }
        }
        if exports_default(items) {
            let i = choose|i: int|
                0 <= i < items.len() && (#[trigger] items[i]).exported_name@ == "default"@;
            assert(rest[i - 1] == items[i]);
        }
        if default_position(rest) < rest.len() {
            assert(items[default_position(rest) + 1] == rest[default_position(rest)]);
        }
    }
}

/// The lines for `items`, each an assignment or, if `live`, an accessor.
fn render_export_lines(ctx: &GenerateContext, items: &Vec<ExportItem>, live: bool) -> (lines: Vec<
    String,
>)
    requires
        forall|i: int|
            0 <= i < items@.len() ==> (#[trigger] items@[i]).symbol
                < ctx.chunk.canonical_names@.len(),
    ensures
        strs(lines@) == ctx.export_lines(items@, live),
{
    let mut lines: Vec<String> = Vec::new();
    let mut i: usize = 0;
    while i < items.len()
        invariant
            i <= items.len(),
            forall|k: int|
                0 <= k < items@.len() ==> (#[trigger] items@[k]).symbol
                    < ctx.chunk.canonical_names@.len(),
            strs(lines@) == ctx.export_lines(items@.take(i as int), live),
        decreases items.len() - i,
    {
        let item = &items[i];
        let binding = ctx.canonical_name_for(item.symbol);
        let mut line = String::new();
        if live {
            line.append("Object.defineProperty(exports, '");
            line.append(item.exported_name.as_str());
            line.append("', {\n  enumerable: true,\n  get: function () {\n    return ");
            line.append(binding);
            line.append(";\n  }\n});");
        } else {
            line.append("exports.");
            line.append(item.exported_name.as_str());
            line.append(" = ");
            line.append(binding);
            line.append(";");
        }
        let ghost before = strs(lines@);
        lines.push(line);
        proof {
            assert(strs(lines@) =~= before.push(line@));
            assert(ctx.export_lines(items@.take(i + 1), live) =~= ctx.export_lines(
                items@.take(i as int),
                live,
            ).push(line@));
        }
        i += 1;
    }
    proof {
        assert(items@.take(items@.len() as int) =~= items@);
    }
    lines
}

/// The statements that hand the chunk's exports out, for every format that
/// has an exports object.
///
/// Named exports give one `exports.<name> = <binding>;` per item, a default
/// export a single assignment of its value, and a common chunk one accessor
/// per binding that other chunks read. Nothing is written without exports,
/// for an entry module that is not an ECMAScript module, or in the ESM and
/// App formats.
pub fn render_chunk_exports(ctx: &GenerateContext, export_mode: &OutputExports) -> (r: Option<
    String,
>)
    requires
        ctx.wf(),
    ensures
        match ctx.chunk_exports(*export_mode) {
            Some(text) => r matches Some(s) && s@ == text,
            None => r is None,
        },
{
    if ctx.options.format == OutputFormat::Esm || ctx.options.format == OutputFormat::App {
        return None;
    }
    let items = get_export_items(ctx);
    let text = match ctx.chunk.kind {
        ChunkKind::Common => {
            let lines = render_export_lines(ctx, items, true);
            join(&lines, "\n")
        },
        ChunkKind::EntryPoint { module } => {
            let is_esm = match &ctx.link_output.modules[module] {
                Module::Ecma(m) => m.exports_kind == ExportsKind::Esm,
                Module::External(_) => false,
            };
            if !is_esm {
                String::new()
            } else {
                match export_mode {
                    OutputExports::Named => {
                        let lines = render_export_lines(ctx, items, false);
                        join(&lines, "\n")
                    },
                    OutputExports::Default => {
                        let at = find_default(items);
                        let mut line = String::new();
                        if at < items.len() {
                            let binding = ctx.canonical_name_for(items[at].symbol);
                            if ctx.options.format == OutputFormat::Cjs {
                                line.append("module.exports = ");
                            } else {
                                line.append("return ");
                            }
                            line.append(binding);
                            line.append(";");
                        }
                        line
                    },
                    _ => String::new(),
                }
            }
        },
    };
    if text.as_str().is_empty() {
        None
    } else {
        Some(text)
    }
}

/// The place of the first item exported as `default`.
fn find_default(items: &Vec<ExportItem>) -> (at: usize)
    ensures
        at == default_position(items@),
        at <= items@.len(),
        exports_default(items@) <==> at < items@.len(),
{
    proof {
        lemma_default_position(items@);
    }
    let mut i: usize = 0;
    while i < items.len()
        invariant
            i <= items.len(),
            i <= default_position(items@),
            default_position(items@) <= items@.len(),
            default_position(items@) < items@.len() ==> items@[default_position(
                items@,
            )].exported_name@ == "default"@,
            forall|k: int|
                0 <= k < default_position(items@) ==> (#[trigger] items@[k]).exported_name@
                    != "default"@,
        decreases items.len() - i,
    {
        if str_eq(items[i].exported_name.as_str(), "default") {
            return i;
        }
        i += 1;
    }
    i
}

} // verus!
