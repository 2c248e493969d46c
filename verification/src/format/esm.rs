//! The ECMAScript-module emitter: the format without a wrapper or interop,
//! with imports and exports as statements of the language.
use vstd::prelude::*;
use vstd::string::*;
use crate::context::{
    ExportItem, GenerateContext, RenderImportDeclarationSpecifier, RenderImportSpecifier,
    RenderImportStmt, RenderedModuleSource,
};
use crate::exports::get_export_items;
use crate::format::{
    add_module_sources, add_optional, add_text, module_fragments, optional_part, part_if,
};
use crate::source::ConcatSource;
use crate::text::{concat_seq, join, join_seq, str_eq, strs};

verus! {

/// One entry of an import list: `imported`, or `imported as alias`.
pub open spec fn import_entry(specifier: RenderImportSpecifier) -> Seq<char> {
    match specifier.alias {
        Some(alias) => specifier.imported@ + " as "@ + alias@,
        None => specifier.imported@,
    }
}

/// The import statement for `stmt`, with a line break behind it.
pub open spec fn import_statement(stmt: RenderImportStmt) -> Seq<char> {
    match stmt.specifiers {
        RenderImportDeclarationSpecifier::ImportSpecifier(specifiers) => {
            if specifiers@.len() == 0 {
                "import \""@ + stmt.path@ + "\";\n"@
            } else {
                "import { "@ + join_seq(
                    specifiers@.map_values(|s: RenderImportSpecifier| import_entry(s)),
                    ", "@,
                ) + " } from \""@ + stmt.path@ + "\";\n"@
            }
        },
        RenderImportDeclarationSpecifier::ImportStarSpecifier(alias) => {
            "import * as "@ + alias@ + " from \""@ + stmt.path@ + "\";\n"@
        },
    }
}

/// One entry of an export list: the binding, with `as name` where the
/// exported name differs from it.
pub open spec fn export_entry(name: Seq<char>, binding: Seq<char>) -> Seq<char> {
    if binding == name {
        binding
    } else {
        binding + " as "@ + name
    }
}

impl GenerateContext {
    /// The import statements of the chunk, one after another.
    pub open spec fn esm_imports(&self) -> Seq<char> {
        concat_seq(self.chunk.import_stmts@.map_values(|s: RenderImportStmt| import_statement(s)))
    }

    /// The entries of the export statement.
    pub open spec fn esm_export_entries(&self, items: Seq<ExportItem>) -> Seq<Seq<char>> {
        items.map_values(
            |item: ExportItem| export_entry(item.exported_name@, self.name_of(item.symbol)),
        )
    }

    /// `export { ... };`
    pub open spec fn esm_exports(&self) -> Seq<char> {
        "export { "@ + join_seq(self.esm_export_entries(self.export_items()), ", "@) + " };"@
    }

    /// The fragments of the ES module, in order.
    pub open spec fn esm_parts(
        &self,
        modules: Seq<RenderedModuleSource>,
        banner: Option<String>,
        footer: Option<String>,
        intro: Option<String>,
        outro: Option<String>,
    ) -> Seq<Seq<char>> {
        optional_part(banner) + optional_part(intro) + part_if(
            self.chunk.import_stmts@.len() > 0,
            self.esm_imports(),
        ) + module_fragments(modules) + part_if(
            self.export_items().len() > 0,
            self.esm_exports(),
        ) + optional_part(outro) + optional_part(footer)
    }
}

/// The entries of an import list, in order.
fn render_import_entries(specifiers: &Vec<RenderImportSpecifier>) -> (texts: Vec<String>)
    ensures
        strs(texts@) == specifiers@.map_values(|s: RenderImportSpecifier| import_entry(s)),
{
    let mut texts: Vec<String> = Vec::new();
    let mut i: usize = 0;
    while i < specifiers.len()
        invariant
            i <= specifiers.len(),
            strs(texts@) == specifiers@.take(i as int).map_values(
                |s: RenderImportSpecifier| import_entry(s),
            ),
        decreases specifiers.len() - i,
    {
        let specifier = &specifiers[i];
        let mut text = String::new();
        text.append(specifier.imported.as_str());
        match &specifier.alias {
            Some(alias) => {
                text.append(" as ");
                text.append(alias.as_str());
            },
            None => {},
        }
        let ghost before = strs(texts@);
        texts.push(text);
        proof {
            assert(strs(texts@) =~= before.push(text@));
            assert(specifiers@.take(i + 1).map_values(|s: RenderImportSpecifier| import_entry(s))
                =~= before.push(text@));
        }
        i += 1;
    }
    proof {
        assert(specifiers@.take(specifiers@.len() as int) =~= specifiers@);
    }
    texts
}

/// The import statements of the chunk.
fn render_esm_imports(ctx: &GenerateContext) -> (text: String)
    ensures
        text@ == ctx.esm_imports(),
{
    let stmts = &ctx.chunk.import_stmts;
    let mut text = String::new();
    let mut i: usize = 0;
    while i < stmts.len()
        invariant
            i <= stmts.len(),
            stmts@ == ctx.chunk.import_stmts@,
            text@ == concat_seq(
                stmts@.take(i as int).map_values(|s: RenderImportStmt| import_statement(s)),
            ),
        decreases stmts.len() - i,
    {
        let stmt = &stmts[i];
        proof {
            let texts = stmts@.take(i + 1).map_values(|s: RenderImportStmt| import_statement(s));
            assert(texts.drop_last() =~= stmts@.take(i as int).map_values(
                |s: RenderImportStmt| import_statement(s),
            ));
        }
        match &stmt.specifiers {
            RenderImportDeclarationSpecifier::ImportSpecifier(specifiers) => {
                if specifiers.len() == 0 {
                    text.append("import \"");
                } else {
                    let entries = render_import_entries(specifiers);
                    let list = join(&entries, ", ");
                    text.append("import { ");
                    text.append(list.as_str());
                    text.append(" } from \"");
                }
            },
            RenderImportDeclarationSpecifier::ImportStarSpecifier(alias) => {
                text.append("import * as ");
                text.append(alias.as_str());
                text.append(" from \"");
            },
        }
        text.append(stmt.path.as_str());
        text.append("\";\n");
        i += 1;
    }
    proof {
        assert(stmts@.take(stmts@.len() as int) =~= stmts@);
    }
    text
}

/// The export statement of the chunk.
fn render_esm_exports(ctx: &GenerateContext, items: &Vec<ExportItem>) -> (text: String)
    requires
        forall|i: int|
            0 <= i < items@.len() ==> (#[trigger] items@[i]).symbol
                < ctx.chunk.canonical_names@.len(),
    ensures
        text@ == "export { "@ + join_seq(ctx.esm_export_entries(items@), ", "@) + " };"@,
{
    let mut entries: Vec<String> = Vec::new();
    let mut i: usize = 0;
    while i < items.len()
        invariant
            i <= items.len(),
            forall|k: int|
                0 <= k < items@.len() ==> (#[trigger] items@[k]).symbol
                    < ctx.chunk.canonical_names@.len(),
            strs(entries@) == ctx.esm_export_entries(items@.take(i as int)),
        decreases items.len() - i,
    {
        let item = &items[i];
        let binding = ctx.canonical_name_for(item.symbol);
        let mut entry = String::new();
        entry.append(binding);
        if !str_eq(binding, item.exported_name.as_str()) {
            entry.append(" as ");
            entry.append(item.exported_name.as_str());
        }
        let ghost before = strs(entries@);
        entries.push(entry);
        proof {
            assert(strs(entries@) =~= before.push(entry@));
            assert(ctx.esm_export_entries(items@.take(i + 1)) =~= before.push(entry@));
        }
        i += 1;
    }
    proof {
        assert(items@.take(items@.len() as int) =~= items@);
    }
    let list = join(&entries, ", ");
    let mut text = String::new();
    text.append("export { ");
    text.append(list.as_str());
    text.append(" };");
    text
}

/// Emits a chunk as an ECMAScript module: banner, intro, the import
/// statements, the module bodies in chunk order, the export statement,
/// outro, footer. Imports and exports are written only where there are any.
pub fn render_esm(
    ctx: &GenerateContext,
    module_sources: Vec<RenderedModuleSource>,
    banner: Option<String>,
    footer: Option<String>,
    intro: Option<String>,
    outro: Option<String>,
) -> (source: ConcatSource)
    requires
        ctx.wf(),
    ensures
        source@ == ctx.esm_parts(module_sources@, banner, footer, intro, outro),
{
    let mut concat_source = ConcatSource::new();
    add_optional(&mut concat_source, banner);
    add_optional(&mut concat_source, intro);
    if ctx.chunk.import_stmts.len() > 0 {
        add_text(&mut concat_source, render_esm_imports(ctx));
    }
    add_module_sources(&mut concat_source, &module_sources, 0, module_sources.len());
    proof {
        assert(module_sources@.subrange(0, module_sources@.len() as int) =~= module_sources@);
    }
    let items = get_export_items(ctx);
    if items.len() > 0 {
        add_text(&mut concat_source, render_esm_exports(ctx, items));
    }
    add_optional(&mut concat_source, outro);
    add_optional(&mut concat_source, footer);
    assert(concat_source@ =~= ctx.esm_parts(module_sources@, banner, footer, intro, outro));
    concat_source
}

} // verus!
