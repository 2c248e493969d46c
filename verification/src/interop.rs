//! The bindings through which a chunk reaches what it imports: other chunks
//! of the bundle, and modules that stay outside it.
use vstd::prelude::*;
use vstd::string::*;
use crate::context::{
    binds_external, calls_helper, ChunkImport, GenerateContext, RenderImportDeclarationSpecifier,
    RenderImportSpecifier, RenderImportStmt,
};
use crate::identifier::{legitimize_identifier_name, legitimized};
use crate::options::OutputFormat;
use crate::text::{concat_seq, join, join_seq, strs};

verus! {

/// `const <binding> = require('<path>');` and a line break.
pub open spec fn chunk_require_line(import: ChunkImport) -> Seq<char> {
    "const "@ + import.binding_name@ + " = require('"@ + import.import_path@ + "');\n"@
}

/// One entry of a destructuring: `imported`, or `imported: alias`.
pub open spec fn specifier_text(specifier: RenderImportSpecifier) -> Seq<char> {
    match specifier.alias {
        Some(alias) => specifier.imported@ + ": "@ + alias@,
        None => specifier.imported@,
    }
}

/// How the imported module is named in the chunk: a `require` call in
/// CommonJS, the specifier itself where a wrapper hands the module in.
pub open spec fn require_path(is_cjs: bool, path: Seq<char>) -> Seq<char> {
    if is_cjs {
        "require(\""@ + path + "\")"@
    } else {
        path
    }
}

/// The expression that a binding declaration takes its value from.
pub open spec fn require_method(
    is_cjs: bool,
    to_esm: Seq<char>,
    stmt: RenderImportStmt,
    require_path_str: Seq<char>,
) -> Seq<char> {
    if is_cjs {
        if stmt.is_external && stmt.needs_interop {
            to_esm + "("@ + require_path_str + ")"@
        } else {
            require_path_str
        }
    } else {
        legitimized(stmt.path@)
    }
}

/// What one import statement adds to the declarations.
pub open spec fn import_text(is_cjs: bool, to_esm: Seq<char>, stmt: RenderImportStmt) -> Seq<
    char,
> {
    if !stmt.is_external {
        Seq::empty()
    } else {
        match stmt.specifiers {
            RenderImportDeclarationSpecifier::ImportSpecifier(specifiers) => {
                if specifiers@.len() == 0 {
                    if is_cjs {
                        require_path(true, stmt.path@) + ";\n"@
                    } else {
                        Seq::empty()
                    }
                } else {
                    "const { "@ + join_seq(
                        specifiers@.map_values(|s: RenderImportSpecifier| specifier_text(s)),
                        ", "@,
                    ) + " } = "@ + require_method(
                        is_cjs,
                        to_esm,
                        stmt,
                        require_path(is_cjs, stmt.path@),
                    ) + ";\n"@
                }
            },
            RenderImportDeclarationSpecifier::ImportStarSpecifier(alias) => {
                "const "@ + alias@ + " = "@ + require_method(
                    is_cjs,
                    to_esm,
                    stmt,
                    require_path(is_cjs, stmt.path@),
                ) + ";\n"@
            },
        }
    }
}

/// The specifiers of the external modules that `stmts` bind something
/// from, in the order in which they are met: one for each such import, be
/// it of a module that was met before.
pub open spec fn externals_of(stmts: Seq<RenderImportStmt>) -> Seq<Seq<char>>
    decreases stmts.len(),
{
    if stmts.len() == 0 {
        Seq::empty()
    } else if binds_external(stmts.last()) {
        externals_of(stmts.drop_last()).push(stmts.last().path@)
    } else {
        externals_of(stmts.drop_last())
    }
}

impl GenerateContext {
    /// The canonical name of the interop helper.
    pub open spec fn to_esm_name(&self) -> Seq<char> {
        self.name_of(self.link_output.to_esm)
    }

    /// The `require` bindings for other chunks, which only CommonJS has.
    pub open spec fn chunk_requires_text(&self) -> Seq<char> {
        if self.is_cjs() {
            concat_seq(
                self.chunk.imports_from_other_chunks@.map_values(
                    |i: ChunkImport| chunk_require_line(i),
                ),
            )
        } else {
            Seq::empty()
        }
    }

    /// The declarations for the imports from external modules.
    pub open spec fn external_imports_text(&self) -> Seq<char> {
        concat_seq(
            self.chunk.import_stmts@.map_values(
                |s: RenderImportStmt| import_text(self.is_cjs(), self.to_esm_name(), s),
            ),
        )
    }

    /// All binding declarations of the chunk.
    pub open spec fn interop_text(&self) -> Seq<char> {
        self.chunk_requires_text() + self.external_imports_text()
    }

    /// The external modules that need a `require` call or a place among the
    /// wrapper's arguments.
    pub open spec fn interop_externals(&self) -> Seq<Seq<char>> {
        externals_of(self.chunk.import_stmts@)
    }
}

/// The expression that stands for the imported module in a declaration:
/// in CommonJS the `require` call, inside the interop helper where the
/// module's shape asks for it; in a wrapper the parameter's name.
pub fn format_require_method(
    ctx: &GenerateContext,
    stmt: &RenderImportStmt,
    require_path_str: &str,
) -> (method: String)
    requires
        ctx.is_cjs() && stmt.is_external && stmt.needs_interop ==> ctx.link_output.to_esm
            < ctx.names(),
    ensures
        method@ == require_method(ctx.is_cjs(), ctx.to_esm_name(), *stmt, require_path_str@),
{
    if ctx.options.format == OutputFormat::Cjs {
        let mut method = String::new();
        if stmt.is_external && stmt.needs_interop {
            method.append(ctx.canonical_name_for(ctx.link_output.to_esm));
            method.append("(");
            method.append(require_path_str);
            method.append(")");
        } else {
            method.append(require_path_str);
        }
        method
    } else {
        legitimize_identifier_name(stmt.path.as_str())
    }
}

/// The entries of a destructuring, in order.
fn render_specifiers(specifiers: &Vec<RenderImportSpecifier>) -> (texts: Vec<String>)
    ensures
        strs(texts@) == specifiers@.map_values(|s: RenderImportSpecifier| specifier_text(s)),
{
    let mut texts: Vec<String> = Vec::new();
    let mut i: usize = 0;
    while i < specifiers.len()
        invariant
            i <= specifiers.len(),
            strs(texts@) == specifiers@.take(i as int).map_values(
                |s: RenderImportSpecifier| specifier_text(s),
            ),
        decreases specifiers.len() - i,
    {
        let specifier = &specifiers[i];
        let mut text = String::new();
        text.append(specifier.imported.as_str());
        match &specifier.alias {
            Some(alias) => {
                text.append(": ");
                text.append(alias.as_str());
            },
            None => {},
        }
        let ghost before = strs(texts@);
        texts.push(text);
        proof {
            assert(strs(texts@) =~= before.push(text@));
            assert(specifiers@.take(i + 1).map_values(
                |s: RenderImportSpecifier| specifier_text(s),
            ) =~= before.push(text@));
        }
        i += 1;
    }
    proof {
        assert(specifiers@.take(specifiers@.len() as int) =~= specifiers@);
    }
    texts
}

/// Renders the binding declarations for everything the chunk imports, and
/// lists the external modules that the declarations draw on.
///
/// In CommonJS every imported chunk gets a `require` binding first. Then
/// each import from an external module becomes a destructuring or a
/// namespace binding; one that binds nothing is left out, but for CommonJS,
/// where a bare `require` keeps the module's side effects. The list holds
/// the specifier of each external module that got a binding, in the order
/// of the imports and the same in every format.
pub fn render_interop_chunk_imports(ctx: &GenerateContext) -> (r: (String, Vec<String>))
    requires
        ctx.is_cjs() && ctx.calls_helper() ==> ctx.link_output.to_esm < ctx.names(),
    ensures
        r.0@ == ctx.interop_text(),
        strs(r.1@) == ctx.interop_externals(),
{
    let is_cjs = ctx.options.format == OutputFormat::Cjs;
    let mut s = String::new();
    if is_cjs {
        let imports = &ctx.chunk.imports_from_other_chunks;
        let mut i: usize = 0;
        while i < imports.len()
            invariant
                i <= imports.len(),
                imports@ == ctx.chunk.imports_from_other_chunks@,
                s@ == concat_seq(
                    imports@.take(i as int).map_values(|c: ChunkImport| chunk_require_line(c)),
                ),
            decreases imports.len() - i,
        {
            proof {
                let lines = imports@.take(i + 1).map_values(|c: ChunkImport| chunk_require_line(c));
                assert(lines.drop_last() =~= imports@.take(i as int).map_values(
                    |c: ChunkImport| chunk_require_line(c),
                ));
            }
            s.append("const ");
            s.append(imports[i].binding_name.as_str());
            s.append(" = require('");
            s.append(imports[i].import_path.as_str());
            s.append("');\n");
            i += 1;
        }
        proof {
            assert(imports@.take(imports@.len() as int) =~= imports@);
        }
    }
    let stmts = &ctx.chunk.import_stmts;
    let mut externals: Vec<String> = Vec::new();
    let mut declarations = String::new();
    let mut k: usize = 0;
    while k < stmts.len()
        invariant
            k <= stmts.len(),
            ctx.is_cjs() && ctx.calls_helper() ==> ctx.link_output.to_esm < ctx.names(),
            is_cjs == ctx.is_cjs(),
            stmts@ == ctx.chunk.import_stmts@,
            declarations@ == concat_seq(
                stmts@.take(k as int).map_values(
                    |s: RenderImportStmt| import_text(ctx.is_cjs(), ctx.to_esm_name(), s),
                ),
            ),
            strs(externals@) == externals_of(stmts@.take(k as int)),
        decreases stmts.len() - k,
    {
        let stmt = &stmts[k];
        proof {
            let texts = stmts@.take(k + 1).map_values(
                |s: RenderImportStmt| import_text(ctx.is_cjs(), ctx.to_esm_name(), s),
            );
            assert(texts.drop_last() =~= stmts@.take(k as int).map_values(
                |s: RenderImportStmt| import_text(ctx.is_cjs(), ctx.to_esm_name(), s),
            ));
            assert(stmts@.take(k + 1).drop_last() =~= stmts@.take(k as int));
            assert(stmts@.take(k + 1).last() == *stmt);
            if calls_helper(*stmt) {
                assert(calls_helper(ctx.chunk.import_stmts@[k as int]));
            }
        }
        let (declaration, external) = render_import(ctx, stmt);
        declarations.append(declaration.as_str());
        match external {
            Some(external) => {
                let ghost before = strs(externals@);
                externals.push(external);
                proof {
                    assert(strs(externals@) =~= before.push(external@));
                }
            },
            None => {},
        }
        k += 1;
    }
    proof {
        assert(stmts@.take(stmts@.len() as int) =~= stmts@);
    }
    s.append(declarations.as_str());
    (s, externals)
}

/// What one import statement adds: its declaration, and the external module
/// it binds something from, if it does.
fn render_import(ctx: &GenerateContext, stmt: &RenderImportStmt) -> (r: (String, Option<String>))
    requires
        ctx.is_cjs() && calls_helper(*stmt) ==> ctx.link_output.to_esm < ctx.names(),
    ensures
        r.0@ == import_text(ctx.is_cjs(), ctx.to_esm_name(), *stmt),
        match r.1 {
            Some(external) => binds_external(*stmt) && external@ == stmt.path@,
            None => !binds_external(*stmt),
        },
{
    let is_cjs = ctx.options.format == OutputFormat::Cjs;
    let mut declaration = String::new();
    if !stmt.is_external {
        return (declaration, None);
    }
    let mut require_path_str = String::new();
    if is_cjs {
        require_path_str.append("require(\"");
        require_path_str.append(stmt.path.as_str());
        require_path_str.append("\")");
    } else {
        require_path_str.append(stmt.path.as_str());
    }
    match &stmt.specifiers {
        RenderImportDeclarationSpecifier::ImportSpecifier(specifiers) => {
            if specifiers.len() == 0 {
                // A wrapper has no use for a module that binds nothing, but
                // `require` must still run it.
                if is_cjs {
                    declaration.append(require_path_str.as_str());
                    declaration.append(";\n");
                }
                (declaration, None)
            } else {
                let texts = render_specifiers(specifiers);
                let list = join(&texts, ", ");
                let method = format_require_method(ctx, stmt, require_path_str.as_str());
                declaration.append("const { ");
                declaration.append(list.as_str());
                declaration.append(" } = ");
                declaration.append(method.as_str());
                declaration.append(";\n");
                (declaration, Some(stmt.path.clone()))
            }
        },
        RenderImportDeclarationSpecifier::ImportStarSpecifier(alias) => {
            let method = format_require_method(ctx, stmt, require_path_str.as_str());
            declaration.append("const ");
            declaration.append(alias.as_str());
            declaration.append(" = ");
            declaration.append(method.as_str());
            declaration.append(";\n");
            (declaration, Some(stmt.path.clone()))
        },
    }
}

} // verus!
