//! A function wrapper as two texts, the part before the module bodies and
//! the part after them, for callers that place the bodies themselves.
use vstd::prelude::*;
use vstd::string::*;
use crate::context::{
    binds_external, GenerateContext, RenderImportDeclarationSpecifier, RenderImportStmt,
};
use crate::exports::{get_export_items, render_chunk_exports};
use crate::format::part_if;
use crate::identifier::{legitimize_identifier_name, legitimized};
use crate::interop::render_interop_chunk_imports;
use crate::options::OutputExports;
use crate::text::{join, join_seq, strs};

verus! {

/// The beginning of the wrapper, its ending, and the external modules with
/// a mark on each that binds anything.
pub type RenderWrapperResult = (String, String, Vec<(String, bool)>);

/// The external modules among `stmts`, in order, each marked with whether
/// the import binds anything from it.
pub open spec fn marked_externals(stmts: Seq<RenderImportStmt>) -> Seq<(Seq<char>, bool)>
    decreases stmts.len(),
{
    if stmts.len() == 0 {
        Seq::empty()
    } else if stmts.last().is_external {
        marked_externals(stmts.drop_last()).push((stmts.last().path@, binds_external(stmts.last())))
    } else {
        marked_externals(stmts.drop_last())
    }
}

/// A list of marked externals with its strings as texts.
pub open spec fn marked(externals: Seq<(String, bool)>) -> Seq<(Seq<char>, bool)> {
    externals.map_values(|e: (String, bool)| (e.0@, e.1))
}

/// The parameters for the marked externals: one for each that binds
/// something, in order.
pub open spec fn bound_parameters(externals: Seq<(Seq<char>, bool)>) -> Seq<Seq<char>>
    decreases externals.len(),
{
    if externals.len() == 0 {
        Seq::empty()
    } else if externals.last().1 {
        bound_parameters(externals.drop_last()).push(legitimized(externals.last().0))
    } else {
        bound_parameters(externals.drop_last())
    }
}

/// The wrapper's parameter list.
pub open spec fn wrapper_input_args(externals: Seq<(Seq<char>, bool)>, exports_key: bool) -> Seq<
    char,
> {
    join_seq(part_if(exports_key, "exports"@) + bound_parameters(externals), ", "@)
}

/// An intro or outro as it stands inside the wrapper: on lines of its own,
/// or not at all where it is empty or missing.
pub open spec fn padded(text: Option<String>) -> Seq<char> {
    match text {
        Some(t) => if t@.len() == 0 {
            Seq::empty()
        } else {
            "\n"@ + t@ + "\n"@
        },
        None => Seq::empty(),
    }
}

/// A text, or nothing.
pub open spec fn text_or_empty(text: Option<Seq<char>>) -> Seq<char> {
    match text {
        Some(t) => t,
        None => Seq::empty(),
    }
}

impl GenerateContext {
    /// What a wrapper writes before the module bodies.
    pub open spec fn wrapper_beginning(
        &self,
        mode: OutputExports,
        use_strict: bool,
        intro: Option<String>,
    ) -> Seq<char> {
        "(function("@ + wrapper_input_args(
            marked_externals(self.chunk.import_stmts@),
            self.export_items().len() > 0 && mode == OutputExports::Named,
        ) + ") {\n"@ + (if use_strict {
            "\"use strict\";\n"@
        } else {
            Seq::empty()
        }) + padded(intro) + self.interop_text()
    }

    /// What a wrapper writes after the module bodies.
    pub open spec fn wrapper_ending(&self, mode: OutputExports, outro: Option<String>) -> Seq<
        char,
    > {
        text_or_empty(self.chunk_exports(mode)) + padded(outro) + (if self.export_items().len() > 0
            && mode == OutputExports::Named {
            "\nreturn exports;"@
        } else {
            Seq::empty()
        }) + "\n})"@
    }
}

/// The binding declarations of the chunk's imports, and its external
/// modules in order, each marked with whether anything is bound from it.
pub fn render_chunk_imports(ctx: &GenerateContext) -> (r: (String, Vec<(String, bool)>))
    requires
        ctx.is_cjs() && ctx.calls_helper() ==> ctx.link_output.to_esm < ctx.names(),
    ensures
        r.0@ == ctx.interop_text(),
        marked(r.1@) == marked_externals(ctx.chunk.import_stmts@),
{
    let (import_code, _) = render_interop_chunk_imports(ctx);
    let stmts = &ctx.chunk.import_stmts;
    let mut externals: Vec<(String, bool)> = Vec::new();
    let mut i: usize = 0;
    proof {
        assert(marked(externals@) =~= marked_externals(stmts@.take(0)));
    }
    while i < stmts.len()
        invariant
            i <= stmts.len(),
            marked(externals@) == marked_externals(stmts@.take(i as int)),
        decreases stmts.len() - i,
    {
        let stmt = &stmts[i];
        proof {
            assert(stmts@.take(i + 1).drop_last() =~= stmts@.take(i as int));
            assert(stmts@.take(i + 1).last() == *stmt);
        }
        if stmt.is_external {
            let non_empty = match &stmt.specifiers {
                RenderImportDeclarationSpecifier::ImportSpecifier(specifiers) => {
                    specifiers.len() > 0
                },
                RenderImportDeclarationSpecifier::ImportStarSpecifier(_) => true,
            };
            let ghost before = marked(externals@);
            externals.push((stmt.path.clone(), non_empty));
            proof {
                assert(marked(externals@) =~= before.push((stmt.path@, non_empty)));
            }
        }
        i += 1;
    }
    proof {
        assert(stmts@.take(stmts@.len() as int) =~= stmts@);
    }
    (import_code, externals)
}

/// The wrapper's parameter list: `exports` if `exports_key` is set, then the
/// name of each external module that binds something, joined with `, `.
pub fn render_wrapper_arguments(externals: &Vec<(String, bool)>, exports_key: bool) -> (args:
    String)
    ensures
        args@ == wrapper_input_args(marked(externals@), exports_key),
{
    let mut input_args: Vec<String> = Vec::new();
    if exports_key {
        input_args.push("exports".to_owned());
    }
    let ghost all = marked(externals@);
    proof {
        assert(strs(input_args@) =~= part_if(exports_key, "exports"@) + bound_parameters(
            all.take(0),
        ));
    }
    let mut i: usize = 0;
    while i < externals.len()
        invariant
            i <= externals.len(),
            all == marked(externals@),
            strs(input_args@) == part_if(exports_key, "exports"@) + bound_parameters(
                all.take(i as int),
            ),
        decreases externals.len() - i,
    {
        proof {
            assert(all.take(i + 1).drop_last() =~= all.take(i as int));
            assert(all.take(i + 1).last() == (externals@[i as int].0@, externals@[i as int].1));
        }
        if externals[i].1 {
            let name = legitimize_identifier_name(externals[i].0.as_str());
            let ghost before = strs(input_args@);
            input_args.push(name);
            proof {
                assert(strs(input_args@) =~= before.push(name@));
                assert(strs(input_args@) =~= part_if(exports_key, "exports"@) + bound_parameters(
                    all.take(i + 1),
                ));
            }
        }
        i += 1;
    }
    proof {
        assert(all.take(all.len() as int) =~= all);
    }
    join(&input_args, ", ")
}

/// Renders the two halves of a function wrapper around a chunk.
///
/// The beginning opens the function with its parameters, then holds the
/// strict-mode pragma if `use_strict` is set, the intro, and the import
/// bindings. The ending holds the export statements, the outro, `return
/// exports;` where named exports are handed out, and the closing `})`.
pub fn render_wrapper(
    ctx: &mut GenerateContext,
    export_mode: &OutputExports,
    use_strict: bool,
    intro: Option<String>,
    outro: Option<String>,
) -> (r: RenderWrapperResult)
    requires
        old(ctx).wf(),
    ensures
        *final(ctx) == *old(ctx),
        r.0@ == old(ctx).wrapper_beginning(*export_mode, use_strict, intro),
        r.1@ == old(ctx).wrapper_ending(*export_mode, outro),
        marked(r.2@) == marked_externals(old(ctx).chunk.import_stmts@),
{
    let export_items = get_export_items(ctx);
    let exports_key = export_items.len() > 0 && *export_mode == OutputExports::Named;

    let (import_code, externals) = render_chunk_imports(ctx);
    let input_args = render_wrapper_arguments(&externals, exports_key);

    let mut beginning = String::new();
    beginning.append("(function(");
    beginning.append(input_args.as_str());
    beginning.append(") {\n");
    if use_strict {
        beginning.append("\"use strict\";\n");
    }
    append_padded(&mut beginning, &intro);
    beginning.append(import_code.as_str());

    let mut ending = String::new();
    match render_chunk_exports(ctx, export_mode) {
        Some(exports) => {
            ending.append(exports.as_str());
        },
        None => {},
    }
    append_padded(&mut ending, &outro);
    if exports_key {
        ending.append("\nreturn exports;");
    }
    ending.append("\n})");
    (beginning, ending, externals)
}

/// Appends an intro or outro on lines of its own, if there is one and it
/// is not empty.
fn append_padded(target: &mut String, text: &Option<String>)
    ensures
        final(target)@ == old(target)@ + padded(*text),
{
    match text {
        Some(text) => {
            if !text.as_str().is_empty() {
                target.append("\n");
                target.append(text.as_str());
                target.append("\n");
            }
        },
        None => {},
    }
}

} // verus!
