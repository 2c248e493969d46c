//! The output name of a wrapped bundle: how a plain or dotted name becomes
//! the statements that set its namespace up and the expression that the
//! bundle's result is assigned to.
use vstd::prelude::*;
use vstd::string::*;
use crate::context::GenerateContext;
use crate::diagnostic::{
    diagnostics, illegal_identifier_error, missing_name_warning, BuildDiagnostic,
    BuildDiagnosticView,
};
use crate::identifier::{is_validate_assignee_identifier_name, valid_assignee_name};
use crate::options::{OutputExports, OutputFormat};
use crate::text::{concat_seq, contains_char, split, split_seq, strs};

verus! {

/// How a property named `name` is reached from an object: `.name` where the
/// name may stand bare, `["name"]` where it may not.
pub open spec fn caller_text(name: Seq<char>) -> Seq<char> {
    if valid_assignee_name(name) {
        "."@ + name
    } else {
        "[\""@ + name + "\"]"@
    }
}

/// The accessors of `parts`, one after another.
pub open spec fn access_path(parts: Seq<Seq<char>>) -> Seq<char> {
    concat_seq(parts.map_values(|p: Seq<char>| caller_text(p)))
}

/// `target = target || {}`: makes the object unless it is there.
pub open spec fn create_if_absent(target: Seq<char>) -> Seq<char> {
    target + " = "@ + target + " || {}"@
}

/// What ends one initialization: a line of its own, or a place in a comma
/// expression.
pub open spec fn statement_end(newline: bool) -> Seq<char> {
    if newline {
        ";\n"@
    } else {
        ", "@
    }
}

/// The initializations for every proper prefix of `parts`, shortest first.
pub open spec fn namespace_init(parts: Seq<Seq<char>>, root: Seq<char>, newline: bool) -> Seq<
    char,
>
    decreases parts.len(),
{
    if parts.len() <= 1 {
        Seq::empty()
    } else {
        namespace_init(parts.drop_last(), root, newline) + create_if_absent(
            root + access_path(parts.drop_last()),
        ) + statement_end(newline)
    }
}

/// The initialization code and the final expression for a dotted name.
pub open spec fn namespace_definition(name: Seq<char>, root: Seq<char>, newline: bool) -> (
    Seq<char>,
    Seq<char>,
) {
    let parts = split_seq(name, '.');
    (namespace_init(parts, root, newline), root + access_path(parts))
}

/// The bracketed accessor of a property: `["name"]`.
pub open spec fn bracketed(name: Seq<char>) -> Seq<char> {
    "[\""@ + name + "\"]"@
}

/// The statement that makes the namespace of the first `k` segments.
pub open spec fn init_statement(
    parts: Seq<Seq<char>>,
    root: Seq<char>,
    newline: bool,
    k: int,
) -> Seq<char> {
    create_if_absent(root + access_path(parts.take(k))) + statement_end(newline)
}

/// The statements of the initialization code: one for each proper prefix of
/// the segments, shortest first.
pub open spec fn init_statements(parts: Seq<Seq<char>>, root: Seq<char>, newline: bool) -> Seq<
    Seq<char>,
> {
    Seq::new(
        if parts.len() == 0 {
            0nat
        } else {
            (parts.len() - 1) as nat
        },
        |i: int| init_statement(parts, root, newline, i + 1),
    )
}

/// A segment that may not stand bare is written in brackets, never behind a
/// dot.
pub proof fn lemma_invalid_segment_bracketed(name: Seq<char>)
    requires
        !valid_assignee_name(name),
    ensures
        caller_text(name) == bracketed(name),
        caller_text(name)[0] == '[',
{
    reveal_strlit("[\"");
    reveal_strlit("\"]");
}

/// Where no segment may stand bare, the whole path is made of bracketed
/// accessors.
pub proof fn lemma_invalid_path_bracketed(parts: Seq<Seq<char>>)
    requires
        forall|i: int| 0 <= i < parts.len() ==> !valid_assignee_name(#[trigger] parts[i]),
    ensures
        access_path(parts) == concat_seq(parts.map_values(|p: Seq<char>| bracketed(p))),
{
    assert(parts.map_values(|p: Seq<char>| caller_text(p)) =~= parts.map_values(
        |p: Seq<char>| bracketed(p),
    ));
}

/// Every accessor has at least one character, so a longer prefix of the
/// segments has a longer path.
pub proof fn lemma_access_path_grows(parts: Seq<Seq<char>>, i: int, j: int)
    requires
        0 <= i < j <= parts.len(),
    ensures
        access_path(parts.take(i)).len() < access_path(parts.take(j)).len(),
    decreases j - i,
{
    reveal_strlit(".");
    reveal_strlit("[\"");
    reveal_strlit("\"]");
    let upto = parts.take(j);
    let callers = upto.map_values(|p: Seq<char>| caller_text(p));
    assert(callers.drop_last() =~= parts.take(j - 1).map_values(|p: Seq<char>| caller_text(p)));
    assert(callers.last().len() >= 1);
    assert(access_path(upto).len() == access_path(parts.take(j - 1)).len() + callers.last().len());
    if i < j - 1 {
        lemma_access_path_grows(parts, i, j - 1);
    }
}

/// The initialization code is its statements written one after another:
/// one statement for each proper prefix of the segments, and no two of them
/// alike.
pub proof fn lemma_namespace_init_statements(
    parts: Seq<Seq<char>>,
    root: Seq<char>,
    newline: bool,
)
    ensures
        namespace_init(parts, root, newline) == concat_seq(init_statements(parts, root, newline)),
        forall|i: int, j: int|
            0 <= i < j < init_statements(parts, root, newline).len() ==> #[trigger] init_statements(
                parts,
                root,
                newline,
            )[i] != #[trigger] init_statements(parts, root, newline)[j],
    decreases parts.len(),
{
    let statements = init_statements(parts, root, newline);
    if parts.len() <= 1 {
        assert(statements =~= Seq::<Seq<char>>::empty());
    } else {
        let shorter = parts.drop_last();
        lemma_namespace_init_statements(shorter, root, newline);
        let before = init_statements(shorter, root, newline);
        assert(statements.drop_last() =~= before) by {
            assert forall|i: int| 0 <= i < before.len() implies statements.drop_last()[i]
                == before[i] by {
                assert(parts.take(i + 1) =~= shorter.take(i + 1));
            }
        }
        assert(parts.take(parts.len() - 1) =~= shorter);
        assert(statements.last() == create_if_absent(root + access_path(shorter)) + statement_end(
            newline,
        ));
    }
    assert forall|i: int, j: int| 0 <= i < j < statements.len() implies #[trigger] statements[i]
        != #[trigger] statements[j] by {
        lemma_access_path_grows(parts, i + 1, j + 1);
        let a = root + access_path(parts.take(i + 1));
        let b = root + access_path(parts.take(j + 1));
        assert(create_if_absent(a).len() == 2 * a.len() + " = "@.len() + " || {}"@.len());
        assert(create_if_absent(b).len() == 2 * b.len() + " = "@.len() + " || {}"@.len());
        assert(statements[i].len() < statements[j].len());
    }
}

/// `.name` for a name that may stand bare, `["name"]` for any other.
pub fn generate_caller(name: &str) -> (caller: String)
    ensures
        caller@ == caller_text(name@),
{
    let mut caller = String::new();
    if is_validate_assignee_identifier_name(name) {
        caller.append(".");
        caller.append(name);
    } else {
        caller.append("[\"");
        caller.append(name);
        caller.append("\"]");
    }
    caller
}

/// Splits `name` at its dots. For every segment but the last it writes
/// `<root><path> = <root><path> || {}`, the path growing by one accessor each
/// time; the final expression is the root with every segment's accessor.
pub fn generate_namespace_definition(name: &str, root: &str, newline: bool) -> (r: (
    String,
    String,
))
    ensures
        r.0@ == namespace_definition(name@, root@, newline).0,
        r.1@ == namespace_definition(name@, root@, newline).1,
{
    let parts = split(name, '.');
    let ghost all = split_seq(name@, '.');
    let mut initialization_code = String::new();
    let mut path = String::new();
    let mut i: usize = 0;
    while i < parts.len()
        invariant
            i <= parts.len(),
            parts@.len() >= 1,
            strs(parts@) == all,
            path@ == access_path(all.take(i as int)),
            initialization_code@ == namespace_init(
                all.take(if i < parts.len() { i + 1 } else { i as int }),
                root@,
                newline,
            ),
        decreases parts.len() - i,
    {
        let caller = generate_caller(parts[i].as_str());
        proof {
            let upto = all.take(i + 1);
            assert(upto.drop_last() =~= all.take(i as int));
            assert(upto.map_values(|p: Seq<char>| caller_text(p)).drop_last() =~= all.take(
                i as int,
            ).map_values(|p: Seq<char>| caller_text(p)));
            assert(upto.last() == parts@[i as int]@);
        }
        path.append(caller.as_str());
        if i < parts.len() - 1 {
            proof {
                assert(all.take(i + 2).drop_last() =~= all.take(i + 1));
            }
            let statement = render_init_statement(root, path.as_str(), newline);
            initialization_code.append(statement.as_str());
        }
        i += 1;
    }
    proof {
        assert(all.take(all.len() as int) =~= all);
    }
    let mut final_code = String::new();
    final_code.append(root);
    final_code.append(path.as_str());
    (initialization_code, final_code)
}

/// `<root><path> = <root><path> || {}` and what ends the statement.
fn render_init_statement(root: &str, path: &str, newline: bool) -> (statement: String)
    ensures
        statement@ == create_if_absent(root@ + path@) + statement_end(newline),
{
    let mut statement = render_create_if_absent(root, path);
    if newline {
        statement.append(";\n");
    } else {
        statement.append(", ");
    }
    statement
}

/// `<root><path> = <root><path> || {}`
fn render_create_if_absent(root: &str, path: &str) -> (target: String)
    ensures
        target@ == create_if_absent(root@ + path@),
{
    let mut target = String::new();
    target.append(root);
    target.append(path);
    target.append(" = ");
    target.append(root);
    target.append(path);
    target.append(" || {}");
    target
}

/// The two texts that `generate_identifier` gives for a configured name, or
/// the name itself where it cannot be declared.
pub open spec fn identifier_for_name(
    name: Seq<char>,
    is_iife: bool,
    extend: bool,
    named: bool,
    root: Seq<char>,
) -> Result<(Seq<char>, Seq<char>), Seq<char>> {
    if name.contains('.') || !is_iife {
        let definition = namespace_definition(name, root, is_iife);
        Ok(
            (
                definition.0,
                if extend && named {
                    create_if_absent(definition.1)
                } else {
                    definition.1
                },
            ),
        )
    } else if extend {
        if named {
            Ok((Seq::empty(), create_if_absent(root + caller_text(name))))
        } else if name.len() == 0 {
            Ok((Seq::empty(), Seq::empty()))
        } else {
            Ok((Seq::empty(), root + caller_text(name)))
        }
    } else if valid_assignee_name(name) {
        Ok((Seq::empty(), "var "@ + name))
    } else {
        Err(name)
    }
}

/// The warnings that `generate_identifier` adds.
pub open spec fn identifier_warnings(name: Option<String>, has_export: bool) -> Seq<
    BuildDiagnosticView,
> {
    if name is None && has_export {
        seq![missing_name_warning()]
    } else {
        Seq::empty()
    }
}

/// Decides how the bundle's result reaches the outside from the configured
/// `name`: the statements that come before the wrapper, and the text that the
/// wrapper is assigned to.
///
/// A dotted name (and, outside the IIFE format, any name) becomes a
/// namespace definition; with `extend` and named exports its final
/// expression is made only if absent. A plain name extends `root` where
/// `extend` is set, is declared with `var` where it can be, and is an error
/// where it cannot. Without a name nothing is written, and a bundle that has
/// exports gets a warning.
pub fn generate_identifier(
    ctx: &mut GenerateContext,
    export_mode: &OutputExports,
    has_export: bool,
    root: &str,
) -> (r: Result<(String, String), Vec<BuildDiagnostic>>)
    ensures
        final(ctx).same_input(old(ctx)),
        diagnostics(final(ctx).warnings@) == diagnostics(old(ctx).warnings@) + identifier_warnings(
            old(ctx).options.name,
            has_export,
        ),
        match old(ctx).options.name {
            Some(name) => match identifier_for_name(
                name@,
                old(ctx).options.format == OutputFormat::Iife,
                old(ctx).options.extend,
                *export_mode == OutputExports::Named,
                root@,
            ) {
                Ok(texts) => r matches Ok(got) && got.0@ == texts.0 && got.1@ == texts.1,
                Err(bad) => r matches Err(errors) && diagnostics(errors@) == seq![
                    illegal_identifier_error(bad),
                ],
            },
            None => r matches Ok(got) && got.0@.len() == 0 && got.1@.len() == 0,
        },
{
    let is_iife = ctx.options.format == OutputFormat::Iife;
    let named = *export_mode == OutputExports::Named;
    let extend = ctx.options.extend;
    match &ctx.options.name {
        Some(name) => {
            proof {
                assert(diagnostics(ctx.warnings@) + Seq::<BuildDiagnosticView>::empty()
                    =~= diagnostics(ctx.warnings@));
            }
            if contains_char(name.as_str(), '.') || !is_iife {
                let (decl, expr) = generate_namespace_definition(name.as_str(), root, is_iife);
                if extend && named {
                    let target = render_create_if_absent(expr.as_str(), "");
                    proof {
                        reveal_strlit("");
                        assert(expr@ + ""@ =~= expr@);
                    }
                    Ok((decl, target))
                } else {
                    Ok((decl, expr))
                }
            } else if extend {
                let caller = generate_caller(name.as_str());
                let target = if named {
                    render_create_if_absent(root, caller.as_str())
                } else {
                    let mut target = String::new();
                    if !name.as_str().is_empty() {
                        target.append(root);
                        target.append(caller.as_str());
                    }
                    target
                };
                Ok((String::new(), target))
            } else if is_validate_assignee_identifier_name(name.as_str()) {
                let mut target = String::new();
                target.append("var ");
                target.append(name.as_str());
                Ok((String::new(), target))
            } else {
                let mut errors: Vec<BuildDiagnostic> = Vec::new();
                errors.push(BuildDiagnostic::illegal_identifier_as_name(name.clone()));
                proof {
                    assert(diagnostics(errors@) =~= seq![illegal_identifier_error(name@)]);
                }
                Err(errors)
            }
        },
        None => {
            if has_export {
                let ghost before = diagnostics(ctx.warnings@);
                ctx.warnings.push(
                    BuildDiagnostic::missing_name_option_for_iife_export().with_severity_warning(),
                );
                proof {
                    assert(diagnostics(ctx.warnings@) =~= before + seq![missing_name_warning()]);
                }
            } else {
                proof {
                    assert(diagnostics(ctx.warnings@) + Seq::<BuildDiagnosticView>::empty()
                        =~= diagnostics(ctx.warnings@));
                }
            }
            Ok((String::new(), String::new()))
        },
    }
}

} // verus!
