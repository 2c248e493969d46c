use rolldown::context::{
    Chunk, ChunkImport, ChunkKind, EcmaModule, ExportsKind, GenerateContext, LinkOutput,
    LinkingMetadata, Module, RenderImportDeclarationSpecifier, RenderImportSpecifier,
    RenderImportStmt, WrapKind,
};
use rolldown::interop::{format_require_method, render_interop_chunk_imports};
use rolldown::options::{EsModuleFlag, OutputExports, OutputFormat, OutputOptions};
use rolldown::wrapper::{render_chunk_imports, render_wrapper, render_wrapper_arguments};

fn context(format: OutputFormat, stmts: Vec<RenderImportStmt>) -> GenerateContext {
    GenerateContext {
        options: OutputOptions {
            format,
            exports: OutputExports::Auto,
            name: None,
            extend: false,
            globals: vec![],
            es_module: EsModuleFlag::Always,
        },
        chunk_idx: 0,
        chunk: Chunk {
            kind: ChunkKind::EntryPoint { module: 0 },
            modules: vec![0],
            canonical_names: vec!["__toESM$1".to_string(), "value".to_string()],
            imports_from_other_chunks: vec![
                ChunkImport {
                    binding_name: "require_a".to_string(),
                    import_path: "./a.js".to_string(),
                },
                ChunkImport {
                    binding_name: "require_b".to_string(),
                    import_path: "./b.js".to_string(),
                },
            ],
            import_stmts: stmts,
            exports_to_other_chunks: vec![],
            preliminary_filename: None,
        },
        link_output: LinkOutput {
            modules: vec![Module::Ecma(EcmaModule {
                id: "entry.js".to_string(),
                stable_id: "entry.js".to_string(),
                exports_kind: ExportsKind::Esm,
                contains_use_strict: false,
            })],
            metas: vec![LinkingMetadata {
                wrap_kind: WrapKind::Unwrapped,
                wrapper_ref: None,
                require_bindings_for_star_exports: vec![],
                resolved_exports: vec![rolldown::context::ExportItem {
                    exported_name: "value".to_string(),
                    symbol: 1,
                }],
            }],
            runtime: 7,
            to_esm: 0,
        },
        warnings: vec![],
    }
}

fn stmt(path: &str, external: bool, interop: bool, names: &[(&str, Option<&str>)]) -> RenderImportStmt {
    RenderImportStmt {
        path: path.to_string(),
        is_external: external,
        needs_interop: interop,
        specifiers: RenderImportDeclarationSpecifier::ImportSpecifier(
            names
                .iter()
                .map(|(imported, alias)| RenderImportSpecifier {
                    imported: imported.to_string(),
                    alias: alias.map(|a| a.to_string()),
                })
                .collect(),
        ),
    }
}

fn star(path: &str, alias: &str, interop: bool) -> RenderImportStmt {
    RenderImportStmt {
        path: path.to_string(),
        is_external: true,
        needs_interop: interop,
        specifiers: RenderImportDeclarationSpecifier::ImportStarSpecifier(alias.to_string()),
    }
}

fn all_kinds() -> Vec<RenderImportStmt> {
    vec![
        stmt("./a.js", false, false, &[("x", None)]),
        stmt("lodash-es", true, true, &[("map", None), ("filter", Some("keep"))]),
        stmt("core-js", true, false, &[]),
        star("node:fs", "fs", false),
        star("react", "React", true),
    ]
}

#[test]
fn commonjs_requires_chunks_and_externals() {
    let ctx = context(OutputFormat::Cjs, all_kinds());
    let (code, externals) = render_interop_chunk_imports(&ctx);
    assert_eq!(
        code,
        "const require_a = require('./a.js');\nconst require_b = require('./b.js');\nconst { map, filter: keep } = __toESM$1(require(\"lodash-es\"));\nrequire(\"core-js\");\nconst fs = require(\"node:fs\");\nconst React = __toESM$1(require(\"react\"));\n"
    );
    assert_eq!(externals, vec!["lodash-es", "node:fs", "react"]);
}

#[test]
fn wrapper_formats_bind_from_parameters() {
    for format in [OutputFormat::Iife, OutputFormat::Amd] {
        let ctx = context(format, all_kinds());
        let (code, externals) = render_interop_chunk_imports(&ctx);
        assert_eq!(
            code,
            "const { map, filter: keep } = lodash_es;\nconst fs = node_fs;\nconst React = react;\n"
        );
        assert_eq!(externals, vec!["lodash-es", "node:fs", "react"]);
    }
}

#[test]
fn an_external_module_is_listed_for_each_import_that_binds() {
    let stmts = vec![
        star("react", "React", false),
        stmt("react", true, false, &[]),
        stmt("react", true, false, &[("useState", None)]),
        stmt("./react", false, false, &[("x", None)]),
    ];
    for format in [OutputFormat::Cjs, OutputFormat::Iife, OutputFormat::Amd, OutputFormat::Esm] {
        let ctx = context(format, stmts.clone());
        let (_, externals) = render_interop_chunk_imports(&ctx);
        assert_eq!(externals, vec!["react", "react"], "{format:?}");
    }
}

#[test]
fn no_imports_no_code() {
    let mut ctx = context(OutputFormat::Cjs, vec![]);
    ctx.chunk.imports_from_other_chunks = vec![];
    let (code, externals) = render_interop_chunk_imports(&ctx);
    assert_eq!(code, "");
    assert!(externals.is_empty());
}

#[test]
fn require_method_by_format() {
    let external = star("react", "React", true);
    let plain = star("react", "React", false);
    let internal = stmt("./a.js", false, true, &[("x", None)]);

    let ctx = context(OutputFormat::Cjs, vec![]);
    assert_eq!(
        format_require_method(&ctx, &external, "require(\"react\")"),
        "__toESM$1(require(\"react\"))"
    );
    assert_eq!(format_require_method(&ctx, &plain, "require(\"react\")"), "require(\"react\")");
    assert_eq!(format_require_method(&ctx, &internal, "require(\"./a.js\")"), "require(\"./a.js\")");

    let ctx = context(OutputFormat::Iife, vec![]);
    assert_eq!(format_require_method(&ctx, &external, "react"), "react");
    assert_eq!(format_require_method(&ctx, &star("@scope/pkg", "p", true), "ignored"), "_scope_pkg");
}

#[test]
fn chunk_imports_mark_externals_that_bind_nothing() {
    let ctx = context(OutputFormat::Iife, all_kinds());
    let (code, externals) = render_chunk_imports(&ctx);
    assert_eq!(
        code,
        "const { map, filter: keep } = lodash_es;\nconst fs = node_fs;\nconst React = react;\n"
    );
    assert_eq!(
        externals,
        vec![
            ("lodash-es".to_string(), true),
            ("core-js".to_string(), false),
            ("node:fs".to_string(), true),
            ("react".to_string(), true),
        ]
    );
}

#[test]
fn wrapper_arguments_skip_unbound_externals() {
    let externals = vec![
        ("lodash-es".to_string(), true),
        ("core-js".to_string(), false),
        ("react".to_string(), true),
    ];
    assert_eq!(render_wrapper_arguments(&externals, true), "exports, lodash_es, react");
    assert_eq!(render_wrapper_arguments(&externals, false), "lodash_es, react");
    assert_eq!(render_wrapper_arguments(&vec![], true), "exports");
    assert_eq!(render_wrapper_arguments(&vec![], false), "");
    assert_eq!(render_wrapper_arguments(&vec![("a".to_string(), false)], false), "");
}

#[test]
fn wrapper_halves_with_named_exports() {
    let mut ctx = context(OutputFormat::Iife, vec![star("react", "React", false)]);
    let (beginning, ending, externals) = render_wrapper(
        &mut ctx,
        &OutputExports::Named,
        true,
        Some("/* intro */".to_string()),
        Some("/* outro */".to_string()),
    );
    assert_eq!(
        beginning,
        "(function(exports, react) {\n\"use strict\";\n\n/* intro */\nconst React = react;\n"
    );
    assert_eq!(ending, "exports.value = value;\n/* outro */\n\nreturn exports;\n})");
    assert_eq!(externals, vec![("react".to_string(), true)]);
    assert!(ctx.warnings.is_empty());
}

#[test]
fn wrapper_halves_with_a_default_export() {
    let mut ctx = context(OutputFormat::Iife, vec![]);
    ctx.link_output.metas[0].resolved_exports[0].exported_name = "default".to_string();
    let (beginning, ending, externals) =
        render_wrapper(&mut ctx, &OutputExports::Default, false, None, Some(String::new()));
    assert_eq!(beginning, "(function() {\n");
    assert_eq!(ending, "return value;\n})");
    assert!(externals.is_empty());
}

#[test]
fn wrapper_halves_without_exports() {
    let mut ctx = context(OutputFormat::Iife, vec![]);
    ctx.link_output.metas[0].resolved_exports = vec![];
    let (beginning, ending, _) =
        render_wrapper(&mut ctx, &OutputExports::Named, false, Some(String::new()), None);
    assert_eq!(beginning, "(function() {\n");
    assert_eq!(ending, "\n})");
}
