use rolldown::format::cjs::render_cjs;
use rolldown::context::{
    Chunk, ChunkImport, ChunkKind, EcmaModule, ExportItem, ExportsKind, ExternalModule,
    GenerateContext, LinkOutput, LinkingMetadata, Module, RenderImportDeclarationSpecifier,
    RenderImportSpecifier, RenderImportStmt, RenderedModuleSource, StarExportBinding, WrapKind,
};
use rolldown::options::{EsModuleFlag, OutputExports, OutputFormat, OutputOptions};

const MARKER: &str = "Object.defineProperty(exports, '__esModule', { value: true });";

fn ecma(id: &str, kind: ExportsKind) -> Module {
    Module::Ecma(EcmaModule {
        id: id.to_string(),
        stable_id: id.to_string(),
        exports_kind: kind,
        contains_use_strict: false,
    })
}

fn meta(exports: Vec<(&str, usize)>) -> LinkingMetadata {
    LinkingMetadata {
        wrap_kind: WrapKind::Unwrapped,
        wrapper_ref: None,
        require_bindings_for_star_exports: vec![],
        resolved_exports: exports
            .into_iter()
            .map(|(name, symbol)| ExportItem { exported_name: name.to_string(), symbol })
            .collect(),
    }
}

/// An entry chunk of one module `entry.js` with the given exports; the
/// symbols are `__toESM`, `X`, `x`, `y`, `init_entry`, `ns`.
fn context(exports: Vec<(&str, usize)>, setting: OutputExports) -> GenerateContext {
    GenerateContext {
        options: OutputOptions {
            format: OutputFormat::Cjs,
            exports: setting,
            name: None,
            extend: false,
            globals: vec![],
            es_module: EsModuleFlag::Always,
        },
        chunk_idx: 0,
        chunk: Chunk {
            kind: ChunkKind::EntryPoint { module: 0 },
            modules: vec![0],
            canonical_names: ["__toESM", "X", "x", "y", "init_entry", "ns"]
                .iter()
                .map(|s| s.to_string())
                .collect(),
            imports_from_other_chunks: vec![],
            import_stmts: vec![],
            exports_to_other_chunks: vec![],
            preliminary_filename: Some("entry.js".to_string()),
        },
        link_output: LinkOutput {
            modules: vec![ecma("entry.js", ExportsKind::Esm)],
            metas: vec![meta(exports)],
            runtime: 99,
            to_esm: 0,
        },
        warnings: vec![],
    }
}

fn body(idx: usize, id: &str, text: &str) -> RenderedModuleSource {
    RenderedModuleSource { idx, id: id.to_string(), sources: Some(vec![text.to_string()]) }
}

fn star_import(path: &str, alias: &str, needs_interop: bool) -> RenderImportStmt {
    RenderImportStmt {
        path: path.to_string(),
        is_external: true,
        needs_interop,
        specifiers: RenderImportDeclarationSpecifier::ImportStarSpecifier(alias.to_string()),
    }
}

fn render(ctx: &mut GenerateContext, bodies: Vec<RenderedModuleSource>) -> String {
    render_cjs(ctx, bodies, None, None, None, None).unwrap().content()
}

#[test]
fn default_export_with_namespace_import_of_fs() {
    let mut ctx = context(vec![("default", 1)], OutputExports::Auto);
    ctx.chunk.import_stmts = vec![star_import("fs", "fs", false)];
    let text = render(&mut ctx, vec![body(0, "entry.js", "const X = fs.readFileSync;")]);
    assert!(text.starts_with("\"use strict\";"));
    assert!(text.contains("const fs = require(\"fs\");"));
    assert!(text.ends_with("module.exports = X;"));
    assert!(!text.contains("__esModule"));
    assert_eq!(
        text,
        "\"use strict\";\nconst fs = require(\"fs\");\n\nconst X = fs.readFileSync;\nmodule.exports = X;"
    );
    assert!(ctx.warnings.is_empty());
}

#[test]
fn named_exports_are_marked_and_assigned() {
    let mut ctx = context(vec![("x", 2), ("y", 3)], OutputExports::Auto);
    let text = render(&mut ctx, vec![body(0, "entry.js", "const x = 1, y = 2;")]);
    assert_eq!(
        text,
        format!("\"use strict\";\n{MARKER}\n\nconst x = 1, y = 2;\nexports.x = x;\nexports.y = y;")
    );
    assert_eq!(text.matches(MARKER).count(), 1);
    assert!(!text.contains("module.exports ="));
}

#[test]
fn single_named_export_is_assigned_once() {
    let mut ctx = context(vec![("x", 2)], OutputExports::Auto);
    let text = render(&mut ctx, vec![body(0, "entry.js", "const x = 1;")]);
    assert_eq!(text.matches("exports.x = x;").count(), 1);
    assert_eq!(text.matches("exports.").count(), 1);
    assert!(text.ends_with("exports.x = x;"));
}

#[test]
fn named_exports_without_marker_when_never() {
    let mut ctx = context(vec![("x", 2)], OutputExports::Auto);
    ctx.options.es_module = EsModuleFlag::Never;
    let text = render(&mut ctx, vec![body(0, "entry.js", "const x = 1;")]);
    assert_eq!(text, "\"use strict\";\n\nconst x = 1;\nexports.x = x;");
}

#[test]
fn marker_if_default_prop_needs_a_default_export() {
    let mut ctx = context(vec![("x", 2)], OutputExports::Auto);
    ctx.options.es_module = EsModuleFlag::IfDefaultProp;
    let text = render(&mut ctx, vec![]);
    assert!(!text.contains(MARKER));

    let mut ctx = context(vec![("default", 1), ("x", 2)], OutputExports::Auto);
    ctx.options.es_module = EsModuleFlag::IfDefaultProp;
    let text = render(&mut ctx, vec![]);
    assert!(text.contains(MARKER));
    assert!(text.ends_with("exports.default = X;\nexports.x = x;"));
}

#[test]
fn no_exports_no_marker_no_trailer() {
    let mut ctx = context(vec![], OutputExports::Auto);
    let text = render(&mut ctx, vec![body(0, "entry.js", "run();")]);
    assert_eq!(text, "\"use strict\";\n\nrun();");
}

#[test]
fn banner_intro_outro_footer_stand_in_order() {
    let mut ctx = context(vec![("default", 1)], OutputExports::Auto);
    let source = render_cjs(
        &mut ctx,
        vec![body(0, "entry.js", "const X = 1;")],
        Some("/* banner */".to_string()),
        Some("/* footer */".to_string()),
        Some("/* intro */".to_string()),
        Some("/* outro */".to_string()),
    )
    .unwrap();
    assert_eq!(
        source.content(),
        "/* banner */\n\"use strict\";\n/* intro */\n\nconst X = 1;\nmodule.exports = X;\n/* outro */\n/* footer */"
    );
    assert_eq!(source.len(), 8);
    assert_eq!(source.part(0), "/* banner */");
    assert_eq!(source.part(7), "/* footer */");
}

#[test]
fn runtime_module_stands_before_the_requires() {
    let mut ctx = context(vec![("default", 1)], OutputExports::Auto);
    ctx.chunk.modules = vec![1, 0];
    ctx.link_output.modules.push(ecma("rolldown:runtime", ExportsKind::Esm));
    ctx.link_output.metas.push(meta(vec![]));
    ctx.link_output.runtime = 1;
    ctx.chunk.import_stmts = vec![star_import("fs", "fs", true)];
    let text = render(
        &mut ctx,
        vec![
            body(1, "rolldown:runtime", "var __toESM = (m) => m;"),
            body(0, "entry.js", "const X = fs;"),
        ],
    );
    assert_eq!(
        text,
        "\"use strict\";\nvar __toESM = (m) => m;\nconst fs = __toESM(require(\"fs\"));\n\nconst X = fs;\nmodule.exports = X;"
    );
}

#[test]
fn runtime_module_elsewhere_keeps_its_place() {
    let mut ctx = context(vec![], OutputExports::Auto);
    ctx.chunk.modules = vec![0, 1];
    ctx.link_output.modules.push(ecma("rolldown:runtime", ExportsKind::Esm));
    ctx.link_output.metas.push(meta(vec![]));
    ctx.link_output.runtime = 1;
    let text = render(
        &mut ctx,
        vec![body(0, "entry.js", "a();"), body(1, "rolldown:runtime", "b();")],
    );
    assert_eq!(text, "\"use strict\";\n\na();\nb();");
}

#[test]
fn requires_for_other_chunks_and_externals() {
    let mut ctx = context(vec![], OutputExports::Auto);
    ctx.chunk.imports_from_other_chunks = vec![ChunkImport {
        binding_name: "require_shared".to_string(),
        import_path: "./shared.js".to_string(),
    }];
    ctx.chunk.import_stmts = vec![
        RenderImportStmt {
            path: "node:path".to_string(),
            is_external: true,
            needs_interop: true,
            specifiers: RenderImportDeclarationSpecifier::ImportSpecifier(vec![
                RenderImportSpecifier { imported: "join".to_string(), alias: None },
                RenderImportSpecifier {
                    imported: "resolve".to_string(),
                    alias: Some("res".to_string()),
                },
            ]),
        },
        RenderImportStmt {
            path: "side-effect".to_string(),
            is_external: true,
            needs_interop: false,
            specifiers: RenderImportDeclarationSpecifier::ImportSpecifier(vec![]),
        },
    ];
    let text = render(&mut ctx, vec![]);
    assert_eq!(
        text,
        "\"use strict\";\nconst require_shared = require('./shared.js');\nconst { join, resolve: res } = __toESM(require(\"node:path\"));\nrequire(\"side-effect\");\n"
    );
}

#[test]
fn star_exports_are_required_and_copied() {
    let mut ctx = context(vec![("x", 2)], OutputExports::Auto);
    ctx.link_output.modules.push(Module::External(ExternalModule { name: "dep".to_string() }));
    ctx.link_output.metas.push(meta(vec![]));
    ctx.link_output.metas[0].require_bindings_for_star_exports =
        vec![StarExportBinding { importee: 1, binding: 5 }];
    let text = render(&mut ctx, vec![]);
    let expected_loop = "Object.keys(ns).forEach(function (k) {\n  if (k !== 'default' && !Object.prototype.hasOwnProperty.call(exports, k)) Object.defineProperty(exports, k, {\n    enumerable: true,\n    get: function () { return ns[k]; }\n  });\n});\n";
    assert_eq!(
        text,
        format!(
            "\"use strict\";\n{MARKER}\nvar ns = require(\"dep\");\n{expected_loop}\n\nexports.x = x;"
        )
    );
}

#[test]
fn wrapped_entry_is_initialized() {
    let mut ctx = context(vec![], OutputExports::Auto);
    ctx.link_output.metas[0].wrap_kind = WrapKind::Esm;
    ctx.link_output.metas[0].wrapper_ref = Some(4);
    let text = render(&mut ctx, vec![body(0, "entry.js", "var init_entry = () => {};")]);
    assert_eq!(text, "\"use strict\";\n\nvar init_entry = () => {};\ninit_entry();");

    let mut ctx = context(vec![], OutputExports::Auto);
    ctx.link_output.modules[0] = ecma("entry.js", ExportsKind::CommonJs);
    ctx.link_output.metas[0].wrap_kind = WrapKind::Cjs;
    ctx.link_output.metas[0].wrapper_ref = Some(4);
    let text = render(&mut ctx, vec![]);
    assert_eq!(text, "\nexport default init_entry();\n");
}

#[test]
fn commonjs_entry_gets_no_mode_and_no_strict_pragma() {
    let mut ctx = context(vec![("x", 2)], OutputExports::Named);
    ctx.link_output.modules[0] = ecma("entry.js", ExportsKind::CommonJs);
    let text = render(&mut ctx, vec![body(0, "entry.js", "module.exports = 1;")]);
    assert_eq!(text, "\nmodule.exports = 1;");
}

#[test]
fn common_chunk_hands_out_live_bindings() {
    let mut ctx = context(vec![], OutputExports::Auto);
    ctx.chunk.kind = ChunkKind::Common;
    ctx.chunk.exports_to_other_chunks = vec![ExportItem { exported_name: "x".to_string(), symbol: 2 }];
    let text = render(&mut ctx, vec![body(0, "entry.js", "const x = 1;")]);
    assert_eq!(
        text,
        "\"use strict\";\n\nconst x = 1;\nObject.defineProperty(exports, 'x', {\n  enumerable: true,\n  get: function () {\n    return x;\n  }\n});"
    );
}

#[test]
fn modules_without_code_leave_nothing() {
    let mut ctx = context(vec![], OutputExports::Auto);
    let text = render(
        &mut ctx,
        vec![RenderedModuleSource { idx: 0, id: "entry.js".to_string(), sources: None }],
    );
    assert_eq!(text, "\"use strict\";\n");
}
