use rolldown::context::{
    Chunk, ChunkKind, EcmaModule, ExportItem, ExportsKind, GenerateContext, LinkOutput,
    LinkingMetadata, Module, RenderImportDeclarationSpecifier, RenderImportSpecifier,
    RenderImportStmt, RenderedModuleSource, WrapKind,
};
use rolldown::diagnostic::{DiagnosticKind, Severity};
use rolldown::format::iife::{render_iife, render_iife_arguments};
use rolldown::namespace::generate_identifier;
use rolldown::options::{EsModuleFlag, GlobalName, OutputExports, OutputFormat, OutputOptions};

const MARKER: &str = "Object.defineProperty(exports, '__esModule', { value: true });";

/// An entry chunk of one ES module with the given exports; the symbols are
/// `__toESM`, `X`, `x`, `y`.
fn context(exports: Vec<(&str, usize)>, name: Option<&str>) -> GenerateContext {
    GenerateContext {
        options: OutputOptions {
            format: OutputFormat::Iife,
            exports: OutputExports::Auto,
            name: name.map(|n| n.to_string()),
            extend: false,
            globals: vec![],
            es_module: EsModuleFlag::Always,
        },
        chunk_idx: 0,
        chunk: Chunk {
            kind: ChunkKind::EntryPoint { module: 0 },
            modules: vec![0],
            canonical_names: ["__toESM", "X", "x", "y"].iter().map(|s| s.to_string()).collect(),
            imports_from_other_chunks: vec![],
            import_stmts: vec![],
            exports_to_other_chunks: vec![],
            preliminary_filename: Some("entry.js".to_string()),
        },
        link_output: LinkOutput {
            modules: vec![Module::Ecma(EcmaModule {
                id: "entry.js".to_string(),
                stable_id: "entry.js".to_string(),
                exports_kind: ExportsKind::Esm,
                contains_use_strict: false,
            })],
            metas: vec![LinkingMetadata {
                wrap_kind: WrapKind::Unwrapped,
                wrapper_ref: None,
                require_bindings_for_star_exports: vec![],
                resolved_exports: exports
                    .into_iter()
                    .map(|(name, symbol)| ExportItem { exported_name: name.to_string(), symbol })
                    .collect(),
            }],
            runtime: 99,
            to_esm: 0,
        },
        warnings: vec![],
    }
}

fn named_import(path: &str, names: &[&str]) -> RenderImportStmt {
    RenderImportStmt {
        path: path.to_string(),
        is_external: true,
        needs_interop: false,
        specifiers: RenderImportDeclarationSpecifier::ImportSpecifier(
            names
                .iter()
                .map(|n| RenderImportSpecifier { imported: n.to_string(), alias: None })
                .collect(),
        ),
    }
}

fn body(text: &str) -> Vec<RenderedModuleSource> {
    vec![RenderedModuleSource {
        idx: 0,
        id: "entry.js".to_string(),
        sources: Some(vec![text.to_string()]),
    }]
}

fn render(ctx: &mut GenerateContext, text: &str, invoke: bool) -> String {
    render_iife(ctx, body(text), None, None, None, None, invoke).unwrap().content()
}

#[test]
fn default_export_is_returned_and_assigned_to_the_name() {
    let mut ctx = context(vec![("default", 1)], Some("lib"));
    let text = render(&mut ctx, "const X = 1;", true);
    assert_eq!(text, "var lib = (function() {\n\n\"use strict\";\n\nconst X = 1;\nreturn X;\n})();");
    assert!(ctx.warnings.is_empty());
}

#[test]
fn named_exports_take_an_exports_object() {
    let mut ctx = context(vec![("x", 2), ("y", 3)], Some("lib"));
    let text = render(&mut ctx, "const x = 1, y = 2;", true);
    assert_eq!(
        text,
        format!(
            "var lib = (function(exports) {{\n\n\"use strict\";\n{MARKER}\n\nconst x = 1, y = 2;\nexports.x = x;\nexports.y = y;\nreturn exports;\n}})({{}});"
        )
    );
}

#[test]
fn wrapper_as_a_value_is_not_called() {
    let mut ctx = context(vec![("default", 1)], None);
    ctx.options.format = OutputFormat::Amd;
    let text = render(&mut ctx, "const X = 1;", false);
    assert_eq!(text, "(function() {\n\n\"use strict\";\n\nconst X = 1;\nreturn X;\n})");
}

#[test]
fn exports_without_a_name_give_one_warning() {
    let mut ctx = context(vec![("default", 1)], None);
    let text = render(&mut ctx, "const X = 1;", true);
    assert!(text.starts_with("(function() {\n"));
    assert_eq!(ctx.warnings.len(), 1);
    assert!(matches!(ctx.warnings[0].kind, DiagnosticKind::MissingNameOptionForIifeExport));
    assert_eq!(ctx.warnings[0].severity, Severity::Warning);
    assert!(ctx.warnings[0].is_warning());
}

#[test]
fn no_exports_and_no_name_give_no_warning() {
    let mut ctx = context(vec![], None);
    let text = render(&mut ctx, "run();", true);
    assert_eq!(text, "(function() {\n\n\"use strict\";\n\nrun();\n})();");
    assert!(ctx.warnings.is_empty());
}

#[test]
fn externals_become_parameters_and_arguments() {
    let mut ctx = context(vec![("x", 2)], Some("lib"));
    ctx.chunk.import_stmts =
        vec![named_import("react-dom", &["render"]), named_import("jquery", &["ajax"])];
    ctx.options.globals =
        vec![GlobalName { specifier: "jquery".to_string(), global: "$".to_string() }];
    let text = render(&mut ctx, "const x = 1;", true);
    assert_eq!(
        text,
        format!(
            "var lib = (function(exports, react_dom, jquery) {{\n\n\"use strict\";\n{MARKER}\nconst {{ render }} = react_dom;\nconst {{ ajax }} = jquery;\n\nconst x = 1;\nexports.x = x;\nreturn exports;\n}})({{}}, react_dom, $);"
        )
    );
    assert_eq!(ctx.warnings.len(), 1);
    match &ctx.warnings[0].kind {
        DiagnosticKind::MissingGlobalName { module_name, guessed_name } => {
            assert_eq!(module_name, "react-dom");
            assert_eq!(guessed_name, "react_dom");
        }
        other => panic!("unexpected warning {other:?}"),
    }
    assert_eq!(ctx.warnings[0].severity, Severity::Warning);
    assert_eq!(
        ctx.warnings[0].message(),
        "No name was provided for external module \"react-dom\" in \"output.globals\" \u{2013} guessing \"react_dom\"."
    );
}

#[test]
fn arguments_are_aligned_with_parameters() {
    let mut ctx = context(vec![], None);
    ctx.options.globals = vec![
        GlobalName { specifier: "b".to_string(), global: "B".to_string() },
        GlobalName { specifier: "unused".to_string(), global: "U".to_string() },
    ];
    let externals = vec!["a-1".to_string(), "b".to_string(), "c".to_string()];
    let (input, output) = render_iife_arguments(&mut ctx, &externals, Some("{}"));
    assert_eq!(input, "exports, a_1, b, c");
    assert_eq!(output, "{}, a_1, B, c");
    assert_eq!(input.split(", ").count(), output.split(", ").count());
    assert_eq!(ctx.warnings.len(), 2);

    let mut ctx = context(vec![], None);
    let (input, output) = render_iife_arguments(&mut ctx, &externals, None);
    assert_eq!(input, "a_1, b, c");
    assert_eq!(output, "a_1, b, c");
    assert_eq!(ctx.warnings.len(), 3);

    let mut ctx = context(vec![], None);
    let (input, output) = render_iife_arguments(&mut ctx, &vec![], None);
    assert_eq!(input, "");
    assert_eq!(output, "");
    assert!(ctx.warnings.is_empty());
}

#[test]
fn external_that_binds_nothing_gets_no_parameter() {
    let mut ctx = context(vec![], None);
    ctx.chunk.import_stmts = vec![named_import("polyfill", &[]), named_import("dep", &["a"])];
    ctx.options.globals =
        vec![GlobalName { specifier: "dep".to_string(), global: "Dep".to_string() }];
    let text = render(&mut ctx, "a();", true);
    assert_eq!(text, "(function(dep) {\n\n\"use strict\";\nconst { a } = dep;\n\na();\n})(Dep);");
    assert!(ctx.warnings.is_empty());
}

#[test]
fn dotted_name_sets_its_namespace_up() {
    let mut ctx = context(vec![("default", 1)], Some("a.b.c"));
    let text = render(&mut ctx, "const X = 1;", true);
    assert!(text.starts_with(
        "this.a = this.a || {};\nthis.a.b = this.a.b || {};\nthis.a.b.c = (function() {\n"
    ));
}

#[test]
fn extend_with_named_exports_extends_the_target() {
    let mut ctx = context(vec![("x", 2)], Some("lib"));
    ctx.options.extend = true;
    let text = render(&mut ctx, "const x = 1;", true);
    assert!(text.starts_with("(function(exports) {\n"));
    assert!(text.ends_with("return exports;\n})(this.lib = this.lib || {});"));
}

#[test]
fn extend_with_a_default_export_assigns_the_property() {
    let mut ctx = context(vec![("default", 1)], Some("lib"));
    ctx.options.extend = true;
    let text = render(&mut ctx, "const X = 1;", true);
    assert!(text.starts_with("this.lib = (function() {\n"));
}

#[test]
fn illegal_name_is_an_error_without_extend() {
    let mut ctx = context(vec![("default", 1)], Some("1lib"));
    let errors = render_iife(&mut ctx, body(""), None, None, None, None, true).err().unwrap();
    assert_eq!(errors.len(), 1);
    match &errors[0].kind {
        DiagnosticKind::IllegalIdentifierAsName { name } => assert_eq!(name, "1lib"),
        other => panic!("unexpected error {other:?}"),
    }
    assert_eq!(errors[0].severity, Severity::Error);
    assert!(!errors[0].is_warning());
    assert_eq!(
        errors[0].message(),
        "Given name \"1lib\" is not a legal JS identifier. If you need this, you can try \"output.extend: true\"."
    );
    assert!(ctx.warnings.is_empty());

    let mut ctx = context(vec![("default", 1)], Some("1lib"));
    ctx.options.extend = true;
    let text = render(&mut ctx, "const X = 1;", true);
    assert!(text.starts_with("this[\"1lib\"] = (function() {\n"));
}

#[test]
fn named_setting_on_a_commonjs_entry_is_refused() {
    let mut ctx = context(vec![("x", 2)], Some("lib"));
    ctx.options.exports = OutputExports::Named;
    ctx.link_output.modules[0] = Module::Ecma(EcmaModule {
        id: "entry.js".to_string(),
        stable_id: "entry.js".to_string(),
        exports_kind: ExportsKind::CommonJs,
        contains_use_strict: true,
    });
    let errors = render_iife(&mut ctx, body(""), None, None, None, None, true).err().unwrap();
    assert_eq!(errors.len(), 1);
    match &errors[0].kind {
        DiagnosticKind::UnsupportedModuleShape { module_id } => assert_eq!(module_id, "entry.js"),
        other => panic!("unexpected error {other:?}"),
    }
}

#[test]
fn addons_stand_in_order_inside_and_outside_the_wrapper() {
    let mut ctx = context(vec![], None);
    let text = render_iife(
        &mut ctx,
        body("run();"),
        Some("/* banner */".to_string()),
        Some("/* footer */".to_string()),
        Some("/* intro */".to_string()),
        Some("/* outro */".to_string()),
        true,
    )
    .unwrap()
    .content();
    assert_eq!(
        text,
        "/* banner */\n(function() {\n\n\"use strict\";\n/* intro */\n\nrun();\n/* outro */\n})();\n/* footer */"
    );
}

#[test]
fn identifier_for_each_kind_of_name() {
    let mut ctx = context(vec![], Some("lib"));
    let r = generate_identifier(&mut ctx, &OutputExports::Default, true, "this").unwrap();
    assert_eq!(r, (String::new(), "var lib".to_string()));

    let mut ctx = context(vec![], Some("a.b"));
    ctx.options.extend = true;
    let r = generate_identifier(&mut ctx, &OutputExports::Named, true, "this").unwrap();
    assert_eq!(
        r,
        ("this.a = this.a || {};\n".to_string(), "this.a.b = this.a.b || {}".to_string())
    );

    let mut ctx = context(vec![], Some("lib"));
    ctx.options.format = OutputFormat::Amd;
    let r = generate_identifier(&mut ctx, &OutputExports::Default, true, "global").unwrap();
    assert_eq!(r, (String::new(), "global.lib".to_string()));

    let mut ctx = context(vec![], Some("a.b"));
    ctx.options.format = OutputFormat::Amd;
    let r = generate_identifier(&mut ctx, &OutputExports::Default, true, "global").unwrap();
    assert_eq!(r, ("global.a = global.a || {}, ".to_string(), "global.a.b".to_string()));

    let mut ctx = context(vec![], Some(""));
    ctx.options.extend = true;
    let r = generate_identifier(&mut ctx, &OutputExports::Default, true, "this").unwrap();
    assert_eq!(r, (String::new(), String::new()));

    let mut ctx = context(vec![], Some("lib"));
    ctx.options.extend = true;
    let r = generate_identifier(&mut ctx, &OutputExports::Named, true, "this").unwrap();
    assert_eq!(r, (String::new(), "this.lib = this.lib || {}".to_string()));

    let mut ctx = context(vec![], None);
    let r = generate_identifier(&mut ctx, &OutputExports::Named, false, "this").unwrap();
    assert_eq!(r, (String::new(), String::new()));
    assert!(ctx.warnings.is_empty());

    let mut ctx = context(vec![], None);
    let r = generate_identifier(&mut ctx, &OutputExports::Named, true, "this").unwrap();
    assert_eq!(r, (String::new(), String::new()));
    assert_eq!(ctx.warnings.len(), 1);
    assert_eq!(
        ctx.warnings[0].message(),
        "If you do not supply \"output.name\", you may not be able to access the exports of an IIFE bundle."
    );

    let mut ctx = context(vec![], Some("class"));
    let errors = generate_identifier(&mut ctx, &OutputExports::Named, true, "this").err().unwrap();
    assert_eq!(errors.len(), 1);
}
