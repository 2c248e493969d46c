use rolldown::hooks::HookLoadOutput;
use rolldown::http_resolve::{
    accept_url, get_extension, is_supported_extension, is_supported_url, resolve_import,
    resolve_imports, resolve_reference, supports, valid_and_parse, HttpResolvePlugin, RemoteUrl,
};
use rolldown::module_type::ModuleType;

fn load(plugin: &HttpResolvePlugin, id: &str) -> Option<HookLoadOutput<()>> {
    plugin.load(id)
}

fn load_resolved(plugin: &HttpResolvePlugin, id: &str) -> Option<HookLoadOutput<()>> {
    plugin.load_resolved(id)
}

fn url(scheme: &str, path: &str) -> RemoteUrl {
    RemoteUrl {
        href: format!("{scheme}://example.com{path}"),
        scheme: scheme.to_string(),
        path: path.to_string(),
    }
}

#[test]
fn supported_extensions() {
    for ext in ["js", "jsx", "ts", "tsx", "css", "json"] {
        assert!(is_supported_extension(ext), "{ext}");
    }
    for ext in ["", "mjs", "JS", ".js", "png", "jso"] {
        assert!(!is_supported_extension(ext), "{ext}");
    }
    assert!(supports(&Some("ts".to_string())));
    assert!(!supports(&Some("rs".to_string())));
    assert!(!supports(&None));
}

#[test]
fn http_urls_of_supported_files_are_taken() {
    let taken = valid_and_parse("https://Example.com/a/../lib/mod.ts?v=1#top").unwrap();
    assert_eq!(taken.scheme, "https");
    assert_eq!(taken.path, "/lib/mod.ts");
    assert_eq!(taken.href, "https://example.com/lib/mod.ts?v=1#top");
    assert_eq!(get_extension(&taken).as_deref(), Some("ts"));
    assert!(is_supported_url(&taken));

    let taken = valid_and_parse("http://localhost:8080/app.jsx").unwrap();
    assert_eq!(taken.scheme, "http");
    assert_eq!(taken.path, "/app.jsx");
}

#[test]
fn other_specifiers_are_left_alone() {
    for specifier in [
        "./local.js",
        "lodash",
        "",
        "https://",
        "ftp://example.com/a.js",
        "file:///a.js",
        "data:text/javascript,1",
        "https://example.com/a.png",
        "https://example.com/dir/",
        "https://example.com",
        "https://example.com/.js",
    ] {
        assert!(valid_and_parse(specifier).is_none(), "{specifier}");
    }
}

#[test]
fn a_parsed_url_is_taken_by_scheme_and_extension() {
    let js = Some("js".to_string());
    assert!(accept_url(Some(url("https", "/a.js")), &js).is_some());
    assert!(accept_url(Some(url("http", "/a.js")), &js).is_some());
    assert!(accept_url(Some(url("ws", "/a.js")), &js).is_none());
    assert!(accept_url(Some(url("https", "/a.png")), &Some("png".to_string())).is_none());
    assert!(accept_url(Some(url("https", "/a")), &None).is_none());
    assert!(accept_url(None, &js).is_none());
}

#[test]
fn module_types_by_name() {
    assert_eq!(ModuleType::from_known_str("js"), Ok(ModuleType::Js));
    assert_eq!(ModuleType::from_known_str("mjs"), Ok(ModuleType::Js));
    assert_eq!(ModuleType::from_known_str("cjs"), Ok(ModuleType::Js));
    assert_eq!(ModuleType::from_known_str("jsx"), Ok(ModuleType::Jsx));
    assert_eq!(ModuleType::from_known_str("ts"), Ok(ModuleType::Ts));
    assert_eq!(ModuleType::from_known_str("mts"), Ok(ModuleType::Ts));
    assert_eq!(ModuleType::from_known_str("cts"), Ok(ModuleType::Ts));
    assert_eq!(ModuleType::from_known_str("tsx"), Ok(ModuleType::Tsx));
    assert_eq!(ModuleType::from_known_str("json"), Ok(ModuleType::Json));
    assert_eq!(ModuleType::from_known_str("text"), Ok(ModuleType::Text));
    assert_eq!(ModuleType::from_known_str("base64"), Ok(ModuleType::Base64));
    assert_eq!(ModuleType::from_known_str("dataurl"), Ok(ModuleType::DataUrl));
    assert_eq!(ModuleType::from_known_str("binary"), Ok(ModuleType::Binary));
    assert_eq!(ModuleType::from_known_str("empty"), Ok(ModuleType::Empty));
    assert_eq!(ModuleType::from_known_str("css"), Ok(ModuleType::Css));
    assert_eq!(ModuleType::from_known_str(""), Err("Unknown module type: ".to_string()));
    assert_eq!(ModuleType::from_known_str("vue"), Err("Unknown module type: vue".to_string()));
}

#[test]
fn what_was_fetched_is_served() {
    let mut plugin = HttpResolvePlugin::default();
    assert_eq!(plugin.name(), "rolldown:http-resolve");
    let specifier = "https://example.com/mod.ts";
    assert!(load(&plugin, specifier).is_none());

    let url = plugin.resolve_id(specifier).unwrap();
    let extension = get_extension(&url).unwrap();
    let output = plugin.resolved(specifier, &extension, "export const a = 1;".to_string()).unwrap();
    assert_eq!(output.id, specifier);

    let loaded = load(&plugin, specifier).unwrap();
    assert_eq!(loaded.code, "export const a = 1;");
    assert_eq!(loaded.module_type, Some(ModuleType::Ts));
    assert_eq!(loaded.map, None);
    assert_eq!(loaded.side_effects, None);
    assert!(load(&plugin, "https://example.com/other.ts").is_none());
    assert!(load_resolved(&plugin, "https://example.com/other.ts").is_none());

    plugin.resolved(specifier, "js", "export const a = 2;".to_string()).unwrap();
    let loaded = load_resolved(&plugin, specifier).unwrap();
    assert_eq!(loaded.code, "export const a = 2;");
    assert_eq!(loaded.module_type, Some(ModuleType::Js));
}

#[test]
fn only_urls_are_served() {
    let mut plugin = HttpResolvePlugin::default();
    assert!(plugin.resolve_id("./local.js").is_none());
    plugin.resolved("./local.js", "js", "1".to_string()).unwrap();
    assert!(load(&plugin, "./local.js").is_none());
    assert!(load_resolved(&plugin, "./local.js").is_some());
}

#[test]
fn a_body_of_unknown_type_is_not_stored() {
    let mut plugin = HttpResolvePlugin::default();
    let specifier = "https://example.com/a.js";
    assert_eq!(
        plugin.resolved(specifier, "", "1".to_string()).err().unwrap(),
        "Unknown module type: "
    );
    assert!(load(&plugin, specifier).is_none());
}

#[test]
fn imports_are_resolved_from_beside_the_module() {
    let base = valid_and_parse("https://example.com/lib/mod.js?v=1").unwrap();
    assert_eq!(
        resolve_import(&base, "./dep.js").as_deref(),
        Some("https://example.com/lib/dep.js")
    );
    assert_eq!(
        resolve_import(&base, "../x/y.js").as_deref(),
        Some("https://example.com/x/y.js")
    );
    assert_eq!(resolve_import(&base, "/abs.js").as_deref(), Some("https://example.com/abs.js"));
    assert_eq!(resolve_import(&base, "dep").as_deref(), Some("https://example.com/lib/dep"));

    let sources = vec!["./a.js".to_string(), "../b.js".to_string()];
    assert_eq!(
        resolve_imports(&base, &sources),
        Some(vec!["https://example.com/lib/a.js".to_string(), "https://example.com/b.js".to_string()])
    );
    assert_eq!(resolve_imports(&base, &vec![]), Some(vec![]));
}

#[test]
fn nothing_is_resolved_against_what_is_no_url() {
    let no_url = url("https", "/lib/mod.js");
    let broken = RemoteUrl { href: "not a url".to_string(), ..no_url };
    assert_eq!(resolve_import(&broken, "./dep.js"), None);
    assert_eq!(resolve_imports(&broken, &vec!["./dep.js".to_string()]), None);
    assert_eq!(resolve_imports(&broken, &vec![]), Some(vec![]));
}

#[test]
fn a_reference_is_resolved_against_the_url() {
    let base = valid_and_parse("https://example.com/lib/mod.js").unwrap();
    assert_eq!(
        resolve_reference(&base, Some("other.js".to_string())).as_deref(),
        Some("https://example.com/lib/other.js")
    );
    assert_eq!(
        resolve_reference(&base, Some("//cdn.example.org/x.js".to_string())).as_deref(),
        Some("https://cdn.example.org/x.js")
    );
    assert_eq!(resolve_reference(&base, None), None);
}
