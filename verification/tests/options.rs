use rolldown::amd_options::{AmdOptions, BindingAmdOptions};
use rolldown::generated_code::{
    BindingGeneratedCodeOptions, GeneratedCodeOptions, GeneratedCodePreset,
};
use rolldown::hooks::{BindingHookSideEffects, BindingHookTransformOutput, HookSideEffects};
use rolldown::interop_mode::InteropMode;

#[test]
fn amd_options_by_default() {
    let options = AmdOptions::default();
    assert_eq!(options.id, "");
    assert_eq!(options.define, "define");
    assert!(!options.auto_id);
    assert_eq!(options.base_path, "");
    assert!(!options.force_js_extension_for_imports);
}

#[test]
fn amd_options_from_an_empty_binding() {
    let options = AmdOptions::from(BindingAmdOptions::default());
    assert_eq!(options.id, "");
    assert_eq!(options.define, "define");
    assert!(!options.auto_id);
    assert_eq!(options.base_path, "");
    assert!(!options.force_js_extension_for_imports);
}

#[test]
fn amd_options_with_auto_id_are_named_main() {
    let options = AmdOptions::from(BindingAmdOptions {
        id: None,
        define: None,
        auto_id: Some(true),
        base_path: Some("lib".to_string()),
        force_js_extension_for_imports: Some(true),
    });
    assert_eq!(options.id, "main");
    assert!(options.auto_id);
    assert_eq!(options.base_path, "lib");
    assert!(options.force_js_extension_for_imports);
}

#[test]
fn amd_options_keep_what_is_given() {
    let options: AmdOptions = BindingAmdOptions {
        id: Some("my-id".to_string()),
        define: Some("def".to_string()),
        auto_id: Some(true),
        base_path: None,
        force_js_extension_for_imports: None,
    }
    .into();
    assert_eq!(options.id, "my-id");
    assert_eq!(options.define, "def");
    assert!(options.auto_id);
}

#[test]
fn generated_code_by_default() {
    let options = GeneratedCodeOptions::default();
    assert_eq!(
        options,
        GeneratedCodeOptions {
            arrow_functions: false,
            const_bindings: false,
            object_shorthand: false,
            preset: GeneratedCodePreset::Es2015,
            reserved_names_as_props: true,
            symbols: false,
        }
    );
    assert_eq!(GeneratedCodePreset::default(), GeneratedCodePreset::Es2015);
    let binding = BindingGeneratedCodeOptions::default();
    assert_eq!(binding.preset.as_deref(), Some("es2015"));
    assert_eq!(binding.reserved_names_as_props, Some(true));
    assert_eq!(GeneratedCodeOptions::try_from(binding).unwrap(), options);
}

#[test]
fn generated_code_preset_from_text() {
    assert_eq!("es5".parse::<GeneratedCodePreset>(), Ok(GeneratedCodePreset::Es5));
    assert_eq!("es2015".parse::<GeneratedCodePreset>(), Ok(GeneratedCodePreset::Es2015));
    assert_eq!(
        "es6".parse::<GeneratedCodePreset>(),
        Err("Invalid GeneratedCodePreset: es6".to_string())
    );
    assert_eq!(GeneratedCodePreset::parse(""), Err("Invalid GeneratedCodePreset: ".to_string()));
    assert_eq!(GeneratedCodePreset::parse("ES5"), Err("Invalid GeneratedCodePreset: ES5".to_string()));
}

#[test]
fn generated_code_from_a_binding() {
    let options = GeneratedCodeOptions::try_from(BindingGeneratedCodeOptions {
        arrow_functions: Some(true),
        const_bindings: None,
        object_shorthand: Some(true),
        preset: Some("es5".to_string()),
        reserved_names_as_props: None,
        symbols: Some(true),
    })
    .unwrap();
    assert_eq!(
        options,
        GeneratedCodeOptions {
            arrow_functions: true,
            const_bindings: false,
            object_shorthand: true,
            preset: GeneratedCodePreset::Es5,
            reserved_names_as_props: false,
            symbols: true,
        }
    );
}

#[test]
fn generated_code_refuses_an_unknown_preset() {
    let missing = BindingGeneratedCodeOptions {
        arrow_functions: None,
        const_bindings: None,
        object_shorthand: None,
        preset: None,
        reserved_names_as_props: None,
        symbols: None,
    };
    let error = GeneratedCodeOptions::try_from(missing).err().unwrap();
    assert_eq!(error.preset, "");
    assert_eq!(error.message(), "Invalid GeneratedCodePreset: ");

    let unknown = BindingGeneratedCodeOptions {
        preset: Some("esnext".to_string()),
        ..BindingGeneratedCodeOptions::default()
    };
    let error = GeneratedCodeOptions::try_from(unknown).err().unwrap();
    assert_eq!(error.message(), "Invalid GeneratedCodePreset: esnext");
}

#[test]
fn interop_mode_from_its_name() {
    assert_eq!(InteropMode::from("compact".to_string()), InteropMode::Compat);
    assert_eq!(InteropMode::from("auto".to_string()), InteropMode::Auto);
    assert_eq!(InteropMode::from("esm".to_string()), InteropMode::EsModule);
    assert_eq!(InteropMode::from("default".to_string()), InteropMode::Default);
    assert_eq!(InteropMode::from("default-only".to_string()), InteropMode::DefaultOnly);
    assert_eq!(InteropMode::parse("compat"), None);
    assert_eq!(InteropMode::parse("es-module"), None);
    assert_eq!(InteropMode::parse(""), None);
    assert_eq!(InteropMode::parse("auto"), Some(InteropMode::Auto));
    assert_eq!(InteropMode::default(), InteropMode::Default);
}

#[test]
fn interop_helper_names() {
    assert_eq!(InteropMode::Compat.to_string(), "Compact");
    assert_eq!(InteropMode::Auto.to_string(), "");
    assert_eq!(InteropMode::EsModule.to_string(), "");
    assert_eq!(InteropMode::Default.to_string(), "Default");
    assert_eq!(InteropMode::DefaultOnly.to_string(), "DefaultOnly");
    assert_eq!(InteropMode::Compat.get_function_name(true), "_interopDefaultCompact");
    assert_eq!(InteropMode::Compat.get_function_name(false), "_interopNamespaceCompact");
    assert_eq!(InteropMode::Auto.get_function_name(true), "_interopDefault");
    assert_eq!(InteropMode::Auto.get_function_name(false), "_interopNamespace");
    assert_eq!(InteropMode::Default.get_function_name(false), "_interopNamespaceDefault");
    assert_eq!(InteropMode::DefaultOnly.get_function_name(false), "_interopNamespaceDefaultOnly");
}

#[test]
fn interop_helpers_for_the_default_export() {
    assert_eq!(
        InteropMode::Compat.get_function(true, false).unwrap(),
        "function _interopDefaultCompact (e) { return e && typeof e === 'object' && 'default' in e ? e : { default: e }; }"
    );
    assert_eq!(
        InteropMode::Auto.get_function(true, true).unwrap(),
        "function _interopDefault (e) { return e && e.__esModule ? e : { default: e }; }"
    );
    assert_eq!(InteropMode::EsModule.get_function(true, false), None);
    assert_eq!(InteropMode::Default.get_function(true, false), None);
    assert_eq!(InteropMode::DefaultOnly.get_function(true, true), None);
}

#[test]
fn interop_helpers_for_the_namespace() {
    let copy = "if (e) {Object.keys(e).forEach(function (k) {\n\tif (k !== 'default') {\n\t  var d = Object.getOwnPropertyDescriptor(e, k);\n\t\tObject.defineProperty(n, k, d.get ? d : {\n\t\t  enumerable: true,\n\t      get: function () { return e[k]; }\n\t\t});\n\t  }\n\t});\n  }\n  n.default = e;\n  return ";
    assert_eq!(InteropMode::EsModule.get_function(false, false), None);
    assert_eq!(
        InteropMode::DefaultOnly.get_function(false, false).unwrap(),
        "function _interopNamespaceDefaultOnly (e) { return Object.freeze({ __proto__: null, default: e }); }"
    );
    assert_eq!(
        InteropMode::Default.get_function(false, false).unwrap(),
        format!("function _interopNamespaceDefault (e) {{ {{{copy}n\n}}")
    );
    assert_eq!(
        InteropMode::Default.get_function(false, true).unwrap(),
        format!("function _interopNamespaceDefault (e) {{ {{{copy}Object.freeze(n)\n}}")
    );
    assert_eq!(
        InteropMode::Auto.get_function(false, false).unwrap(),
        format!("function _interopNamespace (e) {{ {{if (e && e.__esModule) return e;{copy}n\n}}")
    );
    assert_eq!(
        InteropMode::Compat.get_function(false, true).unwrap(),
        format!(
            "function _interopNamespaceCompact (e) {{ {{if (e && typeof e === 'object' && 'default' in e) return e;{copy}Object.freeze(n)\n}}"
        )
    );
}

#[test]
fn transform_output_of_a_host_hook() {
    let output = BindingHookTransformOutput {
        code: Some("code".to_string()),
        side_effects: Some(BindingHookSideEffects::NoTreeshake),
        map: Some("{}".to_string()),
    }
    .into_output(Some(7u8));
    assert_eq!(output.code.as_deref(), Some("code"));
    assert_eq!(output.map, Some(7));
    assert_eq!(output.side_effects, Some(HookSideEffects::NoTreeshake));

    let output = BindingHookTransformOutput::default().into_output::<u8>(None);
    assert_eq!(output.code, None);
    assert_eq!(output.map, None);
    assert_eq!(output.side_effects, None);

    assert_eq!(HookSideEffects::from(BindingHookSideEffects::True), HookSideEffects::True);
    assert_eq!(HookSideEffects::from(BindingHookSideEffects::False), HookSideEffects::False);
}
