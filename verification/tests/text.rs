use rolldown::diagnostic::{BuildDiagnostic, DiagnosticKind, Severity};
use rolldown::identifier::{is_validate_assignee_identifier_name, legitimize_identifier_name};
use rolldown::text::{chars_of, contains_char, first_char, join, split, str_eq};

fn strings(parts: &[&str]) -> Vec<String> {
    parts.iter().map(|p| p.to_string()).collect()
}

#[test]
fn split_at_a_character() {
    assert_eq!(split("a.b.c", '.'), vec!["a", "b", "c"]);
    assert_eq!(split("abc", '.'), vec!["abc"]);
    assert_eq!(split("", '.'), vec![""]);
    assert_eq!(split(".", '.'), vec!["", ""]);
    assert_eq!(split("a..b.", '.'), vec!["a", "", "b", ""]);
    assert_eq!(split("ä.ö", '.'), vec!["ä", "ö"]);
    for text in ["a.b.c", "", ".", "a..b.", "no dots"] {
        let expected: Vec<&str> = text.split('.').collect();
        assert_eq!(split(text, '.'), expected);
        assert_eq!(join(&split(text, '.'), "."), text);
    }
}

#[test]
fn join_with_a_separator() {
    assert_eq!(join(&strings(&["a", "b", "c"]), ", "), "a, b, c");
    assert_eq!(join(&strings(&["a"]), ", "), "a");
    assert_eq!(join(&strings(&[]), ", "), "");
    assert_eq!(join(&strings(&["", ""]), "-"), "-");
}

#[test]
fn characters_of_a_text() {
    assert_eq!(chars_of("aé𐀀"), vec!['a', 'é', '𐀀']);
    assert!(chars_of("").is_empty());
    assert_eq!(first_char("é1"), Some('é'));
    assert_eq!(first_char(""), None);
    assert!(contains_char("a.b", '.'));
    assert!(!contains_char("ab", '.'));
    assert!(!contains_char("", '.'));
    assert!(str_eq("abc", "abc"));
    assert!(!str_eq("abc", "abd"));
    assert!(!str_eq("abc", "ab"));
    assert!(str_eq("", ""));
}

#[test]
fn names_that_may_stand_bare() {
    for name in ["a", "_", "$", "a1", "toString", "constructor", "µ", "ख", "async", "of", "A\u{200d}"] {
        assert!(is_validate_assignee_identifier_name(name), "{name}");
    }
    for name in [
        "", "1", "1a", "a-b", "a.b", "a b", "if", "class", "default", "let", "static", "await",
        "yield", "this", "null", "true", "undefined", "NaN", "Infinity", "globalThis", "£",
        "\u{200d}a",
    ] {
        assert!(!is_validate_assignee_identifier_name(name), "{name}");
    }
}

#[test]
fn any_text_becomes_an_identifier() {
    assert_eq!(legitimize_identifier_name("foo"), "foo");
    assert_eq!(legitimize_identifier_name("$foo$"), "$foo$");
    assert_eq!(legitimize_identifier_name("react-dom"), "react_dom");
    assert_eq!(legitimize_identifier_name("111a"), "_11a");
    assert_eq!(legitimize_identifier_name("@scope/pkg.js"), "_scope_pkg_js");
    assert_eq!(legitimize_identifier_name("node:fs"), "node_fs");
    assert_eq!(legitimize_identifier_name(""), "");
    assert_eq!(legitimize_identifier_name("-"), "_");
    assert_eq!(legitimize_identifier_name("a£b"), "a_b");
    assert_eq!(legitimize_identifier_name("µख"), "µख");
    for name in ["react-dom", "111a", "@scope/pkg", "a b c"] {
        let once = legitimize_identifier_name(name);
        assert_eq!(once.chars().count(), name.chars().count());
        assert_eq!(legitimize_identifier_name(&once), once);
    }
}

#[test]
fn diagnostics_and_their_severity() {
    let error = BuildDiagnostic::missing_global_name("jquery".to_string(), "jquery".to_string());
    assert_eq!(error.severity, Severity::Error);
    let warning = error.with_severity_warning();
    assert_eq!(warning.severity, Severity::Warning);
    assert!(matches!(
        &warning.kind,
        DiagnosticKind::MissingGlobalName { module_name, guessed_name }
            if module_name == "jquery" && guessed_name == "jquery"
    ));
    assert!(!BuildDiagnostic::illegal_identifier_as_name("1".to_string()).is_warning());
    assert!(!BuildDiagnostic::unsupported_module_shape("m".to_string()).is_warning());
    assert!(!BuildDiagnostic::missing_name_option_for_iife_export().is_warning());
}
