//! How the default export and the namespace of a module outside the bundle
//! are read, and the helper functions that do the reading.
use vstd::pervasive::unreached;
use vstd::prelude::*;
use vstd::string::*;
use crate::text::str_eq;

verus! {

#[derive(Clone, Copy, Debug, PartialEq, Eq, Structural)]
pub enum InteropMode {
    Compat,
    Auto,
    EsModule,
    Default,
    DefaultOnly,
}

impl Default for InteropMode {
    fn default() -> (r: InteropMode)
        ensures
            r == InteropMode::Default,
    {
        InteropMode::Default
    }
}

/// The mode that a text of the configuration names.
pub open spec fn mode_named(s: Seq<char>) -> Option<InteropMode> {
    if s == "compact"@ {
        Some(InteropMode::Compat)
    } else if s == "auto"@ {
        Some(InteropMode::Auto)
    } else if s == "esm"@ {
        Some(InteropMode::EsModule)
    } else if s == "default"@ {
        Some(InteropMode::Default)
    } else if s == "default-only"@ {
        Some(InteropMode::DefaultOnly)
    } else {
        None
    }
}

/// The part of a helper's name that tells the mode.
pub open spec fn mode_suffix(mode: InteropMode) -> Seq<char> {
    match mode {
        InteropMode::Compat => "Compact"@,
        InteropMode::Auto | InteropMode::EsModule => Seq::empty(),
        InteropMode::Default => "Default"@,
        InteropMode::DefaultOnly => "DefaultOnly"@,
    }
}

/// The name of the helper that reads the default export, or the namespace.
pub open spec fn helper_name(mode: InteropMode, default: bool) -> Seq<char> {
    "_interop"@ + (if default {
        "Default"@
    } else {
        "Namespace"@
    }) + mode_suffix(mode)
}

/// `function <name> (e) {`
pub open spec fn helper_head(mode: InteropMode, default: bool) -> Seq<char> {
    "function "@ + helper_name(mode, default) + " (e) {"@
}

/// The test by which a namespace helper hands a value back as it is.
pub open spec fn namespace_introduction(mode: InteropMode) -> Seq<char> {
    match mode {
        InteropMode::Compat => "if (e && typeof e === 'object' && 'default' in e) return e;"@,
        InteropMode::Auto => "if (e && e.__esModule) return e;"@,
        _ => Seq::empty(),
    }
}

/// The namespace helper that copies the keys of `e` onto `n`.
pub open spec fn namespace_helper(mode: InteropMode, freeze: bool) -> Seq<char> {
    helper_head(mode, false) + " {"@ + namespace_introduction(mode)
        + "if (e) {Object.keys(e).forEach(function (k) {\n\tif (k !== 'default') {\n\t  var d = Object.getOwnPropertyDescriptor(e, k);\n\t\tObject.defineProperty(n, k, d.get ? d : {\n\t\t  enumerable: true,\n\t      get: function () { return e[k]; }\n\t\t});\n\t  }\n\t});\n  }\n  n.default = e;\n  return "@
        + (if freeze {
        "Object.freeze(n)"@
    } else {
        "n"@
    }) + "\n}"@
}

/// The helper function for `mode`, or nothing where the mode needs none.
pub open spec fn helper_function(mode: InteropMode, is_default: bool, freeze: bool) -> Option<
    Seq<char>,
> {
    match mode {
        InteropMode::EsModule => None,
        InteropMode::Default => if is_default {
            None
        } else {
            Some(namespace_helper(mode, freeze))
        },
        InteropMode::DefaultOnly => if is_default {
            None
        } else {
            Some(
                helper_head(mode, false)
                    + " return Object.freeze({ __proto__: null, default: e }); }"@,
            )
        },
        InteropMode::Compat => if is_default {
            Some(
                helper_head(mode, true)
                    + " return e && typeof e === 'object' && 'default' in e ? e : { default: e }; }"@,
            )
        } else {
            Some(namespace_helper(mode, freeze))
        },
        InteropMode::Auto => if is_default {
            Some(helper_head(mode, true) + " return e && e.__esModule ? e : { default: e }; }"@)
        } else {
            Some(namespace_helper(mode, freeze))
        },
    }
}

impl InteropMode {
    /// The mode that `s` names, if it names one.
    pub fn parse(s: &str) -> (r: Option<InteropMode>)
        ensures
            r == mode_named(s@),
    {
        if str_eq(s, "compact") {
            Some(InteropMode::Compat)
        } else if str_eq(s, "auto") {
            Some(InteropMode::Auto)
        } else if str_eq(s, "esm") {
            Some(InteropMode::EsModule)
        } else if str_eq(s, "default") {
            Some(InteropMode::Default)
        } else if str_eq(s, "default-only") {
            Some(InteropMode::DefaultOnly)
        } else {
            None
        }
    }

    /// The mode that `s` names. Only the five names of modes are taken.
    pub fn from(s: String) -> (r: InteropMode)
        requires
            mode_named(s@) is Some,
        ensures
            Some(r) == mode_named(s@),
    {
        match InteropMode::parse(s.as_str()) {
            Some(mode) => mode,
            None => unreached(),
        }
    }

    /// The part of a helper's name that tells the mode.
    pub fn to_string(&self) -> (s: String)
        ensures
            s@ == mode_suffix(*self),
    {
        match self {
            InteropMode::Compat => "Compact".to_owned(),
            InteropMode::Auto | InteropMode::EsModule => String::new(),
            InteropMode::Default => "Default".to_owned(),
            InteropMode::DefaultOnly => "DefaultOnly".to_owned(),
        }
    }

    /// `_interopDefault` or `_interopNamespace`, then the mode's suffix.
    pub fn get_function_name(&self, default: bool) -> (name: String)
        ensures
            name@ == helper_name(*self, default),
    {
        let mut name = String::new();
        name.append("_interop");
        if default {
            name.append("Default");
        } else {
            name.append("Namespace");
        }
        name.append(self.to_string().as_str());
        name
    }

    /// The source of the helper function, or nothing where the mode reads
    /// the module without one.
    pub fn get_function(&self, is_default: bool, freeze: bool) -> (r: Option<String>)
        ensures
            match helper_function(*self, is_default, freeze) {
                Some(text) => r matches Some(s) && s@ == text,
                None => r is None,
            },
    {
        let mut s = String::new();
        s.append("function ");
        s.append(self.get_function_name(is_default).as_str());
        s.append(" (e) {");
        if is_default {
            match self {
                InteropMode::Compat => {
                    s.append(
                        " return e && typeof e === 'object' && 'default' in e ? e : { default: e }; }",
                    );
                    Some(s)
                },
                InteropMode::Auto => {
                    s.append(" return e && e.__esModule ? e : { default: e }; }");
                    Some(s)
                },
                _ => None,
            }
        } else {
            match self {
                InteropMode::EsModule => None,
                InteropMode::DefaultOnly => {
                    s.append(" return Object.freeze({ __proto__: null, default: e }); }");
                    Some(s)
                },
                _ => {
                    s.append(" {");
                    match self {
                        InteropMode::Compat => {
                            s.append("if (e && typeof e === 'object' && 'default' in e) return e;");
                        },
                        InteropMode::Auto => {
                            s.append("if (e && e.__esModule) return e;");
                        },
                        _ => {},
                    }
                    s.append(
                        "if (e) {Object.keys(e).forEach(function (k) {\n\tif (k !== 'default') {\n\t  var d = Object.getOwnPropertyDescriptor(e, k);\n\t\tObject.defineProperty(n, k, d.get ? d : {\n\t\t  enumerable: true,\n\t      get: function () { return e[k]; }\n\t\t});\n\t  }\n\t});\n  }\n  n.default = e;\n  return ",
                    );
                    if freeze {
                        s.append("Object.freeze(n)");
                    } else {
                        s.append("n");
                    }
                    s.append("\n}");
                    Some(s)
                },
            }
        }
    }
}

} // verus!
