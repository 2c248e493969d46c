//! How the content of a module is to be read.
use vstd::prelude::*;
use vstd::string::*;
use crate::text::str_eq;

verus! {

/// How the content of a module is to be read.
#[derive(Clone, Copy, Debug, PartialEq, Eq, Structural)]
pub enum ModuleType {
    Js,
    Jsx,
    Ts,
    Tsx,
    Json,
    Text,
    Base64,
    DataUrl,
    Binary,
    Empty,
    Css,
}

/// The module type that a known name stands for.
pub open spec fn module_type_named(s: Seq<char>) -> Option<ModuleType> {
    if s == "js"@ || s == "mjs"@ || s == "cjs"@ {
        Some(ModuleType::Js)
    } else if s == "jsx"@ {
        Some(ModuleType::Jsx)
    } else if s == "ts"@ || s == "mts"@ || s == "cts"@ {
        Some(ModuleType::Ts)
    } else if s == "tsx"@ {
        Some(ModuleType::Tsx)
    } else if s == "json"@ {
        Some(ModuleType::Json)
    } else if s == "text"@ {
        Some(ModuleType::Text)
    } else if s == "base64"@ {
        Some(ModuleType::Base64)
    } else if s == "dataurl"@ {
        Some(ModuleType::DataUrl)
    } else if s == "binary"@ {
        Some(ModuleType::Binary)
    } else if s == "empty"@ {
        Some(ModuleType::Empty)
    } else if s == "css"@ {
        Some(ModuleType::Css)
    } else {
        None
    }
}

/// What is said of a name that stands for no module type.
pub open spec fn unknown_module_type_message(s: Seq<char>) -> Seq<char> {
    "Unknown module type: "@ + s
}

impl ModuleType {
    /// The module type for a known name, most of them file extensions; any
    /// other text is refused with a message that repeats it.
    pub fn from_known_str(s: &str) -> (r: Result<ModuleType, String>)
        ensures
            match module_type_named(s@) {
                Some(t) => r == Ok::<ModuleType, String>(t),
                None => r matches Err(m) && m@ == unknown_module_type_message(s@),
            },
    {
        if str_eq(s, "js") || str_eq(s, "mjs") || str_eq(s, "cjs") {
            Ok(ModuleType::Js)
        } else if str_eq(s, "jsx") {
            Ok(ModuleType::Jsx)
        } else if str_eq(s, "ts") || str_eq(s, "mts") || str_eq(s, "cts") {
            Ok(ModuleType::Ts)
        } else if str_eq(s, "tsx") {
            Ok(ModuleType::Tsx)
        } else if str_eq(s, "json") {
            Ok(ModuleType::Json)
        } else if str_eq(s, "text") {
            Ok(ModuleType::Text)
        } else if str_eq(s, "base64") {
            Ok(ModuleType::Base64)
        } else if str_eq(s, "dataurl") {
            Ok(ModuleType::DataUrl)
        } else if str_eq(s, "binary") {
            Ok(ModuleType::Binary)
        } else if str_eq(s, "empty") {
            Ok(ModuleType::Empty)
        } else if str_eq(s, "css") {
            Ok(ModuleType::Css)
        } else {
            let mut m = String::new();
            m.append("Unknown module type: ");
            m.append(s);
            Err(m)
        }
    }
}

} // verus!
