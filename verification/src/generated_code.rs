//! Which language features generated code may use.
use vstd::prelude::*;
use vstd::string::*;
use crate::text::str_eq;

verus! {

#[derive(Clone, Copy, Debug, PartialEq, Eq, Structural)]
pub enum GeneratedCodePreset {
    Es5,
    Es2015,
}

impl Default for GeneratedCodePreset {
    fn default() -> (r: GeneratedCodePreset)
        ensures
            r == GeneratedCodePreset::Es2015,
    {
        GeneratedCodePreset::Es2015
    }
}

/// The preset that a text names.
pub open spec fn preset_named(s: Seq<char>) -> Option<GeneratedCodePreset> {
    if s == "es5"@ {
        Some(GeneratedCodePreset::Es5)
    } else if s == "es2015"@ {
        Some(GeneratedCodePreset::Es2015)
    } else {
        None
    }
}

/// What is said of a text that names no preset.
pub open spec fn invalid_preset_message(s: Seq<char>) -> Seq<char> {
    "Invalid GeneratedCodePreset: "@ + s
}

/// A preset name that is neither `es5` nor `es2015`.
#[derive(Debug)]
pub struct InvalidGeneratedCodePreset {
    pub preset: String,
}

impl InvalidGeneratedCodePreset {
    pub fn message(&self) -> (m: String)
        ensures
            m@ == invalid_preset_message(self.preset@),
    {
        let mut m = String::new();
        m.append("Invalid GeneratedCodePreset: ");
        m.append(self.preset.as_str());
        m
    }
}

impl GeneratedCodePreset {
    /// Reads `es5` or `es2015`; any other text is refused with a message
    /// that repeats it.
    pub fn parse(s: &str) -> (r: Result<GeneratedCodePreset, String>)
        ensures
            match preset_named(s@) {
                Some(preset) => r == Ok::<GeneratedCodePreset, String>(preset),
                None => r matches Err(m) && m@ == invalid_preset_message(s@),
            },
    {
        if str_eq(s, "es5") {
            Ok(GeneratedCodePreset::Es5)
        } else if str_eq(s, "es2015") {
            Ok(GeneratedCodePreset::Es2015)
        } else {
            let mut m = String::new();
            m.append("Invalid GeneratedCodePreset: ");
            m.append(s);
            Err(m)
        }
    }
}

impl std::str::FromStr for GeneratedCodePreset {
    type Err = String;

    fn from_str(s: &str) -> (r: Result<GeneratedCodePreset, String>)
        ensures
            match preset_named(s@) {
                Some(preset) => r == Ok::<GeneratedCodePreset, String>(preset),
                None => r matches Err(m) && m@ == invalid_preset_message(s@),
            },
    {
        GeneratedCodePreset::parse(s)
    }
}

#[derive(Clone, Copy, Debug, PartialEq, Eq, Structural)]
pub struct GeneratedCodeOptions {
    pub arrow_functions: bool,
    pub const_bindings: bool,
    pub object_shorthand: bool,
    pub preset: GeneratedCodePreset,
    pub reserved_names_as_props: bool,
    pub symbols: bool,
}

/// The options where nothing is configured.
pub open spec fn default_generated_code() -> GeneratedCodeOptions {
    GeneratedCodeOptions {
        arrow_functions: false,
        const_bindings: false,
        object_shorthand: false,
        preset: GeneratedCodePreset::Es2015,
        reserved_names_as_props: true,
        symbols: false,
    }
}

impl Default for GeneratedCodeOptions {
    fn default() -> (r: GeneratedCodeOptions)
        ensures
            r == default_generated_code(),
    {
        GeneratedCodeOptions {
            arrow_functions: false,
            const_bindings: false,
            object_shorthand: false,
            preset: GeneratedCodePreset::Es2015,
            reserved_names_as_props: true,
            symbols: false,
        }
    }
}

/// The options as a host hands them in: every field may be missing, and the
/// preset is a text.
#[derive(Debug)]
pub struct BindingGeneratedCodeOptions {
    pub arrow_functions: Option<bool>,
    pub const_bindings: Option<bool>,
    pub object_shorthand: Option<bool>,
    pub preset: Option<String>,
    pub reserved_names_as_props: Option<bool>,
    pub symbols: Option<bool>,
}

impl Default for BindingGeneratedCodeOptions {
    fn default() -> (r: BindingGeneratedCodeOptions)
        ensures
            r.arrow_functions == Some(false),
            r.const_bindings == Some(false),
            r.object_shorthand == Some(false),
            r.preset matches Some(p) && p@ == "es2015"@,
            r.reserved_names_as_props == Some(true),
            r.symbols == Some(false),
    {
        BindingGeneratedCodeOptions {
            arrow_functions: Some(false),
            const_bindings: Some(false),
            object_shorthand: Some(false),
            preset: Some("es2015".to_owned()),
            reserved_names_as_props: Some(true),
            symbols: Some(false),
        }
    }
}

/// What a missing flag counts as.
pub open spec fn set_or_false(flag: Option<bool>) -> bool {
    match flag {
        Some(b) => b,
        None => false,
    }
}

/// The text of the preset, empty where it is missing.
pub open spec fn preset_text(preset: Option<String>) -> Seq<char> {
    match preset {
        Some(p) => p@,
        None => Seq::empty(),
    }
}

/// The options that `options` stands for, or nothing where its preset names
/// none. A missing flag is off; a missing preset names none.
pub open spec fn generated_code_of(options: BindingGeneratedCodeOptions) -> Option<
    GeneratedCodeOptions,
> {
    match preset_named(preset_text(options.preset)) {
        Some(preset) => Some(
            GeneratedCodeOptions {
                arrow_functions: set_or_false(options.arrow_functions),
                const_bindings: set_or_false(options.const_bindings),
                object_shorthand: set_or_false(options.object_shorthand),
                preset,
                reserved_names_as_props: set_or_false(options.reserved_names_as_props),
                symbols: set_or_false(options.symbols),
            },
        ),
        None => None,
    }
}

/// The conversion is stated by the `ensures` of `try_from`: its error holds
/// a string, of which only the text is fixed.
impl vstd::std_specs::convert::TryFromSpecImpl<BindingGeneratedCodeOptions> for GeneratedCodeOptions {
    open spec fn obeys_try_from_spec() -> bool {
        false
    }

    open spec fn try_from_spec(options: BindingGeneratedCodeOptions) -> Result<
        GeneratedCodeOptions,
        InvalidGeneratedCodePreset,
    > {
        match generated_code_of(options) {
            Some(o) => Ok(o),
            None => Err(
                choose|e: InvalidGeneratedCodePreset| e.preset@ == preset_text(options.preset),
            ),
        }
    }
}

impl TryFrom<BindingGeneratedCodeOptions> for GeneratedCodeOptions {
    type Error = InvalidGeneratedCodePreset;

    fn try_from(options: BindingGeneratedCodeOptions) -> (r: Result<
        GeneratedCodeOptions,
        InvalidGeneratedCodePreset,
    >)
        ensures
            match generated_code_of(options) {
                Some(o) => r == Ok::<GeneratedCodeOptions, InvalidGeneratedCodePreset>(o),
                None => r matches Err(e) && e.preset@ == preset_text(options.preset),
            },
    {
        let preset = match options.preset {
            Some(p) => p,
            None => String::new(),
        };
        let parsed = if str_eq(preset.as_str(), "es5") {
            GeneratedCodePreset::Es5
        } else if str_eq(preset.as_str(), "es2015") {
            GeneratedCodePreset::Es2015
        } else {
            return Err(InvalidGeneratedCodePreset { preset });
        };
        Ok(
            GeneratedCodeOptions {
                arrow_functions: flag(options.arrow_functions),
                const_bindings: flag(options.const_bindings),
                object_shorthand: flag(options.object_shorthand),
                preset: parsed,
                reserved_names_as_props: flag(options.reserved_names_as_props),
                symbols: flag(options.symbols),
            },
        )
    }
}

/// A flag, off where it is missing.
fn flag(value: Option<bool>) -> (b: bool)
    ensures
        b == set_or_false(value),
{
    match value {
        Some(b) => b,
        None => false,
    }
}

} // verus!
