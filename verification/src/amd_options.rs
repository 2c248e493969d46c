//! The options of the AMD format.
use vstd::prelude::*;
use vstd::string::*;

verus! {

#[derive(Debug)]
pub struct AmdOptions {
    pub id: String,
    pub define: String,
    pub auto_id: bool,
    pub base_path: String,
    pub force_js_extension_for_imports: bool,
}

/// AMD options with their strings as texts.
pub ghost struct AmdOptionsView {
    pub id: Seq<char>,
    pub define: Seq<char>,
    pub auto_id: bool,
    pub base_path: Seq<char>,
    pub force_js_extension_for_imports: bool,
}

impl View for AmdOptions {
    type V = AmdOptionsView;

    open spec fn view(&self) -> AmdOptionsView {
        AmdOptionsView {
            id: self.id@,
            define: self.define@,
            auto_id: self.auto_id,
            base_path: self.base_path@,
            force_js_extension_for_imports: self.force_js_extension_for_imports,
        }
    }
}

/// The options where nothing is configured: no id, `define` as the
/// function's name, no base path.
pub open spec fn default_amd_options() -> AmdOptionsView {
    AmdOptionsView {
        id: Seq::empty(),
        define: "define"@,
        auto_id: false,
        base_path: Seq::empty(),
        force_js_extension_for_imports: false,
    }
}

impl Default for AmdOptions {
    fn default() -> (r: AmdOptions)
        ensures
            r@ == default_amd_options(),
    {
        AmdOptions {
            id: String::new(),
            define: "define".to_owned(),
            auto_id: false,
            base_path: String::new(),
            force_js_extension_for_imports: false,
        }
    }
}

/// The AMD options as a host hands them in: every field may be missing.
#[derive(Debug)]
pub struct BindingAmdOptions {
    pub id: Option<String>,
    pub define: Option<String>,
    pub auto_id: Option<bool>,
    pub base_path: Option<String>,
    pub force_js_extension_for_imports: Option<bool>,
}

/// The text of an optional string, or `otherwise` where it is missing.
pub open spec fn text_or(text: Option<String>, otherwise: Seq<char>) -> Seq<char> {
    match text {
        Some(t) => t@,
        None => otherwise,
    }
}

/// What a missing flag counts as.
pub open spec fn flag_or_false(flag: Option<bool>) -> bool {
    match flag {
        Some(b) => b,
        None => false,
    }
}

/// The options that `value` stands for. A missing id is `main` where ids
/// are given automatically, and empty otherwise.
pub open spec fn amd_options_of(value: BindingAmdOptions) -> AmdOptionsView {
    AmdOptionsView {
        id: text_or(
            value.id,
            if flag_or_false(value.auto_id) {
                "main"@
            } else {
                Seq::empty()
            },
        ),
        define: text_or(value.define, "define"@),
        auto_id: flag_or_false(value.auto_id),
        base_path: text_or(value.base_path, Seq::empty()),
        force_js_extension_for_imports: flag_or_false(value.force_js_extension_for_imports),
    }
}

impl Default for BindingAmdOptions {
    fn default() -> (r: BindingAmdOptions)
        ensures
            r.id is None,
            r.define is None,
            r.auto_id is None,
            r.base_path is None,
            r.force_js_extension_for_imports is None,
    {
        BindingAmdOptions {
            id: None,
            define: None,
            auto_id: None,
            base_path: None,
            force_js_extension_for_imports: None,
        }
    }
}

/// The conversion is stated over views, by the `ensures` of `from`: two
/// strings with one text need not be one value, so no function on values
/// describes it.
impl vstd::std_specs::convert::FromSpecImpl<BindingAmdOptions> for AmdOptions {
    open spec fn obeys_from_spec() -> bool {
        false
    }

    open spec fn from_spec(value: BindingAmdOptions) -> AmdOptions {
        choose|r: AmdOptions| r@ == amd_options_of(value)
    }
}

impl From<BindingAmdOptions> for AmdOptions {
    fn from(value: BindingAmdOptions) -> (r: AmdOptions)
        ensures
            r@ == amd_options_of(value),
    {
        let auto_id = match value.auto_id {
            Some(b) => b,
            None => false,
        };
        AmdOptions {
            id: match value.id {
                Some(id) => id,
                None => if auto_id {
                    "main".to_owned()
                } else {
                    String::new()
                },
            },
            define: match value.define {
                Some(define) => define,
                None => "define".to_owned(),
            },
            auto_id,
            base_path: match value.base_path {
                Some(path) => path,
                None => String::new(),
            },
            force_js_extension_for_imports: match value.force_js_extension_for_imports {
                Some(b) => b,
                None => false,
            },
        }
    }
}

} // verus!
