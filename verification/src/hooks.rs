//! What hooks of plugins hand back, as far as the loaders read it.
use vstd::prelude::*;
use vstd::string::*;
use vstd::std_specs::convert::FromSpec;
use crate::module_type::ModuleType;

verus! {

/// What a hook says of a module's side effects.
#[derive(Clone, Copy, Debug, PartialEq, Eq, Structural)]
pub enum HookSideEffects {
    True,
    False,
    NoTreeshake,
}

/// The same, as a host hands it in.
#[derive(Clone, Copy, Debug, PartialEq, Eq, Structural)]
pub enum BindingHookSideEffects {
    True,
    False,
    NoTreeshake,
}

impl vstd::std_specs::convert::FromSpecImpl<BindingHookSideEffects> for HookSideEffects {
    open spec fn obeys_from_spec() -> bool {
        true
    }

    open spec fn from_spec(value: BindingHookSideEffects) -> HookSideEffects {
        match value {
            BindingHookSideEffects::True => HookSideEffects::True,
            BindingHookSideEffects::False => HookSideEffects::False,
            BindingHookSideEffects::NoTreeshake => HookSideEffects::NoTreeshake,
        }
    }
}

impl From<BindingHookSideEffects> for HookSideEffects {
    fn from(value: BindingHookSideEffects) -> (r: HookSideEffects) {
        match value {
            BindingHookSideEffects::True => HookSideEffects::True,
            BindingHookSideEffects::False => HookSideEffects::False,
            BindingHookSideEffects::NoTreeshake => HookSideEffects::NoTreeshake,
        }
    }
}

/// What a `load` hook gives: the module's source, and what it knows of its
/// source map, side effects and type.
#[derive(Debug)]
pub struct HookLoadOutput<M> {
    pub code: String,
    pub map: Option<M>,
    pub side_effects: Option<HookSideEffects>,
    pub module_type: Option<ModuleType>,
}

/// What a `transform` hook gives.
#[derive(Debug)]
pub struct HookTransformOutput<M> {
    pub code: Option<String>,
    pub map: Option<M>,
    pub side_effects: Option<HookSideEffects>,
}

/// What a `transform` hook of the host gives; its source map is still the
/// text that the host wrote.
#[derive(Debug)]
pub struct BindingHookTransformOutput {
    pub code: Option<String>,
    pub side_effects: Option<BindingHookSideEffects>,
    pub map: Option<String>,
}

impl Default for BindingHookTransformOutput {
    fn default() -> (r: BindingHookTransformOutput)
        ensures
            r.code is None,
            r.side_effects is None,
            r.map is None,
    {
        BindingHookTransformOutput { code: None, side_effects: None, map: None }
    }
}

/// The side effects of a host's hook as the bundler names them.
pub open spec fn side_effects_of(value: Option<BindingHookSideEffects>) -> Option<
    HookSideEffects,
> {
    match value {
        Some(s) => Some(HookSideEffects::from_spec(s)),
        None => None,
    }
}

impl BindingHookTransformOutput {
    /// The output with `map` in the place of the host's source map text:
    /// the code and the side effects are carried over.
    pub fn into_output<M>(self, map: Option<M>) -> (r: HookTransformOutput<M>)
        ensures
            r.code == self.code,
            r.map == map,
            r.side_effects == side_effects_of(self.side_effects),
    {
        HookTransformOutput {
            code: self.code,
            map,
            side_effects: match self.side_effects {
                Some(s) => Some(HookSideEffects::from(s)),
                None => None,
            },
        }
    }
}

} // verus!
