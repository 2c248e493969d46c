//! The output options that the emitters read.
use vstd::prelude::*;

verus! {

/// The module format of the emitted file.
#[derive(Clone, Copy, Debug, PartialEq, Eq, Structural)]
pub enum OutputFormat {
    Esm,
    Cjs,
    App,
    Iife,
    Amd,
}

/// The shape of a chunk's public surface. `Auto` is a setting only: an emitter
/// works with one of the other three.
#[derive(Clone, Copy, Debug, PartialEq, Eq, Structural)]
pub enum OutputExports {
    Auto,
    Named,
    Default,
    NoExports,
}

/// When the `__esModule` marker is written.
#[derive(Clone, Copy, Debug, PartialEq, Eq, Structural)]
pub enum EsModuleFlag {
    Always,
    Never,
    IfDefaultProp,
}

/// One entry of the `globals` option: the global variable that stands for an
/// external module in a wrapper format.
#[derive(Clone, Debug)]
pub struct GlobalName {
    pub specifier: String,
    pub global: String,
}

#[derive(Clone, Debug)]
pub struct OutputOptions {
    pub format: OutputFormat,
    pub exports: OutputExports,
    pub name: Option<String>,
    pub extend: bool,
    pub globals: Vec<GlobalName>,
    pub es_module: EsModuleFlag,
}

} // verus!
