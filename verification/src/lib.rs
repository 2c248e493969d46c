//! Renders the chunks of a bundle into the text of the emitted files, in
//! the module format that the output asks for.

pub mod amd_options;
pub mod base64_to_esm;
pub mod binary_template;
pub mod binary_to_esm;
pub mod context;
pub mod diagnostic;
pub mod exports;
pub mod format;
pub mod generated_code;
pub mod generator;
pub mod hooks;
pub mod http_resolve;
pub mod identifier;
pub mod interop;
pub mod interop_mode;
pub mod load_source;
pub mod mime;
pub mod module_type;
pub mod namespace;
pub mod options;
pub mod source;
pub mod source_paths;
pub mod text;
pub mod wrapper;
