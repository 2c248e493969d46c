//! What an emitter reports: fatal errors, which end the rendering of a chunk,
//! and warnings, which go out beside the finished asset.
use vstd::prelude::*;
use vstd::string::*;

verus! {

#[derive(Clone, Copy, Debug, PartialEq, Eq, Structural)]
pub enum Severity {
    Error,
    Warning,
}

/// What went wrong, with what a message about it has to name.
#[derive(Clone, Debug)]
pub enum DiagnosticKind {
    /// The configured output name is no identifier and `extend` is off.
    IllegalIdentifierAsName { name: String },
    /// An external module has no entry in `globals`; `guessed_name` is used.
    MissingGlobalName { module_name: String, guessed_name: String },
    /// The chunk has exports, but no output name under which to reach them.
    MissingNameOptionForIifeExport,
    /// A named or default export surface was asked of an entry module that is
    /// not an ECMAScript module.
    UnsupportedModuleShape { module_id: String },
}

/// A diagnostic kind with its strings as texts.
pub ghost enum DiagnosticKindView {
    IllegalIdentifierAsName { name: Seq<char> },
    MissingGlobalName { module_name: Seq<char>, guessed_name: Seq<char> },
    MissingNameOptionForIifeExport,
    UnsupportedModuleShape { module_id: Seq<char> },
}

impl View for DiagnosticKind {
    type V = DiagnosticKindView;

    open spec fn view(&self) -> DiagnosticKindView {
        match *self {
            DiagnosticKind::IllegalIdentifierAsName { name } => {
                DiagnosticKindView::IllegalIdentifierAsName { name: name@ }
            },
            DiagnosticKind::MissingGlobalName { module_name, guessed_name } => {
                DiagnosticKindView::MissingGlobalName {
                    module_name: module_name@,
                    guessed_name: guessed_name@,
                }
            },
            DiagnosticKind::MissingNameOptionForIifeExport => {
                DiagnosticKindView::MissingNameOptionForIifeExport
            },
            DiagnosticKind::UnsupportedModuleShape { module_id } => {
                DiagnosticKindView::UnsupportedModuleShape { module_id: module_id@ }
            },
        }
    }
}

#[derive(Clone, Debug)]
pub struct BuildDiagnostic {
    pub kind: DiagnosticKind,
    pub severity: Severity,
}

pub ghost struct BuildDiagnosticView {
    pub kind: DiagnosticKindView,
    pub severity: Severity,
}

impl View for BuildDiagnostic {
    type V = BuildDiagnosticView;

    open spec fn view(&self) -> BuildDiagnosticView {
        BuildDiagnosticView { kind: self.kind@, severity: self.severity }
    }
}

/// The views of a list of diagnostics.
pub open spec fn diagnostics(v: Seq<BuildDiagnostic>) -> Seq<BuildDiagnosticView> {
    v.map_values(|d: BuildDiagnostic| d@)
}

/// The warning for an external module without a global name.
pub open spec fn missing_global_name_warning(
    module_name: Seq<char>,
    guessed_name: Seq<char>,
) -> BuildDiagnosticView {
    BuildDiagnosticView {
        kind: DiagnosticKindView::MissingGlobalName { module_name, guessed_name },
        severity: Severity::Warning,
    }
}

/// The warning for exports that nothing outside the wrapper can reach.
pub open spec fn missing_name_warning() -> BuildDiagnosticView {
    BuildDiagnosticView {
        kind: DiagnosticKindView::MissingNameOptionForIifeExport,
        severity: Severity::Warning,
    }
}

/// The error for an output name that cannot be declared.
pub open spec fn illegal_identifier_error(name: Seq<char>) -> BuildDiagnosticView {
    BuildDiagnosticView {
        kind: DiagnosticKindView::IllegalIdentifierAsName { name },
        severity: Severity::Error,
    }
}

/// The error for an export surface asked of a module that cannot have one.
pub open spec fn unsupported_module_shape_error(module_id: Seq<char>) -> BuildDiagnosticView {
    BuildDiagnosticView {
        kind: DiagnosticKindView::UnsupportedModuleShape { module_id },
        severity: Severity::Error,
    }
}

/// The user-facing sentence of a diagnostic.
pub open spec fn message_text(kind: DiagnosticKindView) -> Seq<char> {
    match kind {
        DiagnosticKindView::IllegalIdentifierAsName { name } => {
            "Given name \""@ + name
                + "\" is not a legal JS identifier. If you need this, you can try \"output.extend: true\"."@
        },
        DiagnosticKindView::MissingGlobalName { module_name, guessed_name } => {
            "No name was provided for external module \""@ + module_name
                + "\" in \"output.globals\" \u{2013} guessing \""@ + guessed_name + "\"."@
        },
        DiagnosticKindView::MissingNameOptionForIifeExport => {
            "If you do not supply \"output.name\", you may not be able to access the exports of an IIFE bundle."@
        },
        DiagnosticKindView::UnsupportedModuleShape { module_id } => {
            "Entry module \""@ + module_id
                + "\" is not an ECMAScript module, so it has no named or default exports to emit."@
        },
    }
}

impl BuildDiagnostic {
    pub fn illegal_identifier_as_name(name: String) -> (d: BuildDiagnostic)
        ensures
            d@ == illegal_identifier_error(name@),
    {
        BuildDiagnostic {
            kind: DiagnosticKind::IllegalIdentifierAsName { name },
            severity: Severity::Error,
        }
    }

    pub fn missing_global_name(module_name: String, guessed_name: String) -> (d: BuildDiagnostic)
        ensures
            d@ == (BuildDiagnosticView {
                kind: DiagnosticKindView::MissingGlobalName {
                    module_name: module_name@,
                    guessed_name: guessed_name@,
                },
                severity: Severity::Error,
            }),
    {
        BuildDiagnostic {
            kind: DiagnosticKind::MissingGlobalName { module_name, guessed_name },
            severity: Severity::Error,
        }
    }

    pub fn missing_name_option_for_iife_export() -> (d: BuildDiagnostic)
        ensures
            d@ == (BuildDiagnosticView {
                kind: DiagnosticKindView::MissingNameOptionForIifeExport,
                severity: Severity::Error,
            }),
    {
        BuildDiagnostic {
            kind: DiagnosticKind::MissingNameOptionForIifeExport,
            severity: Severity::Error,
        }
    }

    pub fn unsupported_module_shape(module_id: String) -> (d: BuildDiagnostic)
        ensures
            d@ == unsupported_module_shape_error(module_id@),
    {
        BuildDiagnostic {
            kind: DiagnosticKind::UnsupportedModuleShape { module_id },
            severity: Severity::Error,
        }
    }

    /// The same diagnostic as a warning.
    pub fn with_severity_warning(self) -> (d: BuildDiagnostic)
        ensures
            d@ == (BuildDiagnosticView { kind: self@.kind, severity: Severity::Warning }),
    {
        BuildDiagnostic { kind: self.kind, severity: Severity::Warning }
    }

    pub fn is_warning(&self) -> (b: bool)
        ensures
            b == (self@.severity == Severity::Warning),
    {
        self.severity == Severity::Warning
    }

    /// The user-facing sentence.
    pub fn message(&self) -> (s: String)
        ensures
            s@ == message_text(self@.kind),
    {
        let mut s = String::new();
        match &self.kind {
            DiagnosticKind::IllegalIdentifierAsName { name } => {
                s.append("Given name \"");
                s.append(name.as_str());
                s.append(
                    "\" is not a legal JS identifier. If you need this, you can try \"output.extend: true\".",
                );
            },
            DiagnosticKind::MissingGlobalName { module_name, guessed_name } => {
                s.append("No name was provided for external module \"");
                s.append(module_name.as_str());
                s.append("\" in \"output.globals\" \u{2013} guessing \"");
                s.append(guessed_name.as_str());
                s.append("\".");
            },
            DiagnosticKind::MissingNameOptionForIifeExport => {
                s.append(
                    "If you do not supply \"output.name\", you may not be able to access the exports of an IIFE bundle.",
                );
            },
            DiagnosticKind::UnsupportedModuleShape { module_id } => {
                s.append("Entry module \"");
                s.append(module_id.as_str());
                s.append(
                    "\" is not an ECMAScript module, so it has no named or default exports to emit.",
                );
            },
        }
        s
    }
}

} // verus!
