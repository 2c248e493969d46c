//! What an emitter is given: the chunk, the output of linking as far as
//! rendering reads it, the options, and the list of warnings it adds to.
use vstd::prelude::*;
use vstd::string::*;
use crate::diagnostic::BuildDiagnostic;
use crate::options::{GlobalName, OutputFormat, OutputOptions};
use crate::text::str_eq;

verus! {

/// Whether a module's exports are those of an ECMAScript module, of a
/// CommonJS module, or could not be told.
#[derive(Clone, Copy, Debug, PartialEq, Eq, Structural)]
pub enum ExportsKind {
    Esm,
    CommonJs,
    Ambiguous,
}

/// Whether a module's body was moved into an initializer function, and of
/// which kind.
#[derive(Clone, Copy, Debug, PartialEq, Eq, Structural)]
pub enum WrapKind {
    Unwrapped,
    Cjs,
    Esm,
}

#[derive(Clone, Debug)]
pub struct EcmaModule {
    pub id: String,
    pub stable_id: String,
    pub exports_kind: ExportsKind,
    pub contains_use_strict: bool,
}

#[derive(Clone, Debug)]
pub struct ExternalModule {
    pub name: String,
}

#[derive(Clone, Debug)]
pub enum Module {
    Ecma(EcmaModule),
    External(ExternalModule),
}

impl Module {
    /// The name under which the module is written in emitted code.
    pub open spec fn spec_stable_id(&self) -> Seq<char> {
        match *self {
            Module::Ecma(m) => m.stable_id@,
            Module::External(m) => m.name@,
        }
    }

    pub fn stable_id(&self) -> (id: &str)
        ensures
            id@ == self.spec_stable_id(),
    {
        match self {
            Module::Ecma(m) => m.stable_id.as_str(),
            Module::External(m) => m.name.as_str(),
        }
    }

    /// A module that runs in strict mode whatever stands around it.
    pub open spec fn is_strict(&self) -> bool {
        match *self {
            Module::Ecma(m) => m.exports_kind == ExportsKind::Esm || m.contains_use_strict,
            Module::External(_) => true,
        }
    }
}

/// One exported name with the symbol behind it.
#[derive(Clone, Debug)]
pub struct ExportItem {
    pub exported_name: String,
    pub symbol: usize,
}

/// A namespace binding that `export *` from a module needs at run time.
#[derive(Clone, Copy, Debug)]
pub struct StarExportBinding {
    pub importee: usize,
    pub binding: usize,
}

/// What linking found out about one module.
#[derive(Clone, Debug)]
pub struct LinkingMetadata {
    pub wrap_kind: WrapKind,
    pub wrapper_ref: Option<usize>,
    pub require_bindings_for_star_exports: Vec<StarExportBinding>,
    pub resolved_exports: Vec<ExportItem>,
}

/// The output of linking, read-only while chunks are rendered. `modules` and
/// `metas` are indexed by module; `to_esm` is the interop helper's symbol.
#[derive(Clone, Debug)]
pub struct LinkOutput {
    pub modules: Vec<Module>,
    pub metas: Vec<LinkingMetadata>,
    pub runtime: usize,
    pub to_esm: usize,
}

#[derive(Clone, Copy, Debug, PartialEq, Eq, Structural)]
pub enum ChunkKind {
    EntryPoint { module: usize },
    Common,
}

/// An import of bindings from another emitted chunk.
#[derive(Clone, Debug)]
pub struct ChunkImport {
    pub binding_name: String,
    pub import_path: String,
}

#[derive(Clone, Debug)]
pub struct RenderImportSpecifier {
    pub imported: String,
    pub alias: Option<String>,
}

/// What an import statement brings in: named bindings, or the whole
/// namespace under one name.
#[derive(Clone, Debug)]
pub enum RenderImportDeclarationSpecifier {
    ImportSpecifier(Vec<RenderImportSpecifier>),
    ImportStarSpecifier(String),
}

/// One import edge of a chunk. `needs_interop` says that the imported
/// module's shape calls for the interop helper around `require`.
#[derive(Clone, Debug)]
pub struct RenderImportStmt {
    pub path: String,
    pub is_external: bool,
    pub needs_interop: bool,
    pub specifiers: RenderImportDeclarationSpecifier,
}

/// The modules of one output file, in the order in which they are emitted.
/// `canonical_names` is indexed by symbol.
#[derive(Clone, Debug)]
pub struct Chunk {
    pub kind: ChunkKind,
    pub modules: Vec<usize>,
    pub canonical_names: Vec<String>,
    pub imports_from_other_chunks: Vec<ChunkImport>,
    pub import_stmts: Vec<RenderImportStmt>,
    pub exports_to_other_chunks: Vec<ExportItem>,
    pub preliminary_filename: Option<String>,
}

#[derive(Clone, Debug)]
pub struct GenerateContext {
    pub options: OutputOptions,
    pub chunk_idx: usize,
    pub chunk: Chunk,
    pub link_output: LinkOutput,
    pub warnings: Vec<BuildDiagnostic>,
}

/// One module's rendered body: its fragments, or nothing where the module
/// leaves no code behind.
#[derive(Clone, Debug)]
pub struct RenderedModuleSource {
    pub idx: usize,
    pub id: String,
    pub sources: Option<Vec<String>>,
}

/// A rendered module with its strings as texts.
pub ghost struct RenderedModuleView {
    pub idx: usize,
    pub id: Seq<char>,
    pub sources: Option<Seq<Seq<char>>>,
}

impl View for RenderedModuleSource {
    type V = RenderedModuleView;

    open spec fn view(&self) -> RenderedModuleView {
        RenderedModuleView {
            idx: self.idx,
            id: self.id@,
            sources: match self.sources {
                Some(sources) => Some(sources@.map_values(|s: String| s@)),
                None => None,
            },
        }
    }
}

/// Whether every symbol of `items` has a canonical name among `names`.
pub open spec fn items_named(items: Seq<ExportItem>, names: int) -> bool {
    forall|i: int| 0 <= i < items.len() ==> (#[trigger] items[i]).symbol < names
}

/// Whether a star export's binding has its module and its name.
pub open spec fn binding_fits(binding: StarExportBinding, names: int, modules: int) -> bool {
    binding.importee < modules && binding.binding < names
}

/// Whether every star export's binding has its module and its name.
pub open spec fn bindings_fit(bindings: Seq<StarExportBinding>, names: int, modules: int) -> bool {
    forall|k: int| 0 <= k < bindings.len() ==> binding_fits(#[trigger] bindings[k], names, modules)
}

/// Whether an import statement binds anything from an external module.
pub open spec fn binds_external(stmt: RenderImportStmt) -> bool {
    stmt.is_external && match stmt.specifiers {
        RenderImportDeclarationSpecifier::ImportSpecifier(specifiers) => specifiers@.len() > 0,
        RenderImportDeclarationSpecifier::ImportStarSpecifier(_) => true,
    }
}

/// Whether the binding of an import goes through the interop helper where
/// the chunk is written as CommonJS.
pub open spec fn calls_helper(stmt: RenderImportStmt) -> bool {
    binds_external(stmt) && stmt.needs_interop
}

/// Whether no specifier has two entries among `globals`.
pub open spec fn distinct_globals(globals: Seq<GlobalName>) -> bool {
    forall|i: int, j: int|
        0 <= i < j < globals.len() ==> (#[trigger] globals[i]).specifier@ != (
        #[trigger] globals[j]).specifier@
}

/// Whether every symbol of `items` has a canonical name among `names`.
fn items_are_named(items: &Vec<ExportItem>, names: usize) -> (b: bool)
    ensures
        b == items_named(items@, names as int),
{
    let mut i: usize = 0;
    while i < items.len()
        invariant
            i <= items.len(),
            forall|k: int| 0 <= k < i ==> (#[trigger] items@[k]).symbol < names,
        decreases items.len() - i,
    {
        if items[i].symbol >= names {
            return false;
        }
        i += 1;
    }
    true
}

/// Whether every star export's binding has its module and its name.
fn bindings_are_fit(bindings: &Vec<StarExportBinding>, names: usize, modules: usize) -> (b: bool)
    ensures
        b == bindings_fit(bindings@, names as int, modules as int),
{
    let mut i: usize = 0;
    while i < bindings.len()
        invariant
            i <= bindings.len(),
            forall|k: int|
                0 <= k < i ==> binding_fits(#[trigger] bindings@[k], names as int, modules as int),
        decreases bindings.len() - i,
    {
        if bindings[i].importee >= modules || bindings[i].binding >= names {
            assert(!binding_fits(bindings@[i as int], names as int, modules as int));
            return false;
        }
        i += 1;
    }
    true
}

/// Whether one of `stmts` binds through the interop helper.
fn any_calls_helper(stmts: &Vec<RenderImportStmt>) -> (b: bool)
    ensures
        b == exists|k: int| 0 <= k < stmts@.len() && calls_helper(#[trigger] stmts@[k]),
{
    let mut i: usize = 0;
    while i < stmts.len()
        invariant
            i <= stmts.len(),
            forall|k: int| 0 <= k < i ==> !calls_helper(#[trigger] stmts@[k]),
        decreases stmts.len() - i,
    {
        let stmt = &stmts[i];
        let binds = stmt.is_external && match &stmt.specifiers {
            RenderImportDeclarationSpecifier::ImportSpecifier(specifiers) => specifiers.len() > 0,
            RenderImportDeclarationSpecifier::ImportStarSpecifier(_) => true,
        };
        if binds && stmt.needs_interop {
            assert(calls_helper(stmts@[i as int]));
            return true;
        }
        i += 1;
    }
    false
}

/// Whether no specifier has two entries among `globals`.
fn globals_are_distinct(globals: &Vec<GlobalName>) -> (b: bool)
    ensures
        b == distinct_globals(globals@),
{
    let mut j: usize = 0;
    while j < globals.len()
        invariant
            j <= globals.len(),
            forall|a: int, b: int|
                0 <= a < b < j ==> (#[trigger] globals@[a]).specifier@ != (
                #[trigger] globals@[b]).specifier@,
        decreases globals.len() - j,
    {
        let mut i: usize = 0;
        while i < j
            invariant
                i <= j < globals.len(),
                forall|a: int|
                    0 <= a < i ==> (#[trigger] globals@[a]).specifier@ != globals@[j as int].specifier@,
            decreases j - i,
        {
            if str_eq(globals[i].specifier.as_str(), globals[j].specifier.as_str()) {
                assert(globals@[i as int].specifier@ == globals@[j as int].specifier@);
                return false;
            }
            i += 1;
        }
        j += 1;
    }
    true
}

impl GenerateContext {
    /// The entry module's index, for an entry chunk.
    pub open spec fn entry(&self) -> Option<usize> {
        match self.chunk.kind {
            ChunkKind::EntryPoint { module } => Some(module),
            ChunkKind::Common => None,
        }
    }

    pub open spec fn is_cjs(&self) -> bool {
        self.options.format == OutputFormat::Cjs
    }

    /// How many canonical names the chunk has.
    pub open spec fn names(&self) -> int {
        self.chunk.canonical_names@.len() as int
    }

    /// The exports at the chunk's surface: the entry module's, or for a
    /// common chunk what other chunks import from it.
    pub open spec fn export_items(&self) -> Seq<ExportItem> {
        match self.chunk.kind {
            ChunkKind::EntryPoint { module } => {
                self.link_output.metas@[module as int].resolved_exports@
            },
            ChunkKind::Common => self.chunk.exports_to_other_chunks@,
        }
    }

    /// The entry module, where the chunk has one and it is an ECMAScript
    /// module in the bundle.
    pub open spec fn entry_module(&self) -> Option<EcmaModule> {
        match self.chunk.kind {
            ChunkKind::EntryPoint { module } => match self.link_output.modules@[module as int] {
                Module::Ecma(m) => Some(m),
                Module::External(_) => None,
            },
            ChunkKind::Common => None,
        }
    }

    /// Whether the entry module's exports are those of an ECMAScript module.
    pub open spec fn entry_is_esm(&self) -> bool {
        self.entry_module() matches Some(m) && m.exports_kind == ExportsKind::Esm
    }

    /// Whether one of the chunk's imports binds through the interop helper.
    pub open spec fn calls_helper(&self) -> bool {
        exists|k: int|
            0 <= k < self.chunk.import_stmts@.len() && calls_helper(
                #[trigger] self.chunk.import_stmts@[k],
            )
    }

    /// What the CommonJS emitter reads beyond the others, is there: the
    /// name of the interop helper where an import binds through it, the
    /// initializer of an entry that was wrapped, and, for an entry that is
    /// an ECMAScript module, the module and the name of each star export's
    /// binding.
    pub open spec fn cjs_fits(&self) -> bool {
        let modules = self.link_output.modules@.len() as int;
        &&& self.calls_helper() ==> self.link_output.to_esm < self.names()
        &&& self.entry() matches Some(e) ==> {
            let meta = self.link_output.metas@[e as int];
            &&& meta.wrap_kind != WrapKind::Unwrapped ==> (meta.wrapper_ref matches Some(w) && w
                < self.names())
            &&& self.entry_is_esm() ==> bindings_fit(
                meta.require_bindings_for_star_exports@,
                self.names(),
                modules,
            )
        }
    }

    /// The chunk, the link output and the options fit together as far as
    /// rendering reads them: the chunk's modules and its entry are in the
    /// tables, every export at the chunk's surface has a canonical name, no
    /// external module has two globals, and where the format is CommonJS
    /// what that emitter reads is there.
    pub open spec fn wf(&self) -> bool {
        let modules = self.link_output.modules@.len();
        &&& forall|i: int|
            0 <= i < self.chunk.modules@.len() ==> (#[trigger] self.chunk.modules@[i]) < modules
        &&& (self.entry() matches Some(e) ==> e < modules && e < self.link_output.metas@.len())
        &&& items_named(self.export_items(), self.names())
        &&& distinct_globals(self.options.globals@)
        &&& (self.is_cjs() ==> self.cjs_fits())
    }

    /// Tests what the CommonJS emitter reads beyond the others.
    pub fn fits_cjs(&self) -> (b: bool)
        requires
            self.entry() matches Some(e) ==> e < self.link_output.modules@.len() && e
                < self.link_output.metas@.len(),
        ensures
            b == self.cjs_fits(),
    {
        let names = self.chunk.canonical_names.len();
        if any_calls_helper(&self.chunk.import_stmts) && self.link_output.to_esm >= names {
            return false;
        }
        match self.chunk.kind {
            ChunkKind::EntryPoint { module } => {
                let meta = &self.link_output.metas[module];
                let wrapped = match meta.wrapper_ref {
                    Some(w) => w < names,
                    None => false,
                };
                if meta.wrap_kind != WrapKind::Unwrapped && !wrapped {
                    return false;
                }
                let is_esm = match &self.link_output.modules[module] {
                    Module::Ecma(m) => m.exports_kind == ExportsKind::Esm,
                    Module::External(_) => false,
                };
                !is_esm || bindings_are_fit(
                    &meta.require_bindings_for_star_exports,
                    names,
                    self.link_output.modules.len(),
                )
            },
            ChunkKind::Common => true,
        }
    }

    /// Tests whether the chunk, the link output and the options fit
    /// together.
    pub fn is_well_formed(&self) -> (b: bool)
        ensures
            b == self.wf(),
    {
        let names = self.chunk.canonical_names.len();
        let modules = self.link_output.modules.len();
        let mut i: usize = 0;
        while i < self.chunk.modules.len()
            invariant
                i <= self.chunk.modules@.len(),
                modules == self.link_output.modules@.len(),
                forall|k: int| 0 <= k < i ==> (#[trigger] self.chunk.modules@[k]) < modules,
            decreases self.chunk.modules@.len() - i,
        {
            if self.chunk.modules[i] >= modules {
                return false;
            }
            i += 1;
        }
        let named = match self.chunk.kind {
            ChunkKind::EntryPoint { module } => {
                if module >= modules || module >= self.link_output.metas.len() {
                    return false;
                }
                items_are_named(&self.link_output.metas[module].resolved_exports, names)
            },
            ChunkKind::Common => items_are_named(&self.chunk.exports_to_other_chunks, names),
        };
        if !named || !globals_are_distinct(&self.options.globals) {
            return false;
        }
        self.options.format != OutputFormat::Cjs || self.fits_cjs()
    }

    /// Everything but the warnings is as in `other`.
    pub open spec fn same_input(&self, other: &GenerateContext) -> bool {
        &&& self.options == other.options
        &&& self.chunk_idx == other.chunk_idx
        &&& self.chunk == other.chunk
        &&& self.link_output == other.link_output
    }

    /// The canonical name of a symbol.
    pub open spec fn name_of(&self, symbol: usize) -> Seq<char> {
        self.chunk.canonical_names@[symbol as int]@
    }

    pub fn canonical_name_for(&self, symbol: usize) -> (name: &str)
        requires
            symbol < self.chunk.canonical_names@.len(),
        ensures
            name@ == self.name_of(symbol),
    {
        self.chunk.canonical_names[symbol].as_str()
    }
}

} // verus!
