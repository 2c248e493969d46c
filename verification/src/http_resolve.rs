//! Modules named by `http:` and `https:` URLs: which specifiers are taken,
//! and the store of what was fetched for them.
use vstd::prelude::*;
use vstd::string::*;
use dashmap::DashMap;
use rustc_hash::FxBuildHasher;
use crate::hooks::HookLoadOutput;
use crate::module_type::{module_type_named, unknown_module_type_message, ModuleType};
use crate::source_paths::path_beside;
use crate::text::str_eq;

verus! {

/// What was fetched for a URL: the module's type and its source.
#[derive(Debug)]
pub struct ResolvedHttpUrl {
    pub module_type: ModuleType,
    pub data: String,
}

pub ghost struct ResolvedHttpUrlView {
    pub module_type: ModuleType,
    pub data: Seq<char>,
}

impl View for ResolvedHttpUrl {
    type V = ResolvedHttpUrlView;

    open spec fn view(&self) -> ResolvedHttpUrlView {
        ResolvedHttpUrlView { module_type: self.module_type, data: self.data@ }
    }
}

/// A parsed URL, as far as it is read here: the whole of it in its
/// normal form, its scheme, and its path.
#[derive(Debug)]
pub struct RemoteUrl {
    pub href: String,
    pub scheme: String,
    pub path: String,
}

pub ghost struct RemoteUrlView {
    pub href: Seq<char>,
    pub scheme: Seq<char>,
    pub path: Seq<char>,
}

impl View for RemoteUrl {
    type V = RemoteUrlView;

    open spec fn view(&self) -> RemoteUrlView {
        RemoteUrlView { href: self.href@, scheme: self.scheme@, path: self.path@ }
    }
}

/// What parsing `input` as an absolute URL gives, or nothing where it is
/// none.
pub uninterp spec fn parsed_url(input: Seq<char>) -> Option<RemoteUrlView>;

/// Calls `url::Url::parse` and reads the result's `as_str`, `scheme` and
/// `path`. Parsing follows the URL Standard and depends on the text alone;
/// an input that is no absolute URL gives nothing.
#[verifier::external_body]
fn parse_url(input: &str) -> (r: Option<RemoteUrl>)
    ensures
        match parsed_url(input@) {
            Some(url) => r matches Some(u) && u@ == url,
            None => r is None,
        },
{
    match url::Url::parse(input) {
        Ok(u) => Some(
            RemoteUrl {
                href: u.as_str().to_string(),
                scheme: u.scheme().to_string(),
                path: u.path().to_string(),
            },
        ),
        Err(_) => None,
    }
}

/// Whether `extension` stands in `path` right behind a dot.
pub open spec fn follows_a_dot(path: Seq<char>, extension: Seq<char>) -> bool {
    exists|i: int|
        0 <= i && i + 1 + extension.len() <= path.len() && #[trigger] path[i] == '.'
            && path.subrange(i + 1, i + 1 + extension.len()) == extension
}

/// What holds of the extension of a path, however the platform takes the
/// path apart: it has no dot in it, and it stands in the path behind one.
pub open spec fn extension_in(path: Seq<char>, extension: Option<String>) -> bool {
    extension matches Some(e) ==> !e@.contains('.') && follows_a_dot(path, e@)
}

/// Calls `std::path::Path::extension` on `path`: the part of the last
/// component after its last dot, where there is one. How a path falls into
/// components differs between platforms, so no more is stated than that.
#[verifier::external_body]
fn path_extension(path: &str) -> (r: Option<String>)
    ensures
        extension_in(path@, r),
{
    std::path::Path::new(path).extension().and_then(|e| e.to_str()).map(|e| e.to_string())
}

/// The extensions of the files that can be taken from a URL.
pub open spec fn supported_extension(ext: Seq<char>) -> bool {
    ext == "js"@ || ext == "jsx"@ || ext == "ts"@ || ext == "tsx"@ || ext == "css"@ || ext
        == "json"@
}

/// Whether a file with this extension can be taken from a URL.
pub fn is_supported_extension(ext: &str) -> (b: bool)
    ensures
        b == supported_extension(ext@),
{
    str_eq(ext, "js") || str_eq(ext, "jsx") || str_eq(ext, "ts") || str_eq(ext, "tsx") || str_eq(
        ext,
        "css",
    ) || str_eq(ext, "json")
}

/// The extension of the file that the URL's path names.
pub fn get_extension(url: &RemoteUrl) -> (ext: Option<String>)
    ensures
        extension_in(url.path@, ext),
{
    path_extension(url.path.as_str())
}

/// Whether `path` holds a supported extension behind a dot.
pub open spec fn names_supported_file(path: Seq<char>) -> bool {
    exists|e: Seq<char>| supported_extension(e) && #[trigger] follows_a_dot(path, e)
}

/// Whether the URL's path names a file with a supported extension. Only a
/// path that holds such an extension behind a dot can name one.
pub fn is_supported_url(url: &RemoteUrl) -> (b: bool)
    ensures
        b ==> names_supported_file(url.path@),
{
    supports(&get_extension(url))
}

/// Whether `extension` is there and supported.
pub fn supports(extension: &Option<String>) -> (b: bool)
    ensures
        b == (*extension matches Some(e) && supported_extension(e@)),
{
    match extension {
        Some(e) => is_supported_extension(e.as_str()),
        None => false,
    }
}

/// Whether a URL of this scheme is fetched.
pub open spec fn fetched_scheme(scheme: Seq<char>) -> bool {
    scheme == "http"@ || scheme == "https"@
}

/// Takes a parsed URL if its scheme is `http` or `https` and its file's
/// extension is supported.
pub fn accept_url(url: Option<RemoteUrl>, extension: &Option<String>) -> (r: Option<RemoteUrl>)
    ensures
        r == if url matches Some(u) && fetched_scheme(u.scheme@) && (*extension matches Some(e)
            && supported_extension(e@)) {
            url
        } else {
            None
        },
{
    match url {
        Some(u) => {
            if (str_eq(u.scheme.as_str(), "http") || str_eq(u.scheme.as_str(), "https"))
                && supports(extension) {
                Some(u)
            } else {
                None
            }
        },
        None => None,
    }
}

/// Parses `url` and takes it if it is an `http` or `https` URL of a file
/// with a supported extension. A text that is no URL, or a URL of another
/// scheme, is never taken; a URL that is taken is the parsed one.
pub fn valid_and_parse(url: &str) -> (r: Option<RemoteUrl>)
    ensures
        r matches Some(u) ==> parsed_url(url@) == Some(u@) && fetched_scheme(u.scheme@)
            && names_supported_file(u.path@),
        parsed_url(url@) is None ==> r is None,
        parsed_url(url@) matches Some(p) && !fetched_scheme(p.scheme) ==> r is None,
{
    let parsed = parse_url(url);
    let extension = match &parsed {
        Some(u) => get_extension(u),
        None => None,
    };
    proof {
        if parsed is Some && extension is Some && supported_extension(extension->0@) {
            assert(follows_a_dot(parsed->0.path@, extension->0@));
        }
    }
    accept_url(parsed, &extension)
}

/// What resolving `reference` against the URL `base` gives, or nothing
/// where `base` is no absolute URL or the reference cannot be resolved.
pub uninterp spec fn joined_url(base: Seq<char>, reference: Seq<char>) -> Option<Seq<char>>;

/// Calls `url::Url::parse` on `base` and `url::Url::join` on the result,
/// and reads the joined URL's `as_str`. Joining follows the URL Standard
/// and depends on the two texts alone.
#[verifier::external_body]
fn join_url(base: &str, reference: &str) -> (r: Option<String>)
    ensures
        match joined_url(base@, reference@) {
            Some(url) => r matches Some(u) && u@ == url,
            None => r is None,
        },
{
    match url::Url::parse(base) {
        Ok(b) => match b.join(reference) {
            Ok(u) => Some(u.as_str().to_string()),
            Err(_) => None,
        },
        Err(_) => None,
    }
}

/// Whether `target` is what some reference resolves to against `base`.
pub open spec fn resolves_from(base: Seq<char>, target: Seq<char>) -> bool {
    exists|reference: Seq<char>| #[trigger] joined_url(base, reference) == Some(target)
}

/// Resolves a reference against the URL: the joined URL for a reference
/// that is there and can be resolved, and nothing otherwise.
pub fn resolve_reference(base: &RemoteUrl, reference: Option<String>) -> (r: Option<String>)
    ensures
        match reference {
            Some(text) => match joined_url(base.href@, text@) {
                Some(url) => r matches Some(u) && u@ == url,
                None => r is None,
            },
            None => r is None,
        },
{
    match reference {
        Some(text) => join_url(base.href.as_str(), text.as_str()),
        None => None,
    }
}

/// The URL of the module that the module at `base` imports as `source`:
/// the import is read from beside the module's path and resolved against
/// the module's URL. There is none where that path is no text or cannot be
/// resolved.
pub fn resolve_import(base: &RemoteUrl, source: &str) -> (r: Option<String>)
    ensures
        r matches Some(url) ==> resolves_from(base.href@, url@),
{
    let reference = path_beside(base.path.as_str(), source);
    let resolved = resolve_reference(base, reference);
    proof {
        if resolved is Some {
            assert(joined_url(base.href@, reference->0@) == Some(resolved->0@));
        }
    }
    resolved
}

/// The URLs of the modules that the module at `base` imports, one for each
/// of `sources` and in their order, or nothing where one of them cannot be
/// resolved. A module without imports always has its empty list.
pub fn resolve_imports(base: &RemoteUrl, sources: &Vec<String>) -> (r: Option<Vec<String>>)
    ensures
        r matches Some(urls) ==> {
            &&& urls@.len() == sources@.len()
            &&& forall|i: int|
                0 <= i < urls@.len() ==> resolves_from(base.href@, (#[trigger] urls@[i])@)
        },
        sources@.len() == 0 ==> r is Some,
{
    let mut urls: Vec<String> = Vec::new();
    let mut i: usize = 0;
    while i < sources.len()
        invariant
            i <= sources.len(),
            urls@.len() == i,
            forall|k: int| 0 <= k < urls@.len() ==> resolves_from(base.href@, (#[trigger] urls@[k])@),
        decreases sources.len() - i,
    {
        match resolve_import(base, sources[i].as_str()) {
            Some(url) => {
                urls.push(url);
            },
            None => {
                return None;
            },
        }
        i += 1;
    }
    Some(urls)
}

/// `dashmap::DashMap`, the map in which the fetched modules are stored.
/// Nothing inside it is looked at.
#[verifier::external_type_specification]
#[verifier::external_body]
#[verifier::reject_recursive_types(K)]
#[verifier::reject_recursive_types(V)]
#[verifier::reject_recursive_types(S)]
pub struct ExDashMap<K, V, S>(DashMap<K, V, S>);

/// `rustc_hash::FxBuildHasher`, the hasher of the store.
#[verifier::external_type_specification]
#[verifier::external_body]
pub struct ExFxBuildHasher(FxBuildHasher);

/// What the store holds: for each specifier's text, what was fetched.
pub uninterp spec fn stored(
    map: DashMap<String, ResolvedHttpUrl, FxBuildHasher>,
) -> Map<Seq<char>, ResolvedHttpUrlView>;

/// A store that holds nothing.
pub open spec fn empty_store() -> Map<Seq<char>, ResolvedHttpUrlView> {
    Map::empty()
}

/// Calls `DashMap::default`, which makes an empty map.
#[verifier::external_body]
fn new_store() -> (store: DashMap<String, ResolvedHttpUrl, FxBuildHasher>)
    ensures
        stored(store) == empty_store(),
{
    DashMap::default()
}

/// Calls `DashMap::insert`, which puts the value under the key and drops
/// what was there before.
#[verifier::external_body]
fn store_insert(
    map: &mut DashMap<String, ResolvedHttpUrl, FxBuildHasher>,
    key: String,
    value: ResolvedHttpUrl,
)
    ensures
        stored(*final(map)) == stored(*old(map)).insert(key@, value@),
{
    map.insert(key, value);
}

/// Calls `DashMap::get` and copies the entry out: the value under the key,
/// or nothing where the key is absent.
#[verifier::external_body]
fn store_get(
    map: &DashMap<String, ResolvedHttpUrl, FxBuildHasher>,
    key: &str,
) -> (r: Option<ResolvedHttpUrl>)
    ensures
        match r {
            Some(found) => stored(*map).dom().contains(key@) && found@ == stored(*map)[key@],
            None => !stored(*map).dom().contains(key@),
        },
{
    map.get(key).map(|e| ResolvedHttpUrl { module_type: e.module_type, data: e.data.clone() })
}

/// What the plugin answers to a request to resolve a specifier.
#[derive(Debug)]
pub struct HookResolveIdOutput {
    pub id: String,
}

/// Resolves `http:` and `https:` specifiers to themselves and serves the
/// modules that were fetched for them.
pub struct HttpResolvePlugin {
    resolved_http_url: DashMap<String, ResolvedHttpUrl, FxBuildHasher>,
}

impl View for HttpResolvePlugin {
    type V = Map<Seq<char>, ResolvedHttpUrlView>;

    closed spec fn view(&self) -> Map<Seq<char>, ResolvedHttpUrlView> {
        stored(self.resolved_http_url)
    }
}

/// The name under which the plugin is known.
pub open spec fn plugin_name() -> Seq<char> {
    "rolldown:http-resolve"@
}

impl Default for HttpResolvePlugin {
    fn default() -> (p: HttpResolvePlugin)
        ensures
            p@ == empty_store(),
    {
        HttpResolvePlugin { resolved_http_url: new_store() }
    }
}

impl HttpResolvePlugin {
    pub fn name(&self) -> (n: &'static str)
        ensures
            n@ == plugin_name(),
    {
        "rolldown:http-resolve"
    }

    /// The URL to fetch for `specifier`, or nothing where the plugin leaves
    /// the specifier to others.
    pub fn resolve_id(&self, specifier: &str) -> (r: Option<RemoteUrl>)
        ensures
            r matches Some(u) ==> parsed_url(specifier@) == Some(u@) && fetched_scheme(u.scheme@)
                && names_supported_file(u.path@),
            parsed_url(specifier@) is None ==> r is None,
    {
        valid_and_parse(specifier)
    }

    /// Stores what was fetched for `specifier`, whose file has the extension
    /// `extension`, and resolves the specifier to itself. A body of a type
    /// that is not known is refused and nothing is stored.
    pub fn resolved(&mut self, specifier: &str, extension: &str, body: String) -> (r: Result<
        HookResolveIdOutput,
        String,
    >)
        ensures
            match module_type_named(extension@) {
                Some(module_type) => {
                    &&& r matches Ok(output) && output.id@ == specifier@
                    &&& final(self)@ == old(self)@.insert(
                        specifier@,
                        ResolvedHttpUrlView { module_type, data: body@ },
                    )
                },
                None => {
                    &&& r matches Err(m) && m@ == unknown_module_type_message(extension@)
                    &&& final(self)@ == old(self)@
                },
            },
    {
        let module_type = match ModuleType::from_known_str(extension) {
            Ok(t) => t,
            Err(m) => {
                return Err(m);
            },
        };
        store_insert(
            &mut self.resolved_http_url,
            specifier.to_owned(),
            ResolvedHttpUrl { module_type, data: body },
        );
        Ok(HookResolveIdOutput { id: specifier.to_owned() })
    }

    /// Serves the module stored for `id`: nothing for an id that is no URL
    /// the plugin takes, and nothing for one that was never resolved. What
    /// is served is the stored source with its type, for an id that parses
    /// as an `http` or `https` URL of a supported file.
    pub fn load<M>(&self, id: &str) -> (r: Option<HookLoadOutput<M>>)
        ensures
            r matches Some(output) ==> {
                &&& self@.dom().contains(id@)
                &&& output.code@ == self@[id@].data
                &&& output.module_type == Some(self@[id@].module_type)
                &&& output.map is None
                &&& output.side_effects is None
            },
            r is Some ==> (parsed_url(id@) matches Some(url) && fetched_scheme(url.scheme)
                && names_supported_file(url.path)),
            !self@.dom().contains(id@) ==> r is None,
            parsed_url(id@) is None ==> r is None,
    {
        if valid_and_parse(id).is_none() {
            return None;
        }
        self.load_resolved(id)
    }

    /// Serves the module stored for `id` once the URL was found valid.
    pub fn load_resolved<M>(&self, id: &str) -> (r: Option<HookLoadOutput<M>>)
        ensures
            match r {
                Some(output) => {
                    &&& self@.dom().contains(id@)
                    &&& output.code@ == self@[id@].data
                    &&& output.module_type == Some(self@[id@].module_type)
                    &&& output.map is None
                    &&& output.side_effects is None
                },
                None => !self@.dom().contains(id@),
            },
    {
        match store_get(&self.resolved_http_url, id) {
            Some(resolved) => Some(
                HookLoadOutput {
                    code: resolved.data,
                    map: None,
                    side_effects: None,
                    module_type: Some(resolved.module_type),
                },
            ),
            None => None,
        }
    }
}

} // verus!
