//! Module loading: the error taxonomy, module records, and the loader that
//! resolves specifiers, detects cycles, and caches loaded modules.

use vstd::prelude::*;
use vstd::string::*;

use crate::dependencies::{dependencies_of, extract_dependencies};
use crate::import_map::{rewrite, EntryView};
use crate::module_cache::ModuleCache;
use crate::package_search::{search_plan, PackageSearch};
use crate::paths::{
    dir_part, dir_part_of, extension_of, normalize_path, normalized, path_extension,
    strip_dot_slash, strip_leading_dot_slash, url_dir, url_dir_of,
};
use crate::permissions::{denied_text, NetPermission, PermissionState, Permissions, ReadPermission};
use crate::text::{concat2, concat3, copy_strings, equals, owned, starts_with, views};
use crate::urls::{host_view, parse_url_host, url_host};

pub use crate::import_map::{ImportMap, ImportMapEntry};

verus! {

/// Errors that can occur during module loading.
#[derive(Debug, Clone)]
pub enum ModuleError {
    /// Module was not found at the specified path or URL.
    NotFound(String),
    /// Failed to resolve the module specifier, or to read it while resolving.
    ResolutionError(String),
    /// Malformed import map JSON.
    ParseError(String),
    /// Permission denied for accessing the module.
    PermissionDenied(String),
    /// Network error while loading a remote module.
    NetworkError(String),
    /// Circular dependency detected in module imports.
    CircularDependency(String),
    /// Invalid module specifier provided.
    InvalidSpecifier(String),
}

/// The human-readable text of a module error.
pub open spec fn module_error_text(e: ModuleError) -> Seq<char> {
    match e {
        ModuleError::NotFound(m) => "Module not found: "@ + m@,
        ModuleError::ResolutionError(m) => "Failed to resolve module: "@ + m@,
        ModuleError::ParseError(m) => "Parse error: "@ + m@,
        ModuleError::PermissionDenied(m) => "Permission denied: "@ + m@,
        ModuleError::NetworkError(m) => "Network error: "@ + m@,
        ModuleError::CircularDependency(m) => "Circular dependency detected: "@ + m@,
        ModuleError::InvalidSpecifier(m) => "Invalid module specifier: "@ + m@,
    }
}

impl ModuleError {
    /// The error's message, as its display form.
    pub fn to_string(&self) -> (r: String)
        ensures
            r@ == module_error_text(*self),
    {
        match self {
            ModuleError::NotFound(m) => concat2("Module not found: ", m.as_str()),
            ModuleError::ResolutionError(m) => concat2("Failed to resolve module: ", m.as_str()),
            ModuleError::ParseError(m) => concat2("Parse error: ", m.as_str()),
            ModuleError::PermissionDenied(m) => concat2("Permission denied: ", m.as_str()),
            ModuleError::NetworkError(m) => concat2("Network error: ", m.as_str()),
            ModuleError::CircularDependency(m) => concat2(
                "Circular dependency detected: ",
                m.as_str(),
            ),
            ModuleError::InvalidSpecifier(m) => concat2("Invalid module specifier: ", m.as_str()),
        }
    }
}

/// Result type for module operations.
pub type ModuleResult<T> = Result<T, ModuleError>;

/// The kind of a module, derived from its file extension.
#[derive(Debug, Clone, Copy, PartialEq, Eq, Structural, Hash)]
pub enum ModuleType {
    /// ES module (`.mjs`, `.js`).
    ESModule,
    /// CommonJS module (`.cjs`).
    CommonJS,
    /// JSON module.
    JSON,
    /// TypeScript module (`.ts`).
    TypeScript,
    /// Unknown extension.
    Unknown,
}

/// The module type of an extension already folded to lower case.
pub open spec fn module_type_of(ext: Seq<char>) -> ModuleType {
    if ext == ".mjs"@ || ext == ".js"@ {
        ModuleType::ESModule
    } else if ext == ".cjs"@ {
        ModuleType::CommonJS
    } else if ext == ".json"@ {
        ModuleType::JSON
    } else if ext == ".ts"@ {
        ModuleType::TypeScript
    } else {
        ModuleType::Unknown
    }
}

/// What `str::to_lowercase` returns for a string.
pub uninterp spec fn lower_of(s: Seq<char>) -> Seq<char>;

/// Relies on `str::to_lowercase`: the result depends on the characters alone.
#[verifier::external_body]
fn lowercase(s: &str) -> (r: String)
    ensures
        r@ == lower_of(s@),
{
    s.to_lowercase()
}

impl ModuleType {
    /// Module type of an extension (with its dot) that is already lower case.
    pub fn from_folded_extension(ext: &str) -> (r: Self)
        ensures
            r == module_type_of(ext@),
    {
        if equals(ext, ".mjs") || equals(ext, ".js") {
            ModuleType::ESModule
        } else if equals(ext, ".cjs") {
            ModuleType::CommonJS
        } else if equals(ext, ".json") {
            ModuleType::JSON
        } else if equals(ext, ".ts") {
            ModuleType::TypeScript
        } else {
            ModuleType::Unknown
        }
    }

    /// Detect module type from a file extension (with its dot), in any case.
    pub fn from_extension(ext: &str) -> (r: Self)
        ensures
            r == module_type_of(lower_of(ext@)),
    {
        let folded = lowercase(ext);
        Self::from_folded_extension(folded.as_str())
    }
}

/// A module source as `(specifier, code, module type)`.
pub type SourceView = (Seq<char>, Seq<char>, ModuleType);

/// Module source information.
#[derive(Debug, Clone)]
pub struct ModuleSource {
    /// The module specifier (URL or path).
    pub specifier: String,
    /// The source code.
    pub code: String,
    /// Module type.
    pub module_type: ModuleType,
}

impl View for ModuleSource {
    type V = SourceView;

    open spec fn view(&self) -> SourceView {
        (self.specifier@, self.code@, self.module_type)
    }
}

impl ModuleSource {
    /// A copy with the same contents.
    pub fn copy(&self) -> (r: Self)
        ensures
            r@ == self@,
    {
        ModuleSource {
            specifier: self.specifier.clone(),
            code: self.code.clone(),
            module_type: self.module_type,
        }
    }
}

/// A resolved module as `(specifier, source, dependencies)`.
pub type ModuleView = (Seq<char>, SourceView, Seq<Seq<char>>);

/// Resolved module information.
#[derive(Debug, Clone)]
pub struct ResolvedModule {
    /// The resolved specifier (absolute path or URL).
    pub specifier: String,
    /// The module source.
    pub source: ModuleSource,
    /// Dependency specifiers found in the source, unresolved.
    pub dependencies: Vec<String>,
}

impl View for ResolvedModule {
    type V = ModuleView;

    open spec fn view(&self) -> ModuleView {
        (self.specifier@, self.source@, views(self.dependencies@))
    }
}

impl ResolvedModule {
    /// A copy with the same contents.
    pub fn copy(&self) -> (r: Self)
        ensures
            r@ == self@,
    {
        ResolvedModule {
            specifier: self.specifier.clone(),
            source: self.source.copy(),
            dependencies: copy_strings(&self.dependencies),
        }
    }
}

/// The module type of a file path: from its extension, ES module when it
/// has none.
pub open spec fn path_module_type(path: Seq<char>) -> ModuleType {
    match extension_of(path) {
        Some(e) => module_type_of(lower_of(e)),
        None => ModuleType::ESModule,
    }
}

impl ModuleType {
    /// Module type of a file path, from its extension.
    pub fn from_path(path: &str) -> (r: Self)
        ensures
            r == path_module_type(path@),
    {
        match path_extension(path) {
            Some(e) => Self::from_extension(e.as_str()),
            None => ModuleType::ESModule,
        }
    }
}

/// Module loader configuration.
#[derive(Debug, Clone)]
pub struct ModuleLoaderConfig {
    /// Whether to cache modules.
    pub cache_enabled: bool,
    /// Whether to allow remote modules.
    pub allow_remote: bool,
    /// Import map for resolution.
    pub import_map: Option<ImportMap>,
    /// Base directory for resolving relative paths and bare specifiers.
    pub base_dir: String,
}

impl ModuleLoaderConfig {
    /// A configuration with caching and remote modules enabled, no import
    /// map, and the given base directory.
    pub fn new(base_dir: String) -> (r: Self)
        ensures
            r.cache_enabled,
            r.allow_remote,
            r.import_map is None,
            r.base_dir@ == base_dir@,
    {
        ModuleLoaderConfig { cache_enabled: true, allow_remote: true, import_map: None, base_dir }
    }

    /// The import map's entries, if there is a map.
    pub open spec fn map_entries(&self) -> Option<Seq<EntryView>> {
        match self.import_map {
            Some(m) => Some(m.entries()),
            None => None,
        }
    }
}

/// The view of an optional string slice.
pub open spec fn opt_view(o: Option<&str>) -> Option<Seq<char>> {
    match o {
        Some(s) => Some(s@),
        None => None,
    }
}

/// A specifier that is an absolute URL.
pub open spec fn is_url(s: Seq<char>) -> bool {
    "https://"@.is_prefix_of(s) || "http://"@.is_prefix_of(s)
}

/// A specifier that is a relative path.
pub open spec fn is_relative(s: Seq<char>) -> bool {
    "./"@.is_prefix_of(s) || "../"@.is_prefix_of(s)
}

/// Where a relative specifier points: against a URL referrer by joining
/// text, against a path referrer's directory, or against the base directory.
pub open spec fn relative_target(base: Seq<char>, s: Seq<char>, referrer: Option<Seq<char>>) -> Seq<
    char,
> {
    match referrer {
        Some(r) => if "http"@.is_prefix_of(r) {
            url_dir(r) + "/"@ + strip_dot_slash(s)
        } else {
            normalized(dir_part(r) + s)
        },
        None => normalized(base + "/"@ + s),
    }
}

/// The outcome of resolution: `Ok(Some(t))` resolves to `t`, `Ok(None)`
/// calls for the package search, `Err(())` refuses a remote module.
pub open spec fn resolution_of(
    map: Option<Seq<EntryView>>,
    allow_remote: bool,
    base: Seq<char>,
    s: Seq<char>,
    referrer: Option<Seq<char>>,
) -> Result<Option<Seq<char>>, ()> {
    let rewritten = match map {
        Some(es) => rewrite(es, s),
        None => None,
    };
    if rewritten is Some {
        Ok(rewritten)
    } else if is_url(s) {
        if allow_remote {
            Ok(Some(s))
        } else {
            Err(())
        }
    } else if "/"@.is_prefix_of(s) {
        Ok(Some(s))
    } else if is_relative(s) {
        Ok(Some(relative_target(base, s, referrer)))
    } else {
        Ok(None)
    }
}

/// How a specifier resolved.
#[derive(Debug, Clone)]
pub enum Resolution {
    /// The canonical specifier.
    Resolved(String),
    /// A bare specifier: the package search that finds it.
    Search(PackageSearch),
}

/// What the loader needs next to acquire a module's source.
#[derive(Debug, Clone)]
pub enum SourceStep {
    /// The source, from the cache.
    Cached(ModuleSource),
    /// Read this local file (read access is already checked) and hand its
    /// text to [`ModuleLoader::finish_load`].
    ReadFile(String),
}

/// What the loader needs next to load a module.
#[derive(Debug, Clone)]
pub enum LoadStep {
    /// The module, from the cache.
    Loaded(ResolvedModule),
    /// Read this local file and hand its text to [`ModuleLoader::finish_load`].
    ReadFile(String),
    /// Run this package search and hand the path it finds to
    /// [`ModuleLoader::load_resolved`].
    Search(PackageSearch),
}

/// Whether `e` is what a remote load of `url` fails with, given whether the
/// loader allows remote modules, the network state, and what the URL parser
/// reported for it.
pub open spec fn remote_error_is(
    allow_remote: bool,
    net: PermissionState,
    url: Seq<char>,
    host: Option<Option<Seq<char>>>,
    e: ModuleError,
) -> bool {
    if !allow_remote {
        e matches ModuleError::PermissionDenied(m) && m@ == "Remote modules are disabled"@
    } else {
        match host {
            None => e matches ModuleError::InvalidSpecifier(m) && m@ == url,
            Some(h) => {
                let hv = match h {
                    Some(x) => x,
                    None => "unknown"@,
                };
                if !net.allows(Some(hv)) {
                    e matches ModuleError::PermissionDenied(m) && m@ == denied_text(
                        NetPermission::denial(hv),
                    )
                } else {
                    e matches ModuleError::NetworkError(m) && m@
                        == "Remote module loading not yet implemented: "@ + url
                }
            },
        }
    }
}

/// The error a remote load of `url` fails with. Remote modules must be
/// allowed by the loader configuration and the URL's host by the network
/// permission; `host` is what the URL parser reported (`None`: no URL;
/// `Some(None)`: a URL without a host). Fetching remote modules is not
/// provided, so every remote load fails.
pub fn remote_load_error(
    allow_remote: bool,
    permissions: &Permissions,
    url: &str,
    host: Option<Option<String>>,
) -> (r: ModuleError)
    ensures
        remote_error_is(allow_remote, permissions.net.state(), url@, host_view(host), r),
{
    if !allow_remote {
        return ModuleError::PermissionDenied(owned("Remote modules are disabled"));
    }
    match host {
        None => ModuleError::InvalidSpecifier(owned(url)),
        Some(h) => {
            let hv = match h {
                Some(x) => x,
                None => owned("unknown"),
            };
            match permissions.check_net(hv.as_str()) {
                Err(e) => ModuleError::PermissionDenied(e.to_string()),
                Ok(()) => ModuleError::NetworkError(
                    concat2("Remote module loading not yet implemented: ", url),
                ),
            }
        },
    }
}

/// The specifiers in `s` other than `x`, in order.
pub open spec fn without(s: Seq<Seq<char>>, x: Seq<char>) -> Seq<Seq<char>>
    decreases s.len(),
{
    if s.len() == 0 {
        s
    } else if s.last() == x {
        without(s.drop_last(), x)
    } else {
        without(s.drop_last(), x).push(s.last())
    }
}

proof fn lemma_without_excludes(s: Seq<Seq<char>>, x: Seq<char>)
    ensures
        !without(s, x).contains(x),
    decreases s.len(),
{
    if s.len() > 0 {
        lemma_without_excludes(s.drop_last(), x);
        if s.last() != x {
            let w = without(s.drop_last(), x);
            assert forall|i: int| 0 <= i < w.push(s.last()).len() implies w.push(s.last())[i]
                != x by {
                if i < w.len() {
                    assert(w.push(s.last())[i] == w[i]);
                }
            }
        }
    }
}

proof fn lemma_without_absent(s: Seq<Seq<char>>, x: Seq<char>)
    requires
        !s.contains(x),
    ensures
        without(s, x) == s,
    decreases s.len(),
{
    if s.len() > 0 {
        let p = s.drop_last();
        assert(!p.contains(x)) by {
            if p.contains(x) {
                let i = choose|i: int| 0 <= i < p.len() && p[i] == x;
                assert(s[i] == x);
            }
        }
        lemma_without_absent(p, x);
        assert(s.last() != x) by {
            assert(s[s.len() - 1] == s.last());
        }
        assert(p.push(s.last()) =~= s);
    }
}

/// A load that marks a specifier not already being loaded and then finishes
/// (successfully or not) leaves the loading set as it was before the load.
pub proof fn lemma_finished_load_restores_loading(before: Seq<Seq<char>>, t: Seq<char>)
    requires
        !before.contains(t),
    ensures
        without(before.push(t), t) == before,
{
    assert(before.push(t).drop_last() =~= before);
    lemma_without_absent(before, t);
}

/// What continuing a load from the canonical specifier `t` does, taking the
/// loader from `pre` to `post` and returning `r`. Only the loading set
/// changes, and only by marking `t` when its file is to be read.
pub open spec fn resolved_load_outcome(
    pre: ModuleLoader,
    post: ModuleLoader,
    t: Seq<char>,
    r: ModuleResult<LoadStep>,
) -> bool {
    &&& post.permissions() == pre.permissions()
    &&& post.config() == pre.config()
    &&& post.cached() == pre.cached()
    &&& if pre.config().cache_enabled && pre.cached().contains_key(t) {
        &&& r matches Ok(LoadStep::Loaded(m)) && m@ == pre.cached()[t]
        &&& post.loading() == pre.loading()
    } else if pre.loading().contains(t) {
        &&& r matches Err(ModuleError::CircularDependency(m)) && m@ == t
        &&& post.loading() == pre.loading()
    } else if "http"@.is_prefix_of(t) {
        &&& r matches Err(e) && remote_error_is(
            pre.config().allow_remote,
            pre.permissions().net.state(),
            t,
            url_host(t),
            e,
        )
        &&& post.loading() == pre.loading()
    } else if pre.permissions().read.state().allows(Some(t)) {
        &&& r matches Ok(LoadStep::ReadFile(p)) && p@ == t
        &&& post.loading() == pre.loading().push(t)
    } else {
        &&& r matches Err(ModuleError::PermissionDenied(m)) && m@ == denied_text(
            ReadPermission::denial(t),
        )
        &&& post.loading() == pre.loading()
    }
}

/// ES module loader: resolution, cycle detection, and caching.
///
/// Loading a module is a sequence of steps: [`ModuleLoader::begin_load`]
/// resolves the specifier and either returns the cached module, asks for a
/// package search, or asks the caller to read a local file; the caller then
/// hands the file's text to [`ModuleLoader::finish_load`]. A specifier is in
/// the loading set from the moment its source is requested until it is
/// finished or abandoned, on every path.
pub struct ModuleLoader {
    permissions: Permissions,
    config: ModuleLoaderConfig,
    cache: ModuleCache,
    loading: Vec<String>,
}

impl ModuleLoader {
    /// The loader's permissions.
    pub closed spec fn permissions(&self) -> Permissions {
        self.permissions
    }

    /// The loader's configuration.
    pub closed spec fn config(&self) -> ModuleLoaderConfig {
        self.config
    }

    /// The cached modules.
    pub closed spec fn cached(&self) -> Map<Seq<char>, ModuleView> {
        self.cache@
    }

    /// The specifiers being loaded.
    pub closed spec fn loading(&self) -> Seq<Seq<char>> {
        views(self.loading@)
    }

    /// The loader's internal invariant.
    pub closed spec fn wf(&self) -> bool {
        self.cache.wf()
    }

    /// How `specifier` resolves under this loader's configuration.
    pub open spec fn resolution(&self, s: Seq<char>, referrer: Option<Seq<char>>) -> Result<
        Option<Seq<char>>,
        (),
    > {
        resolution_of(
            self.config().map_entries(),
            self.config().allow_remote,
            self.config().base_dir@,
            s,
            referrer,
        )
    }

    /// Create a new module loader.
    pub fn new(permissions: Permissions, config: ModuleLoaderConfig) -> (r: Self)
        ensures
            r.wf(),
            r.permissions() == permissions,
            r.config() == config,
            r.cached() == Map::<Seq<char>, ModuleView>::empty(),
            r.loading() == Seq::<Seq<char>>::empty(),
    {
        let r = ModuleLoader { permissions, config, cache: ModuleCache::new(), loading: Vec::new() };
        assert(r.loading() =~= Seq::<Seq<char>>::empty());
        r
    }

    /// Resolve a module specifier to a canonical specifier, or to the
    /// package search that finds it.
    pub fn resolve(&self, specifier: &str, referrer: Option<&str>) -> (r: ModuleResult<Resolution>)
        ensures
            match self.resolution(specifier@, opt_view(referrer)) {
                Ok(Some(t)) => r matches Ok(Resolution::Resolved(x)) && x@ == t,
                Ok(None) => r matches Ok(Resolution::Search(p)) && p.name() == specifier@
                    && p.plan() == search_plan(self.config().base_dir@, specifier@) && p.position()
                    == 0,
                Err(()) => r matches Err(ModuleError::PermissionDenied(m)) && m@
                    == "Remote modules are disabled"@,
            },
    {
        if let Some(import_map) = &self.config.import_map {
            if let Some(resolved) = import_map.resolve(specifier) {
                return Ok(Resolution::Resolved(resolved));
            }
        }
        if starts_with(specifier, "https://") || starts_with(specifier, "http://") {
            if !self.config.allow_remote {
                return Err(ModuleError::PermissionDenied(owned("Remote modules are disabled")));
            }
            return Ok(Resolution::Resolved(owned(specifier)));
        }
        if starts_with(specifier, "/") {
            return Ok(Resolution::Resolved(owned(specifier)));
        }
        if starts_with(specifier, "./") || starts_with(specifier, "../") {
            let target = match referrer {
                Some(r) => {
                    if starts_with(r, "http") {
                        let dir = url_dir_of(r);
                        let tail = strip_leading_dot_slash(specifier);
                        concat3(dir.as_str(), "/", tail.as_str())
                    } else {
                        let dir = dir_part_of(r);
                        let joined = concat2(dir.as_str(), specifier);
                        normalize_path(joined.as_str())
                    }
                },
                None => {
                    let joined = concat3(self.config.base_dir.as_str(), "/", specifier);
                    normalize_path(joined.as_str())
                },
            };
            return Ok(Resolution::Resolved(target));
        }
        Ok(Resolution::Search(PackageSearch::new(self.config.base_dir.as_str(), specifier)))
    }

    /// Acquire the source of a canonical specifier, without the cache: a
    /// local path needs read access; a URL is gated by the configuration and
    /// by its host's network permission, then fails (see
    /// [`remote_load_error`]).
    fn acquire(&self, specifier: &str) -> (r: ModuleResult<String>)
        ensures
            "http"@.is_prefix_of(specifier@) ==> (r matches Err(e) && remote_error_is(
                self.config().allow_remote,
                self.permissions().net.state(),
                specifier@,
                url_host(specifier@),
                e,
            )),
            !"http"@.is_prefix_of(specifier@) ==> {
                &&& r is Ok <==> self.permissions().read.state().allows(Some(specifier@))
                &&& r matches Ok(p) ==> p@ == specifier@
                &&& r matches Err(e) ==> e matches ModuleError::PermissionDenied(m) && m@
                    == denied_text(ReadPermission::denial(specifier@))
            },
    {
        if starts_with(specifier, "http") {
            let host = parse_url_host(specifier);
            return Err(remote_load_error(self.config.allow_remote, &self.permissions, specifier, host));
        }
        match self.permissions.check_read(specifier) {
            Ok(()) => Ok(owned(specifier)),
            Err(e) => Err(ModuleError::PermissionDenied(e.to_string())),
        }
    }

    /// Load the source of a canonical specifier: from the cache when caching
    /// is on and it holds the module, else as [`ModuleLoader::acquire`] says.
    pub fn load(&self, specifier: &str) -> (r: ModuleResult<SourceStep>)
        requires
            self.wf(),
        ensures
            self.config().cache_enabled && self.cached().contains_key(specifier@) ==> (r matches Ok(
                SourceStep::Cached(src),
            ) && src@ == self.cached()[specifier@].1),
            !(self.config().cache_enabled && self.cached().contains_key(specifier@)) ==> {
                &&& "http"@.is_prefix_of(specifier@) ==> (r matches Err(e) && remote_error_is(
                    self.config().allow_remote,
                    self.permissions().net.state(),
                    specifier@,
                    url_host(specifier@),
                    e,
                ))
                &&& !"http"@.is_prefix_of(specifier@) ==> {
                    &&& r is Ok <==> self.permissions().read.state().allows(Some(specifier@))
                    &&& r matches Ok(step) ==> step matches SourceStep::ReadFile(p) && p@
                        == specifier@
                    &&& r matches Err(e) ==> e matches ModuleError::PermissionDenied(m) && m@
                        == denied_text(ReadPermission::denial(specifier@))
                }
            },
    {
        if self.config.cache_enabled {
            if let Some(cached) = self.cache.get(specifier) {
                return Ok(SourceStep::Cached(cached.source));
            }
        }
        match self.acquire(specifier) {
            Ok(p) => Ok(SourceStep::ReadFile(p)),
            Err(e) => Err(e),
        }
    }

    /// Parse module dependencies from source code (best effort, see
    /// [`crate::dependencies`]).
    pub fn parse_dependencies(&self, source: &ModuleSource) -> (r: Vec<String>)
        ensures
            views(r@) == dependencies_of(source.code@),
    {
        extract_dependencies(source.code.as_str())
    }

    fn is_loading(&self, specifier: &str) -> (r: bool)
        ensures
            r == self.loading().contains(specifier@),
    {
        let mut i: usize = 0;
        while i < self.loading.len()
            invariant
                i <= self.loading@.len(),
                forall|k: int| 0 <= k < i ==> (#[trigger] self.loading@[k])@ != specifier@,
            decreases self.loading.len() - i,
        {
            if equals(self.loading[i].as_str(), specifier) {
                assert(self.loading()[i as int] == specifier@);
                return true;
            }
            i = i + 1;
        }
        assert forall|k: int| 0 <= k < self.loading().len() implies self.loading()[k]
            != specifier@ by {
            assert(self.loading()[k] == self.loading@[k]@);
        }
        false
    }

    fn stop_loading(&mut self, specifier: &str)
        ensures
            final(self).loading() == without(old(self).loading(), specifier@),
            final(self).permissions() == old(self).permissions(),
            final(self).config() == old(self).config(),
            final(self).cached() == old(self).cached(),
            final(self).wf() == old(self).wf(),
    {
        let ghost old_loading = self.loading();
        let mut kept: Vec<String> = Vec::new();
        let mut i: usize = 0;
        while i < self.loading.len()
            invariant
                i <= self.loading@.len(),
                old_loading == views(self.loading@),
                views(kept@) == without(old_loading.take(i as int), specifier@),
            decreases self.loading.len() - i,
        {
            assert(old_loading.take(i + 1).drop_last() =~= old_loading.take(i as int));
            assert(old_loading.take(i + 1).last() == self.loading@[i as int]@);
            if !equals(self.loading[i].as_str(), specifier) {
                let ghost before = kept@;
                let c = self.loading[i].clone();
                kept.push(c);
                assert(views(kept@) =~= views(before).push(c@));
            }
            i = i + 1;
        }
        assert(old_loading.take(self.loading@.len() as int) =~= old_loading);
        self.loading = kept;
    }

    /// Stop loading `specifier` without finishing it (the caller gave up).
    pub fn abandon_load(&mut self, specifier: &str)
        ensures
            final(self).loading() == without(old(self).loading(), specifier@),
            !final(self).loading().contains(specifier@),
            final(self).permissions() == old(self).permissions(),
            final(self).config() == old(self).config(),
            final(self).cached() == old(self).cached(),
            final(self).wf() == old(self).wf(),
    {
        self.stop_loading(specifier);
        proof {
            lemma_without_excludes(old(self).loading(), specifier@);
        }
    }

    /// Continue loading from a canonical specifier: return the cached module
    /// when caching is on and it is cached; refuse a specifier already being
    /// loaded as circular; otherwise mark it as loading and ask for its
    /// source, unmarking it again if that fails.
    pub fn load_resolved(&mut self, resolved: String) -> (r: ModuleResult<LoadStep>)
        requires
            old(self).wf(),
        ensures
            final(self).wf(),
            resolved_load_outcome(*old(self), *final(self), resolved@, r),
    {
        if self.config.cache_enabled {
            if let Some(cached) = self.cache.get(resolved.as_str()) {
                return Ok(LoadStep::Loaded(cached));
            }
        }
        if self.is_loading(resolved.as_str()) {
            return Err(ModuleError::CircularDependency(resolved));
        }
        let ghost before = self.loading@;
        let marker = resolved.clone();
        self.loading.push(marker);
        assert(self.loading() =~= views(before).push(resolved@));
        match self.acquire(resolved.as_str()) {
            Ok(p) => Ok(LoadStep::ReadFile(p)),
            Err(e) => {
                self.loading.pop();
                assert(self.loading@ =~= before);
                Err(e)
            },
        }
    }

    /// Begin loading `specifier` as imported by `referrer`. A specifier that
    /// is already being loaded is a circular dependency, reported before any
    /// resolution; a resolved specifier then continues as
    /// [`ModuleLoader::load_resolved`] says.
    pub fn begin_load(&mut self, specifier: &str, referrer: Option<&str>) -> (r: ModuleResult<
        LoadStep,
    >)
        requires
            old(self).wf(),
        ensures
            final(self).wf(),
            old(self).loading().contains(specifier@) ==> {
                &&& r matches Err(ModuleError::CircularDependency(m)) && m@ == specifier@
                &&& *final(self) == *old(self)
            },
            !old(self).loading().contains(specifier@) ==> match old(self).resolution(
                specifier@,
                opt_view(referrer),
            ) {
                Err(()) => {
                    &&& r matches Err(ModuleError::PermissionDenied(m)) && m@
                        == "Remote modules are disabled"@
                    &&& *final(self) == *old(self)
                },
                Ok(None) => {
                    &&& r matches Ok(LoadStep::Search(p)) && p.name() == specifier@ && p.plan()
                        == search_plan(old(self).config().base_dir@, specifier@) && p.position()
                        == 0
                    &&& *final(self) == *old(self)
                },
                Ok(Some(t)) => resolved_load_outcome(*old(self), *final(self), t, r),
            },
    {
        if self.is_loading(specifier) {
            return Err(ModuleError::CircularDependency(owned(specifier)));
        }
        match self.resolve(specifier, referrer) {
            Err(e) => Err(e),
            Ok(Resolution::Search(p)) => Ok(LoadStep::Search(p)),
            Ok(Resolution::Resolved(t)) => self.load_resolved(t),
        }
    }

    /// Finish loading `resolved` with the outcome of reading its file (its
    /// text, or the read error's message): build the module, extract its
    /// dependencies, cache it when caching is on, and unmark it as loading.
    pub fn finish_load(&mut self, resolved: &str, read: Result<String, String>) -> (r: ModuleResult<
        ResolvedModule,
    >)
        requires
            old(self).wf(),
        ensures
            final(self).wf(),
            final(self).permissions() == old(self).permissions(),
            final(self).config() == old(self).config(),
            final(self).loading() == without(old(self).loading(), resolved@),
            !final(self).loading().contains(resolved@),
            match read {
                Err(msg) => {
                    &&& r matches Err(ModuleError::ResolutionError(m)) && m@ == "Failed to read file: "@
                        + msg@
                    &&& final(self).cached() == old(self).cached()
                },
                Ok(code) => {
                    &&& r matches Ok(m) && m@ == (
                        resolved@,
                        (resolved@, code@, path_module_type(resolved@)),
                        dependencies_of(code@),
                    ) && final(self).cached() == if old(self).config().cache_enabled {
                        old(self).cached().insert(resolved@, m@)
                    } else {
                        old(self).cached()
                    }
                },
            },
    {
        self.stop_loading(resolved);
        proof {
            lemma_without_excludes(old(self).loading(), resolved@);
        }
        match read {
            Err(msg) => Err(
                ModuleError::ResolutionError(concat2("Failed to read file: ", msg.as_str())),
            ),
            Ok(code) => {
                let module_type = ModuleType::from_path(resolved);
                let source = ModuleSource { specifier: owned(resolved), code, module_type };
                let dependencies = self.parse_dependencies(&source);
                let module = ResolvedModule { specifier: owned(resolved), source, dependencies };
                if self.config.cache_enabled {
                    self.cache.insert(owned(resolved), module.copy());
                }
                Ok(module)
            },
        }
    }

    /// Get the module cache.
    pub fn cache(&self) -> (r: &ModuleCache)
        ensures
            r@ == self.cached(),
            self.wf() ==> r.wf(),
    {
        &self.cache
    }

    /// Remove every cached module.
    pub fn clear_cache(&mut self)
        ensures
            final(self).wf(),
            final(self).permissions() == old(self).permissions(),
            final(self).config() == old(self).config(),
            final(self).loading() == old(self).loading(),
            final(self).cached() == Map::<Seq<char>, ModuleView>::empty(),
    {
        self.cache.clear();
    }
}

} // verus!
