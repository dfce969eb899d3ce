//! Bare-specifier search: the ordered probes of a Node-style package lookup.
//!
//! Starting at the base directory and walking up one directory at a time,
//! each ancestor `<dir>` contributes, in this order, the files
//! `<dir>/node_modules/<name>` followed by `.js`, `.mjs`, `.ts`, `/index.js`,
//! `/index.mjs`, and then the package manifest
//! `<dir>/node_modules/<name>/package.json`, whose `main` field names the
//! entry file. The search itself touches the file system, so the library
//! hands the probes out one at a time and the caller reports each outcome.

use vstd::prelude::*;
use vstd::string::*;

use crate::json::{field, get_field, is_json, json_of, parse_json, JsonValue};
use crate::module_loader::ModuleError;
use crate::paths::{is_absolute, join_components, join_with_lead, path_components, split_components};
use crate::text::{concat2, concat3, owned, views};

verus! {

/// A probe as `(path, None)` for a candidate file, or
/// `(manifest path, Some(package directory))` for a package manifest.
pub type ProbeView = (Seq<char>, Option<Seq<char>>);

/// One step of the package search.
#[derive(Debug, Clone)]
pub enum Probe {
    /// Use this file if it exists.
    File(String),
    /// Read this package manifest; if it names a `main` entry that exists
    /// (see [`manifest_main_path`]), use it.
    Manifest {
        /// The manifest's path.
        manifest: String,
        /// The package directory holding it.
        package_dir: String,
    },
}

impl View for Probe {
    type V = ProbeView;

    open spec fn view(&self) -> ProbeView {
        match self {
            Probe::File(p) => (p@, None),
            Probe::Manifest { manifest, package_dir } => (manifest@, Some(package_dir@)),
        }
    }
}

/// The views of a sequence of probes.
pub open spec fn probe_views(ps: Seq<Probe>) -> Seq<ProbeView> {
    ps.map_values(|p: Probe| p@)
}

/// `/` for an absolute path, nothing for a relative one.
pub open spec fn lead_of(base: Seq<char>) -> Seq<char> {
    if is_absolute(base) {
        seq!['/']
    } else {
        Seq::empty()
    }
}

/// The base directory and its ancestors, nearest first, ending at the root
/// (or at the empty path for a relative base).
pub open spec fn ancestor_dirs(base: Seq<char>) -> Seq<Seq<char>> {
    let cs = path_components(base);
    Seq::new(cs.len() + 1, |k: int| lead_of(base) + join_components(cs.take(cs.len() - k)))
}

/// The package directory `<dir>/node_modules/<name>`.
pub open spec fn package_dir_in(dir: Seq<char>, name: Seq<char>) -> Seq<char> {
    if dir.len() == 0 {
        "node_modules/"@ + name
    } else if dir.last() == '/' {
        dir + "node_modules/"@ + name
    } else {
        dir + "/node_modules/"@ + name
    }
}

/// The probes for one package directory, in order.
pub open spec fn probes_in(pkg: Seq<char>) -> Seq<ProbeView> {
    seq![
        (pkg + ".js"@, None),
        (pkg + ".mjs"@, None),
        (pkg + ".ts"@, None),
        (pkg + "/index.js"@, None),
        (pkg + "/index.mjs"@, None),
        (pkg + "/package.json"@, Some(pkg)),
    ]
}

/// The probes for `name` in each of `dirs`, in order.
pub open spec fn plan_for(dirs: Seq<Seq<char>>, name: Seq<char>) -> Seq<ProbeView>
    decreases dirs.len(),
{
    if dirs.len() == 0 {
        Seq::empty()
    } else {
        plan_for(dirs.drop_last(), name) + probes_in(package_dir_in(dirs.last(), name))
    }
}

/// Every probe of the search for `name` from `base`, in order.
pub open spec fn search_plan(base: Seq<char>, name: Seq<char>) -> Seq<ProbeView> {
    plan_for(ancestor_dirs(base), name)
}

/// The entry file a manifest's `main` names: `main` itself when absolute,
/// else `main` inside the package directory.
pub open spec fn manifest_target(package_dir: Seq<char>, main: Seq<char>) -> Seq<char> {
    if is_absolute(main) {
        main
    } else {
        package_dir + "/"@ + main
    }
}

/// Returns the path a manifest's `main` entry names.
pub fn manifest_main_path(package_dir: &str, main: &str) -> (r: String)
    ensures
        r@ == manifest_target(package_dir@, main@),
{
    if main.unicode_len() > 0 && main.get_char(0) == '/' {
        owned(main)
    } else {
        concat3(package_dir, "/", main)
    }
}

/// The `main` entry a parsed manifest names: its text when the manifest is
/// an object whose `main` is a string.
pub open spec fn main_field_of(v: JsonValue) -> Option<Seq<char>> {
    match v {
        JsonValue::Object(es) => match field(es@, "main"@) {
            Some(JsonValue::Str(s)) => Some(s@),
            _ => None,
        },
        _ => None,
    }
}

/// The `main` field of a package manifest, when the manifest is a JSON
/// object whose `main` is a string.
pub fn package_main(manifest_text: &str) -> (r: Option<String>)
    ensures
        !is_json(manifest_text@) ==> r is None,
        is_json(manifest_text@) ==> match main_field_of(json_of(manifest_text@)) {
            Some(m) => r matches Some(s) && s@ == m,
            None => r is None,
        },
{
    let value = match parse_json(manifest_text) {
        Ok(v) => v,
        Err(_) => return None,
    };
    match &value {
        JsonValue::Object(es) => match get_field(es, "main") {
            Some(JsonValue::Str(text)) => Some(owned(text.as_str())),
            _ => None,
        },
        _ => None,
    }
}

/// The first `m` strings of `v`, copied.
fn take_strings(v: &Vec<String>, m: usize) -> (r: Vec<String>)
    requires
        m <= v@.len(),
    ensures
        views(r@) == views(v@).take(m as int),
{
    let mut r: Vec<String> = Vec::new();
    let mut k: usize = 0;
    while k < m
        invariant
            k <= m <= v@.len(),
            views(r@) == views(v@).take(k as int),
        decreases m - k,
    {
        let c = v[k].clone();
        let ghost before = r@;
        r.push(c);
        assert(views(r@) =~= views(before).push(c@));
        assert(views(v@).take(k + 1) =~= views(v@).take(k as int).push(v@[k as int]@));
        k = k + 1;
    }
    r
}

fn package_dir_of(dir: &str, name: &str) -> (r: String)
    ensures
        r@ == package_dir_in(dir@, name@),
{
    let n = dir.unicode_len();
    if n == 0 {
        concat2("node_modules/", name)
    } else if dir.get_char(n - 1) == '/' {
        concat3(dir, "node_modules/", name)
    } else {
        concat3(dir, "/node_modules/", name)
    }
}

fn push_probes(plan: &mut Vec<Probe>, pkg: &str)
    ensures
        probe_views(final(plan)@) == probe_views(old(plan)@) + probes_in(pkg@),
{
    let ghost start = probe_views(plan@);
    plan.push(Probe::File(concat2(pkg, ".js")));
    plan.push(Probe::File(concat2(pkg, ".mjs")));
    plan.push(Probe::File(concat2(pkg, ".ts")));
    plan.push(Probe::File(concat2(pkg, "/index.js")));
    plan.push(Probe::File(concat2(pkg, "/index.mjs")));
    plan.push(Probe::Manifest { manifest: concat2(pkg, "/package.json"), package_dir: owned(pkg) });
    assert(probe_views(plan@) =~= start + probes_in(pkg@));
}

/// A package search in progress: the probes still to run.
#[derive(Debug, Clone)]
pub struct PackageSearch {
    name: String,
    plan: Vec<Probe>,
    next: usize,
}

impl PackageSearch {
    /// The bare specifier searched for.
    pub closed spec fn name(&self) -> Seq<char> {
        self.name@
    }

    /// Every probe of the search, in order.
    pub closed spec fn plan(&self) -> Seq<ProbeView> {
        probe_views(self.plan@)
    }

    /// How many probes have been run.
    pub closed spec fn position(&self) -> int {
        self.next as int
    }

    /// Start the search for `name` from `base_dir`.
    pub fn new(base_dir: &str, name: &str) -> (r: Self)
        ensures
            r.name() == name@,
            r.plan() == search_plan(base_dir@, name@),
            r.position() == 0,
    {
        let comps = split_components(base_dir);
        let absolute = base_dir.unicode_len() > 0 && base_dir.get_char(0) == '/';
        let lead = if absolute { "/" } else { "" };
        proof {
            reveal_strlit("/");
            reveal_strlit("");
            assert(lead@ =~= lead_of(base_dir@));
        }
        let ghost dirs = ancestor_dirs(base_dir@);
        let n = comps.len();
        let mut plan: Vec<Probe> = Vec::new();
        let mut k: usize = 0;
        assert(probe_views(plan@) =~= Seq::<ProbeView>::empty());
        loop
            invariant_except_break
                probe_views(plan@) == plan_for(dirs.take(k as int), name@),
            invariant
                n == comps@.len(),
                views(comps@) == path_components(base_dir@),
                dirs == ancestor_dirs(base_dir@),
                dirs.len() == n + 1,
                lead@ == lead_of(base_dir@),
                k <= n,
            ensures
                probe_views(plan@) == plan_for(dirs, name@),
            decreases n - k,
        {
            let prefix = take_strings(&comps, n - k);
            let dir = join_with_lead(lead, &prefix);
            assert(dir@ == dirs[k as int]);
            let pkg = package_dir_of(dir.as_str(), name);
            push_probes(&mut plan, pkg.as_str());
            assert(dirs.take(k + 1).drop_last() =~= dirs.take(k as int));
            if k == n {
                assert(dirs.take(k + 1) =~= dirs);
                break;
            }
            k = k + 1;
        }
        PackageSearch { name: owned(name), plan, next: 0 }
    }

    /// The next probe to run, or `None` when every probe has failed.
    pub fn probe(&self) -> (r: Option<Probe>)
        ensures
            match r {
                Some(p) => 0 <= self.position() < self.plan().len() && p@ == self.plan()[self.position()],
                None => self.position() >= self.plan().len(),
            },
    {
        if self.next < self.plan.len() {
            let p = match &self.plan[self.next] {
                Probe::File(f) => Probe::File(f.clone()),
                Probe::Manifest { manifest, package_dir } => Probe::Manifest {
                    manifest: manifest.clone(),
                    package_dir: package_dir.clone(),
                },
            };
            Some(p)
        } else {
            None
        }
    }

    /// Record that the current probe found nothing.
    pub fn advance(&mut self)
        ensures
            final(self).name() == old(self).name(),
            final(self).plan() == old(self).plan(),
            final(self).position() == if old(self).position() < old(self).plan().len() {
                old(self).position() + 1
            } else {
                old(self).position()
            },
    {
        if self.next < self.plan.len() {
            self.next = self.next + 1;
        }
    }

    /// The error for a search whose probes all failed.
    pub fn not_found(&self) -> (r: ModuleError)
        ensures
            r matches ModuleError::NotFound(m) && m@ == "Cannot find module '"@ + self.name() + "'"@,
    {
        ModuleError::NotFound(concat3("Cannot find module '", self.name.as_str(), "'"))
    }
}

} // verus!
