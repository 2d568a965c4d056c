//! The application locator: a catalog of installed application bundles with
//! their parsed metadata, and the lookups the resolver needs — find an
//! application by name, identifier or path, read its bundle identifier, and
//! read its display name.  The catalog is explicit data; the surrounding
//! process fills it from the platform's bundle directories.

use vstd::prelude::*;
use crate::app::DeclaredType;
use crate::error::InfatError;
use crate::strutil::{
    str_eq, ends_with, contains_char, contains_substr, starts_with, eq_ignore_ascii_case,
    fold_case, contains_char_spec, contains_seq_spec, starts_with_spec, ends_with_spec,
    strs_view,
};
use vstd::string::*;

verus! {

/// Bundle metadata as parsed from an application's metadata file.
#[derive(Debug, Clone)]
pub struct AppMetadata {
    pub bundle_id: Option<String>,
    pub display_name: Option<String>,
    pub name: Option<String>,
    pub version: Option<String>,
    pub declared_types: Vec<DeclaredType>,
    pub declared_schemes: Vec<String>,
}

/// What reading a bundle's metadata file produced.
#[derive(Debug, Clone)]
pub enum BundleMetadata {
    /// The bundle has no metadata file.
    Missing,
    /// The metadata file exists but could not be parsed.
    Unreadable { message: String },
    /// The metadata file was read and parsed.
    Parsed(AppMetadata),
}

/// One installed application bundle.
#[derive(Debug, Clone)]
pub struct InstalledApp {
    pub path: String,
    pub metadata: BundleMetadata,
}

/// The catalog of installed applications, in deterministic scan order.
#[derive(Debug, Clone)]
pub struct Workspace {
    pub apps: Vec<InstalledApp>,
}

/// Does this bundle's parsed metadata carry the given identifier?
pub open spec fn app_has_id(a: InstalledApp, id: Seq<char>) -> bool {
    a.metadata matches BundleMetadata::Parsed(m)
        && m.bundle_id matches Some(b) && b@ == id
}

/// The paths of every application carrying the identifier, from `i` onward.
pub open spec fn paths_for_id_from(apps: Seq<InstalledApp>, id: Seq<char>, i: int)
    -> Seq<Seq<char>>
    decreases apps.len() - i,
{
    if i < 0 || i >= apps.len() {
        Seq::empty()
    } else if app_has_id(apps[i], id) {
        seq![apps[i].path@] + paths_for_id_from(apps, id, i + 1)
    } else {
        paths_for_id_from(apps, id, i + 1)
    }
}

/// The first application whose path equals `p`, from `i` onward.
pub open spec fn find_by_path_from(apps: Seq<InstalledApp>, p: Seq<char>, i: int)
    -> Option<InstalledApp>
    decreases apps.len() - i,
{
    if i < 0 || i >= apps.len() {
        None
    } else if apps[i].path@ == p {
        Some(apps[i])
    } else {
        find_by_path_from(apps, p, i + 1)
    }
}

/// The paths of every application bundle (path ending in the bundle
/// suffix), from `i` onward.
pub open spec fn scan_paths_from(apps: Seq<InstalledApp>, i: int) -> Seq<Seq<char>>
    decreases apps.len() - i,
{
    if i < 0 || i >= apps.len() {
        Seq::empty()
    } else if ends_with_spec(apps[i].path@, ".app"@) {
        seq![apps[i].path@] + scan_paths_from(apps, i + 1)
    } else {
        scan_paths_from(apps, i + 1)
    }
}

/// Index of the first path separator-free suffix of `s` ending at `i`: the
/// start of the path's base name.
pub open spec fn base_start(s: Seq<char>, i: int) -> int
    decreases i,
{
    if i <= 0 {
        0
    } else if s[i - 1] == '/' {
        i
    } else {
        base_start(s, i - 1)
    }
}

/// The base name of a path: everything after the last separator.
pub open spec fn base_name_spec(s: Seq<char>) -> Seq<char> {
    s.subrange(base_start(s, s.len() as int), s.len() as int)
}

/// The stem a bundle is matched by: its base name with the bundle suffix
/// removed.
pub open spec fn stem_spec(s: Seq<char>) -> Seq<char> {
    let b = base_name_spec(s);
    if b.len() > 4 && ends_with_spec(b, ".app"@) {
        b.subrange(0, b.len() - 4)
    } else {
        b
    }
}

/// The first bundle, from `i` onward, whose stem matches `q` without regard
/// to ASCII case.
pub open spec fn first_stem_match_from(apps: Seq<InstalledApp>, q: Seq<char>, i: int)
    -> Option<Seq<char>>
    decreases apps.len() - i,
{
    if i < 0 || i >= apps.len() {
        None
    } else if ends_with_spec(apps[i].path@, ".app"@)
        && fold_case(stem_spec(apps[i].path@)) == fold_case(q) {
        Some(apps[i].path@)
    } else {
        first_stem_match_from(apps, q, i + 1)
    }
}

/// The identifier-matching heuristic for system services: a platform-owned
/// prefix together with one of a small set of substrings.  Deliberately
/// approximate; isolated here so call sites share one predicate.
pub open spec fn is_system_service_spec(id: Seq<char>) -> bool {
    starts_with_spec(id, "com.apple."@)
        && (contains_seq_spec(id, "service"@)
            || contains_seq_spec(id, "ui"@)
            || contains_seq_spec(id, "daemon"@))
}

/// Where the locator finds an application for a query: by identifier first
/// when the query looks like one, then as a literal bundle path, then by a
/// case-insensitive scan over bundle stems.
pub open spec fn find_application_spec(apps: Seq<InstalledApp>, q: Seq<char>)
    -> Option<Seq<char>> {
    if contains_char_spec(q, '.') && paths_for_id_from(apps, q, 0).len() > 0 {
        Some(paths_for_id_from(apps, q, 0)[0])
    } else if ends_with_spec(q, ".app"@) && find_by_path_from(apps, q, 0) is Some {
        Some(q)
    } else {
        first_stem_match_from(apps, q, 0)
    }
}

/// The display name read from parsed metadata: the human display name,
/// else the internal name, else the unknown marker.
pub open spec fn preferred_name(m: AppMetadata) -> Seq<char> {
    match m.display_name {
        Some(d) => d@,
        None => match m.name {
            Some(n) => n@,
            None => "Unknown"@,
        },
    }
}

/// Does `r` report the canonical identifier of the bundle at `path` as the
/// catalog records it: the identifier when the metadata holds one, and the
/// matching typed error when the bundle or a metadata piece is missing.
pub open spec fn canonical_id_result_ok(
    apps: Seq<InstalledApp>,
    path: Seq<char>,
    r: Result<String, InfatError>,
) -> bool {
    match find_by_path_from(apps, path, 0) {
        None => r matches Err(InfatError::InfoPlistNotFound { app_path })
            && app_path@ == path,
        Some(a) => match a.metadata {
            BundleMetadata::Missing => r matches Err(InfatError::InfoPlistNotFound { app_path })
                && app_path@ == path,
            BundleMetadata::Unreadable { message } => (r matches Err(
                InfatError::PlistReadError { path: p2, message: m2 })
                && p2@ == path && m2@ == message@),
            BundleMetadata::Parsed(meta) => match meta.bundle_id {
                None => r matches Err(InfatError::BundleIdNotFound { path: p2 })
                    && p2@ == path,
                Some(id) => r matches Ok(b) && b@ == id@,
            },
        },
    }
}

/// The canonical identifier the locator resolves a query to, when every
/// step succeeds: the application is found and its parsed metadata holds an
/// identifier.
pub open spec fn resolved_bundle_id(apps: Seq<InstalledApp>, q: Seq<char>) -> Option<Seq<char>> {
    match find_application_spec(apps, q) {
        None => None,
        Some(p) => match find_by_path_from(apps, p, 0) {
            None => None,
            Some(a) => match a.metadata {
                BundleMetadata::Parsed(meta) => match meta.bundle_id {
                    None => None,
                    Some(id) => Some(id@),
                },
                _ => None,
            },
        },
    }
}

/// Does `e` name the step at which resolving `q` failed?
pub open spec fn resolution_error_matches(
    apps: Seq<InstalledApp>,
    q: Seq<char>,
    e: InfatError,
) -> bool {
    match find_application_spec(apps, q) {
        None => e matches InfatError::ApplicationNotFound { name } && name@ == q,
        Some(p) => match find_by_path_from(apps, p, 0) {
            None => e matches InfatError::InfoPlistNotFound { app_path } && app_path@ == p,
            Some(a) => match a.metadata {
                BundleMetadata::Missing => e matches InfatError::InfoPlistNotFound { app_path }
                    && app_path@ == p,
                BundleMetadata::Unreadable { message } => (e matches InfatError::PlistReadError {
                    path: p2, message: m2 } && p2@ == p && m2@ == message@),
                BundleMetadata::Parsed(meta) => meta.bundle_id is None
                    && (e matches InfatError::BundleIdNotFound { path: p2 } && p2@ == p),
            },
        },
    }
}

/// Does `r` report resolution of `q` exactly: the canonical identifier on
/// success, the error of the failing step otherwise?
pub open spec fn resolve_result_ok(
    apps: Seq<InstalledApp>,
    q: Seq<char>,
    r: Result<String, InfatError>,
) -> bool {
    match resolved_bundle_id(apps, q) {
        Some(b) => r matches Ok(id) && id@ == b,
        None => r matches Err(e) && resolution_error_matches(apps, q, e),
    }
}

/// The display name a successful lookup of this identifier yields, when
/// every step succeeds.
pub open spec fn app_display_name(apps: Seq<InstalledApp>, id: Seq<char>) -> Option<Seq<char>> {
    if is_system_service_spec(id) {
        None
    } else {
        let paths = paths_for_id_from(apps, id, 0);
        if paths.len() == 0 {
            None
        } else {
            match find_by_path_from(apps, paths[0], 0) {
                Some(a) => match a.metadata {
                    BundleMetadata::Parsed(m) => Some(preferred_name(m)),
                    _ => None,
                },
                None => None,
            }
        }
    }
}

/// The display name of an identifier, falling back to the identifier
/// itself when no name can be read.
pub open spec fn fallback_name(apps: Seq<InstalledApp>, b: Seq<char>) -> Seq<char> {
    match app_display_name(apps, b) {
        Some(n) => n,
        None => b,
    }
}

/// Does `e` name the step at which reading the display name for `id`
/// failed?
pub open spec fn app_name_error_matches(
    apps: Seq<InstalledApp>,
    id: Seq<char>,
    e: InfatError,
) -> bool {
    if is_system_service_spec(id) {
        e matches InfatError::SystemService { bundle } && bundle@ == id
    } else {
        let paths = paths_for_id_from(apps, id, 0);
        if paths.len() == 0 {
            e matches InfatError::ApplicationNotFound { name } && name@ == id
        } else {
            match find_by_path_from(apps, paths[0], 0) {
                None => e matches InfatError::InfoPlistNotFound { app_path }
                    && app_path@ == paths[0],
                Some(a) => match a.metadata {
                    BundleMetadata::Missing => e matches InfatError::InfoPlistNotFound {
                        app_path } && app_path@ == paths[0],
                    BundleMetadata::Unreadable { message } => (e matches
                        InfatError::PlistReadError { path: p2, message: m2 }
                        && p2@ == paths[0] && m2@ == message@),
                    BundleMetadata::Parsed(_) => false,
                },
            }
        }
    }
}

/// Is this identifier a system service that must not be bound as a named
/// application?
pub fn is_system_service(bundle_id: &str) -> (r: bool)
    ensures
        r == is_system_service_spec(bundle_id@),
{
    starts_with(bundle_id, "com.apple.")
        && (contains_substr(bundle_id, "service")
            || contains_substr(bundle_id, "ui")
            || contains_substr(bundle_id, "daemon"))
}

fn app_matches_id(a: &InstalledApp, id: &str) -> (r: bool)
    ensures
        r == app_has_id(*a, id@),
{
    match &a.metadata {
        BundleMetadata::Parsed(m) => match &m.bundle_id {
            Some(b) => str_eq(b.as_str(), id),
            None => false,
        },
        _ => false,
    }
}

/// The start of a path's base name, in characters.
fn base_start_exec(s: &str) -> (r: usize)
    ensures
        r == base_start(s@, s@.len() as int),
        r <= s@.len(),
{
    let n = s.unicode_len();
    let mut i: usize = n;
    while i > 0
        invariant
            i <= n,
            n == s@.len(),
            base_start(s@, n as int) == base_start(s@, i as int),
        decreases i,
    {
        if s.get_char(i - 1) == '/' {
            return i;
        }
        i = i - 1;
    }
    0
}

/// The stem a bundle is matched by.
fn file_stem(s: &str) -> (r: String)
    ensures
        r@ == stem_spec(s@),
{
    let n = s.unicode_len();
    let start = base_start_exec(s);
    let base = s.substring_char(start, n);
    let blen = base.unicode_len();
    if blen > 4 && ends_with(base, ".app") {
        let stem = base.substring_char(0, blen - 4);
        stem.to_owned()
    } else {
        base.to_owned()
    }
}

impl Workspace {
    /// A catalog with no applications.
    pub fn new() -> (r: Workspace)
        ensures
            r.apps@ =~= Seq::<InstalledApp>::empty(),
    {
        Workspace { apps: Vec::new() }
    }

    /// Every install location registered for the identifier, in catalog
    /// order; possibly empty.
    pub fn get_app_paths_for_bundle_id(&self, bundle_id: &str)
        -> (r: Result<Vec<String>, InfatError>)
        ensures
            r matches Ok(v) && strs_view(v@) == paths_for_id_from(self.apps@, bundle_id@, 0),
    {
        let n = self.apps.len();
        let mut out: Vec<String> = Vec::new();
        proof {
            assert(strs_view(out@) + paths_for_id_from(self.apps@, bundle_id@, 0)
                =~= paths_for_id_from(self.apps@, bundle_id@, 0));
        }
        let mut i: usize = 0;
        while i < n
            invariant
                i <= n,
                n == self.apps@.len(),
                strs_view(out@) + paths_for_id_from(self.apps@, bundle_id@, i as int)
                    == paths_for_id_from(self.apps@, bundle_id@, 0),
            decreases n - i,
        {
            if app_matches_id(&self.apps[i], bundle_id) {
                let ghost prev = out@;
                let ghost p = self.apps@[i as int].path@;
                out.push(self.apps[i].path.clone());
                proof {
                    assert(strs_view(out@) =~= strs_view(prev).push(p));
                    assert(strs_view(prev).push(p)
                        + paths_for_id_from(self.apps@, bundle_id@, i + 1)
                        =~= strs_view(prev) + (seq![p]
                            + paths_for_id_from(self.apps@, bundle_id@, i + 1)));
                }
            }
            i = i + 1;
        }
        proof {
            assert(strs_view(out@) + paths_for_id_from(self.apps@, bundle_id@, n as int)
                =~= strs_view(out@));
        }
        Ok(out)
    }

    fn find_index_by_path(&self, p: &str) -> (r: Option<usize>)
        ensures
            match r {
                Some(i) => i < self.apps@.len()
                    && find_by_path_from(self.apps@, p@, 0) == Some(self.apps@[i as int]),
                None => find_by_path_from(self.apps@, p@, 0) is None,
            },
    {
        let n = self.apps.len();
        let mut i: usize = 0;
        while i < n
            invariant
                i <= n,
                n == self.apps@.len(),
                find_by_path_from(self.apps@, p@, 0) == find_by_path_from(
                    self.apps@, p@, i as int),
            decreases n - i,
        {
            if str_eq(self.apps[i].path.as_str(), p) {
                return Some(i);
            }
            i = i + 1;
        }
        None
    }

    /// The first catalog entry at a path, if any.
    pub fn app_at_path(&self, p: &str) -> (r: Option<&InstalledApp>)
        ensures
            match r {
                Some(a) => find_by_path_from(self.apps@, p@, 0) == Some(*a),
                None => find_by_path_from(self.apps@, p@, 0) is None,
            },
    {
        match self.find_index_by_path(p) {
            Some(i) => Some(&self.apps[i]),
            None => None,
        }
    }

    /// The canonical identifier of the bundle at a path, read from its
    /// metadata; fails with the matching typed error when the bundle, its
    /// metadata file, or the identifier field is missing.
    pub fn get_bundle_id_from_app_path(&self, app_path: &str)
        -> (r: Result<String, InfatError>)
        ensures
            canonical_id_result_ok(self.apps@, app_path@, r),
    {
        match self.find_index_by_path(app_path) {
            None => Err(InfatError::InfoPlistNotFound { app_path: app_path.to_owned() }),
            Some(i) => match &self.apps[i].metadata {
                BundleMetadata::Missing => Err(InfatError::InfoPlistNotFound {
                    app_path: app_path.to_owned(),
                }),
                BundleMetadata::Unreadable { message } => Err(InfatError::PlistReadError {
                    path: app_path.to_owned(),
                    message: message.clone(),
                }),
                BundleMetadata::Parsed(meta) => match &meta.bundle_id {
                    None => Err(InfatError::BundleIdNotFound { path: app_path.to_owned() }),
                    Some(id) => Ok(id.clone()),
                },
            },
        }
    }

    /// The display name of the application carrying an identifier.  A
    /// system service is refused outright; an identifier no installed
    /// application carries is a lookup failure; the name is read from the
    /// first registered location's parsed metadata.
    pub fn get_app_name_from_bundle_id(&self, bundle_id: &str)
        -> (r: Result<String, InfatError>)
        ensures
            match app_display_name(self.apps@, bundle_id@) {
                Some(nm) => r matches Ok(name) && name@ == nm,
                None => r matches Err(e) && app_name_error_matches(
                    self.apps@, bundle_id@, e),
            },
    {
        if is_system_service(bundle_id) {
            return Err(InfatError::SystemService { bundle: bundle_id.to_owned() });
        }
        let paths = match self.get_app_paths_for_bundle_id(bundle_id) {
            Ok(v) => v,
            Err(e) => {
                return Err(e);
            },
        };
        if paths.len() == 0 {
            return Err(InfatError::ApplicationNotFound { name: bundle_id.to_owned() });
        }
        let first = &paths[0];
        match self.find_index_by_path(first.as_str()) {
            None => Err(InfatError::InfoPlistNotFound { app_path: first.clone() }),
            Some(i) => match &self.apps[i].metadata {
                BundleMetadata::Missing => Err(InfatError::InfoPlistNotFound {
                    app_path: first.clone(),
                }),
                BundleMetadata::Unreadable { message } => Err(InfatError::PlistReadError {
                    path: first.clone(),
                    message: message.clone(),
                }),
                BundleMetadata::Parsed(meta) => {
                    match &meta.display_name {
                        Some(d) => Ok(d.clone()),
                        None => match &meta.name {
                            Some(nm) => Ok(nm.clone()),
                            None => Ok("Unknown".to_owned()),
                        },
                    }
                },
            },
        }
    }

    /// Every application bundle in the catalog, in scan order.
    pub fn find_applications(&self) -> (r: Result<Vec<String>, InfatError>)
        ensures
            r matches Ok(v) && strs_view(v@) == scan_paths_from(self.apps@, 0),
    {
        let n = self.apps.len();
        let mut out: Vec<String> = Vec::new();
        proof {
            assert(strs_view(out@) + scan_paths_from(self.apps@, 0)
                =~= scan_paths_from(self.apps@, 0));
        }
        let mut i: usize = 0;
        while i < n
            invariant
                i <= n,
                n == self.apps@.len(),
                strs_view(out@) + scan_paths_from(self.apps@, i as int)
                    == scan_paths_from(self.apps@, 0),
            decreases n - i,
        {
            if ends_with(self.apps[i].path.as_str(), ".app") {
                let ghost prev = out@;
                let ghost p = self.apps@[i as int].path@;
                out.push(self.apps[i].path.clone());
                proof {
                    assert(strs_view(out@) =~= strs_view(prev).push(p));
                    assert(strs_view(prev).push(p) + scan_paths_from(self.apps@, i + 1)
                        =~= strs_view(prev) + (seq![p]
                            + scan_paths_from(self.apps@, i + 1)));
                }
            }
            i = i + 1;
        }
        proof {
            assert(strs_view(out@) + scan_paths_from(self.apps@, n as int)
                =~= strs_view(out@));
        }
        Ok(out)
    }

    /// Locate an application by identifier, literal bundle path, or
    /// case-insensitive name; absence is a valid `None`, never an error.
    pub fn find_application(&self, name_or_bundle_id: &str)
        -> (r: Result<Option<String>, InfatError>)
        ensures
            r matches Ok(o) && (match find_application_spec(self.apps@, name_or_bundle_id@) {
                Some(p) => o matches Some(s) && s@ == p,
                None => o is None,
            }),
    {
        if contains_char(name_or_bundle_id, '.') {
            let paths = match self.get_app_paths_for_bundle_id(name_or_bundle_id) {
                Ok(v) => v,
                Err(e) => {
                    return Err(e);
                },
            };
            if paths.len() > 0 {
                let p = paths[0].clone();
                return Ok(Some(p));
            }
        }
        if ends_with(name_or_bundle_id, ".app") {
            if self.find_index_by_path(name_or_bundle_id).is_some() {
                return Ok(Some(name_or_bundle_id.to_owned()));
            }
        }
        let n = self.apps.len();
        let mut i: usize = 0;
        while i < n
            invariant
                i <= n,
                n == self.apps@.len(),
                first_stem_match_from(self.apps@, name_or_bundle_id@, 0)
                    == first_stem_match_from(self.apps@, name_or_bundle_id@, i as int),
                !(contains_char_spec(name_or_bundle_id@, '.')
                    && paths_for_id_from(self.apps@, name_or_bundle_id@, 0).len() > 0),
                !(ends_with_spec(name_or_bundle_id@, ".app"@)
                    && find_by_path_from(self.apps@, name_or_bundle_id@, 0) is Some),
            decreases n - i,
        {
            if ends_with(self.apps[i].path.as_str(), ".app") {
                let stem = file_stem(self.apps[i].path.as_str());
                if eq_ignore_ascii_case(stem.as_str(), name_or_bundle_id) {
                    return Ok(Some(self.apps[i].path.clone()));
                }
            }
            i = i + 1;
        }
        Ok(None)
    }

    /// Resolve a name, identifier or path to the canonical identifier of an
    /// installed application.
    pub fn resolve_to_bundle_id(&self, name_or_bundle_id: &str)
        -> (r: Result<String, InfatError>)
        ensures
            resolve_result_ok(self.apps@, name_or_bundle_id@, r),
    {
        let found = match self.find_application(name_or_bundle_id) {
            Ok(o) => o,
            Err(e) => {
                return Err(e);
            },
        };
        match found {
            None => Err(InfatError::ApplicationNotFound {
                name: name_or_bundle_id.to_owned(),
            }),
            Some(path) => self.get_bundle_id_from_app_path(path.as_str()),
        }
    }
}

} // verus!
