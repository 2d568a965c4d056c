//! Application information: the declared file types and URL schemes an
//! installed application advertises, and lookups that compose the locator
//! with the bundle-metadata catalog.

use vstd::prelude::*;
use crate::error::InfatError;
use crate::strutil::{contains_char, contains_char_spec, strvec_clone, strs_view};
use crate::workspace::{
    Workspace, BundleMetadata, find_application_spec, find_by_path_from, preferred_name,
    canonical_id_result_ok,
};

verus! {

/// A file type declared by an application: its name, canonical type
/// strings, extensions, and optional description.
#[derive(Debug, Clone)]
pub struct DeclaredType {
    pub name: String,
    pub utis: Vec<String>,
    pub extensions: Vec<String>,
    pub description: Option<String>,
}

/// Detailed information about one installed application.
#[derive(Debug, Clone)]
pub struct AppInfo {
    pub bundle_id: String,
    pub name: String,
    pub version: String,
    pub path: String,
    pub declared_types: Vec<DeclaredType>,
    pub declared_schemes: Vec<String>,
}

/// The mathematical content of a declared type: name, canonical type
/// strings, extensions, and optional description.
pub open spec fn dt_view(d: DeclaredType) -> (
    Seq<char>,
    Seq<Seq<char>>,
    Seq<Seq<char>>,
    Option<Seq<char>>,
) {
    (
        d.name@,
        strs_view(d.utis@),
        strs_view(d.extensions@),
        match d.description {
            Some(s) => Some(s@),
            None => None,
        },
    )
}

/// The contents of a list of declared types.
pub open spec fn dts_view(v: Seq<DeclaredType>) -> Seq<(
    Seq<char>,
    Seq<Seq<char>>,
    Seq<Seq<char>>,
    Option<Seq<char>>,
)> {
    v.map_values(|d: DeclaredType| dt_view(d))
}

/// A copy of a declared type with the same content.
pub fn clone_declared_type(d: &DeclaredType) -> (r: DeclaredType)
    ensures
        dt_view(r) == dt_view(*d),
{
    let description = match &d.description {
        Some(s) => Some(s.clone()),
        None => None,
    };
    DeclaredType {
        name: d.name.clone(),
        utis: strvec_clone(&d.utis),
        extensions: strvec_clone(&d.extensions),
        description,
    }
}

/// A copy of a list of declared types with the same contents.
pub fn clone_declared_types(v: &Vec<DeclaredType>) -> (r: Vec<DeclaredType>)
    ensures
        dts_view(r@) == dts_view(v@),
{
    let n = v.len();
    let mut out: Vec<DeclaredType> = Vec::new();
    let mut i: usize = 0;
    while i < n
        invariant
            i <= n,
            n == v@.len(),
            dts_view(out@) == dts_view(v@.subrange(0, i as int)),
        decreases n - i,
    {
        let ghost prev = out@;
        out.push(clone_declared_type(&v[i]));
        proof {
            let target = v@.subrange(0, i + 1 as int);
            assert(out@.len() == prev.len() + 1);
            assert(dts_view(prev).len() == prev.len());
            assert(dts_view(v@.subrange(0, i as int)).len() == i);
            assert(prev.len() == i);
            assert(dts_view(out@).len() == i + 1);
            assert forall|j: int| 0 <= j < i + 1 implies dts_view(out@)[j]
                == dts_view(target)[j] by {
                assert(target[j] == v@[j]);
                if j < i {
                    assert(out@[j] == prev[j]);
                    assert(dts_view(prev)[j] == dts_view(v@.subrange(0, i as int))[j]);
                    assert(v@.subrange(0, i as int)[j] == v@[j]);
                }
            }
            assert(dts_view(out@) =~= dts_view(target));
        }
        i = i + 1;
    }
    assert(v@.subrange(0, n as int) =~= v@);
    out
}

/// The version a parsed metadata record reports, else the unknown marker.
pub open spec fn version_of(m: crate::workspace::AppMetadata) -> Seq<char> {
    match m.version {
        Some(v) => v@,
        None => "Unknown"@,
    }
}

/// Does `r` report the detailed information of the application a query
/// locates: every field read from its parsed metadata, or the typed error
/// of the step that failed.
pub open spec fn app_info_result_ok(
    apps: Seq<crate::workspace::InstalledApp>,
    q: Seq<char>,
    r: Result<AppInfo, InfatError>,
) -> bool {
    match find_application_spec(apps, q) {
        None => r matches Err(InfatError::ApplicationNotFound { name }) && name@ == q,
        Some(p) => match find_by_path_from(apps, p, 0) {
            None => r matches Err(InfatError::InfoPlistNotFound { app_path })
                && app_path@ == p,
            Some(a) => match a.metadata {
                BundleMetadata::Missing => r matches Err(
                    InfatError::InfoPlistNotFound { app_path }) && app_path@ == p,
                BundleMetadata::Unreadable { message } => (r matches Err(
                    InfatError::PlistReadError { path: p2, message: m2 })
                    && p2@ == p && m2@ == message@),
                BundleMetadata::Parsed(meta) => match meta.bundle_id {
                    None => r matches Err(InfatError::BundleIdNotFound { path: p2 })
                        && p2@ == p,
                    Some(id) => r matches Ok(info) && ({
                        &&& info.bundle_id@ == id@
                        &&& info.name@ == preferred_name(meta)
                        &&& info.version@ == version_of(meta)
                        &&& info.path@ == p
                        &&& dts_view(info.declared_types@) == dts_view(meta.declared_types@)
                        &&& strs_view(info.declared_schemes@)
                            == strs_view(meta.declared_schemes@)
                    }),
                },
            },
        },
    }
}

/// Detailed information about the application a name, identifier or path
/// locates: its identifier, display name, version, location, and declared
/// types and schemes.
pub fn get_app_info(ws: &Workspace, app_name_or_bundle_id: &str)
    -> (r: Result<AppInfo, InfatError>)
    ensures
        app_info_result_ok(ws.apps@, app_name_or_bundle_id@, r),
{
    let found = match ws.find_application(app_name_or_bundle_id) {
        Ok(o) => o,
        Err(e) => {
            return Err(e);
        },
    };
    let path = match found {
        None => {
            return Err(InfatError::ApplicationNotFound {
                name: app_name_or_bundle_id.to_owned(),
            });
        },
        Some(p) => p,
    };
    match ws.app_at_path(path.as_str()) {
        None => Err(InfatError::InfoPlistNotFound { app_path: path.clone() }),
        Some(app) => match &app.metadata {
            BundleMetadata::Missing => Err(InfatError::InfoPlistNotFound {
                app_path: path.clone(),
            }),
            BundleMetadata::Unreadable { message } => Err(InfatError::PlistReadError {
                path: path.clone(),
                message: message.clone(),
            }),
            BundleMetadata::Parsed(meta) => match &meta.bundle_id {
                None => Err(InfatError::BundleIdNotFound { path: path.clone() }),
                Some(id) => {
                    let name = match &meta.display_name {
                        Some(d) => d.clone(),
                        None => match &meta.name {
                            Some(nm) => nm.clone(),
                            None => "Unknown".to_owned(),
                        },
                    };
                    let version = match &meta.version {
                        Some(v) => v.clone(),
                        None => "Unknown".to_owned(),
                    };
                    Ok(AppInfo {
                        bundle_id: id.clone(),
                        name,
                        version,
                        path: path.clone(),
                        declared_types: clone_declared_types(&meta.declared_types),
                        declared_schemes: strvec_clone(&meta.declared_schemes),
                    })
                },
            },
        },
    }
}

/// The canonical identifier for a query: a dotted, slash-free query is
/// taken as an identifier verbatim; everything else is resolved through
/// the locator.
pub fn get_app_bundle_id(ws: &Workspace, app_name_or_path: &str)
    -> (r: Result<String, InfatError>)
    ensures
        (contains_char_spec(app_name_or_path@, '.')
            && !contains_char_spec(app_name_or_path@, '/'))
            ==> (r matches Ok(b) && b@ == app_name_or_path@),
        !(contains_char_spec(app_name_or_path@, '.')
            && !contains_char_spec(app_name_or_path@, '/'))
            ==> crate::workspace::resolve_result_ok(ws.apps@, app_name_or_path@, r),
{
    if contains_char(app_name_or_path, '.') && !contains_char(app_name_or_path, '/') {
        return Ok(app_name_or_path.to_owned());
    }
    ws.resolve_to_bundle_id(app_name_or_path)
}

/// The version of the application a query locates, read as `get_app_info`
/// reads it.
pub fn get_app_version(ws: &Workspace, app_name_or_bundle_id: &str)
    -> (r: Result<String, InfatError>)
    ensures
        match r {
            Ok(v) => exists|info: AppInfo| app_info_result_ok(
                ws.apps@, app_name_or_bundle_id@, Ok(info)) && #[trigger] info.version@ == v@,
            Err(e) => app_info_result_ok(ws.apps@, app_name_or_bundle_id@,
                Err::<AppInfo, InfatError>(e)),
        },
{
    match get_app_info(ws, app_name_or_bundle_id) {
        Ok(info) => {
            let v = info.version;
            proof {
                assert(app_info_result_ok(ws.apps@, app_name_or_bundle_id@,
                    Ok::<AppInfo, InfatError>(info)));
            }
            Ok(v)
        },
        Err(e) => Err(e),
    }
}

/// Every install location registered for an identifier, in catalog order.
pub fn get_app_paths_for_bundle_id(ws: &Workspace, bundle_id: &str)
    -> (r: Result<Vec<String>, InfatError>)
    ensures
        r matches Ok(v) && strs_view(v@) == crate::workspace::paths_for_id_from(
            ws.apps@, bundle_id@, 0),
{
    ws.get_app_paths_for_bundle_id(bundle_id)
}

} // verus!
