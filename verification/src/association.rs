//! The association resolver and committer: turn a user-supplied extension,
//! URL scheme or type name and an application name into a canonical binding,
//! apply the routing rules, and commit it to the handler registry.
//!
//! Routing rules, applied before any registry write:
//! - the extension `html` binds the `http` scheme handler, because browsers
//!   register as scheme handlers for the web root type;
//! - the scheme `https` shares its handler slot with `http`;
//! - the web-browser pseudo-type and the canonical page type bind the
//!   `http` scheme handler for the same reason;
//! - other extensions are derived to a canonical type by the registry, and
//!   type names are parsed as supertypes, else passed through verbatim.

use vstd::prelude::*;
use crate::error::InfatError;
use crate::launch_services::{
    HandlerRegistry, kfind, kset, table_view, rejected_message,
};
use crate::strutil::{
    eq_normalized, str_eq, fold_case, normalized, strs_view,
};
use crate::uti::{SuperType, parse_spec, uti_spec};
use crate::workspace::{
    Workspace, InstalledApp, find_application_spec, resolved_bundle_id,
    resolution_error_matches,
};
use vstd::string::*;

verus! {

/// A canonical binding target: a URL scheme or a canonical type string.
#[derive(Debug, Clone)]
pub enum CanonicalTarget {
    Scheme(String),
    ContentType(String),
}

/// The scheme a scheme request is committed under: `https` shares the
/// handler slot of `http`, every other scheme stands for itself.
pub open spec fn actual_scheme(scheme: Seq<char>) -> Seq<char> {
    if fold_case(scheme) == "https"@ {
        "http"@
    } else {
        scheme
    }
}

/// The canonical type a type request is committed under: the two web
/// pseudo-types are routed away beforehand; a recognized supertype name is
/// its canonical string; anything else passes through verbatim.
pub open spec fn resolved_type_target(type_id: Seq<char>) -> Seq<char> {
    match parse_spec(normalized(type_id)) {
        Some(st) => uti_spec(st),
        None => type_id,
    }
}

/// Is this type name one of the web pseudo-types that bind the `http`
/// scheme handler instead of a content type?
pub open spec fn routes_to_web(type_id: Seq<char>) -> bool {
    type_id == "com.apple.default-app.web-browser"@ || type_id == "public.html"@
}

/// The full outcome of committing a scheme binding: resolution of the
/// application, best-effort registration of its bundle, then the handler
/// assignment, with the registry unchanged up to the step that failed.
pub open spec fn set_scheme_outcome_ok(
    apps: Seq<InstalledApp>,
    old_reg: HandlerRegistry,
    new_reg: HandlerRegistry,
    scheme: Seq<char>,
    app_name: Seq<char>,
    r: Result<(), InfatError>,
) -> bool {
    let actual = actual_scheme(scheme);
    match resolved_bundle_id(apps, app_name) {
        None => (r matches Err(e) && resolution_error_matches(apps, app_name, e))
            && new_reg == old_reg,
        Some(bundle) => {
            let registered = match find_application_spec(apps, app_name) {
                Some(p) => if strs_view(old_reg.registered_paths@).contains(p) {
                    strs_view(old_reg.registered_paths@)
                } else {
                    strs_view(old_reg.registered_paths@).push(p)
                },
                None => strs_view(old_reg.registered_paths@),
            };
            &&& strs_view(new_reg.registered_paths@) == registered
            &&& new_reg.uti_defaults == old_reg.uti_defaults
            &&& new_reg.scheme_handlers == old_reg.scheme_handlers
            &&& new_reg.uti_handlers == old_reg.uti_handlers
            &&& new_reg.ext_to_uti == old_reg.ext_to_uti
            &&& new_reg.uti_to_ext == old_reg.uti_to_ext
            &&& new_reg.rejected_targets == old_reg.rejected_targets
            &&& if old_reg.rejects(actual) {
                (r matches Err(e) && (e matches InfatError::LaunchServicesError { message }
                    && message@ == rejected_message(actual)))
                    && new_reg.scheme_defaults == old_reg.scheme_defaults
            } else {
                r is Ok && table_view(new_reg.scheme_defaults@)
                    == kset(table_view(old_reg.scheme_defaults@), actual, bundle)
            }
        },
    }
}

/// The full outcome of committing a content-type binding: resolution of
/// the application, then the handler assignment, with the registry
/// unchanged unless the assignment went through.
pub open spec fn set_uti_outcome_ok(
    apps: Seq<InstalledApp>,
    old_reg: HandlerRegistry,
    new_reg: HandlerRegistry,
    uti: Seq<char>,
    app_name: Seq<char>,
    r: Result<(), InfatError>,
) -> bool {
    match resolved_bundle_id(apps, app_name) {
        None => (r matches Err(e) && resolution_error_matches(apps, app_name, e))
            && new_reg == old_reg,
        Some(bundle) => {
            if old_reg.rejects(uti) {
                (r matches Err(e) && (e matches InfatError::LaunchServicesError { message }
                    && message@ == rejected_message(uti)))
                    && new_reg == old_reg
            } else {
                &&& r is Ok
                &&& table_view(new_reg.uti_defaults@)
                    == kset(table_view(old_reg.uti_defaults@), uti, bundle)
                &&& new_reg.scheme_defaults == old_reg.scheme_defaults
                &&& new_reg.scheme_handlers == old_reg.scheme_handlers
                &&& new_reg.uti_handlers == old_reg.uti_handlers
                &&& new_reg.registered_paths == old_reg.registered_paths
                &&& new_reg.ext_to_uti == old_reg.ext_to_uti
                &&& new_reg.uti_to_ext == old_reg.uti_to_ext
                &&& new_reg.rejected_targets == old_reg.rejected_targets
            }
        },
    }
}

/// Set the default application for a URL scheme.  The application is
/// resolved first; its bundle, when it can be located, is registered with
/// the registry before the handler assignment.
pub fn set_default_app_for_url_scheme(
    ws: &Workspace,
    reg: &mut HandlerRegistry,
    scheme: &str,
    app_name: &str,
) -> (r: Result<(), InfatError>)
    ensures
        set_scheme_outcome_ok(ws.apps@, *old(reg), *final(reg), scheme@, app_name@, r),
{
    let bundle_id = match ws.resolve_to_bundle_id(app_name) {
        Ok(b) => b,
        Err(e) => {
            return Err(e);
        },
    };
    let found = match ws.find_application(app_name) {
        Ok(o) => o,
        Err(e) => {
            return Err(e);
        },
    };
    match found {
        Some(app_path) => {
            let rr = reg.register_application(app_path.as_str());
            if rr.is_err() {
                return rr;
            }
        },
        None => (),
    }
    if eq_normalized(scheme, "https") {
        proof {
            lemma_normalized_lowercase_eq(scheme@, "https"@);
        }
        reg.set_default_app_for_url_scheme("http", bundle_id.as_str())
    } else {
        proof {
            lemma_normalized_lowercase_eq(scheme@, "https"@);
        }
        reg.set_default_app_for_url_scheme(scheme, bundle_id.as_str())
    }
}

/// For a pattern with no underscores and no capitals, vocabulary
/// normalization and plain case folding agree.
proof fn lemma_normalized_lowercase_eq(s: Seq<char>, p: Seq<char>)
    requires
        p == "https"@,
    ensures
        (normalized(s) == p) == (fold_case(s) == p),
{
    reveal_strlit("https");
    assert(p.len() == 5);
    assert(p[0] == 'h' && p[1] == 't' && p[2] == 't' && p[3] == 'p' && p[4] == 's');
    if normalized(s) == p {
        assert forall|i: int| 0 <= i < s.len() implies fold_case(s)[i] == p[i] by {
            assert(normalized(s)[i] == p[i]);
            if s[i] == '_' {
                assert(p[i] == '-');
                assert(false);
            }
        }
        assert(fold_case(s) =~= p);
    }
    if fold_case(s) == p {
        assert forall|i: int| 0 <= i < s.len() implies normalized(s)[i] == p[i] by {
            assert(fold_case(s)[i] == p[i]);
            if s[i] == '_' {
                assert(p[i] == '_');
                assert(false);
            }
        }
        assert(normalized(s) =~= p);
    }
}

/// Set the default application for a file extension.  The extension
/// `html`, in any letter case, binds the `http` scheme handler; any other
/// extension is derived to its canonical type and committed there.
pub fn set_default_app_for_extension(
    ws: &Workspace,
    reg: &mut HandlerRegistry,
    extension: &str,
    app_name: &str,
) -> (r: Result<(), InfatError>)
    ensures
        normalized(extension@) == "html"@ ==> set_scheme_outcome_ok(
            ws.apps@, *old(reg), *final(reg), "http"@, app_name@, r),
        normalized(extension@) != "html"@ ==> (match kfind(
            table_view(old(reg).ext_to_uti@), extension@) {
            None => (r matches Err(e)
                && (e matches InfatError::CouldNotDeriveUTI { extension: e2 }
                    && e2@ == extension@))
                && *final(reg) == *old(reg),
            Some(uti) => set_uti_outcome_ok(
                ws.apps@, *old(reg), *final(reg), uti, app_name@, r),
        }),
{
    if eq_normalized(extension, "html") {
        return set_default_app_for_url_scheme(ws, reg, "http", app_name);
    }
    let uti = match reg.get_uti_for_extension(extension) {
        Ok(u) => u,
        Err(e) => {
            return Err(e);
        },
    };
    let bundle_id = match ws.resolve_to_bundle_id(app_name) {
        Ok(b) => b,
        Err(e) => {
            return Err(e);
        },
    };
    reg.set_default_app_for_uti(uti.as_str(), bundle_id.as_str())
}

/// Set the default application for a supertype name or canonical type.
/// The web pseudo-types bind the `http` scheme handler; a recognized
/// supertype name is committed under its canonical string; any other name
/// passes through verbatim.
pub fn set_default_app_for_type(
    ws: &Workspace,
    reg: &mut HandlerRegistry,
    type_id: &str,
    app_name: &str,
) -> (r: Result<(), InfatError>)
    ensures
        routes_to_web(type_id@) ==> set_scheme_outcome_ok(
            ws.apps@, *old(reg), *final(reg), "http"@, app_name@, r),
        !routes_to_web(type_id@) ==> set_uti_outcome_ok(
            ws.apps@, *old(reg), *final(reg), resolved_type_target(type_id@),
            app_name@, r),
{
    if str_eq(type_id, "com.apple.default-app.web-browser")
        || str_eq(type_id, "public.html") {
        return set_default_app_for_url_scheme(ws, reg, "http", app_name);
    }
    let uti: String = match SuperType::parse(type_id) {
        Ok(st) => st.uti_string().to_owned(),
        Err(_) => type_id.to_owned(),
    };
    let bundle_id = match ws.resolve_to_bundle_id(app_name) {
        Ok(b) => b,
        Err(e) => {
            return Err(e);
        },
    };
    reg.set_default_app_for_uti(uti.as_str(), bundle_id.as_str())
}

/// Law: binding the extension `html` is observably identical to binding
/// the scheme `http`.  The literal `html` is a fixed point of name
/// normalization, so by the contract of `set_default_app_for_extension`
/// that call satisfies exactly `set_scheme_outcome_ok` for the scheme
/// `http` — the outcome `set_default_app_for_url_scheme` guarantees for
/// the same application.
pub proof fn lemma_extension_html_routes_to_http()
    ensures
        normalized("html"@) == "html"@,
{
    reveal_strlit("html");
    assert(normalized("html"@) =~= "html"@);
}

/// Law: a scheme binding for `https` is committed under the same canonical
/// target as one for `http`.
pub proof fn lemma_https_same_target_as_http()
    ensures
        actual_scheme("https"@) == actual_scheme("http"@),
{
    reveal_strlit("https");
    reveal_strlit("http");
    assert(fold_case("https"@) =~= "https"@);
    assert(fold_case("http"@).len() != "https"@.len());
    assert(actual_scheme("https"@) == "http"@);
    assert(actual_scheme("http"@) == "http"@);
}

/// Law: a dotted name is never a recognized supertype name, so a dotted
/// type identifier resolves to itself, verbatim.
pub proof fn lemma_dotted_type_passes_through(t: Seq<char>)
    requires
        crate::strutil::contains_char_spec(t, '.'),
    ensures
        resolved_type_target(t) == t,
{
    crate::uti::lemma_dotted_name_unrecognized(t);
}

/// A read-only snapshot of one target's associations: the identifier as
/// queried, the canonical type when one applies, the current default
/// handler, and every registered handler in order.
#[derive(Debug, Clone)]
pub struct AssociationInfo {
    pub identifier: String,
    pub uti: Option<String>,
    pub default_app: Option<String>,
    pub all_apps: Vec<String>,
}

/// Does this snapshot report the registry's view of a content-type target?
pub open spec fn uti_snapshot_ok(reg: HandlerRegistry, u: Seq<char>, info: AssociationInfo)
    -> bool {
    &&& info.uti matches Some(s) && s@ == u
    &&& (match info.default_app {
        Some(b) => kfind(table_view(reg.uti_defaults@), u) == Some(b@),
        None => kfind(table_view(reg.uti_defaults@), u) is None,
    })
    &&& strs_view(info.all_apps@) == (match kfind(
        crate::launch_services::list_table_view(reg.uti_handlers@), u) {
        Some(l) => l,
        None => Seq::<Seq<char>>::empty(),
    })
}

/// Does this snapshot report the registry's view of a scheme target?
pub open spec fn scheme_snapshot_ok(reg: HandlerRegistry, s: Seq<char>, info: AssociationInfo)
    -> bool {
    &&& info.uti is None
    &&& (match info.default_app {
        Some(b) => kfind(table_view(reg.scheme_defaults@), s) == Some(b@),
        None => kfind(table_view(reg.scheme_defaults@), s) is None,
    })
    &&& strs_view(info.all_apps@) == (match kfind(
        crate::launch_services::list_table_view(reg.scheme_handlers@), s) {
        Some(l) => l,
        None => Seq::<Seq<char>>::empty(),
    })
}

/// The associations of a file extension: its canonical type is derived,
/// then the default and all registered handlers are read; never an error
/// once the extension derives.
pub fn get_info_for_extension(reg: &HandlerRegistry, extension: &str)
    -> (r: Result<AssociationInfo, InfatError>)
    ensures
        match kfind(table_view(reg.ext_to_uti@), extension@) {
            None => r matches Err(e)
                && (e matches InfatError::CouldNotDeriveUTI { extension: e2 }
                    && e2@ == extension@),
            Some(u) => r matches Ok(info) && info.identifier@ == "."@ + extension@
                && uti_snapshot_ok(*reg, u, info),
        },
{
    let uti = match reg.get_uti_for_extension(extension) {
        Ok(u) => u,
        Err(e) => {
            return Err(e);
        },
    };
    let default_app = match reg.get_default_app_for_uti(uti.as_str()) {
        Ok(d) => d,
        Err(e) => {
            return Err(e);
        },
    };
    let all_apps = match reg.get_all_apps_for_uti(uti.as_str()) {
        Ok(v) => v,
        Err(e) => {
            return Err(e);
        },
    };
    let mut identifier: String = ".".to_owned();
    identifier.append(extension);
    Ok(AssociationInfo { identifier, uti: Some(uti), default_app, all_apps })
}

/// The associations of a URL scheme, read exactly as queried; never an
/// error.
pub fn get_info_for_url_scheme(reg: &HandlerRegistry, scheme: &str)
    -> (r: Result<AssociationInfo, InfatError>)
    ensures
        r matches Ok(info) && info.identifier@ == scheme@
            && scheme_snapshot_ok(*reg, scheme@, info),
{
    let default_app = match reg.get_default_app_for_url_scheme(scheme) {
        Ok(d) => d,
        Err(e) => {
            return Err(e);
        },
    };
    let all_apps = match reg.get_all_apps_for_url_scheme(scheme) {
        Ok(v) => v,
        Err(e) => {
            return Err(e);
        },
    };
    Ok(AssociationInfo {
        identifier: scheme.to_owned(),
        uti: None,
        default_app,
        all_apps,
    })
}

/// The associations of a supertype name or canonical type: a recognized
/// supertype name is read under its canonical string, anything else
/// verbatim; never an error.
pub fn get_info_for_type(reg: &HandlerRegistry, type_id: &str)
    -> (r: Result<AssociationInfo, InfatError>)
    ensures
        r matches Ok(info) && info.identifier@ == type_id@
            && uti_snapshot_ok(*reg, resolved_type_target(type_id@), info),
{
    let uti: String = match SuperType::parse(type_id) {
        Ok(st) => st.uti_string().to_owned(),
        Err(_) => type_id.to_owned(),
    };
    let default_app = match reg.get_default_app_for_uti(uti.as_str()) {
        Ok(d) => d,
        Err(e) => {
            return Err(e);
        },
    };
    let all_apps = match reg.get_all_apps_for_uti(uti.as_str()) {
        Ok(v) => v,
        Err(e) => {
            return Err(e);
        },
    };
    Ok(AssociationInfo {
        identifier: type_id.to_owned(),
        uti: Some(uti),
        default_app,
        all_apps,
    })
}

/// The first install location of each identifier that has one, in order.
pub open spec fn first_paths_from(
    apps: Seq<InstalledApp>,
    ids: Seq<Seq<char>>,
    i: int,
) -> Seq<Seq<char>>
    decreases ids.len() - i,
{
    if i < 0 || i >= ids.len() {
        Seq::empty()
    } else {
        let ps = crate::workspace::paths_for_id_from(apps, ids[i], 0);
        if ps.len() > 0 {
            seq![ps[0]] + first_paths_from(apps, ids, i + 1)
        } else {
            first_paths_from(apps, ids, i + 1)
        }
    }
}

impl AssociationInfo {
    /// The display name of the current default application, when one is
    /// set.  A system service or an unlocatable identifier falls back to
    /// the bare identifier; a bundle whose metadata cannot be read is a
    /// hard error.
    pub fn default_app_name(&self, ws: &Workspace) -> (r: Result<Option<String>, InfatError>)
        ensures
            self.default_app is None ==> (r matches Ok(o) && o is None),
            self.default_app matches Some(b) ==> (match crate::workspace::app_display_name(
                ws.apps@, b@) {
                Some(nm) => r matches Ok(o) && (o matches Some(s) && s@ == nm),
                None => if crate::workspace::is_system_service_spec(b@)
                    || crate::workspace::paths_for_id_from(ws.apps@, b@, 0).len() == 0 {
                    r matches Ok(o) && (o matches Some(s) && s@ == b@)
                } else {
                    r is Err
                },
            }),
    {
        match &self.default_app {
            Some(bundle_id) => match ws.get_app_name_from_bundle_id(bundle_id.as_str()) {
                Ok(name) => Ok(Some(name)),
                Err(InfatError::SystemService { .. }) => Ok(Some(bundle_id.clone())),
                Err(InfatError::ApplicationNotFound { .. }) => Ok(Some(bundle_id.clone())),
                Err(e) => Err(e),
            },
            None => Ok(None),
        }
    }

    /// The display name of every registered handler, in order, each
    /// falling back to its bare identifier when no name can be read.
    pub fn all_app_names(&self, ws: &Workspace) -> (r: Vec<String>)
        ensures
            r@.len() == self.all_apps@.len(),
            forall|j: int| 0 <= j < r@.len() ==> r@[j]@ == crate::workspace::fallback_name(
                ws.apps@, #[trigger] self.all_apps@[j]@),
    {
        let n = self.all_apps.len();
        let mut out: Vec<String> = Vec::new();
        let mut i: usize = 0;
        while i < n
            invariant
                i <= n,
                n == self.all_apps@.len(),
                out@.len() == i,
                forall|j: int| 0 <= j < i ==> out@[j]@ == crate::workspace::fallback_name(
                    ws.apps@, #[trigger] self.all_apps@[j]@),
            decreases n - i,
        {
            match ws.get_app_name_from_bundle_id(self.all_apps[i].as_str()) {
                Ok(name) => out.push(name),
                Err(_) => out.push(self.all_apps[i].clone()),
            }
            i = i + 1;
        }
        out
    }

    /// The first install location of each registered handler that has
    /// one, in order; handlers with no location are passed over.
    pub fn all_app_paths(&self, ws: &Workspace) -> (r: Vec<String>)
        ensures
            strs_view(r@) == first_paths_from(ws.apps@, strs_view(self.all_apps@), 0),
    {
        let ghost ids = strs_view(self.all_apps@);
        let n = self.all_apps.len();
        let mut out: Vec<String> = Vec::new();
        proof {
            assert(strs_view(out@) + first_paths_from(ws.apps@, ids, 0)
                =~= first_paths_from(ws.apps@, ids, 0));
        }
        let mut i: usize = 0;
        while i < n
            invariant
                i <= n,
                n == self.all_apps@.len(),
                ids == strs_view(self.all_apps@),
                strs_view(out@) + first_paths_from(ws.apps@, ids, i as int)
                    == first_paths_from(ws.apps@, ids, 0),
            decreases n - i,
        {
            let paths = match ws.get_app_paths_for_bundle_id(self.all_apps[i].as_str()) {
                Ok(v) => v,
                Err(_) => Vec::new(),
            };
            if paths.len() > 0 {
                let ghost prev = out@;
                let ghost p = crate::workspace::paths_for_id_from(ws.apps@, ids[i as int], 0)[0];
                out.push(paths[0].clone());
                proof {
                    assert(strs_view(out@) =~= strs_view(prev).push(p));
                    assert(strs_view(prev).push(p) + first_paths_from(ws.apps@, ids, i + 1)
                        =~= strs_view(prev) + (seq![p] + first_paths_from(ws.apps@, ids, i + 1)));
                }
            }
            i = i + 1;
        }
        proof {
            assert(strs_view(out@) + first_paths_from(ws.apps@, ids, n as int)
                =~= strs_view(out@));
        }
        out
    }
}

/// Commit a binding for a canonical target, routed to the scheme or
/// content-type handler slot by the target's kind.  Succeeds exactly when
/// the registry does not refuse the target.
pub fn set_default(reg: &mut HandlerRegistry, target: &CanonicalTarget, app_id: &str)
    -> (r: Result<(), InfatError>)
    ensures
        target matches CanonicalTarget::Scheme(s) ==> ({
            &&& old(reg).rejects(s@) ==> r is Err && *final(reg) == *old(reg)
            &&& !old(reg).rejects(s@) ==> (r is Ok
                && table_view(final(reg).scheme_defaults@)
                    == kset(table_view(old(reg).scheme_defaults@), s@, app_id@)
                && final(reg).uti_defaults == old(reg).uti_defaults)
        }),
        target matches CanonicalTarget::ContentType(u) ==> ({
            &&& old(reg).rejects(u@) ==> r is Err && *final(reg) == *old(reg)
            &&& !old(reg).rejects(u@) ==> (r is Ok
                && table_view(final(reg).uti_defaults@)
                    == kset(table_view(old(reg).uti_defaults@), u@, app_id@)
                && final(reg).scheme_defaults == old(reg).scheme_defaults)
        }),
{
    match target {
        CanonicalTarget::Scheme(s) => reg.set_default_app_for_url_scheme(s.as_str(), app_id),
        CanonicalTarget::ContentType(u) => reg.set_default_app_for_uti(u.as_str(), app_id),
    }
}

/// The current default handler for a canonical target; absence is a valid
/// `None`, never an error.
pub fn get_default(reg: &HandlerRegistry, target: &CanonicalTarget)
    -> (r: Result<Option<String>, InfatError>)
    ensures
        r matches Ok(d) && (match target {
            CanonicalTarget::Scheme(s) => match d {
                Some(b) => kfind(table_view(reg.scheme_defaults@), s@) == Some(b@),
                None => kfind(table_view(reg.scheme_defaults@), s@) is None,
            },
            CanonicalTarget::ContentType(u) => match d {
                Some(b) => kfind(table_view(reg.uti_defaults@), u@) == Some(b@),
                None => kfind(table_view(reg.uti_defaults@), u@) is None,
            },
        }),
{
    match target {
        CanonicalTarget::Scheme(s) => reg.get_default_app_for_url_scheme(s.as_str()),
        CanonicalTarget::ContentType(u) => reg.get_default_app_for_uti(u.as_str()),
    }
}

/// Every handler registered for a canonical target, in registry order;
/// a target with nothing registered yields the empty list, never an error.
pub fn get_all_handlers(reg: &HandlerRegistry, target: &CanonicalTarget)
    -> (r: Result<Vec<String>, InfatError>)
    ensures
        r matches Ok(v) && strs_view(v@) == (match target {
            CanonicalTarget::Scheme(s) => match kfind(
                crate::launch_services::list_table_view(reg.scheme_handlers@), s@) {
                Some(l) => l,
                None => Seq::<Seq<char>>::empty(),
            },
            CanonicalTarget::ContentType(u) => match kfind(
                crate::launch_services::list_table_view(reg.uti_handlers@), u@) {
                Some(l) => l,
                None => Seq::<Seq<char>>::empty(),
            },
        }),
{
    match target {
        CanonicalTarget::Scheme(s) => reg.get_all_apps_for_url_scheme(s.as_str()),
        CanonicalTarget::ContentType(u) => reg.get_all_apps_for_uti(u.as_str()),
    }
}

} // verus!
