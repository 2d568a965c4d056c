//! The handler registry: the system-wide table binding URL schemes and
//! canonical types to their default applications, together with the
//! per-target lists of all capable handlers, the extension-to-type
//! derivation table, and the set of registered application locations.
//!
//! The registry is held as explicit data so that every operation of the
//! committer carries an exact contract; the surrounding process mirrors
//! each write to the platform's own registry service.  Targets listed in
//! `rejected_targets` answer every handler assignment with a failure
//! status, the way the platform refuses system-owned or malformed targets.

use vstd::prelude::*;
use crate::error::InfatError;
use crate::strutil::{str_eq, strs_view, strvec_contains, strvec_clone};

verus! {

/// First value bound to `k`, searching front to back.
pub open spec fn kfind<V>(m: Seq<(Seq<char>, V)>, k: Seq<char>) -> Option<V>
    decreases m.len(),
{
    if m.len() == 0 {
        None
    } else if m[0].0 == k {
        Some(m[0].1)
    } else {
        kfind(m.drop_first(), k)
    }
}

/// The table after binding `k` to `v`: the first entry for `k` is replaced,
/// or a new entry is appended when none exists.
pub open spec fn kset<V>(m: Seq<(Seq<char>, V)>, k: Seq<char>, v: V) -> Seq<(Seq<char>, V)>
    decreases m.len(),
{
    if m.len() == 0 {
        seq![(k, v)]
    } else if m[0].0 == k {
        seq![(k, v)] + m.drop_first()
    } else {
        seq![m[0]] + kset(m.drop_first(), k, v)
    }
}

/// A lookup after an update reads the new value at the updated key and the
/// old value everywhere else.
pub proof fn lemma_kfind_kset<V>(m: Seq<(Seq<char>, V)>, k: Seq<char>, v: V, k2: Seq<char>)
    ensures
        kfind(kset(m, k, v), k2) == (if k2 == k {
            Some(v)
        } else {
            kfind(m, k2)
        }),
    decreases m.len(),
{
    let s1 = kset(m, k, v);
    if m.len() == 0 {
        assert(s1 == seq![(k, v)]);
        assert(s1[0] == (k, v));
        if k2 == k {
            assert(kfind(s1, k2) == Some(v));
        } else {
            assert(s1.drop_first() =~= Seq::<(Seq<char>, V)>::empty());
            assert(kfind(s1.drop_first(), k2) is None);
            assert(kfind(s1, k2) is None);
            assert(kfind(m, k2) is None);
        }
    } else if m[0].0 == k {
        assert(s1 == seq![(k, v)] + m.drop_first());
        assert(s1[0] == (k, v));
        if k2 == k {
            assert(kfind(s1, k2) == Some(v));
        } else {
            assert(s1.drop_first() =~= m.drop_first());
            assert(kfind(s1, k2) == kfind(m.drop_first(), k2));
            lemma_kfind_skip_head(m, k2);
        }
    } else {
        lemma_kfind_kset(m.drop_first(), k, v, k2);
        assert(s1 == seq![m[0]] + kset(m.drop_first(), k, v));
        assert(s1[0] == m[0]);
        assert(s1.len() > 0);
        assert(s1.drop_first() =~= kset(m.drop_first(), k, v));
        if m[0].0 == k2 {
            assert(kfind(s1, k2) == Some(m[0].1));
            assert(kfind(m, k2) == Some(m[0].1));
        } else {
            assert(kfind(s1, k2) == kfind(kset(m.drop_first(), k, v), k2));
            assert(kfind(m, k2) == kfind(m.drop_first(), k2));
        }
    }
}

proof fn lemma_kfind_skip_head<V>(m: Seq<(Seq<char>, V)>, k2: Seq<char>)
    requires
        m.len() > 0,
        m[0].0 != k2,
    ensures
        kfind(m, k2) == kfind(m.drop_first(), k2),
{
}

/// Law: binding the same key to the same value twice leaves the registry
/// exactly as one binding does; a repeated handler assignment is
/// observationally a no-op.
pub proof fn lemma_kset_idempotent<V>(m: Seq<(Seq<char>, V)>, k: Seq<char>, v: V)
    ensures
        kset(kset(m, k, v), k, v) == kset(m, k, v),
    decreases m.len(),
{
    if m.len() == 0 {
        assert(kset(kset(m, k, v), k, v) =~= kset(m, k, v));
    } else if m[0].0 == k {
        assert(kset(m, k, v)[0] == (k, v));
        assert(kset(kset(m, k, v), k, v) =~= kset(m, k, v));
    } else {
        lemma_kset_idempotent(m.drop_first(), k, v);
        let rest = kset(m.drop_first(), k, v);
        assert((seq![m[0]] + rest)[0] == m[0]);
        assert((seq![m[0]] + rest).drop_first() =~= rest);
        assert(kset(kset(m, k, v), k, v) =~= kset(m, k, v));
    }
}

/// Entries before `i` never hold the key, so the search result is decided
/// from `i` onward.
proof fn lemma_kfind_skip<V>(m: Seq<(Seq<char>, V)>, k: Seq<char>, i: int)
    requires
        0 <= i <= m.len(),
        forall|j: int| 0 <= j < i ==> m[j].0 != k,
    ensures
        kfind(m, k) == kfind(m.skip(i), k),
    decreases i,
{
    if i > 0 {
        assert(m[0].0 != k);
        assert(m.drop_first() =~= m.skip(1));
        assert(forall|j: int| 0 <= j < i - 1 ==> m.skip(1)[j].0 != k);
        lemma_kfind_skip(m.skip(1), k, i - 1);
        assert(m.skip(1).skip(i - 1) =~= m.skip(i));
    } else {
        assert(m.skip(0) =~= m);
    }
}

/// Replacing the first entry holding the key is the same table as `kset`.
proof fn lemma_kset_update<V>(m: Seq<(Seq<char>, V)>, k: Seq<char>, v: V, i: int)
    requires
        0 <= i < m.len(),
        m[i].0 == k,
        forall|j: int| 0 <= j < i ==> m[j].0 != k,
    ensures
        kset(m, k, v) == m.update(i, (k, v)),
    decreases i,
{
    if i == 0 {
        assert(kset(m, k, v) =~= m.update(0, (k, v)));
    } else {
        assert(m[0].0 != k);
        assert(forall|j: int| 0 <= j < i - 1 ==> m.drop_first()[j].0 != k);
        assert(m.drop_first()[i - 1].0 == k);
        lemma_kset_update(m.drop_first(), k, v, i - 1);
        assert(kset(m, k, v) =~= m.update(i, (k, v)));
    }
}

/// When no entry holds the key, `kset` appends one.
proof fn lemma_kset_append<V>(m: Seq<(Seq<char>, V)>, k: Seq<char>, v: V)
    requires
        forall|j: int| 0 <= j < m.len() ==> m[j].0 != k,
    ensures
        kset(m, k, v) == m + seq![(k, v)],
    decreases m.len(),
{
    if m.len() == 0 {
        assert(kset(m, k, v) =~= m + seq![(k, v)]);
    } else {
        assert(forall|j: int| 0 <= j < m.drop_first().len() ==> m.drop_first()[j].0 != k);
        lemma_kset_append(m.drop_first(), k, v);
        assert(kset(m, k, v) =~= m + seq![(k, v)]);
    }
}

/// The views of a string-to-string table.
pub open spec fn table_view(m: Seq<(String, String)>) -> Seq<(Seq<char>, Seq<char>)> {
    m.map_values(|p: (String, String)| (p.0@, p.1@))
}

/// The views of a string-to-string-list table.
pub open spec fn list_table_view(m: Seq<(String, Vec<String>)>) -> Seq<(Seq<char>, Seq<Seq<char>>)> {
    m.map_values(|p: (String, Vec<String>)| (p.0@, strs_view(p.1@)))
}

/// Look a key up in a string table, returning a copy of the bound value.
pub fn table_find(t: &Vec<(String, String)>, k: &str) -> (r: Option<String>)
    ensures
        match r {
            Some(v) => kfind(table_view(t@), k@) == Some(v@),
            None => kfind(table_view(t@), k@) is None,
        },
{
    let n = t.len();
    let mut i: usize = 0;
    while i < n
        invariant
            i <= n,
            n == t@.len(),
            forall|j: int| 0 <= j < i ==> table_view(t@)[j].0 != k@,
        decreases n - i,
    {
        if str_eq(t[i].0.as_str(), k) {
            proof {
                lemma_kfind_skip(table_view(t@), k@, i as int);
                assert(table_view(t@).skip(i as int)[0] == table_view(t@)[i as int]);
            }
            return Some(t[i].1.clone());
        }
        i = i + 1;
    }
    proof {
        lemma_kfind_skip(table_view(t@), k@, n as int);
        assert(table_view(t@).skip(n as int) =~= Seq::<(Seq<char>, Seq<char>)>::empty());
    }
    None
}

/// Bind a key in a string table: replace its first entry, or append one.
pub fn table_set(t: &mut Vec<(String, String)>, k: &str, v: &str)
    ensures
        table_view(final(t)@) == kset(table_view(old(t)@), k@, v@),
{
    let n = t.len();
    let mut i: usize = 0;
    while i < n
        invariant
            i <= n,
            n == t@.len(),
            t@ == old(t)@,
            forall|j: int| 0 <= j < i ==> table_view(t@)[j].0 != k@,
        decreases n - i,
    {
        if str_eq(t[i].0.as_str(), k) {
            proof {
                lemma_kset_update(table_view(t@), k@, v@, i as int);
            }
            t.set(i, (k.to_owned(), v.to_owned()));
            proof {
                assert(table_view(t@) =~= table_view(old(t)@).update(i as int, (k@, v@)));
            }
            return;
        }
        i = i + 1;
    }
    proof {
        lemma_kset_append(table_view(t@), k@, v@);
    }
    t.push((k.to_owned(), v.to_owned()));
    proof {
        assert(table_view(t@) =~= table_view(old(t)@) + seq![(k@, v@)]);
    }
}

/// Look a key up in a string-list table, returning a copy of the bound list.
pub fn list_table_find(t: &Vec<(String, Vec<String>)>, k: &str) -> (r: Option<Vec<String>>)
    ensures
        match r {
            Some(v) => kfind(list_table_view(t@), k@) == Some(strs_view(v@)),
            None => kfind(list_table_view(t@), k@) is None,
        },
{
    let n = t.len();
    let mut i: usize = 0;
    while i < n
        invariant
            i <= n,
            n == t@.len(),
            forall|j: int| 0 <= j < i ==> list_table_view(t@)[j].0 != k@,
        decreases n - i,
    {
        if str_eq(t[i].0.as_str(), k) {
            proof {
                lemma_kfind_skip(list_table_view(t@), k@, i as int);
                assert(list_table_view(t@).skip(i as int)[0] == list_table_view(t@)[i as int]);
            }
            return Some(strvec_clone(&t[i].1));
        }
        i = i + 1;
    }
    proof {
        lemma_kfind_skip(list_table_view(t@), k@, n as int);
        assert(list_table_view(t@).skip(n as int) =~= Seq::<(Seq<char>, Seq<Seq<char>>)>::empty());
    }
    None
}

/// The handler registry, modeled as explicit tables.
pub struct HandlerRegistry {
    /// Default handler for each URL scheme.
    pub scheme_defaults: Vec<(String, String)>,
    /// Default handler for each canonical type.
    pub uti_defaults: Vec<(String, String)>,
    /// All applications registered as capable of each URL scheme.
    pub scheme_handlers: Vec<(String, Vec<String>)>,
    /// All applications registered as capable of each canonical type.
    pub uti_handlers: Vec<(String, Vec<String>)>,
    /// Application locations announced to the registry.
    pub registered_paths: Vec<String>,
    /// The extension-to-canonical-type derivation table.
    pub ext_to_uti: Vec<(String, String)>,
    /// The canonical-type-to-preferred-extension table.
    pub uti_to_ext: Vec<(String, String)>,
    /// Targets for which every handler assignment returns a failure status.
    pub rejected_targets: Vec<String>,
}

/// The message carried by the failure status of a refused assignment.
pub open spec fn rejected_message(target: Seq<char>) -> Seq<char> {
    "handler assignment refused for target "@ + target
}

fn rejected_error(target: &str) -> (r: InfatError)
    ensures
        (r matches InfatError::LaunchServicesError { message }
            && message@ == rejected_message(target@)),
{
    let mut message: String = "handler assignment refused for target ".to_owned();
    message.append(target);
    InfatError::LaunchServicesError { message }
}

impl HandlerRegistry {
    /// A registry with nothing recorded at all.
    pub fn new() -> (r: HandlerRegistry)
        ensures
            r.scheme_defaults@ =~= Seq::<(String, String)>::empty(),
            r.uti_defaults@ =~= Seq::<(String, String)>::empty(),
            r.scheme_handlers@ =~= Seq::<(String, Vec<String>)>::empty(),
            r.uti_handlers@ =~= Seq::<(String, Vec<String>)>::empty(),
            r.registered_paths@ =~= Seq::<String>::empty(),
            r.ext_to_uti@ =~= Seq::<(String, String)>::empty(),
            r.uti_to_ext@ =~= Seq::<(String, String)>::empty(),
            r.rejected_targets@ =~= Seq::<String>::empty(),
    {
        HandlerRegistry {
            scheme_defaults: Vec::new(),
            uti_defaults: Vec::new(),
            scheme_handlers: Vec::new(),
            uti_handlers: Vec::new(),
            registered_paths: Vec::new(),
            ext_to_uti: Vec::new(),
            uti_to_ext: Vec::new(),
            rejected_targets: Vec::new(),
        }
    }

    /// Does the registry refuse handler assignments for this target?
    pub open spec fn rejects(&self, target: Seq<char>) -> bool {
        strs_view(self.rejected_targets@).contains(target)
    }

    /// Make `bundle_id` the default handler for a URL scheme.  Succeeds
    /// exactly when the target is not refused; on failure nothing changes.
    pub fn set_default_app_for_url_scheme(&mut self, scheme: &str, bundle_id: &str)
        -> (r: Result<(), InfatError>)
        ensures
            old(self).rejects(scheme@) ==> (r matches Err(e)
                && (e matches InfatError::LaunchServicesError { message }
                    && message@ == rejected_message(scheme@))
                && *final(self) == *old(self)),
            !old(self).rejects(scheme@) ==> (r is Ok
                && table_view(final(self).scheme_defaults@)
                    == kset(table_view(old(self).scheme_defaults@), scheme@, bundle_id@)
                && final(self).uti_defaults == old(self).uti_defaults
                && final(self).scheme_handlers == old(self).scheme_handlers
                && final(self).uti_handlers == old(self).uti_handlers
                && final(self).registered_paths == old(self).registered_paths
                && final(self).ext_to_uti == old(self).ext_to_uti
                && final(self).uti_to_ext == old(self).uti_to_ext
                && final(self).rejected_targets == old(self).rejected_targets),
    {
        if strvec_contains(&self.rejected_targets, scheme) {
            return Err(rejected_error(scheme));
        }
        table_set(&mut self.scheme_defaults, scheme, bundle_id);
        Ok(())
    }

    /// Make `bundle_id` the default handler for a canonical type.  Succeeds
    /// exactly when the target is not refused; on failure nothing changes.
    pub fn set_default_app_for_uti(&mut self, uti: &str, bundle_id: &str)
        -> (r: Result<(), InfatError>)
        ensures
            old(self).rejects(uti@) ==> (r matches Err(e)
                && (e matches InfatError::LaunchServicesError { message }
                    && message@ == rejected_message(uti@))
                && *final(self) == *old(self)),
            !old(self).rejects(uti@) ==> (r is Ok
                && table_view(final(self).uti_defaults@)
                    == kset(table_view(old(self).uti_defaults@), uti@, bundle_id@)
                && final(self).scheme_defaults == old(self).scheme_defaults
                && final(self).scheme_handlers == old(self).scheme_handlers
                && final(self).uti_handlers == old(self).uti_handlers
                && final(self).registered_paths == old(self).registered_paths
                && final(self).ext_to_uti == old(self).ext_to_uti
                && final(self).uti_to_ext == old(self).uti_to_ext
                && final(self).rejected_targets == old(self).rejected_targets),
    {
        if strvec_contains(&self.rejected_targets, uti) {
            return Err(rejected_error(uti));
        }
        table_set(&mut self.uti_defaults, uti, bundle_id);
        Ok(())
    }

    /// The default handler for a URL scheme.  Absence of a default is a
    /// valid `None`, never an error.
    pub fn get_default_app_for_url_scheme(&self, scheme: &str)
        -> (r: Result<Option<String>, InfatError>)
        ensures
            r matches Ok(d) && (match d {
                Some(b) => kfind(table_view(self.scheme_defaults@), scheme@) == Some(b@),
                None => kfind(table_view(self.scheme_defaults@), scheme@) is None,
            }),
    {
        Ok(table_find(&self.scheme_defaults, scheme))
    }

    /// The default handler for a canonical type.  Absence of a default is a
    /// valid `None`, never an error.
    pub fn get_default_app_for_uti(&self, uti: &str) -> (r: Result<Option<String>, InfatError>)
        ensures
            r matches Ok(d) && (match d {
                Some(b) => kfind(table_view(self.uti_defaults@), uti@) == Some(b@),
                None => kfind(table_view(self.uti_defaults@), uti@) is None,
            }),
    {
        Ok(table_find(&self.uti_defaults, uti))
    }

    /// All applications registered for a URL scheme, in registry order; a
    /// target with nothing registered yields the empty list, never an error.
    pub fn get_all_apps_for_url_scheme(&self, scheme: &str)
        -> (r: Result<Vec<String>, InfatError>)
        ensures
            r matches Ok(v) && strs_view(v@) == (match kfind(
                list_table_view(self.scheme_handlers@), scheme@) {
                Some(l) => l,
                None => Seq::<Seq<char>>::empty(),
            }),
    {
        match list_table_find(&self.scheme_handlers, scheme) {
            Some(v) => Ok(v),
            None => Ok(Vec::new()),
        }
    }

    /// All applications registered for a canonical type, in registry order;
    /// a target with nothing registered yields the empty list, never an
    /// error.
    pub fn get_all_apps_for_uti(&self, uti: &str) -> (r: Result<Vec<String>, InfatError>)
        ensures
            r matches Ok(v) && strs_view(v@) == (match kfind(
                list_table_view(self.uti_handlers@), uti@) {
                Some(l) => l,
                None => Seq::<Seq<char>>::empty(),
            }),
    {
        match list_table_find(&self.uti_handlers, uti) {
            Some(v) => Ok(v),
            None => Ok(Vec::new()),
        }
    }

    /// Announce an application location to the registry; announcing a known
    /// location again changes nothing.
    pub fn register_application(&mut self, app_path: &str) -> (r: Result<(), InfatError>)
        ensures
            r is Ok,
            strs_view(old(self).registered_paths@).contains(app_path@)
                ==> *final(self) == *old(self),
            !strs_view(old(self).registered_paths@).contains(app_path@)
                ==> (strs_view(final(self).registered_paths@)
                        == strs_view(old(self).registered_paths@).push(app_path@)
                    && final(self).scheme_defaults == old(self).scheme_defaults
                    && final(self).uti_defaults == old(self).uti_defaults
                    && final(self).scheme_handlers == old(self).scheme_handlers
                    && final(self).uti_handlers == old(self).uti_handlers
                    && final(self).ext_to_uti == old(self).ext_to_uti
                    && final(self).uti_to_ext == old(self).uti_to_ext
                    && final(self).rejected_targets == old(self).rejected_targets),
    {
        if !strvec_contains(&self.registered_paths, app_path) {
            self.registered_paths.push(app_path.to_owned());
            proof {
                assert(strs_view(self.registered_paths@)
                    =~= strs_view(old(self).registered_paths@).push(app_path@));
            }
        }
        Ok(())
    }

    /// Derive the canonical type bound to a file extension; an extension the
    /// table cannot derive is the typed derivation failure.
    pub fn get_uti_for_extension(&self, extension: &str) -> (r: Result<String, InfatError>)
        ensures
            match kfind(table_view(self.ext_to_uti@), extension@) {
                Some(u) => r matches Ok(uti) && uti@ == u,
                None => r matches Err(e)
                    && (e matches InfatError::CouldNotDeriveUTI { extension: e2 }
                        && e2@ == extension@),
            },
    {
        match table_find(&self.ext_to_uti, extension) {
            Some(uti) => Ok(uti),
            None => Err(InfatError::CouldNotDeriveUTI { extension: extension.to_owned() }),
        }
    }

    /// The preferred extension for a canonical type; absence is a valid
    /// `None`, never an error.
    pub fn get_extension_for_uti(&self, uti: &str) -> (r: Result<Option<String>, InfatError>)
        ensures
            r matches Ok(d) && (match d {
                Some(ext) => kfind(table_view(self.uti_to_ext@), uti@) == Some(ext@),
                None => kfind(table_view(self.uti_to_ext@), uti@) is None,
            }),
    {
        Ok(table_find(&self.uti_to_ext, uti))
    }
}

} // verus!
