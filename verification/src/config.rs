//! The declared desired state — three mappings from identifier to
//! application name — and the bulk apply engine that drives them through
//! the resolver and committer.
//!
//! Processing order is fixed: every `types` entry, then every `extensions`
//! entry, then every `schemes` entry.  Two failure policies exist, chosen
//! by the caller: stop at the first failing entry (already-applied entries
//! remain applied; nothing later is touched), or attempt every entry and
//! collect the failures into the report.

use vstd::prelude::*;
use crate::association::{
    set_default_app_for_extension, set_default_app_for_url_scheme, set_default_app_for_type,
    actual_scheme, resolved_type_target, routes_to_web,
};
use crate::error::InfatError;
use crate::launch_services::{HandlerRegistry, kfind, kset, table_view, rejected_message};
use crate::strutil::{normalized, strs_view, fold_case};
use crate::workspace::{Workspace, InstalledApp, resolved_bundle_id, resolution_error_matches};
use vstd::string::*;

verus! {

/// The three association tables of a configuration, each an ordered
/// mapping from identifier to application name.
#[derive(Debug, Clone)]
pub struct Config {
    pub extensions: Vec<(String, String)>,
    pub schemes: Vec<(String, String)>,
    pub types: Vec<(String, String)>,
}

/// Counts of the entries in each table of a configuration.
#[derive(Debug, Clone)]
pub struct ConfigSummary {
    pub extensions_count: usize,
    pub schemes_count: usize,
    pub types_count: usize,
}

impl ConfigSummary {
    /// The total number of associations the configuration declares.
    pub fn total(&self) -> (r: usize)
        requires
            self.extensions_count + self.schemes_count + self.types_count <= usize::MAX,
        ensures
            r == self.extensions_count + self.schemes_count + self.types_count,
    {
        self.extensions_count + self.schemes_count + self.types_count
    }
}

impl Config {
    /// A configuration with no associations.
    pub fn new() -> (r: Config)
        ensures
            r.extensions@ =~= Seq::<(String, String)>::empty(),
            r.schemes@ =~= Seq::<(String, String)>::empty(),
            r.types@ =~= Seq::<(String, String)>::empty(),
    {
        Config { extensions: Vec::new(), schemes: Vec::new(), types: Vec::new() }
    }

    /// Does the configuration declare no association at all?
    pub fn is_empty(&self) -> (r: bool)
        ensures
            r == (self.extensions@.len() == 0 && self.schemes@.len() == 0
                && self.types@.len() == 0),
    {
        self.extensions.len() == 0 && self.schemes.len() == 0 && self.types.len() == 0
    }

    /// A configuration is valid exactly when it declares at least one
    /// association.
    pub fn validate(&self) -> (r: Result<(), InfatError>)
        ensures
            (self.extensions@.len() == 0 && self.schemes@.len() == 0
                && self.types@.len() == 0) ==> r matches Err(InfatError::NoConfigTables),
            !(self.extensions@.len() == 0 && self.schemes@.len() == 0
                && self.types@.len() == 0) ==> r is Ok,
    {
        if self.is_empty() {
            Err(InfatError::NoConfigTables)
        } else {
            Ok(())
        }
    }

    /// The number of entries in each table.
    pub fn summary(&self) -> (r: ConfigSummary)
        ensures
            r.extensions_count == self.extensions@.len(),
            r.schemes_count == self.schemes@.len(),
            r.types_count == self.types@.len(),
    {
        ConfigSummary {
            extensions_count: self.extensions.len(),
            schemes_count: self.schemes.len(),
            types_count: self.types.len(),
        }
    }
}

/// One candidate location for the configuration file, with whether a file
/// exists there.
#[derive(Debug, Clone)]
pub struct ConfigCandidate {
    pub path: String,
    pub exists: bool,
}

/// The first existing candidate from `i` onward.
pub open spec fn first_existing_from(cs: Seq<ConfigCandidate>, i: int) -> Option<Seq<char>>
    decreases cs.len() - i,
{
    if i < 0 || i >= cs.len() {
        None
    } else if cs[i].exists {
        Some(cs[i].path@)
    } else {
        first_existing_from(cs, i + 1)
    }
}

/// The first candidate location where a configuration file exists, in
/// preference order.
pub fn find_config_file(candidates: &Vec<ConfigCandidate>) -> (r: Option<String>)
    ensures
        match r {
            Some(p) => first_existing_from(candidates@, 0) == Some(p@),
            None => first_existing_from(candidates@, 0) is None,
        },
{
    let n = candidates.len();
    let mut i: usize = 0;
    while i < n
        invariant
            i <= n,
            n == candidates@.len(),
            first_existing_from(candidates@, 0) == first_existing_from(candidates@, i as int),
        decreases n - i,
    {
        if candidates[i].exists {
            return Some(candidates[i].path.clone());
        }
        i = i + 1;
    }
    None
}

/// Which table a binding came from.
#[derive(Debug, Clone, Copy, PartialEq, Eq, Structural)]
pub enum BindingKind {
    ContentType,
    Extension,
    Scheme,
}

/// One binding to apply: its kind, the raw identifier, and the application
/// name.
#[derive(Debug, Clone)]
pub struct ApplyEntry {
    pub kind: BindingKind,
    pub identifier: String,
    pub app_name: String,
}

/// One failed binding in a report.
#[derive(Debug, Clone)]
pub struct ApplyFailure {
    pub identifier: String,
    pub app_name: String,
    pub message: String,
}

/// The outcome of a bulk apply: how many bindings were attempted, how many
/// succeeded, and the failures in the order encountered.
#[derive(Debug, Clone)]
pub struct ApplyReport {
    pub attempted: usize,
    pub succeeded: usize,
    pub failures: Vec<ApplyFailure>,
}

pub open spec fn entry_view(e: ApplyEntry) -> (BindingKind, Seq<char>, Seq<char>) {
    (e.kind, e.identifier@, e.app_name@)
}

pub open spec fn entries_view(v: Seq<ApplyEntry>) -> Seq<(BindingKind, Seq<char>, Seq<char>)> {
    v.map_values(|e: ApplyEntry| entry_view(e))
}

pub open spec fn tagged(kind: BindingKind, m: Seq<(String, String)>)
    -> Seq<(BindingKind, Seq<char>, Seq<char>)> {
    m.map_values(|p: (String, String)| (kind, p.0@, p.1@))
}

/// The bindings a configuration declares, in processing order: all types,
/// then all extensions, then all schemes.
pub open spec fn entries_spec(c: Config) -> Seq<(BindingKind, Seq<char>, Seq<char>)> {
    tagged(BindingKind::ContentType, c.types@)
        + tagged(BindingKind::Extension, c.extensions@)
        + tagged(BindingKind::Scheme, c.schemes@)
}

/// The canonical target a binding is committed under, when one can be
/// derived: a scheme target or a content-type target.
pub open spec fn entry_target(
    ext_tbl: Seq<(Seq<char>, Seq<char>)>,
    kind: BindingKind,
    id: Seq<char>,
) -> Option<(bool, Seq<char>)> {
    match kind {
        BindingKind::ContentType => if routes_to_web(id) {
            Some((true, "http"@))
        } else {
            Some((false, resolved_type_target(id)))
        },
        BindingKind::Extension => if normalized(id) == "html"@ {
            Some((true, "http"@))
        } else {
            match kfind(ext_tbl, id) {
                Some(u) => Some((false, u)),
                None => None,
            }
        },
        BindingKind::Scheme => Some((true, actual_scheme(id))),
    }
}

/// Does this binding commit successfully?  Success depends only on data no
/// apply step changes: the application catalog, the derivation table, and
/// the refused targets.
pub open spec fn entry_succeeds(
    apps: Seq<InstalledApp>,
    ext_tbl: Seq<(Seq<char>, Seq<char>)>,
    rejected: Seq<Seq<char>>,
    e: (BindingKind, Seq<char>, Seq<char>),
) -> bool {
    match entry_target(ext_tbl, e.0, e.1) {
        None => false,
        Some((is_scheme, target)) => resolved_bundle_id(apps, e.2) is Some
            && !rejected.contains(target),
    }
}

/// The typed error a failing binding produces, in the order the
/// committing functions check: target derivation, then application
/// resolution, then the handler assignment itself.
pub open spec fn entry_error_matches(
    apps: Seq<InstalledApp>,
    ext_tbl: Seq<(Seq<char>, Seq<char>)>,
    rejected: Seq<Seq<char>>,
    e: (BindingKind, Seq<char>, Seq<char>),
    err: InfatError,
) -> bool {
    match entry_target(ext_tbl, e.0, e.1) {
        None => err matches InfatError::CouldNotDeriveUTI { extension }
            && extension@ == e.1,
        Some((is_scheme, target)) => if resolved_bundle_id(apps, e.2) is None {
            resolution_error_matches(apps, e.2, err)
        } else {
            rejected.contains(target)
                && (err matches InfatError::LaunchServicesError { message }
                    && message@ == rejected_message(target))
        },
    }
}

/// The engine state the apply fold tracks: the two default tables, the
/// counts, the failures collected so far, and whether a failure aborted
/// the run.
pub struct ApplyTrace {
    pub uti_defaults: Seq<(Seq<char>, Seq<char>)>,
    pub scheme_defaults: Seq<(Seq<char>, Seq<char>)>,
    pub processed: nat,
    pub succeeded: nat,
    pub failures: Seq<(Seq<char>, Seq<char>)>,
    pub aborted: bool,
}

/// One step of the apply fold: attempt one binding under the chosen
/// failure policy.
pub open spec fn apply_step(
    apps: Seq<InstalledApp>,
    ext_tbl: Seq<(Seq<char>, Seq<char>)>,
    rejected: Seq<Seq<char>>,
    st: ApplyTrace,
    e: (BindingKind, Seq<char>, Seq<char>),
    robust: bool,
) -> ApplyTrace {
    if st.aborted {
        st
    } else if entry_succeeds(apps, ext_tbl, rejected, e) {
        let t = entry_target(ext_tbl, e.0, e.1)->0;
        ApplyTrace {
            uti_defaults: if t.0 {
                st.uti_defaults
            } else {
                kset(st.uti_defaults, t.1, resolved_bundle_id(apps, e.2)->0)
            },
            scheme_defaults: if t.0 {
                kset(st.scheme_defaults, t.1, resolved_bundle_id(apps, e.2)->0)
            } else {
                st.scheme_defaults
            },
            processed: st.processed + 1,
            succeeded: st.succeeded + 1,
            failures: st.failures,
            aborted: false,
        }
    } else if robust {
        ApplyTrace {
            uti_defaults: st.uti_defaults,
            scheme_defaults: st.scheme_defaults,
            processed: st.processed + 1,
            succeeded: st.succeeded,
            failures: st.failures.push((e.1, e.2)),
            aborted: false,
        }
    } else {
        ApplyTrace {
            uti_defaults: st.uti_defaults,
            scheme_defaults: st.scheme_defaults,
            processed: st.processed + 1,
            succeeded: st.succeeded,
            failures: st.failures,
            aborted: true,
        }
    }
}

/// The apply fold after the first `k` bindings.
pub open spec fn apply_run(
    apps: Seq<InstalledApp>,
    ext_tbl: Seq<(Seq<char>, Seq<char>)>,
    rejected: Seq<Seq<char>>,
    entries: Seq<(BindingKind, Seq<char>, Seq<char>)>,
    k: int,
    init: ApplyTrace,
    robust: bool,
) -> ApplyTrace
    decreases k,
{
    if k <= 0 {
        init
    } else {
        apply_step(apps, ext_tbl, rejected,
            apply_run(apps, ext_tbl, rejected, entries, k - 1, init, robust),
            entries[k - 1], robust)
    }
}

/// The scheme `http` is its own canonical target.
pub proof fn lemma_actual_http()
    ensures
        actual_scheme("http"@) == "http"@,
{
    reveal_strlit("http");
    reveal_strlit("https");
    assert(fold_case("http"@).len() == 4);
    assert(actual_scheme("http"@) == "http"@);
}

/// Once a step aborts the fold, every later step leaves it unchanged.
pub proof fn lemma_apply_run_absorbing(
    apps: Seq<InstalledApp>,
    ext_tbl: Seq<(Seq<char>, Seq<char>)>,
    rejected: Seq<Seq<char>>,
    entries: Seq<(BindingKind, Seq<char>, Seq<char>)>,
    k1: int,
    k2: int,
    init: ApplyTrace,
    robust: bool,
)
    requires
        0 <= k1 <= k2,
        apply_run(apps, ext_tbl, rejected, entries, k1, init, robust).aborted,
    ensures
        apply_run(apps, ext_tbl, rejected, entries, k2, init, robust)
            == apply_run(apps, ext_tbl, rejected, entries, k1, init, robust),
    decreases k2 - k1,
{
    if k2 > k1 {
        lemma_apply_run_absorbing(apps, ext_tbl, rejected, entries, k1, k2 - 1, init, robust);
    }
}

/// The fold state a registry and untouched counters start from.
pub open spec fn initial_trace(reg: HandlerRegistry) -> ApplyTrace {
    ApplyTrace {
        uti_defaults: table_view(reg.uti_defaults@),
        scheme_defaults: table_view(reg.scheme_defaults@),
        processed: 0,
        succeeded: 0,
        failures: Seq::empty(),
        aborted: false,
    }
}

/// The views of a failure list: identifier and application name of each.
pub open spec fn failures_view(v: Seq<ApplyFailure>) -> Seq<(Seq<char>, Seq<char>)> {
    v.map_values(|f: ApplyFailure| (f.identifier@, f.app_name@))
}

fn push_tagged(out: &mut Vec<ApplyEntry>, kind: BindingKind, m: &Vec<(String, String)>)
    ensures
        entries_view(final(out)@) == entries_view(old(out)@) + tagged(kind, m@),
{
    let n = m.len();
    proof {
        assert(entries_view(out@) + tagged(kind, m@.subrange(0, 0)) =~= entries_view(out@));
    }
    let mut i: usize = 0;
    while i < n
        invariant
            i <= n,
            n == m@.len(),
            entries_view(out@) == entries_view(old(out)@) + tagged(kind, m@.subrange(0, i as int)),
        decreases n - i,
    {
        let ghost prev = out@;
        out.push(ApplyEntry {
            kind,
            identifier: m[i].0.clone(),
            app_name: m[i].1.clone(),
        });
        proof {
            let target = entries_view(old(out)@) + tagged(kind, m@.subrange(0, i + 1 as int));
            assert(out@.len() == prev.len() + 1);
            assert(entries_view(prev).len() == prev.len());
            assert(target.len() == prev.len() + 1);
            assert forall|j: int| 0 <= j < out@.len() implies entries_view(out@)[j]
                == target[j] by {
                if j < prev.len() {
                    assert(out@[j] == prev[j]);
                    assert(entries_view(prev)[j]
                        == (entries_view(old(out)@) + tagged(kind, m@.subrange(0, i as int)))[j]);
                } else {
                    assert(out@[j] == out@.last());
                    assert(m@.subrange(0, i + 1 as int)[j - entries_view(old(out)@).len()]
                        == m@[i as int]);
                }
            }
            assert(entries_view(out@) =~= target);
        }
        i = i + 1;
    }
    proof {
        assert(m@.subrange(0, n as int) =~= m@);
    }
}

/// The bindings of a configuration, in processing order.
pub fn build_entries(config: &Config) -> (r: Vec<ApplyEntry>)
    ensures
        entries_view(r@) == entries_spec(*config),
{
    let mut out: Vec<ApplyEntry> = Vec::new();
    proof {
        assert(entries_view(out@) =~= Seq::<(BindingKind, Seq<char>, Seq<char>)>::empty());
    }
    push_tagged(&mut out, BindingKind::ContentType, &config.types);
    push_tagged(&mut out, BindingKind::Extension, &config.extensions);
    push_tagged(&mut out, BindingKind::Scheme, &config.schemes);
    proof {
        assert(entries_view(out@) =~= entries_spec(*config));
    }
    out
}

/// Apply every binding of a configuration to the registry, in processing
/// order, under the chosen failure policy.  The outcome is the apply fold
/// over the declared bindings: stopping at the first failure when
/// `robust` is false, collecting every failure into the report when it is
/// true.
pub fn apply_config(
    ws: &Workspace,
    reg: &mut HandlerRegistry,
    config: &Config,
    robust: bool,
) -> (r: Result<ApplyReport, InfatError>)
    ensures
        ({
            let entries = entries_spec(*config);
            let fin = apply_run(ws.apps@, table_view(old(reg).ext_to_uti@),
                strs_view(old(reg).rejected_targets@), entries, entries.len() as int,
                initial_trace(*old(reg)), robust);
            &&& (entries.len() == 0 ==> (r matches Err(InfatError::NoConfigTables))
                && *final(reg) == *old(reg))
            &&& (entries.len() > 0 ==> {
                &&& final(reg).ext_to_uti == old(reg).ext_to_uti
                &&& final(reg).uti_to_ext == old(reg).uti_to_ext
                &&& final(reg).rejected_targets == old(reg).rejected_targets
                &&& final(reg).scheme_handlers == old(reg).scheme_handlers
                &&& final(reg).uti_handlers == old(reg).uti_handlers
                &&& table_view(final(reg).uti_defaults@) == fin.uti_defaults
                &&& table_view(final(reg).scheme_defaults@) == fin.scheme_defaults
                &&& (fin.aborted ==> (r matches Err(err)
                    && !robust
                    && 1 <= fin.processed <= entries.len()
                    && entry_error_matches(ws.apps@, table_view(old(reg).ext_to_uti@),
                        strs_view(old(reg).rejected_targets@),
                        entries[fin.processed - 1], err)))
                &&& (!fin.aborted ==> (r matches Ok(report)
                    && report.attempted == entries.len()
                    && report.succeeded == fin.succeeded
                    && failures_view(report.failures@) == fin.failures))
            })
        }),
{
    match config.validate() {
        Ok(()) => (),
        Err(e) => {
            proof {
                assert(entries_spec(*config).len() == 0) by {
                    assert(tagged(BindingKind::ContentType, config.types@).len()
                        == config.types@.len());
                }
            }
            return Err(e);
        },
    }
    let entries = build_entries(config);
    proof {
        assert(entries_spec(*config).len() > 0) by {
            assert(entries_view(entries@).len() == entries_spec(*config).len());
        }
    }
    let n = entries.len();
    let mut succeeded: usize = 0;
    let mut failures: Vec<ApplyFailure> = Vec::new();
    let ghost apps = ws.apps@;
    let ghost ext_tbl = table_view(reg.ext_to_uti@);
    let ghost rejected = strs_view(reg.rejected_targets@);
    let ghost entries_v = entries_spec(*config);
    let ghost init = initial_trace(*reg);
    let mut i: usize = 0;
    while i < n
        invariant
            i <= n,
            n == entries@.len(),
            entries_view(entries@) == entries_v,
            apps == ws.apps@,
            entries_v == entries_spec(*config),
            ext_tbl == table_view(old(reg).ext_to_uti@),
            rejected == strs_view(old(reg).rejected_targets@),
            init == initial_trace(*old(reg)),
            ({
                let st = apply_run(apps, ext_tbl, rejected, entries_v, i as int, init, robust);
                &&& !st.aborted
                &&& st.processed == i
                &&& st.succeeded == succeeded
                &&& failures_view(failures@) == st.failures
                &&& table_view(reg.uti_defaults@) == st.uti_defaults
                &&& table_view(reg.scheme_defaults@) == st.scheme_defaults
            }),
            table_view(reg.ext_to_uti@) == ext_tbl,
            strs_view(reg.rejected_targets@) == rejected,
            reg.ext_to_uti == old(reg).ext_to_uti,
            reg.uti_to_ext == old(reg).uti_to_ext,
            reg.rejected_targets == old(reg).rejected_targets,
            reg.scheme_handlers == old(reg).scheme_handlers,
            reg.uti_handlers == old(reg).uti_handlers,
            succeeded <= i,
        decreases n - i,
    {
        let entry = &entries[i];
        let outcome = match entry.kind {
            BindingKind::ContentType => set_default_app_for_type(
                ws, reg, entry.identifier.as_str(), entry.app_name.as_str()),
            BindingKind::Extension => set_default_app_for_extension(
                ws, reg, entry.identifier.as_str(), entry.app_name.as_str()),
            BindingKind::Scheme => set_default_app_for_url_scheme(
                ws, reg, entry.identifier.as_str(), entry.app_name.as_str()),
        };
        proof {
            lemma_actual_http();
            assert(entries_view(entries@)[i as int] == entry_view(entries@[i as int]));
            let st = apply_run(apps, ext_tbl, rejected, entries_v, i as int, init, robust);
            let ev = entries_v[i as int];
            assert(apply_run(apps, ext_tbl, rejected, entries_v, i + 1, init, robust)
                == apply_step(apps, ext_tbl, rejected, st, ev, robust));
            if outcome is Ok {
                assert(entry_succeeds(apps, ext_tbl, rejected, ev));
            } else {
                assert(!entry_succeeds(apps, ext_tbl, rejected, ev));
            }
        }
        match outcome {
            Ok(()) => {
                succeeded = succeeded + 1;
            },
            Err(e) => {
                if robust {
                    let ghost prevf = failures@;
                    failures.push(ApplyFailure {
                        identifier: entry.identifier.clone(),
                        app_name: entry.app_name.clone(),
                        message: e.describe(),
                    });
                    proof {
                        assert(failures_view(failures@)
                            =~= failures_view(prevf).push(
                                (entries_v[i as int].1, entries_v[i as int].2)));
                    }
                } else {
                    proof {
                        assert(entry_error_matches(apps, ext_tbl, rejected,
                            entries_v[i as int], e));
                        lemma_apply_run_absorbing(apps, ext_tbl, rejected, entries_v,
                            i + 1, entries_v.len() as int, init, robust);
                    }
                    return Err(e);
                }
            },
        }
        i = i + 1;
    }
    Ok(ApplyReport { attempted: n, succeeded, failures })
}

/// The apply policy as a stepping engine: a driver takes the next
/// binding, performs it against its own registry, and records the
/// outcome; the engine decides whether the run continues and accumulates
/// the report.  The policy is the same one `apply_config` proves: stop at
/// the first failure, or collect every failure.
pub struct ApplyEngine {
    pub entries: Vec<ApplyEntry>,
    pub next: usize,
    pub robust: bool,
    pub succeeded: usize,
    pub failures: Vec<ApplyFailure>,
    pub aborted: bool,
}

impl ApplyEngine {
    pub open spec fn wf(&self) -> bool {
        self.next <= self.entries@.len() && self.succeeded <= self.next
    }

    /// An engine over a configuration's bindings, in processing order.
    pub fn new(config: &Config, robust: bool) -> (r: ApplyEngine)
        ensures
            r.wf(),
            entries_view(r.entries@) == entries_spec(*config),
            r.next == 0,
            r.robust == robust,
            r.succeeded == 0,
            r.failures@.len() == 0,
            !r.aborted,
    {
        ApplyEngine {
            entries: build_entries(config),
            next: 0,
            robust,
            succeeded: 0,
            failures: Vec::new(),
            aborted: false,
        }
    }

    /// The binding to attempt next, while the run is still going.
    pub fn current(&self) -> (r: Option<&ApplyEntry>)
        ensures
            match r {
                Some(e) => !self.aborted && self.next < self.entries@.len()
                    && *e == self.entries@[self.next as int],
                None => self.aborted || self.next >= self.entries@.len(),
            },
    {
        if !self.aborted && self.next < self.entries.len() {
            Some(&self.entries[self.next])
        } else {
            None
        }
    }

    /// Record that the current binding committed.
    pub fn record_success(&mut self)
        requires
            old(self).wf(),
            !old(self).aborted,
            old(self).next < old(self).entries@.len(),
        ensures
            final(self).wf(),
            final(self).next == old(self).next + 1,
            final(self).succeeded == old(self).succeeded + 1,
            final(self).entries == old(self).entries,
            final(self).robust == old(self).robust,
            final(self).failures == old(self).failures,
            final(self).aborted == old(self).aborted,
    {
        let n = self.entries.len();
        assert(self.next < n);
        self.next = self.next + 1;
        self.succeeded = self.succeeded + 1;
    }

    /// Record that the current binding failed, with its description.
    /// Under the tolerant policy the failure joins the report and the run
    /// goes on; under the strict policy the run aborts.
    pub fn record_failure(&mut self, message: &str)
        requires
            old(self).wf(),
            !old(self).aborted,
            old(self).next < old(self).entries@.len(),
        ensures
            final(self).wf(),
            final(self).entries == old(self).entries,
            final(self).robust == old(self).robust,
            final(self).succeeded == old(self).succeeded,
            old(self).robust ==> ({
                &&& final(self).next == old(self).next + 1
                &&& !final(self).aborted
                &&& failures_view(final(self).failures@) == failures_view(
                    old(self).failures@).push((
                        old(self).entries@[old(self).next as int].identifier@,
                        old(self).entries@[old(self).next as int].app_name@,
                    ))
                &&& final(self).failures@.last().message@ == message@
            }),
            !old(self).robust ==> ({
                &&& final(self).aborted
                &&& final(self).next == old(self).next
                &&& final(self).failures == old(self).failures
            }),
    {
        if self.robust {
            let n = self.entries.len();
            assert(self.next < n);
            let ghost prevf = self.failures@;
            let entry = &self.entries[self.next];
            self.failures.push(ApplyFailure {
                identifier: entry.identifier.clone(),
                app_name: entry.app_name.clone(),
                message: message.to_owned(),
            });
            self.next = self.next + 1;
            proof {
                assert(failures_view(self.failures@) =~= failures_view(prevf).push((
                    self.entries@[(self.next - 1) as int].identifier@,
                    self.entries@[(self.next - 1) as int].app_name@,
                )));
            }
        } else {
            self.aborted = true;
        }
    }

    /// The report of a run that was not aborted.
    pub fn into_report(self) -> (r: ApplyReport)
        requires
            !self.aborted,
        ensures
            r.attempted == self.entries@.len(),
            r.succeeded == self.succeeded,
            r.failures == self.failures,
    {
        ApplyReport {
            attempted: self.entries.len(),
            succeeded: self.succeeded,
            failures: self.failures,
        }
    }
}

} // verus!
