//! Turning the platform's stored handler table into a declared
//! configuration: each stored handler record is classified as a scheme,
//! type or extension binding, its owning application is resolved and
//! named, and system services and malformed records are passed over.

use vstd::prelude::*;
use crate::config::Config;
use crate::error::InfatError;
use crate::launch_services::{kset, table_view, table_set};
use crate::strutil::str_eq;
use crate::workspace::{
    Workspace, InstalledApp, is_system_service, is_system_service_spec, resolved_bundle_id,
    app_display_name, app_name_error_matches,
};

verus! {

/// One stored handler record, as read from the platform's handler table.
#[derive(Debug, Clone)]
pub struct LaunchServicesHandler {
    pub content_type: Option<String>,
    pub content_tag: Option<String>,
    pub content_tag_class: Option<String>,
    pub url_scheme: Option<String>,
    pub role_all: Option<String>,
    pub role_viewer: Option<String>,
    pub role_editor: Option<String>,
}

/// The three tables a generation run accumulates, how many records were
/// looked at, and whether a record failed the run under the strict policy.
pub struct GenTrace {
    pub types: Seq<(Seq<char>, Seq<char>)>,
    pub extensions: Seq<(Seq<char>, Seq<char>)>,
    pub schemes: Seq<(Seq<char>, Seq<char>)>,
    pub processed: nat,
    pub failed: bool,
}

/// Classify and fold one stored handler record.
pub open spec fn gen_step(
    apps: Seq<InstalledApp>,
    st: GenTrace,
    h: LaunchServicesHandler,
    robust: bool,
) -> GenTrace {
    if st.failed {
        st
    } else {
        let st = GenTrace { processed: st.processed + 1, ..st };
        match h.role_all {
            None => st,
            Some(b) => if b@ == "-"@ || is_system_service_spec(b@) {
                st
            } else {
                match resolved_bundle_id(apps, b@) {
                    None => if robust {
                        st
                    } else {
                        GenTrace { failed: true, ..st }
                    },
                    Some(canon) => match app_display_name(apps, canon) {
                        None => if robust {
                            st
                        } else {
                            GenTrace { failed: true, ..st }
                        },
                        Some(name) => match h.url_scheme {
                            Some(s) => GenTrace {
                                schemes: kset(st.schemes, s@, name),
                                ..st
                            },
                            None => match h.content_type {
                                Some(ct) => GenTrace {
                                    types: kset(st.types, ct@, name),
                                    ..st
                                },
                                None => match h.content_tag_class {
                                    Some(tc) => if tc@ == "public.filename-extension"@ {
                                        match h.content_tag {
                                            Some(tag) => GenTrace {
                                                extensions: kset(st.extensions, tag@, name),
                                                ..st
                                            },
                                            None => st,
                                        }
                                    } else {
                                        st
                                    },
                                    None => st,
                                },
                            },
                        },
                    },
                }
            },
        }
    }
}

/// The generation fold after the first `k` records.
pub open spec fn gen_run(
    apps: Seq<InstalledApp>,
    handlers: Seq<LaunchServicesHandler>,
    k: int,
    robust: bool,
) -> GenTrace
    decreases k,
{
    if k <= 0 {
        GenTrace {
            types: Seq::empty(),
            extensions: Seq::empty(),
            schemes: Seq::empty(),
            processed: 0,
            failed: false,
        }
    } else {
        gen_step(apps, gen_run(apps, handlers, k - 1, robust), handlers[k - 1], robust)
    }
}

/// The typed error a failing record produces: the lookup failure for an
/// owner that does not resolve, else the naming failure for its canonical
/// identifier.
pub open spec fn gen_error_matches(
    apps: Seq<InstalledApp>,
    h: LaunchServicesHandler,
    err: InfatError,
) -> bool {
    match h.role_all {
        None => false,
        Some(b) => !(b@ == "-"@ || is_system_service_spec(b@))
            && (match resolved_bundle_id(apps, b@) {
                None => err matches InfatError::ApplicationNotFound { name } && name@ == b@,
                Some(canon) => app_display_name(apps, canon) is None
                    && app_name_error_matches(apps, canon, err),
            }),
    }
}

/// Once a record fails the strict run, every later record leaves it
/// unchanged.
proof fn lemma_gen_run_absorbing(
    apps: Seq<InstalledApp>,
    handlers: Seq<LaunchServicesHandler>,
    k1: int,
    k2: int,
    robust: bool,
)
    requires
        0 <= k1 <= k2,
        gen_run(apps, handlers, k1, robust).failed,
    ensures
        gen_run(apps, handlers, k2, robust) == gen_run(apps, handlers, k1, robust),
    decreases k2 - k1,
{
    if k2 > k1 {
        lemma_gen_run_absorbing(apps, handlers, k1, k2 - 1, robust);
    }
}

/// Generate a configuration from the stored handler table.  Records with
/// no owning application, the malformed placeholder owner, and system
/// services are passed over; an owner that cannot be resolved or named
/// fails the run unless the tolerant policy was chosen.
pub fn generate_config_from_launch_services(
    ws: &Workspace,
    handlers: &Vec<LaunchServicesHandler>,
    robust: bool,
) -> (r: Result<Config, InfatError>)
    ensures
        ({
            let fin = gen_run(ws.apps@, handlers@, handlers@.len() as int, robust);
            &&& (!fin.failed ==> (r matches Ok(config) && ({
                &&& table_view(config.types@) == fin.types
                &&& table_view(config.extensions@) == fin.extensions
                &&& table_view(config.schemes@) == fin.schemes
            })))
            &&& (fin.failed ==> (r matches Err(err)
                && !robust
                && 1 <= fin.processed <= handlers@.len()
                && gen_error_matches(ws.apps@, handlers@[fin.processed - 1], err)))
        }),
{
    let n = handlers.len();
    let mut types: Vec<(String, String)> = Vec::new();
    let mut extensions: Vec<(String, String)> = Vec::new();
    let mut schemes: Vec<(String, String)> = Vec::new();
    proof {
        assert(table_view(types@) =~= Seq::<(Seq<char>, Seq<char>)>::empty());
        assert(table_view(extensions@) =~= Seq::<(Seq<char>, Seq<char>)>::empty());
        assert(table_view(schemes@) =~= Seq::<(Seq<char>, Seq<char>)>::empty());
    }
    let mut i: usize = 0;
    while i < n
        invariant
            i <= n,
            n == handlers@.len(),
            ({
                let st = gen_run(ws.apps@, handlers@, i as int, robust);
                &&& !st.failed
                &&& st.processed == i
                &&& table_view(types@) == st.types
                &&& table_view(extensions@) == st.extensions
                &&& table_view(schemes@) == st.schemes
            }),
        decreases n - i,
    {
        let h = &handlers[i];
        proof {
            assert(gen_run(ws.apps@, handlers@, i + 1, robust)
                == gen_step(ws.apps@, gen_run(ws.apps@, handlers@, i as int, robust),
                    handlers@[i as int], robust));
        }
        match &h.role_all {
            None => (),
            Some(bundle_id) => {
                if str_eq(bundle_id.as_str(), "-") || is_system_service(bundle_id.as_str()) {
                    // a malformed placeholder owner, or a system service
                } else {
                    let canonical = match ws.resolve_to_bundle_id(bundle_id.as_str()) {
                        Ok(c) => Some(c),
                        Err(_) => {
                            if robust {
                                None
                            } else {
                                proof {
                                    lemma_gen_run_absorbing(ws.apps@, handlers@,
                                        i + 1, handlers@.len() as int, robust);
                                }
                                return Err(InfatError::ApplicationNotFound {
                                    name: bundle_id.clone(),
                                });
                            }
                        },
                    };
                    match canonical {
                        None => (),
                        Some(canonical_id) => {
                            let name = match ws.get_app_name_from_bundle_id(
                                canonical_id.as_str()) {
                                Ok(nm) => Some(nm),
                                Err(e) => {
                                    if robust {
                                        None
                                    } else {
                                        proof {
                                            lemma_gen_run_absorbing(ws.apps@, handlers@,
                                                i + 1, handlers@.len() as int, robust);
                                        }
                                        return Err(e);
                                    }
                                },
                            };
                            match name {
                                None => (),
                                Some(app_name) => {
                                    match &h.url_scheme {
                                        Some(s) => {
                                            table_set(&mut schemes, s.as_str(),
                                                app_name.as_str());
                                        },
                                        None => match &h.content_type {
                                            Some(ct) => {
                                                table_set(&mut types, ct.as_str(),
                                                    app_name.as_str());
                                            },
                                            None => match &h.content_tag_class {
                                                Some(tc) => {
                                                    if str_eq(tc.as_str(),
                                                        "public.filename-extension") {
                                                        match &h.content_tag {
                                                            Some(tag) => {
                                                                table_set(&mut extensions,
                                                                    tag.as_str(),
                                                                    app_name.as_str());
                                                            },
                                                            None => (),
                                                        }
                                                    }
                                                },
                                                None => (),
                                            },
                                        },
                                    }
                                },
                            }
                        },
                    }
                }
            },
        }
        i = i + 1;
    }
    Ok(Config { extensions, schemes, types })
}

} // verus!
