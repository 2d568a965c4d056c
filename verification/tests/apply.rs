use infat::config::{apply_config, ApplyEngine, Config, ConfigCandidate, find_config_file};
use infat::error::InfatError;
use infat::launch_services::HandlerRegistry;
use infat::workspace::{AppMetadata, BundleMetadata, InstalledApp, Workspace};

fn workspace_with(apps: &[(&str, &str)]) -> Workspace {
    Workspace {
        apps: apps
            .iter()
            .map(|(path, bundle_id)| InstalledApp {
                path: path.to_string(),
                metadata: BundleMetadata::Parsed(AppMetadata {
                    bundle_id: Some(bundle_id.to_string()),
                    display_name: None,
                    name: None,
                    version: None,
                    declared_types: Vec::new(),
                    declared_schemes: Vec::new(),
                }),
            })
            .collect(),
    }
}

fn registry() -> HandlerRegistry {
    let mut reg = HandlerRegistry::new();
    reg.ext_to_uti.push(("json".to_string(), "public.json".to_string()));
    reg.ext_to_uti.push(("png".to_string(), "public.png".to_string()));
    reg
}

fn pairs(v: &[(&str, &str)]) -> Vec<(String, String)> {
    v.iter().map(|(a, b)| (a.to_string(), b.to_string())).collect()
}

#[test]
fn strict_apply_stops_before_later_groups() {
    // One failing types entry under the strict policy aborts the run
    // before any extensions or schemes entry is touched.
    let ws = workspace_with(&[("/Applications/TextEditor.app", "com.example.texteditor")]);
    let mut reg = registry();
    let config = Config {
        extensions: pairs(&[("json", "TextEditor")]),
        schemes: pairs(&[("http", "TextEditor")]),
        types: pairs(&[("zip", "NowhereApp")]),
    };
    let result = apply_config(&ws, &mut reg, &config, false);
    assert!(matches!(result, Err(InfatError::ApplicationNotFound { .. })));
    assert!(reg.uti_defaults.is_empty());
    assert!(reg.scheme_defaults.is_empty());
}

#[test]
fn strict_apply_keeps_entries_applied_before_the_failure() {
    let ws = workspace_with(&[("/Applications/TextEditor.app", "com.example.texteditor")]);
    let mut reg = registry();
    let config = Config {
        extensions: Vec::new(),
        schemes: Vec::new(),
        types: pairs(&[("json", "TextEditor"), ("zip", "NowhereApp"), ("png", "TextEditor")]),
    };
    let result = apply_config(&ws, &mut reg, &config, false);
    assert!(result.is_err());
    // The first entry stayed applied; the one after the failure was never
    // attempted.
    assert_eq!(
        reg.get_default_app_for_uti("public.json").unwrap(),
        Some("com.example.texteditor".to_string())
    );
    assert_eq!(reg.get_default_app_for_uti("public.png").unwrap(), None);
}

#[test]
fn tolerant_apply_attempts_everything_and_reports() {
    // Three types entries, the second failing: the report counts two
    // successes and names the failing identifier and application.
    let ws = workspace_with(&[("/Applications/TextEditor.app", "com.example.texteditor")]);
    let mut reg = registry();
    let config = Config {
        extensions: Vec::new(),
        schemes: Vec::new(),
        types: pairs(&[("json", "TextEditor"), ("zip", "NowhereApp"), ("png", "TextEditor")]),
    };
    let report = apply_config(&ws, &mut reg, &config, true).unwrap();
    assert_eq!(report.attempted, 3);
    assert_eq!(report.succeeded, 2);
    assert_eq!(report.failures.len(), 1);
    assert_eq!(report.failures[0].identifier, "zip");
    assert_eq!(report.failures[0].app_name, "NowhereApp");
    assert!(report.failures[0].message.contains("NowhereApp"));
    assert_eq!(
        reg.get_default_app_for_uti("public.json").unwrap(),
        Some("com.example.texteditor".to_string())
    );
    assert_eq!(
        reg.get_default_app_for_uti("public.png").unwrap(),
        Some("com.example.texteditor".to_string())
    );
}

#[test]
fn single_type_entry_end_to_end() {
    // types = {json: TextEditor}, nothing else, strict policy: one
    // committed binding (public.json, com.example.texteditor), one
    // success, no failures.
    let ws = workspace_with(&[("/Applications/TextEditor.app", "com.example.texteditor")]);
    let mut reg = registry();
    let config = Config {
        extensions: Vec::new(),
        schemes: Vec::new(),
        types: pairs(&[("json", "TextEditor")]),
    };
    let report = apply_config(&ws, &mut reg, &config, false).unwrap();
    assert_eq!(report.attempted, 1);
    assert_eq!(report.succeeded, 1);
    assert!(report.failures.is_empty());
    assert_eq!(
        reg.get_default_app_for_uti("public.json").unwrap(),
        Some("com.example.texteditor".to_string())
    );
    assert_eq!(reg.uti_defaults.len(), 1);
    assert!(reg.scheme_defaults.is_empty());
}

#[test]
fn empty_configuration_is_refused() {
    let ws = workspace_with(&[]);
    let mut reg = registry();
    let config = Config::new();
    assert!(matches!(
        apply_config(&ws, &mut reg, &config, true),
        Err(InfatError::NoConfigTables)
    ));
}

#[test]
fn groups_are_processed_types_then_extensions_then_schemes() {
    // The extensions entry overrides the types entry for the same target,
    // because extensions are processed after types.
    let ws = workspace_with(&[
        ("/Applications/TextEditor.app", "com.example.texteditor"),
        ("/Applications/Viewer.app", "com.example.viewer"),
    ]);
    let mut reg = registry();
    let config = Config {
        extensions: pairs(&[("json", "Viewer")]),
        schemes: Vec::new(),
        types: pairs(&[("public.json", "TextEditor")]),
    };
    let report = apply_config(&ws, &mut reg, &config, false).unwrap();
    assert_eq!(report.succeeded, 2);
    assert_eq!(
        reg.get_default_app_for_uti("public.json").unwrap(),
        Some("com.example.viewer".to_string())
    );
}

#[test]
fn engine_steps_through_the_same_policy() {
    let config = Config {
        extensions: pairs(&[("json", "TextEditor")]),
        schemes: pairs(&[("http", "Surf")]),
        types: pairs(&[("zip", "Archiver")]),
    };
    let mut engine = ApplyEngine::new(&config, true);
    let mut seen: Vec<String> = Vec::new();
    loop {
        let identifier = match engine.current() {
            Some(entry) => entry.identifier.clone(),
            None => break,
        };
        seen.push(identifier.clone());
        if identifier == "json" {
            engine.record_failure("no such application");
        } else {
            engine.record_success();
        }
    }
    assert_eq!(seen, vec!["zip".to_string(), "json".to_string(), "http".to_string()]);
    let report = engine.into_report();
    assert_eq!(report.attempted, 3);
    assert_eq!(report.succeeded, 2);
    assert_eq!(report.failures.len(), 1);
    assert_eq!(report.failures[0].identifier, "json");

    let config2 = Config {
        extensions: pairs(&[("json", "TextEditor")]),
        schemes: Vec::new(),
        types: pairs(&[("zip", "Archiver")]),
    };
    let mut strict = ApplyEngine::new(&config2, false);
    let first = strict.current().unwrap().identifier.clone();
    assert_eq!(first, "zip");
    strict.record_failure("no such application");
    assert!(strict.current().is_none());
}

#[test]
fn config_counts_and_validation() {
    let config = Config {
        extensions: pairs(&[("json", "TextEditor")]),
        schemes: pairs(&[("http", "Surf"), ("mailto", "Mail")]),
        types: Vec::new(),
    };
    assert!(!config.is_empty());
    assert!(config.validate().is_ok());
    let summary = config.summary();
    assert_eq!(summary.extensions_count, 1);
    assert_eq!(summary.schemes_count, 2);
    assert_eq!(summary.types_count, 0);
    assert_eq!(summary.total(), 3);
    assert!(Config::new().is_empty());
    assert!(matches!(Config::new().validate(), Err(InfatError::NoConfigTables)));
}

#[test]
fn first_existing_config_candidate_wins() {
    let candidates = vec![
        ConfigCandidate { path: "/home/u/.config/infat/config.toml".to_string(), exists: false },
        ConfigCandidate { path: "/etc/xdg/infat/config.toml".to_string(), exists: true },
        ConfigCandidate { path: "/fallback/config.toml".to_string(), exists: true },
    ];
    assert_eq!(
        find_config_file(&candidates),
        Some("/etc/xdg/infat/config.toml".to_string())
    );
    assert_eq!(find_config_file(&Vec::new()), None);
}
