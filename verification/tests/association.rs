use infat::association::{
    get_info_for_extension, get_info_for_type, get_info_for_url_scheme,
    set_default_app_for_extension, set_default_app_for_type, set_default_app_for_url_scheme,
};
use infat::error::InfatError;
use infat::launch_services::HandlerRegistry;
use infat::workspace::{AppMetadata, BundleMetadata, InstalledApp, Workspace};

fn sample_workspace() -> Workspace {
    Workspace {
        apps: vec![
            InstalledApp {
                path: "/Applications/Surf.app".to_string(),
                metadata: BundleMetadata::Parsed(AppMetadata {
                    bundle_id: Some("com.example.surf".to_string()),
                    display_name: Some("Surf".to_string()),
                    name: Some("Surf".to_string()),
                    version: Some("2.0".to_string()),
                    declared_types: Vec::new(),
                    declared_schemes: vec!["http".to_string(), "https".to_string()],
                }),
            },
            InstalledApp {
                path: "/Applications/TextEditor.app".to_string(),
                metadata: BundleMetadata::Parsed(AppMetadata {
                    bundle_id: Some("com.example.texteditor".to_string()),
                    display_name: Some("Text Editor".to_string()),
                    name: Some("TextEditor".to_string()),
                    version: Some("1.0".to_string()),
                    declared_types: Vec::new(),
                    declared_schemes: Vec::new(),
                }),
            },
        ],
    }
}

fn sample_registry() -> HandlerRegistry {
    let mut reg = HandlerRegistry::new();
    reg.ext_to_uti.push(("json".to_string(), "public.json".to_string()));
    reg.ext_to_uti.push(("html".to_string(), "public.html".to_string()));
    reg
}

#[test]
fn html_extension_binds_the_http_scheme() {
    // Binding the html extension is observably identical to binding the
    // http scheme for the same application.
    let ws = sample_workspace();

    let mut via_extension = sample_registry();
    set_default_app_for_extension(&ws, &mut via_extension, "html", "Surf").unwrap();

    let mut via_scheme = sample_registry();
    set_default_app_for_url_scheme(&ws, &mut via_scheme, "http", "Surf").unwrap();

    assert_eq!(via_extension.scheme_defaults, via_scheme.scheme_defaults);
    assert_eq!(via_extension.uti_defaults, via_scheme.uti_defaults);
    assert_eq!(via_extension.registered_paths, via_scheme.registered_paths);
    assert_eq!(
        via_extension.get_default_app_for_url_scheme("http").unwrap(),
        Some("com.example.surf".to_string())
    );
    // No content-type binding was written for html.
    assert_eq!(via_extension.get_default_app_for_uti("public.html").unwrap(), None);
}

#[test]
fn html_extension_routes_in_any_letter_case() {
    let ws = sample_workspace();
    let mut reg = sample_registry();
    set_default_app_for_extension(&ws, &mut reg, "HTML", "Surf").unwrap();
    assert_eq!(
        reg.get_default_app_for_url_scheme("http").unwrap(),
        Some("com.example.surf".to_string())
    );
}

#[test]
fn https_scheme_shares_the_http_slot() {
    let ws = sample_workspace();

    let mut via_https = sample_registry();
    set_default_app_for_url_scheme(&ws, &mut via_https, "https", "Surf").unwrap();

    let mut via_http = sample_registry();
    set_default_app_for_url_scheme(&ws, &mut via_http, "http", "Surf").unwrap();

    assert_eq!(via_https.scheme_defaults, via_http.scheme_defaults);
    assert_eq!(
        via_https.get_default_app_for_url_scheme("http").unwrap(),
        Some("com.example.surf".to_string())
    );
    assert_eq!(via_https.get_default_app_for_url_scheme("https").unwrap(), None);
}

#[test]
fn web_pseudo_types_bind_the_http_scheme() {
    let ws = sample_workspace();
    for name in ["com.apple.default-app.web-browser", "public.html"] {
        let mut reg = sample_registry();
        set_default_app_for_type(&ws, &mut reg, name, "Surf").unwrap();
        assert_eq!(
            reg.get_default_app_for_url_scheme("http").unwrap(),
            Some("com.example.surf".to_string())
        );
        assert_eq!(reg.get_default_app_for_uti(name).unwrap(), None);
    }
}

#[test]
fn supertype_name_commits_under_its_canonical_string() {
    let ws = sample_workspace();
    let mut reg = sample_registry();
    set_default_app_for_type(&ws, &mut reg, "json", "TextEditor").unwrap();
    assert_eq!(
        reg.get_default_app_for_uti("public.json").unwrap(),
        Some("com.example.texteditor".to_string())
    );
    assert_eq!(reg.get_default_app_for_uti("json").unwrap(), None);
}

#[test]
fn dotted_type_passes_through_verbatim() {
    let ws = sample_workspace();
    let mut reg = sample_registry();
    set_default_app_for_type(&ws, &mut reg, "org.xiph.flac", "TextEditor").unwrap();
    assert_eq!(
        reg.get_default_app_for_uti("org.xiph.flac").unwrap(),
        Some("com.example.texteditor".to_string())
    );
}

#[test]
fn extension_binds_its_derived_type() {
    let ws = sample_workspace();
    let mut reg = sample_registry();
    set_default_app_for_extension(&ws, &mut reg, "json", "TextEditor").unwrap();
    assert_eq!(
        reg.get_default_app_for_uti("public.json").unwrap(),
        Some("com.example.texteditor".to_string())
    );
}

#[test]
fn underivable_extension_is_a_typed_failure() {
    let ws = sample_workspace();
    let mut reg = sample_registry();
    match set_default_app_for_extension(&ws, &mut reg, "zzz", "TextEditor") {
        Err(InfatError::CouldNotDeriveUTI { extension }) => assert_eq!(extension, "zzz"),
        other => panic!("expected the derivation failure, got {other:?}"),
    }
    assert!(reg.uti_defaults.is_empty());
}

#[test]
fn unknown_application_aborts_the_binding() {
    let ws = sample_workspace();
    let mut reg = sample_registry();
    match set_default_app_for_url_scheme(&ws, &mut reg, "http", "Nowhere") {
        Err(InfatError::ApplicationNotFound { name }) => assert_eq!(name, "Nowhere"),
        other => panic!("expected the lookup failure, got {other:?}"),
    }
    assert!(reg.scheme_defaults.is_empty());
    assert!(reg.registered_paths.is_empty());
}

#[test]
fn scheme_binding_registers_the_located_bundle_first() {
    let ws = sample_workspace();
    let mut reg = sample_registry();
    set_default_app_for_url_scheme(&ws, &mut reg, "http", "Surf").unwrap();
    assert_eq!(reg.registered_paths, vec!["/Applications/Surf.app".to_string()]);
}

#[test]
fn info_snapshots_read_the_registry() {
    let ws = sample_workspace();
    let mut reg = sample_registry();
    reg.uti_handlers.push((
        "public.json".to_string(),
        vec!["com.example.texteditor".to_string()],
    ));
    set_default_app_for_extension(&ws, &mut reg, "json", "TextEditor").unwrap();

    let info = get_info_for_extension(&reg, "json").unwrap();
    assert_eq!(info.identifier, ".json");
    assert_eq!(info.uti, Some("public.json".to_string()));
    assert_eq!(info.default_app, Some("com.example.texteditor".to_string()));
    assert_eq!(info.all_apps, vec!["com.example.texteditor".to_string()]);
    assert_eq!(
        info.default_app_name(&ws).unwrap(),
        Some("Text Editor".to_string())
    );
    assert_eq!(info.all_app_names(&ws), vec!["Text Editor".to_string()]);
    assert_eq!(info.all_app_paths(&ws), vec!["/Applications/TextEditor.app".to_string()]);

    let type_info = get_info_for_type(&reg, "json").unwrap();
    assert_eq!(type_info.identifier, "json");
    assert_eq!(type_info.uti, Some("public.json".to_string()));
    assert_eq!(type_info.default_app, Some("com.example.texteditor".to_string()));

    let scheme_info = get_info_for_url_scheme(&reg, "http").unwrap();
    assert_eq!(scheme_info.identifier, "http");
    assert_eq!(scheme_info.uti, None);
    assert_eq!(scheme_info.default_app, None);
    assert_eq!(scheme_info.all_apps, Vec::<String>::new());
}

#[test]
fn snapshot_names_fall_back_to_bare_identifiers() {
    let ws = sample_workspace();
    let mut reg = sample_registry();
    reg.scheme_handlers.push((
        "http".to_string(),
        vec!["com.example.surf".to_string(), "com.example.gone".to_string()],
    ));
    let info = get_info_for_url_scheme(&reg, "http").unwrap();
    assert_eq!(
        info.all_app_names(&ws),
        vec!["Surf".to_string(), "com.example.gone".to_string()]
    );
    assert_eq!(info.all_app_paths(&ws), vec!["/Applications/Surf.app".to_string()]);
}
