use infat::error::InfatError;
use infat::workspace::{
    AppMetadata, BundleMetadata, InstalledApp, Workspace, is_system_service,
};

fn meta(bundle_id: &str, display: Option<&str>, name: Option<&str>) -> BundleMetadata {
    BundleMetadata::Parsed(AppMetadata {
        bundle_id: Some(bundle_id.to_string()),
        display_name: display.map(|s| s.to_string()),
        name: name.map(|s| s.to_string()),
        version: Some("1.0".to_string()),
        declared_types: Vec::new(),
        declared_schemes: Vec::new(),
    })
}

fn sample() -> Workspace {
    Workspace {
        apps: vec![
            InstalledApp {
                path: "/Applications/TextEditor.app".to_string(),
                metadata: meta("com.example.texteditor", Some("Text Editor"), Some("TextEditor")),
            },
            InstalledApp {
                path: "/Applications/Surf.app".to_string(),
                metadata: meta("com.example.surf", None, Some("Surf")),
            },
            InstalledApp {
                path: "/Applications/Broken.app".to_string(),
                metadata: BundleMetadata::Unreadable { message: "truncated".to_string() },
            },
            InstalledApp {
                path: "/Applications/NoPlist.app".to_string(),
                metadata: BundleMetadata::Missing,
            },
        ],
    }
}

#[test]
fn find_by_bundle_identifier_first_when_dotted() {
    let ws = sample();
    assert_eq!(
        ws.find_application("com.example.surf").unwrap(),
        Some("/Applications/Surf.app".to_string())
    );
}

#[test]
fn find_by_literal_bundle_path() {
    let ws = sample();
    assert_eq!(
        ws.find_application("/Applications/Surf.app").unwrap(),
        Some("/Applications/Surf.app".to_string())
    );
}

#[test]
fn find_by_name_ignores_ascii_case() {
    let ws = sample();
    assert_eq!(
        ws.find_application("surf").unwrap(),
        Some("/Applications/Surf.app".to_string())
    );
    assert_eq!(
        ws.find_application("TEXTEDITOR").unwrap(),
        Some("/Applications/TextEditor.app".to_string())
    );
    assert_eq!(ws.find_application("nowhere").unwrap(), None);
}

#[test]
fn resolve_to_bundle_id_composes_find_and_read() {
    let ws = sample();
    assert_eq!(
        ws.resolve_to_bundle_id("Surf").unwrap(),
        "com.example.surf".to_string()
    );
    match ws.resolve_to_bundle_id("nowhere") {
        Err(InfatError::ApplicationNotFound { name }) => assert_eq!(name, "nowhere"),
        other => panic!("expected the lookup failure, got {other:?}"),
    }
}

#[test]
fn unreadable_and_missing_metadata_are_distinguished() {
    let ws = sample();
    match ws.get_bundle_id_from_app_path("/Applications/Broken.app") {
        Err(InfatError::PlistReadError { path, message }) => {
            assert_eq!(path, "/Applications/Broken.app");
            assert_eq!(message, "truncated");
        },
        other => panic!("expected the unreadable-metadata failure, got {other:?}"),
    }
    assert!(matches!(
        ws.get_bundle_id_from_app_path("/Applications/NoPlist.app"),
        Err(InfatError::InfoPlistNotFound { .. })
    ));
    assert!(matches!(
        ws.get_bundle_id_from_app_path("/somewhere/else.app"),
        Err(InfatError::InfoPlistNotFound { .. })
    ));
}

#[test]
fn missing_identifier_field_is_its_own_failure() {
    let ws = Workspace {
        apps: vec![InstalledApp {
            path: "/Applications/Anon.app".to_string(),
            metadata: BundleMetadata::Parsed(AppMetadata {
                bundle_id: None,
                display_name: None,
                name: None,
                version: None,
                declared_types: Vec::new(),
                declared_schemes: Vec::new(),
            }),
        }],
    };
    assert!(matches!(
        ws.get_bundle_id_from_app_path("/Applications/Anon.app"),
        Err(InfatError::BundleIdNotFound { .. })
    ));
}

#[test]
fn display_name_prefers_display_then_name_then_unknown() {
    let ws = sample();
    assert_eq!(
        ws.get_app_name_from_bundle_id("com.example.texteditor").unwrap(),
        "Text Editor".to_string()
    );
    assert_eq!(
        ws.get_app_name_from_bundle_id("com.example.surf").unwrap(),
        "Surf".to_string()
    );
    match ws.get_app_name_from_bundle_id("com.example.gone") {
        Err(InfatError::ApplicationNotFound { name }) => assert_eq!(name, "com.example.gone"),
        other => panic!("expected the lookup failure, got {other:?}"),
    }
}

#[test]
fn system_services_are_refused_by_name_lookup() {
    let ws = sample();
    match ws.get_app_name_from_bundle_id("com.apple.sharingservice") {
        Err(InfatError::SystemService { bundle }) => {
            assert_eq!(bundle, "com.apple.sharingservice");
        },
        other => panic!("expected the system-service refusal, got {other:?}"),
    }
}

#[test]
fn system_service_heuristic() {
    assert!(is_system_service("com.apple.sharingservice"));
    assert!(is_system_service("com.apple.dock.ui"));
    assert!(is_system_service("com.apple.somedaemon"));
    assert!(!is_system_service("com.example.service"));
    assert!(!is_system_service("com.apple.Safari"));
    // The substring heuristic matches anywhere in the identifier, so this
    // hypothetical identifier counts as a service too.
    assert!(is_system_service("com.apple.guitar"));
}

#[test]
fn paths_for_bundle_id_lists_all_locations() {
    let mut ws = sample();
    ws.apps.push(InstalledApp {
        path: "/Users/someone/Applications/Surf.app".to_string(),
        metadata: meta("com.example.surf", None, Some("Surf")),
    });
    assert_eq!(
        ws.get_app_paths_for_bundle_id("com.example.surf").unwrap(),
        vec![
            "/Applications/Surf.app".to_string(),
            "/Users/someone/Applications/Surf.app".to_string()
        ]
    );
    assert_eq!(
        ws.get_app_paths_for_bundle_id("com.example.gone").unwrap(),
        Vec::<String>::new()
    );
}

#[test]
fn find_applications_lists_bundles_in_scan_order() {
    let mut ws = sample();
    ws.apps.push(InstalledApp {
        path: "/Applications/notes.txt".to_string(),
        metadata: BundleMetadata::Missing,
    });
    assert_eq!(
        ws.find_applications().unwrap(),
        vec![
            "/Applications/TextEditor.app".to_string(),
            "/Applications/Surf.app".to_string(),
            "/Applications/Broken.app".to_string(),
            "/Applications/NoPlist.app".to_string(),
        ]
    );
}
