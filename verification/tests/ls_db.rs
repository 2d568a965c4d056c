use infat::error::InfatError;
use infat::launch_services_db::{generate_config_from_launch_services, LaunchServicesHandler};
use infat::workspace::{AppMetadata, BundleMetadata, InstalledApp, Workspace};

fn handler() -> LaunchServicesHandler {
    LaunchServicesHandler {
        content_type: None,
        content_tag: None,
        content_tag_class: None,
        url_scheme: None,
        role_all: None,
        role_viewer: None,
        role_editor: None,
    }
}

fn ws() -> Workspace {
    Workspace {
        apps: vec![InstalledApp {
            path: "/Applications/Surf.app".to_string(),
            metadata: BundleMetadata::Parsed(AppMetadata {
                bundle_id: Some("com.example.surf".to_string()),
                display_name: Some("Surf".to_string()),
                name: None,
                version: None,
                declared_types: Vec::new(),
                declared_schemes: Vec::new(),
            }),
        }],
    }
}

#[test]
fn records_are_classified_into_the_three_tables() {
    let handlers = vec![
        LaunchServicesHandler {
            url_scheme: Some("http".to_string()),
            role_all: Some("com.example.surf".to_string()),
            ..handler()
        },
        LaunchServicesHandler {
            content_type: Some("public.html".to_string()),
            role_all: Some("com.example.surf".to_string()),
            ..handler()
        },
        LaunchServicesHandler {
            content_tag: Some("html".to_string()),
            content_tag_class: Some("public.filename-extension".to_string()),
            role_all: Some("com.example.surf".to_string()),
            ..handler()
        },
    ];
    let config = generate_config_from_launch_services(&ws(), &handlers, false).unwrap();
    assert_eq!(config.schemes, vec![("http".to_string(), "Surf".to_string())]);
    assert_eq!(config.types, vec![("public.html".to_string(), "Surf".to_string())]);
    assert_eq!(config.extensions, vec![("html".to_string(), "Surf".to_string())]);
}

#[test]
fn placeholder_and_service_owners_are_passed_over() {
    let handlers = vec![
        LaunchServicesHandler {
            url_scheme: Some("http".to_string()),
            role_all: Some("-".to_string()),
            ..handler()
        },
        LaunchServicesHandler {
            url_scheme: Some("mailto".to_string()),
            role_all: Some("com.apple.mailservice".to_string()),
            ..handler()
        },
        LaunchServicesHandler { url_scheme: Some("ftp".to_string()), ..handler() },
    ];
    let config = generate_config_from_launch_services(&ws(), &handlers, false).unwrap();
    assert!(config.schemes.is_empty());
    assert!(config.types.is_empty());
    assert!(config.extensions.is_empty());
}

#[test]
fn unresolved_owner_fails_strictly_and_is_skipped_tolerantly() {
    let handlers = vec![LaunchServicesHandler {
        url_scheme: Some("http".to_string()),
        role_all: Some("com.example.gone".to_string()),
        ..handler()
    }];
    match generate_config_from_launch_services(&ws(), &handlers, false) {
        Err(InfatError::ApplicationNotFound { name }) => assert_eq!(name, "com.example.gone"),
        other => panic!("expected the lookup failure, got {other:?}"),
    }
    let config = generate_config_from_launch_services(&ws(), &handlers, true).unwrap();
    assert!(config.schemes.is_empty());
}

#[test]
fn other_tag_classes_are_ignored() {
    let handlers = vec![LaunchServicesHandler {
        content_tag: Some("html".to_string()),
        content_tag_class: Some("public.mime-type".to_string()),
        role_all: Some("com.example.surf".to_string()),
        ..handler()
    }];
    let config = generate_config_from_launch_services(&ws(), &handlers, false).unwrap();
    assert!(config.extensions.is_empty());
}
