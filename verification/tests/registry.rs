use infat::error::InfatError;
use infat::launch_services::HandlerRegistry;

fn seeded() -> HandlerRegistry {
    let mut reg = HandlerRegistry::new();
    reg.ext_to_uti.push(("json".to_string(), "public.json".to_string()));
    reg.ext_to_uti.push(("png".to_string(), "public.png".to_string()));
    reg.uti_to_ext.push(("public.json".to_string(), "json".to_string()));
    reg.uti_handlers.push((
        "public.json".to_string(),
        vec!["com.example.texteditor".to_string(), "com.example.viewer".to_string()],
    ));
    reg
}

#[test]
fn set_default_twice_is_idempotent() {
    // Setting the same (target, app) pair twice leaves get_default exactly
    // as one setting does.
    let mut once = seeded();
    once.set_default_app_for_uti("public.json", "com.example.texteditor").unwrap();

    let mut twice = seeded();
    twice.set_default_app_for_uti("public.json", "com.example.texteditor").unwrap();
    twice.set_default_app_for_uti("public.json", "com.example.texteditor").unwrap();

    assert_eq!(
        once.get_default_app_for_uti("public.json").unwrap(),
        twice.get_default_app_for_uti("public.json").unwrap()
    );
    assert_eq!(
        twice.get_default_app_for_uti("public.json").unwrap(),
        Some("com.example.texteditor".to_string())
    );
    assert_eq!(once.uti_defaults.len(), twice.uti_defaults.len());
}

#[test]
fn unregistered_target_reads_as_absent_not_error() {
    let reg = HandlerRegistry::new();
    assert_eq!(reg.get_default_app_for_uti("public.json").unwrap(), None);
    assert_eq!(reg.get_default_app_for_url_scheme("mailto").unwrap(), None);
    assert_eq!(reg.get_all_apps_for_uti("public.json").unwrap(), Vec::<String>::new());
    assert_eq!(reg.get_all_apps_for_url_scheme("mailto").unwrap(), Vec::<String>::new());
    assert_eq!(reg.get_extension_for_uti("public.json").unwrap(), None);
}

#[test]
fn all_handlers_keep_registry_order() {
    let reg = seeded();
    assert_eq!(
        reg.get_all_apps_for_uti("public.json").unwrap(),
        vec!["com.example.texteditor".to_string(), "com.example.viewer".to_string()]
    );
}

#[test]
fn extension_derivation_and_its_failure() {
    let reg = seeded();
    assert_eq!(reg.get_uti_for_extension("json").unwrap(), "public.json");
    match reg.get_uti_for_extension("zzz") {
        Err(InfatError::CouldNotDeriveUTI { extension }) => assert_eq!(extension, "zzz"),
        other => panic!("expected the derivation failure, got {other:?}"),
    }
}

#[test]
fn preferred_extension_lookup() {
    let reg = seeded();
    assert_eq!(
        reg.get_extension_for_uti("public.json").unwrap(),
        Some("json".to_string())
    );
}

#[test]
fn rejected_target_fails_with_status_and_changes_nothing() {
    let mut reg = seeded();
    reg.rejected_targets.push("public.json".to_string());
    match reg.set_default_app_for_uti("public.json", "com.example.texteditor") {
        Err(InfatError::LaunchServicesError { message }) => {
            assert!(message.contains("public.json"));
        },
        other => panic!("expected the registry failure, got {other:?}"),
    }
    assert_eq!(reg.get_default_app_for_uti("public.json").unwrap(), None);
}

#[test]
fn registering_a_location_twice_records_it_once() {
    let mut reg = HandlerRegistry::new();
    reg.register_application("/Applications/Viewer.app").unwrap();
    reg.register_application("/Applications/Viewer.app").unwrap();
    assert_eq!(reg.registered_paths, vec!["/Applications/Viewer.app".to_string()]);
}

#[test]
fn setting_a_new_key_keeps_other_bindings() {
    let mut reg = seeded();
    reg.set_default_app_for_uti("public.json", "com.example.texteditor").unwrap();
    reg.set_default_app_for_uti("public.png", "com.example.viewer").unwrap();
    assert_eq!(
        reg.get_default_app_for_uti("public.json").unwrap(),
        Some("com.example.texteditor".to_string())
    );
    assert_eq!(
        reg.get_default_app_for_uti("public.png").unwrap(),
        Some("com.example.viewer".to_string())
    );
}
