use infat::error::{InfatError, InfatErrorExt};
use infat::GlobalOptions;

#[test]
fn kind_names_are_stable() {
    let e = InfatError::CouldNotDeriveUTI { extension: "zzz".to_string() };
    assert_eq!(e.kind_name(), "could-not-derive-uti");
    assert_eq!(InfatError::NoConfigTables.kind_name(), "no-config-tables");
    let s = InfatError::SystemService { bundle: "com.apple.dock.ui".to_string() };
    assert_eq!(s.kind_name(), "system-service");
}

#[test]
fn descriptions_carry_the_inputs() {
    let e = InfatError::ApplicationNotFound { name: "Nowhere".to_string() };
    assert_eq!(e.describe(), "application not found: Nowhere");
    let p = InfatError::PlistReadError {
        path: "/a/b.app".to_string(),
        message: "truncated".to_string(),
    };
    assert_eq!(p.describe(), "could not read bundle metadata at /a/b.app: truncated");
    let u = InfatError::UnsupportedSupertype { name: "blob".to_string() };
    assert_eq!(u.describe(), "unsupported or invalid supertype: blob");
}

#[test]
fn standard_options_are_strict_and_quietless() {
    let opts = GlobalOptions::standard();
    assert!(opts.config_path.is_none());
    assert!(!opts.verbose);
    assert!(!opts.quiet);
    assert!(!opts.robust);
}

#[test]
fn configuration_load_failures_keep_their_own_kind() {
    let failed: Result<u32, String> = Err("bad toml".to_string());
    match failed.config_load_error("/home/u/.config/app.toml") {
        Err(InfatError::ConfigurationLoadError { path, message }) => {
            assert_eq!(path, "/home/u/.config/app.toml");
            assert_eq!(message, "bad toml");
        },
        other => panic!("expected the configuration-load failure, got {other:?}"),
    }
    let e = InfatError::ConfigurationLoadError {
        path: "/c.toml".to_string(),
        message: "truncated".to_string(),
    };
    assert_eq!(e.kind_name(), "configuration-load-error");
    assert_eq!(e.describe(), "could not load the configuration at /c.toml: truncated");
}

#[test]
fn context_helpers_type_plain_failures() {
    let ok: Result<u32, String> = Ok(7);
    assert_eq!(ok.app_not_found("Surf").unwrap(), 7);
    let failed: Result<u32, String> = Err("no bundle".to_string());
    match failed.app_not_found("Surf") {
        Err(InfatError::ApplicationNotFound { name }) => assert_eq!(name, "Surf"),
        other => panic!("expected the lookup failure, got {other:?}"),
    }
    let unreadable: Result<u32, String> = Err("bad byte".to_string());
    match unreadable.plist_read_error("/a/Info.plist") {
        Err(InfatError::PlistReadError { path, message }) => {
            assert_eq!(path, "/a/Info.plist");
            assert_eq!(message, "bad byte");
        },
        other => panic!("expected the read failure, got {other:?}"),
    }
}
