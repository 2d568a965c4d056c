use vstd::prelude::*;
use vstd::string::*;

verus! {

/// Typed failures of the association engine.  Every error carries the data a
/// caller needs to report it; none is ever swallowed inside the library.
#[derive(Debug, Clone)]
pub enum InfatError {
    /// The registry could not derive a canonical type for a file extension.
    CouldNotDeriveUTI { extension: String },
    /// The identifier names a system-owned service that must not be used as
    /// a default application.
    SystemService { bundle: String },
    /// A configuration held none of the three association tables.
    NoConfigTables,
    /// The bundle at the given location has no metadata file.
    InfoPlistNotFound { app_path: String },
    /// The name is neither a recognized supertype nor a canonical type.
    UnsupportedSupertype { name: String },
    /// No installed application matches the given name, identifier or path.
    ApplicationNotFound { name: String },
    /// Bundle metadata was read but held no bundle identifier.
    BundleIdNotFound { path: String },
    /// Bundle metadata exists but could not be parsed.
    PlistReadError { path: String, message: String },
    /// A configuration document could not be loaded.
    ConfigurationLoadError { path: String, message: String },
    /// A registry call returned a failure status.
    LaunchServicesError { message: String },
}

impl InfatError {
    /// A short stable tag naming the error kind, for reports and logs.
    pub fn kind_name(&self) -> (r: &'static str)
        ensures
            r@ == self.kind_name_spec(),
    {
        match self {
            InfatError::CouldNotDeriveUTI { .. } => "could-not-derive-uti",
            InfatError::SystemService { .. } => "system-service",
            InfatError::NoConfigTables => "no-config-tables",
            InfatError::InfoPlistNotFound { .. } => "info-plist-not-found",
            InfatError::UnsupportedSupertype { .. } => "unsupported-supertype",
            InfatError::ApplicationNotFound { .. } => "application-not-found",
            InfatError::BundleIdNotFound { .. } => "bundle-id-not-found",
            InfatError::PlistReadError { .. } => "plist-read-error",
            InfatError::ConfigurationLoadError { .. } => "configuration-load-error",
            InfatError::LaunchServicesError { .. } => "launch-services-error",
        }
    }

    /// A one-line description of the error, for reports.
    pub fn describe(&self) -> (r: String)
        ensures
            r@ == self.describe_spec(),
    {
        match self {
            InfatError::CouldNotDeriveUTI { extension } => {
                let mut m: String = "could not derive a canonical type for extension ".to_owned();
                m.append(extension.as_str());
                m
            },
            InfatError::SystemService { bundle } => {
                let mut m: String = "system service cannot be the default application: ".to_owned();
                m.append(bundle.as_str());
                m
            },
            InfatError::NoConfigTables => "no configuration tables found".to_owned(),
            InfatError::InfoPlistNotFound { app_path } => {
                let mut m: String = "bundle metadata not found at ".to_owned();
                m.append(app_path.as_str());
                m
            },
            InfatError::UnsupportedSupertype { name } => {
                let mut m: String = "unsupported or invalid supertype: ".to_owned();
                m.append(name.as_str());
                m
            },
            InfatError::ApplicationNotFound { name } => {
                let mut m: String = "application not found: ".to_owned();
                m.append(name.as_str());
                m
            },
            InfatError::BundleIdNotFound { path } => {
                let mut m: String = "no bundle identifier in metadata at ".to_owned();
                m.append(path.as_str());
                m
            },
            InfatError::PlistReadError { path, message } => {
                let mut m: String = "could not read bundle metadata at ".to_owned();
                m.append(path.as_str());
                m.append(": ");
                m.append(message.as_str());
                m
            },
            InfatError::ConfigurationLoadError { path, message } => {
                let mut m: String = "could not load the configuration at ".to_owned();
                m.append(path.as_str());
                m.append(": ");
                m.append(message.as_str());
                m
            },
            InfatError::LaunchServicesError { message } => {
                let mut m: String = "registry error: ".to_owned();
                m.append(message.as_str());
                m
            },
        }
    }

    pub open spec fn describe_spec(&self) -> Seq<char> {
        match self {
            InfatError::CouldNotDeriveUTI { extension } =>
                "could not derive a canonical type for extension "@ + extension@,
            InfatError::SystemService { bundle } =>
                "system service cannot be the default application: "@ + bundle@,
            InfatError::NoConfigTables => "no configuration tables found"@,
            InfatError::InfoPlistNotFound { app_path } =>
                "bundle metadata not found at "@ + app_path@,
            InfatError::UnsupportedSupertype { name } =>
                "unsupported or invalid supertype: "@ + name@,
            InfatError::ApplicationNotFound { name } =>
                "application not found: "@ + name@,
            InfatError::BundleIdNotFound { path } =>
                "no bundle identifier in metadata at "@ + path@,
            InfatError::PlistReadError { path, message } =>
                "could not read bundle metadata at "@ + path@ + ": "@ + message@,
            InfatError::ConfigurationLoadError { path, message } =>
                "could not load the configuration at "@ + path@ + ": "@ + message@,
            InfatError::LaunchServicesError { message } =>
                "registry error: "@ + message@,
        }
    }

    pub open spec fn kind_name_spec(&self) -> Seq<char> {
        match self {
            InfatError::CouldNotDeriveUTI { .. } => "could-not-derive-uti"@,
            InfatError::SystemService { .. } => "system-service"@,
            InfatError::NoConfigTables => "no-config-tables"@,
            InfatError::InfoPlistNotFound { .. } => "info-plist-not-found"@,
            InfatError::UnsupportedSupertype { .. } => "unsupported-supertype"@,
            InfatError::ApplicationNotFound { .. } => "application-not-found"@,
            InfatError::BundleIdNotFound { .. } => "bundle-id-not-found"@,
            InfatError::PlistReadError { .. } => "plist-read-error"@,
            InfatError::ConfigurationLoadError { .. } => "configuration-load-error"@,
            InfatError::LaunchServicesError { .. } => "launch-services-error"@,
        }
    }
}

/// Context helpers that turn a plain failure message into a typed error,
/// keeping the identifying input alongside it.
pub trait InfatErrorExt<T> {
    fn app_not_found(self, name: &str) -> (r: Result<T, InfatError>);

    fn config_load_error(self, path: &str) -> (r: Result<T, InfatError>);

    fn plist_read_error(self, path: &str) -> (r: Result<T, InfatError>);
}

impl<T> InfatErrorExt<T> for Result<T, String> {
    /// Any failure becomes the application-lookup error for `name`.
    fn app_not_found(self, name: &str) -> (r: Result<T, InfatError>)
        ensures
            self is Ok ==> r is Ok,
            self is Err ==> (r matches Err(InfatError::ApplicationNotFound { name: n })
                && n@ == name@),
    {
        match self {
            Ok(v) => Ok(v),
            Err(_) => Err(InfatError::ApplicationNotFound { name: name.to_owned() }),
        }
    }

    /// Any failure becomes the configuration-load error at `path`,
    /// keeping the failure's own message.
    fn config_load_error(self, path: &str) -> (r: Result<T, InfatError>)
        ensures
            self is Ok ==> r is Ok,
            self matches Err(m) ==> (r matches Err(InfatError::ConfigurationLoadError {
                path: p, message }) && p@ == path@ && message@ == m@),
    {
        match self {
            Ok(v) => Ok(v),
            Err(m) => Err(InfatError::ConfigurationLoadError {
                path: path.to_owned(),
                message: m,
            }),
        }
    }

    /// Any failure becomes a metadata read error at `path`, keeping the
    /// failure's own message.
    fn plist_read_error(self, path: &str) -> (r: Result<T, InfatError>)
        ensures
            self is Ok ==> r is Ok,
            self matches Err(m) ==> (r matches Err(InfatError::PlistReadError {
                path: p, message }) && p@ == path@ && message@ == m@),
    {
        match self {
            Ok(v) => Ok(v),
            Err(m) => Err(InfatError::PlistReadError { path: path.to_owned(), message: m }),
        }
    }
}

} // verus!
