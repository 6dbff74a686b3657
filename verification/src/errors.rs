//! The error taxonomy for configuration loading, validation and startup.
//!
//! Every fatal condition is classified by one `ConfigError` variant and
//! carries enough data to render a human-readable message; nothing here is
//! retried, configuration errors stop startup.

use vstd::prelude::*;

use crate::variant::StartupVariant;

verus! {

/// Configuration fields that validation can report as missing or forbidden.
#[derive(Clone, Copy, PartialEq, Eq, Structural, Debug)]
pub enum ConfigField {
    ServerHost,
    AcmeDomain,
    SslKeyPath,
    SslCrtPath,
    OapiName,
    OapiVer,
    OapiApiAddr,
}

impl ConfigField {
    /// The field's key in the configuration document.
    pub open spec fn spec_name(self) -> Seq<char> {
        match self {
            ConfigField::ServerHost => "server_host"@,
            ConfigField::AcmeDomain => "acme_domain"@,
            ConfigField::SslKeyPath => "ssl_key_path"@,
            ConfigField::SslCrtPath => "ssl_crt_path"@,
            ConfigField::OapiName => "oapi_name"@,
            ConfigField::OapiVer => "oapi_ver"@,
            ConfigField::OapiApiAddr => "oapi_api_addr"@,
        }
    }

    /// The field's key in the configuration document.
    pub fn name(&self) -> (r: &'static str)
        ensures
            r@ == self.spec_name(),
    {
        match self {
            ConfigField::ServerHost => "server_host",
            ConfigField::AcmeDomain => "acme_domain",
            ConfigField::SslKeyPath => "ssl_key_path",
            ConfigField::SslCrtPath => "ssl_crt_path",
            ConfigField::OapiName => "oapi_name",
            ConfigField::OapiVer => "oapi_ver",
            ConfigField::OapiApiAddr => "oapi_api_addr",
        }
    }
}

/// One classified startup error. Each variant names the earliest point at
/// which the misconfiguration is detectable; all of them abort startup.
#[derive(Clone, PartialEq, Eq, Debug)]
pub enum ConfigError {
    /// Neither configuration document path exists.
    ConfigNotFound,
    /// The document exists but could not be parsed.
    ConfigMalformed,
    /// A field required by the chosen deployment variant (or by the
    /// API-documentation block, in which case no variant is named) is absent.
    MissingField(ConfigField, Option<StartupVariant>),
    /// A field that the chosen deployment variant fixes itself was supplied.
    ForbiddenField(ConfigField, StartupVariant),
    /// The startup-type string is outside the fixed vocabulary, or names a
    /// variant whose capability is not available in this build.
    UnknownVariant(String),
    /// A log-level string is outside `error|warn|info|debug|trace`.
    InvalidLevel(String),
    /// A rotation string is outside `never|daily|hourly|minutely`.
    InvalidRotation(String),
    /// The filesystem watch on the port file failed, with the watcher's
    /// own message.
    WatchFailure(String),
    /// The logging backend could not be activated, or was activated twice.
    LogBackendInitFailure,
    /// A listener could not be bound, with the reason.
    BindFailure(String),
    /// A certificate could not be loaded or issued, with the reason.
    CertificateFailure(String),
}

impl ConfigError {
    /// The human-readable message for this error.
    pub open spec fn spec_message(self) -> Seq<char> {
        match self {
            ConfigError::ConfigNotFound => "The server configuration could not be found."@,
            ConfigError::ConfigMalformed => "Failed to parse the contents of the server configuration file."@,
            ConfigError::MissingField(f, _) => match f {
                ConfigField::ServerHost => "Choose server's host, e.g. `0.0.0.0`."@,
                ConfigField::AcmeDomain => "Choose ACME's domain!"@,
                ConfigField::SslKeyPath => "Choose SSL key path."@,
                ConfigField::SslCrtPath => "Choose SSL cert path."@,
                ConfigField::OapiName => "The API name for OAPI is not specified."@,
                ConfigField::OapiVer => "The API version for OAPI is not specified."@,
                ConfigField::OapiApiAddr => "The path to OAPI was not specified."@,
            },
            ConfigError::ForbiddenField(_, _) => "Server will only listen `127.0.0.1` address because of `http_localhost` startup variant. Consider to move to `https_only` or `quinn`."@,
            ConfigError::UnknownVariant(s) => "The startup type `"@ + s@
                + "` is not recognized. Read the documentation on the `startup_type` field."@,
            ConfigError::InvalidLevel(s) => "Incorrect logging level: `"@ + s@ + "`."@,
            ConfigError::InvalidRotation(_) => "Incorrect level of log rotation. Choose one of the options: `never`, `daily`, `hourly`, `minutely`."@,
            ConfigError::WatchFailure(s) => "Watch error: "@ + s@,
            ConfigError::LogBackendInitFailure => "Failed to initialize the logging backend."@,
            ConfigError::BindFailure(s) => "Failed to bind the server listener: "@ + s@,
            ConfigError::CertificateFailure(s) => "Certificate failure: "@ + s@,
        }
    }

    /// Renders the human-readable message for this error.
    pub fn message(&self) -> (r: String)
        ensures
            r@ == self.spec_message(),
    {
        match self {
            ConfigError::ConfigNotFound => String::from_str(
                "The server configuration could not be found.",
            ),
            ConfigError::ConfigMalformed => String::from_str(
                "Failed to parse the contents of the server configuration file.",
            ),
            ConfigError::MissingField(f, _) => match f {
                ConfigField::ServerHost => String::from_str("Choose server's host, e.g. `0.0.0.0`."),
                ConfigField::AcmeDomain => String::from_str("Choose ACME's domain!"),
                ConfigField::SslKeyPath => String::from_str("Choose SSL key path."),
                ConfigField::SslCrtPath => String::from_str("Choose SSL cert path."),
                ConfigField::OapiName => String::from_str("The API name for OAPI is not specified."),
                ConfigField::OapiVer => String::from_str(
                    "The API version for OAPI is not specified.",
                ),
                ConfigField::OapiApiAddr => String::from_str("The path to OAPI was not specified."),
            },
            ConfigError::ForbiddenField(_, _) => String::from_str(
                "Server will only listen `127.0.0.1` address because of `http_localhost` startup variant. Consider to move to `https_only` or `quinn`.",
            ),
            ConfigError::UnknownVariant(s) => {
                let mut m = String::from_str("The startup type `");
                m.append(s.as_str());
                m.append("` is not recognized. Read the documentation on the `startup_type` field.");
                m
            },
            ConfigError::InvalidLevel(s) => {
                let mut m = String::from_str("Incorrect logging level: `");
                m.append(s.as_str());
                m.append("`.");
                m
            },
            ConfigError::InvalidRotation(_) => String::from_str(
                "Incorrect level of log rotation. Choose one of the options: `never`, `daily`, `hourly`, `minutely`.",
            ),
            ConfigError::WatchFailure(s) => {
                let mut m = String::from_str("Watch error: ");
                m.append(s.as_str());
                m
            },
            ConfigError::LogBackendInitFailure => String::from_str(
                "Failed to initialize the logging backend.",
            ),
            ConfigError::BindFailure(s) => {
                let mut m = String::from_str("Failed to bind the server listener: ");
                m.append(s.as_str());
                m
            },
            ConfigError::CertificateFailure(s) => {
                let mut m = String::from_str("Certificate failure: ");
                m.append(s.as_str());
                m
            },
        }
    }
}

} // verus!
