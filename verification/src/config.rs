//! The configuration model: the raw values of the configuration document,
//! the build-time capability set, and the load-phase validation steps that
//! run before a deployment variant is resolved.

use vstd::prelude::*;

use crate::errors::{ConfigError, ConfigField};

verus! {

/// Server generic configuration, as read from the configuration document.
///
/// The model is mutable during the load phase only: the loader injects
/// `app_name` (the document is never trusted for it) and, when a port
/// achiever path is configured, overwrites `server_port` with the watched
/// value. Afterwards the model is treated as immutable.
#[derive(Clone, PartialEq, Eq, Debug)]
pub struct GenericValues {
    /// Application name, supplied by the caller of the loader, never by the
    /// document.
    pub app_name: String,
    /// Startup variant string; resolved into a `StartupVariant`.
    pub startup_type: String,
    /// Server host.
    pub server_host: Option<String>,
    /// Server port.
    pub server_port: Option<u16>,
    /// Domain for automatic certificate issuance.
    pub acme_domain: Option<String>,
    /// Path to the SSL key.
    pub ssl_key_path: Option<String>,
    /// Path to the SSL certificate.
    pub ssl_crt_path: Option<String>,
    /// Path to a binary spawned fire-and-forget just before the server
    /// starts.
    pub auto_migrate_bin: Option<String>,
    /// Path to a text file watched for the port to listen on.
    pub server_port_achiever: Option<String>,
    /// CORS allowed origin.
    pub allow_cors_domain: Option<String>,
    /// Set to `true` to enable the API-documentation endpoint.
    pub allow_oapi_access: Option<bool>,
    /// API-documentation front-end: `Scalar` or `SwaggerUI`.
    pub oapi_frontend_type: Option<String>,
    /// API name for the documentation endpoint.
    pub oapi_name: Option<String>,
    /// API version for the documentation endpoint.
    pub oapi_ver: Option<String>,
    /// API mount path (with slash), e.g. `/api`.
    pub oapi_api_addr: Option<String>,
    /// Console log level; absent means no console sink (unless a debug
    /// build defaults it).
    pub log_level: Option<String>,
    /// File log level; absent means no file sink.
    pub log_file_level: Option<String>,
    /// File rotation policy: `never`, `daily`, `hourly` or `minutely`.
    pub log_rolling: Option<String>,
    /// Retention bound for rotated files.
    pub log_rolling_max_files: Option<u32>,
    /// Endpoint of the remote telemetry exporter.
    pub open_telemetry_endpoint: Option<String>,
}

impl Default for GenericValues {
    /// The defaults: a localhost HTTP server on port 8800 logging to the
    /// console at `debug`.
    fn default() -> (r: Self)
        ensures
            r.app_name@ == "generic"@,
            r.startup_type@ == "http_localhost"@,
            r.server_host is None,
            r.server_port == Some(8800u16),
            r.acme_domain is None,
            r.ssl_key_path is None,
            r.ssl_crt_path is None,
            r.auto_migrate_bin is None,
            r.server_port_achiever is None,
            r.allow_cors_domain is None,
            r.allow_oapi_access is None,
            r.oapi_frontend_type is None,
            r.oapi_name is None,
            r.oapi_ver is None,
            r.oapi_api_addr is None,
            r.log_level matches Some(l) && l@ == "debug"@,
            r.log_file_level is None,
            r.log_rolling is None,
            r.log_rolling_max_files is None,
            r.open_telemetry_endpoint is None,
    {
        GenericValues {
            app_name: String::from_str("generic"),
            startup_type: String::from_str("http_localhost"),
            server_host: None,
            server_port: Some(8800),
            acme_domain: None,
            ssl_key_path: None,
            ssl_crt_path: None,
            auto_migrate_bin: None,
            server_port_achiever: None,
            allow_cors_domain: None,
            allow_oapi_access: None,
            oapi_frontend_type: None,
            oapi_name: None,
            oapi_ver: None,
            oapi_api_addr: None,
            log_level: Some(String::from_str("debug")),
            log_file_level: None,
            log_rolling: None,
            log_rolling_max_files: None,
            open_telemetry_endpoint: None,
        }
    }
}

/// Provides at least the values the kit needs to start a server. The
/// embedding application implements this on its own setup type, whose
/// remaining fields the kit never reads.
pub trait GenericSetup {
    /// The generic values inside the setup.
    fn generic_values(&self) -> &GenericValues;
    /// The generic values inside the setup, mutably.
    fn generic_values_mut(&mut self) -> &mut GenericValues;
}

/// The capability set of one build of the embedding application: which
/// optional subsystems exist. A deployment variant whose capability is
/// absent is not constructible, so selecting it fails like an unknown
/// startup-type string.
#[derive(Clone, Copy, PartialEq, Eq, Structural, Debug)]
pub struct Capabilities {
    /// Automatic certificate issuance is available.
    pub acme: bool,
    /// The QUIC transport is available.
    pub http3: bool,
    /// The API-documentation endpoint is available.
    pub oapi: bool,
    /// Cross-origin policy handling is available.
    pub cors: bool,
    /// The remote telemetry exporter is available.
    pub otel: bool,
    /// Debug build: an absent console log level defaults to `debug`.
    pub console_debug_default: bool,
    /// Emit every record unfiltered instead of suppressing the serving
    /// framework's own internal modules.
    pub log_unfiltered: bool,
}

impl Capabilities {
    /// Every optional subsystem available, release-build logging defaults.
    pub fn full() -> (r: Self)
        ensures
            r == (Capabilities {
                acme: true,
                http3: true,
                oapi: true,
                cors: true,
                otel: true,
                console_debug_default: false,
                log_unfiltered: false,
            }),
    {
        Capabilities {
            acme: true,
            http3: true,
            oapi: true,
            cors: true,
            otel: true,
            console_debug_default: false,
            log_unfiltered: false,
        }
    }
}

impl GenericValues {
    /// The model with `app_name` replaced.
    pub open spec fn spec_with_app_name(self, app_name: String) -> GenericValues {
        GenericValues { app_name, ..self }
    }

    /// The model with `server_port` replaced.
    pub open spec fn spec_with_server_port(self, port: u16) -> GenericValues {
        GenericValues { server_port: Some(port), ..self }
    }
}

/// What `finalize_config` returns: the document's values with the
/// caller-supplied application name injected, provided the
/// API-documentation block, when enabled and available, names its API,
/// version and mount path.
pub open spec fn spec_finalize_config(
    doc: GenericValues,
    app_name: String,
    caps: Capabilities,
) -> Result<GenericValues, ConfigError> {
    let m = doc.spec_with_app_name(app_name);
    if caps.oapi && m.allow_oapi_access == Some(true) {
        if m.oapi_name is None {
            Err(ConfigError::MissingField(ConfigField::OapiName, None))
        } else if m.oapi_ver is None {
            Err(ConfigError::MissingField(ConfigField::OapiVer, None))
        } else if m.oapi_api_addr is None {
            Err(ConfigError::MissingField(ConfigField::OapiApiAddr, None))
        } else {
            Ok(m)
        }
    } else {
        Ok(m)
    }
}

/// Injects the caller-supplied application name into a freshly parsed
/// document and checks the API-documentation block: when documentation is
/// enabled and the capability exists, its name, version and mount path must
/// all be present.
pub fn finalize_config(
    doc: GenericValues,
    app_name: String,
    caps: &Capabilities,
) -> (r: Result<GenericValues, ConfigError>)
    ensures
        r == spec_finalize_config(doc, app_name, *caps),
{
    let mut m = doc;
    m.app_name = app_name;
    if caps.oapi && m.allow_oapi_access == Some(true) {
        if m.oapi_name.is_none() {
            return Err(ConfigError::MissingField(ConfigField::OapiName, None));
        }
        if m.oapi_ver.is_none() {
            return Err(ConfigError::MissingField(ConfigField::OapiVer, None));
        }
        if m.oapi_api_addr.is_none() {
            return Err(ConfigError::MissingField(ConfigField::OapiApiAddr, None));
        }
    }
    Ok(m)
}

/// Overwrites `server_port` with the port the watched file resolved to;
/// every other field is kept.
pub fn apply_achieved_port(values: &mut GenericValues, port: u16)
    ensures
        *final(values) == old(values).spec_with_server_port(port),
{
    values.server_port = Some(port);
}

} // verus!
