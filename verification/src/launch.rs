//! The launch plan: everything the listener bring-up needs, fixed from the
//! validated configuration and the resolved deployment variant before any
//! socket is touched.
//!
//! The plan pins the bind address (loopback for the localhost variant, the
//! configured host otherwise), the certificate source per variant, the
//! optional fire-and-forget migration binary, the API-documentation
//! mount, the cross-origin policy, and the HTTP/3 alternate-service header
//! value for QUIC-capable variants. The embedding application binds the
//! listener the plan describes.

use vstd::prelude::*;

use crate::config::{Capabilities, GenericValues};
use crate::text::{spec_dec_digits, string_is, u16_to_dec_string};
use crate::variant::{required_fields_present, StartupVariant};

verus! {

/// `host:port`, the way a listener address is written.
pub open spec fn spec_address(host: Seq<char>, port: u16) -> Seq<char> {
    host + ":"@ + spec_dec_digits(port as nat)
}

/// Renders `host:port` for binding a listener.
pub fn format_address(host: &str, port: u16) -> (r: String)
    ensures
        r@ == spec_address(host@, port),
{
    let mut s = String::from_str(host);
    s.append(":");
    let digits = u16_to_dec_string(port);
    s.append(digits.as_str());
    s
}

/// The alternate-service header value advertising the HTTP/3 upgrade path
/// on the resolved port.
pub open spec fn spec_alt_svc_value(port: u16) -> Seq<char> {
    "h3=\":"@ + spec_dec_digits(port as nat) + "\"; ma=2592000"@
}

/// Renders the alternate-service header value that QUIC-capable variants
/// attach to every response, carrying the resolved port.
pub fn alt_svc_header_value(port: u16) -> (r: String)
    ensures
        r@ == spec_alt_svc_value(port),
{
    let mut s = String::from_str("h3=\":");
    let digits = u16_to_dec_string(port);
    s.append(digits.as_str());
    s.append("\"; ma=2592000");
    s
}

/// The fixed set of API-documentation front-ends.
#[derive(Clone, Copy, PartialEq, Eq, Structural, Debug)]
pub enum OapiFrontend {
    Scalar,
    SwaggerUi,
}

/// The front-end each exact configuration string selects; any other
/// string selects none (the documentation route is still mounted).
pub open spec fn spec_frontend_of(s: Seq<char>) -> Option<OapiFrontend> {
    if s == "Scalar"@ {
        Some(OapiFrontend::Scalar)
    } else if s == "SwaggerUI"@ {
        Some(OapiFrontend::SwaggerUi)
    } else {
        None
    }
}

/// The API-documentation mount: where the document and its front-end go,
/// ahead of application routes.
#[derive(Clone, PartialEq, Eq, Debug)]
pub struct OapiPlan {
    /// The API's display name.
    pub name: String,
    /// The API's version.
    pub version: String,
    /// Where the documentation is mounted, e.g. `/api`.
    pub mount_path: String,
    /// Where the machine-readable document itself is served:
    /// `{mount_path}/openapi.json`.
    pub spec_route: String,
    /// Which front-end renders the document, if a recognized one is
    /// configured.
    pub frontend: Option<OapiFrontend>,
}

/// The cross-origin policy: one allowed origin, with credential sharing
/// unless the origin is the wildcard.
#[derive(Clone, PartialEq, Eq, Debug)]
pub struct CorsPlan {
    /// The allowed origin.
    pub origin: String,
    /// Credentials are shared exactly when the origin is not `*`.
    pub allow_credentials: bool,
}

/// The transport to bind, with everything it needs.
#[derive(Clone, PartialEq, Eq, Debug)]
pub enum TransportPlan {
    /// Plain TCP.
    Tcp { address: String },
    /// TCP with automatically issued certificates, cached locally.
    TcpAcme { address: String, domain: String },
    /// TLS over TCP with the provided certificate and key.
    Tls { address: String, key_path: String, cert_path: String },
    /// TCP with automatic issuance, joined with QUIC on the same address.
    TcpAcmeQuic { address: String, domain: String },
    /// TLS over TCP joined with QUIC, both from the provided certificate
    /// and key.
    TlsQuic { address: String, key_path: String, cert_path: String },
    /// QUIC exclusively, from the provided certificate and key.
    Quic { address: String, key_path: String, cert_path: String },
}

/// Everything the listener bring-up performs, fixed before any socket is
/// touched.
#[derive(Clone, PartialEq, Eq, Debug)]
pub struct LaunchPlan {
    /// The transport to bind.
    pub transport: TransportPlan,
    /// A binary to spawn fire-and-forget before binding; its exit status
    /// is never observed.
    pub migrate_bin: Option<String>,
    /// The API-documentation mount, when enabled.
    pub oapi: Option<OapiPlan>,
    /// The cross-origin policy, when configured.
    pub cors: Option<CorsPlan>,
    /// The alternate-service header value, on QUIC-capable variants.
    pub alt_svc: Option<String>,
}

/// The host the listener binds: loopback for the localhost variant, the
/// configured host otherwise.
pub open spec fn spec_bind_host(vals: GenericValues, v: StartupVariant) -> Seq<char> {
    if v == StartupVariant::HttpLocalhost {
        "127.0.0.1"@
    } else {
        vals.server_host->Some_0@
    }
}

/// The address the listener binds: the bind host and the resolved port.
pub open spec fn spec_bind_address(vals: GenericValues, v: StartupVariant) -> Seq<char> {
    spec_address(spec_bind_host(vals, v), vals.server_port->Some_0)
}

/// The transport of the plan, per variant: the dispatch table's transport
/// column over the validated fields.
pub open spec fn spec_transport_matches(
    vals: GenericValues,
    v: StartupVariant,
    t: TransportPlan,
) -> bool {
    match v {
        StartupVariant::HttpLocalhost | StartupVariant::UnsafeHttp => t
            matches TransportPlan::Tcp { address } && address@ == spec_bind_address(vals, v),
        StartupVariant::HttpsAcme => t matches TransportPlan::TcpAcme { address, domain }
            && address@ == spec_bind_address(vals, v) && domain == vals.acme_domain->Some_0,
        StartupVariant::HttpsOnly => t matches TransportPlan::Tls {
            address,
            key_path,
            cert_path,
        } && address@ == spec_bind_address(vals, v) && key_path == vals.ssl_key_path->Some_0
            && cert_path == vals.ssl_crt_path->Some_0,
        StartupVariant::QuinnAcme => t matches TransportPlan::TcpAcmeQuic { address, domain }
            && address@ == spec_bind_address(vals, v) && domain == vals.acme_domain->Some_0,
        StartupVariant::Quinn => t matches TransportPlan::TlsQuic {
            address,
            key_path,
            cert_path,
        } && address@ == spec_bind_address(vals, v) && key_path == vals.ssl_key_path->Some_0
            && cert_path == vals.ssl_crt_path->Some_0,
        StartupVariant::QuinnOnly => t matches TransportPlan::Quic {
            address,
            key_path,
            cert_path,
        } && address@ == spec_bind_address(vals, v) && key_path == vals.ssl_key_path->Some_0
            && cert_path == vals.ssl_crt_path->Some_0,
    }
}

/// The documentation mount of the plan: present exactly when the
/// capability exists and the document enables it, with the validated
/// name, version and mount path, the `openapi.json` route under the
/// mount path, and the configured front-end when recognized.
pub open spec fn spec_oapi_matches(
    vals: GenericValues,
    caps: Capabilities,
    o: Option<OapiPlan>,
) -> bool {
    if caps.oapi && vals.allow_oapi_access == Some(true) {
        o matches Some(p) && p.name == vals.oapi_name->Some_0 && p.version == vals.oapi_ver->Some_0
            && p.mount_path == vals.oapi_api_addr->Some_0 && p.spec_route@
            == vals.oapi_api_addr->Some_0@ + "/openapi.json"@ && p.frontend == (
        match vals.oapi_frontend_type {
            Some(s) => spec_frontend_of(s@),
            None => None,
        })
    } else {
        o is None
    }
}

/// The cross-origin policy of the plan: present exactly when the
/// capability exists and an origin is configured, sharing credentials
/// unless the origin is the wildcard.
pub open spec fn spec_cors_matches(
    vals: GenericValues,
    caps: Capabilities,
    c: Option<CorsPlan>,
) -> bool {
    if caps.cors && vals.allow_cors_domain is Some {
        c matches Some(p) && p.origin == vals.allow_cors_domain->Some_0 && p.allow_credentials == (
        vals.allow_cors_domain->Some_0@ != "*"@)
    } else {
        c is None
    }
}

/// The alternate-service header of the plan: present exactly on
/// QUIC-capable variants, carrying the resolved port.
pub open spec fn spec_alt_svc_matches(
    vals: GenericValues,
    v: StartupVariant,
    a: Option<String>,
) -> bool {
    if v.spec_uses_quic() {
        a matches Some(h) && h@ == spec_alt_svc_value(vals.server_port->Some_0)
    } else {
        a is None
    }
}

/// The whole plan, field by field.
pub open spec fn spec_launch_plan_matches(
    vals: GenericValues,
    v: StartupVariant,
    caps: Capabilities,
    r: LaunchPlan,
) -> bool {
    &&& spec_transport_matches(vals, v, r.transport)
    &&& r.migrate_bin == vals.auto_migrate_bin
    &&& spec_oapi_matches(vals, caps, r.oapi)
    &&& spec_cors_matches(vals, caps, r.cors)
    &&& spec_alt_svc_matches(vals, v, r.alt_svc)
}

/// Fixes the launch plan for an already-validated configuration and its
/// resolved variant: the bind address, the certificate source, the
/// optional migration spawn, the documentation mount, the cross-origin
/// policy and the HTTP/3 advertisement. Validation has already run, so
/// the fields the variant requires are present, and a resolved port is
/// required because every transport binds one.
pub fn build_launch_plan(
    values: &GenericValues,
    v: StartupVariant,
    caps: &Capabilities,
) -> (r: LaunchPlan)
    requires
        required_fields_present(*values, v),
        values.server_port is Some,
        caps.oapi && values.allow_oapi_access == Some(true) ==> values.oapi_name is Some
            && values.oapi_ver is Some && values.oapi_api_addr is Some,
    ensures
        spec_launch_plan_matches(*values, v, *caps, r),
{
    let port = match values.server_port {
        Some(p) => p,
        None => unreached(),
    };
    let transport = match v {
        StartupVariant::HttpLocalhost => TransportPlan::Tcp {
            address: format_address("127.0.0.1", port),
        },
        StartupVariant::UnsafeHttp => TransportPlan::Tcp {
            address: format_address(values.server_host.as_ref().unwrap().as_str(), port),
        },
        StartupVariant::HttpsAcme => TransportPlan::TcpAcme {
            address: format_address(values.server_host.as_ref().unwrap().as_str(), port),
            domain: values.acme_domain.as_ref().unwrap().clone(),
        },
        StartupVariant::HttpsOnly => TransportPlan::Tls {
            address: format_address(values.server_host.as_ref().unwrap().as_str(), port),
            key_path: values.ssl_key_path.as_ref().unwrap().clone(),
            cert_path: values.ssl_crt_path.as_ref().unwrap().clone(),
        },
        StartupVariant::QuinnAcme => TransportPlan::TcpAcmeQuic {
            address: format_address(values.server_host.as_ref().unwrap().as_str(), port),
            domain: values.acme_domain.as_ref().unwrap().clone(),
        },
        StartupVariant::Quinn => TransportPlan::TlsQuic {
            address: format_address(values.server_host.as_ref().unwrap().as_str(), port),
            key_path: values.ssl_key_path.as_ref().unwrap().clone(),
            cert_path: values.ssl_crt_path.as_ref().unwrap().clone(),
        },
        StartupVariant::QuinnOnly => TransportPlan::Quic {
            address: format_address(values.server_host.as_ref().unwrap().as_str(), port),
            key_path: values.ssl_key_path.as_ref().unwrap().clone(),
            cert_path: values.ssl_crt_path.as_ref().unwrap().clone(),
        },
    };
    let oapi = if caps.oapi && values.allow_oapi_access == Some(true) {
        let mount = values.oapi_api_addr.as_ref().unwrap();
        let mut spec_route = mount.clone();
        spec_route.append("/openapi.json");
        let frontend = match &values.oapi_frontend_type {
            Some(s) => {
                if string_is(s, "Scalar") {
                    Some(OapiFrontend::Scalar)
                } else if string_is(s, "SwaggerUI") {
                    Some(OapiFrontend::SwaggerUi)
                } else {
                    None
                }
            },
            None => None,
        };
        Some(
            OapiPlan {
                name: values.oapi_name.as_ref().unwrap().clone(),
                version: values.oapi_ver.as_ref().unwrap().clone(),
                mount_path: mount.clone(),
                spec_route,
                frontend,
            },
        )
    } else {
        None
    };
    let cors = if caps.cors {
        match &values.allow_cors_domain {
            Some(origin) => Some(
                CorsPlan {
                    origin: origin.clone(),
                    allow_credentials: !string_is(origin, "*"),
                },
            ),
            None => None,
        }
    } else {
        None
    };
    let alt_svc = if v.uses_quic() {
        Some(alt_svc_header_value(port))
    } else {
        None
    };
    let migrate_bin = match &values.auto_migrate_bin {
        Some(b) => Some(b.clone()),
        None => None,
    };
    LaunchPlan { transport, migrate_bin, oapi, cors, alt_svc }
}

} // verus!
