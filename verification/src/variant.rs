//! The closed set of deployment variants and their resolution from the
//! startup-type string.
//!
//! Resolution is a one-shot dispatch: the variant is selected exactly once
//! from the configuration's `startup_type`, with the per-variant field
//! validation folded into the selection, before any listener is bound.

use vstd::prelude::*;

use crate::config::{Capabilities, GenericValues};
use crate::errors::{ConfigError, ConfigField};
use crate::text::string_is;

verus! {

/// One of the fixed transport/security configurations the server can start
/// in. Exactly one variant is derived from the configuration's
/// `startup_type` string, eagerly, before any listener is bound.
#[derive(Clone, Copy, PartialEq, Eq, Structural, Debug)]
pub enum StartupVariant {
    /// Plain TCP on `127.0.0.1:{port}` only.
    HttpLocalhost,
    /// Plain TCP on `{host}:{port}`. Not recommended.
    UnsafeHttp,
    /// TLS on `{host}:{port}` with automatic certificate issuance.
    HttpsAcme,
    /// TLS on `{host}:{port}` with a provided certificate and key.
    HttpsOnly,
    /// TLS and QUIC joined on `{host}:{port}` with automatic certificate
    /// issuance.
    QuinnAcme,
    /// TLS and QUIC joined on `{host}:{port}` with a provided certificate
    /// and key.
    Quinn,
    /// QUIC on `{host}:{port}` exclusively, with a provided certificate and
    /// key.
    QuinnOnly,
}

/// The startup-type vocabulary: the variant each exact, case-sensitive
/// string selects, or `None` outside the vocabulary.
pub open spec fn variant_of_startup_type(s: Seq<char>) -> Option<StartupVariant> {
    if s == "http_localhost"@ {
        Some(StartupVariant::HttpLocalhost)
    } else if s == "unsafe_http"@ {
        Some(StartupVariant::UnsafeHttp)
    } else if s == "https_acme"@ {
        Some(StartupVariant::HttpsAcme)
    } else if s == "https_only"@ {
        Some(StartupVariant::HttpsOnly)
    } else if s == "quinn_acme"@ {
        Some(StartupVariant::QuinnAcme)
    } else if s == "quinn"@ {
        Some(StartupVariant::Quinn)
    } else if s == "quinn_only"@ {
        Some(StartupVariant::QuinnOnly)
    } else {
        None
    }
}

impl StartupVariant {
    /// Whether this variant's capabilities are compiled into the build.
    pub open spec fn spec_available(self, caps: Capabilities) -> bool {
        match self {
            StartupVariant::HttpLocalhost => true,
            StartupVariant::UnsafeHttp => true,
            StartupVariant::HttpsAcme => caps.acme,
            StartupVariant::HttpsOnly => true,
            StartupVariant::QuinnAcme => caps.acme && caps.http3,
            StartupVariant::Quinn => caps.http3,
            StartupVariant::QuinnOnly => caps.http3,
        }
    }

    /// Whether this variant's capabilities are compiled into the build.
    pub fn available(&self, caps: &Capabilities) -> (r: bool)
        ensures
            r == self.spec_available(*caps),
    {
        match self {
            StartupVariant::HttpLocalhost => true,
            StartupVariant::UnsafeHttp => true,
            StartupVariant::HttpsAcme => caps.acme,
            StartupVariant::HttpsOnly => true,
            StartupVariant::QuinnAcme => caps.acme && caps.http3,
            StartupVariant::Quinn => caps.http3,
            StartupVariant::QuinnOnly => caps.http3,
        }
    }

    /// The variant fixes the host to loopback itself, so the document must
    /// not supply one.
    pub open spec fn spec_forbids_host(self) -> bool {
        self == StartupVariant::HttpLocalhost
    }

    /// The variant binds `{host}:{port}`, so the document must supply the
    /// host.
    pub open spec fn spec_requires_host(self) -> bool {
        self != StartupVariant::HttpLocalhost
    }

    /// The variant issues its certificate automatically, so the document
    /// must name the domain.
    pub open spec fn spec_requires_acme_domain(self) -> bool {
        self == StartupVariant::HttpsAcme || self == StartupVariant::QuinnAcme
    }

    /// The variant serves TLS or QUIC from a provided certificate, so the
    /// document must supply both the key path and the certificate path.
    pub open spec fn spec_requires_ssl_paths(self) -> bool {
        self == StartupVariant::HttpsOnly || self == StartupVariant::Quinn || self
            == StartupVariant::QuinnOnly
    }

    /// The variant serves QUIC, so every response advertises the HTTP/3
    /// upgrade path.
    pub open spec fn spec_uses_quic(self) -> bool {
        self == StartupVariant::QuinnAcme || self == StartupVariant::Quinn || self
            == StartupVariant::QuinnOnly
    }

    /// The variant serves QUIC, so every response advertises the HTTP/3
    /// upgrade path.
    pub fn uses_quic(&self) -> (r: bool)
        ensures
            r == self.spec_uses_quic(),
    {
        match self {
            StartupVariant::QuinnAcme => true,
            StartupVariant::Quinn => true,
            StartupVariant::QuinnOnly => true,
            _ => false,
        }
    }
}

/// The per-variant field rule of the dispatch table: the host is absent
/// exactly where the variant forbids it and present where it binds to it,
/// the issuance domain is present where certificates are issued
/// automatically, and both certificate paths are present where a provided
/// certificate is served.
pub open spec fn required_fields_present(vals: GenericValues, v: StartupVariant) -> bool {
    &&& (v.spec_forbids_host() ==> vals.server_host is None)
    &&& (v.spec_requires_host() ==> vals.server_host is Some)
    &&& (v.spec_requires_acme_domain() ==> vals.acme_domain is Some)
    &&& (v.spec_requires_ssl_paths() ==> vals.ssl_key_path is Some && vals.ssl_crt_path is Some)
}

/// What `resolve_variant` returns: the variant the startup-type string
/// selects, provided the string is in the vocabulary, the variant's
/// capabilities are available in this build, and the fields the dispatch
/// table requires are present; otherwise the error naming the first rule
/// broken, in the table's order.
pub open spec fn spec_resolve_variant(vals: GenericValues, caps: Capabilities) -> Result<
    StartupVariant,
    ConfigError,
> {
    match variant_of_startup_type(vals.startup_type@) {
        None => Err(ConfigError::UnknownVariant(vals.startup_type)),
        Some(v) => if !v.spec_available(caps) {
            Err(ConfigError::UnknownVariant(vals.startup_type))
        } else if v.spec_forbids_host() && vals.server_host is Some {
            Err(ConfigError::ForbiddenField(ConfigField::ServerHost, v))
        } else if v.spec_requires_host() && vals.server_host is None {
            Err(ConfigError::MissingField(ConfigField::ServerHost, Some(v)))
        } else if v.spec_requires_acme_domain() && vals.acme_domain is None {
            Err(ConfigError::MissingField(ConfigField::AcmeDomain, Some(v)))
        } else if v.spec_requires_ssl_paths() && vals.ssl_key_path is None {
            Err(ConfigError::MissingField(ConfigField::SslKeyPath, Some(v)))
        } else if v.spec_requires_ssl_paths() && vals.ssl_crt_path is None {
            Err(ConfigError::MissingField(ConfigField::SslCrtPath, Some(v)))
        } else {
            Ok(v)
        },
    }
}

/// Resolves the deployment variant from `startup_type` and validates the
/// fields the dispatch table requires for it, eagerly, in one shot.
pub fn resolve_variant(values: &GenericValues, caps: &Capabilities) -> (r: Result<
    StartupVariant,
    ConfigError,
>)
    ensures
        r == spec_resolve_variant(*values, *caps),
        r matches Ok(v) ==> variant_of_startup_type(values.startup_type@) == Some(v)
            && v.spec_available(*caps) && required_fields_present(*values, v),
{
    let v: StartupVariant = if string_is(&values.startup_type, "http_localhost") {
        StartupVariant::HttpLocalhost
    } else if string_is(&values.startup_type, "unsafe_http") {
        StartupVariant::UnsafeHttp
    } else if string_is(&values.startup_type, "https_acme") {
        StartupVariant::HttpsAcme
    } else if string_is(&values.startup_type, "https_only") {
        StartupVariant::HttpsOnly
    } else if string_is(&values.startup_type, "quinn_acme") {
        StartupVariant::QuinnAcme
    } else if string_is(&values.startup_type, "quinn") {
        StartupVariant::Quinn
    } else if string_is(&values.startup_type, "quinn_only") {
        StartupVariant::QuinnOnly
    } else {
        return Err(ConfigError::UnknownVariant(values.startup_type.clone()));
    };
    if !v.available(caps) {
        return Err(ConfigError::UnknownVariant(values.startup_type.clone()));
    }
    match v {
        StartupVariant::HttpLocalhost => {
            if values.server_host.is_some() {
                return Err(ConfigError::ForbiddenField(ConfigField::ServerHost, v));
            }
        },
        _ => {
            if values.server_host.is_none() {
                return Err(ConfigError::MissingField(ConfigField::ServerHost, Some(v)));
            }
        },
    }
    match v {
        StartupVariant::HttpsAcme | StartupVariant::QuinnAcme => {
            if values.acme_domain.is_none() {
                return Err(ConfigError::MissingField(ConfigField::AcmeDomain, Some(v)));
            }
        },
        StartupVariant::HttpsOnly | StartupVariant::Quinn | StartupVariant::QuinnOnly => {
            if values.ssl_key_path.is_none() {
                return Err(ConfigError::MissingField(ConfigField::SslKeyPath, Some(v)));
            }
            if values.ssl_crt_path.is_none() {
                return Err(ConfigError::MissingField(ConfigField::SslCrtPath, Some(v)));
            }
        },
        _ => {},
    }
    Ok(v)
}

/// Resolution succeeds exactly on the dispatch table: a vocabulary string
/// whose variant is available and whose required fields are present
/// resolves to exactly that variant.
pub proof fn lemma_resolution_selects_variant(
    vals: GenericValues,
    caps: Capabilities,
    v: StartupVariant,
)
    requires
        variant_of_startup_type(vals.startup_type@) == Some(v),
        v.spec_available(caps),
        required_fields_present(vals, v),
    ensures
        spec_resolve_variant(vals, caps) == Ok::<StartupVariant, ConfigError>(v),
{
}

/// Removing any required field from an otherwise resolvable configuration
/// makes resolution fail with `MissingField` naming that same variant.
pub proof fn lemma_missing_field_fails(vals: GenericValues, caps: Capabilities, v: StartupVariant)
    requires
        variant_of_startup_type(vals.startup_type@) == Some(v),
        v.spec_available(caps),
        !v.spec_forbids_host() || vals.server_host is None,
        !required_fields_present(vals, v),
    ensures
        spec_resolve_variant(vals, caps) matches Err(e) && (e matches ConfigError::MissingField(
            _,
            w,
        ) && w == Some(v)),
{
}

/// Under `http_localhost` a supplied host is always rejected, regardless of
/// the host value or of anything else in the configuration.
pub proof fn lemma_localhost_rejects_host(vals: GenericValues, caps: Capabilities)
    requires
        vals.startup_type@ == "http_localhost"@,
        vals.server_host is Some,
    ensures
        spec_resolve_variant(vals, caps) == Err::<StartupVariant, ConfigError>(
            ConfigError::ForbiddenField(ConfigField::ServerHost, StartupVariant::HttpLocalhost),
        ),
{
}

/// A startup-type string outside the vocabulary, or one whose variant is
/// not available in this build, fails with `UnknownVariant` naming exactly
/// the offending string.
pub proof fn lemma_unknown_startup_type_fails(vals: GenericValues, caps: Capabilities)
    requires
        match variant_of_startup_type(vals.startup_type@) {
            None => true,
            Some(v) => !v.spec_available(caps),
        },
    ensures
        spec_resolve_variant(vals, caps) == Err::<StartupVariant, ConfigError>(
            ConfigError::UnknownVariant(vals.startup_type),
        ),
{
}

} // verus!
