use server_kit::launch::{
    alt_svc_header_value, build_launch_plan, format_address, OapiFrontend, TransportPlan,
};
use server_kit::logging::{build_logging_plan, LogLevel};
use server_kit::variant::resolve_variant;
use server_kit::{Capabilities, GenericValues, StartupVariant};

fn caps() -> Capabilities {
    Capabilities::full()
}

fn tls_values(startup: &str) -> GenericValues {
    let mut v = GenericValues::default();
    v.startup_type = startup.to_string();
    v.server_host = Some("0.0.0.0".to_string());
    v.server_port = Some(8443);
    v.ssl_key_path = Some("/etc/ssl/server.key".to_string());
    v.ssl_crt_path = Some("/etc/ssl/server.crt".to_string());
    v
}

#[test]
fn formats_addresses() {
    assert_eq!(format_address("127.0.0.1", 8801), "127.0.0.1:8801");
    assert_eq!(format_address("0.0.0.0", 80), "0.0.0.0:80");
    assert_eq!(format_address("example.com", 65535), "example.com:65535");
    assert_eq!(format_address("::1", 0), "::1:0");
}

#[test]
fn alt_svc_value_carries_the_port() {
    assert_eq!(alt_svc_header_value(443), "h3=\":443\"; ma=2592000");
    assert_eq!(alt_svc_header_value(8443), "h3=\":8443\"; ma=2592000");
}

#[test]
fn localhost_end_to_end_scenario() {
    // startup_type http_localhost, no host, port 8801, log_level debug:
    // resolves LocalhostHttp, binds 127.0.0.1:8801, one console sink at
    // debug, no file sink.
    let mut v = GenericValues::default();
    v.startup_type = "http_localhost".to_string();
    v.server_host = None;
    v.server_port = Some(8801);
    v.log_level = Some("debug".to_string());
    v.log_file_level = None;

    let variant = resolve_variant(&v, &caps()).unwrap();
    assert_eq!(variant, StartupVariant::HttpLocalhost);

    let logging = build_logging_plan(&v, &caps()).unwrap();
    let console = logging.console.unwrap();
    assert_eq!(console.level, LogLevel::Debug);
    assert!(logging.file.is_none());

    let plan = build_launch_plan(&v, variant, &caps());
    match plan.transport {
        TransportPlan::Tcp { address } => assert_eq!(address, "127.0.0.1:8801"),
        other => panic!("wrong transport: {:?}", other),
    }
    assert!(plan.alt_svc.is_none());
    assert!(plan.oapi.is_none());
    assert!(plan.cors.is_none());
    assert!(plan.migrate_bin.is_none());
}

#[test]
fn unsafe_http_binds_configured_host() {
    let mut v = GenericValues::default();
    v.startup_type = "unsafe_http".to_string();
    v.server_host = Some("0.0.0.0".to_string());
    v.server_port = Some(8080);
    let variant = resolve_variant(&v, &caps()).unwrap();
    let plan = build_launch_plan(&v, variant, &caps());
    match plan.transport {
        TransportPlan::Tcp { address } => assert_eq!(address, "0.0.0.0:8080"),
        other => panic!("wrong transport: {:?}", other),
    }
    assert!(plan.alt_svc.is_none());
}

#[test]
fn https_acme_plan_names_the_domain() {
    let mut v = GenericValues::default();
    v.startup_type = "https_acme".to_string();
    v.server_host = Some("0.0.0.0".to_string());
    v.server_port = Some(443);
    v.acme_domain = Some("example.com".to_string());
    let variant = resolve_variant(&v, &caps()).unwrap();
    let plan = build_launch_plan(&v, variant, &caps());
    match plan.transport {
        TransportPlan::TcpAcme { address, domain } => {
            assert_eq!(address, "0.0.0.0:443");
            assert_eq!(domain, "example.com");
        }
        other => panic!("wrong transport: {:?}", other),
    }
    assert!(plan.alt_svc.is_none());
}

#[test]
fn https_only_plan_uses_provided_cert() {
    let v = tls_values("https_only");
    let variant = resolve_variant(&v, &caps()).unwrap();
    let plan = build_launch_plan(&v, variant, &caps());
    match plan.transport {
        TransportPlan::Tls {
            address,
            key_path,
            cert_path,
        } => {
            assert_eq!(address, "0.0.0.0:8443");
            assert_eq!(key_path, "/etc/ssl/server.key");
            assert_eq!(cert_path, "/etc/ssl/server.crt");
        }
        other => panic!("wrong transport: {:?}", other),
    }
    assert!(plan.alt_svc.is_none());
}

#[test]
fn quinn_acme_plan_joins_quic_and_advertises_h3() {
    let mut v = GenericValues::default();
    v.startup_type = "quinn_acme".to_string();
    v.server_host = Some("0.0.0.0".to_string());
    v.server_port = Some(443);
    v.acme_domain = Some("example.com".to_string());
    let variant = resolve_variant(&v, &caps()).unwrap();
    let plan = build_launch_plan(&v, variant, &caps());
    match plan.transport {
        TransportPlan::TcpAcmeQuic { address, domain } => {
            assert_eq!(address, "0.0.0.0:443");
            assert_eq!(domain, "example.com");
        }
        other => panic!("wrong transport: {:?}", other),
    }
    assert_eq!(plan.alt_svc.unwrap(), "h3=\":443\"; ma=2592000");
}

#[test]
fn quinn_plan_joins_tls_and_quic() {
    let v = tls_values("quinn");
    let variant = resolve_variant(&v, &caps()).unwrap();
    let plan = build_launch_plan(&v, variant, &caps());
    match plan.transport {
        TransportPlan::TlsQuic {
            address,
            key_path,
            cert_path,
        } => {
            assert_eq!(address, "0.0.0.0:8443");
            assert_eq!(key_path, "/etc/ssl/server.key");
            assert_eq!(cert_path, "/etc/ssl/server.crt");
        }
        other => panic!("wrong transport: {:?}", other),
    }
    assert_eq!(plan.alt_svc.unwrap(), "h3=\":8443\"; ma=2592000");
}

#[test]
fn quinn_only_plan_is_quic_exclusive() {
    let v = tls_values("quinn_only");
    let variant = resolve_variant(&v, &caps()).unwrap();
    let plan = build_launch_plan(&v, variant, &caps());
    match plan.transport {
        TransportPlan::Quic { address, .. } => assert_eq!(address, "0.0.0.0:8443"),
        other => panic!("wrong transport: {:?}", other),
    }
    assert!(plan.alt_svc.is_some());
}

#[test]
fn migrate_binary_is_carried_into_the_plan() {
    let mut v = tls_values("https_only");
    v.auto_migrate_bin = Some("/usr/local/bin/migrate".to_string());
    let variant = resolve_variant(&v, &caps()).unwrap();
    let plan = build_launch_plan(&v, variant, &caps());
    assert_eq!(plan.migrate_bin.unwrap(), "/usr/local/bin/migrate");
}

#[test]
fn cors_credentials_follow_the_wildcard_rule() {
    let mut v = tls_values("https_only");
    v.allow_cors_domain = Some("https://app.example".to_string());
    let variant = resolve_variant(&v, &caps()).unwrap();
    let plan = build_launch_plan(&v, variant, &caps());
    let cors = plan.cors.unwrap();
    assert_eq!(cors.origin, "https://app.example");
    assert!(cors.allow_credentials);

    let mut v = tls_values("https_only");
    v.allow_cors_domain = Some("*".to_string());
    let plan = build_launch_plan(&v, StartupVariant::HttpsOnly, &caps());
    let cors = plan.cors.unwrap();
    assert_eq!(cors.origin, "*");
    assert!(!cors.allow_credentials);
}

#[test]
fn cors_capability_gates_the_policy() {
    let mut v = tls_values("https_only");
    v.allow_cors_domain = Some("*".to_string());
    let mut c = Capabilities::full();
    c.cors = false;
    let plan = build_launch_plan(&v, StartupVariant::HttpsOnly, &c);
    assert!(plan.cors.is_none());
}

#[test]
fn oapi_mount_and_frontend_choice() {
    let mut v = tls_values("https_only");
    v.allow_oapi_access = Some(true);
    v.oapi_name = Some("Example API".to_string());
    v.oapi_ver = Some("1.2.3".to_string());
    v.oapi_api_addr = Some("/api".to_string());
    v.oapi_frontend_type = Some("Scalar".to_string());
    let plan = build_launch_plan(&v, StartupVariant::HttpsOnly, &caps());
    let oapi = plan.oapi.unwrap();
    assert_eq!(oapi.name, "Example API");
    assert_eq!(oapi.version, "1.2.3");
    assert_eq!(oapi.mount_path, "/api");
    assert_eq!(oapi.spec_route, "/api/openapi.json");
    assert_eq!(oapi.frontend, Some(OapiFrontend::Scalar));

    v.oapi_frontend_type = Some("SwaggerUI".to_string());
    let plan = build_launch_plan(&v, StartupVariant::HttpsOnly, &caps());
    assert_eq!(plan.oapi.unwrap().frontend, Some(OapiFrontend::SwaggerUi));

    // An unrecognized front-end mounts the document with no renderer.
    v.oapi_frontend_type = Some("Redoc".to_string());
    let plan = build_launch_plan(&v, StartupVariant::HttpsOnly, &caps());
    assert_eq!(plan.oapi.unwrap().frontend, None);

    v.oapi_frontend_type = None;
    let plan = build_launch_plan(&v, StartupVariant::HttpsOnly, &caps());
    assert_eq!(plan.oapi.unwrap().frontend, None);

    // Disabled documentation mounts nothing.
    v.allow_oapi_access = Some(false);
    let plan = build_launch_plan(&v, StartupVariant::HttpsOnly, &caps());
    assert!(plan.oapi.is_none());
}
