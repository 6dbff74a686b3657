use server_kit::logging::{
    build_logging_plan, match_log_file_rolling, match_log_level, record_allowed,
    LogBackendRegistry, LogLevel, Rotation, DEFAULT_MAX_LOG_FILES,
};
use server_kit::{Capabilities, ConfigError, GenericValues};

fn caps() -> Capabilities {
    Capabilities::full()
}

#[test]
fn level_mapping_is_total_over_the_five_strings() {
    let cases = [
        ("error", LogLevel::Error),
        ("warn", LogLevel::Warn),
        ("info", LogLevel::Info),
        ("debug", LogLevel::Debug),
        ("trace", LogLevel::Trace),
    ];
    for (s, expected) in cases {
        let r = match_log_level(&Some(s.to_string()), false);
        assert_eq!(r, Ok(Some(expected)));
    }
}

#[test]
fn level_mapping_is_injective() {
    let strings = ["error", "warn", "info", "debug", "trace"];
    let levels: Vec<LogLevel> = strings
        .iter()
        .map(|s| match_log_level(&Some(s.to_string()), false).unwrap().unwrap())
        .collect();
    for i in 0..levels.len() {
        for j in 0..levels.len() {
            if i != j {
                assert_ne!(levels[i], levels[j]);
            }
        }
    }
}

#[test]
fn level_mapping_fails_closed_on_a_sixth_string() {
    let r = match_log_level(&Some("verbose".to_string()), false);
    assert_eq!(r, Err(ConfigError::InvalidLevel("verbose".to_string())));
    let r = match_log_level(&Some("Error".to_string()), true);
    assert_eq!(r, Err(ConfigError::InvalidLevel("Error".to_string())));
}

#[test]
fn absent_level_defaults_to_debug_only_in_debug_builds() {
    assert_eq!(match_log_level(&None, true), Ok(Some(LogLevel::Debug)));
    assert_eq!(match_log_level(&None, false), Ok(None));
}

#[test]
fn rotation_mapping_is_fixed() {
    let cases = [
        ("never", Rotation::Never),
        ("daily", Rotation::Daily),
        ("hourly", Rotation::Hourly),
        ("minutely", Rotation::Minutely),
    ];
    for (s, expected) in cases {
        let r = match_log_file_rolling(&Some(s.to_string()));
        assert_eq!(r, Ok(expected));
    }
    assert_eq!(match_log_file_rolling(&None), Ok(Rotation::Never));
    assert_eq!(
        match_log_file_rolling(&Some("weekly".to_string())),
        Err(ConfigError::InvalidRotation("weekly".to_string()))
    );
}

#[test]
fn plan_console_only() {
    let mut v = GenericValues::default();
    v.log_level = Some("info".to_string());
    v.log_file_level = None;
    let plan = build_logging_plan(&v, &caps()).unwrap();
    let console = plan.console.unwrap();
    assert_eq!(console.level, LogLevel::Info);
    assert!(console.filter_noise);
    assert!(plan.file.is_none());
    assert!(plan.telemetry.is_none());
}

#[test]
fn plan_file_sink_defaults() {
    let mut v = GenericValues::default();
    v.app_name = "svc".to_string();
    v.log_level = None;
    v.log_file_level = Some("warn".to_string());
    v.log_rolling = None;
    v.log_rolling_max_files = None;
    let c = Capabilities {
        console_debug_default: false,
        ..Capabilities::full()
    };
    let plan = build_logging_plan(&v, &c).unwrap();
    assert!(plan.console.is_none());
    let file = plan.file.unwrap();
    assert_eq!(file.level, LogLevel::Warn);
    assert_eq!(file.rotation, Rotation::Never);
    assert_eq!(file.max_files, DEFAULT_MAX_LOG_FILES);
    assert_eq!(file.name_suffix, "svc");
    assert!(plan.telemetry.is_none());
}

#[test]
fn plan_file_sink_configured_rotation_and_retention() {
    let mut v = GenericValues::default();
    v.log_file_level = Some("error".to_string());
    v.log_rolling = Some("hourly".to_string());
    v.log_rolling_max_files = Some(12);
    let plan = build_logging_plan(&v, &caps()).unwrap();
    let file = plan.file.unwrap();
    assert_eq!(file.rotation, Rotation::Hourly);
    assert_eq!(file.max_files, 12);
}

#[test]
fn plan_invalid_rotation_is_fatal_even_without_file_sink() {
    let mut v = GenericValues::default();
    v.log_file_level = None;
    v.log_rolling = Some("fortnightly".to_string());
    let r = build_logging_plan(&v, &caps());
    assert_eq!(
        r,
        Err(ConfigError::InvalidRotation("fortnightly".to_string()))
    );
}

#[test]
fn plan_invalid_console_level_is_fatal() {
    let mut v = GenericValues::default();
    v.log_level = Some("loud".to_string());
    let r = build_logging_plan(&v, &caps());
    assert_eq!(r, Err(ConfigError::InvalidLevel("loud".to_string())));
}

#[test]
fn plan_telemetry_needs_endpoint_and_console_level() {
    let mut v = GenericValues::default();
    v.app_name = "svc".to_string();
    v.log_level = Some("debug".to_string());
    v.open_telemetry_endpoint = Some("http://collector:4317".to_string());
    let plan = build_logging_plan(&v, &caps()).unwrap();
    let telemetry = plan.telemetry.unwrap();
    assert_eq!(telemetry.endpoint, "http://collector:4317");
    assert_eq!(telemetry.level, LogLevel::Debug);
    assert_eq!(telemetry.service_name, "svc");

    // No console threshold: no exporter, even with an endpoint.
    let mut v = GenericValues::default();
    v.log_level = None;
    v.open_telemetry_endpoint = Some("http://collector:4317".to_string());
    let c = Capabilities {
        console_debug_default: false,
        ..Capabilities::full()
    };
    let plan = build_logging_plan(&v, &c).unwrap();
    assert!(plan.telemetry.is_none());

    // Capability absent: no exporter.
    let mut c = Capabilities::full();
    c.otel = false;
    let mut v = GenericValues::default();
    v.log_level = Some("debug".to_string());
    v.open_telemetry_endpoint = Some("http://collector:4317".to_string());
    let plan = build_logging_plan(&v, &c).unwrap();
    assert!(plan.telemetry.is_none());
}

#[test]
fn plan_unfiltered_build_disables_noise_filter() {
    let mut v = GenericValues::default();
    v.log_level = Some("debug".to_string());
    let mut c = Capabilities::full();
    c.log_unfiltered = true;
    let plan = build_logging_plan(&v, &c).unwrap();
    assert!(!plan.console.unwrap().filter_noise);
}

#[test]
fn noise_filter_suppresses_framework_modules() {
    assert!(!record_allowed(Some("salvo_core::server")));
    assert!(!record_allowed(Some("hyper_util::client::pool")));
    assert!(!record_allowed(Some("tower::buffer")));
    assert!(!record_allowed(Some("quinn::connection")));
    assert!(!record_allowed(Some("h2::codec")));
    assert!(record_allowed(Some("myapp::handlers")));
    assert!(record_allowed(None));
}

#[test]
fn backend_registration_is_at_most_once() {
    let mut registry = LogBackendRegistry::new();
    assert!(!registry.is_registered());
    assert_eq!(registry.register(), Ok(()));
    assert!(registry.is_registered());
    assert_eq!(
        registry.register(),
        Err(ConfigError::LogBackendInitFailure)
    );
    assert!(registry.is_registered());
    assert_eq!(
        registry.register(),
        Err(ConfigError::LogBackendInitFailure)
    );
}
