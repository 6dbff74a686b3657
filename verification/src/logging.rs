//! The logging pipeline plan: which of the console, rotating-file and
//! remote-telemetry sinks run, at which severity, with which rotation and
//! retention, and whether the serving framework's own internal records are
//! filtered out.
//!
//! The plan is pure data; the embedding application activates the sinks it
//! names and registers the composed backend as the process-wide logger,
//! guarded by [`LogBackendRegistry`] so that registration happens at most
//! once.

use vstd::prelude::*;

use crate::config::{Capabilities, GenericValues};
use crate::errors::ConfigError;
use crate::text::{contains_substring, spec_has_substring, string_is};

verus! {

/// A log severity threshold. The string vocabulary is fixed:
/// `error|warn|info|debug|trace`.
#[derive(Clone, Copy, PartialEq, Eq, Structural, Debug)]
pub enum LogLevel {
    Error,
    Warn,
    Info,
    Debug,
    Trace,
}

/// A file rotation policy. The string vocabulary is fixed:
/// `never|daily|hourly|minutely`.
#[derive(Clone, Copy, PartialEq, Eq, Structural, Debug)]
pub enum Rotation {
    Never,
    Daily,
    Hourly,
    Minutely,
}

/// The level-string vocabulary: the level each exact string selects, or
/// `None` outside the vocabulary.
pub open spec fn spec_level_of(s: Seq<char>) -> Option<LogLevel> {
    if s == "error"@ {
        Some(LogLevel::Error)
    } else if s == "warn"@ {
        Some(LogLevel::Warn)
    } else if s == "info"@ {
        Some(LogLevel::Info)
    } else if s == "debug"@ {
        Some(LogLevel::Debug)
    } else if s == "trace"@ {
        Some(LogLevel::Trace)
    } else {
        None
    }
}

/// The rotation-string vocabulary: the policy each exact string selects,
/// or `None` outside the vocabulary.
pub open spec fn spec_rotation_of(s: Seq<char>) -> Option<Rotation> {
    if s == "never"@ {
        Some(Rotation::Never)
    } else if s == "daily"@ {
        Some(Rotation::Daily)
    } else if s == "hourly"@ {
        Some(Rotation::Hourly)
    } else if s == "minutely"@ {
        Some(Rotation::Minutely)
    } else {
        None
    }
}

/// What `match_log_level` returns: the level the configured string selects;
/// `InvalidLevel` naming the string when it is outside the vocabulary; with
/// no string configured, `debug` when this sink defaults it, else no sink.
pub open spec fn spec_match_log_level(level: Option<String>, default_debug: bool) -> Result<
    Option<LogLevel>,
    ConfigError,
> {
    match level {
        Some(s) => match spec_level_of(s@) {
            Some(l) => Ok(Some(l)),
            None => Err(ConfigError::InvalidLevel(s)),
        },
        None => if default_debug {
            Ok(Some(LogLevel::Debug))
        } else {
            Ok(None)
        },
    }
}

/// Maps a configured severity string to its level. The mapping over the
/// five valid strings is total and injective and fails closed on any other
/// string; an absent string enables no sink unless `default_debug` is set.
pub fn match_log_level(level: &Option<String>, default_debug: bool) -> (r: Result<
    Option<LogLevel>,
    ConfigError,
>)
    ensures
        r == spec_match_log_level(*level, default_debug),
{
    match level {
        Some(s) => {
            if string_is(s, "error") {
                Ok(Some(LogLevel::Error))
            } else if string_is(s, "warn") {
                Ok(Some(LogLevel::Warn))
            } else if string_is(s, "info") {
                Ok(Some(LogLevel::Info))
            } else if string_is(s, "debug") {
                Ok(Some(LogLevel::Debug))
            } else if string_is(s, "trace") {
                Ok(Some(LogLevel::Trace))
            } else {
                Err(ConfigError::InvalidLevel(s.clone()))
            }
        },
        None => if default_debug {
            Ok(Some(LogLevel::Debug))
        } else {
            Ok(None)
        },
    }
}

/// What `match_log_file_rolling` returns: the policy the configured string
/// selects, `never` when none is configured, and `InvalidRotation` naming
/// any string outside the vocabulary.
pub open spec fn spec_match_log_file_rolling(rolling: Option<String>) -> Result<
    Rotation,
    ConfigError,
> {
    match rolling {
        Some(s) => match spec_rotation_of(s@) {
            Some(r) => Ok(r),
            None => Err(ConfigError::InvalidRotation(s)),
        },
        None => Ok(Rotation::Never),
    }
}

/// Maps the configured rotation string to its policy; absent means `never`.
pub fn match_log_file_rolling(rolling: &Option<String>) -> (r: Result<Rotation, ConfigError>)
    ensures
        r == spec_match_log_file_rolling(*rolling),
{
    match rolling {
        Some(s) => {
            if string_is(s, "never") {
                Ok(Rotation::Never)
            } else if string_is(s, "daily") {
                Ok(Rotation::Daily)
            } else if string_is(s, "hourly") {
                Ok(Rotation::Hourly)
            } else if string_is(s, "minutely") {
                Ok(Rotation::Minutely)
            } else {
                Err(ConfigError::InvalidRotation(s.clone()))
            }
        },
        None => Ok(Rotation::Never),
    }
}

/// The level mapping is total over the five valid strings, each selecting
/// its own level, and injective: two strings inside the vocabulary that
/// select the same level are the same string.
pub proof fn lemma_level_mapping_total_injective(s1: Seq<char>, s2: Seq<char>)
    ensures
        spec_level_of("error"@) == Some(LogLevel::Error),
        spec_level_of("warn"@) == Some(LogLevel::Warn),
        spec_level_of("info"@) == Some(LogLevel::Info),
        spec_level_of("debug"@) == Some(LogLevel::Debug),
        spec_level_of("trace"@) == Some(LogLevel::Trace),
        spec_level_of(s1) is Some && spec_level_of(s1) == spec_level_of(s2) ==> s1 == s2,
{
    reveal_strlit("error");
    reveal_strlit("warn");
    reveal_strlit("info");
    reveal_strlit("debug");
    reveal_strlit("trace");
    // The five strings pairwise differ already in their first character.
    assert("error"@.len() == 5 && "error"@[0] == 'e');
    assert("warn"@.len() == 4 && "warn"@[0] == 'w');
    assert("info"@.len() == 4 && "info"@[0] == 'i');
    assert("debug"@.len() == 5 && "debug"@[0] == 'd');
    assert("trace"@.len() == 5 && "trace"@[0] == 't');
}

/// The console sink: writes formatted records to standard output.
#[derive(Clone, PartialEq, Eq, Debug)]
pub struct ConsoleSinkPlan {
    /// Minimum severity this sink emits.
    pub level: LogLevel,
    /// Suppress records of the serving framework's own internal modules.
    pub filter_noise: bool,
}

/// The rotating file sink: writes through a non-blocking background
/// flusher whose guard the caller must keep alive.
#[derive(Clone, PartialEq, Eq, Debug)]
pub struct FileSinkPlan {
    /// Minimum severity this sink emits.
    pub level: LogLevel,
    /// When the sink rolls to a new file.
    pub rotation: Rotation,
    /// How many rotated files are retained before the oldest is removed.
    pub max_files: u32,
    /// Filename suffix of each log file: the application name.
    pub name_suffix: String,
    /// Suppress records of the serving framework's own internal modules.
    pub filter_noise: bool,
}

/// The remote telemetry sink: exports structured trace spans to the
/// configured endpoint, tagged with the application identity.
#[derive(Clone, PartialEq, Eq, Debug)]
pub struct TelemetrySinkPlan {
    /// Where spans are exported to.
    pub endpoint: String,
    /// Minimum severity this sink emits: the console threshold.
    pub level: LogLevel,
    /// The application identity the spans are tagged with.
    pub service_name: String,
    /// Suppress records of the serving framework's own internal modules.
    pub filter_noise: bool,
}

/// Zero to three independently-configured sinks, composed into one active
/// logging backend.
#[derive(Clone, PartialEq, Eq, Debug)]
pub struct LoggingPlan {
    /// Active iff a console level is configured (or a debug build defaults
    /// it).
    pub console: Option<ConsoleSinkPlan>,
    /// Active iff a file level is configured.
    pub file: Option<FileSinkPlan>,
    /// Active iff the capability exists, an endpoint is configured and the
    /// console threshold resolved.
    pub telemetry: Option<TelemetrySinkPlan>,
}

/// The retention default when the document sets none.
pub const DEFAULT_MAX_LOG_FILES: u32 = 5;

/// What `build_logging_plan` returns: each sink exactly as the
/// configuration enables it, or the first invalid level or rotation
/// string's error.
pub open spec fn spec_build_logging_plan(vals: GenericValues, caps: Capabilities) -> Result<
    LoggingPlan,
    ConfigError,
> {
    match spec_match_log_level(vals.log_level, caps.console_debug_default) {
        Err(e) => Err(e),
        Ok(console_level) => match spec_match_log_level(vals.log_file_level, false) {
            Err(e) => Err(e),
            Ok(file_level) => match spec_match_log_file_rolling(vals.log_rolling) {
                Err(e) => Err(e),
                Ok(rotation) => Ok(
                    LoggingPlan {
                        console: match console_level {
                            Some(l) => Some(
                                ConsoleSinkPlan { level: l, filter_noise: !caps.log_unfiltered },
                            ),
                            None => None,
                        },
                        file: match file_level {
                            Some(l) => Some(
                                FileSinkPlan {
                                    level: l,
                                    rotation,
                                    max_files: match vals.log_rolling_max_files {
                                        Some(m) => m,
                                        None => DEFAULT_MAX_LOG_FILES,
                                    },
                                    name_suffix: vals.app_name,
                                    filter_noise: !caps.log_unfiltered,
                                },
                            ),
                            None => None,
                        },
                        telemetry: match (vals.open_telemetry_endpoint, console_level) {
                            (Some(endpoint), Some(l)) => if caps.otel {
                                Some(
                                    TelemetrySinkPlan {
                                        endpoint,
                                        level: l,
                                        service_name: vals.app_name,
                                        filter_noise: !caps.log_unfiltered,
                                    },
                                )
                            } else {
                                None
                            },
                            _ => None,
                        },
                    },
                ),
            },
        },
    }
}

/// Assembles the logging pipeline plan from the configuration: the console
/// sink iff a console level resolves, the rotating file sink iff a file
/// level is configured (rotation `never` and retention 5 by default), and
/// the telemetry sink iff the capability exists, an endpoint is configured
/// and the console threshold resolved. Any invalid level or rotation
/// string fails the whole build.
pub fn build_logging_plan(values: &GenericValues, caps: &Capabilities) -> (r: Result<
    LoggingPlan,
    ConfigError,
>)
    ensures
        r == spec_build_logging_plan(*values, *caps),
{
    let console_level = match match_log_level(&values.log_level, caps.console_debug_default) {
        Ok(l) => l,
        Err(e) => {
            return Err(e);
        },
    };
    let file_level = match match_log_level(&values.log_file_level, false) {
        Ok(l) => l,
        Err(e) => {
            return Err(e);
        },
    };
    let rotation = match match_log_file_rolling(&values.log_rolling) {
        Ok(r) => r,
        Err(e) => {
            return Err(e);
        },
    };
    let filter_noise = !caps.log_unfiltered;
    let console = match console_level {
        Some(l) => Some(ConsoleSinkPlan { level: l, filter_noise }),
        None => None,
    };
    let file = match file_level {
        Some(l) => Some(
            FileSinkPlan {
                level: l,
                rotation,
                max_files: match values.log_rolling_max_files {
                    Some(m) => m,
                    None => DEFAULT_MAX_LOG_FILES,
                },
                name_suffix: values.app_name.clone(),
                filter_noise,
            },
        ),
        None => None,
    };
    let telemetry = match (&values.open_telemetry_endpoint, console_level) {
        (Some(endpoint), Some(l)) => if caps.otel {
            Some(
                TelemetrySinkPlan {
                    endpoint: endpoint.clone(),
                    level: l,
                    service_name: values.app_name.clone(),
                    filter_noise,
                },
            )
        } else {
            None
        },
        _ => None,
    };
    Ok(LoggingPlan { console, file, telemetry })
}

/// A module path is noise when it comes from the serving framework's own
/// internals.
pub open spec fn spec_noisy_module(path: Seq<char>) -> bool {
    spec_has_substring(path, "salvo"@) || spec_has_substring(path, "hyper_util"@)
        || spec_has_substring(path, "tower"@) || spec_has_substring(path, "quinn"@)
        || spec_has_substring(path, "h2"@)
}

/// The noise filter each sink may apply: a record passes unless its module
/// path names one of the serving framework's internal modules; a record
/// without a module path always passes.
pub fn record_allowed(mod_path: Option<&str>) -> (r: bool)
    ensures
        r == match mod_path {
            Some(p) => !spec_noisy_module(p@),
            None => true,
        },
{
    match mod_path {
        Some(p) => !(contains_substring(p, "salvo") || contains_substring(p, "hyper_util")
            || contains_substring(p, "tower") || contains_substring(p, "quinn")
            || contains_substring(p, "h2")),
        None => true,
    }
}

/// The at-most-once guard for registering the composed backend as the
/// process-wide logger. The embedding application holds one registry for
/// the process and asks it before registering; the second request is a
/// fatal startup error, never a silent double-registration.
pub struct LogBackendRegistry {
    registered: bool,
}

impl LogBackendRegistry {
    /// Whether the backend has already been registered through this
    /// registry.
    pub closed spec fn spec_registered(self) -> bool {
        self.registered
    }

    /// A fresh registry: nothing registered yet.
    pub fn new() -> (r: Self)
        ensures
            !r.spec_registered(),
    {
        LogBackendRegistry { registered: false }
    }

    /// Whether the backend has already been registered through this
    /// registry.
    pub fn is_registered(&self) -> (r: bool)
        ensures
            r == self.spec_registered(),
    {
        self.registered
    }

    /// Claims the one registration. Succeeds exactly once: the first call
    /// returns `Ok` and marks the registry, every later call fails with
    /// `LogBackendInitFailure`.
    pub fn register(&mut self) -> (r: Result<(), ConfigError>)
        ensures
            final(self).spec_registered(),
            r is Ok <==> !old(self).spec_registered(),
            r is Err ==> r == Err::<(), ConfigError>(ConfigError::LogBackendInitFailure),
    {
        if self.registered {
            Err(ConfigError::LogBackendInitFailure)
        } else {
            self.registered = true;
            Ok(())
        }
    }
}

} // verus!
