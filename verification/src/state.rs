//! The resolved, ready-to-launch server state: the deployment variant and
//! the file-logging guard whose lifetime keeps the non-blocking file sink
//! flushing.

use std::sync::Arc;
use vstd::prelude::*;

use crate::config::{Capabilities, GenericValues};
use crate::errors::ConfigError;
use crate::variant::{resolve_variant, spec_resolve_variant, StartupVariant};

verus! {

/// The guard of the non-blocking file-log writer. The kit only carries it:
/// it must stay alive for the whole process lifetime, because dropping the
/// last holder is the file sink's shutdown signal.
#[verifier::external_type_specification]
#[verifier::external_body]
pub struct ExWorkerGuard(tracing_appender::non_blocking::WorkerGuard);

/// The resolved server state: created once after validation, cloned (never
/// re-derived) by every later component that needs the variant.
#[derive(Clone)]
pub struct GenericServerState {
    /// The resolved deployment variant, ready to launch.
    pub startup_variant: StartupVariant,
    /// The file-log guard; shared ownership, held for the whole process
    /// lifetime when a file sink is configured.
    pub _file_log_guard: Option<Arc<tracing_appender::non_blocking::WorkerGuard>>,
}

/// Resolves the deployment variant from a validated configuration and
/// packs it, with the file-logging guard the sink activation produced,
/// into the ready-to-launch state. Fails exactly when resolution fails,
/// with resolution's error.
pub fn load_generic_state(
    values: &GenericValues,
    caps: &Capabilities,
    file_log_guard: Option<Arc<tracing_appender::non_blocking::WorkerGuard>>,
) -> (r: Result<GenericServerState, ConfigError>)
    ensures
        r matches Ok(state) ==> spec_resolve_variant(*values, *caps) == Ok::<
            StartupVariant,
            ConfigError,
        >(state.startup_variant) && state._file_log_guard == file_log_guard,
        r matches Err(e) ==> spec_resolve_variant(*values, *caps) == Err::<
            StartupVariant,
            ConfigError,
        >(e),
{
    match resolve_variant(values, caps) {
        Ok(v) => Ok(GenericServerState { startup_variant: v, _file_log_guard: file_log_guard }),
        Err(e) => Err(e),
    }
}

} // verus!
