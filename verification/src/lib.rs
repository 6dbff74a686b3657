//! Server bootstrap kit: turns a declarative configuration into a validated
//! deployment plan.
//!
//! The crate is organised around plain data. A configuration document is
//! loaded into [`config::GenericValues`]; [`variant::resolve_variant`] checks
//! it against the startup-type vocabulary and derives the deployment variant;
//! [`logging::build_logging_plan`] decides which log sinks run and at which
//! severity; [`port_watch`] decides when a watched port file resolves the
//! server port; and [`launch::build_launch_plan`] fixes the bind address,
//! middleware and certificate sources for the chosen variant. The embedding
//! application performs the side effects (file reads, filesystem watches,
//! socket binds, log-sink activation) that these decisions call for.

pub mod config;
pub mod errors;
pub mod launch;
pub mod logging;
pub mod port_watch;
pub mod state;
pub mod text;
pub mod variant;

pub use config::{Capabilities, GenericSetup, GenericValues};
pub use errors::{ConfigError, ConfigField};
pub use launch::{CorsPlan, LaunchPlan, OapiFrontend, OapiPlan, TransportPlan};
pub use logging::{LogBackendRegistry, LogLevel, LoggingPlan, Rotation};
pub use port_watch::{WatchEvent, WatchStep};
pub use state::GenericServerState;
pub use variant::StartupVariant;
