//! Platform-independent types, errors, messages and state machines.
pub mod types;
pub mod error;
pub mod messages;
pub mod events;
pub mod hotkeys;
pub mod latency;
pub mod recovery;
pub mod logging;
pub mod error_injector;
