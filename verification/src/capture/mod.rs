//! Video capture: device state, negotiation, reconnection and frame flow.
pub mod state;
pub mod reconnection;
pub mod negotiation;
pub mod enumerator;
pub mod capture_loop;
pub mod hotplug;
pub mod frame_queue;
pub mod media_foundation;
pub mod v4l2;
pub mod simulator;
pub mod manager;
