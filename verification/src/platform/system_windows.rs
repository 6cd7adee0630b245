//! The Windows system monitor, which does not watch anything yet: it starts
//! and stops, cannot tell the power or thermal state, and keeps the system
//! awake with an assertion that holds nothing.
use vstd::prelude::*;
use crate::platform::system::{PowerState, SleepPrevention, SystemError, SystemEventHandler, SystemMonitor, ThermalState};

verus! {

/// The Windows system monitor.
#[derive(Debug, Clone, Copy, PartialEq, Eq, Structural)]
pub struct WindowsSystemMonitor;

impl WindowsSystemMonitor {
    /// A monitor that would report to `handler`; no events are produced.
    pub fn new<H: SystemEventHandler>(handler: H) -> (r: Self)
        ensures
            r == WindowsSystemMonitor,
    {
        WindowsSystemMonitor
    }
}

impl SystemMonitor for WindowsSystemMonitor {
    fn start(&mut self) -> (r: Result<(), SystemError>)
        ensures
            r is Ok,
    {
        Ok(())
    }

    fn stop(&mut self) -> (r: Result<(), SystemError>)
        ensures
            r is Ok,
    {
        Ok(())
    }

    fn power_state(&self) -> (r: Result<PowerState, SystemError>)
        ensures
            r == Err::<PowerState, SystemError>(SystemError::Unsupported),
    {
        Err(SystemError::Unsupported)
    }

    fn thermal_state(&self) -> (r: Result<ThermalState, SystemError>)
        ensures
            r == Err::<ThermalState, SystemError>(SystemError::Unsupported),
    {
        Err(SystemError::Unsupported)
    }

    fn prevent_sleep(&self, reason: &str) -> (r: Result<SleepPrevention, SystemError>)
        ensures
            r matches Ok(g) && g.spec_id() == 0,
    {
        Ok(SleepPrevention::noop())
    }

    fn allow_sleep(&self, prevention: SleepPrevention) -> (r: Result<(), SystemError>)
        ensures
            r is Ok,
    {
        Ok(())
    }
}

} // verus!
