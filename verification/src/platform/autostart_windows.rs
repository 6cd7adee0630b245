//! Launching at login on Windows, which is not available yet: each
//! operation fails with `NotSupported`.
use vstd::prelude::*;
use crate::platform::autostart::AutostartError;
use crate::text::owned;

verus! {

/// The message of the errors of this module.
pub open spec fn windows_unsupported_text() -> Seq<char> {
    "Windows autostart not yet implemented"@
}

fn not_supported() -> (r: AutostartError)
    ensures
        r matches AutostartError::NotSupported(m) && m@ == windows_unsupported_text(),
{
    AutostartError::NotSupported(owned("Windows autostart not yet implemented"))
}

/// Whether the application starts at login: not supported.
pub fn is_enabled() -> (r: Result<bool, AutostartError>)
    ensures
        r matches Err(AutostartError::NotSupported(m)) && m@ == windows_unsupported_text(),
{
    Err(not_supported())
}

/// Starts the application at login: not supported.
pub fn enable() -> (r: Result<(), AutostartError>)
    ensures
        r matches Err(AutostartError::NotSupported(m)) && m@ == windows_unsupported_text(),
{
    Err(not_supported())
}

/// Stops starting the application at login: not supported.
pub fn disable() -> (r: Result<(), AutostartError>)
    ensures
        r matches Err(AutostartError::NotSupported(m)) && m@ == windows_unsupported_text(),
{
    Err(not_supported())
}

} // verus!
