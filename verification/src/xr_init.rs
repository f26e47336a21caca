//! Whether XR is in use.
//!
//! Setting the runtime up can fail: no headset, no runtime, no suitable
//! graphics. That is no reason for the application to stop. It goes on
//! without XR, and everything that drives the runtime is switched off.

use vstd::prelude::*;

verus! {

/// Whether the runtime is set up.
#[derive(Clone, Copy, Debug, PartialEq, Eq, Structural)]
pub enum XrEnableStatus {
    /// The runtime is set up and driven every tick.
    Enabled,
    /// The application runs without XR.
    Disabled,
    /// The setup is still under way.
    Waiting,
}

/// The status after the attempt to set the runtime up: enabled if it
/// succeeded, disabled, and never an error, if it failed.
pub fn status_after_setup(succeeded: bool) -> (status: XrEnableStatus)
    ensures
        status == (if succeeded {
            XrEnableStatus::Enabled
        } else {
            XrEnableStatus::Disabled
        }),
{
    if succeeded {
        XrEnableStatus::Enabled
    } else {
        XrEnableStatus::Disabled
    }
}

/// Whether what drives the runtime is to run: only while XR is enabled.
pub fn xr_only(status: XrEnableStatus) -> (run: bool)
    ensures
        run == (status == XrEnableStatus::Enabled),
{
    match status {
        XrEnableStatus::Enabled => true,
        _ => false,
    }
}

/// Whether the setup is over, one way or the other. Where no status was
/// ever noted there is nothing to wait for.
pub fn ready(status: Option<XrEnableStatus>) -> (ready: bool)
    ensures
        ready == (status != Some(XrEnableStatus::Waiting)),
{
    match status {
        Some(XrEnableStatus::Waiting) => false,
        _ => true,
    }
}

} // verus!
