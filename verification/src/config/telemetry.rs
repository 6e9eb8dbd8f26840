//! Telemetry settings.

use vstd::prelude::*;

verus! {

/// Whether the agent records what it does.
#[derive(Debug, Clone)]
pub struct TelemetryConfig {
    pub trajectory_enabled: bool,
}

impl Default for TelemetryConfig {
    fn default() -> (r: Self)
        ensures
            r.trajectory_enabled,
    {
        TelemetryConfig { trajectory_enabled: default_true() }
    }
}

/// The default of a setting that is on unless switched off.
pub fn default_true() -> (r: bool)
    ensures
        r,
{
    true
}

} // verus!
