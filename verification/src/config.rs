//! Requested timing for the scan clock, and its validation.

use vstd::prelude::*;

verus! {

/// Lowest scan-clock frequency the controller accepts, in hertz.
pub const MIN_TARGET_FREQUENCY_HZ: u32 = 1_000;

/// Highest scan-clock frequency the controller accepts, in hertz.
pub const MAX_TARGET_FREQUENCY_HZ: u32 = 512_000;

/// Rejected configuration: every construction failure is of this kind and
/// is surfaced immediately; the engine never retries a bad configuration.
#[derive(Clone, Copy, Debug, PartialEq, Eq, Structural)]
pub enum ConfigError {
    /// The target frequency lies outside the supported band, or is too
    /// high for the tick source to resolve half a clock period.
    FrequencyOutOfRange,
}

/// Timing requested of the engine: how fast to clock the controller, how
/// the tick source counts, and how long the bus must stay quiet between
/// frames. Consumed once at engine construction.
#[derive(Clone, Copy, Debug, PartialEq, Eq, Structural)]
pub struct ScanConfig {
    /// Desired scan-clock frequency, in hertz.
    pub target_frequency_hz: u32,
    /// Rate of the tick source, in ticks per second.
    pub tick_rate_hz: u32,
    /// Minimum quiet interval after each frame, in microseconds.
    pub quiet_duration_us: u32,
}

/// Ticks in half a clock period at the requested frequency, rounded
/// toward zero.
pub open spec fn spec_half_period_ticks(cfg: ScanConfig) -> int {
    cfg.tick_rate_hz as int / (2 * cfg.target_frequency_hz as int)
}

/// Ticks in the quiet interval, rounded toward zero.
pub open spec fn spec_quiet_period_ticks(cfg: ScanConfig) -> int {
    cfg.quiet_duration_us as int * cfg.tick_rate_hz as int / 1_000_000
}

/// A configuration is accepted iff the target frequency lies within the
/// supported band and the tick source is fine-grained enough to give at
/// least one tick per half clock period.
pub open spec fn config_valid(cfg: ScanConfig) -> bool {
    &&& MIN_TARGET_FREQUENCY_HZ <= cfg.target_frequency_hz <= MAX_TARGET_FREQUENCY_HZ
    &&& spec_half_period_ticks(cfg) >= 1
}

} // verus!
