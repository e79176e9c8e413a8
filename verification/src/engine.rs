//! The scan engine: derives the timing constants and runs one full
//! sixteen-cycle scan per call, quiet interval included.

use vstd::prelude::*;
use crate::config::{
    config_valid, spec_half_period_ticks, spec_quiet_period_ticks, ConfigError, ScanConfig,
    MAX_TARGET_FREQUENCY_HZ, MIN_TARGET_FREQUENCY_HZ,
};
use crate::frame::{ScanFrame, CHANNEL_COUNT};
use crate::port::{LineError, ScanPort};

verus! {

/// Tick at which channel `i` is sampled by a scan whose first clock edge
/// fell at tick `start`: `i` full clock periods have passed, plus the low
/// half of channel `i`'s own period.
pub open spec fn sample_tick(start: int, half_period: int, i: int) -> int {
    start + (2 * i + 1) * half_period
}

/// Ticks one whole `scan` call occupies: sixteen full clock periods of
/// two half-periods each, then the mandatory quiet interval.
pub open spec fn scan_duration_ticks(half_period: int, quiet_period: int) -> int {
    32 * half_period + quiet_period
}

/// Owns the clock line, the data line and the tick source of one
/// controller, together with the timing constants derived once from a
/// [`ScanConfig`]. Lives for the life of the process; each `scan` call
/// produces one fresh frame.
pub struct ScanEngine<P: ScanPort> {
    /// The lines and tick source this engine drives, exclusively.
    pub port: P,
    /// Ticks per half clock period; at least 1 by construction.
    pub half_period_ticks: u64,
    /// Ticks the bus is held quiet after each frame.
    pub quiet_period_ticks: u64,
}

impl<P: ScanPort> ScanEngine<P> {
    /// Construction established this and every scan preserves it.
    pub open spec fn wf(&self) -> bool {
        self.half_period_ticks >= 1
    }

    /// Takes the port and a configuration; derives the half-period and
    /// quiet-period tick counts, rounding toward zero. Fails iff the
    /// target frequency is outside the supported band or half a period
    /// rounds to zero ticks; a rejected configuration is surfaced at
    /// once and never retried — the caller must construct anew.
    pub fn new(port: P, config: ScanConfig) -> (r: Result<ScanEngine<P>, ConfigError>)
        ensures
            r is Ok <==> config_valid(config),
            r matches Ok(e) ==> {
                &&& e.port == port
                &&& e.half_period_ticks == spec_half_period_ticks(config)
                &&& e.quiet_period_ticks == spec_quiet_period_ticks(config)
                &&& e.wf()
            },
            r is Err ==> r == Err::<ScanEngine<P>, ConfigError>(ConfigError::FrequencyOutOfRange),
    {
        if config.target_frequency_hz < MIN_TARGET_FREQUENCY_HZ
            || config.target_frequency_hz > MAX_TARGET_FREQUENCY_HZ {
            return Err(ConfigError::FrequencyOutOfRange);
        }
        let half: u64 = (config.tick_rate_hz as u64) / (2 * (config.target_frequency_hz as u64));
        if half == 0 {
            return Err(ConfigError::FrequencyOutOfRange);
        }
        proof {
            assert((config.quiet_duration_us as int) * (config.tick_rate_hz as int)
                <= (u32::MAX as int) * (u32::MAX as int)) by (nonlinear_arith)
                requires
                    config.quiet_duration_us as int <= u32::MAX as int,
                    config.tick_rate_hz as int <= u32::MAX as int,
                    0 <= config.quiet_duration_us as int,
                    0 <= config.tick_rate_hz as int,
            ;
        }
        let quiet: u64 = (config.quiet_duration_us as u64) * (config.tick_rate_hz as u64)
            / 1_000_000;
        Ok(ScanEngine { port, half_period_ticks: half, quiet_period_ticks: quiet })
    }

    /// Runs one full scan. For each channel 0 through 15 in that order:
    /// clock low, half a period, clock high, sample the data line, half a
    /// period. Active-low is a device contract: the recorded state is
    /// true exactly when the line read low. After the sixteenth cycle the
    /// engine blocks for the whole quiet interval before returning, so no
    /// caller can start the next frame early. A line failure aborts the
    /// frame with no partial result and leaves the engine unchanged.
    #[verifier::loop_isolation(false)]
    pub fn scan(&mut self) -> (r: Result<ScanFrame, LineError>)
        requires
            old(self).wf(),
            old(self).port.ticks()
                + scan_duration_ticks(
                    old(self).half_period_ticks as int,
                    old(self).quiet_period_ticks as int,
                ) <= u64::MAX,
        ensures
            final(self).half_period_ticks == old(self).half_period_ticks,
            final(self).quiet_period_ticks == old(self).quiet_period_ticks,
            final(self).wf(),
            r is Ok <==> old(self).port.healthy(),
            r matches Ok(frame) ==> {
                &&& frame.wf()
                &&& forall|i: int| 0 <= i < CHANNEL_COUNT ==> frame@[i] == old(self).port.data_low_at(
                    sample_tick(
                        old(self).port.ticks(),
                        old(self).half_period_ticks as int,
                        i,
                    ),
                )
                &&& final(self).port.ticks() == old(self).port.ticks() + scan_duration_ticks(
                    old(self).half_period_ticks as int,
                    old(self).quiet_period_ticks as int,
                )
                &&& !final(self).port.clock_is_low()
                &&& final(self).port.healthy()
                &&& forall|t: int| final(self).port.data_low_at(t) == old(self).port.data_low_at(t)
            },
            r is Err ==> *final(self) == *old(self),
    {
        let ghost start: int = self.port.ticks();
        let ghost half: int = self.half_period_ticks as int;
        let mut channels: Vec<bool> = Vec::new();
        let mut i: usize = 0;
        while i < CHANNEL_COUNT
            invariant
                i <= CHANNEL_COUNT,
                channels@.len() == i,
                self.half_period_ticks == old(self).half_period_ticks,
                self.quiet_period_ticks == old(self).quiet_period_ticks,
                i > 0 ==> old(self).port.healthy(),
                self.port.healthy() == old(self).port.healthy(),
                i > 0 ==> !self.port.clock_is_low(),
                i == 0 ==> *self == *old(self),
                self.port.ticks() == start + 2 * i * half,
                forall|t: int| self.port.data_low_at(t) == old(self).port.data_low_at(t),
                forall|j: int| 0 <= j < i ==> channels@[j] == old(self).port.data_low_at(
                    sample_tick(start, half, j),
                ),
            decreases CHANNEL_COUNT - i,
        {
            proof {
                assert(0 <= 2 * i * half && 2 * i * half + 2 * half <= 32 * half)
                    by (nonlinear_arith)
                    requires half >= 1, 0 <= i < 16,
                ;
            }
            match self.port.drive_clock_low() {
                Ok(()) => {}
                Err(e) => {
                    return Err(e);
                }
            }
            match self.port.wait_ticks(self.half_period_ticks) {
                Ok(()) => {}
                Err(e) => {
                    return Err(e);
                }
            }
            match self.port.drive_clock_high() {
                Ok(()) => {}
                Err(e) => {
                    return Err(e);
                }
            }
            let low = match self.port.read_data() {
                Ok(low) => low,
                Err(e) => {
                    return Err(e);
                }
            };
            proof {
                assert(sample_tick(start, half, i as int) == start + 2 * i * half + half)
                    by (nonlinear_arith)
                ;
            }
            channels.push(low);
            match self.port.wait_ticks(self.half_period_ticks) {
                Ok(()) => {}
                Err(e) => {
                    return Err(e);
                }
            }
            proof {
                assert(start + 2 * i * half + half + half == start + 2 * (i + 1) * half)
                    by (nonlinear_arith)
                ;
            }
            i = i + 1;
        }
        match self.port.wait_ticks(self.quiet_period_ticks) {
            Ok(()) => {}
            Err(e) => {
                return Err(e);
            }
        }
        Ok(ScanFrame::from_channels(channels))
    }
}

} // verus!
