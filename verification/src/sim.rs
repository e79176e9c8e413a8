//! A simulated line pair and virtual tick source, so the scan algorithm
//! can be exercised deterministically without hardware.

use vstd::prelude::*;
use crate::port::{LineError, ScanPort};

verus! {

/// A port backed by a virtual clock and a scripted data line.
///
/// Waiting advances the tick counter instantly; the data line follows the
/// script, entry `t` giving its level at tick `t`; past the end of the
/// script the line idles high, as an undriven open-drain line does. A
/// port built broken refuses every line access, which is how the
/// [`LineError`] path of the engine is exercised.
pub struct SimPort {
    /// Ticks elapsed on the virtual tick source.
    pub elapsed: u64,
    /// True while the simulated clock line is held low.
    pub clock_low: bool,
    /// Scripted data line: entry `t` is true when the line is low at tick `t`.
    pub script: Vec<bool>,
    /// When true, every line access reports a [`LineError`].
    pub broken: bool,
}

impl SimPort {
    /// A healthy port at tick 0, clock high, with the given data-line script.
    pub fn new(script: Vec<bool>) -> (r: SimPort)
        ensures
            r.elapsed == 0,
            !r.clock_low,
            !r.broken,
            r.script == script,
    {
        SimPort { elapsed: 0, clock_low: false, script, broken: false }
    }

    /// A port whose line drivers always fail.
    pub fn new_broken() -> (r: SimPort)
        ensures
            r.elapsed == 0,
            !r.clock_low,
            r.broken,
    {
        SimPort { elapsed: 0, clock_low: false, script: Vec::new(), broken: true }
    }
}

impl ScanPort for SimPort {
    open spec fn ticks(&self) -> int {
        self.elapsed as int
    }

    open spec fn clock_is_low(&self) -> bool {
        self.clock_low
    }

    open spec fn data_low_at(&self, t: int) -> bool {
        0 <= t < self.script@.len() && self.script@[t]
    }

    open spec fn healthy(&self) -> bool {
        !self.broken
    }

    fn drive_clock_low(&mut self) -> (r: Result<(), LineError>) {
        if self.broken {
            return Err(LineError);
        }
        self.clock_low = true;
        Ok(())
    }

    fn drive_clock_high(&mut self) -> (r: Result<(), LineError>) {
        if self.broken {
            return Err(LineError);
        }
        self.clock_low = false;
        Ok(())
    }

    fn read_data(&self) -> (r: Result<bool, LineError>) {
        if self.broken {
            return Err(LineError);
        }
        if self.elapsed < self.script.len() as u64 {
            Ok(self.script[self.elapsed as usize])
        } else {
            Ok(false)
        }
    }

    fn wait_ticks(&mut self, n: u64) -> (r: Result<(), LineError>) {
        if self.broken {
            return Err(LineError);
        }
        self.elapsed = self.elapsed + n;
        Ok(())
    }
}

} // verus!
