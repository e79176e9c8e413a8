//! The capability interface the engine drives: a write-only clock line, a
//! read-only data line, and a monotonic tick source.

use vstd::prelude::*;

verus! {

/// Failure reading or driving a physical line. It aborts the frame in
/// progress; the engine itself stays usable for the next call.
#[derive(Clone, Copy, Debug, PartialEq, Eq, Structural)]
pub struct LineError;

/// Exclusive access to the pair of lines and the tick source that clock
/// one controller.
///
/// The model is four spec functions: the tick count, the level the clock
/// line is held at, the level the data line would read at each tick, and
/// whether the line drivers are serviceable. Each operation states how it
/// moves that model; an implementation must show its own state keeps
/// these promises.
pub trait ScanPort: Sized {
    /// Ticks elapsed on the tick source since the port started.
    spec fn ticks(&self) -> int;

    /// True while the clock line is driven low.
    spec fn clock_is_low(&self) -> bool;

    /// True iff the data line reads low at tick `t`. The line belongs to
    /// the controller; the port only observes it, so driving the clock or
    /// letting ticks pass never changes this map.
    spec fn data_low_at(&self, t: int) -> bool;

    /// True while the line drivers are serviceable. Every operation
    /// succeeds on a healthy port and fails on an unhealthy one.
    spec fn healthy(&self) -> bool;

    /// Drive the clock line low. Takes no time on the tick source.
    fn drive_clock_low(&mut self) -> (r: Result<(), LineError>)
        ensures
            r is Ok <==> old(self).healthy(),
            r is Ok ==> final(self).clock_is_low(),
            r is Ok ==> final(self).ticks() == old(self).ticks(),
            r is Ok ==> final(self).healthy(),
            r is Ok ==> forall|t: int| final(self).data_low_at(t) == old(self).data_low_at(t),
            r is Err ==> *final(self) == *old(self),
    ;

    /// Drive the clock line high. Takes no time on the tick source.
    fn drive_clock_high(&mut self) -> (r: Result<(), LineError>)
        ensures
            r is Ok <==> old(self).healthy(),
            r is Ok ==> !final(self).clock_is_low(),
            r is Ok ==> final(self).ticks() == old(self).ticks(),
            r is Ok ==> final(self).healthy(),
            r is Ok ==> forall|t: int| final(self).data_low_at(t) == old(self).data_low_at(t),
            r is Err ==> *final(self) == *old(self),
    ;

    /// Sample the data line now. `Ok(true)` reports a low level.
    fn read_data(&self) -> (r: Result<bool, LineError>)
        ensures
            r is Ok <==> self.healthy(),
            r matches Ok(low) ==> low == self.data_low_at(self.ticks()),
    ;

    /// Block until `n` further ticks have elapsed on the tick source.
    fn wait_ticks(&mut self, n: u64) -> (r: Result<(), LineError>)
        requires
            old(self).ticks() + n <= u64::MAX,
        ensures
            r is Ok <==> old(self).healthy(),
            r is Ok ==> final(self).ticks() == old(self).ticks() + n,
            r is Ok ==> final(self).clock_is_low() == old(self).clock_is_low(),
            r is Ok ==> final(self).healthy(),
            r is Ok ==> forall|t: int| final(self).data_low_at(t) == old(self).data_low_at(t),
            r is Err ==> *final(self) == *old(self),
    ;
}

} // verus!
