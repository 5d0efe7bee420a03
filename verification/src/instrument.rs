use vstd::prelude::*;

use crate::hal::{DelayNs, OutputPin};

verus! {

/// Fault reported by a [`RecordingPin`] configured as faulty.
pub struct PinFault;

/// Instrumented output line: records every drive attempt. A faulty one
/// rejects every attempt but still records it, as a broken line would
/// still see the attempts.
pub struct RecordingPin {
    log: Vec<bool>,
    faulty: bool,
}

impl RecordingPin {
    /// Whether every drive attempt is rejected.
    pub closed spec fn is_faulty(self) -> bool {
        self.faulty
    }

    /// A line that accepts every drive attempt.
    pub fn new() -> (r: Self)
        ensures
            r.levels() == Seq::<bool>::empty(),
            !r.is_faulty(),
    {
        RecordingPin { log: Vec::new(), faulty: false }
    }

    /// A line whose hardware rejects every drive attempt.
    pub fn new_faulty() -> (r: Self)
        ensures
            r.levels() == Seq::<bool>::empty(),
            r.is_faulty(),
    {
        RecordingPin { log: Vec::new(), faulty: true }
    }

    /// The recorded drive attempts, oldest first, `true` for high.
    pub fn recorded(&self) -> (r: &Vec<bool>)
        ensures
            r@ == self.levels(),
    {
        &self.log
    }
}

impl OutputPin for RecordingPin {
    type Error = PinFault;

    closed spec fn levels(&self) -> Seq<bool> {
        self.log@
    }

    fn set_high(&mut self) -> (r: Result<(), PinFault>)
        ensures
            r is Ok <==> !old(self).is_faulty(),
            final(self).is_faulty() == old(self).is_faulty(),
    {
        self.log.push(true);
        if self.faulty {
            Err(PinFault)
        } else {
            Ok(())
        }
    }

    fn set_low(&mut self) -> (r: Result<(), PinFault>)
        ensures
            r is Ok <==> !old(self).is_faulty(),
            final(self).is_faulty() == old(self).is_faulty(),
    {
        self.log.push(false);
        if self.faulty {
            Err(PinFault)
        } else {
            Ok(())
        }
    }
}

/// Instrumented delay source: records every requested duration instead of
/// waiting.
pub struct RecordingDelay {
    log: Vec<u32>,
}

impl RecordingDelay {
    pub fn new() -> (r: Self)
        ensures
            r.waits() == Seq::<u32>::empty(),
    {
        RecordingDelay { log: Vec::new() }
    }

    /// The recorded wait durations in nanoseconds, oldest first.
    pub fn recorded(&self) -> (r: &Vec<u32>)
        ensures
            r@ == self.waits(),
    {
        &self.log
    }
}

impl DelayNs for RecordingDelay {
    closed spec fn waits(&self) -> Seq<u32> {
        self.log@
    }

    fn delay_ns(&mut self, ns: u32) {
        self.log.push(ns);
    }
}

} // verus!
