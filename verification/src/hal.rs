use vstd::pervasive::arbitrary;
use vstd::prelude::*;

verus! {

/// Capability to drive one digital output line.
///
/// `levels()` is the history of drive attempts, oldest first, with `true`
/// for high. An implementation records each attempt whether or not the
/// hardware accepted it, so a faulty line still yields the same history.
pub trait OutputPin {
    /// Hardware fault reported by a rejected drive attempt.
    type Error;

    /// The recorded history of drive attempts. An implementation that the
    /// contracts below are proved for overrides this; the default leaves
    /// the history unspecified.
    open spec fn levels(&self) -> Seq<bool> {
        arbitrary()
    }

    /// Attempt to drive the line high.
    fn set_high(&mut self) -> (r: Result<(), Self::Error>)
        ensures
            final(self).levels() == old(self).levels().push(true),
    ;

    /// Attempt to drive the line low.
    fn set_low(&mut self) -> (r: Result<(), Self::Error>)
        ensures
            final(self).levels() == old(self).levels().push(false),
    ;
}

/// Capability to block for approximately a requested number of nanoseconds.
///
/// `waits()` is the history of requested durations, oldest first. A wait
/// never returns early and never yields to other work.
pub trait DelayNs {
    /// The recorded history of requested wait durations, in nanoseconds.
    /// An implementation that the contracts below are proved for overrides
    /// this; the default leaves the history unspecified.
    open spec fn waits(&self) -> Seq<u32> {
        arbitrary()
    }

    /// Block for approximately `ns` nanoseconds.
    fn delay_ns(&mut self, ns: u32)
        ensures
            final(self).waits() == old(self).waits().push(ns),
    ;
}

/// Drive the line high, suppressing any hardware fault: a half-sent frame
/// cannot be recovered, so transmission always continues.
pub fn led_high<P: OutputPin>(pin: &mut P)
    ensures
        final(pin).levels() == old(pin).levels().push(true),
{
    let _ = pin.set_high();
}

/// Drive the line low, suppressing any hardware fault.
pub fn led_low<P: OutputPin>(pin: &mut P)
    ensures
        final(pin).levels() == old(pin).levels().push(false),
{
    let _ = pin.set_low();
}

} // verus!
