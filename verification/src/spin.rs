use vstd::prelude::*;

use crate::hal::DelayNs;

verus! {

/// Relies on core::hint::spin_loop: a busy-wait pause hint to the CPU,
/// with no other effect.
#[verifier::external_body]
fn cpu_relax() {
    core::hint::spin_loop();
}

/// The number of spin iterations that approximate a wait of `ns`
/// nanoseconds on a CPU clocked at `cpu_freq` Hz: the cycle count is
/// truncated towards zero.
pub fn spin_cycles(cpu_freq: u64, ns: u32) -> (r: u64)
    requires
        cpu_freq * ns <= u64::MAX,
    ensures
        r == cpu_freq * ns / 1_000_000_000,
{
    (cpu_freq * (ns as u64)) / 1_000_000_000
}

/// A delay source that busy-spins a calibrated number of CPU cycles
/// instead of querying a timing peripheral. Accuracy is best effort: it
/// depends entirely on the configured clock frequency.
pub struct SpinDelay {
    cpu_freq: u64,
    history: Ghost<Seq<u32>>,
}

impl SpinDelay {
    #[verifier::type_invariant]
    spec fn freq_in_range(self) -> bool {
        self.cpu_freq <= 4_294_967_296
    }

    /// The configured CPU clock frequency, in Hz.
    pub closed spec fn freq(self) -> u64 {
        self.cpu_freq
    }

    /// A spin-loop delay calibrated for a CPU clock of `cpu_freq` Hz.
    /// The frequency is bounded so that no cycle count can overflow.
    pub fn new(cpu_freq: u64) -> (r: Self)
        requires
            cpu_freq <= 4_294_967_296,
        ensures
            r.freq() == cpu_freq,
            r.waits() == Seq::<u32>::empty(),
    {
        SpinDelay { cpu_freq, history: Ghost(Seq::empty()) }
    }
}

impl DelayNs for SpinDelay {
    closed spec fn waits(&self) -> Seq<u32> {
        self.history@
    }

    fn delay_ns(&mut self, ns: u32) {
        proof {
            use_type_invariant(&*self);
            assert(self.cpu_freq * ns <= u64::MAX) by (nonlinear_arith)
                requires
                    self.cpu_freq <= 4_294_967_296,
                    ns <= 4_294_967_295,
            ;
        }
        let cycles = spin_cycles(self.cpu_freq, ns);
        let mut i: u64 = 0;
        while i < cycles
            invariant
                i <= cycles,
            decreases cycles - i,
        {
            cpu_relax();
            i = i + 1;
        }
        self.history = Ghost(self.history@.push(ns));
    }
}

} // verus!
