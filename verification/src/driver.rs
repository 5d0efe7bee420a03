use vstd::prelude::*;

use crate::color::Color;
use crate::hal::{led_high, led_low, DelayNs, OutputPin};
use crate::spin::SpinDelay;
use crate::timing::{high_ns, low_ns, RESET_NS, T0H_NS, T0L_NS, T1H_NS, T1L_NS};
use crate::trace::{
    bit_at, byte_bits, color_bits, frame_bits, levels_for_bits, lemma_for_bits_singleton,
    lemma_frame_bits_take_step, lemma_levels_for_bits_concat, lemma_waits_for_bits_concat,
    send_levels, send_waits, waits_for_bits,
};

verus! {

/// Transmit one bit: a high pulse, then a low pulse, with the durations the
/// protocol fixes for the bit's value.
fn emit_bit<P: OutputPin, D: DelayNs>(pin: &mut P, delay: &mut D, bit: bool)
    ensures
        final(pin).levels() == old(pin).levels() + seq![true, false],
        final(delay).waits() == old(delay).waits() + seq![high_ns(bit), low_ns(bit)],
{
    let ghost pin0 = *pin;
    let ghost delay0 = *delay;
    if bit {
        led_high(pin);
        delay.delay_ns(T1H_NS);
        led_low(pin);
        delay.delay_ns(T1L_NS);
    } else {
        led_high(pin);
        delay.delay_ns(T0H_NS);
        led_low(pin);
        delay.delay_ns(T0L_NS);
    }
    proof {
        assert(pin.levels() =~= pin0.levels() + seq![true, false]);
        assert(delay.waits() =~= delay0.waits() + seq![high_ns(bit), low_ns(bit)]);
    }
}

/// Transmit the eight bits of one byte, most significant first.
fn emit_byte<P: OutputPin, D: DelayNs>(pin: &mut P, delay: &mut D, byte: u8)
    ensures
        final(pin).levels() == old(pin).levels() + levels_for_bits(byte_bits(byte)),
        final(delay).waits() == old(delay).waits() + waits_for_bits(byte_bits(byte)),
{
    let ghost pin0 = *pin;
    let ghost delay0 = *delay;
    let mut k: u8 = 0;
    while k < 8
        invariant
            k <= 8,
            pin.levels() == pin0.levels() + levels_for_bits(byte_bits(byte).take(k as int)),
            delay.waits() == delay0.waits() + waits_for_bits(byte_bits(byte).take(k as int)),
        decreases 8 - k,
    {
        let bit = byte & (1u8 << (7 - k)) != 0;
        proof {
            assert(byte_bits(byte)[k as int] == bit_at(byte, (7 - k) as u8));
            assert(bit == bit_at(byte, (7 - k) as u8));
        }
        emit_bit(pin, delay, bit);
        proof {
            let bits = byte_bits(byte);
            let done = bits.take(k as int);
            assert(bits.take(k as int + 1) =~= done + seq![bits[k as int]]);
            lemma_levels_for_bits_concat(done, seq![bits[k as int]]);
            lemma_waits_for_bits_concat(done, seq![bits[k as int]]);
            lemma_for_bits_singleton(bits[k as int]);
            assert(pin.levels() =~= pin0.levels() + levels_for_bits(bits.take(k as int + 1)));
            assert(delay.waits() =~= delay0.waits() + waits_for_bits(bits.take(k as int + 1)));
        }
        k = k + 1;
    }
    proof {
        assert(byte_bits(byte).take(8) =~= byte_bits(byte));
    }
}

/// Transmit one color: its red, green and blue bytes in wire order.
fn emit_color<P: OutputPin, D: DelayNs>(pin: &mut P, delay: &mut D, c: Color)
    ensures
        final(pin).levels() == old(pin).levels() + levels_for_bits(color_bits(c)),
        final(delay).waits() == old(delay).waits() + waits_for_bits(color_bits(c)),
{
    let ghost pin0 = *pin;
    let ghost delay0 = *delay;
    let bytes = c.0;
    emit_byte(pin, delay, bytes[0]);
    emit_byte(pin, delay, bytes[1]);
    emit_byte(pin, delay, bytes[2]);
    proof {
        let rb = byte_bits(c.0[0]);
        let gb = byte_bits(c.0[1]);
        let bb = byte_bits(c.0[2]);
        lemma_levels_for_bits_concat(rb, gb);
        lemma_levels_for_bits_concat(rb + gb, bb);
        lemma_waits_for_bits_concat(rb, gb);
        lemma_waits_for_bits_concat(rb + gb, bb);
        assert(pin.levels() =~= pin0.levels() + levels_for_bits(color_bits(c)));
        assert(delay.waits() =~= delay0.waits() + waits_for_bits(color_bits(c)));
    }
}

/// Transmit a whole frame: every color in sequence order, then the final
/// low level and the reset wait that latch the frame.
fn emit_frame<P: OutputPin, D: DelayNs, const N: usize>(
    pin: &mut P,
    delay: &mut D,
    colors: &[Color; N],
)
    ensures
        final(pin).levels() == old(pin).levels() + send_levels(colors@),
        final(delay).waits() == old(delay).waits() + send_waits(colors@),
{
    let ghost pin0 = *pin;
    let ghost delay0 = *delay;
    let mut i: usize = 0;
    while i < N
        invariant
            i <= N,
            pin.levels() == pin0.levels() + levels_for_bits(frame_bits(colors@.take(i as int))),
            delay.waits() == delay0.waits() + waits_for_bits(frame_bits(colors@.take(i as int))),
        decreases N - i,
    {
        emit_color(pin, delay, colors[i]);
        proof {
            lemma_frame_bits_take_step(colors@, i as int);
            lemma_levels_for_bits_concat(frame_bits(colors@.take(i as int)), color_bits(colors@[i as int]));
            lemma_waits_for_bits_concat(frame_bits(colors@.take(i as int)), color_bits(colors@[i as int]));
            assert(pin.levels() =~= pin0.levels() + levels_for_bits(
                frame_bits(colors@.take(i as int + 1)),
            ));
            assert(delay.waits() =~= delay0.waits() + waits_for_bits(
                frame_bits(colors@.take(i as int + 1)),
            ));
        }
        i = i + 1;
    }
    led_low(pin);
    delay.delay_ns(RESET_NS);
    proof {
        assert(colors@.take(N as int) =~= colors@);
        assert(pin.levels() =~= pin0.levels() + send_levels(colors@));
        assert(delay.waits() =~= delay0.waits() + send_waits(colors@));
    }
}

/// A driver bound to one output line and one owned delay source.
///
/// The delay source may be a hardware timing peripheral or the calibrated
/// [`SpinDelay`] busy-wait; the caller-driven alternative is
/// [`WS2812Manual`].
pub struct WS2812<P: OutputPin, D: DelayNs> {
    led: P,
    delay: D,
}

impl<P: OutputPin, D: DelayNs> WS2812<P, D> {
    /// The output line the driver owns.
    pub closed spec fn pin(self) -> P {
        self.led
    }

    /// The delay source the driver owns.
    pub closed spec fn timer(self) -> D {
        self.delay
    }

    /// Bind a driver to one output line and one owned delay source.
    pub fn new(led: P, delay: D) -> (r: Self)
        ensures
            r.pin() == led,
            r.timer() == delay,
    {
        WS2812 { led, delay }
    }

    /// Release the driver, handing back the output line it was given,
    /// unchanged.
    pub fn destroy(self) -> (r: P)
        ensures
            r == self.pin(),
    {
        self.led
    }

    /// Read-only access to the owned delay source, for inspection of an
    /// instrumented one.
    pub fn timer_ref(&self) -> (r: &D)
        ensures
            *r == self.timer(),
    {
        &self.delay
    }

    /// Transmit `colors` in sequence order, then the reset pulse, leaving
    /// the line low. Drive faults are suppressed; the timing sequence is
    /// the same whether or not the hardware accepts each level.
    pub fn send_color<const N: usize>(&mut self, colors: [Color; N])
        ensures
            final(self).pin().levels() == old(self).pin().levels() + send_levels(colors@),
            final(self).timer().waits() == old(self).timer().waits() + send_waits(colors@),
    {
        emit_frame(&mut self.led, &mut self.delay, &colors)
    }
}

impl<P: OutputPin> WS2812<P, SpinDelay> {
    /// Bind a driver that times its pulses with the calibrated CPU spin
    /// loop for a clock of `cpu_freq` Hz.
    pub fn new_spin(led: P, cpu_freq: u64) -> (r: Self)
        requires
            cpu_freq <= 4_294_967_296,
        ensures
            r.pin() == led,
            r.timer().waits() == Seq::<u32>::empty(),
            r.timer().freq() == cpu_freq,
    {
        WS2812 { led, delay: SpinDelay::new(cpu_freq) }
    }
}

/// A driver bound to one output line whose delay source is supplied by the
/// caller on every send call instead of being owned.
pub struct WS2812Manual<P: OutputPin> {
    led: P,
}

impl<P: OutputPin> WS2812Manual<P> {
    /// The output line the driver owns.
    pub closed spec fn pin(self) -> P {
        self.led
    }

    /// Bind a driver to one output line; timing is supplied per call.
    pub fn new(led: P) -> (r: Self)
        ensures
            r.pin() == led,
    {
        WS2812Manual { led }
    }

    /// Release the driver, handing back the output line it was given,
    /// unchanged.
    pub fn destroy(self) -> (r: P)
        ensures
            r == self.pin(),
    {
        self.led
    }

    /// Transmit `colors` in sequence order, then the reset pulse, timing
    /// every phase with the caller's delay source.
    pub fn send_color<const N: usize, D: DelayNs>(
        &mut self,
        colors: [Color; N],
        delay: &mut D,
    )
        ensures
            final(self).pin().levels() == old(self).pin().levels() + send_levels(colors@),
            final(delay).waits() == old(delay).waits() + send_waits(colors@),
    {
        emit_frame(&mut self.led, delay, &colors)
    }
}

} // verus!
