use vstd::prelude::*;

use crate::color::Color;
use crate::timing::{high_ns, low_ns, RESET_NS, T0H_NS, T0L_NS, T1H_NS, T1L_NS};

verus! {

/// True when bit `k` (0 = least significant) of `b` is set.
pub open spec fn bit_at(b: u8, k: u8) -> bool {
    b & (1u8 << k) != 0
}

/// The eight bits of `b`, most significant first, as the protocol's
/// receivers shift them in.
pub open spec fn byte_bits(b: u8) -> Seq<bool> {
    Seq::new(8, |i: int| bit_at(b, (7 - i) as u8))
}

/// The 24 bits of one color on the wire: red, green, blue bytes in that
/// order, each most significant bit first.
pub open spec fn color_bits(c: Color) -> Seq<bool> {
    byte_bits(c.0[0]) + byte_bits(c.0[1]) + byte_bits(c.0[2])
}

/// All bits of a frame, in color sequence order.
pub open spec fn frame_bits(colors: Seq<Color>) -> Seq<bool>
    decreases colors.len(),
{
    if colors.len() == 0 {
        Seq::empty()
    } else {
        frame_bits(colors.drop_last()) + color_bits(colors.last())
    }
}

/// The line levels driven while transmitting `bits`: one high-then-low
/// pulse pair per bit.
pub open spec fn levels_for_bits(bits: Seq<bool>) -> Seq<bool>
    decreases bits.len(),
{
    if bits.len() == 0 {
        Seq::empty()
    } else {
        seq![true, false] + levels_for_bits(bits.drop_first())
    }
}

/// The wait durations requested while transmitting `bits`: for each bit its
/// high-phase duration, then its low-phase duration.
pub open spec fn waits_for_bits(bits: Seq<bool>) -> Seq<u32>
    decreases bits.len(),
{
    if bits.len() == 0 {
        Seq::empty()
    } else {
        seq![high_ns(bits.first()), low_ns(bits.first())] + waits_for_bits(bits.drop_first())
    }
}

/// The line levels of a whole send call: the per-bit pulse pairs, then the
/// unconditional final low that starts the reset pulse.
pub open spec fn send_levels(colors: Seq<Color>) -> Seq<bool> {
    levels_for_bits(frame_bits(colors)).push(false)
}

/// The wait durations of a whole send call: the per-bit phase durations,
/// then the reset duration.
pub open spec fn send_waits(colors: Seq<Color>) -> Seq<u32> {
    waits_for_bits(frame_bits(colors)).push(RESET_NS)
}

/// Transmitting a concatenation of bit sequences drives the concatenation
/// of their level traces.
pub proof fn lemma_levels_for_bits_concat(a: Seq<bool>, b: Seq<bool>)
    ensures
        levels_for_bits(a + b) == levels_for_bits(a) + levels_for_bits(b),
    decreases a.len(),
{
    if a.len() == 0 {
        assert(a + b =~= b);
        assert(levels_for_bits(a) + levels_for_bits(b) =~= levels_for_bits(b));
    } else {
        assert((a + b).drop_first() =~= a.drop_first() + b);
        assert((a + b).first() == a.first());
        lemma_levels_for_bits_concat(a.drop_first(), b);
        assert(levels_for_bits(a + b) =~= levels_for_bits(a) + levels_for_bits(b));
    }
}

/// Transmitting a concatenation of bit sequences requests the concatenation
/// of their wait traces.
pub proof fn lemma_waits_for_bits_concat(a: Seq<bool>, b: Seq<bool>)
    ensures
        waits_for_bits(a + b) == waits_for_bits(a) + waits_for_bits(b),
    decreases a.len(),
{
    if a.len() == 0 {
        assert(a + b =~= b);
        assert(waits_for_bits(a) + waits_for_bits(b) =~= waits_for_bits(b));
    } else {
        assert((a + b).drop_first() =~= a.drop_first() + b);
        assert((a + b).first() == a.first());
        lemma_waits_for_bits_concat(a.drop_first(), b);
        assert(waits_for_bits(a + b) =~= waits_for_bits(a) + waits_for_bits(b));
    }
}

/// A single bit is transmitted as one high-then-low pulse pair with its
/// value's phase durations.
pub proof fn lemma_for_bits_singleton(b: bool)
    ensures
        levels_for_bits(seq![b]) == seq![true, false],
        waits_for_bits(seq![b]) == seq![high_ns(b), low_ns(b)],
{
    assert(seq![b].drop_first() =~= Seq::<bool>::empty());
    assert(levels_for_bits(Seq::<bool>::empty()) == Seq::<bool>::empty());
    assert(waits_for_bits(Seq::<bool>::empty()) == Seq::<u32>::empty());
    assert(seq![b].first() == b);
    assert(levels_for_bits(seq![b]) =~= seq![true, false]);
    assert(waits_for_bits(seq![b]) =~= seq![high_ns(b), low_ns(b)]);
}

/// Each bit contributes exactly one pulse pair to the level trace.
pub proof fn lemma_levels_for_bits_len(bits: Seq<bool>)
    ensures
        levels_for_bits(bits).len() == 2 * bits.len(),
    decreases bits.len(),
{
    if bits.len() > 0 {
        lemma_levels_for_bits_len(bits.drop_first());
    }
}

/// Each bit contributes exactly two wait requests to the wait trace.
pub proof fn lemma_waits_for_bits_len(bits: Seq<bool>)
    ensures
        waits_for_bits(bits).len() == 2 * bits.len(),
    decreases bits.len(),
{
    if bits.len() > 0 {
        lemma_waits_for_bits_len(bits.drop_first());
    }
}

/// Each color contributes exactly 24 bits to the frame.
pub proof fn lemma_frame_bits_len(colors: Seq<Color>)
    ensures
        frame_bits(colors).len() == 24 * colors.len(),
    decreases colors.len(),
{
    if colors.len() > 0 {
        lemma_frame_bits_len(colors.drop_last());
    }
}

/// Extending a frame by one color appends that color's bits.
pub proof fn lemma_frame_bits_take_step(colors: Seq<Color>, i: int)
    requires
        0 <= i < colors.len(),
    ensures
        frame_bits(colors.take(i + 1)) == frame_bits(colors.take(i)) + color_bits(colors[i]),
{
    assert(colors.take(i + 1).drop_last() =~= colors.take(i));
    assert(colors.take(i + 1).last() == colors[i]);
}

/// Bit `i` of the transmission occupies trace positions `2*i` (high phase)
/// and `2*i + 1` (low phase), with the durations the protocol fixes for its
/// value: 700/600 ns for a 1 bit, 350/800 ns for a 0 bit.
pub proof fn lemma_trace_at_bit(bits: Seq<bool>, i: int)
    requires
        0 <= i < bits.len(),
    ensures
        levels_for_bits(bits)[2 * i] == true,
        levels_for_bits(bits)[2 * i + 1] == false,
        waits_for_bits(bits)[2 * i] == (if bits[i] {
            T1H_NS
        } else {
            T0H_NS
        }),
        waits_for_bits(bits)[2 * i + 1] == (if bits[i] {
            T1L_NS
        } else {
            T0L_NS
        }),
    decreases i,
{
    lemma_levels_for_bits_len(bits);
    lemma_waits_for_bits_len(bits);
    if i > 0 {
        lemma_levels_for_bits_len(bits.drop_first());
        lemma_waits_for_bits_len(bits.drop_first());
        lemma_trace_at_bit(bits.drop_first(), i - 1);
        assert(bits.drop_first()[i - 1] == bits[i]);
    }
}

/// For a frame of `n` colors, one send call requests exactly `24 * n`
/// high/low phase pairs followed by exactly one reset wait, never fewer,
/// never more: an empty frame gets only the reset. The level trace has the
/// same length, and its last recorded level is always low.
pub proof fn lemma_send_shape(colors: Seq<Color>)
    ensures
        send_waits(colors).len() == 48 * colors.len() + 1,
        send_levels(colors).len() == 48 * colors.len() + 1,
        send_waits(colors).last() == RESET_NS,
        send_levels(colors).last() == false,
{
    lemma_frame_bits_len(colors);
    lemma_levels_for_bits_len(frame_bits(colors));
    lemma_waits_for_bits_len(frame_bits(colors));
}

/// Bytes go out in color-sequence order, red, green, blue within a color,
/// and most significant bit first within a byte: bit `7 - b` of byte `j`
/// of color `k` is frame bit `24 * k + 8 * j + b`.
pub proof fn lemma_frame_bit_position(colors: Seq<Color>, k: int, j: int, b: int)
    requires
        0 <= k < colors.len(),
        0 <= j < 3,
        0 <= b < 8,
    ensures
        frame_bits(colors)[24 * k + 8 * j + b] == bit_at(colors[k].0[j], (7 - b) as u8),
    decreases colors.len(),
{
    lemma_frame_bits_len(colors.drop_last());
    if k == colors.len() - 1 {
        let c = colors.last();
        assert(color_bits(c)[8 * j + b] == bit_at(c.0[j], (7 - b) as u8)) by {
            if j == 0 {
                assert(byte_bits(c.0[0])[b] == bit_at(c.0[0], (7 - b) as u8));
            } else if j == 1 {
                assert(byte_bits(c.0[1])[b] == bit_at(c.0[1], (7 - b) as u8));
            } else {
                assert(byte_bits(c.0[2])[b] == bit_at(c.0[2], (7 - b) as u8));
            }
        }
    } else {
        lemma_frame_bit_position(colors.drop_last(), k, j, b);
        assert(colors.drop_last()[k] == colors[k]);
    }
}

/// Bit `i` of a frame is transmitted as pulse pair `i`: positions `2 * i`
/// and `2 * i + 1` of the send traces, high phase first, with durations
/// 700/600 ns for a 1 bit and 350/800 ns for a 0 bit.
pub proof fn lemma_send_bit_phases(colors: Seq<Color>, i: int)
    requires
        0 <= i < 24 * colors.len(),
    ensures
        send_levels(colors)[2 * i] == true,
        send_levels(colors)[2 * i + 1] == false,
        send_waits(colors)[2 * i] == (if frame_bits(colors)[i] {
            T1H_NS
        } else {
            T0H_NS
        }),
        send_waits(colors)[2 * i + 1] == (if frame_bits(colors)[i] {
            T1L_NS
        } else {
            T0L_NS
        }),
{
    lemma_frame_bits_len(colors);
    lemma_levels_for_bits_len(frame_bits(colors));
    lemma_waits_for_bits_len(frame_bits(colors));
    lemma_trace_at_bit(frame_bits(colors), i);
}

} // verus!
