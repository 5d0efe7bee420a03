use vstd::prelude::*;

verus! {

/// High-phase duration of a logic 0 bit, in nanoseconds.
pub const T0H_NS: u32 = 350;

/// High-phase duration of a logic 1 bit, in nanoseconds.
pub const T1H_NS: u32 = 700;

/// Low-phase duration of a logic 0 bit, in nanoseconds.
pub const T0L_NS: u32 = 800;

/// Low-phase duration of a logic 1 bit, in nanoseconds.
pub const T1L_NS: u32 = 600;

/// Duration of the reset/latch pulse that commits a frame, in nanoseconds.
pub const RESET_NS: u32 = 50;

/// High-phase duration of a bit, by its value.
pub open spec fn high_ns(bit: bool) -> u32 {
    if bit {
        T1H_NS
    } else {
        T0H_NS
    }
}

/// Low-phase duration of a bit, by its value.
pub open spec fn low_ns(bit: bool) -> u32 {
    if bit {
        T1L_NS
    } else {
        T0L_NS
    }
}

pub fn t0h() -> (r: u32)
    ensures
        r == T0H_NS,
{
    T0H_NS
}

pub fn t1h() -> (r: u32)
    ensures
        r == T1H_NS,
{
    T1H_NS
}

pub fn t0l() -> (r: u32)
    ensures
        r == T0L_NS,
{
    T0L_NS
}

pub fn t1l() -> (r: u32)
    ensures
        r == T1L_NS,
{
    T1L_NS
}

pub fn reset() -> (r: u32)
    ensures
        r == RESET_NS,
{
    RESET_NS
}

} // verus!
