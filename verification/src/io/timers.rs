//! Timer control types.
//!
//! When you read a timer's counter you read the current value; when you
//! write it you write the counter's reload value.
use vstd::prelude::*;
use crate::bits::bit16;
use crate::bits::set_bit16;

verus! {

/// Controls how often an enabled timer ticks upward.
#[derive(Debug, Clone, Copy, PartialEq, Eq)]
pub enum TimerTickRate {
    /// Once every CPU cycle
    CPU1,
    /// Once per 64 CPU cycles
    CPU64,
    /// Once per 256 CPU cycles
    CPU256,
    /// Once per 1,024 CPU cycles
    CPU1024,
    /// Once per overflow of the next lower timer. (Useless with Timer 0)
    Cascade,
}

impl TimerTickRate {
    /// The rate's number in the timer control register.
    pub open spec fn raw(self) -> u16 {
        match self {
            TimerTickRate::CPU1 => 0,
            TimerTickRate::CPU64 => 1,
            TimerTickRate::CPU256 => 2,
            TimerTickRate::CPU1024 => 3,
            TimerTickRate::Cascade => 4,
        }
    }

    /// The rate's number in the timer control register.
    pub fn to_u16(self) -> (r: u16)
        ensures
            r == self.raw(),
    {
        match self {
            TimerTickRate::CPU1 => 0,
            TimerTickRate::CPU64 => 1,
            TimerTickRate::CPU256 => 2,
            TimerTickRate::CPU1024 => 3,
            TimerTickRate::Cascade => 4,
        }
    }
}

/// Writing a value below 8 into bits 0-2 puts it there whole and keeps the
/// other bits.
proof fn lemma_low3_write(x: u16, v: u16)
    by (bit_vector)
    requires
        v < 8,
    ensures
        ((x & !0x0007u16) | ((v << 0u16) & 0x0007u16)) & 0x0007u16 == v,
        ((x & !0x0007u16) | ((v << 0u16) & 0x0007u16)) & !0x0007u16 == x & !0x0007u16,
{
}

/// Setting the tick rate writes its hardware prescaler code into bits 0-2
/// (every cycle 0, 64 cycles 1, 256 cycles 2, 1024 cycles 3, cascade 4) and
/// keeps every other bit; distinct rates have distinct codes, so reading the
/// rate back gives the one written.
pub proof fn lemma_tick_rate_code(x: u16, rate: TimerTickRate, other: TimerTickRate)
    ensures
        ((x & !0x0007u16) | ((rate.raw() << 0u16) & 0x0007u16)) & 0x0007u16 == (match rate {
            TimerTickRate::CPU1 => 0u16,
            TimerTickRate::CPU64 => 1u16,
            TimerTickRate::CPU256 => 2u16,
            TimerTickRate::CPU1024 => 3u16,
            TimerTickRate::Cascade => 4u16,
        }),
        ((x & !0x0007u16) | ((rate.raw() << 0u16) & 0x0007u16)) & !0x0007u16 == x & !0x0007u16,
        other.raw() == rate.raw() ==> other == rate,
{
    lemma_low3_write(x, rate.raw());
}

/// Allows control of a timer unit.
#[derive(Debug, Copy, Clone, Default, PartialEq, Eq)]
pub struct TimerControlSetting(pub u16);

impl View for TimerControlSetting {
    type V = u16;

    /// The raw register bits.
    open spec fn view(&self) -> u16 {
        self.0
    }
}

impl TimerControlSetting {
    /// Makes a new, zeroed value.
    pub fn new() -> (r: Self)
        ensures
            r@ == 0,
    {
        TimerControlSetting(0)
    }

    /// The mask of bits 0-2.
    pub const TICK_RATE_MASK: u16 = 0x0007u16;

    /// Bits 0-2, as a [`TimerTickRate`]: only the first 5 values name one.
    pub fn tick_rate(self) -> (r: TimerTickRate)
        requires
            (self@ & 0x0007u16) >> 0u16 < 5,
        ensures
            r.raw() == (self@ & 0x0007u16) >> 0u16,
    {
        let v: u16 = (self.0 & 0x0007u16) >> 0u16;
        if v == 0 {
            TimerTickRate::CPU1
        } else if v == 1 {
            TimerTickRate::CPU64
        } else if v == 2 {
            TimerTickRate::CPU256
        } else if v == 3 {
            TimerTickRate::CPU1024
        } else {
            TimerTickRate::Cascade
        }
    }

    /// Puts `tick_rate` into bits 0-2.
    pub fn with_tick_rate(self, tick_rate: TimerTickRate) -> (r: Self)
        ensures
            r@ == (self@ & !0x0007u16) | ((tick_rate.raw() << 0u16) & 0x0007u16),
    {
        TimerControlSetting((self.0 & !0x0007u16) | ((tick_rate.to_u16() << 0u16) & 0x0007u16))
    }

    /// The mask of bit 6.
    pub const OVERFLOW_IRQ_BIT: u16 = 0x0040u16;

    /// Bit 6.
    pub fn overflow_irq(self) -> (r: bool)
        ensures
            r == bit16(self@, 6),
    {
        (self.0 & (1u16 << 6u16)) != 0
    }

    /// Sets bit 6.
    pub fn with_overflow_irq(self, bit: bool) -> (r: Self)
        ensures
            r@ == set_bit16(self@, 6, bit),
    {
        if bit {
            TimerControlSetting(self.0 | (1u16 << 6u16))
        } else {
            TimerControlSetting(self.0 & !(1u16 << 6u16))
        }
    }

    /// The mask of bit 7.
    pub const ENABLED_BIT: u16 = 0x0080u16;

    /// Bit 7.
    pub fn enabled(self) -> (r: bool)
        ensures
            r == bit16(self@, 7),
    {
        (self.0 & (1u16 << 7u16)) != 0
    }

    /// Sets bit 7.
    pub fn with_enabled(self, bit: bool) -> (r: Self)
        ensures
            r@ == set_bit16(self@, 7, bit),
    {
        if bit {
            TimerControlSetting(self.0 | (1u16 << 7u16))
        } else {
            TimerControlSetting(self.0 & !(1u16 << 7u16))
        }
    }
}

} // verus!
