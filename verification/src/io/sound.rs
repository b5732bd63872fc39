//! The sound registers.
use vstd::prelude::*;
use crate::bits::bit16;
use crate::bits::set_bit16;

verus! {

/// Channel 1 sweep.
#[derive(Debug, Copy, Clone, Default, PartialEq, Eq)]
pub struct SweepRegisterSetting(pub u16);

impl View for SweepRegisterSetting {
    type V = u16;

    /// The raw register bits.
    open spec fn view(&self) -> u16 {
        self.0
    }
}

impl SweepRegisterSetting {
    /// Makes a new, zeroed value.
    pub fn new() -> (r: Self)
        ensures
            r@ == 0,
    {
        SweepRegisterSetting(0)
    }

    /// The mask of bits 0-2.
    pub const SWEEP_SHIFT_MASK: u16 = 0x0007u16;

    /// Bits 0-2, shifted down.
    pub fn sweep_shift(self) -> (r: u16)
        ensures
            r == (self@ & 0x0007u16) >> 0u16,
    {
        (self.0 & 0x0007u16) >> 0u16
    }

    /// Puts the low bits of `sweep_shift` into bits 0-2; the bits of
    /// `sweep_shift` that do not fit are dropped.
    pub fn with_sweep_shift(self, sweep_shift: u16) -> (r: Self)
        ensures
            r@ == (self@ & !0x0007u16) | ((sweep_shift << 0u16) & 0x0007u16),
    {
        SweepRegisterSetting((self.0 & !0x0007u16) | ((sweep_shift << 0u16) & 0x0007u16))
    }

    /// The mask of bit 3.
    pub const SWEEP_DECREASING_BIT: u16 = 0x0008u16;

    /// Bit 3.
    pub fn sweep_decreasing(self) -> (r: bool)
        ensures
            r == bit16(self@, 3),
    {
        (self.0 & (1u16 << 3u16)) != 0
    }

    /// Sets bit 3.
    pub fn with_sweep_decreasing(self, bit: bool) -> (r: Self)
        ensures
            r@ == set_bit16(self@, 3, bit),
    {
        if bit {
            SweepRegisterSetting(self.0 | (1u16 << 3u16))
        } else {
            SweepRegisterSetting(self.0 & !(1u16 << 3u16))
        }
    }

    /// The mask of bits 4-6.
    pub const SWEEP_TIME_MASK: u16 = 0x0070u16;

    /// Bits 4-6, shifted down.
    pub fn sweep_time(self) -> (r: u16)
        ensures
            r == (self@ & 0x0070u16) >> 4u16,
    {
        (self.0 & 0x0070u16) >> 4u16
    }

    /// Puts the low bits of `sweep_time` into bits 4-6; the bits of
    /// `sweep_time` that do not fit are dropped.
    pub fn with_sweep_time(self, sweep_time: u16) -> (r: Self)
        ensures
            r@ == (self@ & !0x0070u16) | ((sweep_time << 4u16) & 0x0070u16),
    {
        SweepRegisterSetting((self.0 & !0x0070u16) | ((sweep_time << 4u16) & 0x0070u16))
    }
}

/// Channel 1 and 2 duty, length and envelope.
#[derive(Debug, Copy, Clone, Default, PartialEq, Eq)]
pub struct DutyLenEnvelopeSetting(pub u16);

impl View for DutyLenEnvelopeSetting {
    type V = u16;

    /// The raw register bits.
    open spec fn view(&self) -> u16 {
        self.0
    }
}

impl DutyLenEnvelopeSetting {
    /// Makes a new, zeroed value.
    pub fn new() -> (r: Self)
        ensures
            r@ == 0,
    {
        DutyLenEnvelopeSetting(0)
    }

    /// The mask of bits 0-5.
    pub const SOUND_LENGTH_MASK: u16 = 0x003Fu16;

    /// Bits 0-5, shifted down.
    pub fn sound_length(self) -> (r: u16)
        ensures
            r == (self@ & 0x003Fu16) >> 0u16,
    {
        (self.0 & 0x003Fu16) >> 0u16
    }

    /// Puts the low bits of `sound_length` into bits 0-5; the bits of
    /// `sound_length` that do not fit are dropped.
    pub fn with_sound_length(self, sound_length: u16) -> (r: Self)
        ensures
            r@ == (self@ & !0x003Fu16) | ((sound_length << 0u16) & 0x003Fu16),
    {
        DutyLenEnvelopeSetting((self.0 & !0x003Fu16) | ((sound_length << 0u16) & 0x003Fu16))
    }

    /// The mask of bits 6-7.
    pub const WAVE_PATTERN_DUTY_MASK: u16 = 0x00C0u16;

    /// Bits 6-7, shifted down.
    pub fn wave_pattern_duty(self) -> (r: u16)
        ensures
            r == (self@ & 0x00C0u16) >> 6u16,
    {
        (self.0 & 0x00C0u16) >> 6u16
    }

    /// Puts the low bits of `wave_pattern_duty` into bits 6-7; the bits of
    /// `wave_pattern_duty` that do not fit are dropped.
    pub fn with_wave_pattern_duty(self, wave_pattern_duty: u16) -> (r: Self)
        ensures
            r@ == (self@ & !0x00C0u16) | ((wave_pattern_duty << 6u16) & 0x00C0u16),
    {
        DutyLenEnvelopeSetting((self.0 & !0x00C0u16) | ((wave_pattern_duty << 6u16) & 0x00C0u16))
    }

    /// The mask of bits 8-10.
    pub const ENVELOPE_STEP_TIME_MASK: u16 = 0x0700u16;

    /// Bits 8-10, shifted down.
    pub fn envelope_step_time(self) -> (r: u16)
        ensures
            r == (self@ & 0x0700u16) >> 8u16,
    {
        (self.0 & 0x0700u16) >> 8u16
    }

    /// Puts the low bits of `envelope_step_time` into bits 8-10; the bits of
    /// `envelope_step_time` that do not fit are dropped.
    pub fn with_envelope_step_time(self, envelope_step_time: u16) -> (r: Self)
        ensures
            r@ == (self@ & !0x0700u16) | ((envelope_step_time << 8u16) & 0x0700u16),
    {
        DutyLenEnvelopeSetting((self.0 & !0x0700u16) | ((envelope_step_time << 8u16) & 0x0700u16))
    }

    /// The mask of bit 11.
    pub const ENVELOPE_INCREASING_BIT: u16 = 0x0800u16;

    /// Bit 11.
    pub fn envelope_increasing(self) -> (r: bool)
        ensures
            r == bit16(self@, 11),
    {
        (self.0 & (1u16 << 11u16)) != 0
    }

    /// Sets bit 11.
    pub fn with_envelope_increasing(self, bit: bool) -> (r: Self)
        ensures
            r@ == set_bit16(self@, 11, bit),
    {
        if bit {
            DutyLenEnvelopeSetting(self.0 | (1u16 << 11u16))
        } else {
            DutyLenEnvelopeSetting(self.0 & !(1u16 << 11u16))
        }
    }

    /// The mask of bits 12-15.
    pub const INITIAL_ENVELOPE_VOLUME_MASK: u16 = 0xF000u16;

    /// Bits 12-15, shifted down.
    pub fn initial_envelope_volume(self) -> (r: u16)
        ensures
            r == (self@ & 0xF000u16) >> 12u16,
    {
        (self.0 & 0xF000u16) >> 12u16
    }

    /// Puts the low bits of `initial_envelope_volume` into bits 12-15; the bits of
    /// `initial_envelope_volume` that do not fit are dropped.
    pub fn with_initial_envelope_volume(self, initial_envelope_volume: u16) -> (r: Self)
        ensures
            r@ == (self@ & !0xF000u16) | ((initial_envelope_volume << 12u16) & 0xF000u16),
    {
        DutyLenEnvelopeSetting((self.0 & !0xF000u16) | ((initial_envelope_volume << 12u16) & 0xF000u16))
    }
}

/// Channel 1, 2 and 3 frequency control.
#[derive(Debug, Copy, Clone, Default, PartialEq, Eq)]
pub struct FrequencyControlSetting(pub u32);

impl View for FrequencyControlSetting {
    type V = u32;

    /// The raw register bits.
    open spec fn view(&self) -> u32 {
        self.0
    }
}

impl FrequencyControlSetting {
    /// Makes a new, zeroed value.
    pub fn new() -> (r: Self)
        ensures
            r@ == 0,
    {
        FrequencyControlSetting(0)
    }

    /// The mask of bits 0-10.
    pub const FREQUENCY_MASK: u32 = 0x000007FFu32;

    /// Bits 0-10, shifted down.
    pub fn frequency(self) -> (r: u32)
        ensures
            r == (self@ & 0x000007FFu32) >> 0u32,
    {
        (self.0 & 0x000007FFu32) >> 0u32
    }

    /// Puts the low bits of `frequency` into bits 0-10; the bits of
    /// `frequency` that do not fit are dropped.
    pub fn with_frequency(self, frequency: u32) -> (r: Self)
        ensures
            r@ == (self@ & !0x000007FFu32) | ((frequency << 0u32) & 0x000007FFu32),
    {
        FrequencyControlSetting((self.0 & !0x000007FFu32) | ((frequency << 0u32) & 0x000007FFu32))
    }

    /// The mask of bit 14.
    pub const LENGTH_FLAG_BIT: u32 = 0x00004000u32;

    /// Bit 14.
    pub fn length_flag(self) -> (r: bool)
        ensures
            r == (self@ & (1u32 << 14u32) != 0),
    {
        (self.0 & (1u32 << 14u32)) != 0
    }

    /// Sets bit 14.
    pub fn with_length_flag(self, bit: bool) -> (r: Self)
        ensures
            r@ == if bit { self@ | (1u32 << 14u32) } else { self@ & !(1u32 << 14u32) },
    {
        if bit {
            FrequencyControlSetting(self.0 | (1u32 << 14u32))
        } else {
            FrequencyControlSetting(self.0 & !(1u32 << 14u32))
        }
    }

    /// The mask of bit 15.
    pub const IS_INITIAL_BIT: u32 = 0x00008000u32;

    /// Bit 15.
    pub fn is_initial(self) -> (r: bool)
        ensures
            r == (self@ & (1u32 << 15u32) != 0),
    {
        (self.0 & (1u32 << 15u32)) != 0
    }

    /// Sets bit 15.
    pub fn with_is_initial(self, bit: bool) -> (r: Self)
        ensures
            r@ == if bit { self@ | (1u32 << 15u32) } else { self@ & !(1u32 << 15u32) },
    {
        if bit {
            FrequencyControlSetting(self.0 | (1u32 << 15u32))
        } else {
            FrequencyControlSetting(self.0 & !(1u32 << 15u32))
        }
    }
}

/// Channel 3 wave RAM selection and playing.
#[derive(Debug, Copy, Clone, Default, PartialEq, Eq)]
pub struct StopWaveRAMSelectSetting(pub u16);

impl View for StopWaveRAMSelectSetting {
    type V = u16;

    /// The raw register bits.
    open spec fn view(&self) -> u16 {
        self.0
    }
}

impl StopWaveRAMSelectSetting {
    /// Makes a new, zeroed value.
    pub fn new() -> (r: Self)
        ensures
            r@ == 0,
    {
        StopWaveRAMSelectSetting(0)
    }

    /// The mask of bit 5.
    pub const WAVE_RAM_DIMENSION_2D_BIT: u16 = 0x0020u16;

    /// Bit 5.
    pub fn wave_ram_dimension_2d(self) -> (r: bool)
        ensures
            r == bit16(self@, 5),
    {
        (self.0 & (1u16 << 5u16)) != 0
    }

    /// Sets bit 5.
    pub fn with_wave_ram_dimension_2d(self, bit: bool) -> (r: Self)
        ensures
            r@ == set_bit16(self@, 5, bit),
    {
        if bit {
            StopWaveRAMSelectSetting(self.0 | (1u16 << 5u16))
        } else {
            StopWaveRAMSelectSetting(self.0 & !(1u16 << 5u16))
        }
    }

    /// The mask of bit 6.
    pub const WAVE_RAM_BANK_NUMBER_BIT: u16 = 0x0040u16;

    /// Bit 6.
    pub fn wave_ram_bank_number(self) -> (r: bool)
        ensures
            r == bit16(self@, 6),
    {
        (self.0 & (1u16 << 6u16)) != 0
    }

    /// Sets bit 6.
    pub fn with_wave_ram_bank_number(self, bit: bool) -> (r: Self)
        ensures
            r@ == set_bit16(self@, 6, bit),
    {
        if bit {
            StopWaveRAMSelectSetting(self.0 | (1u16 << 6u16))
        } else {
            StopWaveRAMSelectSetting(self.0 & !(1u16 << 6u16))
        }
    }

    /// The mask of bit 7.
    pub const SOUND_CHANNEL_3_PLAYING_BIT: u16 = 0x0080u16;

    /// Bit 7.
    pub fn sound_channel_3_playing(self) -> (r: bool)
        ensures
            r == bit16(self@, 7),
    {
        (self.0 & (1u16 << 7u16)) != 0
    }

    /// Sets bit 7.
    pub fn with_sound_channel_3_playing(self, bit: bool) -> (r: Self)
        ensures
            r@ == set_bit16(self@, 7, bit),
    {
        if bit {
            StopWaveRAMSelectSetting(self.0 | (1u16 << 7u16))
        } else {
            StopWaveRAMSelectSetting(self.0 & !(1u16 << 7u16))
        }
    }
}

/// Channel 3 length and volume.
#[derive(Debug, Copy, Clone, Default, PartialEq, Eq)]
pub struct LengthVolumeSetting(pub u16);

impl View for LengthVolumeSetting {
    type V = u16;

    /// The raw register bits.
    open spec fn view(&self) -> u16 {
        self.0
    }
}

impl LengthVolumeSetting {
    /// Makes a new, zeroed value.
    pub fn new() -> (r: Self)
        ensures
            r@ == 0,
    {
        LengthVolumeSetting(0)
    }

    /// The mask of bits 0-7.
    pub const SOUND_LENGTH_MASK: u16 = 0x00FFu16;

    /// Bits 0-7, shifted down.
    pub fn sound_length(self) -> (r: u16)
        ensures
            r == (self@ & 0x00FFu16) >> 0u16,
    {
        (self.0 & 0x00FFu16) >> 0u16
    }

    /// Puts the low bits of `sound_length` into bits 0-7; the bits of
    /// `sound_length` that do not fit are dropped.
    pub fn with_sound_length(self, sound_length: u16) -> (r: Self)
        ensures
            r@ == (self@ & !0x00FFu16) | ((sound_length << 0u16) & 0x00FFu16),
    {
        LengthVolumeSetting((self.0 & !0x00FFu16) | ((sound_length << 0u16) & 0x00FFu16))
    }

    /// The mask of bits 13-14.
    pub const SOUND_VOLUME_MASK: u16 = 0x6000u16;

    /// Bits 13-14, shifted down.
    pub fn sound_volume(self) -> (r: u16)
        ensures
            r == (self@ & 0x6000u16) >> 13u16,
    {
        (self.0 & 0x6000u16) >> 13u16
    }

    /// Puts the low bits of `sound_volume` into bits 13-14; the bits of
    /// `sound_volume` that do not fit are dropped.
    pub fn with_sound_volume(self, sound_volume: u16) -> (r: Self)
        ensures
            r@ == (self@ & !0x6000u16) | ((sound_volume << 13u16) & 0x6000u16),
    {
        LengthVolumeSetting((self.0 & !0x6000u16) | ((sound_volume << 13u16) & 0x6000u16))
    }

    /// The mask of bit 15.
    pub const FORCE_75PERCENT_BIT: u16 = 0x8000u16;

    /// Bit 15.
    pub fn force_75percent(self) -> (r: bool)
        ensures
            r == bit16(self@, 15),
    {
        (self.0 & (1u16 << 15u16)) != 0
    }

    /// Sets bit 15.
    pub fn with_force_75percent(self, bit: bool) -> (r: Self)
        ensures
            r@ == set_bit16(self@, 15, bit),
    {
        if bit {
            LengthVolumeSetting(self.0 | (1u16 << 15u16))
        } else {
            LengthVolumeSetting(self.0 & !(1u16 << 15u16))
        }
    }
}

/// Channel 4 length and envelope.
#[derive(Debug, Copy, Clone, Default, PartialEq, Eq)]
pub struct LengthEnvelopeSetting(pub u32);

impl View for LengthEnvelopeSetting {
    type V = u32;

    /// The raw register bits.
    open spec fn view(&self) -> u32 {
        self.0
    }
}

impl LengthEnvelopeSetting {
    /// Makes a new, zeroed value.
    pub fn new() -> (r: Self)
        ensures
            r@ == 0,
    {
        LengthEnvelopeSetting(0)
    }

    /// The mask of bits 0-5.
    pub const SOUND_LENGTH_MASK: u32 = 0x0000003Fu32;

    /// Bits 0-5, shifted down.
    pub fn sound_length(self) -> (r: u32)
        ensures
            r == (self@ & 0x0000003Fu32) >> 0u32,
    {
        (self.0 & 0x0000003Fu32) >> 0u32
    }

    /// Puts the low bits of `sound_length` into bits 0-5; the bits of
    /// `sound_length` that do not fit are dropped.
    pub fn with_sound_length(self, sound_length: u32) -> (r: Self)
        ensures
            r@ == (self@ & !0x0000003Fu32) | ((sound_length << 0u32) & 0x0000003Fu32),
    {
        LengthEnvelopeSetting((self.0 & !0x0000003Fu32) | ((sound_length << 0u32) & 0x0000003Fu32))
    }

    /// The mask of bits 8-10.
    pub const ENVELOPE_STEP_TIME_MASK: u32 = 0x00000700u32;

    /// Bits 8-10, shifted down.
    pub fn envelope_step_time(self) -> (r: u32)
        ensures
            r == (self@ & 0x00000700u32) >> 8u32,
    {
        (self.0 & 0x00000700u32) >> 8u32
    }

    /// Puts the low bits of `envelope_step_time` into bits 8-10; the bits of
    /// `envelope_step_time` that do not fit are dropped.
    pub fn with_envelope_step_time(self, envelope_step_time: u32) -> (r: Self)
        ensures
            r@ == (self@ & !0x00000700u32) | ((envelope_step_time << 8u32) & 0x00000700u32),
    {
        LengthEnvelopeSetting((self.0 & !0x00000700u32) | ((envelope_step_time << 8u32) & 0x00000700u32))
    }

    /// The mask of bit 11.
    pub const ENVELOPE_INCREASING_BIT: u32 = 0x00000800u32;

    /// Bit 11.
    pub fn envelope_increasing(self) -> (r: bool)
        ensures
            r == (self@ & (1u32 << 11u32) != 0),
    {
        (self.0 & (1u32 << 11u32)) != 0
    }

    /// Sets bit 11.
    pub fn with_envelope_increasing(self, bit: bool) -> (r: Self)
        ensures
            r@ == if bit { self@ | (1u32 << 11u32) } else { self@ & !(1u32 << 11u32) },
    {
        if bit {
            LengthEnvelopeSetting(self.0 | (1u32 << 11u32))
        } else {
            LengthEnvelopeSetting(self.0 & !(1u32 << 11u32))
        }
    }

    /// The mask of bits 12-15.
    pub const INITIAL_ENVELOPE_VOLUME_MASK: u32 = 0x0000F000u32;

    /// Bits 12-15, shifted down.
    pub fn initial_envelope_volume(self) -> (r: u32)
        ensures
            r == (self@ & 0x0000F000u32) >> 12u32,
    {
        (self.0 & 0x0000F000u32) >> 12u32
    }

    /// Puts the low bits of `initial_envelope_volume` into bits 12-15; the bits of
    /// `initial_envelope_volume` that do not fit are dropped.
    pub fn with_initial_envelope_volume(self, initial_envelope_volume: u32) -> (r: Self)
        ensures
            r@ == (self@ & !0x0000F000u32) | ((initial_envelope_volume << 12u32) & 0x0000F000u32),
    {
        LengthEnvelopeSetting((self.0 & !0x0000F000u32) | ((initial_envelope_volume << 12u32) & 0x0000F000u32))
    }
}

/// Channel 4 frequency control.
#[derive(Debug, Copy, Clone, Default, PartialEq, Eq)]
pub struct NoiseFrequencySetting(pub u32);

impl View for NoiseFrequencySetting {
    type V = u32;

    /// The raw register bits.
    open spec fn view(&self) -> u32 {
        self.0
    }
}

impl NoiseFrequencySetting {
    /// Makes a new, zeroed value.
    pub fn new() -> (r: Self)
        ensures
            r@ == 0,
    {
        NoiseFrequencySetting(0)
    }

    /// The mask of bits 0-2.
    pub const FREQUENCY_DIVIDE_RATIO_MASK: u32 = 0x00000007u32;

    /// Bits 0-2, shifted down.
    pub fn frequency_divide_ratio(self) -> (r: u32)
        ensures
            r == (self@ & 0x00000007u32) >> 0u32,
    {
        (self.0 & 0x00000007u32) >> 0u32
    }

    /// Puts the low bits of `frequency_divide_ratio` into bits 0-2; the bits of
    /// `frequency_divide_ratio` that do not fit are dropped.
    pub fn with_frequency_divide_ratio(self, frequency_divide_ratio: u32) -> (r: Self)
        ensures
            r@ == (self@ & !0x00000007u32) | ((frequency_divide_ratio << 0u32) & 0x00000007u32),
    {
        NoiseFrequencySetting((self.0 & !0x00000007u32) | ((frequency_divide_ratio << 0u32) & 0x00000007u32))
    }

    /// The mask of bit 3.
    pub const COUNTER_STEP_WIDTH_7BIT_BIT: u32 = 0x00000008u32;

    /// Bit 3.
    pub fn counter_step_width_7bit(self) -> (r: bool)
        ensures
            r == (self@ & (1u32 << 3u32) != 0),
    {
        (self.0 & (1u32 << 3u32)) != 0
    }

    /// Sets bit 3.
    pub fn with_counter_step_width_7bit(self, bit: bool) -> (r: Self)
        ensures
            r@ == if bit { self@ | (1u32 << 3u32) } else { self@ & !(1u32 << 3u32) },
    {
        if bit {
            NoiseFrequencySetting(self.0 | (1u32 << 3u32))
        } else {
            NoiseFrequencySetting(self.0 & !(1u32 << 3u32))
        }
    }

    /// The mask of bits 4-7.
    pub const SHIFT_CLOCK_FREQUENCY_MASK: u32 = 0x000000F0u32;

    /// Bits 4-7, shifted down.
    pub fn shift_clock_frequency(self) -> (r: u32)
        ensures
            r == (self@ & 0x000000F0u32) >> 4u32,
    {
        (self.0 & 0x000000F0u32) >> 4u32
    }

    /// Puts the low bits of `shift_clock_frequency` into bits 4-7; the bits of
    /// `shift_clock_frequency` that do not fit are dropped.
    pub fn with_shift_clock_frequency(self, shift_clock_frequency: u32) -> (r: Self)
        ensures
            r@ == (self@ & !0x000000F0u32) | ((shift_clock_frequency << 4u32) & 0x000000F0u32),
    {
        NoiseFrequencySetting((self.0 & !0x000000F0u32) | ((shift_clock_frequency << 4u32) & 0x000000F0u32))
    }

    /// The mask of bit 14.
    pub const LENGTH_FLAG_STOP_BIT: u32 = 0x00004000u32;

    /// Bit 14.
    pub fn length_flag_stop(self) -> (r: bool)
        ensures
            r == (self@ & (1u32 << 14u32) != 0),
    {
        (self.0 & (1u32 << 14u32)) != 0
    }

    /// Sets bit 14.
    pub fn with_length_flag_stop(self, bit: bool) -> (r: Self)
        ensures
            r@ == if bit { self@ | (1u32 << 14u32) } else { self@ & !(1u32 << 14u32) },
    {
        if bit {
            NoiseFrequencySetting(self.0 | (1u32 << 14u32))
        } else {
            NoiseFrequencySetting(self.0 & !(1u32 << 14u32))
        }
    }

    /// The mask of bit 15.
    pub const INITIAL_RESTART_BIT: u32 = 0x00008000u32;

    /// Bit 15.
    pub fn initial_restart(self) -> (r: bool)
        ensures
            r == (self@ & (1u32 << 15u32) != 0),
    {
        (self.0 & (1u32 << 15u32)) != 0
    }

    /// Sets bit 15.
    pub fn with_initial_restart(self, bit: bool) -> (r: Self)
        ensures
            r@ == if bit { self@ | (1u32 << 15u32) } else { self@ & !(1u32 << 15u32) },
    {
        if bit {
            NoiseFrequencySetting(self.0 | (1u32 << 15u32))
        } else {
            NoiseFrequencySetting(self.0 & !(1u32 << 15u32))
        }
    }
}

/// Master volume and enables of the four tone channels.
#[derive(Debug, Copy, Clone, Default, PartialEq, Eq)]
pub struct NonWaveVolumeEnableSetting(pub u16);

impl View for NonWaveVolumeEnableSetting {
    type V = u16;

    /// The raw register bits.
    open spec fn view(&self) -> u16 {
        self.0
    }
}

impl NonWaveVolumeEnableSetting {
    /// Makes a new, zeroed value.
    pub fn new() -> (r: Self)
        ensures
            r@ == 0,
    {
        NonWaveVolumeEnableSetting(0)
    }

    /// The mask of bits 0-2.
    pub const RIGHT_MASTER_VOLUME_MASK: u16 = 0x0007u16;

    /// Bits 0-2, shifted down.
    pub fn right_master_volume(self) -> (r: u16)
        ensures
            r == (self@ & 0x0007u16) >> 0u16,
    {
        (self.0 & 0x0007u16) >> 0u16
    }

    /// Puts the low bits of `right_master_volume` into bits 0-2; the bits of
    /// `right_master_volume` that do not fit are dropped.
    pub fn with_right_master_volume(self, right_master_volume: u16) -> (r: Self)
        ensures
            r@ == (self@ & !0x0007u16) | ((right_master_volume << 0u16) & 0x0007u16),
    {
        NonWaveVolumeEnableSetting((self.0 & !0x0007u16) | ((right_master_volume << 0u16) & 0x0007u16))
    }

    /// The mask of bits 4-6.
    pub const LEFT_MASTER_VOLUME_MASK: u16 = 0x0070u16;

    /// Bits 4-6, shifted down.
    pub fn left_master_volume(self) -> (r: u16)
        ensures
            r == (self@ & 0x0070u16) >> 4u16,
    {
        (self.0 & 0x0070u16) >> 4u16
    }

    /// Puts the low bits of `left_master_volume` into bits 4-6; the bits of
    /// `left_master_volume` that do not fit are dropped.
    pub fn with_left_master_volume(self, left_master_volume: u16) -> (r: Self)
        ensures
            r@ == (self@ & !0x0070u16) | ((left_master_volume << 4u16) & 0x0070u16),
    {
        NonWaveVolumeEnableSetting((self.0 & !0x0070u16) | ((left_master_volume << 4u16) & 0x0070u16))
    }

    /// The mask of bits 8-11.
    pub const RIGHT_ENABLE_FLAGS_MASK: u16 = 0x0F00u16;

    /// Bits 8-11, shifted down.
    pub fn right_enable_flags(self) -> (r: u16)
        ensures
            r == (self@ & 0x0F00u16) >> 8u16,
    {
        (self.0 & 0x0F00u16) >> 8u16
    }

    /// Puts the low bits of `right_enable_flags` into bits 8-11; the bits of
    /// `right_enable_flags` that do not fit are dropped.
    pub fn with_right_enable_flags(self, right_enable_flags: u16) -> (r: Self)
        ensures
            r@ == (self@ & !0x0F00u16) | ((right_enable_flags << 8u16) & 0x0F00u16),
    {
        NonWaveVolumeEnableSetting((self.0 & !0x0F00u16) | ((right_enable_flags << 8u16) & 0x0F00u16))
    }

    /// The mask of bits 12-15.
    pub const LEFT_ENABLE_FLAGS_MASK: u16 = 0xF000u16;

    /// Bits 12-15, shifted down.
    pub fn left_enable_flags(self) -> (r: u16)
        ensures
            r == (self@ & 0xF000u16) >> 12u16,
    {
        (self.0 & 0xF000u16) >> 12u16
    }

    /// Puts the low bits of `left_enable_flags` into bits 12-15; the bits of
    /// `left_enable_flags` that do not fit are dropped.
    pub fn with_left_enable_flags(self, left_enable_flags: u16) -> (r: Self)
        ensures
            r@ == (self@ & !0xF000u16) | ((left_enable_flags << 12u16) & 0xF000u16),
    {
        NonWaveVolumeEnableSetting((self.0 & !0xF000u16) | ((left_enable_flags << 12u16) & 0xF000u16))
    }
}

/// The volume of the tone channels.
#[derive(Debug, Clone, Copy, PartialEq, Eq)]
pub enum NumberSoundVolume {
    /// 25%
    Quarter,
    /// 50%
    Half,
    /// 100%
    Full,
}

impl NumberSoundVolume {
    /// The setting's number in its register field.
    pub open spec fn raw(self) -> u16 {
        match self {
            NumberSoundVolume::Quarter => 0,
            NumberSoundVolume::Half => 1,
            NumberSoundVolume::Full => 2,
        }
    }

    /// The setting's number in its register field.
    pub fn to_u16(self) -> (r: u16)
        ensures
            r == self.raw(),
    {
        match self {
            NumberSoundVolume::Quarter => 0,
            NumberSoundVolume::Half => 1,
            NumberSoundVolume::Full => 2,
        }
    }
}

/// Volume and routing of the tone and DMA sound.
#[derive(Debug, Copy, Clone, Default, PartialEq, Eq)]
pub struct WaveVolumeEnableSetting(pub u16);

impl View for WaveVolumeEnableSetting {
    type V = u16;

    /// The raw register bits.
    open spec fn view(&self) -> u16 {
        self.0
    }
}

impl WaveVolumeEnableSetting {
    /// Makes a new, zeroed value.
    pub fn new() -> (r: Self)
        ensures
            r@ == 0,
    {
        WaveVolumeEnableSetting(0)
    }

    /// The mask of bits 0-1.
    pub const SOUND_NUMBER_VOLUME_MASK: u16 = 0x0003u16;

    /// Bits 0-1, as a [`NumberSoundVolume`]: only the first 3 values name one.
    pub fn sound_number_volume(self) -> (r: NumberSoundVolume)
        requires
            (self@ & 0x0003u16) >> 0u16 < 3,
        ensures
            r.raw() == (self@ & 0x0003u16) >> 0u16,
    {
        let raw: u16 = self.0;
        let v: u16 = (raw & 0x0003u16) >> 0u16;
        if v == 0 {
            NumberSoundVolume::Quarter
        } else if v == 1 {
            NumberSoundVolume::Half
        } else {
            NumberSoundVolume::Full
        }
    }

    /// Puts `sound_number_volume` into bits 0-1.
    pub fn with_sound_number_volume(self, sound_number_volume: NumberSoundVolume) -> (r: Self)
        ensures
            r@ == (self@ & !0x0003u16) | ((sound_number_volume.raw() << 0u16) & 0x0003u16),
    {
        WaveVolumeEnableSetting((self.0 & !0x0003u16) | ((sound_number_volume.to_u16() << 0u16) & 0x0003u16))
    }

    /// The mask of bit 2.
    pub const DMA_SOUND_A_FULL_VOLUME_BIT: u16 = 0x0004u16;

    /// Bit 2.
    pub fn dma_sound_a_full_volume(self) -> (r: bool)
        ensures
            r == bit16(self@, 2),
    {
        (self.0 & (1u16 << 2u16)) != 0
    }

    /// Sets bit 2.
    pub fn with_dma_sound_a_full_volume(self, bit: bool) -> (r: Self)
        ensures
            r@ == set_bit16(self@, 2, bit),
    {
        if bit {
            WaveVolumeEnableSetting(self.0 | (1u16 << 2u16))
        } else {
            WaveVolumeEnableSetting(self.0 & !(1u16 << 2u16))
        }
    }

    /// The mask of bit 3.
    pub const DMA_SOUND_B_FULL_VOLUME_BIT: u16 = 0x0008u16;

    /// Bit 3.
    pub fn dma_sound_b_full_volume(self) -> (r: bool)
        ensures
            r == bit16(self@, 3),
    {
        (self.0 & (1u16 << 3u16)) != 0
    }

    /// Sets bit 3.
    pub fn with_dma_sound_b_full_volume(self, bit: bool) -> (r: Self)
        ensures
            r@ == set_bit16(self@, 3, bit),
    {
        if bit {
            WaveVolumeEnableSetting(self.0 | (1u16 << 3u16))
        } else {
            WaveVolumeEnableSetting(self.0 & !(1u16 << 3u16))
        }
    }

    /// The mask of bit 8.
    pub const DMA_SOUND_A_ENABLE_RIGHT_BIT: u16 = 0x0100u16;

    /// Bit 8.
    pub fn dma_sound_a_enable_right(self) -> (r: bool)
        ensures
            r == bit16(self@, 8),
    {
        (self.0 & (1u16 << 8u16)) != 0
    }

    /// Sets bit 8.
    pub fn with_dma_sound_a_enable_right(self, bit: bool) -> (r: Self)
        ensures
            r@ == set_bit16(self@, 8, bit),
    {
        if bit {
            WaveVolumeEnableSetting(self.0 | (1u16 << 8u16))
        } else {
            WaveVolumeEnableSetting(self.0 & !(1u16 << 8u16))
        }
    }

    /// The mask of bit 9.
    pub const DMA_SOUND_A_ENABLE_LEFT_BIT: u16 = 0x0200u16;

    /// Bit 9.
    pub fn dma_sound_a_enable_left(self) -> (r: bool)
        ensures
            r == bit16(self@, 9),
    {
        (self.0 & (1u16 << 9u16)) != 0
    }

    /// Sets bit 9.
    pub fn with_dma_sound_a_enable_left(self, bit: bool) -> (r: Self)
        ensures
            r@ == set_bit16(self@, 9, bit),
    {
        if bit {
            WaveVolumeEnableSetting(self.0 | (1u16 << 9u16))
        } else {
            WaveVolumeEnableSetting(self.0 & !(1u16 << 9u16))
        }
    }

    /// The mask of bit 10.
    pub const DMA_SOUND_A_TIMER_SELECT_BIT: u16 = 0x0400u16;

    /// Bit 10.
    pub fn dma_sound_a_timer_select(self) -> (r: bool)
        ensures
            r == bit16(self@, 10),
    {
        (self.0 & (1u16 << 10u16)) != 0
    }

    /// Sets bit 10.
    pub fn with_dma_sound_a_timer_select(self, bit: bool) -> (r: Self)
        ensures
            r@ == set_bit16(self@, 10, bit),
    {
        if bit {
            WaveVolumeEnableSetting(self.0 | (1u16 << 10u16))
        } else {
            WaveVolumeEnableSetting(self.0 & !(1u16 << 10u16))
        }
    }

    /// The mask of bit 11.
    pub const DMA_SOUND_A_RESET_FIFO_BIT: u16 = 0x0800u16;

    /// Bit 11.
    pub fn dma_sound_a_reset_fifo(self) -> (r: bool)
        ensures
            r == bit16(self@, 11),
    {
        (self.0 & (1u16 << 11u16)) != 0
    }

    /// Sets bit 11.
    pub fn with_dma_sound_a_reset_fifo(self, bit: bool) -> (r: Self)
        ensures
            r@ == set_bit16(self@, 11, bit),
    {
        if bit {
            WaveVolumeEnableSetting(self.0 | (1u16 << 11u16))
        } else {
            WaveVolumeEnableSetting(self.0 & !(1u16 << 11u16))
        }
    }

    /// The mask of bit 12.
    pub const DMA_SOUND_B_ENABLE_RIGHT_BIT: u16 = 0x1000u16;

    /// Bit 12.
    pub fn dma_sound_b_enable_right(self) -> (r: bool)
        ensures
            r == bit16(self@, 12),
    {
        (self.0 & (1u16 << 12u16)) != 0
    }

    /// Sets bit 12.
    pub fn with_dma_sound_b_enable_right(self, bit: bool) -> (r: Self)
        ensures
            r@ == set_bit16(self@, 12, bit),
    {
        if bit {
            WaveVolumeEnableSetting(self.0 | (1u16 << 12u16))
        } else {
            WaveVolumeEnableSetting(self.0 & !(1u16 << 12u16))
        }
    }

    /// The mask of bit 13.
    pub const DMA_SOUND_B_ENABLE_LEFT_BIT: u16 = 0x2000u16;

    /// Bit 13.
    pub fn dma_sound_b_enable_left(self) -> (r: bool)
        ensures
            r == bit16(self@, 13),
    {
        (self.0 & (1u16 << 13u16)) != 0
    }

    /// Sets bit 13.
    pub fn with_dma_sound_b_enable_left(self, bit: bool) -> (r: Self)
        ensures
            r@ == set_bit16(self@, 13, bit),
    {
        if bit {
            WaveVolumeEnableSetting(self.0 | (1u16 << 13u16))
        } else {
            WaveVolumeEnableSetting(self.0 & !(1u16 << 13u16))
        }
    }

    /// The mask of bit 14.
    pub const DMA_SOUND_B_TIMER_SELECT_BIT: u16 = 0x4000u16;

    /// Bit 14.
    pub fn dma_sound_b_timer_select(self) -> (r: bool)
        ensures
            r == bit16(self@, 14),
    {
        (self.0 & (1u16 << 14u16)) != 0
    }

    /// Sets bit 14.
    pub fn with_dma_sound_b_timer_select(self, bit: bool) -> (r: Self)
        ensures
            r@ == set_bit16(self@, 14, bit),
    {
        if bit {
            WaveVolumeEnableSetting(self.0 | (1u16 << 14u16))
        } else {
            WaveVolumeEnableSetting(self.0 & !(1u16 << 14u16))
        }
    }

    /// The mask of bit 15.
    pub const DMA_SOUND_B_RESET_FIFO_BIT: u16 = 0x8000u16;

    /// Bit 15.
    pub fn dma_sound_b_reset_fifo(self) -> (r: bool)
        ensures
            r == bit16(self@, 15),
    {
        (self.0 & (1u16 << 15u16)) != 0
    }

    /// Sets bit 15.
    pub fn with_dma_sound_b_reset_fifo(self, bit: bool) -> (r: Self)
        ensures
            r@ == set_bit16(self@, 15, bit),
    {
        if bit {
            WaveVolumeEnableSetting(self.0 | (1u16 << 15u16))
        } else {
            WaveVolumeEnableSetting(self.0 & !(1u16 << 15u16))
        }
    }
}

/// Sound on/off, and the bias and resolution of the PWM output.
#[derive(Debug, Copy, Clone, Default, PartialEq, Eq)]
pub struct SoundMasterSetting(pub u16);

impl View for SoundMasterSetting {
    type V = u16;

    /// The raw register bits.
    open spec fn view(&self) -> u16 {
        self.0
    }
}

impl SoundMasterSetting {
    /// Makes a new, zeroed value.
    pub fn new() -> (r: Self)
        ensures
            r@ == 0,
    {
        SoundMasterSetting(0)
    }

    /// The mask of bit 0.
    pub const SOUND1_ON_BIT: u16 = 0x0001u16;

    /// Bit 0.
    pub fn sound1_on(self) -> (r: bool)
        ensures
            r == bit16(self@, 0),
    {
        (self.0 & (1u16 << 0u16)) != 0
    }

    /// Sets bit 0.
    pub fn with_sound1_on(self, bit: bool) -> (r: Self)
        ensures
            r@ == set_bit16(self@, 0, bit),
    {
        if bit {
            SoundMasterSetting(self.0 | (1u16 << 0u16))
        } else {
            SoundMasterSetting(self.0 & !(1u16 << 0u16))
        }
    }

    /// The mask of bit 1.
    pub const SOUND2_ON_BIT: u16 = 0x0002u16;

    /// Bit 1.
    pub fn sound2_on(self) -> (r: bool)
        ensures
            r == bit16(self@, 1),
    {
        (self.0 & (1u16 << 1u16)) != 0
    }

    /// Sets bit 1.
    pub fn with_sound2_on(self, bit: bool) -> (r: Self)
        ensures
            r@ == set_bit16(self@, 1, bit),
    {
        if bit {
            SoundMasterSetting(self.0 | (1u16 << 1u16))
        } else {
            SoundMasterSetting(self.0 & !(1u16 << 1u16))
        }
    }

    /// The mask of bit 2.
    pub const SOUND3_ON_BIT: u16 = 0x0004u16;

    /// Bit 2.
    pub fn sound3_on(self) -> (r: bool)
        ensures
            r == bit16(self@, 2),
    {
        (self.0 & (1u16 << 2u16)) != 0
    }

    /// Sets bit 2.
    pub fn with_sound3_on(self, bit: bool) -> (r: Self)
        ensures
            r@ == set_bit16(self@, 2, bit),
    {
        if bit {
            SoundMasterSetting(self.0 | (1u16 << 2u16))
        } else {
            SoundMasterSetting(self.0 & !(1u16 << 2u16))
        }
    }

    /// The mask of bit 3.
    pub const SOUND4_ON_BIT: u16 = 0x0008u16;

    /// Bit 3.
    pub fn sound4_on(self) -> (r: bool)
        ensures
            r == bit16(self@, 3),
    {
        (self.0 & (1u16 << 3u16)) != 0
    }

    /// Sets bit 3.
    pub fn with_sound4_on(self, bit: bool) -> (r: Self)
        ensures
            r@ == set_bit16(self@, 3, bit),
    {
        if bit {
            SoundMasterSetting(self.0 | (1u16 << 3u16))
        } else {
            SoundMasterSetting(self.0 & !(1u16 << 3u16))
        }
    }

    /// The mask of bit 7.
    pub const PSG_FIFO_MASTER_ENABLED_BIT: u16 = 0x0080u16;

    /// Bit 7.
    pub fn psg_fifo_master_enabled(self) -> (r: bool)
        ensures
            r == bit16(self@, 7),
    {
        (self.0 & (1u16 << 7u16)) != 0
    }

    /// Sets bit 7.
    pub fn with_psg_fifo_master_enabled(self, bit: bool) -> (r: Self)
        ensures
            r@ == set_bit16(self@, 7, bit),
    {
        if bit {
            SoundMasterSetting(self.0 | (1u16 << 7u16))
        } else {
            SoundMasterSetting(self.0 & !(1u16 << 7u16))
        }
    }

    /// The mask of bits 1-9.
    pub const BIAS_LEVEL_MASK: u16 = 0x03FEu16;

    /// Bits 1-9, shifted down.
    pub fn bias_level(self) -> (r: u16)
        ensures
            r == (self@ & 0x03FEu16) >> 1u16,
    {
        (self.0 & 0x03FEu16) >> 1u16
    }

    /// Puts the low bits of `bias_level` into bits 1-9; the bits of
    /// `bias_level` that do not fit are dropped.
    pub fn with_bias_level(self, bias_level: u16) -> (r: Self)
        ensures
            r@ == (self@ & !0x03FEu16) | ((bias_level << 1u16) & 0x03FEu16),
    {
        SoundMasterSetting((self.0 & !0x03FEu16) | ((bias_level << 1u16) & 0x03FEu16))
    }

    /// The mask of bits 14-15.
    pub const AMPLITUDE_RESOLUTION_MASK: u16 = 0xC000u16;

    /// Bits 14-15, shifted down.
    pub fn amplitude_resolution(self) -> (r: u16)
        ensures
            r == (self@ & 0xC000u16) >> 14u16,
    {
        (self.0 & 0xC000u16) >> 14u16
    }

    /// Puts the low bits of `amplitude_resolution` into bits 14-15; the bits of
    /// `amplitude_resolution` that do not fit are dropped.
    pub fn with_amplitude_resolution(self, amplitude_resolution: u16) -> (r: Self)
        ensures
            r@ == (self@ & !0xC000u16) | ((amplitude_resolution << 14u16) & 0xC000u16),
    {
        SoundMasterSetting((self.0 & !0xC000u16) | ((amplitude_resolution << 14u16) & 0xC000u16))
    }
}

/// The PWM control setting.
#[derive(Debug, Copy, Clone, Default, PartialEq, Eq)]
pub struct SoundPWMSetting(pub u16);


/// Every [`NumberSoundVolume`] is written as its hardware code, its number in the register:
/// `Quarter` 0, `Half` 1, `Full` 2; distinct settings have
/// distinct codes, so a code read back names the setting that was written.
pub proof fn lemma_number_sound_volume_codes(a: NumberSoundVolume, b: NumberSoundVolume)
    ensures
        a.raw() == (match a {
            NumberSoundVolume::Quarter => 0u16,
            NumberSoundVolume::Half => 1u16,
            NumberSoundVolume::Full => 2u16,
        }),
        a.raw() == b.raw() ==> a == b,
{
}

} // verus!
