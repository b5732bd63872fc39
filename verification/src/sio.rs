//! Serial IO: the control values and the UART decisions.
use vstd::prelude::*;
use crate::bits::{bit16, set_bit16, field16, set_field16, group_bits, lemma_region2, lemma_fits_two_bits};
use crate::bitfrob_calls::{u16_get_bit, u16_with_bit, u16_get_region, u16_with_region};

verus! {

broadcast use group_bits;

/// Supported baud rates.
#[derive(Debug, Clone, Copy, PartialEq, Eq)]
pub enum BaudRate {
    /// 9600 bps
    Bps9600,
    /// 38400 bps
    Bps38400,
    /// 57600 bps
    Bps57600,
    /// 115200 bps
    Bps115200,
}

impl BaudRate {
    /// The variant's number within its field (before shifting into place).
    pub open spec fn index(self) -> u16 {
        match self {
            BaudRate::Bps9600 => 0,
            BaudRate::Bps38400 => 1,
            BaudRate::Bps57600 => 2,
            BaudRate::Bps115200 => 3,
        }
    }

    /// The bits this setting stands for in its register.
    pub open spec fn raw(self) -> u16 {
        (self.index() << 0u16) as u16
    }

    /// The bits this setting stands for in its register.
    pub fn to_u16(self) -> (r: u16)
        ensures
            r == self.raw(),
    {
        let i: u16 = match self {
            BaudRate::Bps9600 => 0,
            BaudRate::Bps38400 => 1,
            BaudRate::Bps57600 => 2,
            BaudRate::Bps115200 => 3,
        };
        i << 0u16
    }
}

/// Serial IO modes.
#[derive(Debug, Clone, Copy, PartialEq, Eq)]
pub enum SioMode {
    /// Normal mode: 8-bit data
    Normal8Bit,
    /// Multiplayer mode: 16-bit data
    MultiPlayer,
    /// Normal mode: 32-bit data
    Normal32Bit,
    /// UART (RS232) mode: 7 or 8-bit data
    Uart,
}

impl SioMode {
    /// The variant's number within its field (before shifting into place).
    pub open spec fn index(self) -> u16 {
        match self {
            SioMode::Normal8Bit => 0,
            SioMode::MultiPlayer => 1,
            SioMode::Normal32Bit => 2,
            SioMode::Uart => 3,
        }
    }

    /// The bits this setting stands for in its register.
    pub open spec fn raw(self) -> u16 {
        (self.index() << 12u16) as u16
    }

    /// The bits this setting stands for in its register.
    pub fn to_u16(self) -> (r: u16)
        ensures
            r == self.raw(),
    {
        let i: u16 = match self {
            SioMode::Normal8Bit => 0,
            SioMode::MultiPlayer => 1,
            SioMode::Normal32Bit => 2,
            SioMode::Uart => 3,
        };
        i << 12u16
    }
}

/// General IO modes.
#[derive(Debug, Clone, Copy, PartialEq, Eq)]
pub enum IoMode {
    /// IO disabled
    Disabled,
    /// General Purpose IO
    GPIO,
    /// JoyBus mode
    JoyBus,
}

impl IoMode {
    /// The variant's number within its field (before shifting into place).
    pub open spec fn index(self) -> u16 {
        match self {
            IoMode::Disabled => 0,
            IoMode::GPIO => 2,
            IoMode::JoyBus => 3,
        }
    }

    /// The bits this setting stands for in its register.
    pub open spec fn raw(self) -> u16 {
        (self.index() << 14u16) as u16
    }

    /// The bits this setting stands for in its register.
    pub fn to_u16(self) -> (r: u16)
        ensures
            r == self.raw(),
    {
        let i: u16 = match self {
            IoMode::Disabled => 0,
            IoMode::GPIO => 2,
            IoMode::JoyBus => 3,
        };
        i << 14u16
    }
}

/// Setting for the serial IO control register.
#[derive(Debug, Clone, Copy, Default, PartialEq, Eq)]
pub struct SioControlSetting(pub u16);

impl View for SioControlSetting {
    type V = u16;

    /// The raw register bits.
    open spec fn view(&self) -> u16 {
        self.0
    }
}

impl SioControlSetting {
    /// Makes a new, zeroed value.
    pub fn new() -> (r: Self)
        ensures
            r@ == 0,
    {
        SioControlSetting(0)
    }

    pub fn baud_rate(self) -> (r: BaudRate)
        ensures
            r.index() == field16(self@, 0, 1),
    {
        let v = u16_get_region(0, 1, self.0);
        proof {
            lemma_region2(self.0, 0);
        }
        if v == BaudRate::Bps9600.to_u16() {
            BaudRate::Bps9600
        } else if v == BaudRate::Bps38400.to_u16() {
            BaudRate::Bps38400
        } else if v == BaudRate::Bps57600.to_u16() {
            BaudRate::Bps57600
        } else {
            BaudRate::Bps115200
        }
    }

    pub fn with_baud_rate(self, v: BaudRate) -> (r: Self)
        ensures
            r@ == set_field16(self@, 0, 1, v.index()),
    {
        SioControlSetting(u16_with_region(0, 1, self.0, v.to_u16()))
    }

    pub fn flow_control(self) -> (r: bool)
        ensures
            r == bit16(self@, 2),
    {
        u16_get_bit(2, self.0)
    }

    pub fn with_flow_control(self, b: bool) -> (r: Self)
        ensures
            r@ == set_bit16(self@, 2, b),
            bit16(r@, 2) == b,
    {
        SioControlSetting(u16_with_bit(2, self.0, b))
    }

    pub fn parity_odd(self) -> (r: bool)
        ensures
            r == bit16(self@, 3),
    {
        u16_get_bit(3, self.0)
    }

    pub fn with_parity_odd(self, b: bool) -> (r: Self)
        ensures
            r@ == set_bit16(self@, 3, b),
            bit16(r@, 3) == b,
    {
        SioControlSetting(u16_with_bit(3, self.0, b))
    }

    pub fn tx_full(self) -> (r: bool)
        ensures
            r == bit16(self@, 4),
    {
        u16_get_bit(4, self.0)
    }

    pub fn with_tx_full(self, b: bool) -> (r: Self)
        ensures
            r@ == set_bit16(self@, 4, b),
            bit16(r@, 4) == b,
    {
        SioControlSetting(u16_with_bit(4, self.0, b))
    }

    pub fn rx_empty(self) -> (r: bool)
        ensures
            r == bit16(self@, 5),
    {
        u16_get_bit(5, self.0)
    }

    pub fn with_rx_empty(self, b: bool) -> (r: Self)
        ensures
            r@ == set_bit16(self@, 5, b),
            bit16(r@, 5) == b,
    {
        SioControlSetting(u16_with_bit(5, self.0, b))
    }

    pub fn error(self) -> (r: bool)
        ensures
            r == bit16(self@, 6),
    {
        u16_get_bit(6, self.0)
    }

    pub fn with_error(self, b: bool) -> (r: Self)
        ensures
            r@ == set_bit16(self@, 6, b),
            bit16(r@, 6) == b,
    {
        SioControlSetting(u16_with_bit(6, self.0, b))
    }

    pub fn data_length_8bit(self) -> (r: bool)
        ensures
            r == bit16(self@, 7),
    {
        u16_get_bit(7, self.0)
    }

    pub fn with_data_length_8bit(self, b: bool) -> (r: Self)
        ensures
            r@ == set_bit16(self@, 7, b),
            bit16(r@, 7) == b,
    {
        SioControlSetting(u16_with_bit(7, self.0, b))
    }

    pub fn fifo_enable(self) -> (r: bool)
        ensures
            r == bit16(self@, 8),
    {
        u16_get_bit(8, self.0)
    }

    pub fn with_fifo_enable(self, b: bool) -> (r: Self)
        ensures
            r@ == set_bit16(self@, 8, b),
            bit16(r@, 8) == b,
    {
        SioControlSetting(u16_with_bit(8, self.0, b))
    }

    pub fn parity_enable(self) -> (r: bool)
        ensures
            r == bit16(self@, 9),
    {
        u16_get_bit(9, self.0)
    }

    pub fn with_parity_enable(self, b: bool) -> (r: Self)
        ensures
            r@ == set_bit16(self@, 9, b),
            bit16(r@, 9) == b,
    {
        SioControlSetting(u16_with_bit(9, self.0, b))
    }

    pub fn tx_enable(self) -> (r: bool)
        ensures
            r == bit16(self@, 10),
    {
        u16_get_bit(10, self.0)
    }

    pub fn with_tx_enable(self, b: bool) -> (r: Self)
        ensures
            r@ == set_bit16(self@, 10, b),
            bit16(r@, 10) == b,
    {
        SioControlSetting(u16_with_bit(10, self.0, b))
    }

    pub fn rx_enable(self) -> (r: bool)
        ensures
            r == bit16(self@, 11),
    {
        u16_get_bit(11, self.0)
    }

    pub fn with_rx_enable(self, b: bool) -> (r: Self)
        ensures
            r@ == set_bit16(self@, 11, b),
            bit16(r@, 11) == b,
    {
        SioControlSetting(u16_with_bit(11, self.0, b))
    }

    pub fn mode(self) -> (r: SioMode)
        ensures
            r.index() == field16(self@, 12, 13),
    {
        let v = u16_get_region(12, 13, self.0);
        proof {
            lemma_region2(self.0, 12);
        }
        if v == SioMode::Normal8Bit.to_u16() {
            SioMode::Normal8Bit
        } else if v == SioMode::MultiPlayer.to_u16() {
            SioMode::MultiPlayer
        } else if v == SioMode::Normal32Bit.to_u16() {
            SioMode::Normal32Bit
        } else {
            SioMode::Uart
        }
    }

    pub fn with_mode(self, v: SioMode) -> (r: Self)
        ensures
            r@ == set_field16(self@, 12, 13, v.index()),
    {
        SioControlSetting(u16_with_region(12, 13, self.0, v.to_u16()))
    }

    pub fn irq_enable(self) -> (r: bool)
        ensures
            r == bit16(self@, 14),
    {
        u16_get_bit(14, self.0)
    }

    pub fn with_irq_enable(self, b: bool) -> (r: Self)
        ensures
            r@ == set_bit16(self@, 14, b),
            bit16(r@, 14) == b,
    {
        SioControlSetting(u16_with_bit(14, self.0, b))
    }
}

/// Setting for the general IO control register.
#[derive(Debug, Clone, Copy, Default, PartialEq, Eq)]
pub struct IoControlSetting(pub u16);

impl View for IoControlSetting {
    type V = u16;

    /// The raw register bits.
    open spec fn view(&self) -> u16 {
        self.0
    }
}

impl IoControlSetting {
    /// Makes a new, zeroed value.
    pub fn new() -> (r: Self)
        ensures
            r@ == 0,
    {
        IoControlSetting(0)
    }

    pub fn sc(self) -> (r: bool)
        ensures
            r == bit16(self@, 0),
    {
        u16_get_bit(0, self.0)
    }

    pub fn with_sc(self, b: bool) -> (r: Self)
        ensures
            r@ == set_bit16(self@, 0, b),
            bit16(r@, 0) == b,
    {
        IoControlSetting(u16_with_bit(0, self.0, b))
    }

    pub fn sd(self) -> (r: bool)
        ensures
            r == bit16(self@, 1),
    {
        u16_get_bit(1, self.0)
    }

    pub fn with_sd(self, b: bool) -> (r: Self)
        ensures
            r@ == set_bit16(self@, 1, b),
            bit16(r@, 1) == b,
    {
        IoControlSetting(u16_with_bit(1, self.0, b))
    }

    pub fn si(self) -> (r: bool)
        ensures
            r == bit16(self@, 2),
    {
        u16_get_bit(2, self.0)
    }

    pub fn with_si(self, b: bool) -> (r: Self)
        ensures
            r@ == set_bit16(self@, 2, b),
            bit16(r@, 2) == b,
    {
        IoControlSetting(u16_with_bit(2, self.0, b))
    }

    pub fn so(self) -> (r: bool)
        ensures
            r == bit16(self@, 3),
    {
        u16_get_bit(3, self.0)
    }

    pub fn with_so(self, b: bool) -> (r: Self)
        ensures
            r@ == set_bit16(self@, 3, b),
            bit16(r@, 3) == b,
    {
        IoControlSetting(u16_with_bit(3, self.0, b))
    }

    pub fn sc_output_enable(self) -> (r: bool)
        ensures
            r == bit16(self@, 4),
    {
        u16_get_bit(4, self.0)
    }

    pub fn with_sc_output_enable(self, b: bool) -> (r: Self)
        ensures
            r@ == set_bit16(self@, 4, b),
            bit16(r@, 4) == b,
    {
        IoControlSetting(u16_with_bit(4, self.0, b))
    }

    pub fn sd_output_enable(self) -> (r: bool)
        ensures
            r == bit16(self@, 5),
    {
        u16_get_bit(5, self.0)
    }

    pub fn with_sd_output_enable(self, b: bool) -> (r: Self)
        ensures
            r@ == set_bit16(self@, 5, b),
            bit16(r@, 5) == b,
    {
        IoControlSetting(u16_with_bit(5, self.0, b))
    }

    pub fn si_output_enable(self) -> (r: bool)
        ensures
            r == bit16(self@, 6),
    {
        u16_get_bit(6, self.0)
    }

    pub fn with_si_output_enable(self, b: bool) -> (r: Self)
        ensures
            r@ == set_bit16(self@, 6, b),
            bit16(r@, 6) == b,
    {
        IoControlSetting(u16_with_bit(6, self.0, b))
    }

    pub fn so_output_enable(self) -> (r: bool)
        ensures
            r == bit16(self@, 7),
    {
        u16_get_bit(7, self.0)
    }

    pub fn with_so_output_enable(self, b: bool) -> (r: Self)
        ensures
            r@ == set_bit16(self@, 7, b),
            bit16(r@, 7) == b,
    {
        IoControlSetting(u16_with_bit(7, self.0, b))
    }

    pub fn si_irq_enable(self) -> (r: bool)
        ensures
            r == bit16(self@, 8),
    {
        u16_get_bit(8, self.0)
    }

    pub fn with_si_irq_enable(self, b: bool) -> (r: Self)
        ensures
            r@ == set_bit16(self@, 8, b),
            bit16(r@, 8) == b,
    {
        IoControlSetting(u16_with_bit(8, self.0, b))
    }
}

impl IoControlSetting {
    /// The general IO mode in bits 14-15, read by the mode's place in the
    /// list `Disabled, GPIO, JoyBus`: 0 reads as `Disabled`, 1 as `GPIO` and
    /// 2 as `JoyBus`. A 3 is no mode.
    ///
    /// The place is not the bit pattern that [`Self::with_mode`] writes: `GPIO`
    /// is written as 2, which reads back as `JoyBus`.
    pub fn mode(self) -> (r: IoMode)
        requires
            field16(self@, 14, 15) != 3,
        ensures
            r == if field16(self@, 14, 15) == 0 {
                IoMode::Disabled
            } else if field16(self@, 14, 15) == 1 {
                IoMode::GPIO
            } else {
                IoMode::JoyBus
            },
    {
        let v = u16_get_region(14, 15, self.0);
        let disabled: u16 = 0u16 << 14u16;
        let gpio: u16 = 1u16 << 14u16;
        proof {
            lemma_region2(self.0, 14);
            assert((v == ((0u16 << 14u16) as u16)) <==> field16(self@, 14, 15) == 0);
            assert((v == ((1u16 << 14u16) as u16)) <==> field16(self@, 14, 15) == 1);
        }
        if v == disabled {
            IoMode::Disabled
        } else if v == gpio {
            IoMode::GPIO
        } else {
            IoMode::JoyBus
        }
    }

    /// Sets the general IO mode.
    pub fn with_mode(self, v: IoMode) -> (r: Self)
        ensures
            r@ == set_field16(self@, 14, 15, v.index()),
    {
        IoControlSetting(u16_with_region(14, 15, self.0, v.to_u16()))
    }
}

/// The serial port driven as a UART.
#[derive(Clone)]
pub struct SioSerial;

/// Serial IO error type.
#[derive(Debug)]
pub enum SioError {
    /// The error bit in `SIOCNT` is set.
    ErrorBitSet,
}

/// What a read or a flush of the serial port finds.
#[derive(Debug)]
pub enum SioStatus {
    /// The operation can go ahead.
    Ready,
    /// The operation has to wait.
    WouldBlock,
    /// The port reports an error.
    Failed(SioError),
}

/// The serial IO control value that [`SioSerial::init`] writes: the baud
/// rate, 8-bit data, UART mode, the FIFO, receive and transmit enabled.
pub open spec fn uart_control(baud: BaudRate) -> u16 {
    set_bit16(
        set_bit16(
            set_bit16(
                set_field16(set_bit16(set_field16(0, 0, 1, baud.index()), 7, true), 12, 13, 3),
                8,
                true,
            ),
            11,
            true,
        ),
        10,
        true,
    )
}

/// Setting the baud rate writes its hardware code into bits 0-1 (9600 bps 0,
/// 38400 bps 1, 57600 bps 2, 115200 bps 3) and keeps every other bit.
pub proof fn lemma_baud_rate_code(x: u16, baud: BaudRate)
    ensures
        field16(set_field16(x, 0, 1, baud.index()), 0, 1) == (match baud {
            BaudRate::Bps9600 => 0u16,
            BaudRate::Bps38400 => 1u16,
            BaudRate::Bps57600 => 2u16,
            BaudRate::Bps115200 => 3u16,
        }),
        forall|c: u16|
            1 < c < 16 ==> #[trigger] bit16(set_field16(x, 0, 1, baud.index()), c) == bit16(x, c),
{
    lemma_fits_two_bits(baud.index());
}

/// The control value that the UART set-up writes carries the hardware code
/// of its baud rate in bits 0-1, and UART mode (3) in bits 12-13.
pub proof fn lemma_uart_control_baud(baud: BaudRate)
    ensures
        field16(uart_control(baud), 0, 1) == (match baud {
            BaudRate::Bps9600 => 0u16,
            BaudRate::Bps38400 => 1u16,
            BaudRate::Bps57600 => 2u16,
            BaudRate::Bps115200 => 3u16,
        }),
        field16(uart_control(baud), 12, 13) == 3,
{
    lemma_fits_two_bits(baud.index());
    lemma_fits_two_bits(3);
}

/// Setting the serial mode writes its hardware code into bits 12-13 (normal
/// 8-bit 0, multiplayer 1, normal 32-bit 2, UART 3) and keeps every other bit.
pub proof fn lemma_sio_mode_code(x: u16, mode: SioMode)
    ensures
        field16(set_field16(x, 12, 13, mode.index()), 12, 13) == (match mode {
            SioMode::Normal8Bit => 0u16,
            SioMode::MultiPlayer => 1u16,
            SioMode::Normal32Bit => 2u16,
            SioMode::Uart => 3u16,
        }),
        forall|c: u16|
            c < 16 && (c < 12 || 13 < c) ==> #[trigger] bit16(set_field16(x, 12, 13, mode.index()), c)
                == bit16(x, c),
{
    lemma_fits_two_bits(mode.index());
}

/// Setting the general IO mode writes its code into bits 14-15 (disabled 0,
/// GPIO 2, JoyBus 3) and keeps every other bit.
pub proof fn lemma_io_mode_code(x: u16, mode: IoMode)
    ensures
        field16(set_field16(x, 14, 15, mode.index()), 14, 15) == (match mode {
            IoMode::Disabled => 0u16,
            IoMode::GPIO => 2u16,
            IoMode::JoyBus => 3u16,
        }),
        forall|c: u16| c < 14 ==> #[trigger] bit16(set_field16(x, 14, 15, mode.index()), c) == bit16(x, c),
{
    lemma_fits_two_bits(mode.index());
}

impl SioSerial {
    /// Initialize the serial port with the provided baud rate and default 8N1
    /// settings: gives the value to write to `RCNT` (zero) and the value to
    /// write to `SIOCNT`, in that order.
    pub fn init(baud: BaudRate) -> (r: (IoControlSetting, SioControlSetting))
        ensures
            r.0@ == 0,
            r.1@ == uart_control(baud),
    {
        (
            IoControlSetting::new(),
            SioControlSetting::new().with_baud_rate(baud).with_data_length_8bit(true).with_mode(
                SioMode::Uart,
            ).with_fifo_enable(true).with_rx_enable(true).with_tx_enable(true),
        )
    }

    /// Whether a byte can be read, given the current `SIOCNT` value: an error
    /// comes first, then an empty receive buffer means waiting.
    pub fn read_status(siocnt: SioControlSetting) -> (r: SioStatus)
        ensures
            bit16(siocnt@, 6) ==> r is Failed,
            !bit16(siocnt@, 6) && bit16(siocnt@, 5) ==> r is WouldBlock,
            !bit16(siocnt@, 6) && !bit16(siocnt@, 5) ==> r is Ready,
    {
        if siocnt.error() {
            SioStatus::Failed(SioError::ErrorBitSet)
        } else if siocnt.rx_empty() {
            SioStatus::WouldBlock
        } else {
            SioStatus::Ready
        }
    }

    /// Whether the transmit side is free, given the current `SIOCNT` value: an
    /// error comes first, then a full transmit buffer means waiting.
    pub fn flush_status(siocnt: SioControlSetting) -> (r: SioStatus)
        ensures
            bit16(siocnt@, 6) ==> r is Failed,
            !bit16(siocnt@, 6) && bit16(siocnt@, 4) ==> r is WouldBlock,
            !bit16(siocnt@, 6) && !bit16(siocnt@, 4) ==> r is Ready,
    {
        if siocnt.error() {
            SioStatus::Failed(SioError::ErrorBitSet)
        } else if siocnt.tx_full() {
            SioStatus::WouldBlock
        } else {
            SioStatus::Ready
        }
    }
}

} // verus!
