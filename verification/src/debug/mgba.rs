//! Special utils for if you're running on the mGBA emulator.
use vstd::prelude::*;
use vstd::std_specs::convert::FromSpecImpl;
use vstd::string::StringSliceAdditionalSpecFns;
use super::DebugLevel;

verus! {

/// The levels of an mGBA debug message.
#[derive(Debug, Clone, Copy, PartialEq, Eq, Structural)]
pub enum MGBADebugLevel {
    /// Warning! This causes the emulator to halt emulation!
    Fatal,
    Error,
    Warning,
    Info,
    Debug,
}

impl MGBADebugLevel {
    /// The level's number in the send register.
    pub open spec fn raw(self) -> u16 {
        match self {
            MGBADebugLevel::Fatal => 0,
            MGBADebugLevel::Error => 1,
            MGBADebugLevel::Warning => 2,
            MGBADebugLevel::Info => 3,
            MGBADebugLevel::Debug => 4,
        }
    }

    /// The level's number in the send register.
    pub fn to_u16(self) -> (r: u16)
        ensures
            r == self.raw(),
    {
        match self {
            MGBADebugLevel::Fatal => 0,
            MGBADebugLevel::Error => 1,
            MGBADebugLevel::Warning => 2,
            MGBADebugLevel::Info => 3,
            MGBADebugLevel::Debug => 4,
        }
    }
}

impl From<DebugLevel> for MGBADebugLevel {
    fn from(debug: DebugLevel) -> (r: Self) {
        match debug {
            DebugLevel::Fatal => MGBADebugLevel::Fatal,
            DebugLevel::Error => MGBADebugLevel::Error,
            DebugLevel::Warning => MGBADebugLevel::Warning,
            DebugLevel::Info => MGBADebugLevel::Info,
            DebugLevel::Debug => MGBADebugLevel::Debug,
        }
    }
}

impl FromSpecImpl<DebugLevel> for MGBADebugLevel {
    open spec fn obeys_from_spec() -> bool {
        true
    }

    open spec fn from_spec(debug: DebugLevel) -> Self {
        match debug {
            DebugLevel::Fatal => MGBADebugLevel::Fatal,
            DebugLevel::Error => MGBADebugLevel::Error,
            DebugLevel::Warning => MGBADebugLevel::Warning,
            DebugLevel::Info => MGBADebugLevel::Info,
            DebugLevel::Debug => MGBADebugLevel::Debug,
        }
    }
}

/// The address that enables mGBA debugging when written.
pub const ENABLE_ADDRESS: usize = 0x4fff780;

/// What is written to [`ENABLE_ADDRESS`] to ask for debugging.
pub const ENABLE_ADDRESS_INPUT: u16 = 0xC0DE;

/// What [`ENABLE_ADDRESS`] reads back when mGBA debugging is on.
pub const ENABLE_ADDRESS_OUTPUT: u16 = 0x1DEA;

/// The start of the 256-byte output buffer.
pub const OUTPUT_BASE: usize = 0x4fff600;

/// The address that sends the buffered message.
pub const SEND_ADDRESS: usize = 0x4fff700;

/// The flag that marks a write to [`SEND_ADDRESS`] as a send.
pub const SEND_FLAG: u16 = 0x100;

/// Whether we are running in mGBA, given what [`ENABLE_ADDRESS`] reads after
/// [`ENABLE_ADDRESS_INPUT`] was written to it.
pub fn detect(enable_reading: u16) -> (r: bool)
    ensures
        r == (enable_reading == ENABLE_ADDRESS_OUTPUT),
{
    enable_reading == ENABLE_ADDRESS_OUTPUT
}

/// Allows writing to the `mGBA` debug output.
#[derive(Debug, PartialEq, Eq)]
pub struct MGBADebug {
    bytes_written: u8,
}

impl MGBADebug {
    /// How many bytes of the current message are in the output buffer.
    pub closed spec fn written(self) -> u8 {
        self.bytes_written
    }

    /// How many bytes of the current message are in the output buffer: the
    /// next byte goes to this index.
    pub fn bytes_written(&self) -> (r: u8)
        ensures
            r == self.written(),
    {
        self.bytes_written
    }

    /// Gives a new `MGBADebug`, if running within `mGBA` (as [`detect`] found).
    pub fn new(detected: bool) -> (r: Option<Self>)
        ensures
            r is Some <==> detected,
            r matches Some(d) ==> d.written() == 0,
    {
        if detected {
            Some(MGBADebug { bytes_written: 0 })
        } else {
            None
        }
    }

    /// Once output is buffered you must send it out with a level: this gives
    /// the values to write to [`SEND_ADDRESS`], in order, and empties the
    /// buffer.
    ///
    /// If the `Fatal` level is selected, the buffer is sent out as `Error`
    /// followed by a blank message being sent as `Error`. This is done because
    /// the `Fatal` message appears in a popup without showing up in the log,
    /// so it might accidentally be discarded.
    pub fn send(&mut self, level: MGBADebugLevel) -> (r: Vec<u16>)
        ensures
            level != MGBADebugLevel::Fatal ==> r@ == seq![SEND_FLAG | level.raw()],
            level == MGBADebugLevel::Fatal ==> r@ == seq![
                SEND_FLAG | MGBADebugLevel::Error.raw(),
                SEND_FLAG | MGBADebugLevel::Error.raw(),
            ],
            final(self).written() == 0,
    {
        let mut sends: Vec<u16> = Vec::new();
        if level == MGBADebugLevel::Fatal {
            sends.push(SEND_FLAG | MGBADebugLevel::Error.to_u16());
            sends.push(SEND_FLAG | MGBADebugLevel::Error.to_u16());
        } else {
            sends.push(SEND_FLAG | level.to_u16());
        }
        self.bytes_written = 0;
        sends
    }

    /// As `core::fmt::Write::write_str`: how many leading bytes of `s` go to
    /// the output buffer, starting at the current count. The buffer takes
    /// at most 255 bytes; the rest of `s` is dropped.
    pub fn write_str(&mut self, s: &str) -> (n: usize)
        ensures
            n == if s.spec_bytes().len() <= 255 - old(self).written() {
                s.spec_bytes().len() as int
            } else {
                255 - old(self).written()
            },
            final(self).written() == old(self).written() + n,
    {
        let bytes = s.as_bytes();
        let mut n: usize = 0;
        while self.bytes_written < 255
            invariant
                bytes@ == s.spec_bytes(),
                n <= bytes@.len(),
                self.bytes_written == old(self).written() + n,
                self.bytes_written <= 255,
            decreases 255 - self.bytes_written,
        {
            if n < bytes.len() {
                self.bytes_written = self.bytes_written + 1;
                n = n + 1;
            } else {
                return n;
            }
        }
        n
    }
}

/// The debug interface for mGBA.
pub struct MGBADebugInterface;


/// Every [`MGBADebugLevel`] is written as its hardware code, its number in the register:
/// `Fatal` 0, `Error` 1, `Warning` 2, `Info` 3, `Debug` 4; distinct settings have
/// distinct codes, so a code read back names the setting that was written.
pub proof fn lemma_mgba_debug_level_codes(a: MGBADebugLevel, b: MGBADebugLevel)
    ensures
        a.raw() == (match a {
            MGBADebugLevel::Fatal => 0u16,
            MGBADebugLevel::Error => 1u16,
            MGBADebugLevel::Warning => 2u16,
            MGBADebugLevel::Info => 3u16,
            MGBADebugLevel::Debug => 4u16,
        }),
        a.raw() == b.raw() ==> a == b,
{
}


/// A debug message is sent under the mGBA level of the same severity: its
/// code is Fatal 0, Error 1, Warning 2, Info 3, Debug 4, and distinct debug
/// levels give distinct mGBA levels.
pub proof fn lemma_debug_level_to_mgba(d: DebugLevel, e: DebugLevel)
    ensures
        <MGBADebugLevel as vstd::std_specs::convert::FromSpec<DebugLevel>>::from_spec(d).raw() == (match d {
            DebugLevel::Fatal => 0u16,
            DebugLevel::Error => 1u16,
            DebugLevel::Warning => 2u16,
            DebugLevel::Info => 3u16,
            DebugLevel::Debug => 4u16,
        }),
        <MGBADebugLevel as vstd::std_specs::convert::FromSpec<DebugLevel>>::from_spec(d)
            == <MGBADebugLevel as vstd::std_specs::convert::FromSpec<DebugLevel>>::from_spec(e) ==> d == e,
{
}

} // verus!
