//! Lets you interact with the mGBA debug output buffer.
//!
//! This buffer works as a "standard output" sort of interface: a logger
//! collects the bytes of a message in the buffer and sends the message out
//! (using the log level it was made with) when the buffer is full, on a
//! newline, and when it is dropped.
//!
//! The logger here decides what has to happen; it hands back a list of
//! [`LogAction`]s, which the caller carries out on the hardware registers in
//! order.
use vstd::prelude::*;
use vstd::string::StringSliceAdditionalSpecFns;
use vstd::utf8::{encode_utf8, encode_scalar};

verus! {

/// This is what you write to the mGBA log enable address to signal to the
/// emulator that you want to do logging.
pub const MGBA_LOGGING_ENABLE_REQUEST: u16 = 0xC0DE;

/// If the mGBA log enable address reads back this value, then mGBA logging
/// is available.
pub const MGBA_LOGGING_ENABLE_RESPONSE: u16 = 0x1DEA;

/// The logging level of a message sent out to the mGBA logging interface.
#[derive(Debug, Clone, Copy, PartialEq, Eq)]
pub enum MgbaLogLevel {
    /// Warning! This causes mGBA to halt emulation!
    Fatal,
    Error,
    Warning,
    Info,
    Debug,
}

impl Default for MgbaLogLevel {
    fn default() -> (r: Self)
        ensures
            r == MgbaLogLevel::Debug,
    {
        MgbaLogLevel::Debug
    }
}

impl MgbaLogLevel {
    /// The value written to the send register for this level.
    pub open spec fn raw(self) -> u16 {
        match self {
            MgbaLogLevel::Fatal => 0x100,
            MgbaLogLevel::Error => 0x101,
            MgbaLogLevel::Warning => 0x102,
            MgbaLogLevel::Info => 0x103,
            MgbaLogLevel::Debug => 0x104,
        }
    }

    /// The value written to the send register for this level.
    pub fn to_u16(self) -> (r: u16)
        ensures
            r == self.raw(),
    {
        match self {
            MgbaLogLevel::Fatal => 0x100,
            MgbaLogLevel::Error => 0x101,
            MgbaLogLevel::Warning => 0x102,
            MgbaLogLevel::Info => 0x103,
            MgbaLogLevel::Debug => 0x104,
        }
    }
}

/// The value sent for a level is the mGBA log flag `0x100` together with the
/// level's number: Fatal 0, Error 1, Warning 2, Info 3, Debug 4. Distinct
/// levels are sent as distinct values.
pub proof fn lemma_log_level_codes(level: MgbaLogLevel, other: MgbaLogLevel)
    ensures
        level.raw() == 0x100 + (match level {
            MgbaLogLevel::Fatal => 0u16,
            MgbaLogLevel::Error => 1u16,
            MgbaLogLevel::Warning => 2u16,
            MgbaLogLevel::Info => 3u16,
            MgbaLogLevel::Debug => 4u16,
        }),
        other.raw() == level.raw() ==> other == level,
{
}

/// Returns if mGBA logging is possible, given what the log enable address
/// reads.
pub fn mgba_logging_available(enable_reading: u16) -> (r: bool)
    ensures
        r == (enable_reading == MGBA_LOGGING_ENABLE_RESPONSE),
{
    enable_reading == MGBA_LOGGING_ENABLE_RESPONSE
}

/// One step of work on the mGBA log registers.
#[derive(Debug, Clone, Copy, PartialEq, Eq)]
pub enum LogAction {
    /// Write `byte` into the message buffer at `index`.
    Store { index: u8, byte: u8 },
    /// Write the logger's message level to the send register, which sends
    /// the message out and clears the buffer.
    Send,
}

/// The newline byte, which ends a message.
pub open spec fn newline() -> u8 {
    10
}

/// What the logger does with one byte when `count` bytes are buffered: the
/// new count and the actions.
pub open spec fn log_step(count: u8, b: u8) -> (u8, Seq<LogAction>) {
    if b == newline() {
        (0, seq![LogAction::Send])
    } else if count == 255 {
        (0, seq![LogAction::Store { index: count, byte: b }, LogAction::Send])
    } else {
        ((count + 1) as u8, seq![LogAction::Store { index: count, byte: b }])
    }
}

/// What the logger does with `bytes`, one after another, starting with
/// `count` bytes buffered: the final count and all actions in order.
pub open spec fn log_plan(count: u8, bytes: Seq<u8>) -> (u8, Seq<LogAction>)
    decreases bytes.len(),
{
    if bytes.len() == 0 {
        (count, Seq::empty())
    } else {
        let (c, acts) = log_plan(count, bytes.drop_last());
        let (c2, more) = log_step(c, bytes.last());
        (c2, acts + more)
    }
}

/// The bytes that are part of a message: all but the newline.
pub open spec fn message_byte() -> spec_fn(u8) -> bool {
    |b: u8| b != newline()
}

/// The bytes that `acts` store into the buffer, in order.
pub open spec fn stored_bytes(acts: Seq<LogAction>) -> Seq<u8>
    decreases acts.len(),
{
    if acts.len() == 0 {
        Seq::empty()
    } else {
        let rest = stored_bytes(acts.drop_last());
        match acts.last() {
            LogAction::Store { index, byte } => rest.push(byte),
            LogAction::Send => rest,
        }
    }
}

/// Runs through `acts` with a buffer that holds `start` bytes: every store
/// must go to the next free index, and a send empties the buffer. Gives the
/// number of bytes held at the end, or `None` if some store goes elsewhere.
pub open spec fn buffer_run(start: int, acts: Seq<LogAction>) -> Option<int>
    decreases acts.len(),
{
    if acts.len() == 0 {
        Some(start)
    } else {
        match buffer_run(start, acts.drop_last()) {
            None => None,
            Some(c) => match acts.last() {
                LogAction::Store { index, byte } => if index == c {
                    Some(c + 1)
                } else {
                    None
                },
                LogAction::Send => Some(0),
            },
        }
    }
}

proof fn lemma_stored_bytes_add(a: Seq<LogAction>, b: Seq<LogAction>)
    ensures
        stored_bytes(a + b) == stored_bytes(a) + stored_bytes(b),
    decreases b.len(),
{
    if b.len() == 0 {
        assert(a + b == a);
    } else {
        lemma_stored_bytes_add(a, b.drop_last());
        assert((a + b).drop_last() == a + b.drop_last());
        assert((a + b).last() == b.last());
    }
}

proof fn lemma_buffer_run_add(start: int, a: Seq<LogAction>, b: Seq<LogAction>)
    ensures
        buffer_run(start, a + b) == match buffer_run(start, a) {
            None => None,
            Some(c) => buffer_run(c, b),
        },
    decreases b.len(),
{
    if b.len() == 0 {
        assert(a + b == a);
    } else {
        lemma_buffer_run_add(start, a, b.drop_last());
        assert((a + b).drop_last() == a + b.drop_last());
        assert((a + b).last() == b.last());
    }
}

/// Nothing written to the logger is lost or reordered: the bytes it stores
/// into the buffer are exactly the bytes written, with the newlines taken out.
pub proof fn lemma_log_keeps_every_byte(count: u8, bytes: Seq<u8>)
    ensures
        stored_bytes(log_plan(count, bytes).1) == bytes.filter(message_byte()),
    decreases bytes.len(),
{
    if bytes.len() > 0 {
        lemma_log_keeps_every_byte(count, bytes.drop_last());
        let (c, acts) = log_plan(count, bytes.drop_last());
        let (c2, more) = log_step(c, bytes.last());
        lemma_stored_bytes_add(acts, more);
        reveal_with_fuel(stored_bytes, 3);
        if bytes.last() != newline() && c == 255 {
            assert(more.drop_last() == seq![LogAction::Store { index: c, byte: bytes.last() }]);
        }
        reveal(Seq::filter);
        assert(bytes.filter(message_byte()) == if message_byte()(bytes.last()) {
            bytes.drop_last().filter(message_byte()).push(bytes.last())
        } else {
            bytes.drop_last().filter(message_byte())
        });
    }
}

/// The logger never writes outside its 256-byte buffer and never leaves a
/// gap: starting with `count` bytes buffered, every store goes to the next
/// free index, the buffer empties on every send, and the number of bytes
/// left buffered at the end is the logger's new count. Since an index is a
/// `u8`, no message grows past 256 bytes before it is sent.
pub proof fn lemma_log_fills_buffer_in_order(count: u8, bytes: Seq<u8>)
    ensures
        buffer_run(count as int, log_plan(count, bytes).1) == Some(log_plan(count, bytes).0 as int),
    decreases bytes.len(),
{
    if bytes.len() > 0 {
        lemma_log_fills_buffer_in_order(count, bytes.drop_last());
        let (c, acts) = log_plan(count, bytes.drop_last());
        let (c2, more) = log_step(c, bytes.last());
        lemma_buffer_run_add(count as int, acts, more);
        reveal_with_fuel(buffer_run, 3);
        if bytes.last() != newline() && c == 255 {
            assert(more.drop_last() == seq![LogAction::Store { index: c, byte: bytes.last() }]);
        }
    }
}

/// The UTF-8 encoding of `c`.
fn encode_char(c: char) -> (v: Vec<u8>)
    ensures
        v@ == encode_scalar(c as u32),
{
    let s = c as u32;
    let mut v: Vec<u8> = Vec::new();
    if s <= 0x7F {
        v.push((s & 0x7F) as u8);
    } else if s <= 0x7FF {
        v.push(0xC0 | ((s >> 6) & 0x1F) as u8);
        v.push(0x80 | (s & 0x3F) as u8);
    } else if s <= 0xFFFF {
        v.push(0xE0 | ((s >> 12) & 0x0F) as u8);
        v.push(0x80 | ((s >> 6) & 0x3F) as u8);
        v.push(0x80 | (s & 0x3F) as u8);
    } else {
        v.push(0xF0 | ((s >> 18) & 0x7) as u8);
        v.push(0x80 | ((s >> 12) & 0x3F) as u8);
        v.push(0x80 | ((s >> 6) & 0x3F) as u8);
        v.push(0x80 | (s & 0x3F) as u8);
    }
    v
}

/// A logger for sending out messages to the mGBA debug log interface.
pub struct MgbaLogger {
    byte_count: u8,
    /// The current message level of the logger.
    ///
    /// All messages sent out by the logger will use this logging level.
    pub message_level: MgbaLogLevel,
}

impl MgbaLogger {
    /// How many bytes of the current message are buffered.
    pub closed spec fn count(self) -> u8 {
        self.byte_count
    }

    /// The level the logger sends its messages with.
    pub closed spec fn level(self) -> MgbaLogLevel {
        self.message_level
    }

    /// Tries to make a new logger, given what the log enable address reads.
    ///
    /// There's only actually one logger on the system, but this doesn't do
    /// anything to ensure exclusive access.
    pub fn try_new(message_level: MgbaLogLevel, enable_reading: u16) -> (r: Result<Self, ()>)
        ensures
            r is Ok <==> enable_reading == MGBA_LOGGING_ENABLE_RESPONSE,
            r matches Ok(l) ==> l.count() == 0 && l.level() == message_level,
    {
        if mgba_logging_available(enable_reading) {
            Ok(Self { byte_count: 0, message_level })
        } else {
            Err(())
        }
    }

    /// Sends the buffered message.
    fn flush(&mut self) -> (a: LogAction)
        ensures
            a == LogAction::Send,
            final(self).count() == 0,
            final(self).level() == old(self).level(),
    {
        self.byte_count = 0;
        LogAction::Send
    }

    /// Buffers the bytes of `bytes`, sending the message on each newline and
    /// whenever the buffer fills up.
    fn write_bytes(&mut self, bytes: &[u8]) -> (actions: Vec<LogAction>)
        ensures
            (final(self).count(), actions@) == log_plan(old(self).count(), bytes@),
            final(self).level() == old(self).level(),
    {
        let mut actions: Vec<LogAction> = Vec::new();
        let mut i: usize = 0;
        while i < bytes.len()
            invariant
                0 <= i <= bytes@.len(),
                (self.count(), actions@) == log_plan(old(self).count(), bytes@.take(i as int)),
                self.message_level == old(self).message_level,
            decreases bytes@.len() - i,
        {
            let b = bytes[i];
            let ghost prefix = bytes@.take(i as int);
            assert(bytes@.take(i as int + 1).drop_last() == prefix);
            assert(bytes@.take(i as int + 1).last() == b);
            if b == 10u8 {
                let a = self.flush();
                actions.push(a);
            } else {
                actions.push(LogAction::Store { index: self.byte_count, byte: b });
                if self.byte_count == u8::MAX {
                    let a = self.flush();
                    actions.push(a);
                } else {
                    self.byte_count = self.byte_count + 1;
                }
            }
            i = i + 1;
        }
        assert(bytes@.take(bytes@.len() as int) == bytes@);
        actions
    }

    /// As `core::fmt::Write::write_str`: buffers the UTF-8 bytes of `s`.
    pub fn write_str(&mut self, s: &str) -> (actions: Vec<LogAction>)
        ensures
            (final(self).count(), actions@) == log_plan(old(self).count(), s.spec_bytes()),
            final(self).level() == old(self).level(),
    {
        self.write_bytes(s.as_bytes())
    }

    /// As `core::fmt::Write::write_char`: buffers the UTF-8 bytes of `c`.
    pub fn write_char(&mut self, c: char) -> (actions: Vec<LogAction>)
        ensures
            (final(self).count(), actions@) == log_plan(old(self).count(), encode_utf8(seq![c])),
            final(self).level() == old(self).level(),
    {
        let bytes = encode_char(c);
        proof {
            reveal_with_fuel(encode_utf8, 2);
            assert(seq![c].drop_first() == Seq::<char>::empty());
            assert(encode_utf8(seq![c]) == encode_scalar(c as u32) + Seq::<u8>::empty());
        }
        self.write_bytes(bytes.as_slice())
    }

    /// What dropping the logger does: a message still in the buffer is sent.
    pub fn finish(&mut self) -> (actions: Vec<LogAction>)
        ensures
            actions@ == if old(self).count() != 0 { seq![LogAction::Send] } else { Seq::empty() },
            final(self).count() == 0,
            final(self).level() == old(self).level(),
    {
        let mut actions: Vec<LogAction> = Vec::new();
        if self.byte_count != 0 {
            let a = self.flush();
            actions.push(a);
        }
        actions
    }
}

} // verus!
