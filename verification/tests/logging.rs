use gba::debug::mgba::{MGBADebug, MGBADebugLevel};
use gba::debug::{nocash, pick_interface, DebugLevel, DebugState, DetectOnce, DetectedInterface};
use gba::mgba::{mgba_logging_available, LogAction, MgbaLogLevel, MgbaLogger};

fn logger() -> MgbaLogger {
    match MgbaLogger::try_new(MgbaLogLevel::Info, 0x1DEA) {
        Ok(l) => l,
        Err(()) => panic!("logging should be available"),
    }
}

#[test]
fn mgba_logging_detection() {
    assert!(mgba_logging_available(0x1DEA));
    assert!(!mgba_logging_available(0x0000));
    assert!(MgbaLogger::try_new(MgbaLogLevel::Debug, 0xC0DE).is_err());
    let l = logger();
    assert_eq!(l.message_level, MgbaLogLevel::Info);
    assert_eq!(MgbaLogLevel::default(), MgbaLogLevel::Debug);
    assert_eq!(MgbaLogLevel::Fatal.to_u16(), 0x100);
    assert_eq!(MgbaLogLevel::Debug.to_u16(), 0x104);
}

#[test]
fn mgba_logger_sends_on_newline() {
    let mut l = logger();
    let actions = l.write_str("hi\n");
    assert_eq!(
        actions,
        vec![
            LogAction::Store { index: 0, byte: b'h' },
            LogAction::Store { index: 1, byte: b'i' },
            LogAction::Send,
        ]
    );
    // The next message starts at the front of the buffer again.
    assert_eq!(l.write_str("x"), vec![LogAction::Store { index: 0, byte: b'x' }]);
    assert_eq!(l.finish(), vec![LogAction::Send]);
    assert_eq!(l.finish(), vec![]);
}

#[test]
fn mgba_logger_sends_when_full() {
    let mut l = logger();
    let text = "a".repeat(256);
    let actions = l.write_str(&text);
    assert_eq!(actions.len(), 257);
    assert_eq!(actions[0], LogAction::Store { index: 0, byte: b'a' });
    assert_eq!(actions[255], LogAction::Store { index: 255, byte: b'a' });
    assert_eq!(actions[256], LogAction::Send);
    // Nothing is left in the buffer.
    assert_eq!(l.finish(), vec![]);
    // One more byte after a full buffer starts a new message.
    let actions = l.write_str(&"b".repeat(257));
    assert_eq!(actions.len(), 258);
    assert_eq!(actions[257], LogAction::Store { index: 0, byte: b'b' });
}

#[test]
fn mgba_logger_writes_utf8() {
    let mut l = logger();
    assert_eq!(
        l.write_char('é'),
        vec![
            LogAction::Store { index: 0, byte: 0xC3 },
            LogAction::Store { index: 1, byte: 0xA9 },
        ]
    );
    assert_eq!(l.write_char('\n'), vec![LogAction::Send]);
    assert_eq!(l.write_char('A'), vec![LogAction::Store { index: 0, byte: b'A' }]);
    assert_eq!(
        l.write_char('😀'),
        vec![
            LogAction::Store { index: 1, byte: 0xF0 },
            LogAction::Store { index: 2, byte: 0x9F },
            LogAction::Store { index: 3, byte: 0x98 },
            LogAction::Store { index: 4, byte: 0x80 },
        ]
    );
    assert_eq!(
        l.write_char('€'),
        vec![
            LogAction::Store { index: 5, byte: 0xE2 },
            LogAction::Store { index: 6, byte: 0x82 },
            LogAction::Store { index: 7, byte: 0xAC },
        ]
    );
}

#[test]
fn mgba_debug_buffer() {
    assert!(gba::debug::mgba::detect(0x1DEA));
    assert!(!gba::debug::mgba::detect(0xC0DE));
    assert!(MGBADebug::new(false).is_none());
    let mut d = MGBADebug::new(true).unwrap();
    assert_eq!(d.write_str("hello"), 5);
    let long = "z".repeat(300);
    assert_eq!(d.write_str(&long), 250);
    assert_eq!(d.write_str("more"), 0);
    // A fatal message goes out as an error, followed by a blank error.
    assert_eq!(d.send(MGBADebugLevel::Fatal), vec![0x101, 0x101]);
    assert_eq!(d.write_str("x"), 1);
    assert_eq!(d.send(MGBADebugLevel::Debug), vec![0x104]);
    assert_eq!(d.write_str("xy"), 2);
    assert_eq!(d.send(MGBADebugLevel::Info), vec![0x103]);
    assert_eq!(MGBADebugLevel::from(DebugLevel::Warning), MGBADebugLevel::Warning);
    assert_eq!(MGBADebugLevel::from(DebugLevel::Warning).to_u16(), 2);
}

#[test]
fn nocash_signature() {
    assert!(nocash::detect(*b"no$gba "));
    assert!(!nocash::detect(*b"no$gbx "));
    assert!(!nocash::detect([0; 7]));
    assert!(nocash::NoCashDebug::new(true).is_some());
    assert!(nocash::NoCashDebug::new(false).is_none());
}

#[test]
fn debug_interface_choice() {
    assert_eq!(pick_interface(true, true), Some(DetectedInterface::MGBA));
    assert_eq!(pick_interface(false, true), Some(DetectedInterface::NoCash));
    assert_eq!(pick_interface(false, false), None);
}

#[test]
fn debug_state_detects_once() {
    let mut s: DebugState<u8> = DebugState::new();
    assert!(!s.is_debugging_disabled());
    assert!(s.needs_detection());
    // Detection found nothing: it does not run again.
    assert_eq!(s.get_debug_interface(None), None);
    assert!(!s.needs_detection());
    assert_eq!(s.get_debug_interface(Some(3)), None);
    // A manual interface is used from then on.
    s.set_debug_interface(7);
    assert_eq!(s.get_debug_interface(None), Some(7));
    s.set_debug_disabled();
    assert!(s.is_debugging_disabled());
    assert_eq!(s.get_debug_interface(Some(1)), None);
}

#[test]
fn disabled_debugging_gives_no_interface() {
    // Disabled before detection ever ran: no detection, no interface.
    let mut s: DebugState<u8> = DebugState::new();
    s.set_debug_interface(5);
    s.set_debug_disabled();
    assert!(!s.needs_detection());
    assert_eq!(s.get_debug_interface(Some(5)), None);
    assert_eq!(s.get_debug_interface(Some(6)), None);
    assert!(s.is_debugging_disabled());
    // Setting an interface turns debugging on again.
    s.set_debug_interface(8);
    assert!(!s.is_debugging_disabled());
    assert_eq!(s.get_debug_interface(None), Some(8));
}

#[test]
fn debug_state_keeps_detected() {
    let mut s: DebugState<u8> = DebugState::new();
    assert_eq!(s.get_debug_interface(Some(2)), Some(2));
    assert_eq!(s.get_debug_interface(Some(9)), Some(2));
    s.set_debug_interface(4);
    assert!(!s.is_debugging_disabled());
    assert_eq!(s.get_debug_interface(None), Some(4));
}

#[test]
fn detection_runs_once_and_keeps_its_result() {
    let mut d = DetectOnce::new();
    assert_eq!(d.cached_result(), None);
    assert!(d.record(true));
    assert_eq!(d.cached_result(), Some(true));
    // A later probe that finds nothing does not change the first answer.
    assert!(d.record(false));
    assert_eq!(d.cached_result(), Some(true));
    let mut e = DetectOnce::new();
    assert!(!e.record(false));
    assert!(!e.record(true));
    assert_eq!(e.cached_result(), Some(false));
}
