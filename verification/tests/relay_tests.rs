use serial_relay::keyboard::{chunk_has_exit, chunk_of_read, EXIT_BYTE};
use serial_relay::relay::{Action, Event, Outcome, Session};

fn expect_display(a: Action) -> String {
    match a {
        Action::Display(t) => t,
        Action::Forward(_) => panic!("expected a display action, got a forward"),
        Action::Stop(_) => panic!("expected a display action, got a stop"),
    }
}

fn expect_forward(a: Action) -> Vec<u8> {
    match a {
        Action::Forward(b) => b,
        Action::Display(_) => panic!("expected a forward action, got a display"),
        Action::Stop(_) => panic!("expected a forward action, got a stop"),
    }
}

fn expect_stop(a: Action) -> Outcome {
    match a {
        Action::Stop(o) => o,
        Action::Display(_) => panic!("expected a stop action, got a display"),
        Action::Forward(_) => panic!("expected a stop action, got a forward"),
    }
}

#[test]
fn new_session_is_running() {
    let s = Session::new();
    assert!(s.is_running());
    assert_eq!(s.outcome(), None);
}

#[test]
fn exit_byte_value_is_group_separator() {
    assert_eq!(EXIT_BYTE, 29);
}

#[test]
fn serial_bytes_displayed_verbatim() {
    // Device produces b"Hi\n" and then blocks: the screen shows exactly Hi\n.
    let mut s = Session::new();
    let text = expect_display(s.handle(Event::SerialData(b"Hi\n".to_vec())));
    assert_eq!(text, "Hi\n");
    assert!(s.is_running());
    assert_eq!(s.outcome(), None);
}

#[test]
fn serial_bytes_displayed_in_order() {
    let mut s = Session::new();
    let first = expect_display(s.handle(Event::SerialData(b"one ".to_vec())));
    let second = expect_display(s.handle(Event::SerialData(b"two".to_vec())));
    assert_eq!(format!("{first}{second}"), "one two");
    assert!(s.is_running());
}

#[test]
fn invalid_utf8_bytes_displayed_as_replacement() {
    let mut s = Session::new();
    let text = expect_display(s.handle(Event::SerialData(vec![0xFF, 0xFE])));
    assert_eq!(text, "\u{FFFD}\u{FFFD}");
    assert!(s.is_running());
}

#[test]
fn truncated_utf8_sequence_displayed_as_replacement() {
    // 0xE2 0x82 is the start of a three-byte sequence cut off by the read
    // boundary: it becomes one replacement character, never an error.
    let mut s = Session::new();
    let text = expect_display(s.handle(Event::SerialData(vec![b'H', b'i', 0xE2, 0x82])));
    assert_eq!(text, "Hi\u{FFFD}");
    assert!(s.is_running());
}

#[test]
fn keyboard_chunks_forwarded_in_order() {
    // User types a, then b, then the exit byte: the serial writer receives
    // exactly a then b as two writes, never the exit byte, and the session
    // then ends cleanly.
    let mut s = Session::new();
    assert_eq!(expect_forward(s.handle(Event::Keyboard(vec![b'a']))), vec![b'a']);
    assert_eq!(expect_forward(s.handle(Event::Keyboard(vec![b'b']))), vec![b'b']);
    assert!(s.is_running());
    assert_eq!(expect_stop(s.handle(Event::Keyboard(vec![29]))), Outcome::CleanExit);
    assert!(!s.is_running());
    assert_eq!(s.outcome(), Some(Outcome::CleanExit));
}

#[test]
fn batched_chunk_forwarded_whole() {
    let mut s = Session::new();
    assert_eq!(expect_forward(s.handle(Event::Keyboard(vec![b'a', b'b']))), vec![b'a', b'b']);
    assert!(s.is_running());
}

#[test]
fn empty_keyboard_chunk_forwarded_and_session_continues() {
    let mut s = Session::new();
    assert_eq!(expect_forward(s.handle(Event::Keyboard(Vec::new()))), Vec::<u8>::new());
    assert!(s.is_running());
}

#[test]
fn exit_byte_mid_chunk_forwards_nothing() {
    // The exit keystroke supersedes any trailing bytes batched with it.
    let mut s = Session::new();
    assert_eq!(
        expect_stop(s.handle(Event::Keyboard(vec![b'a', 29, b'b']))),
        Outcome::CleanExit
    );
    assert_eq!(s.outcome(), Some(Outcome::CleanExit));
}

#[test]
fn exit_byte_at_chunk_end_forwards_nothing() {
    let mut s = Session::new();
    assert_eq!(
        expect_stop(s.handle(Event::Keyboard(vec![b'a', b'b', 29]))),
        Outcome::CleanExit
    );
}

#[test]
fn serial_error_ends_session_as_failure() {
    let mut s = Session::new();
    assert_eq!(expect_stop(s.handle(Event::SerialError)), Outcome::Failed);
    assert!(!s.is_running());
    assert_eq!(s.outcome(), Some(Outcome::Failed));
}

#[test]
fn closed_serial_stream_ends_session_as_failure() {
    // A zero-byte read (clean stream closure) is routed through the same
    // branch as an explicit read error.
    let mut s = Session::new();
    assert_eq!(expect_stop(s.handle(Event::SerialData(Vec::new()))), Outcome::Failed);
    assert_eq!(s.outcome(), Some(Outcome::Failed));
}

#[test]
fn serial_write_failure_ends_session_as_failure() {
    let mut s = Session::new();
    assert_eq!(expect_stop(s.handle(Event::SerialWriteFailed)), Outcome::Failed);
    assert_eq!(s.outcome(), Some(Outcome::Failed));
}

#[test]
fn chunk_has_exit_finds_byte_anywhere() {
    assert!(!chunk_has_exit(&Vec::new()));
    assert!(!chunk_has_exit(&vec![b'a', b'b', b'c']));
    assert!(chunk_has_exit(&vec![29]));
    assert!(chunk_has_exit(&vec![29, b'a', b'b']));
    assert!(chunk_has_exit(&vec![b'a', 29, b'b']));
    assert!(chunk_has_exit(&vec![b'a', b'b', 29]));
}

#[test]
fn chunk_of_read_copies_exactly_the_bytes_read() {
    let buf = [1u8, 2, 3, 4];
    assert_eq!(chunk_of_read(&buf, 0), Vec::<u8>::new());
    assert_eq!(chunk_of_read(&buf, 2), vec![1, 2]);
    assert_eq!(chunk_of_read(&buf, 4), vec![1, 2, 3, 4]);
}
