use forth_console::editor::{LineEditor, Step};
use forth_console::errors::{dispatch_echo, err2str, reply, ErrorKind};

fn feed_all(ed: &mut LineEditor, bytes: &[u8]) -> Vec<Step> {
    bytes.iter().map(|b| ed.feed(*b)).collect()
}

#[test]
fn printable_bytes_are_echoed_and_kept() {
    let mut ed = LineEditor::new();
    let steps = feed_all(&mut ed, b"ab");
    assert_eq!(steps, vec![Step::Echo(b"a".to_vec()), Step::Echo(b"b".to_vec())]);
    assert_eq!(ed.as_bytes(), b"ab");
}

#[test]
fn carriage_return_dispatches_the_line_and_empties_it() {
    let mut ed = LineEditor::new();
    let steps = feed_all(&mut ed, b"3 4 + .\r");
    assert_eq!(steps.last(), Some(&Step::Dispatch(b"3 4 + .".to_vec())));
    assert_eq!(ed.as_bytes(), b"");
}

#[test]
fn line_feed_dispatches_too() {
    let mut ed = LineEditor::new();
    feed_all(&mut ed, b"dup");
    assert_eq!(ed.feed(b'\n'), Step::Dispatch(b"dup".to_vec()));
    assert_eq!(ed.feed(b'\n'), Step::Dispatch(Vec::new()));
}

#[test]
fn dispatch_carries_only_bytes_since_last_dispatch() {
    let mut ed = LineEditor::new();
    feed_all(&mut ed, b"one\r");
    let steps = feed_all(&mut ed, b"two\x7fo\r");
    assert_eq!(steps.last(), Some(&Step::Dispatch(b"two".to_vec())));
}

#[test]
fn clear_drops_the_partial_line() {
    let mut ed = LineEditor::new();
    feed_all(&mut ed, b"abc");
    ed.clear();
    assert_eq!(ed.feed(b'\r'), Step::Dispatch(Vec::new()));
}

#[test]
fn backspace_on_empty_line_echoes_nothing() {
    let mut ed = LineEditor::new();
    assert_eq!(ed.feed(0x08), Step::Echo(Vec::new()));
    assert_eq!(ed.feed(0x7f), Step::Echo(Vec::new()));
    assert_eq!(ed.as_bytes(), b"");
}

#[test]
fn backspace_erases_last_byte() {
    let mut ed = LineEditor::new();
    feed_all(&mut ed, b"xy");
    assert_eq!(ed.feed(0x08), Step::Echo(vec![0x08, b' ', 0x08]));
    assert_eq!(ed.as_bytes(), b"x");
    assert_eq!(ed.feed(0x7f), Step::Echo(vec![0x08, b' ', 0x08]));
    assert_eq!(ed.as_bytes(), b"");
}

#[test]
fn control_and_non_ascii_bytes_are_echoed_in_hex() {
    let mut ed = LineEditor::new();
    assert_eq!(ed.feed(0x01), Step::Echo(b"?01?".to_vec()));
    assert_eq!(ed.feed(0x1b), Step::Echo(b"?1B?".to_vec()));
    assert_eq!(ed.feed(0xab), Step::Echo(b"?AB?".to_vec()));
    assert_eq!(ed.feed(0xff), Step::Echo(b"?FF?".to_vec()));
    assert_eq!(ed.feed(0x09), Step::Echo(b"?09?".to_vec()));
    assert_eq!(ed.as_bytes(), b"");
}

#[test]
fn full_line_buffer_reports_overflow() {
    let mut ed = LineEditor::new();
    for _ in 0..128 {
        assert_eq!(ed.feed(b'a'), Step::Echo(b"a".to_vec()));
    }
    assert_eq!(ed.feed(b'b'), Step::Overflow);
    assert_eq!(ed.as_bytes().len(), 128);
    assert_eq!(ed.feed(0x08), Step::Echo(vec![0x08, b' ', 0x08]));
    assert_eq!(ed.feed(b'b'), Step::Echo(b"b".to_vec()));
    assert_eq!(ed.as_bytes().last(), Some(&b'b'));
}

#[test]
fn successful_line_reply_ends_with_carriage_return() {
    assert_eq!(dispatch_echo(), b"\r\n".to_vec());
    assert_eq!(reply(b"7", None), b"7\r".to_vec());
    assert_eq!(reply(b"", None), b"\r".to_vec());
}

#[test]
fn failed_line_reply_names_the_error() {
    assert_eq!(
        reply(b"", Some(ErrorKind::WordNotInDict)),
        b"ERROR\r\nWordNotInDict\r\n".to_vec()
    );
    assert_eq!(
        reply(b"ignored", Some(ErrorKind::StackEmpty)),
        b"ERROR\r\nStackEmpty\r\n".to_vec()
    );
}

#[test]
fn typed_line_round_trip_with_interpreter_output() {
    let mut ed = LineEditor::new();
    let mut out: Vec<u8> = Vec::new();
    for b in b"3 4 + .\r" {
        match ed.feed(*b) {
            Step::Echo(e) => out.extend(e),
            Step::Dispatch(line) => {
                assert_eq!(line, b"3 4 + .".to_vec());
                out.extend(dispatch_echo());
                out.extend(reply(b"7", None));
            }
            Step::Overflow => panic!("unexpected overflow"),
        }
    }
    assert_eq!(out, b"3 4 + .\r\n7\r".to_vec());
}

#[test]
fn undefined_word_round_trip() {
    let mut ed = LineEditor::new();
    let mut out: Vec<u8> = Vec::new();
    for b in b"foo\r" {
        match ed.feed(*b) {
            Step::Echo(e) => out.extend(e),
            Step::Dispatch(line) => {
                assert_eq!(line, b"foo".to_vec());
                out.extend(reply(b"", Some(ErrorKind::WordNotInDict)));
            }
            Step::Overflow => panic!("unexpected overflow"),
        }
    }
    assert_eq!(out, b"fooERROR\r\nWordNotInDict\r\n".to_vec());
}

#[test]
fn error_names_match_their_kinds() {
    assert_eq!(err2str(&ErrorKind::StackFull), "StackFull");
    assert_eq!(err2str(&ErrorKind::DivideByZero), "DivideByZero");
    assert_eq!(err2str(&ErrorKind::CantForgetBuiltins), "CantForgetBuiltins");
    assert_eq!(err2str(&ErrorKind::PendingCallAgain), "PendingCallAgain");
    assert_eq!(err2str(&ErrorKind::BadLiteral), "BadLiteral");
}
