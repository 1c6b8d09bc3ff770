use tdf::kitty::TmuxPassthroughWriter;
use tdf::tmux::escape_bytes;

#[test]
fn escape_doubles_every_esc() {
    assert_eq!(escape_bytes(b"a\x1bb\x1b\x1b"), b"a\x1b\x1bb\x1b\x1b\x1b\x1b".to_vec());
    assert_eq!(escape_bytes(b"plain"), b"plain".to_vec());
    assert_eq!(escape_bytes(b""), Vec::<u8>::new());
}

#[test]
fn write_then_flush_wraps_in_passthrough() {
    let mut w = TmuxPassthroughWriter::new(());
    let mut out = w.write_bytes(b"\x1b]1337;SetProfile=NewProfileName\x07");
    assert!(w.active());
    out.extend(w.flush_bytes());
    assert!(!w.active());
    assert_eq!(
        String::from_utf8(out).unwrap(),
        "\x1bPtmux;\x1b\x1b]1337;SetProfile=NewProfileName\x07\x1b\\"
    );
}

#[test]
fn several_writes_share_one_sequence() {
    let mut w = TmuxPassthroughWriter::new(());
    let mut out = w.write_bytes(b"\x1b_Ga=T");
    out.extend(w.write_bytes(b";\x1b\\"));
    out.extend(w.flush_bytes());
    let mut whole = b"\x1bPtmux;".to_vec();
    whole.extend(escape_bytes(b"\x1b_Ga=T;\x1b\\"));
    whole.extend(b"\x1b\\");
    assert_eq!(out, whole);
}

#[test]
fn flush_without_write_sends_nothing() {
    let mut w = TmuxPassthroughWriter::new(());
    assert!(w.flush_bytes().is_empty());
    assert!(w.closing_bytes().is_empty());
}

#[test]
fn new_sequence_after_flush() {
    let mut w = TmuxPassthroughWriter::new(());
    let first = w.write_bytes(b"x");
    w.flush_bytes();
    let second = w.write_bytes(b"x");
    assert_eq!(first, second);
    assert_eq!(second, b"\x1bPtmux;x".to_vec());
}

#[test]
fn opening_and_closing_in_steps() {
    let mut w = TmuxPassthroughWriter::new(Vec::<u8>::new());
    assert_eq!(w.opening_bytes(), b"\x1bPtmux;".to_vec());
    w.mark_open();
    assert!(w.opening_bytes().is_empty());
    assert_eq!(w.closing_bytes(), b"\x1b\\".to_vec());
    w.get_mut().extend_from_slice(b"abc");
    w.mark_closed();
    assert!(w.closing_bytes().is_empty());
    assert_eq!(w.into_inner(), b"abc".to_vec());
}
