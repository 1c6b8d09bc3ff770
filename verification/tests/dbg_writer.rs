use tdf::kitty::DbgWriter;

#[test]
fn logs_valid_text_until_taken() {
    let mut w = DbgWriter::new(Vec::<u8>::new());
    w.record(b"\x1b_Ga=q;");
    w.record("\u{00e9}t\u{00e9}".as_bytes());
    assert_eq!(w.take_log(), "\x1b_Ga=q;\u{00e9}t\u{00e9}");
    assert_eq!(w.take_log(), "");
}

#[test]
fn invalid_utf8_is_not_logged() {
    let mut w = DbgWriter::new(());
    w.record(b"ok ");
    w.record(&[0xff, 0xfe, 0x41]);
    w.record(&[0xe2, 0x82]);
    w.record(b"end");
    assert_eq!(w.take_log(), "ok end");
}

#[test]
fn inner_writer_is_reachable() {
    let mut w = DbgWriter::new(Vec::<u8>::new());
    w.get_mut().push(7);
    w.record(b"x");
    assert_eq!(w.into_inner(), vec![7u8]);
}
