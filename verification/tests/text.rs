use tdf::decimal::push_decimal;
use tdf::kitty::Position;
use tdf::placeholder::{cursor_position_sequence, diacritics_table, shm_probe_name, unicode_placeholders};

fn s(v: Vec<char>) -> String {
    v.into_iter().collect()
}

#[test]
fn decimal_notation() {
    let mut out = vec!['x'];
    push_decimal(&mut out, 0);
    push_decimal(&mut out, 7);
    push_decimal(&mut out, 10);
    push_decimal(&mut out, 4294967295);
    assert_eq!(s(out), "x07104294967295");
}

#[test]
fn placeholders_for_one_row() {
    let text = s(unicode_placeholders(0x123456, Position { x: 2, y: 3 }, 2, 1));
    assert_eq!(
        text,
        "\x1b[4;3H\x1b[38;2;18;52;86m\u{10EEEE}\u{0305}\u{0305}\u{10EEEE}\u{0305}\u{030D}\x1b[0m"
    );
}

#[test]
fn placeholders_for_two_rows() {
    let text = s(unicode_placeholders(0x00ff0001, Position { x: 0, y: 0 }, 1, 2));
    assert_eq!(
        text,
        "\x1b[1;1H\x1b[38;2;255;0;1m\u{10EEEE}\u{0305}\u{0305}\x1b[2;1H\x1b[38;2;255;0;1m\u{10EEEE}\u{030D}\u{0305}\x1b[0m"
    );
}

#[test]
fn placeholders_colour_ignores_high_byte() {
    let a = unicode_placeholders(0xAB00_0102, Position { x: 5, y: 5 }, 1, 1);
    let b = unicode_placeholders(0x0000_0102, Position { x: 5, y: 5 }, 1, 1);
    assert_eq!(a, b);
}

#[test]
fn placeholders_without_cells_only_reset() {
    assert_eq!(s(unicode_placeholders(9, Position { x: 1, y: 1 }, 4, 0)), "\x1b[0m");
    assert_eq!(s(unicode_placeholders(9, Position { x: 1, y: 1 }, 0, 1)), "\x1b[2;2H\x1b[38;2;0;0;9m\x1b[0m");
}

#[test]
fn placeholder_diacritics_wrap_after_256() {
    let table = diacritics_table();
    let text = unicode_placeholders(1, Position { x: 0, y: 0 }, 258, 1);
    let cells: Vec<char> = text.iter().copied().skip_while(|c| *c != '\u{10EEEE}').collect();
    assert_eq!(cells.len(), 258 * 3 + 4);
    assert_eq!(cells[3 * 255 + 2], table[255]);
    assert_eq!(cells[3 * 256 + 2], table[0]);
    assert_eq!(cells[3 * 257 + 2], table[1]);
    assert_eq!(table[0], '\u{0305}');
    assert_eq!(table[255], '\u{A8E5}');
}

#[test]
fn largest_cell_coordinates() {
    let text = s(unicode_placeholders(0, Position { x: 65535, y: 65535 }, 0, 1));
    assert_eq!(text, "\x1b[65536;65536H\x1b[38;2;0;0;0m\x1b[0m");
}

#[test]
fn cursor_move_with_pane_offset() {
    assert_eq!(s(cursor_position_sequence(Position { x: 4, y: 9 }, 10, 20)), "\x1b[30;15H");
    assert_eq!(s(cursor_position_sequence(Position { x: 0, y: 0 }, 0, 0)), "\x1b[1;1H");
    assert_eq!(
        s(cursor_position_sequence(Position { x: 65535, y: 65535 }, 65535, 65535)),
        "\x1b[131071;131071H"
    );
}

#[test]
fn shm_probe_name_has_pid() {
    assert_eq!(s(shm_probe_name(1234)), "tdf_test_1234");
    assert_eq!(s(shm_probe_name(0)), "tdf_test_0");
}
