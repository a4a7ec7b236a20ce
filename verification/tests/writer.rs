use core::fmt::Write;
use vga_buffer::{
    console_writer, Buffer, Color, ColorCode, ScreenChar, Writer, BUFFER_HEIGHT, BUFFER_WIDTH,
};
use volatile::Volatile;

const BOTTOM: usize = BUFFER_HEIGHT - 1;

/// A grid that holds the given cell everywhere, kept for the rest of the run.
fn grid_of(cell: ScreenChar) -> &'static mut Buffer {
    let bytes: [u8; 2] = cell.to_bytes();
    let grid: Buffer = core::array::from_fn(|_| core::array::from_fn(|_| Volatile::new(bytes)));
    Box::leak(Box::new(grid))
}

fn dot() -> ScreenChar {
    ScreenChar { ascii_character: b'.', color_code: ColorCode(0x07) }
}

/// A green-on-black writer over a grid of grey dots.
fn writer() -> Writer {
    console_writer(grid_of(dot()))
}

fn green(byte: u8) -> ScreenChar {
    ScreenChar { ascii_character: byte, color_code: ColorCode(0x02) }
}

fn row(writer: &Writer, row: usize) -> Vec<ScreenChar> {
    (0..BUFFER_WIDTH).map(|column| writer.cell(row, column).unwrap()).collect()
}

/// Text of `length` printable bytes, each different from its neighbours.
fn printable(length: usize, first: u8) -> String {
    (0..length).map(|i| (0x20 + (first as usize + i) % 0x5f) as u8 as char).collect()
}

#[test]
fn a_new_writer_keeps_the_cells_of_its_grid() {
    let cell = ScreenChar { ascii_character: b'X', color_code: ColorCode(0x1f) };
    let writer = Writer::new(ColorCode(0x4f), grid_of(cell));
    assert_eq!(writer.column_position(), 0);
    assert_eq!(writer.color_code(), ColorCode(0x4f));
    for r in 0..BUFFER_HEIGHT {
        for c in 0..BUFFER_WIDTH {
            assert_eq!(writer.cell(r, c), Some(cell));
        }
    }
}

#[test]
fn the_console_writer_is_green_on_black() {
    let writer = writer();
    assert_eq!(writer.color_code(), ColorCode::new(Color::Green, Color::Black));
    assert_eq!(writer.color_code(), ColorCode(0x02));
    assert_eq!(writer.column_position(), 0);
}

#[test]
fn there_is_no_cell_outside_the_grid() {
    let writer = writer();
    assert_eq!(writer.cell(BUFFER_HEIGHT, 0), None);
    assert_eq!(writer.cell(0, BUFFER_WIDTH), None);
    assert_eq!(writer.cell(usize::MAX, usize::MAX), None);
    assert_eq!(writer.cell(BOTTOM, BUFFER_WIDTH - 1), Some(dot()));
}

#[test]
fn a_cell_is_its_character_then_its_attribute() {
    let cell = ScreenChar { ascii_character: b'A', color_code: ColorCode(0x4f) };
    assert_eq!(cell.to_bytes(), [0x41, 0x4f]);
    assert_eq!(ScreenChar::from_bytes([0x41, 0x4f]), cell);
    assert_eq!(ScreenChar::from_bytes(cell.to_bytes()), cell);
}

#[test]
fn write_byte_places_the_byte_and_moves_right() {
    let mut writer = writer();
    writer.write_byte(b'H');
    assert_eq!(writer.column_position(), 1);
    assert_eq!(writer.cell(BOTTOM, 0), Some(green(b'H')));
    assert_eq!(writer.cell(BOTTOM, 1), Some(dot()));
    writer.write_byte(b'i');
    assert_eq!(writer.column_position(), 2);
    assert_eq!(writer.cell(BOTTOM, 0), Some(green(b'H')));
    assert_eq!(writer.cell(BOTTOM, 1), Some(green(b'i')));
    for r in 0..BOTTOM {
        assert_eq!(row(&writer, r), vec![dot(); BUFFER_WIDTH]);
    }
}

#[test]
fn write_byte_shows_any_byte_as_it_is() {
    let mut writer = writer();
    writer.write_byte(0x01);
    writer.write_byte(0xfe);
    writer.write_byte(0xff);
    assert_eq!(writer.cell(BOTTOM, 0), Some(green(0x01)));
    assert_eq!(writer.cell(BOTTOM, 1), Some(green(0xfe)));
    assert_eq!(writer.cell(BOTTOM, 2), Some(green(0xff)));
    assert_eq!(writer.column_position(), 3);
}

#[test]
fn short_printable_text_stands_on_the_bottom_row() {
    let mut writer = writer();
    writer.write_string("Hello, World!");
    assert_eq!(writer.column_position(), 13);
    for (i, byte) in "Hello, World!".bytes().enumerate() {
        assert_eq!(writer.cell(BOTTOM, i), Some(green(byte)));
    }
    for c in 13..BUFFER_WIDTH {
        assert_eq!(writer.cell(BOTTOM, c), Some(dot()));
    }
    for r in 0..BOTTOM {
        assert_eq!(row(&writer, r), vec![dot(); BUFFER_WIDTH]);
    }
}

#[test]
fn text_of_79_bytes_fits_without_a_scroll() {
    let mut writer = writer();
    let text = printable(79, 0);
    writer.write_string(&text);
    assert_eq!(writer.column_position(), 79);
    for (i, byte) in text.bytes().enumerate() {
        assert_eq!(writer.cell(BOTTOM, i), Some(green(byte)));
    }
    assert_eq!(writer.cell(BOTTOM, 79), Some(dot()));
    assert_eq!(row(&writer, BOTTOM - 1), vec![dot(); BUFFER_WIDTH]);
}

#[test]
fn every_printable_byte_is_written_as_it_is() {
    for byte in 0x20u8..=0x7e {
        let mut writer = writer();
        let text = String::from(byte as char);
        writer.write_string(&text);
        assert_eq!(writer.cell(BOTTOM, 0), Some(green(byte)));
        assert_eq!(writer.column_position(), 1);
    }
}

#[test]
fn the_empty_text_changes_nothing() {
    let mut writer = writer();
    writer.write_string("ab");
    writer.write_string("");
    assert_eq!(writer.column_position(), 2);
    assert_eq!(writer.cell(BOTTOM, 0), Some(green(b'a')));
    assert_eq!(writer.cell(BOTTOM, 1), Some(green(b'b')));
    assert_eq!(writer.cell(BOTTOM, 2), Some(dot()));
}

#[test]
fn unprintable_bytes_are_shown_as_the_placeholder() {
    for byte in (0x00u8..0x20).chain(0x7f..=0x7f) {
        if byte == b'\n' {
            continue;
        }
        let mut writer = writer();
        let text = String::from(byte as char);
        writer.write_string(&text);
        assert_eq!(writer.cell(BOTTOM, 0), Some(green(0xfe)));
        assert_eq!(writer.column_position(), 1);
    }
}

#[test]
fn each_byte_of_a_character_beyond_ascii_is_a_placeholder() {
    let mut writer = writer();
    writer.write_string("a\u{e9}b\u{20ac}c");
    let expected: [u8; 8] = [b'a', 0xfe, 0xfe, b'b', 0xfe, 0xfe, 0xfe, b'c'];
    assert_eq!(writer.column_position(), 8);
    for (i, byte) in expected.into_iter().enumerate() {
        assert_eq!(writer.cell(BOTTOM, i), Some(green(byte)));
    }
}

#[test]
fn a_tab_is_a_placeholder_and_not_a_tab() {
    let mut writer = writer();
    writer.write_string("\t");
    assert_eq!(writer.cell(BOTTOM, 0).unwrap().ascii_character, 0xfe);
    assert_ne!(writer.cell(BOTTOM, 0).unwrap().ascii_character, b'\t');
}

#[test]
fn a_full_row_stays_until_the_next_byte() {
    let mut writer = writer();
    let text = printable(80, 3);
    writer.write_string(&text);
    assert_eq!(writer.column_position(), 80);
    for (i, byte) in text.bytes().enumerate() {
        assert_eq!(writer.cell(BOTTOM, i), Some(green(byte)));
    }
    assert_eq!(row(&writer, BOTTOM - 1), vec![dot(); BUFFER_WIDTH]);
}

#[test]
fn the_81st_byte_scrolls_and_starts_the_next_row() {
    let mut writer = writer();
    let text = printable(80, 7);
    writer.write_string(&text);
    writer.write_string("!");
    assert_eq!(writer.column_position(), 1);
    for (i, byte) in text.bytes().enumerate() {
        assert_eq!(writer.cell(BOTTOM - 1, i), Some(green(byte)));
    }
    assert_eq!(writer.cell(BOTTOM, 0), Some(green(b'!')));
    for c in 1..BUFFER_WIDTH {
        assert_eq!(writer.cell(BOTTOM, c), Some(green(b' ')));
    }
    for r in 0..BOTTOM - 1 {
        assert_eq!(row(&writer, r), vec![dot(); BUFFER_WIDTH]);
    }
}

#[test]
fn write_byte_on_a_full_row_scrolls_first() {
    let mut writer = writer();
    for _ in 0..BUFFER_WIDTH {
        writer.write_byte(b'x');
    }
    assert_eq!(writer.column_position(), BUFFER_WIDTH);
    writer.write_byte(b'y');
    assert_eq!(writer.column_position(), 1);
    assert_eq!(row(&writer, BOTTOM - 1), vec![green(b'x'); BUFFER_WIDTH]);
    assert_eq!(writer.cell(BOTTOM, 0), Some(green(b'y')));
    assert_eq!(writer.cell(BOTTOM, 1), Some(green(b' ')));
}

#[test]
fn a_newline_scrolls_and_leaves_a_blank_row() {
    let mut writer = writer();
    writer.write_string("abc");
    writer.write_string("\n");
    assert_eq!(writer.column_position(), 0);
    assert_eq!(writer.cell(BOTTOM - 1, 0), Some(green(b'a')));
    assert_eq!(writer.cell(BOTTOM - 1, 1), Some(green(b'b')));
    assert_eq!(writer.cell(BOTTOM - 1, 2), Some(green(b'c')));
    assert_eq!(writer.cell(BOTTOM - 1, 3), Some(dot()));
    assert_eq!(row(&writer, BOTTOM), vec![green(b' '); BUFFER_WIDTH]);
    writer.write_string("d");
    assert_eq!(writer.cell(BOTTOM, 0), Some(green(b'd')));
    for c in 1..BUFFER_WIDTH {
        assert_eq!(writer.cell(BOTTOM, c), Some(green(b' ')));
    }
}

#[test]
fn write_byte_of_a_newline_is_a_new_line() {
    let mut writer = writer();
    writer.write_byte(b'a');
    writer.write_byte(b'\n');
    assert_eq!(writer.column_position(), 0);
    assert_eq!(writer.cell(BOTTOM - 1, 0), Some(green(b'a')));
    assert_eq!(row(&writer, BOTTOM), vec![green(b' '); BUFFER_WIDTH]);
}

#[test]
fn a_newline_on_a_full_row_scrolls_once() {
    let mut writer = writer();
    let text = printable(80, 11);
    writer.write_string(&text);
    writer.write_string("\n");
    assert_eq!(writer.column_position(), 0);
    for (i, byte) in text.bytes().enumerate() {
        assert_eq!(writer.cell(BOTTOM - 1, i), Some(green(byte)));
    }
    assert_eq!(row(&writer, BOTTOM), vec![green(b' '); BUFFER_WIDTH]);
    assert_eq!(row(&writer, BOTTOM - 2), vec![dot(); BUFFER_WIDTH]);
}

#[test]
fn new_line_moves_every_row_up_and_drops_the_top() {
    let mut writer = writer();
    for line in 0..BUFFER_HEIGHT {
        writer.write_byte(b'A' + line as u8);
        writer.new_line();
    }
    // Lines A..Y were written; A has scrolled off, Y stands above the blank row.
    for r in 0..BOTTOM {
        assert_eq!(writer.cell(r, 0), Some(green(b'B' + r as u8)));
        for c in 1..BUFFER_WIDTH {
            assert_eq!(writer.cell(r, c), Some(green(b' ')));
        }
    }
    assert_eq!(row(&writer, BOTTOM), vec![green(b' '); BUFFER_WIDTH]);
    assert_eq!(writer.column_position(), 0);
}

#[test]
fn clear_row_blanks_that_row_only() {
    let mut writer = writer();
    writer.write_string("abc");
    writer.clear_row(5);
    assert_eq!(row(&writer, 5), vec![green(b' '); BUFFER_WIDTH]);
    assert_eq!(row(&writer, 4), vec![dot(); BUFFER_WIDTH]);
    assert_eq!(row(&writer, 6), vec![dot(); BUFFER_WIDTH]);
    assert_eq!(writer.cell(BOTTOM, 0), Some(green(b'a')));
    assert_eq!(writer.column_position(), 3);
    writer.clear_row(BOTTOM);
    assert_eq!(row(&writer, BOTTOM), vec![green(b' '); BUFFER_WIDTH]);
    assert_eq!(writer.column_position(), 3);
    writer.clear_row(0);
    assert_eq!(row(&writer, 0), vec![green(b' '); BUFFER_WIDTH]);
}

#[test]
fn clearing_twice_is_clearing_once() {
    let mut once = writer();
    once.write_string("abc");
    once.clear_row(BOTTOM);
    let mut twice = writer();
    twice.write_string("abc");
    twice.clear_row(BOTTOM);
    twice.clear_row(BOTTOM);
    for r in 0..BUFFER_HEIGHT {
        assert_eq!(row(&once, r), row(&twice, r));
    }
    assert_eq!(once.column_position(), twice.column_position());
    assert_eq!(row(&twice, BOTTOM), vec![green(b' '); BUFFER_WIDTH]);
}

#[test]
fn blanks_carry_the_attribute_of_the_writer() {
    let mut writer = Writer::new(ColorCode::new(Color::White, Color::Red), grid_of(dot()));
    writer.write_string("x\n");
    let blank = ScreenChar { ascii_character: b' ', color_code: ColorCode(0x4f) };
    assert_eq!(row(&writer, BOTTOM), vec![blank; BUFFER_WIDTH]);
    assert_eq!(
        writer.cell(BOTTOM - 1, 0),
        Some(ScreenChar { ascii_character: b'x', color_code: ColorCode(0x4f) })
    );
}

#[test]
fn writing_in_two_parts_is_writing_the_whole() {
    let text = printable(200, 5) + "\n\u{7f}tail";
    let mut whole = writer();
    whole.write_string(&text);
    let mut parts = writer();
    parts.write_string(&text[..93]);
    parts.write_string(&text[93..]);
    for r in 0..BUFFER_HEIGHT {
        assert_eq!(row(&whole, r), row(&parts, r));
    }
    assert_eq!(whole.column_position(), parts.column_position());
}

#[test]
fn write_str_writes_as_write_string_does() {
    let mut writer = writer();
    assert!(writer.write_str("ok\u{1}").is_ok());
    assert_eq!(writer.column_position(), 3);
    assert_eq!(writer.cell(BOTTOM, 0), Some(green(b'o')));
    assert_eq!(writer.cell(BOTTOM, 1), Some(green(b'k')));
    assert_eq!(writer.cell(BOTTOM, 2), Some(green(0xfe)));
}
