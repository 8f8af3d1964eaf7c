//! Behavioral tests of the text writer: cursor movement, wrapping,
//! scrolling, substitution and color handling.

use vga_text::buffer::{BUFFER_HEIGHT, BUFFER_WIDTH};
use vga_text::color::{Color, ColorCode};
use vga_text::qemu::QemuExitCode;
use vga_text::writer::{_print, get_color_code, rainbow_print, set_color_code, Writer};

const DEFAULT_ATTR: u8 = 0x0f;

#[test]
fn default_writer_is_blank() {
    let w = Writer::default();
    assert_eq!(w.cursor_row(), 0);
    assert_eq!(w.cursor_column(), 0);
    assert_eq!(w.get_color_code().0, DEFAULT_ATTR);
    for y in 0..BUFFER_HEIGHT {
        for x in 0..BUFFER_WIDTH {
            let c = w.read_cell(y, x);
            assert_eq!(c.ascii_value, 0);
            assert_eq!(c.color_code.0, DEFAULT_ATTR);
        }
    }
}

#[test]
fn printable_char_gets_current_color() {
    let mut w = Writer::default();
    let attr = ColorCode::new(Color::Yellow, Color::Blue);
    w.set_color_code(attr);
    w.write_byte(b'x');
    let c = w.read_cell(0, 0);
    assert_eq!(c.ascii_value, b'x');
    assert_eq!(c.color_code, attr);
    assert_eq!(w.cursor_row(), 0);
    assert_eq!(w.cursor_column(), 1);
}

#[test]
fn unprintable_byte_becomes_placeholder() {
    let mut w = Writer::default();
    w.write_str("\x01");
    assert_eq!(w.read_cell(0, 0).ascii_value, 0x7e);
    // A two-byte character is substituted byte by byte, never dropped.
    let mut w2 = Writer::default();
    w2.write_str("\u{80}");
    assert_eq!(w2.read_cell(0, 0).ascii_value, 0x7e);
    assert_eq!(w2.read_cell(0, 1).ascii_value, 0x7e);
    assert_eq!(w2.cursor_column(), 2);
}

#[test]
fn carriage_return_resets_column_only() {
    let mut w = Writer::default();
    w.write_byte(b'a');
    w.write_byte(b'b');
    assert_eq!(w.cursor_column(), 2);
    w.write_byte(b'\r');
    assert_eq!(w.cursor_row(), 0);
    assert_eq!(w.cursor_column(), 0);
    w.write_byte(b'c');
    assert_eq!(w.read_cell(0, 0).ascii_value, b'c');
    assert_eq!(w.read_cell(0, 1).ascii_value, b'b');
}

#[test]
fn newline_resets_column_and_moves_down_one_row() {
    let mut w = Writer::default();
    w.write_str("abc");
    assert_eq!(w.cursor_column(), 3);
    w.write_byte(b'\n');
    assert_eq!(w.cursor_row(), 1);
    assert_eq!(w.cursor_column(), 0);
}

#[test]
fn full_line_then_one_more_wraps() {
    // Writing exactly one full row of "A" and then a "B": row 0 is all
    // "A", row 1 holds the "B" followed by blanks, cursor at (1, 1).
    let mut w = Writer::default();
    let line = "A".repeat(BUFFER_WIDTH);
    w.write_str(&line);
    assert_eq!(w.cursor_row(), 0);
    assert_eq!(w.cursor_column(), BUFFER_WIDTH);
    w.write_str("B");
    assert_eq!(w.cursor_row(), 1);
    assert_eq!(w.cursor_column(), 1);
    for x in 0..BUFFER_WIDTH {
        assert_eq!(w.read_cell(0, x).ascii_value, b'A');
    }
    assert_eq!(w.read_cell(1, 0).ascii_value, b'B');
    for x in 1..BUFFER_WIDTH {
        assert_eq!(w.read_cell(1, x).ascii_value, 0);
        assert_eq!(w.read_cell(1, x).color_code.0, DEFAULT_ATTR);
    }
}

#[test]
fn scroll_shifts_every_row_up_and_discards_top() {
    let mut w = Writer::default();
    // One distinct letter per row: "A" on row 0 down to "Y" on row 24.
    for r in 0..BUFFER_HEIGHT {
        w.write_byte(b'A' + r as u8);
        if r < BUFFER_HEIGHT - 1 {
            w.write_byte(b'\n');
        }
    }
    assert_eq!(w.cursor_row(), BUFFER_HEIGHT - 1);
    w.write_byte(b'\n');
    // Every row now holds what was one row below it; the old top row's
    // "A" is gone and the last row is blank.
    assert_eq!(w.cursor_row(), BUFFER_HEIGHT - 1);
    assert_eq!(w.cursor_column(), 0);
    for r in 0..BUFFER_HEIGHT - 1 {
        assert_eq!(w.read_cell(r, 0).ascii_value, b'B' + r as u8);
    }
    for x in 0..BUFFER_WIDTH {
        assert_eq!(w.read_cell(BUFFER_HEIGHT - 1, x).ascii_value, 0);
        assert_eq!(w.read_cell(BUFFER_HEIGHT - 1, x).color_code.0, DEFAULT_ATTR);
    }
}

#[test]
fn scroll_blanks_with_default_attribute_not_pen_color() {
    let mut w = Writer::default();
    w.set_color_code(ColorCode::new(Color::White, Color::Red));
    for _ in 0..BUFFER_HEIGHT {
        w.write_byte(b'\n');
    }
    // The cursor sat on the last row, so the last newline scrolled; the
    // cleared row is blank under the default attribute, not the red pen.
    for x in 0..BUFFER_WIDTH {
        let c = w.read_cell(BUFFER_HEIGHT - 1, x);
        assert_eq!(c.ascii_value, 0);
        assert_eq!(c.color_code.0, DEFAULT_ATTR);
    }
}

#[test]
fn clear_row_twice_equals_clear_row_once() {
    let mut w = Writer::default();
    w.set_color_code(ColorCode::new(Color::Pink, Color::Green));
    w.write_str("some text to be wiped");
    w.clear_row(0);
    let after_once: Vec<(u8, u8)> = (0..BUFFER_WIDTH)
        .map(|x| {
            let c = w.read_cell(0, x);
            (c.ascii_value, c.color_code.0)
        })
        .collect();
    w.clear_row(0);
    let after_twice: Vec<(u8, u8)> = (0..BUFFER_WIDTH)
        .map(|x| {
            let c = w.read_cell(0, x);
            (c.ascii_value, c.color_code.0)
        })
        .collect();
    assert_eq!(after_once, after_twice);
    for (ascii, attr) in after_once {
        assert_eq!(ascii, 0);
        assert_eq!(attr, DEFAULT_ATTR);
    }
}

#[test]
fn color_persists_across_writes() {
    let mut w = Writer::default();
    let attr = ColorCode::new(Color::LightCyan, Color::DarkGray);
    w.set_color_code(attr);
    w.write_byte(b'X');
    w.write_byte(b'Y');
    assert_eq!(w.read_cell(0, 0).color_code, attr);
    assert_eq!(w.read_cell(0, 1).color_code, attr);
}

#[test]
fn twenty_five_newlines_leave_screen_blank() {
    let mut w = Writer::default();
    for _ in 0..25 {
        w.write_byte(b'\n');
    }
    assert_eq!(w.cursor_row(), 24);
    assert_eq!(w.cursor_column(), 0);
    for y in 0..BUFFER_HEIGHT {
        for x in 0..BUFFER_WIDTH {
            assert_eq!(w.read_cell(y, x).ascii_value, 0);
        }
    }
}

#[test]
fn write_at_bottom_right_scrolls() {
    let mut w = Writer::default();
    let screenful = "F".repeat(BUFFER_HEIGHT * BUFFER_WIDTH);
    w.write_str(&screenful);
    assert_eq!(w.cursor_row(), BUFFER_HEIGHT - 1);
    assert_eq!(w.cursor_column(), BUFFER_WIDTH);
    w.write_byte(b'G');
    // The full screen scrolled once more and the byte landed at the start
    // of the (still bottom) row.
    assert_eq!(w.cursor_row(), BUFFER_HEIGHT - 1);
    assert_eq!(w.cursor_column(), 1);
    assert_eq!(w.read_cell(BUFFER_HEIGHT - 1, 0).ascii_value, b'G');
    assert_eq!(w.read_cell(BUFFER_HEIGHT - 2, 0).ascii_value, b'F');
}

#[test]
fn color_code_packs_nibbles() {
    assert_eq!(ColorCode::new(Color::Yellow, Color::Blue).0, 0x1e);
    assert_eq!(ColorCode::new(Color::White, Color::Black).0, 0x0f);
    assert_eq!(ColorCode::new(Color::Black, Color::White).0, 0xf0);
    assert_eq!(ColorCode::new(Color::LightRed, Color::Cyan).0, 0x3c);
    assert_eq!(ColorCode::default().0, DEFAULT_ATTR);
}

#[test]
fn color_values_match_hardware_codes() {
    assert_eq!(Color::Black.value(), 0x0);
    assert_eq!(Color::Blue.value(), 0x1);
    assert_eq!(Color::LightGray.value(), 0x7);
    assert_eq!(Color::White.value(), 0xf);
}

#[test]
fn screen_char_wire_format() {
    let mut w = Writer::default();
    w.set_color_code(ColorCode::new(Color::Green, Color::Black));
    w.write_byte(b'Q');
    let (ascii, attr) = w.read_cell(0, 0).to_bytes();
    assert_eq!(ascii, b'Q');
    assert_eq!(attr, 0x02);
}

#[test]
fn free_functions_drive_the_writer() {
    let mut w = Writer::default();
    let attr = ColorCode::new(Color::Brown, Color::Black);
    set_color_code(&mut w, attr);
    assert_eq!(get_color_code(&w), attr);
    _print(&mut w, "hi");
    assert_eq!(w.read_cell(0, 0).ascii_value, b'h');
    assert_eq!(w.read_cell(0, 1).ascii_value, b'i');
    assert_eq!(w.read_cell(0, 0).color_code, attr);
}

#[test]
fn rainbow_print_cycles_the_palette() {
    let mut w = Writer::default();
    rainbow_print(&mut w, "abcdefgh");
    let expected_attrs = [0x1, 0x2, 0x3, 0x4, 0x5, 0x6, 0x7, 0x1];
    for (i, attr) in expected_attrs.iter().enumerate() {
        let c = w.read_cell(0, i);
        assert_eq!(c.ascii_value, b'a' + i as u8);
        assert_eq!(c.color_code.0, *attr);
    }
    // The pen keeps the last banner color afterwards.
    assert_eq!(w.get_color_code().0, 0x1);
}

#[test]
fn qemu_exit_codes() {
    assert_eq!(QemuExitCode::Success.code(), 0x10);
    assert_eq!(QemuExitCode::Failed.code(), 0x11);
    assert_ne!(QemuExitCode::Success, QemuExitCode::Failed);
}
