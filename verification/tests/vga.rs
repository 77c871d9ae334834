use theos::drivers::vga::{Color, ScreenWriter, BUFFER_CELLS, BUFFER_HEIGHT, BUFFER_WIDTH};

fn row_text(screen: &[u16; BUFFER_CELLS], row: usize, len: usize) -> Vec<u8> {
    (0..len).map(|c| (screen[row * BUFFER_WIDTH + c] & 0xff) as u8).collect()
}

#[test]
fn color_codes_follow_the_vga_palette() {
    assert_eq!(Color::Black.code(), 0);
    assert_eq!(Color::Blue.code(), 1);
    assert_eq!(Color::Brown.code(), 6);
    assert_eq!(Color::LightGray.code(), 7);
    assert_eq!(Color::DarkGray.code(), 8);
    assert_eq!(Color::LightRed.code(), 12);
    assert_eq!(Color::Yellow.code(), 14);
    assert_eq!(Color::White.code(), 15);
}

#[test]
fn new_writer_starts_top_left_with_combined_attribute() {
    let mut screen = [0u16; BUFFER_CELLS];
    let mut w = ScreenWriter::new(Color::Yellow, Color::Blue);
    w.write_byte(&mut screen, b'A');
    // background 1 in bits 12..16, foreground 14 in bits 8..12
    assert_eq!(screen[0], 0x1e41);
    assert!(screen[1..].iter().all(|&c| c == 0));
}

#[test]
fn clear_screen_blanks_every_cell_and_homes_cursor() {
    let mut screen = [0x1234u16; BUFFER_CELLS];
    let mut w = ScreenWriter::new(Color::White, Color::Black);
    w.write_string(&mut screen, "abc\ndef");
    w.clear_screen(&mut screen);
    assert!(screen.iter().all(|&c| c == 0x0f20));
    w.write_byte(&mut screen, b'Z');
    assert_eq!(screen[0], 0x0f5a);
}

#[test]
fn newline_moves_to_next_row_start() {
    let mut screen = [0u16; BUFFER_CELLS];
    let mut w = ScreenWriter::new(Color::White, Color::Black);
    w.write_string(&mut screen, "Hi\nX");
    assert_eq!(row_text(&screen, 0, 2), b"Hi".to_vec());
    assert_eq!(screen[2], 0);
    assert_eq!(screen[BUFFER_WIDTH], 0x0f58);
}

#[test]
fn full_row_wraps_to_the_next() {
    let mut screen = [0u16; BUFFER_CELLS];
    let mut w = ScreenWriter::new(Color::Green, Color::Black);
    for _ in 0..BUFFER_WIDTH {
        w.write_byte(&mut screen, b'x');
    }
    // the row is full but nothing has moved yet
    assert_eq!(screen[BUFFER_WIDTH], 0);
    w.write_byte(&mut screen, b'y');
    assert_eq!(screen[BUFFER_WIDTH], 0x0279);
    assert!(screen[..BUFFER_WIDTH].iter().all(|&c| c == 0x0278));
}

#[test]
fn newline_on_last_row_scrolls_up() {
    let mut screen = [0u16; BUFFER_CELLS];
    let mut w = ScreenWriter::new(Color::White, Color::Black);
    w.clear_screen(&mut screen);
    for r in 0..BUFFER_HEIGHT {
        w.write_byte(&mut screen, b'a' + (r % 26) as u8);
        if r + 1 < BUFFER_HEIGHT {
            w.write_byte(&mut screen, b'\n');
        }
    }
    // rows show a, b, ..., y; cursor on the last row
    assert_eq!(screen[0], 0x0f61);
    assert_eq!(screen[(BUFFER_HEIGHT - 1) * BUFFER_WIDTH], 0x0f79);
    w.write_byte(&mut screen, b'\n');
    assert_eq!(screen[0], 0x0f62);
    assert_eq!(screen[(BUFFER_HEIGHT - 2) * BUFFER_WIDTH], 0x0f79);
    assert!(screen[(BUFFER_HEIGHT - 1) * BUFFER_WIDTH..].iter().all(|&c| c == 0x0f20));
    w.write_byte(&mut screen, b'z');
    assert_eq!(screen[(BUFFER_HEIGHT - 1) * BUFFER_WIDTH], 0x0f7a);
}

#[test]
fn wrap_on_last_row_scrolls_up() {
    let mut screen = [0u16; BUFFER_CELLS];
    let mut w = ScreenWriter::new(Color::White, Color::Black);
    for _ in 0..BUFFER_HEIGHT - 1 {
        w.write_byte(&mut screen, b'\n');
    }
    for _ in 0..BUFFER_WIDTH {
        w.write_byte(&mut screen, b'q');
    }
    w.write_byte(&mut screen, b'r');
    let last = (BUFFER_HEIGHT - 1) * BUFFER_WIDTH;
    assert!(screen[last - BUFFER_WIDTH..last].iter().all(|&c| c == 0x0f71));
    assert_eq!(screen[last], 0x0f72);
    assert!(screen[last + 1..].iter().all(|&c| c == 0x0f20));
}

#[test]
fn write_string_writes_utf8_bytes() {
    let mut screen = [0u16; BUFFER_CELLS];
    let mut w = ScreenWriter::new(Color::White, Color::Black);
    w.write_string(&mut screen, "é!");
    assert_eq!(screen[0], 0x0fc3);
    assert_eq!(screen[1], 0x0fa9);
    assert_eq!(screen[2], 0x0f21);
}

#[test]
fn split_writes_equal_one_write() {
    let mut a = [0u16; BUFFER_CELLS];
    let mut b = [0u16; BUFFER_CELLS];
    let mut wa = ScreenWriter::new(Color::Cyan, Color::Red);
    let mut wb = ScreenWriter::new(Color::Cyan, Color::Red);
    let text = "line one\nline two is here\n\nand three";
    wa.write_string(&mut a, text);
    wb.write_string(&mut b, &text[..13]);
    wb.write_string(&mut b, &text[13..]);
    assert!(a.iter().zip(b.iter()).all(|(x, y)| x == y));
    wa.write_byte(&mut a, b'#');
    wb.write_byte(&mut b, b'#');
    assert!(a.iter().zip(b.iter()).all(|(x, y)| x == y));
}

#[test]
fn empty_string_changes_nothing() {
    let mut screen = [7u16; BUFFER_CELLS];
    let mut w = ScreenWriter::new(Color::White, Color::Black);
    w.write_string(&mut screen, "");
    assert!(screen.iter().all(|&c| c == 7));
    w.write_byte(&mut screen, b'k');
    assert_eq!(screen[0], 0x0f6b);
}

#[test]
fn write_decimal_prints_digits_most_significant_first() {
    let mut screen = [0u16; BUFFER_CELLS];
    let mut w = ScreenWriter::new(Color::White, Color::Black);
    for n in [0u32, 7, 10, 305, 4294967295] {
        w.write_decimal(&mut screen, n);
        w.write_byte(&mut screen, b'\n');
    }
    assert_eq!(row_text(&screen, 0, 1), b"0".to_vec());
    assert_eq!(row_text(&screen, 1, 1), b"7".to_vec());
    assert_eq!(row_text(&screen, 2, 2), b"10".to_vec());
    assert_eq!(row_text(&screen, 3, 3), b"305".to_vec());
    assert_eq!(row_text(&screen, 4, 10), b"4294967295".to_vec());
    assert_eq!(screen[BUFFER_WIDTH * 2 + 2], 0);
    assert_eq!(screen[BUFFER_WIDTH * 2], 0x0f31);
}
