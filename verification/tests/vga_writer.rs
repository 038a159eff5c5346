use bootcore::vga::{
    Color, ColorCode, VgaBufferChar, VgaBufferWriter, BUFFER_HEIGHT, BUFFER_WIDTH,
};

fn cell(w: &VgaBufferWriter, x: usize, y: usize) -> VgaBufferChar {
    w.buffer[y * BUFFER_WIDTH + x]
}

#[test]
fn color_codes_pack_background_high() {
    assert_eq!(ColorCode::new(Color::White, Color::Black).0, 0x0F);
    assert_eq!(ColorCode::new(Color::White, Color::Red).0, 0x4F);
    assert_eq!(ColorCode::new(Color::Blue, Color::LightGray).0, 0x71);
}

#[test]
fn color_inverse_gives_contrast() {
    assert_eq!(Color::Black.inverse(), Color::White);
    assert_eq!(Color::White.inverse(), Color::Black);
    assert_eq!(Color::Yellow.inverse(), Color::Black);
    assert_eq!(Color::Red.inverse(), Color::White);
}

#[test]
fn color_from_value_covers_all_codes() {
    assert_eq!(Color::from(0), Color::Black);
    assert_eq!(Color::from(3), Color::Cyan);
    assert_eq!(Color::from(15), Color::White);
    assert_eq!(Color::from(99), Color::White);
    for v in 0u8..16 {
        assert_eq!(Color::from(v).value(), v);
    }
}

#[test]
fn a_fresh_writer_shows_a_blank_screen() {
    let w = VgaBufferWriter::new();
    assert_eq!(w.buffer.len(), BUFFER_WIDTH * BUFFER_HEIGHT);
    assert_eq!(w.colors(), (Color::White, Color::Black));
    let blank = VgaBufferChar::new_ascii(b' ', Color::White, Color::Black);
    assert!(w.buffer.iter().all(|c| *c == blank));
}

#[test]
fn writing_a_byte_lands_at_the_cursor() {
    let mut w = VgaBufferWriter::new();
    w.write_single(b'A');
    assert_eq!(cell(&w, 0, 0).ascii, b'A');
    assert_eq!(w.pos_x, 1);
    assert_eq!(w.pos_y, 0);
}

#[test]
fn a_newline_moves_to_the_next_line() {
    let mut w = VgaBufferWriter::new();
    w.write_single(b'A');
    w.write_single(b'\n');
    w.write_single(b'B');
    assert_eq!(cell(&w, 0, 0).ascii, b'A');
    assert_eq!(cell(&w, 0, 1).ascii, b'B');
    assert_eq!(w.pos_y, 1);
    assert_eq!(w.pos_x, 1);
}

#[test]
fn write_translates_unprintable_bytes() {
    let mut w = VgaBufferWriter::new();
    w.write("A\u{7}B");
    assert_eq!(cell(&w, 0, 0).ascii, b'A');
    assert_eq!(cell(&w, 1, 0).ascii, 0xFE);
    assert_eq!(cell(&w, 2, 0).ascii, b'B');
}

#[test]
fn the_line_wraps_lazily_at_the_right_edge() {
    let mut w = VgaBufferWriter::new();
    for _ in 0..BUFFER_WIDTH {
        w.write_single(b'x');
    }
    // The cursor rests past the edge; nothing has wrapped yet.
    assert!(w.pending_newline);
    assert_eq!(w.pos_y, 0);
    w.write_single(b'y');
    assert_eq!(w.pos_y, 1);
    assert_eq!(cell(&w, 0, 1).ascii, b'y');
    assert_eq!(cell(&w, BUFFER_WIDTH - 1, 0).ascii, b'x');
}

#[test]
fn writing_past_the_bottom_scrolls() {
    let mut w = VgaBufferWriter::new();
    for i in 0..BUFFER_HEIGHT {
        w.write_single(b'a' + (i % 26) as u8);
        if i + 1 < BUFFER_HEIGHT {
            w.write_single(b'\n');
        }
    }
    // Every line holds one letter; the screen is full.
    assert_eq!(w.pos_y, BUFFER_HEIGHT - 1);
    assert_eq!(cell(&w, 0, 0).ascii, b'a');
    w.write_single(b'\n');
    // The top line fell off; the bottom line is blank.
    assert_eq!(cell(&w, 0, 0).ascii, b'b');
    assert_eq!(cell(&w, 0, BUFFER_HEIGHT - 1).ascii, b' ');
    assert_eq!(w.pos_y, BUFFER_HEIGHT - 1);
}

#[test]
fn scroll_line_moves_every_row_up() {
    let mut w = VgaBufferWriter::new();
    w.write_single(b'A');
    w.write_single(b'\n');
    w.write_single(b'B');
    w.scroll_line();
    assert_eq!(cell(&w, 0, 0).ascii, b'B');
    let blank = VgaBufferChar::new_ascii(b' ', Color::White, Color::Black);
    for x in 0..BUFFER_WIDTH {
        assert_eq!(cell(&w, x, BUFFER_HEIGHT - 1), blank);
    }
}

#[test]
fn fill_line_blanks_the_rest_of_the_line() {
    let mut w = VgaBufferWriter::new();
    w.write_single(b'A');
    w.set_colors((Color::Yellow, Color::Blue));
    w.fill_line();
    assert_eq!(cell(&w, 0, 0).ascii, b'A');
    let blank = VgaBufferChar::new_ascii(b' ', Color::Yellow, Color::Blue);
    for x in 1..BUFFER_WIDTH {
        assert_eq!(cell(&w, x, 0), blank);
    }
}

#[test]
fn clear_screen_uses_the_current_colors() {
    let mut w = VgaBufferWriter::new();
    w.write("something");
    w.set_colors((Color::White, Color::Red));
    w.clear_screen();
    let blank = VgaBufferChar::new_ascii(b' ', Color::White, Color::Red);
    assert!(w.buffer.iter().all(|c| *c == blank));
}

#[test]
fn colors_apply_to_what_is_written_next() {
    let mut w = VgaBufferWriter::new();
    w.set_foreground(Color::Pink);
    w.set_background(Color::Black);
    w.write_single(b'!');
    assert_eq!(cell(&w, 0, 0).color_code, ColorCode::new(Color::Pink, Color::Black));
    assert_eq!(w.colors(), (Color::Pink, Color::Black));
}

#[test]
fn set_pos_x_moves_within_the_line() {
    let mut w = VgaBufferWriter::new();
    w.set_pos_x(31);
    w.write_single(b'Z');
    assert_eq!(cell(&w, 31, 0).ascii, b'Z');
}

#[test]
fn char_slices_land_by_their_low_byte() {
    let mut w = VgaBufferWriter::new();
    w.write_char_slice(&['H', 'i', '\u{101}']);
    assert_eq!(cell(&w, 0, 0).ascii, b'H');
    assert_eq!(cell(&w, 1, 0).ascii, b'i');
    assert_eq!(cell(&w, 2, 0).ascii, 0x01);
}

#[test]
fn a_string_of_text_reads_back_from_the_buffer() {
    let mut w = VgaBufferWriter::new();
    w.write("Hello, world!");
    let row: String = (0..13).map(|x| cell(&w, x, 0).ascii as char).collect();
    assert_eq!(row, "Hello, world!");
}
