use vga_console::buffer::{Buffer, ScreenChar, BUFFER_HEIGHT, BUFFER_WIDTH};
use vga_console::color::{Color, ColorCode};
use vga_console::writer::Writer;
use volatile::Volatile;

const WHITE_ON_BLACK: u8 = 0x0f;

fn buffer_of(code: u8, attribute: u8) -> &'static mut Buffer {
    Box::leak(Box::new(Buffer {
        chars: core::array::from_fn(|_| core::array::from_fn(|_| Volatile::new([code, attribute]))),
    }))
}

fn writer() -> Writer {
    Writer::new(buffer_of(0x00, WHITE_ON_BLACK), ColorCode::new(Color::White, Color::Black))
}

fn cell(code: u8) -> ScreenChar {
    ScreenChar { ascii_character: code, color_code: ColorCode(WHITE_ON_BLACK) }
}

fn row_codes(writer: &Writer, row: usize) -> Vec<u8> {
    (0..BUFFER_WIDTH).map(|col| writer.buffer.read(row, col).ascii_character).collect()
}

fn row_text(text: &str) -> Vec<u8> {
    let mut codes = text.as_bytes().to_vec();
    codes.resize(BUFFER_WIDTH, b' ');
    codes
}

#[test]
fn test_print_one() {
    let mut writer = writer();
    writer.write_string("Hello World");
    assert_eq!(writer.row_position, 0);
    assert_eq!(writer.column_position, 11);
}

#[test]
fn test_print_many() {
    let mut writer = writer();
    for _ in 1..100 {
        writer.write_string("Hello World");
    }
    // 99 * 11 = 1089 bytes: 13 full rows and 49 bytes of the next.
    assert_eq!(writer.row_position, 13);
    assert_eq!(writer.column_position, 49);
}

#[test]
fn test_print_output() {
    let mut writer = writer();
    writer.write_string("\n");
    let printed_str = "Some random text";
    writer.write_string(printed_str);
    let row_position = writer.row_position;
    for (i, c) in printed_str.chars().enumerate() {
        let screen_char = writer.buffer.read(row_position, i);
        let ascii_char = char::from(screen_char.ascii_character);
        assert_eq!(ascii_char, c);
    }
}

#[test]
fn color_numbers_run_from_black_to_white() {
    let colors = [
        Color::Black,
        Color::Blue,
        Color::Green,
        Color::Cyan,
        Color::Red,
        Color::Magenta,
        Color::Brown,
        Color::LightGray,
        Color::DarkGray,
        Color::LightBlue,
        Color::LightGreen,
        Color::LightCyan,
        Color::LightRed,
        Color::Pink,
        Color::Yellow,
        Color::White,
    ];
    for (i, color) in colors.iter().enumerate() {
        assert_eq!(color.number() as usize, i);
    }
}

#[test]
fn color_code_packs_background_high_foreground_low() {
    assert_eq!(ColorCode::new(Color::White, Color::Black), ColorCode(0x0f));
    assert_eq!(ColorCode::new(Color::LightCyan, Color::Black), ColorCode(0x0b));
    assert_eq!(ColorCode::new(Color::Yellow, Color::Blue), ColorCode(0x1e));
    assert_eq!(ColorCode::new(Color::Black, Color::White), ColorCode(0xf0));
    assert_eq!(ColorCode::new(Color::Pink, Color::Pink), ColorCode(0xdd));
}

#[test]
fn cell_bytes_are_character_then_attribute() {
    let c = ScreenChar { ascii_character: b'A', color_code: ColorCode(0x1e) };
    assert_eq!(c.to_bytes(), [0x41, 0x1e]);
    assert_eq!(ScreenChar::from_bytes([0x41, 0x1e]), c);
    assert_eq!(ScreenChar::from_bytes(c.to_bytes()), c);
}

#[test]
fn buffer_is_row_major_with_two_bytes_to_the_cell() {
    assert_eq!(std::mem::size_of::<Buffer>(), BUFFER_WIDTH * BUFFER_HEIGHT * 2);
    assert_eq!(std::mem::size_of::<Volatile<[u8; 2]>>(), 2);
    assert_eq!(BUFFER_WIDTH, 80);
    assert_eq!(BUFFER_HEIGHT, 25);
}

#[test]
fn buffer_write_is_read_back_and_touches_no_other_cell() {
    let buffer = buffer_of(b'.', 0x07);
    let written = ScreenChar { ascii_character: b'Q', color_code: ColorCode(0x4e) };
    buffer.write(7, 33, written);
    for row in 0..BUFFER_HEIGHT {
        for col in 0..BUFFER_WIDTH {
            let expected = if row == 7 && col == 33 {
                written
            } else {
                ScreenChar { ascii_character: b'.', color_code: ColorCode(0x07) }
            };
            assert_eq!(buffer.read(row, col), expected);
        }
    }
    assert_eq!(buffer.chars[7][33].read(), [b'Q', 0x4e]);
}

#[test]
fn new_writer_starts_at_origin_and_keeps_cells() {
    let writer = Writer::new(buffer_of(b'x', 0x07), ColorCode(0x2a));
    assert_eq!(writer.row_position, 0);
    assert_eq!(writer.column_position, 0);
    assert_eq!(writer.color_code, ColorCode(0x2a));
    assert!(!writer.input_mode);
    assert_eq!(
        writer.buffer.read(24, 79),
        ScreenChar { ascii_character: b'x', color_code: ColorCode(0x07) }
    );
}

#[test]
fn printable_round_trip() {
    let mut writer = writer();
    writer.write_string("first\n");
    let text: String = (0x20u8..=0x6f).map(char::from).collect();
    assert_eq!(text.len(), BUFFER_WIDTH);
    writer.write_string(&text);
    assert_eq!(writer.row_position, 1);
    assert_eq!(writer.column_position, BUFFER_WIDTH);
    assert_eq!(row_codes(&writer, 1), text.as_bytes());
    for col in 0..BUFFER_WIDTH {
        assert_eq!(writer.buffer.read(1, col), cell(0x20 + col as u8));
    }
}

#[test]
fn printable_round_trip_of_tilde_and_space() {
    let mut writer = writer();
    writer.write_string(" ~");
    assert_eq!(writer.buffer.read(0, 0), cell(0x20));
    assert_eq!(writer.buffer.read(0, 1), cell(0x7e));
    assert_eq!(writer.buffer.read(0, 2), cell(0x00));
    assert_eq!(writer.column_position, 2);
}

#[test]
fn wrap_boundary() {
    let mut writer = writer();
    let full = "a".repeat(BUFFER_WIDTH);
    writer.write_string(&full);
    assert_eq!((writer.row_position, writer.column_position), (0, BUFFER_WIDTH));
    writer.write_string("b");
    assert_eq!((writer.row_position, writer.column_position), (1, 1));
    assert_eq!(writer.buffer.read(1, 0), cell(b'b'));
    assert_eq!(row_codes(&writer, 0), full.as_bytes());
    assert_eq!(writer.buffer.read(1, 1), cell(0x00));
}

#[test]
fn newline_behind_a_full_row_leaves_no_empty_row() {
    let mut writer = writer();
    writer.write_string(&"a".repeat(BUFFER_WIDTH));
    writer.write_string("\nb");
    assert_eq!((writer.row_position, writer.column_position), (1, 1));
    assert_eq!(writer.buffer.read(1, 0), cell(b'b'));
}

#[test]
fn newline_moves_to_start_of_next_row() {
    let mut writer = writer();
    writer.write_string("ab\ncd");
    assert_eq!((writer.row_position, writer.column_position), (1, 2));
    assert_eq!(writer.buffer.read(0, 0), cell(b'a'));
    assert_eq!(writer.buffer.read(0, 1), cell(b'b'));
    assert_eq!(writer.buffer.read(0, 2), cell(0x00));
    assert_eq!(writer.buffer.read(1, 0), cell(b'c'));
    assert_eq!(writer.buffer.read(1, 1), cell(b'd'));
}

fn fill_grid(writer: &mut Writer) {
    for row in 0..BUFFER_HEIGHT {
        let code = b'A' + row as u8;
        writer.write_string(&char::from(code).to_string().repeat(BUFFER_WIDTH));
    }
}

#[test]
fn scroll_discards_top_row() {
    let mut writer = writer();
    fill_grid(&mut writer);
    assert_eq!((writer.row_position, writer.column_position), (BUFFER_HEIGHT - 1, BUFFER_WIDTH));
    for row in 0..BUFFER_HEIGHT {
        assert_eq!(row_codes(&writer, row), vec![b'A' + row as u8; BUFFER_WIDTH]);
    }
    writer.write_string("new");
    assert_eq!((writer.row_position, writer.column_position), (BUFFER_HEIGHT - 1, 3));
    for row in 0..BUFFER_HEIGHT - 1 {
        assert_eq!(row_codes(&writer, row), vec![b'A' + row as u8 + 1; BUFFER_WIDTH]);
    }
    assert_eq!(row_codes(&writer, BUFFER_HEIGHT - 1), row_text("new"));
    for row in 0..BUFFER_HEIGHT {
        for col in 0..BUFFER_WIDTH {
            assert_ne!(writer.buffer.read(row, col).ascii_character, b'A');
            assert_eq!(writer.buffer.read(row, col).color_code, ColorCode(WHITE_ON_BLACK));
        }
    }
}

#[test]
fn newline_on_last_row_scrolls_and_clears_it() {
    let mut writer = Writer::new(buffer_of(b'.', 0x07), ColorCode(0x1e));
    writer.write_string(&"\n".repeat(BUFFER_HEIGHT - 1));
    assert_eq!((writer.row_position, writer.column_position), (BUFFER_HEIGHT - 1, 0));
    writer.write_string("top");
    writer.new_line();
    assert_eq!((writer.row_position, writer.column_position), (BUFFER_HEIGHT - 1, 0));
    let blank = ScreenChar { ascii_character: b' ', color_code: ColorCode(0x1e) };
    for col in 0..BUFFER_WIDTH {
        assert_eq!(writer.buffer.read(BUFFER_HEIGHT - 1, col), blank);
    }
    assert_eq!(
        writer.buffer.read(BUFFER_HEIGHT - 2, 0),
        ScreenChar { ascii_character: b't', color_code: ColorCode(0x1e) }
    );
    assert_eq!(
        writer.buffer.read(BUFFER_HEIGHT - 2, 3),
        ScreenChar { ascii_character: b'.', color_code: ColorCode(0x07) }
    );
}

#[test]
fn shift_up_keeps_the_last_row() {
    let mut writer = writer();
    fill_grid(&mut writer);
    writer.shift_up();
    assert_eq!((writer.row_position, writer.column_position), (BUFFER_HEIGHT - 1, BUFFER_WIDTH));
    for row in 0..BUFFER_HEIGHT - 1 {
        assert_eq!(row_codes(&writer, row), vec![b'A' + row as u8 + 1; BUFFER_WIDTH]);
    }
    assert_eq!(row_codes(&writer, BUFFER_HEIGHT - 1), vec![b'A' + 24; BUFFER_WIDTH]);
}

#[test]
fn clear_row_fills_one_row_with_spaces() {
    let mut writer = writer();
    writer.write_string("one\ntwo\nthree");
    writer.clear_row(1);
    assert_eq!((writer.row_position, writer.column_position), (2, 5));
    assert_eq!(row_codes(&writer, 1), row_text(""));
    assert_eq!(writer.buffer.read(1, 79), cell(b' '));
    assert_eq!(writer.buffer.read(0, 0), cell(b'o'));
    assert_eq!(writer.buffer.read(2, 4), cell(b'e'));
}

#[test]
fn backspace_at_origin_is_a_no_op() {
    let mut writer = Writer::new(buffer_of(b'.', 0x07), ColorCode(WHITE_ON_BLACK));
    writer.write_string("\u{8}");
    assert_eq!((writer.row_position, writer.column_position), (0, 0));
    writer.backspace();
    assert_eq!((writer.row_position, writer.column_position), (0, 0));
    for row in 0..BUFFER_HEIGHT {
        for col in 0..BUFFER_WIDTH {
            assert_eq!(
                writer.buffer.read(row, col),
                ScreenChar { ascii_character: b'.', color_code: ColorCode(0x07) }
            );
        }
    }
}

#[test]
fn backspace_undoes_last_printable_write() {
    let mut writer = writer();
    writer.write_string("AB\u{8}");
    assert_eq!((writer.row_position, writer.column_position), (0, 1));
    assert_eq!(writer.buffer.read(0, 0), cell(b'A'));
    assert_eq!(writer.buffer.read(0, 1), cell(0x00));
    writer.write_string("C");
    assert_eq!(writer.buffer.read(0, 1), cell(b'C'));
    assert_eq!(writer.column_position, 2);
}

#[test]
fn backspace_at_row_start_goes_to_end_of_content_above() {
    let mut writer = writer();
    writer.write_string("abc\n");
    assert_eq!((writer.row_position, writer.column_position), (1, 0));
    writer.backspace();
    assert_eq!((writer.row_position, writer.column_position), (0, 3));
    assert_eq!(writer.buffer.read(0, 2), cell(b'c'));
    writer.backspace();
    assert_eq!((writer.row_position, writer.column_position), (0, 2));
    assert_eq!(writer.buffer.read(0, 2), cell(0x00));
}

#[test]
fn backspace_onto_a_row_without_erased_cell_stops_at_the_width() {
    let mut writer = writer();
    writer.write_string(&"a".repeat(BUFFER_WIDTH));
    writer.write_string("\n");
    assert_eq!((writer.row_position, writer.column_position), (1, 0));
    assert_eq!(writer.get_last_col(0), BUFFER_WIDTH);
    writer.backspace();
    assert_eq!((writer.row_position, writer.column_position), (0, BUFFER_WIDTH));
    writer.backspace();
    assert_eq!((writer.row_position, writer.column_position), (0, BUFFER_WIDTH - 1));
    assert_eq!(writer.buffer.read(0, BUFFER_WIDTH - 1), cell(0x00));
    assert_eq!(writer.buffer.read(0, BUFFER_WIDTH - 2), cell(b'a'));
}

#[test]
fn content_of_a_row_ends_at_its_first_erased_cell() {
    let mut writer = writer();
    writer.write_string("abcd\u{8}\u{8}\u{8}x");
    // row 0 now holds: a x 0 0 0 ...
    assert_eq!(writer.get_last_col(0), 2);
    assert_eq!(writer.get_last_col(1), 0);
    let mut spaces = Writer::new(buffer_of(b' ', 0x07), ColorCode(WHITE_ON_BLACK));
    assert_eq!(spaces.get_last_col(5), BUFFER_WIDTH);
    spaces.write_string("ab\u{8}");
    assert_eq!(spaces.get_last_col(0), 1);
}

#[test]
fn unsupported_byte_substitution() {
    let mut writer = writer();
    writer.write_string("\u{1}");
    assert_eq!(writer.buffer.read(0, 0), cell(0xfe));
    assert_eq!((writer.row_position, writer.column_position), (0, 1));
    writer.write_string("\t\r\u{7f}\u{0}");
    for col in 0..5 {
        assert_eq!(writer.buffer.read(0, col), cell(0xfe));
    }
    assert_eq!(writer.buffer.read(0, 5), cell(0x00));
    assert_eq!((writer.row_position, writer.column_position), (0, 5));
}

#[test]
fn each_byte_of_a_wider_character_is_substituted() {
    let mut writer = writer();
    writer.write_string("a\u{e9}b\u{20ac}");
    assert_eq!(writer.buffer.read(0, 0), cell(b'a'));
    assert_eq!(writer.buffer.read(0, 1), cell(0xfe));
    assert_eq!(writer.buffer.read(0, 2), cell(0xfe));
    assert_eq!(writer.buffer.read(0, 3), cell(b'b'));
    assert_eq!(writer.buffer.read(0, 4), cell(0xfe));
    assert_eq!(writer.buffer.read(0, 5), cell(0xfe));
    assert_eq!(writer.buffer.read(0, 6), cell(0xfe));
    assert_eq!((writer.row_position, writer.column_position), (0, 7));
}

#[test]
fn write_byte_places_any_byte_but_newline() {
    let mut writer = writer();
    writer.write_byte(b'Z');
    writer.write_byte(0x08);
    writer.write_byte(0x00);
    assert_eq!(writer.buffer.read(0, 0), cell(b'Z'));
    assert_eq!(writer.buffer.read(0, 1), cell(0x08));
    assert_eq!(writer.buffer.read(0, 2), cell(0x00));
    assert_eq!((writer.row_position, writer.column_position), (0, 3));
    writer.write_byte(b'\n');
    assert_eq!((writer.row_position, writer.column_position), (1, 0));
}

#[test]
fn written_cells_carry_the_writers_colors() {
    let mut writer =
        Writer::new(buffer_of(b'.', 0x07), ColorCode::new(Color::Yellow, Color::Blue));
    writer.write_string("hi\u{8}");
    let shown = |code: u8| ScreenChar { ascii_character: code, color_code: ColorCode(0x1e) };
    assert_eq!(writer.buffer.read(0, 0), shown(b'h'));
    assert_eq!(writer.buffer.read(0, 1), shown(0x00));
    assert_eq!(
        writer.buffer.read(0, 2),
        ScreenChar { ascii_character: b'.', color_code: ColorCode(0x07) }
    );
}

#[test]
fn writing_leaves_the_input_mode_alone() {
    let mut writer = writer();
    writer.input_mode = true;
    writer.write_string("abc\n\u{8}\u{1}");
    writer.write_byte(b'x');
    writer.backspace();
    writer.new_line();
    assert!(writer.input_mode);
}

#[test]
fn writes_through_a_lock_come_out_whole_and_in_turn() {
    let console = spin::Mutex::new(writer());
    for turn in 0..40 {
        let text = if turn % 2 == 0 { "main;" } else { "intr;" };
        console.lock().write_string(text);
    }
    let writer = console.lock();
    assert_eq!((writer.row_position, writer.column_position), (2, 40));
    for i in 0..200 {
        let expected = if (i / 5) % 2 == 0 { b"main;"[i % 5] } else { b"intr;"[i % 5] };
        assert_eq!(writer.buffer.read(i / BUFFER_WIDTH, i % BUFFER_WIDTH), cell(expected));
    }
}
