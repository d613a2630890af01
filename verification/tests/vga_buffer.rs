use minircore::vga_buffer::{
    colored_text, Color, ColorCode, ScreenChar, Writer, BUFFER_HEIGHT, BUFFER_WIDTH, UNPRINTABLE,
};

fn writer() -> Writer {
    Writer::new(ColorCode::new(Color::Blue, Color::Yellow))
}

fn bottom_row(writer: &Writer) -> Vec<u8> {
    (0..BUFFER_WIDTH).map(|col| writer.char_at(BUFFER_HEIGHT - 1, col).ascii_character).collect()
}

fn row_text(writer: &Writer, row: usize, len: usize) -> Vec<u8> {
    (0..len).map(|col| writer.char_at(row, col).ascii_character).collect()
}

#[test]
fn color_code_packs_background_over_foreground() {
    assert_eq!(ColorCode::new(Color::Blue, Color::Yellow), ColorCode(0xe1));
    assert_eq!(ColorCode::new(Color::Yellow, Color::Black), ColorCode(0x0e));
    assert_eq!(ColorCode::new(Color::White, Color::White), ColorCode(0xff));
    assert_eq!(ColorCode::new(Color::Black, Color::Black), ColorCode(0x00));
    assert_eq!(ColorCode::new(Color::LightCyan, Color::Black), ColorCode(0x0b));
}

#[test]
fn color_numbers() {
    assert_eq!(Color::Black.code(), 0);
    assert_eq!(Color::LightGray.code(), 7);
    assert_eq!(Color::DarkGray.code(), 8);
    assert_eq!(Color::White.code(), 15);
}

#[test]
fn new_writer_is_blank() {
    let writer = writer();
    assert_eq!(writer.column_position(), 0);
    for row in 0..BUFFER_HEIGHT {
        for col in 0..BUFFER_WIDTH {
            assert_eq!(
                writer.char_at(row, col),
                ScreenChar { ascii_character: b' ', color_code: ColorCode(0xe1) }
            );
        }
    }
}

#[test]
fn byte_goes_to_the_bottom_row() {
    let mut writer = writer();
    writer.write_byte(b'H');
    writer.write_byte(b'i');
    assert_eq!(writer.column_position(), 2);
    assert_eq!(
        writer.char_at(24, 0),
        ScreenChar { ascii_character: b'H', color_code: ColorCode(0xe1) }
    );
    assert_eq!(writer.char_at(24, 1).ascii_character, b'i');
    assert_eq!(writer.char_at(24, 2).ascii_character, b' ');
    assert_eq!(writer.char_at(23, 0).ascii_character, b' ');
}

#[test]
fn line_feed_scrolls() {
    let mut writer = writer();
    writer.write_string("one\ntwo\nthree");
    assert_eq!(row_text(&writer, 22, 3), b"one".to_vec());
    assert_eq!(row_text(&writer, 23, 3), b"two".to_vec());
    assert_eq!(row_text(&writer, 24, 5), b"three".to_vec());
    assert_eq!(writer.char_at(22, 3).ascii_character, b' ');
    assert_eq!(writer.column_position(), 5);
}

#[test]
fn full_row_wraps_before_the_next_byte() {
    let mut writer = writer();
    for _ in 0..80 {
        writer.write_byte(b'x');
    }
    assert_eq!(writer.column_position(), 80);
    assert_eq!(bottom_row(&writer), vec![b'x'; 80]);
    writer.write_byte(b'y');
    assert_eq!(writer.column_position(), 1);
    assert_eq!(row_text(&writer, 23, 80), vec![b'x'; 80]);
    assert_eq!(writer.char_at(24, 0).ascii_character, b'y');
    assert_eq!(writer.char_at(24, 1).ascii_character, b' ');
}

#[test]
fn unprintable_bytes_are_replaced() {
    let mut writer = writer();
    writer.write_string("a\u{e9}\tb~ ");
    assert_eq!(row_text(&writer, 24, 7), vec![b'a', UNPRINTABLE, UNPRINTABLE, UNPRINTABLE, b'b', b'~', b' ']);
    assert_eq!(writer.column_position(), 7);
}

#[test]
fn write_byte_does_not_replace() {
    let mut writer = writer();
    writer.write_byte(0x01);
    assert_eq!(writer.char_at(24, 0).ascii_character, 0x01);
}

#[test]
fn top_row_is_lost_after_twenty_five_lines() {
    let mut writer = writer();
    writer.write_string("first");
    for _ in 0..24 {
        writer.new_line();
    }
    assert_eq!(row_text(&writer, 0, 5), b"first".to_vec());
    writer.new_line();
    assert_eq!(row_text(&writer, 0, 5), b"     ".to_vec());
    assert_eq!(writer.column_position(), 0);
}

#[test]
fn clear_row_blanks_one_row() {
    let mut writer = writer();
    writer.write_string("above\nbelow");
    writer.clear_row(23);
    assert_eq!(row_text(&writer, 23, 5), b"     ".to_vec());
    assert_eq!(row_text(&writer, 24, 5), b"below".to_vec());
    assert_eq!(writer.column_position(), 5);
}

#[test]
fn empty_text_changes_nothing() {
    let mut writer = writer();
    writer.write_string("");
    assert_eq!(writer.column_position(), 0);
    assert_eq!(bottom_row(&writer), vec![b' '; 80]);
}

#[test]
fn colored_text_interleaves_the_colour() {
    assert_eq!(colored_text(b"Hi", 0xb), vec![b'H', 0xb, b'i', 0xb]);
    assert_eq!(colored_text(b"", 0xb), Vec::<u8>::new());
    let banner = colored_text(b"This is a minircore.", 0xb);
    assert_eq!(banner.len(), 40);
    assert_eq!(banner[38], b'.');
    assert_eq!(banner[39], 0xb);
}

#[test]
fn writer_over_given_cells_keeps_them() {
    let code = ColorCode::new(Color::Blue, Color::Yellow);
    let mut cells = vec![ScreenChar { ascii_character: b'.', color_code: ColorCode(0x07) }; 2000];
    cells[24 * 80] = ScreenChar { ascii_character: b'>', color_code: ColorCode(0x07) };
    let mut writer = Writer::with_cells(code, cells).unwrap();
    assert_eq!(writer.column_position(), 0);
    assert_eq!(writer.char_at(24, 0).ascii_character, b'>');
    assert_eq!(writer.char_at(0, 0), ScreenChar { ascii_character: b'.', color_code: ColorCode(0x07) });
    writer.write_byte(b'x');
    assert_eq!(writer.char_at(24, 0), ScreenChar { ascii_character: b'x', color_code: code });
    writer.new_line();
    assert_eq!(writer.char_at(23, 0).ascii_character, b'x');
    assert_eq!(writer.char_at(24, 0), ScreenChar { ascii_character: b' ', color_code: code });
}

#[test]
fn writer_needs_all_cells() {
    let code = ColorCode::new(Color::Blue, Color::Yellow);
    let blank = ScreenChar { ascii_character: b' ', color_code: code };
    assert!(Writer::with_cells(code, vec![blank; 1999]).is_none());
    assert!(Writer::with_cells(code, vec![blank; 2001]).is_none());
    assert!(Writer::with_cells(code, Vec::new()).is_none());
    assert!(Writer::with_cells(code, vec![blank; 2000]).is_some());
}
