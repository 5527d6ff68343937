use gleam_lsp::line_numbers::{LineColumn, LineNumbers};

#[test]
fn lines_and_columns_of_plain_text() {
    let index = LineNumbers::new("ab\ncd\n\nefg");
    assert_eq!(index.line_count(), 4);
    assert_eq!(index.line_number(0), 0);
    assert_eq!(index.line_number(2), 0);
    assert_eq!(index.line_number(3), 1);
    assert_eq!(index.line_number(6), 2);
    assert_eq!(index.line_number(7), 3);
    assert_eq!(index.line_number(10), 3);
    assert_eq!(
        index.line_and_column_number(4),
        LineColumn { line: 1, column: 1 }
    );
    assert_eq!(
        index.line_and_column_number(9),
        LineColumn { line: 3, column: 2 }
    );
}

#[test]
fn offset_beyond_the_text_counts_as_its_end() {
    let index = LineNumbers::new("ab\ncd");
    assert_eq!(index.line_number(100), 1);
    assert_eq!(
        index.line_and_column_number(100),
        LineColumn { line: 1, column: 2 }
    );
}

#[test]
fn empty_text_has_one_line() {
    let index = LineNumbers::new("");
    assert_eq!(index.line_count(), 1);
    assert_eq!(index.lines(), 0);
    assert_eq!(index.line_number(0), 0);
    assert_eq!(
        index.line_and_column_number(0),
        LineColumn { line: 0, column: 0 }
    );
    assert_eq!(index.byte_index(0, 0), 0);
    assert_eq!(index.byte_index(0, 5), 0);
    assert_eq!(index.byte_index(3, 0), 0);
}

#[test]
fn columns_count_code_points_not_bytes() {
    // "h", e acute (2 bytes), "llo", line feed, a 3 byte and a 4 byte character, "x"
    let text = "h\u{e9}llo\n\u{65e5}\u{1f600}x";
    let index = LineNumbers::new(text);
    assert_eq!(text.len(), 15);
    assert_eq!(
        index.line_and_column_number(3),
        LineColumn { line: 0, column: 2 }
    );
    assert_eq!(index.byte_index(0, 2), 3);
    assert_eq!(index.byte_index(0, 5), 6);
    assert_eq!(index.byte_index(1, 0), 7);
    assert_eq!(index.byte_index(1, 1), 10);
    assert_eq!(index.byte_index(1, 2), 14);
    assert_eq!(index.byte_index(1, 3), 15);
    assert_eq!(
        index.line_and_column_number(14),
        LineColumn { line: 1, column: 2 }
    );
}

#[test]
fn byte_index_stops_at_the_end_of_the_line() {
    let index = LineNumbers::new("ab\ncd\nef");
    assert_eq!(index.byte_index(0, 2), 2);
    assert_eq!(index.byte_index(0, 50), 2);
    assert_eq!(index.byte_index(1, 50), 5);
    assert_eq!(index.byte_index(2, 50), 8);
}

#[test]
fn byte_index_of_a_line_that_is_not_there_is_the_end() {
    let index = LineNumbers::new("ab\ncd");
    assert_eq!(index.byte_index(2, 0), 5);
    assert_eq!(index.byte_index(usize::MAX, usize::MAX), 5);
}

#[test]
fn round_trip_on_every_character_boundary() {
    let text = "pub fn main() {\n  \"h\u{e9}llo \u{65e5}\u{672c}\u{1f600}\"\n}\n\nlast";
    let index = LineNumbers::new(text);
    for offset in 0..=text.len() {
        if text.is_char_boundary(offset) {
            let found = index.line_and_column_number(offset);
            assert_eq!(index.byte_index(found.line, found.column), offset);
        }
    }
}

#[test]
fn lines_as_the_text_is_read() {
    assert_eq!(LineNumbers::new("a").lines(), 1);
    assert_eq!(LineNumbers::new("a\n").lines(), 1);
    assert_eq!(LineNumbers::new("a\nb").lines(), 2);
    assert_eq!(LineNumbers::new("a\nb\n").lines(), 2);
    assert_eq!(LineNumbers::new("\n\n").lines(), 2);
    for text in ["", "x", "x\ny\n\nz", "\n", "a\r\nb\r\n"] {
        assert_eq!(LineNumbers::new(text).lines(), text.lines().count());
    }
}
