//! Behavior of the stream cursor itself.

use parser_combinators::stream::create_stream;

#[test]
fn a_fresh_stream_starts_at_line_one_column_one() {
    let stream = create_stream("Hello");
    assert_eq!(stream.iterable, "Hello");
    assert_eq!(stream.position, 0);
    assert_eq!(stream.line, 1);
    assert_eq!(stream.column, 1);
}

#[test]
fn peeking_does_not_consume() {
    let stream = create_stream("Hi");
    assert_eq!(stream.get_first_char(), Some('H'));
    assert_eq!(stream.position, 0);
    let empty = create_stream("");
    assert_eq!(empty.get_first_char(), None);
}

#[test]
fn consuming_a_plain_character_moves_one_column() {
    let stream = create_stream("ab");
    let after = stream.consume('a');
    assert_eq!(after.iterable, "b");
    assert_eq!(after.position, 1);
    assert_eq!(after.line, 1);
    assert_eq!(after.column, 2);
    // the original stream is still usable: it is a value, not a cursor
    // into shared state
    assert_eq!(stream.position, 0);
    assert_eq!(stream.iterable, "ab");
}

#[test]
fn consuming_a_newline_starts_the_next_line() {
    let stream = create_stream("\nx");
    let after = stream.consume('\n');
    assert_eq!(after.iterable, "x");
    assert_eq!(after.position, 1);
    assert_eq!(after.line, 2);
    assert_eq!(after.column, 1);
}

#[test]
fn consuming_a_multi_line_string_counts_lines_and_columns() {
    let stream = create_stream("He\nllo World");
    let after = stream.consume_string("He\nllo");
    assert_eq!(after.iterable, " World");
    assert_eq!(after.position, 6);
    assert_eq!(after.line, 2);
    assert_eq!(after.column, 4);
}

#[test]
fn consuming_a_string_ending_on_a_newline_resets_the_column() {
    let stream = create_stream("ab\ncd");
    let after = stream.consume_string("ab\n");
    assert_eq!(after.iterable, "cd");
    assert_eq!(after.position, 3);
    assert_eq!(after.line, 2);
    assert_eq!(after.column, 1);
}

#[test]
fn consuming_the_empty_string_changes_nothing() {
    let stream = create_stream("abc");
    let after = stream.consume_string("");
    assert_eq!(after.iterable, "abc");
    assert_eq!(after.position, 0);
    assert_eq!(after.line, 1);
    assert_eq!(after.column, 1);
}
