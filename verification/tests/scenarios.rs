//! End-to-end scenarios for the combinator engine.

use parser_combinators::combinators::{choice, sequence};
use parser_combinators::outcome::{Either, Error, ParseResult};
use parser_combinators::parser::{ch, literal};
use parser_combinators::parser::Parser;
use parser_combinators::repeat::{repeat, repeat1};
use parser_combinators::stream::create_stream;

#[test]
fn repeat_on_empty_input_terminates() {
    let stream = create_stream("");
    let (result, after) = repeat(ch('a')).run(stream);
    assert_eq!(result, ParseResult::Success(Vec::<char>::new()));
    assert_eq!(after.position, 0);
}

#[test]
fn repeat_consumes_all_matches() {
    let stream = create_stream("aaab");
    let (result, after) = repeat(ch('a')).run(stream);
    assert_eq!(result, ParseResult::Success(vec!['a', 'a', 'a']));
    assert_eq!(after.position, 3);
    assert_eq!(after.iterable, "b");
}

#[test]
fn repeat1_fails_without_a_single_match() {
    let stream = create_stream("baaa");
    let (result, after) = repeat1(ch('a')).run(stream);
    assert_eq!(
        result,
        ParseResult::Failure(Error::UnexpectedToken(
            String::from("b"),
            String::from("a")
        ))
    );
    assert_eq!(after.position, 0);
}

#[test]
fn choice_prefers_the_first_branch() {
    let stream = create_stream("He\nllo World");
    let (result, after) = choice(literal("He\nllo"), ch('b')).run(stream);
    assert_eq!(result, ParseResult::Success(Either::Right("He\nllo")));
    assert_eq!(after.position, 6);
    assert_eq!(after.line, 2);
    assert_eq!(after.column, 4);
    assert_eq!(after.iterable, " World");
}

#[test]
fn choice_falls_back_to_the_second_branch() {
    let stream = create_stream("Hello");
    let (result, after) = choice(ch('x'), ch('H')).run(stream);
    assert_eq!(result, ParseResult::Success(Either::Left('H')));
    assert_eq!(after.position, 1);
}

#[test]
fn sequence_rolls_back_a_partial_advance() {
    let stream = create_stream("ac");
    let (result, after) = sequence(ch('a'), ch('b')).run(stream);
    assert_eq!(
        result,
        ParseResult::Failure(Error::UnexpectedToken(
            String::from("c"),
            String::from("b")
        ))
    );
    assert_eq!(after.position, 0);
}

#[test]
fn literal_round_trip() {
    let stream = create_stream("abc");
    let (result, after) = literal("abc").run(stream);
    assert_eq!(result, ParseResult::Success("abc"));
    assert_eq!(after.position, 3);
    assert_eq!(after.line, 1);
    assert_eq!(after.column, 4);
    assert_eq!(after.iterable, "");
}
