//! The combinators on ordinary and edge-case inputs.

use parser_combinators::combinators::{choice, maybe, sequence};
use parser_combinators::outcome::{ko, nothing, ok, Either, Error, ParseResult};
use parser_combinators::parser::{ch, literal, Parser};
use parser_combinators::repeat::{repeat, repeat1};
use parser_combinators::stream::create_stream;

#[test]
fn a_char_consumes_its_match() {
    let stream = create_stream("abc");
    let (result, after) = ch('a').run(stream);
    assert_eq!(result, ParseResult::Success('a'));
    assert_eq!(after.position, 1);
    assert_eq!(after.iterable, "bc");
}

#[test]
fn a_sequence_pairs_both_values() {
    let stream = create_stream("abc");
    let (result, after) = sequence(ch('a'), ch('b')).run(stream);
    assert_eq!(result, ParseResult::Success(('a', 'b')));
    assert_eq!(after.position, 2);
    assert_eq!(after.iterable, "c");
}

#[test]
fn a_sequence_fails_with_its_first_failure() {
    let stream = create_stream("xb");
    let (result, after) = sequence(ch('a'), ch('b')).run(stream);
    assert_eq!(
        result,
        ParseResult::Failure(Error::UnexpectedToken(
            String::from("x"),
            String::from("a")
        ))
    );
    assert_eq!(after.position, 0);
}

#[test]
fn maybe_propagates_a_success() {
    let stream = create_stream("Hello");
    let (result, after) = maybe(ch('H')).run(stream);
    assert_eq!(result, ParseResult::Success('H'));
    assert_eq!(after.position, 1);
}

#[test]
fn maybe_turns_a_failure_into_empty() {
    let stream = create_stream("rello World");
    let (result, after) = maybe(ch('H')).run(stream);
    assert_eq!(result, ParseResult::Empty);
    assert_eq!(after.position, 0);
    assert_eq!(after.iterable, "rello World");
}

#[test]
fn a_zero_width_success_ends_a_repeat_after_one_iteration() {
    let stream = create_stream("xy");
    let (result, after) = repeat(literal("")).run(stream);
    assert_eq!(result, ParseResult::Success(vec![""]));
    assert_eq!(after.position, 0);
    assert_eq!(after.iterable, "xy");
}

#[test]
fn repeat1_accumulates_the_head_and_the_tail() {
    let stream = create_stream("aab");
    let (result, after) = repeat1(ch('a')).run(stream);
    assert_eq!(result, ParseResult::Success(('a', vec!['a'])));
    assert_eq!(after.position, 2);
    assert_eq!(after.iterable, "b");
}

#[test]
fn choice_keeps_both_branch_types_apart() {
    let stream = create_stream("b");
    let (result, after) = choice(literal("a"), ch('b')).run(stream);
    assert_eq!(
        result,
        ParseResult::Success(Either::<&'static str, char>::Left('b'))
    );
    assert_eq!(after.position, 1);
}

#[test]
fn the_result_constructors_build_plain_pairs() {
    let stream = create_stream("s");
    let (success, s1) = ok('v', stream);
    assert_eq!(success, ParseResult::Success('v'));
    assert_eq!(s1.position, 0);
    let (failure, s2) = ko::<char>(
        Error::UnexpectedEndOfInput(String::from("v")),
        stream,
    );
    assert_eq!(
        failure,
        ParseResult::Failure(Error::UnexpectedEndOfInput(String::from("v")))
    );
    assert_eq!(s2.position, 0);
    let (empty, s3) = nothing::<char>(stream);
    assert_eq!(empty, ParseResult::Empty);
    assert_eq!(s3.position, 0);
}

#[test]
fn an_empty_outcome_passes_through_a_sequence_unchanged() {
    let stream = create_stream("Hello");
    let (result, after) = sequence(maybe(ch('x')), ch('H')).run(stream);
    assert_eq!(result, ParseResult::Empty);
    assert_eq!(after.position, 0);
}
