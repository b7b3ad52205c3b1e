//! The composing combinators: `Sequence` (both in order), `Choice`
//! (ordered alternation) and `Maybe` (optional).
//!
//! Each combinator restores the correct backtrack stream on a child's
//! failure: `Sequence` re-propagates the child's error with the original
//! pre-attempt stream (even when its first child had already advanced),
//! `Choice` retries its second branch from the very same input stream,
//! and `Maybe` turns a failure into the empty outcome at the original
//! stream.

use crate::outcome::{
    char_to_string, Either, Error, ErrorModel, ParseResult, SpecOutcome,
};
use crate::parser::Parser;
use crate::stream::{StreamModel, StreamT};
use vstd::prelude::*;
use vstd::string::StringExecFns;

verus! {

/// Runs `first`, then `second` on what is left; succeeds with the pair of
/// both values.  If either child fails, `Sequence` fails with that
/// child's error and returns the original pre-attempt stream.
#[derive(Clone, Copy, Debug)]
pub struct Sequence<T: Parser, U: Parser> {
    pub first: T,
    pub second: U,
}

/// Build a `Sequence` of two parsers.
pub fn sequence<T: Parser, U: Parser>(first: T, second: U) -> (p: Sequence<T, U>)
    ensures
        p == (Sequence { first, second }),
{
    Sequence { first, second }
}

impl<T: Parser, U: Parser> Parser for Sequence<T, U> {
    type Output = (T::Output, U::Output);

    open spec fn spec_name(&self) -> Seq<char> {
        "Sequence("@ + self.first.spec_name() + ", "@ + self.second.spec_name() + ")"@
    }

    open spec fn spec_run(&self, s: StreamModel) -> SpecOutcome<
        (<T::Output as DeepView>::V, <U::Output as DeepView>::V),
    > {
        match self.first.spec_run(s) {
            SpecOutcome::Success(v1, s1) => match self.second.spec_run(s1) {
                SpecOutcome::Success(v2, s2) => SpecOutcome::Success((v1, v2), s2),
                SpecOutcome::Failure(e) => SpecOutcome::Failure(e),
                SpecOutcome::Empty => SpecOutcome::Empty,
            },
            SpecOutcome::Failure(e) => SpecOutcome::Failure(e),
            SpecOutcome::Empty => SpecOutcome::Empty,
        }
    }

    fn get_name(&self) -> (n: String) {
        String::from_str("Sequence(").concat(self.first.get_name().as_str()).concat(
            ", ",
        ).concat(self.second.get_name().as_str()).concat(")")
    }

    fn run(&self, stream: StreamT) -> (r: (ParseResult<(T::Output, U::Output)>, StreamT)) {
        let (r1, s1) = self.first.run(stream);
        match r1 {
            ParseResult::Success(v1) => {
                let (r2, s2) = self.second.run(s1);
                match r2 {
                    ParseResult::Success(v2) => self.ok((v1, v2), s2),
                    ParseResult::Failure(e) => self.ko(e, stream),
                    ParseResult::Empty => (ParseResult::Empty, stream),
                }
            },
            ParseResult::Failure(e) => self.ko(e, stream),
            ParseResult::Empty => (ParseResult::Empty, stream),
        }
    }
}

/// The expected-text of a `Choice`'s composite error, over the two
/// branch names.
pub open spec fn spec_choice_expected(first: Seq<char>, second: Seq<char>) -> Seq<char> {
    "choice of "@ + first + " or "@ + second
}

/// The composite error a `Choice` reports when both branches failed on
/// the stream `s`.
pub open spec fn spec_choice_error(s: StreamModel, first: Seq<char>, second: Seq<char>) -> ErrorModel {
    match s.peek() {
        None => ErrorModel::UnexpectedEndOfInput(spec_choice_expected(first, second)),
        Some(c) => ErrorModel::UnexpectedToken(seq![c], spec_choice_expected(first, second)),
    }
}

/// Ordered alternation: runs `first` on the input stream and propagates
/// its result on success; on failure runs `second` on the very same
/// original stream.  When both fail, `Choice` fails with a composite
/// error naming both alternatives, at the original stream.
#[derive(Clone, Copy, Debug)]
pub struct Choice<T: Parser, U: Parser> {
    pub first: T,
    pub second: U,
}

/// Build a `Choice` of two parsers.
pub fn choice<T: Parser, U: Parser>(first: T, second: U) -> (p: Choice<T, U>)
    ensures
        p == (Choice { first, second }),
{
    Choice { first, second }
}

impl<T: Parser, U: Parser> Parser for Choice<T, U> {
    type Output = Either<T::Output, U::Output>;

    open spec fn spec_name(&self) -> Seq<char> {
        "choice("@ + self.first.spec_name() + ", "@ + self.second.spec_name() + ")"@
    }

    open spec fn spec_run(&self, s: StreamModel) -> SpecOutcome<
        Either<<T::Output as DeepView>::V, <U::Output as DeepView>::V>,
    > {
        match self.first.spec_run(s) {
            SpecOutcome::Success(v, s1) => SpecOutcome::Success(Either::Right(v), s1),
            SpecOutcome::Empty => SpecOutcome::Empty,
            SpecOutcome::Failure(_) => match self.second.spec_run(s) {
                SpecOutcome::Success(v, s1) => SpecOutcome::Success(Either::Left(v), s1),
                SpecOutcome::Empty => SpecOutcome::Empty,
                SpecOutcome::Failure(_) => SpecOutcome::Failure(
                    spec_choice_error(s, self.first.spec_name(), self.second.spec_name()),
                ),
            },
        }
    }

    fn get_name(&self) -> (n: String) {
        String::from_str("choice(").concat(self.first.get_name().as_str()).concat(
            ", ",
        ).concat(self.second.get_name().as_str()).concat(")")
    }

    fn run(&self, stream: StreamT) -> (r: (
        ParseResult<Either<T::Output, U::Output>>,
        StreamT,
    )) {
        let (r1, s1) = self.first.run(stream);
        match r1 {
            ParseResult::Success(v) => self.ok(Either::Right(v), s1),
            ParseResult::Empty => (ParseResult::Empty, stream),
            ParseResult::Failure(_) => {
                let (r2, s2) = self.second.run(stream);
                match r2 {
                    ParseResult::Success(v) => self.ok(Either::Left(v), s2),
                    ParseResult::Empty => (ParseResult::Empty, stream),
                    ParseResult::Failure(_) => {
                        let expected = String::from_str("choice of ").concat(
                            self.first.get_name().as_str(),
                        ).concat(" or ").concat(self.second.get_name().as_str());
                        match stream.get_first_char() {
                            None => self.ko(Error::UnexpectedEndOfInput(expected), stream),
                            Some(c) => self.ko(
                                Error::UnexpectedToken(char_to_string(c), expected),
                                stream,
                            ),
                        }
                    },
                }
            },
        }
    }
}

/// Optional: runs its parser and propagates a success unchanged; a
/// failure becomes the empty outcome paired with the original input
/// stream, so a failed attempt never advances the position.
#[derive(Clone, Copy, Debug)]
pub struct Maybe<T: Parser> {
    pub parser: T,
}

/// Build a `Maybe` around a parser.
pub fn maybe<T: Parser>(parser: T) -> (p: Maybe<T>)
    ensures
        p == (Maybe { parser }),
{
    Maybe { parser }
}

impl<T: Parser> Parser for Maybe<T> {
    type Output = T::Output;

    open spec fn spec_name(&self) -> Seq<char> {
        "maybe("@ + self.parser.spec_name() + ")"@
    }

    open spec fn spec_run(&self, s: StreamModel) -> SpecOutcome<<T::Output as DeepView>::V> {
        match self.parser.spec_run(s) {
            SpecOutcome::Success(v, s1) => SpecOutcome::Success(v, s1),
            SpecOutcome::Failure(_) => SpecOutcome::Empty,
            SpecOutcome::Empty => SpecOutcome::Empty,
        }
    }

    fn get_name(&self) -> (n: String) {
        String::from_str("maybe(").concat(self.parser.get_name().as_str()).concat(")")
    }

    fn run(&self, stream: StreamT) -> (r: (ParseResult<T::Output>, StreamT)) {
        let (r1, s1) = self.parser.run(stream);
        match r1 {
            ParseResult::Success(v) => self.ok(v, s1),
            ParseResult::Failure(_) => (ParseResult::Empty, stream),
            ParseResult::Empty => (ParseResult::Empty, stream),
        }
    }
}

} // verus!
