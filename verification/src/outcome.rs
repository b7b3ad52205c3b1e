//! The result algebra: the three-way outcome of a parse attempt, the
//! error taxonomy, and the pure constructors and rendering function over
//! them.

use crate::stream::{StreamModel, StreamT};
use vstd::prelude::*;
use vstd::string::StringExecFns;

verus! {

/// The error taxonomy.  Errors are data: no combinator ever aborts the
/// process, and reaching end of input is reported as
/// `UnexpectedEndOfInput`, never as an out-of-bounds failure.
/// `ExpectedEndOfInput` is reserved for a caller's top-level "input not
/// fully consumed" check; the engine itself never produces it.
#[derive(Debug, Clone, PartialEq, Eq)]
pub enum Error {
    /// What was found, and what was expected instead.
    UnexpectedToken(String, String),
    /// What was expected when the input ran out.
    UnexpectedEndOfInput(String),
    /// What was found where the input should have ended.
    ExpectedEndOfInput(String),
}

/// Mathematical model of an `Error`: the same taxonomy over character
/// sequences.
pub ghost enum ErrorModel {
    UnexpectedToken(Seq<char>, Seq<char>),
    UnexpectedEndOfInput(Seq<char>),
    ExpectedEndOfInput(Seq<char>),
}

impl DeepView for Error {
    type V = ErrorModel;

    open spec fn deep_view(&self) -> ErrorModel {
        match self {
            Error::UnexpectedToken(found, expected) => ErrorModel::UnexpectedToken(
                found@,
                expected@,
            ),
            Error::UnexpectedEndOfInput(expected) => ErrorModel::UnexpectedEndOfInput(expected@),
            Error::ExpectedEndOfInput(found) => ErrorModel::ExpectedEndOfInput(found@),
        }
    }
}

/// The outcome of running a parser: a value, a structured error, or "ran,
/// consumed nothing, found nothing" (used by `Maybe`), which is not an
/// error.  The stream travels beside the result, not inside it: a `run`
/// returns a `(ParseResult, stream)` pair, and a `Failure` is always
/// paired with the very stream the attempt started from.
#[derive(Debug, Clone, PartialEq, Eq)]
pub enum ParseResult<T> {
    Success(T),
    Failure(Error),
    Empty,
}

/// Sum of two result types, used by `Choice`: `Right` holds the first
/// branch's value, `Left` the second branch's.
#[derive(Debug, Clone, Copy, PartialEq, Eq)]
pub enum Either<T, U> {
    Right(T),
    Left(U),
}

impl<T: DeepView, U: DeepView> DeepView for Either<T, U> {
    type V = Either<T::V, U::V>;

    open spec fn deep_view(&self) -> Either<T::V, U::V> {
        match self {
            Either::Right(t) => Either::Right(t.deep_view()),
            Either::Left(u) => Either::Left(u.deep_view()),
        }
    }
}

/// Mathematical model of one parse attempt: the value and the stream
/// after it on success, the error alone on failure (a failure carries no
/// stream advancement), or the empty outcome.
pub ghost enum SpecOutcome<V> {
    Success(V, StreamModel),
    Failure(ErrorModel),
    Empty,
}

/// How an executable `(result, stream)` pair realises a spec-level
/// outcome that was computed on the stream `before` the attempt: a
/// success carries the predicted value and leaves the predicted stream; a
/// failure or an empty outcome leaves the stream exactly as it was.
pub open spec fn outcome_agrees<T: DeepView>(
    out: SpecOutcome<T::V>,
    res: ParseResult<T>,
    after: StreamModel,
    before: StreamModel,
) -> bool {
    match out {
        SpecOutcome::Success(v, s2) => {
            &&& res matches ParseResult::Success(x) && x.deep_view() == v
            &&& after == s2
        },
        SpecOutcome::Failure(e) => {
            &&& res matches ParseResult::Failure(x) && x.deep_view() == e
            &&& after == before
        },
        SpecOutcome::Empty => {
            &&& res is Empty
            &&& after == before
        },
    }
}

/// Success constructor: the value with the stream after it.
pub fn ok<T>(output: T, stream: StreamT) -> (r: (ParseResult<T>, StreamT))
    ensures
        r.0 == ParseResult::Success(output),
        r.1 == stream,
{
    (ParseResult::Success(output), stream)
}

/// Failure constructor: the error with the stream the attempt started
/// from.
pub fn ko<T>(error: Error, stream: StreamT) -> (r: (ParseResult<T>, StreamT))
    ensures
        r.0 == ParseResult::<T>::Failure(error),
        r.1 == stream,
{
    (ParseResult::Failure(error), stream)
}

/// Empty constructor: no answer, the stream untouched.
pub fn nothing<T>(stream: StreamT) -> (r: (ParseResult<T>, StreamT))
    ensures
        r.0 == ParseResult::<T>::Empty,
        r.1 == stream,
{
    (ParseResult::Empty, stream)
}

/// Relies on char::to_string: the returned string holds exactly the one
/// character.
#[verifier::external_body]
pub(crate) fn char_to_string(c: char) -> (r: String)
    ensures
        r@ == seq![c],
{
    c.to_string()
}

/// The message that `formatError` renders for each error variant.
pub open spec fn spec_format_error(e: ErrorModel) -> Seq<char> {
    match e {
        ErrorModel::UnexpectedToken(found, expected) => "Unexpected token "@ + found
            + ", expected "@ + expected,
        ErrorModel::UnexpectedEndOfInput(expected) => "Unexpected end of input, expected "@
            + expected,
        ErrorModel::ExpectedEndOfInput(found) => "Unexpected "@ + found
            + ", expected end of input"@,
    }
}

/// Render an error as one human-readable message; total over all
/// variants.
#[allow(non_snake_case)]
pub fn formatError(error: Error) -> (r: String)
    ensures
        r@ == spec_format_error(error.deep_view()),
{
    match error {
        Error::UnexpectedToken(found, expected) => String::from_str("Unexpected token ").concat(
            found.as_str(),
        ).concat(", expected ").concat(expected.as_str()),
        Error::UnexpectedEndOfInput(expected) => String::from_str(
            "Unexpected end of input, expected ",
        ).concat(expected.as_str()),
        Error::ExpectedEndOfInput(found) => String::from_str("Unexpected ").concat(
            found.as_str(),
        ).concat(", expected end of input"),
    }
}

} // verus!
