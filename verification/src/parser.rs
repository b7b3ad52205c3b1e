//! The parser capability and the two primitives, `Char` and `Literal`.
//!
//! Every parser carries its mathematical semantics as a spec function,
//! and the trait-level contract of `run` ties the executable result to
//! it.  The contract also carries the backtracking law: whenever `run`
//! fails (or returns the empty outcome), the stream it returns equals the
//! stream the attempt started from, so a caller can retry an alternative
//! from the same input position.

use crate::outcome::{
    char_to_string, outcome_agrees, Error, ErrorModel, ParseResult, SpecOutcome,
};
use crate::stream::{lemma_advance_str_basic, StreamModel, StreamT};
use vstd::prelude::*;
use vstd::string::{StrSliceExecFns, StringExecFns};

verus! {

/// The capability every primitive and combinator implements: a
/// diagnostic name and a `run` from a stream to a result paired with a
/// stream.
///
/// The `ensures` of `run` is the engine's central contract:
/// * the returned pair realises `spec_run` on the input stream's model;
/// * in particular, on `Failure` (and on `Empty`) the returned stream
///   equals the input stream — a failed attempt never leaks an advanced
///   position to its caller;
/// * the returned stream is well-formed and only ever moves forward, by
///   exactly as many characters as it drops from the remaining text.
pub trait Parser: Sized {
    type Output: DeepView;

    /// The parser's diagnostic name, at spec level.
    spec fn spec_name(&self) -> Seq<char>;

    /// The parser's semantics: what one run means on a stream model.
    spec fn spec_run(&self, s: StreamModel) -> SpecOutcome<<Self::Output as DeepView>::V>;

    /// The parser's diagnostic name.
    fn get_name(&self) -> (n: String)
        ensures
            n@ == self.spec_name(),
    ;

    /// Success helper: pair a value with the stream after it.
    fn ok(&self, output: Self::Output, stream: StreamT) -> (r: (
        ParseResult<Self::Output>,
        StreamT,
    ))
        ensures
            r.0 == ParseResult::Success(output),
            r.1 == stream,
    {
        (ParseResult::Success(output), stream)
    }

    /// Failure helper: pair an error with the stream the attempt started
    /// from.
    fn ko(&self, error: Error, stream: StreamT) -> (r: (ParseResult<Self::Output>, StreamT))
        ensures
            r.0 == ParseResult::<Self::Output>::Failure(error),
            r.1 == stream,
    {
        (ParseResult::Failure(error), stream)
    }

    /// Run the parser on `stream`.
    fn run(&self, stream: StreamT) -> (r: (ParseResult<Self::Output>, StreamT))
        requires
            stream@.wf(),
        ensures
            r.1@.wf(),
            stream@.position <= r.1@.position,
            r.1@.position + r.1@.remaining.len() == stream@.position + stream@.remaining.len(),
            outcome_agrees(self.spec_run(stream@), r.0, r.1@, stream@),
    ;
}

/// Matches one fixed character.
#[derive(Clone, Copy, Debug)]
pub struct Char {
    pub character: char,
}

/// Build a `Char` parser for `c`.
pub fn ch(c: char) -> (p: Char)
    ensures
        p == (Char { character: c }),
{
    Char { character: c }
}

impl Parser for Char {
    type Output = char;

    open spec fn spec_name(&self) -> Seq<char> {
        "Char "@ + seq![self.character]
    }

    open spec fn spec_run(&self, s: StreamModel) -> SpecOutcome<char> {
        match s.peek() {
            None => SpecOutcome::Failure(ErrorModel::UnexpectedEndOfInput(seq![self.character])),
            Some(c) => if c == self.character {
                SpecOutcome::Success(self.character, s.advance_char(self.character))
            } else {
                SpecOutcome::Failure(
                    ErrorModel::UnexpectedToken(seq![c], seq![self.character]),
                )
            },
        }
    }

    fn get_name(&self) -> (n: String) {
        String::from_str("Char ").concat(char_to_string(self.character).as_str())
    }

    fn run(&self, stream: StreamT) -> (r: (ParseResult<char>, StreamT)) {
        match stream.get_first_char() {
            None => self.ko(
                Error::UnexpectedEndOfInput(char_to_string(self.character)),
                stream,
            ),
            Some(c) => {
                if c == self.character {
                    let next = stream.consume(c);
                    self.ok(c, next)
                } else {
                    self.ko(
                        Error::UnexpectedToken(
                            char_to_string(c),
                            char_to_string(self.character),
                        ),
                        stream,
                    )
                }
            },
        }
    }
}

/// Matches one fixed string.
#[derive(Clone, Copy, Debug)]
pub struct Literal {
    pub string: &'static str,
}

/// Build a `Literal` parser for `string`.
pub fn literal(string: &'static str) -> (p: Literal)
    ensures
        p == (Literal { string }),
{
    Literal { string }
}

impl Parser for Literal {
    type Output = &'static str;

    open spec fn spec_name(&self) -> Seq<char> {
        "Literal "@ + self.string@
    }

    open spec fn spec_run(&self, s: StreamModel) -> SpecOutcome<Seq<char>> {
        let expected = self.string@;
        if s.remaining.len() < expected.len() {
            SpecOutcome::Failure(ErrorModel::UnexpectedEndOfInput(expected))
        } else if s.remaining.take(expected.len() as int) == expected {
            SpecOutcome::Success(expected, s.advance_str(expected))
        } else {
            SpecOutcome::Failure(
                ErrorModel::UnexpectedToken(s.remaining.take(expected.len() as int), expected),
            )
        }
    }

    fn get_name(&self) -> (n: String) {
        String::from_str("Literal ").concat(self.string)
    }

    fn run(&self, stream: StreamT) -> (r: (ParseResult<&'static str>, StreamT)) {
        let n = self.string.unicode_len();
        let m = stream.iterable.unicode_len();
        if m < n {
            self.ko(Error::UnexpectedEndOfInput(String::from_str(self.string)), stream)
        } else if str_has_prefix(stream.iterable, self.string) {
            let next = stream.consume_string(self.string);
            proof {
                lemma_advance_str_basic(stream@, self.string@);
            }
            self.ok(self.string, next)
        } else {
            let found = stream.iterable.substring_char(0, n);
            proof {
                assert(found@ =~= stream@.remaining.take(self.string@.len() as int));
            }
            self.ko(
                Error::UnexpectedToken(
                    String::from_str(found),
                    String::from_str(self.string),
                ),
                stream,
            )
        }
    }
}

/// Whether `p` is a character-wise prefix of `s`.
fn str_has_prefix(s: &'static str, p: &'static str) -> (b: bool)
    requires
        p@.len() <= s@.len(),
    ensures
        b == (s@.take(p@.len() as int) == p@),
{
    let n = p.unicode_len();
    let mut i: usize = 0;
    while i < n
        invariant
            i <= n,
            n == p@.len(),
            p@.len() <= s@.len(),
            forall|j: int| 0 <= j < i ==> s@[j] == p@[j],
        decreases n - i,
    {
        if s.get_char(i) != p.get_char(i) {
            proof {
                assert(s@.take(p@.len() as int)[i as int] != p@[i as int]);
            }
            return false;
        }
        i = i + 1;
    }
    proof {
        assert(s@.take(p@.len() as int) =~= p@);
    }
    true
}

} // verus!
