//! Laws of the engine, stated and proved over the parsers' spec-level
//! semantics.
//!
//! The central law — a failing run returns the stream it started from,
//! so no backtracking state ever leaks — is not here: it is part of the
//! `ensures` of `Parser::run` itself, which every parser must meet.

use crate::combinators::{Choice, Maybe, Sequence};
use crate::outcome::{Either, SpecOutcome};
use crate::parser::{Literal, Parser};
use crate::repeat::Repeat;
use crate::stream::{
    lemma_advance_str_basic, lemma_advance_str_no_newline, StreamModel,
};
use vstd::prelude::*;

verus! {

/// Law (round trip): a literal with no embedded newline, run on exactly
/// its own text, succeeds with its text as the value, consumes the whole
/// input, and ends on line 1 at column `1 + len`.
pub proof fn lemma_literal_round_trip(lit: Literal, s: StreamModel)
    requires
        s == StreamModel::initial(lit.string@),
        forall|i: int| 0 <= i < lit.string@.len() ==> lit.string@[i] != '\n',
    ensures
        lit.spec_run(s) matches SpecOutcome::Success(v, s1) && v == lit.string@
            && s1.position == lit.string@.len() && s1.remaining.len() == 0 && s1.line == 1
            && s1.column == 1 + lit.string@.len(),
{
    let t = lit.string@;
    assert(s.remaining.take(t.len() as int) =~= t);
    lemma_advance_str_basic(s, t);
    lemma_advance_str_no_newline(s, t);
    assert(s.advance_str(t).remaining =~= Seq::<char>::empty());
}

/// Law (choice ordering): when the first branch succeeds, `Choice`
/// succeeds via it, with the same value and stream; the second branch is
/// never consulted.
pub proof fn lemma_choice_prefers_first<T: Parser, U: Parser>(p: Choice<T, U>, s: StreamModel)
    ensures
        p.first.spec_run(s) matches SpecOutcome::Success(v, s1) ==> p.spec_run(s)
            == SpecOutcome::Success(
            Either::<<T::Output as DeepView>::V, <U::Output as DeepView>::V>::Right(v),
            s1,
        ),
{
}

/// Law (choice fallback): when the first branch fails and the second
/// succeeds, `Choice` succeeds via the second, on the very stream the
/// first branch started from.
pub proof fn lemma_choice_falls_back<T: Parser, U: Parser>(p: Choice<T, U>, s: StreamModel)
    ensures
        p.first.spec_run(s) is Failure ==> (p.second.spec_run(s) matches SpecOutcome::Success(
            v,
            s1,
        ) ==> p.spec_run(s) == SpecOutcome::Success(
            Either::<<T::Output as DeepView>::V, <U::Output as DeepView>::V>::Left(v),
            s1,
        )),
{
}

/// Law (short circuit): `Sequence` fails with exactly the error of the
/// child that failed — its first child's error, or its second child's
/// error on the first child's resulting stream.  That the failure is
/// reported at the original, un-advanced stream is part of the contract
/// of `Parser::run`.
pub proof fn lemma_sequence_propagates_errors<T: Parser, U: Parser>(
    p: Sequence<T, U>,
    s: StreamModel,
)
    ensures
        p.first.spec_run(s) matches SpecOutcome::Failure(e) ==> p.spec_run(s)
            == SpecOutcome::<(<T::Output as DeepView>::V, <U::Output as DeepView>::V)>::Failure(e),
        p.first.spec_run(s) matches SpecOutcome::Success(v, s1) ==> (p.second.spec_run(s1)
            matches SpecOutcome::Failure(e) ==> p.spec_run(s) == SpecOutcome::<
                (<T::Output as DeepView>::V, <U::Output as DeepView>::V),
            >::Failure(e)),
{
}

/// Law: `Maybe` never fails — a child's failure becomes the empty
/// outcome, never an error.
pub proof fn lemma_maybe_never_fails<T: Parser>(p: Maybe<T>, s: StreamModel)
    ensures
        !(p.spec_run(s) is Failure),
{
}

/// Law: `Repeat` always succeeds — on any stream, including an empty
/// one, the outcome is a success carrying the accumulated values.
pub proof fn lemma_repeat_never_fails<T: Parser>(p: Repeat<T>, s: StreamModel)
    ensures
        p.spec_run(s) is Success,
{
}

} // verus!
