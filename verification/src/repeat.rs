//! The repetition combinators: `Repeat` (zero or more) and `repeat1`
//! (one or more, built as `Sequence` of the parser and its `Repeat`).
//!
//! `Repeat` runs its parser again and again, accumulating the values in
//! order; the first failure (or empty outcome) stops the loop and the
//! whole run succeeds with what was accumulated and the stream from
//! before the failing attempt.  Termination rests on progress: every
//! iteration that is allowed to continue has strictly shrunk the
//! remaining text, and an iteration that succeeds while consuming
//! nothing still ends the loop after that one iteration, so a zero-width
//! success cannot loop forever.

use crate::combinators::{sequence, Sequence};
use crate::outcome::{ParseResult, SpecOutcome};
use crate::parser::Parser;
use crate::stream::{StreamModel, StreamT};
use vstd::prelude::*;
use vstd::string::StringExecFns;

verus! {

/// Zero-or-more repetition of a parser; never fails.
#[derive(Clone, Copy, Debug)]
pub struct Repeat<T: Parser> {
    pub parser: T,
}

/// Build a `Repeat` around a parser.
pub fn repeat<T: Parser>(parser: T) -> (p: Repeat<T>)
    ensures
        p == (Repeat { parser }),
{
    Repeat { parser }
}

/// One-or-more repetition: the parser, then zero or more of it.  Fails
/// with the parser's own error when it does not match even once.
pub fn repeat1<T: Parser + Copy>(parser: T) -> (p: Sequence<T, Repeat<T>>)
    ensures
        p == (Sequence { first: parser, second: Repeat { parser } }),
{
    sequence(parser, repeat(parser))
}

impl<T: Parser> Repeat<T> {
    /// The values accumulated and the stream reached by running the
    /// parser repeatedly from `s`.  The recursion is guarded by progress:
    /// it only continues while the remaining text strictly shrinks, and a
    /// success that consumed nothing is kept but ends the repetition.
    pub open spec fn rec_run(&self, s: StreamModel) -> (
        Seq<<T::Output as DeepView>::V>,
        StreamModel,
    )
        decreases s.remaining.len(),
    {
        match self.parser.spec_run(s) {
            SpecOutcome::Success(v, s1) => {
                if s1.remaining.len() < s.remaining.len() {
                    let (rest, sf) = self.rec_run(s1);
                    (seq![v] + rest, sf)
                } else {
                    (seq![v], s1)
                }
            },
            SpecOutcome::Failure(_) => (Seq::empty(), s),
            SpecOutcome::Empty => (Seq::empty(), s),
        }
    }
}

impl<T: Parser> Parser for Repeat<T> {
    type Output = Vec<T::Output>;

    open spec fn spec_name(&self) -> Seq<char> {
        "repeat("@ + self.parser.spec_name() + ")"@
    }

    open spec fn spec_run(&self, s: StreamModel) -> SpecOutcome<Seq<<T::Output as DeepView>::V>> {
        SpecOutcome::Success(self.rec_run(s).0, self.rec_run(s).1)
    }

    fn get_name(&self) -> (n: String) {
        String::from_str("repeat(").concat(self.parser.get_name().as_str()).concat(")")
    }

    fn run(&self, stream: StreamT) -> (r: (ParseResult<Vec<T::Output>>, StreamT)) {
        let mut cur = stream;
        let mut values: Vec<T::Output> = Vec::new();
        proof {
            assert(values.deep_view() + self.rec_run(cur@).0 =~= self.rec_run(stream@).0);
        }
        loop
            invariant
                cur@.wf(),
                stream@.position <= cur@.position,
                cur@.position + cur@.remaining.len() == stream@.position + stream@.remaining.len(),
                self.rec_run(stream@).0 == values.deep_view() + self.rec_run(cur@).0,
                self.rec_run(stream@).1 == self.rec_run(cur@).1,
            decreases cur@.remaining.len(),
        {
            let ghost prev_values = values.deep_view();
            let (r1, s1) = self.parser.run(cur);
            match r1 {
                ParseResult::Success(v) => {
                    let ghost vd = v.deep_view();
                    values.push(v);
                    proof {
                        assert(values.deep_view() =~= prev_values + seq![vd]);
                    }
                    if s1.position == cur.position {
                        // a zero-width success: keep the value, end the
                        // repetition here
                        proof {
                            assert(self.rec_run(cur@) == (seq![vd], s1@));
                            assert(prev_values + (seq![vd] + Seq::<
                                <T::Output as DeepView>::V,
                            >::empty()) =~= prev_values + seq![vd]);
                            assert(self.rec_run(stream@).0 =~= values.deep_view());
                        }
                        return (ParseResult::Success(values), s1);
                    }
                    proof {
                        assert(self.rec_run(cur@).0 =~= seq![vd] + self.rec_run(s1@).0);
                        assert(prev_values + (seq![vd] + self.rec_run(s1@).0) =~= values.deep_view()
                            + self.rec_run(s1@).0);
                    }
                    cur = s1;
                },
                ParseResult::Failure(_) => {
                    proof {
                        assert(self.rec_run(cur@).0 =~= Seq::<
                            <T::Output as DeepView>::V,
                        >::empty());
                        assert(values.deep_view() + self.rec_run(cur@).0 =~= values.deep_view());
                    }
                    return (ParseResult::Success(values), cur);
                },
                ParseResult::Empty => {
                    proof {
                        assert(self.rec_run(cur@).0 =~= Seq::<
                            <T::Output as DeepView>::V,
                        >::empty());
                        assert(values.deep_view() + self.rec_run(cur@).0 =~= values.deep_view());
                    }
                    return (ParseResult::Success(values), cur);
                },
            }
        }
    }
}

} // verus!
