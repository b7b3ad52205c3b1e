//! The input stream: an immutable cursor over a fixed input text that
//! tracks how many characters were consumed and the 1-based line and
//! column of the next character.

use vstd::prelude::*;
use vstd::string::StrSliceExecFns;

verus! {

/// Mathematical model of a stream: the text still to be read, together
/// with the position (characters consumed so far) and the 1-based line
/// and column counters.
#[verifier::ext_equal]
pub ghost struct StreamModel {
    pub remaining: Seq<char>,
    pub line: nat,
    pub column: nat,
    pub position: nat,
}

impl StreamModel {
    /// The stream at the start of `text`: nothing consumed, line 1, column 1.
    pub open spec fn initial(text: Seq<char>) -> StreamModel {
        StreamModel { remaining: text, line: 1, column: 1, position: 0 }
    }

    /// Well-formedness: the counters are 1-based and no counter can
    /// overflow a `usize` while the remaining text is consumed.
    pub open spec fn wf(self) -> bool {
        &&& 1 <= self.line
        &&& 1 <= self.column
        &&& self.position + self.remaining.len() <= usize::MAX
        &&& self.line + self.remaining.len() <= usize::MAX
        &&& self.column + self.remaining.len() <= usize::MAX
    }

    /// The next character, or `None` at end of input.
    pub open spec fn peek(self) -> Option<char> {
        if self.remaining.len() == 0 {
            None
        } else {
            Some(self.remaining[0])
        }
    }

    /// The stream after consuming one character `c`: a newline starts the
    /// next line at column 1, any other character moves one column right.
    pub open spec fn advance_char(self, c: char) -> StreamModel {
        StreamModel {
            remaining: if self.remaining.len() > 0 {
                self.remaining.drop_first()
            } else {
                self.remaining
            },
            line: if c == '\n' {
                self.line + 1
            } else {
                self.line
            },
            column: if c == '\n' {
                1
            } else {
                self.column + 1
            },
            position: self.position + 1,
        }
    }

    /// The stream after consuming the characters of `t`, one by one.
    pub open spec fn advance_str(self, t: Seq<char>) -> StreamModel
        decreases t.len(),
    {
        if t.len() == 0 {
            self
        } else {
            self.advance_char(t[0]).advance_str(t.drop_first())
        }
    }
}

/// Number of newline characters in `t`.
pub open spec fn newline_count(t: Seq<char>) -> nat
    decreases t.len(),
{
    if t.len() == 0 {
        0
    } else {
        (if t[0] == '\n' {
            1nat
        } else {
            0nat
        }) + newline_count(t.drop_first())
    }
}

/// The characters of `t` after its last newline, or all of `t` when it
/// holds none: the final line segment of a consumed string.
pub open spec fn after_last_newline(t: Seq<char>) -> Seq<char>
    decreases t.len(),
{
    if t.len() == 0 {
        t
    } else if t.last() == '\n' {
        Seq::empty()
    } else {
        after_last_newline(t.drop_last()).push(t.last())
    }
}

/// Counting newlines distributes over appending one character.
pub proof fn lemma_newline_count_push(t: Seq<char>, c: char)
    ensures
        newline_count(t.push(c)) == newline_count(t) + (if c == '\n' {
            1nat
        } else {
            0nat
        }),
    decreases t.len(),
{
    if t.len() == 0 {
        assert(t.push(c).drop_first() =~= t);
    } else {
        assert(t.push(c).drop_first() =~= t.drop_first().push(c));
        lemma_newline_count_push(t.drop_first(), c);
    }
}

/// Consuming a concatenation is consuming its parts in order.
pub proof fn lemma_advance_str_concat(s: StreamModel, a: Seq<char>, b: Seq<char>)
    ensures
        s.advance_str(a + b) == s.advance_str(a).advance_str(b),
    decreases a.len(),
{
    if a.len() == 0 {
        assert(a + b =~= b);
    } else {
        assert((a + b)[0] == a[0]);
        assert((a + b).drop_first() =~= a.drop_first() + b);
        lemma_advance_str_concat(s.advance_char(a[0]), a.drop_first(), b);
    }
}

/// Consuming `t` from a stream with at least `t.len()` characters left
/// drops exactly `t.len()` characters, moves the position by `t.len()`,
/// adds one line per newline in `t`, and preserves well-formedness.
pub proof fn lemma_advance_str_basic(s: StreamModel, t: Seq<char>)
    requires
        t.len() <= s.remaining.len(),
    ensures
        s.advance_str(t).remaining == s.remaining.skip(t.len() as int),
        s.advance_str(t).position == s.position + t.len(),
        s.advance_str(t).line == s.line + newline_count(t),
        s.wf() ==> s.advance_str(t).wf(),
    decreases t.len(),
{
    if t.len() == 0 {
        assert(s.remaining.skip(0) =~= s.remaining);
    } else {
        let s1 = s.advance_char(t[0]);
        lemma_advance_str_basic(s1, t.drop_first());
        assert(s1.remaining.skip(t.len() - 1) =~= s.remaining.skip(t.len() as int));
    }
}

/// When `t` holds no newline, consuming it keeps the line and moves the
/// column right by `t.len()`.
pub proof fn lemma_advance_str_no_newline(s: StreamModel, t: Seq<char>)
    requires
        forall|i: int| 0 <= i < t.len() ==> t[i] != '\n',
    ensures
        s.advance_str(t).line == s.line,
        s.advance_str(t).column == s.column + t.len(),
    decreases t.len(),
{
    if t.len() > 0 {
        let s1 = s.advance_char(t[0]);
        lemma_advance_str_no_newline(s1, t.drop_first());
    }
}

/// Consuming a string that holds at least one newline sets the column
/// just past the final line segment: 1 plus the number of characters
/// after the last newline (and column 1 exactly when the string ends on
/// its newline).
pub proof fn lemma_advance_str_multi_line(s: StreamModel, t: Seq<char>)
    requires
        newline_count(t) > 0,
    ensures
        s.advance_str(t).column == 1 + after_last_newline(t).len(),
    decreases t.len(),
{
    let u = t.drop_last();
    let c = t.last();
    let one = seq![c];
    assert(t =~= u + one);
    lemma_advance_str_concat(s, u, one);
    let s1 = s.advance_str(u);
    assert(one.drop_first() =~= Seq::<char>::empty());
    assert(s1.advance_char(c).advance_str(Seq::<char>::empty()) == s1.advance_char(c));
    assert(s.advance_str(t) == s1.advance_char(c));
    lemma_newline_count_push(u, c);
    assert(u.push(c) =~= t);
    if c == '\n' {
        assert(after_last_newline(t).len() == 0);
    } else {
        assert(newline_count(u) > 0);
        lemma_advance_str_multi_line(s, u);
        assert(after_last_newline(t) =~= after_last_newline(u).push(c));
    }
}

/// An immutable cursor over a fixed input text.  `iterable` is the text
/// still to be read; `position` counts the characters consumed from the
/// original input; `line` and `column` are 1-based and describe where the
/// next character sits.  Streams are plain values: consuming produces a
/// new stream and the old one stays valid, which is the backtracking
/// mechanism.
#[derive(Clone, Copy, Debug)]
pub struct StreamT {
    pub iterable: &'static str,
    pub line: usize,
    pub column: usize,
    pub position: usize,
}

impl View for StreamT {
    type V = StreamModel;

    open spec fn view(&self) -> StreamModel {
        StreamModel {
            remaining: self.iterable@,
            line: self.line as nat,
            column: self.column as nat,
            position: self.position as nat,
        }
    }
}

/// A fresh stream over `iterable`: position 0, line 1, column 1.
pub fn create_stream(iterable: &'static str) -> (s: StreamT)
    requires
        iterable@.len() < usize::MAX,
    ensures
        s@ == StreamModel::initial(iterable@),
        s@.wf(),
{
    let s = StreamT { iterable, line: 1, column: 1, position: 0 };
    proof {
        assert(s@ =~= StreamModel::initial(iterable@));
    }
    s
}

impl StreamT {
    /// Consume one character, which the caller guarantees is the next
    /// character of the stream.
    pub fn consume(self, c: char) -> (r: StreamT)
        requires
            self@.wf(),
            self@.peek() == Some(c),
        ensures
            r@ == self@.advance_char(c),
            r@.wf(),
    {
        let len = self.iterable.unicode_len();
        let rest = self.iterable.substring_char(1, len);
        let r = if c == '\n' {
            StreamT {
                iterable: rest,
                line: self.line + 1,
                column: 1,
                position: self.position + 1,
            }
        } else {
            StreamT {
                iterable: rest,
                line: self.line,
                column: self.column + 1,
                position: self.position + 1,
            }
        };
        proof {
            assert(self@.remaining.subrange(1, self@.remaining.len() as int) =~= self@
                .remaining
                .drop_first());
            assert(r@ =~= self@.advance_char(c));
        }
        r
    }

    /// Consume a whole string, which the caller guarantees is a prefix of
    /// the stream: the characters of `string` are consumed one by one.
    pub fn consume_string(self, string: &'static str) -> (r: StreamT)
        requires
            self@.wf(),
            string@.len() <= self@.remaining.len(),
            self@.remaining.take(string@.len() as int) == string@,
        ensures
            r@ == self@.advance_str(string@),
            r@.wf(),
    {
        let n = string.unicode_len();
        let mut cur = self;
        let mut i: usize = 0;
        while i < n
            invariant
                i <= n,
                n == string@.len(),
                self@.wf(),
                string@.len() <= self@.remaining.len(),
                self@.remaining.take(string@.len() as int) == string@,
                cur@ == self@.advance_str(string@.take(i as int)),
                cur@.remaining == self@.remaining.skip(i as int),
                cur@.wf(),
            decreases n - i,
        {
            let c = string.get_char(i);
            proof {
                assert(cur@.remaining[0] == self@.remaining[i as int]);
                assert(string@[i as int] == self@.remaining.take(string@.len() as int)[i as int]);
            }
            let next = cur.consume(c);
            proof {
                let prefix = string@.take(i as int);
                let one = seq![string@[i as int]];
                assert(string@.take(i + 1) =~= prefix + one);
                lemma_advance_str_concat(self@, prefix, one);
                assert(one.drop_first() =~= Seq::<char>::empty());
                assert(one[0] == c);
                let s1 = cur@.advance_char(c);
                assert(s1.advance_str(Seq::<char>::empty()) == s1);
                assert(cur@.advance_str(one) == s1);
                assert(next@.remaining =~= self@.remaining.skip(i + 1));
            }
            cur = next;
            i = i + 1;
        }
        proof {
            assert(string@.take(n as int) =~= string@);
        }
        cur
    }

    /// The next character without consuming it; `None` at end of input.
    pub fn get_first_char(&self) -> (r: Option<char>)
        ensures
            r == self@.peek(),
    {
        if self.iterable.is_empty() {
            None
        } else {
            Some(self.iterable.get_char(0))
        }
    }
}

} // verus!
