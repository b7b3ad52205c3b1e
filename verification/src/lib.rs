//! A parser-combinator engine over an immutable, position-tracked input
//! stream.
//!
//! The engine is a small algebra of parsing primitives (`Char`, `Literal`)
//! composed by higher-order combinators (`Sequence`, `Choice`, `Maybe`,
//! `Repeat`).  Every parser exposes a diagnostic name and a `run` operation
//! from a stream to a result paired with a stream.  Streams are immutable
//! values: consuming input produces a new stream and leaves the old one
//! usable, which is what makes backtracking safe.  The central contract,
//! carried by the `Parser` trait itself, is that a failing run never
//! advances the stream: the stream returned with a failure equals the
//! stream the attempt started from.

pub mod combinators;
pub mod laws;
pub mod outcome;
pub mod parser;
pub mod repeat;
pub mod stream;
