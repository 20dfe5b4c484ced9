//! Patterns over a tab's stdin and stdout, from which entries of a command
//! history are recognised.

use std::time::Duration;
use vstd::prelude::*;

verus! {

/// A sequence of things that have to happen one after the other.
pub struct Pattern {
    pub parts: Vec<Part>,
}

/// One step of a pattern.
pub enum Part {
    /// The exact bytes, appearing in stdin.
    Stdin(Vec<u8>),
    /// The exact bytes, appearing in stdout.
    Stdout(Vec<u8>),
    /// Inactivity (both stdin and stdout) of at least this duration.
    Inactivity(Duration),
}

/// The parts of a pattern as they were found.
pub struct PatternMatch {
    pub parts: Vec<Part>,
}

/// The line feed, as the one byte that encodes it.
pub open spec fn newline() -> Seq<u8> {
    seq![10u8]
}

/// The pattern of a status line: a line feed in stdout, then a line feed in
/// stdin.
pub fn statusline_pattern() -> (pattern: Pattern)
    ensures
        pattern.parts@.len() == 2,
        pattern.parts@[0] matches Part::Stdout(bytes) && bytes@ == newline(),
        pattern.parts@[1] matches Part::Stdin(bytes) && bytes@ == newline(),
{
    let mut parts: Vec<Part> = Vec::new();
    parts.push(Part::Stdout(line_feed()));
    parts.push(Part::Stdin(line_feed()));
    Pattern { parts }
}

fn line_feed() -> (bytes: Vec<u8>)
    ensures
        bytes@ == newline(),
{
    let mut bytes: Vec<u8> = Vec::new();
    bytes.push(10u8);
    bytes
}

} // verus!
