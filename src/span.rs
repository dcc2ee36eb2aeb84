//! Source spans attached to graph nodes.
use vstd::prelude::*;

verus! {

/// An offset within a line, in three encodings.
#[derive(Clone, Copy, Debug, PartialEq, Eq, Structural)]
pub struct Offset {
    pub utf8_offset: usize,
    pub utf16_offset: usize,
    pub grapheme_offset: usize,
}

/// A half-open range of byte offsets within a source file.
#[derive(Clone, Copy, Debug, PartialEq, Eq, Structural)]
pub struct LineRange {
    pub start: usize,
    pub end: usize,
}

/// One endpoint of a span.
#[derive(Clone, Copy, Debug, PartialEq, Eq, Structural)]
pub struct Position {
    pub line: usize,
    pub column: Offset,
    /// Byte offsets of the line that holds this position.
    pub containing_line: LineRange,
    /// Byte offsets of that line with leading and trailing whitespace removed.
    pub trimmed_line: LineRange,
}

/// A region of a source file.
#[derive(Clone, Copy, Debug, PartialEq, Eq, Structural)]
pub struct Span {
    pub start: Position,
    pub end: Position,
}

impl Offset {
    pub open spec fn spec_zero() -> Offset {
        Offset { utf8_offset: 0, utf16_offset: 0, grapheme_offset: 0 }
    }

    #[verifier::when_used_as_spec(spec_zero)]
    pub fn zero() -> (r: Offset)
        ensures
            r == Offset::spec_zero(),
    {
        Offset { utf8_offset: 0, utf16_offset: 0, grapheme_offset: 0 }
    }
}

impl LineRange {
    pub open spec fn spec_zero() -> LineRange {
        LineRange { start: 0, end: 0 }
    }

    #[verifier::when_used_as_spec(spec_zero)]
    pub fn zero() -> (r: LineRange)
        ensures
            r == LineRange::spec_zero(),
    {
        LineRange { start: 0, end: 0 }
    }
}

impl Position {
    pub open spec fn spec_zero() -> Position {
        Position {
            line: 0,
            column: Offset::spec_zero(),
            containing_line: LineRange::spec_zero(),
            trimmed_line: LineRange::spec_zero(),
        }
    }

    #[verifier::when_used_as_spec(spec_zero)]
    pub fn zero() -> (r: Position)
        ensures
            r == Position::spec_zero(),
    {
        Position {
            line: 0,
            column: Offset::zero(),
            containing_line: LineRange::zero(),
            trimmed_line: LineRange::zero(),
        }
    }
}

impl Span {
    /// The span whose every field is zero: what an unfilled span description denotes.
    pub open spec fn spec_zero() -> Span {
        Span { start: Position::spec_zero(), end: Position::spec_zero() }
    }

    #[verifier::when_used_as_spec(spec_zero)]
    pub fn zero() -> (r: Span)
        ensures
            r == Span::spec_zero(),
    {
        Span { start: Position::zero(), end: Position::zero() }
    }

    pub fn is_zero(&self) -> (r: bool)
        ensures
            r == (*self == Span::spec_zero()),
    {
        *self == Span::zero()
    }
}

impl Default for Span {
    fn default() -> (r: Span)
        ensures
            r == Span::spec_zero(),
    {
        Span::zero()
    }
}

} // verus!
