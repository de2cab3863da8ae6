//! Cursor positions and source ranges, with the inclusive containment
//! predicate that the completion decision is built on.

use vstd::prelude::*;

verus! {

/// A (line, column) cursor location, zero-based, as a text editor reports it.
#[derive(Clone, Copy, PartialEq, Eq, Structural, Debug)]
pub struct Position {
    pub line: u32,
    pub character: u32,
}

impl Position {
    /// Lexicographic order on (line, character).
    pub open spec fn spec_le(self, other: Position) -> bool {
        ||| self.line < other.line
        ||| (self.line == other.line && self.character <= other.character)
    }

    pub fn new(line: u32, character: u32) -> (pos: Position)
        ensures
            pos == (Position { line, character }),
    {
        Position { line, character }
    }

    pub fn le(self, other: Position) -> (r: bool)
        ensures
            r == self.spec_le(other),
    {
        self.line < other.line || (self.line == other.line && self.character <= other.character)
    }
}

/// A source range: the positions from `start` to `end`.
#[derive(Clone, Copy, PartialEq, Eq, Structural, Debug)]
pub struct TextRange {
    pub start: Position,
    pub end: Position,
}

impl TextRange {
    /// Containment is inclusive at both endpoints.
    pub open spec fn spec_contains(self, pos: Position) -> bool {
        self.start.spec_le(pos) && pos.spec_le(self.end)
    }

    pub fn new(start: Position, end: Position) -> (range: TextRange)
        ensures
            range == (TextRange { start, end }),
    {
        TextRange { start, end }
    }

    pub fn contains(self, pos: Position) -> (r: bool)
        ensures
            r == self.spec_contains(pos),
    {
        self.start.le(pos) && pos.le(self.end)
    }
}

} // verus!
