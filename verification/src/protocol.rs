//! The values exchanged with an editor: positions, ranges and the answers
//! to queries.

use vstd::prelude::*;

verus! {

/// A place in a document: a zero-based line and, within it, an offset
/// counted in UTF-16 code units.
#[derive(Debug, Clone, Copy, PartialEq, Eq, Structural)]
pub struct Position {
    pub line: u32,
    pub character: u32,
}

/// The part of a document from `start` up to, but not including, `end`.
#[derive(Debug, Clone, Copy, PartialEq, Eq, Structural)]
pub struct Range {
    pub start: Position,
    pub end: Position,
}

impl Position {
    /// Positions are ordered by line, then by character.
    pub open spec fn before(self, other: Position) -> bool {
        self.line < other.line || (self.line == other.line && self.character < other.character)
    }

    /// `self` is `other` or comes before it.
    pub open spec fn at_or_before(self, other: Position) -> bool {
        self == other || self.before(other)
    }

    pub fn new(line: u32, character: u32) -> (position: Position)
        ensures
            position.line == line,
            position.character == character,
    {
        Position { line, character }
    }

    pub fn is_before(&self, other: &Position) -> (earlier: bool)
        ensures
            earlier == self.before(*other),
    {
        self.line < other.line || (self.line == other.line && self.character < other.character)
    }
}

impl Range {
    /// Whether `position` lies in the range; the end of a range is outside it.
    pub open spec fn holds(self, position: Position) -> bool {
        self.start.at_or_before(position) && position.before(self.end)
    }

    pub fn new(start: Position, end: Position) -> (range: Range)
        ensures
            range.start == start,
            range.end == end,
    {
        Range { start, end }
    }
}

/// What kind of thing a symbol of the outline is.
#[derive(Debug, Clone, Copy, PartialEq, Eq, Structural)]
pub enum SymbolKind {
    Function,
    Class,
    Constant,
    Field,
    EnumMember,
    Constructor,
}

/// A mark on a symbol of the outline.
#[derive(Debug, Clone, Copy, PartialEq, Eq, Structural)]
pub enum SymbolTag {
    Deprecated,
}

/// An entry of the outline of a document, with the entries below it.
#[derive(Debug, PartialEq, Eq)]
pub struct DocumentSymbol {
    pub name: String,
    pub detail: Option<String>,
    pub kind: SymbolKind,
    pub tags: Option<Vec<SymbolTag>>,
    /// All of the source that belongs to the symbol.
    pub range: Range,
    /// The name of the symbol, which the editor selects.
    pub selection_range: Range,
    pub children: Option<Vec<DocumentSymbol>>,
}

/// What is shown for the place under the cursor.
#[derive(Debug, Clone, PartialEq, Eq)]
pub struct Hover {
    pub contents: String,
    pub range: Option<Range>,
}

/// A range in the document named by `uri`.
#[derive(Debug, Clone, PartialEq, Eq)]
pub struct Location {
    pub uri: String,
    pub range: Range,
}

/// The replacement of a range of a document by a text.
#[derive(Debug, Clone, PartialEq, Eq)]
pub struct TextEdit {
    pub range: Range,
    pub new_text: String,
}

/// What kind of change a code action makes.
#[derive(Debug, Clone, Copy, PartialEq, Eq, Structural)]
pub enum CodeActionKind {
    QuickFix,
}

/// A change that the editor can offer to make to the document `uri`.
#[derive(Debug, Clone, PartialEq, Eq)]
pub struct CodeAction {
    pub title: String,
    pub kind: CodeActionKind,
    pub uri: String,
    pub edits: Vec<TextEdit>,
    pub is_preferred: bool,
}

/// A request about a place in a document.
#[derive(Debug, Clone, PartialEq, Eq)]
pub struct TextDocumentPositionParams {
    pub uri: String,
    pub position: Position,
}

/// A request for the changes that can be offered for a range of a document.
#[derive(Debug, Clone, PartialEq, Eq)]
pub struct CodeActionParams {
    pub uri: String,
    pub range: Range,
}

/// A request for the outline of a document.
#[derive(Debug, Clone, PartialEq, Eq)]
pub struct DocumentSymbolParams {
    pub uri: String,
}

} // verus!
