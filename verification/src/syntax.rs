//! The slice of the bibliography syntax tree that field-name completion
//! reads: tokens with ranges, field and entry nodes, and the query for the
//! nodes that enclose a cursor position.
//!
//! The nodes are produced by the hosting server's parser; this library only
//! reads them. Each node carries its full source range; an entry additionally
//! carries its type token and optional citation-key token, and a field carries
//! its name token.

use vstd::prelude::*;
use vstd::string::StrSliceExecFns;
use crate::text::{Position, TextRange};

verus! {

/// A lexical token: its source range and its text.
#[derive(Clone, Debug, PartialEq)]
pub struct BibtexToken {
    pub range: TextRange,
    pub text: String,
}

/// A field node: `name = value` (or a bare name still being typed) inside an
/// entry body. Only the name token takes part in the completion decision;
/// `range` spans the whole field including its value.
#[derive(Clone, Debug, PartialEq)]
pub struct BibtexField {
    pub range: TextRange,
    pub name: BibtexToken,
}

/// An entry node: `@type{key, fields...}`. `ty` is the type token (`@type`);
/// `key` is the citation-key token, absent while the user has not typed one.
#[derive(Clone, Debug, PartialEq)]
pub struct BibtexEntry {
    pub range: TextRange,
    pub ty: BibtexToken,
    pub key: Option<BibtexToken>,
}

/// The type-token text that marks a comment entry, compared ignoring ASCII
/// case: `@comment`, `@Comment`, `@COMMENT`, ...
pub open spec fn is_comment_marker(s: Seq<char>) -> bool {
    &&& s.len() == 8
    &&& s[0] == '@'
    &&& (s[1] == 'c' || s[1] == 'C')
    &&& (s[2] == 'o' || s[2] == 'O')
    &&& (s[3] == 'm' || s[3] == 'M')
    &&& (s[4] == 'm' || s[4] == 'M')
    &&& (s[5] == 'e' || s[5] == 'E')
    &&& (s[6] == 'n' || s[6] == 'N')
    &&& (s[7] == 't' || s[7] == 'T')
}

impl BibtexEntry {
    /// A comment entry never offers field-name completions.
    pub open spec fn spec_is_comment(self) -> bool {
        is_comment_marker(self.ty.text@)
    }

    pub fn is_comment(&self) -> (r: bool)
        ensures
            r == self.spec_is_comment(),
    {
        let ty_text = self.ty.text.as_str();
        if ty_text.unicode_len() != 8 {
            return false;
        }
        ty_text.get_char(0) == '@' && (ty_text.get_char(1) == 'c' || ty_text.get_char(1) == 'C')
            && (ty_text.get_char(2) == 'o' || ty_text.get_char(2) == 'O')
            && (ty_text.get_char(3) == 'm' || ty_text.get_char(3) == 'M')
            && (ty_text.get_char(4) == 'm' || ty_text.get_char(4) == 'M')
            && (ty_text.get_char(5) == 'e' || ty_text.get_char(5) == 'E')
            && (ty_text.get_char(6) == 'n' || ty_text.get_char(6) == 'N')
            && (ty_text.get_char(7) == 't' || ty_text.get_char(7) == 'T')
    }
}

/// The kinds of node the decision policy distinguishes: a field, an entry,
/// and every other node kind, of which only the source range matters.
#[derive(Clone, Debug, PartialEq)]
pub enum BibtexNode {
    Field(BibtexField),
    Entry(BibtexEntry),
    Other(TextRange),
}

impl BibtexNode {
    pub open spec fn spec_range(self) -> TextRange {
        match self {
            BibtexNode::Field(field) => field.range,
            BibtexNode::Entry(entry) => entry.range,
            BibtexNode::Other(range) => range,
        }
    }

    pub fn range(&self) -> (r: TextRange)
        ensures
            r == self.spec_range(),
    {
        match self {
            BibtexNode::Field(field) => field.range,
            BibtexNode::Entry(entry) => entry.range,
            BibtexNode::Other(range) => *range,
        }
    }
}

/// The indices into the first `n` nodes whose range contains `pos`, in
/// ascending order.
pub open spec fn enclosing_prefix(nodes: Seq<BibtexNode>, pos: Position, n: int) -> Seq<usize>
    decreases n,
{
    if n <= 0 {
        Seq::empty()
    } else {
        let rest = enclosing_prefix(nodes, pos, n - 1);
        if nodes[n - 1].spec_range().spec_contains(pos) {
            rest.push((n - 1) as usize)
        } else {
            rest
        }
    }
}

/// The indices of all nodes whose range contains `pos`, in ascending order.
/// The nodes are stored in preorder (an entry before its fields), so the last
/// index names the innermost enclosing node.
pub open spec fn enclosing_indices(nodes: Seq<BibtexNode>, pos: Position) -> Seq<usize> {
    enclosing_prefix(nodes, pos, nodes.len() as int)
}

/// A parsed bibliography document: its nodes in preorder, each enclosing
/// node standing before the nodes it contains.
#[derive(Clone, Debug, PartialEq)]
pub struct BibtexTree {
    pub nodes: Vec<BibtexNode>,
}

impl BibtexTree {
    /// All nodes enclosing `pos`, as indices into `nodes`, innermost last.
    pub fn find(&self, pos: Position) -> (found: Vec<usize>)
        ensures
            found@ == enclosing_indices(self.nodes@, pos),
    {
        let mut found: Vec<usize> = Vec::new();
        let mut i: usize = 0;
        while i < self.nodes.len()
            invariant
                i <= self.nodes@.len(),
                found@ == enclosing_prefix(self.nodes@, pos, i as int),
            decreases self.nodes@.len() - i,
        {
            let node = &self.nodes[i];
            if node.range().contains(pos) {
                found.push(i);
            }
            i += 1;
        }
        found
    }
}

/// A document's parsed representation, tagged by kind: only bibliography
/// documents can yield field-name completions.
#[derive(Clone, Debug, PartialEq)]
pub enum DocumentTree {
    Bibtex(BibtexTree),
    Other,
}

} // verus!
