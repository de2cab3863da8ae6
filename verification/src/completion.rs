//! The field-name completion provider: a fixed item list built from the
//! catalog at construction, and the decision that returns either the whole
//! list or nothing for a given document and cursor position.

use vstd::prelude::*;
use crate::catalog::{field_name_catalog, known_field_names};
use crate::syntax::{enclosing_indices, enclosing_prefix, BibtexNode, DocumentTree};
use crate::text::Position;

verus! {

/// A presentable completion item for one known field name.
#[derive(Clone, Debug, PartialEq)]
pub struct CompletionItem {
    pub label: String,
}

impl View for CompletionItem {
    type V = Seq<char>;

    open spec fn view(&self) -> Seq<char> {
        self.label@
    }
}

impl DeepView for CompletionItem {
    type V = Seq<char>;

    open spec fn deep_view(&self) -> Seq<char> {
        self.label@
    }
}

/// A completion request: the current document's parsed representation and the
/// cursor position.
pub struct FeatureRequest {
    pub tree: DocumentTree,
    pub position: Position,
}

/// Whether an innermost enclosing node puts the cursor in field-name position:
/// on a field's name token, or structurally inside a non-comment entry but
/// outside its type token and (when present) its key token. Any other node
/// kind never does.
pub open spec fn node_allows_completion(node: BibtexNode, pos: Position) -> bool {
    match node {
        BibtexNode::Field(field) => field.name.range.spec_contains(pos),
        BibtexNode::Entry(entry) => {
            &&& !entry.spec_is_comment()
            &&& !entry.ty.range.spec_contains(pos)
            &&& (entry.key matches Some(key) ==> !key.range.spec_contains(pos))
        },
        BibtexNode::Other(_) => false,
    }
}

/// Whether a request yields completions at all: the document must be a
/// bibliography document, some node must enclose the cursor, and the innermost
/// such node must allow completion.
pub open spec fn completion_applies(tree: DocumentTree, pos: Position) -> bool {
    match tree {
        DocumentTree::Bibtex(bib) => {
            let enclosing = enclosing_indices(bib.nodes@, pos);
            enclosing.len() > 0 && node_allows_completion(
                bib.nodes@[enclosing.last() as int],
                pos,
            )
        },
        DocumentTree::Other => false,
    }
}

/// The labels the decision returns: the whole stored list when completion
/// applies, the empty sequence otherwise — never a partial list, never an
/// error.
pub open spec fn completion_result(
    items: Seq<Seq<char>>,
    tree: DocumentTree,
    pos: Position,
) -> Seq<Seq<char>> {
    if completion_applies(tree, pos) {
        items
    } else {
        Seq::empty()
    }
}

/// Every index that `enclosing_prefix` collects points into the prefix it was
/// collected from.
pub proof fn lemma_enclosing_prefix_in_bounds(nodes: Seq<BibtexNode>, pos: Position, n: int)
    requires
        n <= nodes.len(),
    ensures
        forall|k: int|
            0 <= k < enclosing_prefix(nodes, pos, n).len()
                ==> (#[trigger] enclosing_prefix(nodes, pos, n)[k]) < n,
    decreases n,
{
    if n > 0 {
        lemma_enclosing_prefix_in_bounds(nodes, pos, n - 1);
        let rest = enclosing_prefix(nodes, pos, n - 1);
        let cur = enclosing_prefix(nodes, pos, n);
        if nodes[n - 1].spec_range().spec_contains(pos) {
            assert(cur == rest.push((n - 1) as usize));
            assert forall|k: int| 0 <= k < cur.len() implies cur[k] < n by {
                if k < rest.len() {
                    assert(cur[k] == rest[k]);
                } else {
                    assert(cur[k] == (n - 1) as usize);
                }
            }
        } else {
            assert(cur == rest);
        }
    }
}

/// The provider: one completion item per known field name, built once at
/// construction and never mutated afterwards.
#[derive(Clone, Debug, PartialEq)]
pub struct BibtexFieldNameCompletionProvider {
    items: Vec<CompletionItem>,
}

impl View for BibtexFieldNameCompletionProvider {
    type V = Seq<Seq<char>>;

    /// A provider is abstractly the labels of its stored items, in order.
    closed spec fn view(&self) -> Seq<Seq<char>> {
        self.items.deep_view()
    }
}

impl BibtexFieldNameCompletionProvider {
    /// Build the item list from the static catalog: exactly one item per
    /// known field name, in catalog order.
    pub fn new() -> (provider: Self)
        ensures
            provider@ == field_name_catalog(),
    {
        let names = known_field_names();
        let mut items: Vec<CompletionItem> = Vec::new();
        let mut i: usize = 0;
        while i < names.len()
            invariant
                i <= names@.len(),
                names.deep_view() == field_name_catalog(),
                items@.len() == i as int,
                forall|j: int| 0 <= j < i ==> (#[trigger] items@[j]).deep_view() == names@[j]@,
            decreases names@.len() - i,
        {
            let label = names[i].clone();
            items.push(CompletionItem { label });
            i += 1;
        }
        proof {
            assert(items.deep_view() =~= names.deep_view());
        }
        BibtexFieldNameCompletionProvider { items }
    }

    /// The stored item list, for callers that present it.
    pub fn items(&self) -> (items: &Vec<CompletionItem>)
        ensures
            items.deep_view() == self@,
    {
        &self.items
    }

    /// A fresh copy of the stored item list, label for label.
    fn cloned_items(&self) -> (items: Vec<CompletionItem>)
        ensures
            items.deep_view() == self@,
    {
        let mut items: Vec<CompletionItem> = Vec::new();
        let mut i: usize = 0;
        while i < self.items.len()
            invariant
                i <= self.items@.len(),
                items@.len() == i as int,
                forall|j: int| 0 <= j < i ==> (#[trigger] items@[j]).deep_view()
                    == self.items@[j].deep_view(),
            decreases self.items@.len() - i,
        {
            let label = self.items[i].label.clone();
            items.push(CompletionItem { label });
            i += 1;
        }
        proof {
            assert(items.deep_view() =~= self.items.deep_view());
        }
        items
    }

    /// The completion decision: the full stored item list when the cursor
    /// sits in field-name position, the empty list otherwise.
    pub fn execute(&self, request: &FeatureRequest) -> (items: Vec<CompletionItem>)
        ensures
            items.deep_view() == completion_result(self@, request.tree, request.position),
    {
        let pos = request.position;
        if let DocumentTree::Bibtex(bib) = &request.tree {
            let enclosing = bib.find(pos);
            if enclosing.len() > 0 {
                let innermost = enclosing[enclosing.len() - 1];
                proof {
                    lemma_enclosing_prefix_in_bounds(bib.nodes@, pos, bib.nodes@.len() as int);
                }
                match &bib.nodes[innermost] {
                    BibtexNode::Field(field) => {
                        if field.name.range.contains(pos) {
                            return self.cloned_items();
                        }
                    },
                    BibtexNode::Entry(entry) => {
                        if !entry.is_comment() && !entry.ty.range.contains(pos) {
                            match &entry.key {
                                Some(key) => {
                                    if !key.range.contains(pos) {
                                        return self.cloned_items();
                                    }
                                },
                                None => {
                                    return self.cloned_items();
                                },
                            }
                        }
                    },
                    BibtexNode::Other(_) => {},
                }
            }
        }
        let empty: Vec<CompletionItem> = Vec::new();
        proof {
            assert(empty.deep_view() =~= Seq::<Seq<char>>::empty());
        }
        empty
    }
}

/// Law: the decision is deterministic — two results that each satisfy the
/// decision's contract on identical inputs are equal, so repeating a call
/// with the same document and position yields the same labels, and
/// independent requests cannot influence one another's results.
pub proof fn lemma_completion_deterministic(
    items: Seq<Seq<char>>,
    tree: DocumentTree,
    pos: Position,
    first: Seq<Seq<char>>,
    second: Seq<Seq<char>>,
)
    requires
        first == completion_result(items, tree, pos),
        second == completion_result(items, tree, pos),
    ensures
        first == second,
{
}

/// Law: the decision is all-or-nothing — it returns the whole stored item
/// list or the empty list, never a partial list.
pub proof fn lemma_completion_all_or_nothing(
    items: Seq<Seq<char>>,
    tree: DocumentTree,
    pos: Position,
)
    ensures
        completion_result(items, tree, pos) == items || completion_result(items, tree, pos)
            == Seq::<Seq<char>>::empty(),
{
}

} // verus!
