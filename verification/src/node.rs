//! The markdown syntax tree as the extractor reads it.
//!
//! The tree builder yields many node kinds; the extractor tells apart only
//! list items, paragraphs and text leaves, and treats every other node as a
//! plain container to recurse into.  The tree is modelled with exactly those
//! four shapes; whoever builds the tree maps each other node kind to
//! [`MdNode::Container`], with no children where it has none.

use vstd::prelude::*;

verus! {

/// One node of the syntax tree, read-only once built.
pub enum MdNode {
    /// Any node the extractor has no special reading of, with its ordered
    /// children.
    Container { children: Vec<MdNode> },
    /// A list item with its checkbox tri-state: checked, unchecked, or not
    /// a checkbox at all.
    ListItem { checked: Option<bool>, children: Vec<MdNode> },
    /// A paragraph with its ordered inline children.
    Paragraph { children: Vec<MdNode> },
    /// A literal text leaf.
    Text { value: String },
}

impl MdNode {
    /// The node's ordered children; a text leaf has none.
    pub open spec fn spec_children(self) -> Seq<MdNode> {
        match self {
            MdNode::Container { children } => children@,
            MdNode::ListItem { checked: _, children } => children@,
            MdNode::Paragraph { children } => children@,
            MdNode::Text { value: _ } => Seq::empty(),
        }
    }
}

} // verus!
