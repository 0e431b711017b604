//! The virtual node: a closed union of the kinds a render slot can hold, and
//! the equality oracle over it.

use vstd::prelude::*;
use crate::live::ElementHandle;
use crate::vtag::VTag;
use crate::vtext::VText;

verus! {

/// A component-rooted subtree occupying a slot. Its props and lifecycle are
/// the component collaborator's concern; reconciliation here sees only its
/// kind and the live handle of its root.
#[derive(Debug)]
pub struct VComp {
    /// The live element the component rendered into, once it has.
    pub reference: Option<ElementHandle>,
}

/// A virtual node: what one render-tree slot holds for one render pass.
#[derive(Debug)]
pub enum VNode {
    VText(VText),
    VTag(VTag),
    VComp(VComp),
}

/// Value equality of two virtual nodes: the same kind carrying equal values.
/// Live handles play no part. Component props belong to the component
/// collaborator, so two components never count as equal here and a caller
/// never skips reconciling a component subtree.
pub open spec fn node_equal(a: VNode, b: VNode) -> bool {
    match (a, b) {
        (VNode::VText(x), VNode::VText(y)) => x.text@ == y.text@,
        (VNode::VTag(x), VNode::VTag(y)) => x.tag@ == y.tag@,
        _ => false,
    }
}

/// The equality oracle: a tree-walking caller asks it whether a slot's value
/// is unchanged before deciding to skip reconciling that subtree.
pub fn equals(a: &VNode, b: &VNode) -> (r: bool)
    ensures
        r == node_equal(*a, *b),
{
    match (a, b) {
        (VNode::VText(x), VNode::VText(y)) => x.text == y.text,
        (VNode::VTag(x), VNode::VTag(y)) => x.tag == y.tag,
        _ => false,
    }
}

/// Equality-oracle law: two text nodes are equal exactly when their contents
/// are, whatever live handle either carries, and a text node never equals an
/// element node.
pub proof fn lemma_equality_oracle(a: VText, b: VText, e: VTag)
    ensures
        node_equal(VNode::VText(a), VNode::VText(b)) <==> a.text@ == b.text@,
        !node_equal(VNode::VText(a), VNode::VTag(e)),
{
}

} // verus!
