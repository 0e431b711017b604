//! The virtual element node, reconciled as far as the shared protocol fixes
//! it: kind matching and the live-handle lifecycle. What happens inside a
//! matching live element — attribute and listener diffing, child-list
//! reconciliation — is the element collaborator's concern, outside this core.

use vstd::prelude::*;
use crate::live::ElementHandle;
use crate::live::LiveTree;
use crate::live::NodeView;
use crate::live::fresh_child_appended;
use crate::live::lemma_fresh_id_not_child;
use crate::live::fresh_child_replaces;
use crate::vnode::VNode;

verus! {

/// A virtual element node, carried here only as far as the shared protocol
/// needs it: its tag and its live handle.
#[derive(Debug)]
pub struct VTag {
    /// The element's tag.
    pub tag: String,
    /// The live element for this slot, once rendered.
    pub reference: Option<ElementHandle>,
}

/// Outcome of the "no usable live predecessor" case for an element: the new
/// node holds the handle of a fresh live element appended under the parent.
pub open spec fn element_attached_by_append(
    pre: LiveTree,
    post: LiveTree,
    tag: Seq<char>,
    reference: Option<ElementHandle>,
) -> bool {
    &&& reference matches Some(h) && h.id == pre.node_count()
    &&& fresh_child_appended(pre, post, NodeView::Element { tag })
}

/// Outcome of the "wrong kind, already live" case for an element: the new
/// node holds the handle of a fresh live element that took the place of the
/// wrong-kind live node `wrong`.
pub open spec fn element_attached_by_replace(
    pre: LiveTree,
    post: LiveTree,
    tag: Seq<char>,
    reference: Option<ElementHandle>,
    wrong: usize,
) -> bool {
    &&& reference matches Some(h) && h.id == pre.node_count()
    &&& fresh_child_replaces(pre, post, NodeView::Element { tag }, wrong)
}

impl VTag {
    /// A new virtual element node with the given tag; it has not rendered yet.
    pub fn new(tag: String) -> (vtag: VTag)
        ensures
            vtag.tag == tag,
            vtag.reference is None,
    {
        VTag { tag, reference: None }
    }

    /// Reconcile this new element node against the slot's previous occupant,
    /// by the same three-case protocol as the text node. A live same-kind
    /// opposite hands its live node over, untouched and never replaced:
    /// mutating a matching element in place is the element collaborator's
    /// diffing. A live wrong-kind opposite is replaced by a fresh element;
    /// anything else gets a fresh element appended under the parent.
    pub fn apply(&mut self, parent: &mut LiveTree, opposite: Option<VNode>)
        requires
            old(parent).wf(),
            old(self).reference is None,
        ensures
            final(parent).wf(),
            final(self).tag == old(self).tag,
            match opposite {
                Some(VNode::VTag(vt)) => match vt.reference {
                    Some(live) => final(self).reference == Some(live) && *final(parent) == *old(
                        parent,
                    ),
                    None => element_attached_by_append(
                        *old(parent),
                        *final(parent),
                        old(self).tag@,
                        final(self).reference,
                    ),
                },
                Some(VNode::VText(vt)) => match vt.reference {
                    Some(wrong) => element_attached_by_replace(
                        *old(parent),
                        *final(parent),
                        old(self).tag@,
                        final(self).reference,
                        wrong.id,
                    ),
                    None => element_attached_by_append(
                        *old(parent),
                        *final(parent),
                        old(self).tag@,
                        final(self).reference,
                    ),
                },
                Some(VNode::VComp(vc)) => match vc.reference {
                    Some(wrong) => element_attached_by_replace(
                        *old(parent),
                        *final(parent),
                        old(self).tag@,
                        final(self).reference,
                        wrong.id,
                    ),
                    None => element_attached_by_append(
                        *old(parent),
                        *final(parent),
                        old(self).tag@,
                        final(self).reference,
                    ),
                },
                None => element_attached_by_append(
                    *old(parent),
                    *final(parent),
                    old(self).tag@,
                    final(self).reference,
                ),
            },
    {
        match opposite {
            Some(VNode::VTag(vtag)) => match vtag.reference {
                Some(element) => {
                    self.reference = Some(element);
                },
                None => self.attach_fresh(parent),
            },
            Some(VNode::VText(vtext)) => match vtext.reference {
                Some(wrong) => self.replace_wrong(parent, wrong.id),
                None => self.attach_fresh(parent),
            },
            Some(VNode::VComp(vcomp)) => match vcomp.reference {
                Some(wrong) => self.replace_wrong(parent, wrong.id),
                None => self.attach_fresh(parent),
            },
            None => self.attach_fresh(parent),
        }
    }

    /// Create a fresh live element with this node's tag and append it under
    /// the parent: the slot had nothing to reuse.
    fn attach_fresh(&mut self, parent: &mut LiveTree)
        requires
            old(parent).wf(),
        ensures
            final(parent).wf(),
            final(self).tag == old(self).tag,
            element_attached_by_append(
                *old(parent),
                *final(parent),
                old(self).tag@,
                final(self).reference,
            ),
    {
        let element = parent.create_element(self.tag.as_str());
        proof {
            lemma_fresh_id_not_child(*old(parent), element.id);
        }
        parent.append_child(element.id);
        self.reference = Some(element);
    }

    /// Create a fresh live element with this node's tag and swap it in for
    /// the wrong-kind live node `wrong`.
    fn replace_wrong(&mut self, parent: &mut LiveTree, wrong: usize)
        requires
            old(parent).wf(),
        ensures
            final(parent).wf(),
            final(self).tag == old(self).tag,
            element_attached_by_replace(
                *old(parent),
                *final(parent),
                old(self).tag@,
                final(self).reference,
                wrong,
            ),
    {
        let element = parent.create_element(self.tag.as_str());
        proof {
            lemma_fresh_id_not_child(*old(parent), element.id);
        }
        parent.replace_child(element.id, wrong);
        self.reference = Some(element);
    }
}

} // verus!
