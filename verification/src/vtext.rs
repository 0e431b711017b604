//! The virtual text node and its reconciliation against the live tree.

use vstd::prelude::*;
use crate::live::LiveTree;
use crate::live::NodeView;
use crate::live::OpView;
use crate::live::TextHandle;
use crate::live::fresh_child_appended;
use crate::live::lemma_fresh_id_not_child;
use crate::live::fresh_child_replaces;
use crate::vnode::VNode;

verus! {

/// A virtual text node: the content one render slot should show, and the live
/// text node showing it once the slot has been reconciled.
#[derive(Debug)]
pub struct VText {
    /// The text of the node.
    pub text: String,
    /// The live text node carrying that text, once rendered.
    pub reference: Option<TextHandle>,
}

/// The same-kind live opposite handed its node over. When the new content
/// differs from what the live node held, exactly one content-mutation call
/// was made, with the new content; otherwise no call at all was made and the
/// tree stands untouched. Nothing was created, appended, replaced or removed
/// either way.
pub open spec fn text_reconciled_in_place(
    pre: LiveTree,
    post: LiveTree,
    live: TextHandle,
    old_content: Seq<char>,
    new_content: Seq<char>,
) -> bool {
    if new_content == old_content {
        post == pre
    } else {
        &&& post.nodes_v() =~= pre.nodes_v().update(
            live.id as int,
            NodeView::Text { text: new_content },
        )
        &&& post.children_ids() == pre.children_ids()
        &&& post.ops() =~= pre.ops().push(
            OpView::SetText { node: live.id as int, text: new_content },
        )
    }
}

/// Outcome of the "no usable live predecessor" case: the new node holds the
/// handle of a fresh live text node appended under the parent.
pub open spec fn text_attached_by_append(
    pre: LiveTree,
    post: LiveTree,
    content: Seq<char>,
    reference: Option<TextHandle>,
) -> bool {
    &&& reference matches Some(h) && h.id == pre.node_count()
    &&& fresh_child_appended(pre, post, NodeView::Text { text: content })
}

/// Outcome of the "wrong kind, already live" case: the new node holds the
/// handle of a fresh live text node that took the place of the wrong-kind
/// live node `wrong`.
pub open spec fn text_attached_by_replace(
    pre: LiveTree,
    post: LiveTree,
    content: Seq<char>,
    reference: Option<TextHandle>,
    wrong: usize,
) -> bool {
    &&& reference matches Some(h) && h.id == pre.node_count()
    &&& fresh_child_replaces(pre, post, NodeView::Text { text: content }, wrong)
}

/// A live handle carried by a same-kind opposite refers to a live text node
/// of this tree.
pub open spec fn text_opposite_live(opposite: Option<VNode>, tree: LiveTree) -> bool {
    match opposite {
        Some(VNode::VText(vt)) => match vt.reference {
            Some(live) => live.id < tree.node_count() && tree.node_at(live.id as int) is Text,
            None => true,
        },
        _ => true,
    }
}

impl VText {
    /// A new virtual text node with content `text`; it has not rendered yet.
    pub fn new(text: String) -> (vtext: VText)
        ensures
            vtext.text == text,
            vtext.reference is None,
    {
        VText { text, reference: None }
    }

    /// Take the slot's live text node out of the parent's child list. Calling
    /// this on a node that never rendered is a caller-side bug, kept out by
    /// the precondition. A live node already gone from the child list is
    /// tolerated: the removal call is still made (and logged), the list
    /// stands as it was, and the goal state holds either way.
    pub fn remove(self, parent: &mut LiveTree)
        requires
            old(parent).wf(),
            self.reference is Some,
        ensures
            final(parent).wf(),
            final(parent).nodes_v() == old(parent).nodes_v(),
            self.reference matches Some(live) ==> {
                &&& final(parent).ops() =~= old(parent).ops().push(
                    OpView::Remove { child: live.id as int },
                )
                &&& if old(parent).children_ids().contains(live.id) {
                    exists|i: int|
                        0 <= i < old(parent).children_ids().len()
                            && old(parent).children_ids()[i] == live.id
                            && final(parent).children_ids() =~= old(parent).children_ids().remove(
                            i,
                        )
                } else {
                    final(parent).children_ids() == old(parent).children_ids()
                }
            },
    {
        let node = self.reference.unwrap();
        parent.remove_child(node.id);
    }

    /// Reconcile this new text node against the node previously occupying the
    /// slot, and record the resulting live handle on it. First match wins: a
    /// live same-kind opposite hands its live node over, whose content is
    /// mutated only if it changed; a live wrong-kind opposite is replaced by
    /// a fresh text node; anything else — no opposite, or one that never
    /// rendered — gets a fresh text node appended under the parent.
    pub fn apply(&mut self, parent: &mut LiveTree, opposite: Option<VNode>)
        requires
            old(parent).wf(),
            old(self).reference is None,
            text_opposite_live(opposite, *old(parent)),
        ensures
            final(parent).wf(),
            final(self).text == old(self).text,
            match opposite {
                Some(VNode::VText(vt)) => match vt.reference {
                    Some(live) => final(self).reference == Some(live)
                        && text_reconciled_in_place(
                        *old(parent),
                        *final(parent),
                        live,
                        vt.text@,
                        old(self).text@,
                    ),
                    None => text_attached_by_append(
                        *old(parent),
                        *final(parent),
                        old(self).text@,
                        final(self).reference,
                    ),
                },
                Some(VNode::VTag(vt)) => match vt.reference {
                    Some(wrong) => text_attached_by_replace(
                        *old(parent),
                        *final(parent),
                        old(self).text@,
                        final(self).reference,
                        wrong.id,
                    ),
                    None => text_attached_by_append(
                        *old(parent),
                        *final(parent),
                        old(self).text@,
                        final(self).reference,
                    ),
                },
                Some(VNode::VComp(vc)) => match vc.reference {
                    Some(wrong) => text_attached_by_replace(
                        *old(parent),
                        *final(parent),
                        old(self).text@,
                        final(self).reference,
                        wrong.id,
                    ),
                    None => text_attached_by_append(
                        *old(parent),
                        *final(parent),
                        old(self).text@,
                        final(self).reference,
                    ),
                },
                None => text_attached_by_append(
                    *old(parent),
                    *final(parent),
                    old(self).text@,
                    final(self).reference,
                ),
            },
    {
        match opposite {
            Some(VNode::VText(vt)) => match vt.reference {
                Some(element) => {
                    if !(self.text == vt.text) {
                        parent.set_node_value(element, self.text.as_str());
                    }
                    self.reference = Some(element);
                },
                None => self.attach_fresh(parent),
            },
            Some(VNode::VTag(vtag)) => match vtag.reference {
                Some(wrong) => self.replace_wrong(parent, wrong.id),
                None => self.attach_fresh(parent),
            },
            Some(VNode::VComp(vcomp)) => match vcomp.reference {
                Some(wrong) => self.replace_wrong(parent, wrong.id),
                None => self.attach_fresh(parent),
            },
            None => self.attach_fresh(parent),
        }
    }

    /// Create a fresh live text node with this node's content and append it
    /// under the parent: the slot had nothing to reuse.
    fn attach_fresh(&mut self, parent: &mut LiveTree)
        requires
            old(parent).wf(),
        ensures
            final(parent).wf(),
            final(self).text == old(self).text,
            text_attached_by_append(
                *old(parent),
                *final(parent),
                old(self).text@,
                final(self).reference,
            ),
    {
        let element = parent.create_text_node(self.text.as_str());
        proof {
            lemma_fresh_id_not_child(*old(parent), element.id);
        }
        parent.append_child(element.id);
        self.reference = Some(element);
    }

    /// Create a fresh live text node with this node's content and swap it in
    /// for the wrong-kind live node `wrong`.
    fn replace_wrong(&mut self, parent: &mut LiveTree, wrong: usize)
        requires
            old(parent).wf(),
        ensures
            final(parent).wf(),
            final(self).text == old(self).text,
            text_attached_by_replace(
                *old(parent),
                *final(parent),
                old(self).text@,
                final(self).reference,
                wrong,
            ),
    {
        let element = parent.create_text_node(self.text.as_str());
        proof {
            lemma_fresh_id_not_child(*old(parent), element.id);
        }
        parent.replace_child(element.id, wrong);
        self.reference = Some(element);
    }
}

impl PartialEq for VText {
    /// Two virtual text nodes are equal when their contents are; the live
    /// handle plays no part.
    fn eq(&self, other: &VText) -> bool {
        self.text == other.text
    }
}

impl vstd::std_specs::cmp::PartialEqSpecImpl for VText {
    open spec fn obeys_eq_spec() -> bool {
        true
    }

    open spec fn eq_spec(&self, other: &VText) -> bool {
        self.text@ == other.text@
    }
}

} // verus!
