//! A model of the live render tree and of the primitive operations on it.
//!
//! The adapter owns every live node ever created, the ordered child list of
//! the one live parent a slot is reconciled under, and a log of every
//! primitive call made on it. The log lets a caller's contract say exactly
//! which calls a reconciliation performed; the node store and child list say
//! what the live tree looks like afterwards.

use vstd::prelude::*;

verus! {

/// Handle to a live text node: the index the node was created at.
#[derive(Clone, Copy, PartialEq, Eq, Structural, Debug)]
pub struct TextHandle {
    pub id: usize,
}

/// Handle to a live element node: the index the node was created at.
#[derive(Clone, Copy, PartialEq, Eq, Structural, Debug)]
pub struct ElementHandle {
    pub id: usize,
}

/// What one live node holds.
#[derive(Debug)]
pub enum LiveNode {
    Text { text: String },
    Element { tag: String },
}

/// Mathematical value of a live node.
pub enum NodeView {
    Text { text: Seq<char> },
    Element { tag: Seq<char> },
}

impl View for LiveNode {
    type V = NodeView;

    open spec fn view(&self) -> NodeView {
        match self {
            LiveNode::Text { text } => NodeView::Text { text: text@ },
            LiveNode::Element { tag } => NodeView::Element { tag: tag@ },
        }
    }
}

/// One primitive call made on the live tree, as recorded in the log.
#[derive(Debug)]
pub enum LiveOp {
    CreateText { node: usize, text: String },
    CreateElement { node: usize, tag: String },
    SetText { node: usize, text: String },
    Append { child: usize },
    Replace { new_child: usize, old_child: usize },
    Remove { child: usize },
}

/// Mathematical value of one logged primitive call.
pub enum OpView {
    CreateText { node: int, text: Seq<char> },
    CreateElement { node: int, tag: Seq<char> },
    SetText { node: int, text: Seq<char> },
    Append { child: int },
    Replace { new_child: int, old_child: int },
    Remove { child: int },
}

impl View for LiveOp {
    type V = OpView;

    open spec fn view(&self) -> OpView {
        match self {
            LiveOp::CreateText { node, text } => OpView::CreateText {
                node: *node as int,
                text: text@,
            },
            LiveOp::CreateElement { node, tag } => OpView::CreateElement {
                node: *node as int,
                tag: tag@,
            },
            LiveOp::SetText { node, text } => OpView::SetText { node: *node as int, text: text@ },
            LiveOp::Append { child } => OpView::Append { child: *child as int },
            LiveOp::Replace { new_child, old_child } => OpView::Replace {
                new_child: *new_child as int,
                old_child: *old_child as int,
            },
            LiveOp::Remove { child } => OpView::Remove { child: *child as int },
        }
    }
}

/// The creation call that makes a live node of the given value.
pub open spec fn create_op(made: NodeView, node: int) -> OpView {
    match made {
        NodeView::Text { text } => OpView::CreateText { node, text },
        NodeView::Element { tag } => OpView::CreateElement { node, tag },
    }
}

/// An id no node has been created under yet is no child of the parent.
pub proof fn lemma_fresh_id_not_child(tree: LiveTree, id: usize)
    requires
        tree.wf(),
        id >= tree.node_count(),
    ensures
        !tree.children_ids().contains(id),
{
}

/// The tree after a fresh node of value `made` was created and appended under
/// the parent: one create call and one append call, nothing else.
pub open spec fn fresh_child_appended(pre: LiveTree, post: LiveTree, made: NodeView) -> bool {
    let n = pre.node_count();
    &&& post.nodes_v() =~= pre.nodes_v().push(made)
    &&& post.children_ids() =~= pre.children_ids().push(n as usize)
    &&& post.ops() =~= pre.ops() + seq![create_op(made, n), OpView::Append { child: n }]
}

/// The tree after a fresh node of value `made` was created and swapped in for
/// the live node `wrong`: one create call and one replace call, nothing else.
/// When `wrong` was no child of the parent (it was detached behind the
/// caller's back), the child list stands as it was.
pub open spec fn fresh_child_replaces(
    pre: LiveTree,
    post: LiveTree,
    made: NodeView,
    wrong: usize,
) -> bool {
    let n = pre.node_count();
    &&& post.nodes_v() =~= pre.nodes_v().push(made)
    &&& post.ops() =~= pre.ops() + seq![
        create_op(made, n),
        OpView::Replace { new_child: n, old_child: wrong as int },
    ]
    &&& if pre.children_ids().contains(wrong) {
        exists|i: int|
            0 <= i < pre.children_ids().len() && pre.children_ids()[i] == wrong
                && post.children_ids() =~= pre.children_ids().update(i, n as usize)
    } else {
        post.children_ids() == pre.children_ids()
    }
}

/// The live tree a slot is reconciled under: a store of every node created,
/// the parent's ordered child list, and the log of primitive calls.
pub struct LiveTree {
    /// Every live node ever created; the node with handle id `i` is `nodes[i]`.
    pub nodes: Vec<LiveNode>,
    /// Ids of the parent's children, in tree order.
    pub children: Vec<usize>,
    /// Every primitive call made on this tree, oldest first.
    pub log: Vec<LiveOp>,
}

impl LiveTree {
    /// Values of all nodes created so far, in creation order.
    pub open spec fn nodes_v(self) -> Seq<NodeView> {
        self.nodes@.map_values(|n: LiveNode| n@)
    }

    /// How many nodes have been created.
    pub open spec fn node_count(self) -> int {
        self.nodes_v().len() as int
    }

    /// Value of the node with id `i`.
    pub open spec fn node_at(self, i: int) -> NodeView {
        self.nodes_v()[i]
    }

    /// Ids of the parent's children, in tree order.
    pub open spec fn children_ids(self) -> Seq<usize> {
        self.children@
    }

    /// Values of all primitive calls made, oldest first.
    pub open spec fn ops(self) -> Seq<OpView> {
        self.log@.map_values(|op: LiveOp| op@)
    }

    /// Every child id refers to a created node, and no node is a child twice.
    pub open spec fn wf(self) -> bool {
        &&& forall|i: int|
            0 <= i < self.children@.len() ==> (#[trigger] self.children@[i]) < self.nodes@.len()
        &&& forall|i: int, j: int|
            0 <= i < j < self.children@.len() ==> self.children@[i] != self.children@[j]
    }

    /// A fresh live tree: no nodes, no children, no calls made.
    pub fn new() -> (tree: LiveTree)
        ensures
            tree.wf(),
            tree.nodes_v() =~= Seq::<NodeView>::empty(),
            tree.children_ids() =~= Seq::<usize>::empty(),
            tree.ops() =~= Seq::<OpView>::empty(),
    {
        LiveTree { nodes: Vec::new(), children: Vec::new(), log: Vec::new() }
    }

    /// Create a live text node holding `text`; it belongs to no parent yet.
    pub fn create_text_node(&mut self, text: &str) -> (handle: TextHandle)
        requires
            old(self).wf(),
        ensures
            final(self).wf(),
            handle.id == old(self).node_count(),
            final(self).nodes_v() =~= old(self).nodes_v().push(NodeView::Text { text: text@ }),
            final(self).children_ids() == old(self).children_ids(),
            final(self).ops() =~= old(self).ops().push(
                OpView::CreateText { node: handle.id as int, text: text@ },
            ),
    {
        let id = self.nodes.len();
        self.nodes.push(LiveNode::Text { text: text.to_string() });
        self.log.push(LiveOp::CreateText { node: id, text: text.to_string() });
        TextHandle { id }
    }

    /// Create a live element node with the given tag; it belongs to no parent yet.
    pub fn create_element(&mut self, tag: &str) -> (handle: ElementHandle)
        requires
            old(self).wf(),
        ensures
            final(self).wf(),
            handle.id == old(self).node_count(),
            final(self).nodes_v() =~= old(self).nodes_v().push(NodeView::Element { tag: tag@ }),
            final(self).children_ids() == old(self).children_ids(),
            final(self).ops() =~= old(self).ops().push(
                OpView::CreateElement { node: handle.id as int, tag: tag@ },
            ),
    {
        let id = self.nodes.len();
        self.nodes.push(LiveNode::Element { tag: tag.to_string() });
        self.log.push(LiveOp::CreateElement { node: id, tag: tag.to_string() });
        ElementHandle { id }
    }

    /// Overwrite the content of the live text node behind `handle`.
    pub fn set_node_value(&mut self, handle: TextHandle, text: &str)
        requires
            old(self).wf(),
            handle.id < old(self).node_count(),
            old(self).node_at(handle.id as int) is Text,
        ensures
            final(self).wf(),
            final(self).nodes_v() =~= old(self).nodes_v().update(
                handle.id as int,
                NodeView::Text { text: text@ },
            ),
            final(self).children_ids() == old(self).children_ids(),
            final(self).ops() =~= old(self).ops().push(
                OpView::SetText { node: handle.id as int, text: text@ },
            ),
    {
        self.nodes[handle.id] = LiveNode::Text { text: text.to_string() };
        self.log.push(LiveOp::SetText { node: handle.id, text: text.to_string() });
    }

    /// Append the node `child` at the end of the parent's child list.
    pub fn append_child(&mut self, child: usize)
        requires
            old(self).wf(),
            child < old(self).node_count(),
            !old(self).children_ids().contains(child),
        ensures
            final(self).wf(),
            final(self).nodes_v() == old(self).nodes_v(),
            final(self).children_ids() =~= old(self).children_ids().push(child),
            final(self).ops() =~= old(self).ops().push(OpView::Append { child: child as int }),
    {
        self.children.push(child);
        self.log.push(LiveOp::Append { child });
    }

    /// Put `new_child` in the place `old_child` holds in the child list. When
    /// `old_child` is not a child (it was detached behind the caller's back),
    /// the call is still logged but the child list is left as it stands.
    pub fn replace_child(&mut self, new_child: usize, old_child: usize)
        requires
            old(self).wf(),
            new_child < old(self).node_count(),
            !old(self).children_ids().contains(new_child),
        ensures
            final(self).wf(),
            final(self).nodes_v() == old(self).nodes_v(),
            final(self).ops() =~= old(self).ops().push(
                OpView::Replace { new_child: new_child as int, old_child: old_child as int },
            ),
            if old(self).children_ids().contains(old_child) {
                exists|i: int|
                    0 <= i < old(self).children_ids().len()
                        && old(self).children_ids()[i] == old_child
                        && final(self).children_ids() =~= old(self).children_ids().update(
                        i,
                        new_child,
                    )
            } else {
                final(self).children_ids() == old(self).children_ids()
            },
    {
        match find_index(&self.children, old_child) {
            Some(i) => {
                self.children[i] = new_child;
                proof {
                    let pre = old(self).children@;
                    let post = self.children@;
                    assert forall|p: int, q: int|
                        0 <= p < q < post.len() implies post[p] != post[q] by {
                        if p != i && q != i {
                            assert(pre[p] != pre[q]);
                        } else {
                            assert(!pre.contains(new_child));
                            assert(pre[if p == i {
                                q
                            } else {
                                p
                            }] != new_child);
                        }
                    }
                }
            },
            None => {},
        }
        self.log.push(LiveOp::Replace { new_child, old_child });
    }

    /// Take the node `child` out of the parent's child list. When it is not a
    /// child (it was detached already), the call is still logged and the child
    /// list is left as it stands; the result says whether it was found.
    pub fn remove_child(&mut self, child: usize) -> (found: bool)
        requires
            old(self).wf(),
        ensures
            final(self).wf(),
            final(self).nodes_v() == old(self).nodes_v(),
            final(self).ops() =~= old(self).ops().push(OpView::Remove { child: child as int }),
            found == old(self).children_ids().contains(child),
            if found {
                exists|i: int|
                    0 <= i < old(self).children_ids().len() && old(self).children_ids()[i] == child
                        && final(self).children_ids() =~= old(self).children_ids().remove(i)
            } else {
                final(self).children_ids() == old(self).children_ids()
            },
    {
        let found: bool;
        match find_index(&self.children, child) {
            Some(i) => {
                self.children.remove(i);
                found = true;
                proof {
                    let pre = old(self).children@;
                    let post = self.children@;
                    assert forall|p: int|
                        0 <= p < post.len() implies (#[trigger] post[p]) < self.nodes@.len() by {
                        assert(post[p] == if p < i {
                            pre[p]
                        } else {
                            pre[p + 1]
                        });
                    }
                    assert forall|p: int, q: int|
                        0 <= p < q < post.len() implies post[p] != post[q] by {
                        let p0 = if p < i {
                            p
                        } else {
                            p + 1
                        };
                        let q0 = if q < i {
                            q
                        } else {
                            q + 1
                        };
                        assert(post[p] == pre[p0] && post[q] == pre[q0]);
                    }
                }
            },
            None => {
                found = false;
            },
        }
        self.log.push(LiveOp::Remove { child });
        found
    }
}

/// Index of the first occurrence of `target` in `children`, if there is one.
fn find_index(children: &Vec<usize>, target: usize) -> (r: Option<usize>)
    ensures
        match r {
            Some(i) => 0 <= i < children@.len() && children@[i as int] == target && forall|j: int|
                0 <= j < i ==> children@[j] != target,
            None => !children@.contains(target),
        },
{
    let n = children.len();
    let mut idx: usize = 0;
    while idx < n
        invariant
            idx <= n,
            n == children@.len(),
            forall|j: int| 0 <= j < idx ==> children@[j] != target,
        decreases n - idx,
    {
        if children[idx] == target {
            return Some(idx);
        }
        idx += 1;
    }
    None
}

} // verus!
