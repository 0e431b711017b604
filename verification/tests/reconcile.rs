use vdom::live::{LiveOp, LiveTree};
use vdom::vnode::{VComp, VNode};
use vdom::vtag::VTag;
use vdom::vtext::VText;

fn count<F: Fn(&LiveOp) -> bool>(tree: &LiveTree, f: F) -> usize {
    tree.log.iter().filter(|op| f(op)).count()
}

fn rendered_text(tree: &mut LiveTree, content: &str) -> VText {
    let mut vtext = VText::new(content.to_string());
    vtext.apply(tree, None);
    vtext
}

#[test]
fn first_render_creates_and_appends() {
    let mut tree = LiveTree::new();
    let mut vtext = VText::new("hello".to_string());
    vtext.apply(&mut tree, None);

    assert_eq!(tree.log.len(), 2);
    assert!(matches!(&tree.log[0], LiveOp::CreateText { node: 0, text } if text == "hello"));
    assert!(matches!(&tree.log[1], LiveOp::Append { child: 0 }));
    assert_eq!(count(&tree, |op| matches!(op, LiveOp::Replace { .. })), 0);
    assert_eq!(tree.children, vec![0]);
    assert_eq!(vtext.reference.unwrap().id, 0);
}

#[test]
fn unchanged_content_makes_no_live_call() {
    let mut tree = LiveTree::new();
    let old = rendered_text(&mut tree, "same");
    let old_handle = old.reference.unwrap();
    let calls_before = tree.log.len();

    let mut new = VText::new("same".to_string());
    new.apply(&mut tree, Some(VNode::VText(old)));

    assert_eq!(tree.log.len(), calls_before);
    assert_eq!(new.reference.unwrap(), old_handle);
}

#[test]
fn changed_content_mutates_in_place_once() {
    let mut tree = LiveTree::new();
    let old = rendered_text(&mut tree, "one");
    let old_handle = old.reference.unwrap();
    let calls_before = tree.log.len();

    let mut new = VText::new("two".to_string());
    new.apply(&mut tree, Some(VNode::VText(old)));

    assert_eq!(tree.log.len(), calls_before + 1);
    assert!(
        matches!(&tree.log[calls_before], LiveOp::SetText { node, text } if *node == old_handle.id && text == "two")
    );
    assert_eq!(count(&tree, |op| matches!(op, LiveOp::CreateText { .. })), 1);
    assert_eq!(count(&tree, |op| matches!(op, LiveOp::Append { .. })), 1);
    assert_eq!(count(&tree, |op| matches!(op, LiveOp::Replace { .. })), 0);
    assert_eq!(new.reference.unwrap(), old_handle);
    assert!(matches!(&tree.nodes[old_handle.id], vdom::live::LiveNode::Text { text } if text == "two"));
}

#[test]
fn element_opposite_is_replaced() {
    let mut tree = LiveTree::new();
    let mut tag = VTag::new("div".to_string());
    tag.apply(&mut tree, None);
    let wrong = tag.reference.unwrap();
    let calls_before = tree.log.len();

    let mut new = VText::new("text".to_string());
    new.apply(&mut tree, Some(VNode::VTag(tag)));

    assert_eq!(tree.log.len(), calls_before + 2);
    let fresh = new.reference.unwrap();
    assert!(matches!(&tree.log[calls_before], LiveOp::CreateText { node, text } if *node == fresh.id && text == "text"));
    assert!(
        matches!(&tree.log[calls_before + 1], LiveOp::Replace { new_child, old_child } if *new_child == fresh.id && *old_child == wrong.id)
    );
    assert_eq!(count(&tree, |op| matches!(op, LiveOp::SetText { .. })), 0);
    assert_eq!(count(&tree, |op| matches!(op, LiveOp::Append { .. })), 1);
    assert_eq!(tree.children, vec![fresh.id]);
}

#[test]
fn component_opposite_is_replaced() {
    let mut tree = LiveTree::new();
    let root = tree.create_element("section");
    tree.append_child(root.id);
    let comp = VComp { reference: Some(root) };
    let calls_before = tree.log.len();

    let mut new = VText::new("text".to_string());
    new.apply(&mut tree, Some(VNode::VComp(comp)));

    assert_eq!(tree.log.len(), calls_before + 2);
    let fresh = new.reference.unwrap();
    assert!(
        matches!(&tree.log[calls_before + 1], LiveOp::Replace { new_child, old_child } if *new_child == fresh.id && *old_child == root.id)
    );
    assert_eq!(tree.children, vec![fresh.id]);
}

#[test]
fn never_rendered_opposites_behave_like_first_render() {
    let opposites = [
        Some(VNode::VText(VText::new("stale".to_string()))),
        Some(VNode::VTag(VTag::new("div".to_string()))),
        Some(VNode::VComp(VComp { reference: None })),
        None,
    ];
    for opposite in opposites {
        let mut tree = LiveTree::new();
        let mut vtext = VText::new("fresh".to_string());
        vtext.apply(&mut tree, opposite);

        assert_eq!(tree.log.len(), 2);
        assert!(matches!(&tree.log[0], LiveOp::CreateText { node: 0, text } if text == "fresh"));
        assert!(matches!(&tree.log[1], LiveOp::Append { child: 0 }));
        assert_eq!(tree.children, vec![0]);
        assert_eq!(vtext.reference.unwrap().id, 0);
    }
}

#[test]
fn removal_makes_exactly_one_remove_call() {
    let mut tree = LiveTree::new();
    let vtext = rendered_text(&mut tree, "gone");
    let handle = vtext.reference.unwrap();
    let calls_before = tree.log.len();

    vtext.remove(&mut tree);

    assert_eq!(tree.log.len(), calls_before + 1);
    assert!(matches!(&tree.log[calls_before], LiveOp::Remove { child } if *child == handle.id));
    assert!(tree.children.is_empty());
}

#[test]
fn removal_of_detached_node_is_tolerated() {
    let mut tree = LiveTree::new();
    let vtext = rendered_text(&mut tree, "gone");
    let handle = vtext.reference.unwrap();
    tree.remove_child(handle.id);
    assert!(tree.children.is_empty());
    let calls_before = tree.log.len();

    vtext.remove(&mut tree);

    assert_eq!(tree.log.len(), calls_before + 1);
    assert!(matches!(&tree.log[calls_before], LiveOp::Remove { child } if *child == handle.id));
    assert!(tree.children.is_empty());
}

#[test]
fn replace_of_detached_node_leaves_children_alone() {
    let mut tree = LiveTree::new();
    let mut tag = VTag::new("div".to_string());
    tag.apply(&mut tree, None);
    let wrong = tag.reference.unwrap();
    tree.remove_child(wrong.id);

    let mut new = VText::new("text".to_string());
    new.apply(&mut tree, Some(VNode::VTag(tag)));

    let fresh = new.reference.unwrap();
    assert!(matches!(tree.log.last().unwrap(), LiveOp::Replace { new_child, old_child } if *new_child == fresh.id && *old_child == wrong.id));
    assert!(tree.children.is_empty());
}

#[test]
fn matching_element_opposite_hands_its_node_over() {
    let mut tree = LiveTree::new();
    let mut old = VTag::new("div".to_string());
    old.apply(&mut tree, None);
    let live = old.reference.unwrap();
    let calls_before = tree.log.len();

    let mut new = VTag::new("div".to_string());
    new.apply(&mut tree, Some(VNode::VTag(old)));

    assert_eq!(tree.log.len(), calls_before);
    assert_eq!(new.reference.unwrap(), live);
    assert_eq!(tree.children, vec![live.id]);
}

#[test]
fn element_against_live_text_is_replaced() {
    let mut tree = LiveTree::new();
    let old = rendered_text(&mut tree, "words");
    let wrong = old.reference.unwrap();
    let calls_before = tree.log.len();

    let mut new = VTag::new("p".to_string());
    new.apply(&mut tree, Some(VNode::VText(old)));

    assert_eq!(tree.log.len(), calls_before + 2);
    let fresh = new.reference.unwrap();
    assert!(matches!(&tree.log[calls_before], LiveOp::CreateElement { node, tag } if *node == fresh.id && tag == "p"));
    assert!(
        matches!(&tree.log[calls_before + 1], LiveOp::Replace { new_child, old_child } if *new_child == fresh.id && *old_child == wrong.id)
    );
    assert_eq!(tree.children, vec![fresh.id]);
}

#[test]
fn empty_content_renders_and_updates() {
    let mut tree = LiveTree::new();
    let old = rendered_text(&mut tree, "");
    assert!(matches!(&tree.log[0], LiveOp::CreateText { node: 0, text } if text.is_empty()));
    let handle = old.reference.unwrap();

    let mut filled = VText::new("filled".to_string());
    filled.apply(&mut tree, Some(VNode::VText(old)));
    assert!(
        matches!(tree.log.last().unwrap(), LiveOp::SetText { node, text } if *node == handle.id && text == "filled")
    );

    let mut cleared = VText::new(String::new());
    cleared.apply(&mut tree, Some(VNode::VText(filled)));
    assert!(
        matches!(tree.log.last().unwrap(), LiveOp::SetText { node, text } if *node == handle.id && text.is_empty())
    );
    assert_eq!(tree.log.len(), 4);
}

#[test]
fn end_to_end_three_render_passes() {
    let mut tree = LiveTree::new();

    let mut pass1 = VText::new("a".to_string());
    pass1.apply(&mut tree, None);
    assert_eq!(tree.log.len(), 2);
    assert!(matches!(&tree.log[0], LiveOp::CreateText { node: 0, text } if text == "a"));
    assert!(matches!(&tree.log[1], LiveOp::Append { child: 0 }));
    let h1 = pass1.reference.unwrap();

    let mut pass2 = VText::new("b".to_string());
    pass2.apply(&mut tree, Some(VNode::VText(pass1)));
    assert_eq!(tree.log.len(), 3);
    assert!(matches!(&tree.log[2], LiveOp::SetText { node, text } if *node == h1.id && text == "b"));
    assert_eq!(pass2.reference.unwrap(), h1);

    let mut pass3 = VTag::new("div".to_string());
    pass3.apply(&mut tree, Some(VNode::VText(pass2)));
    assert_eq!(tree.log.len(), 5);
    let h2 = pass3.reference.unwrap();
    assert!(matches!(&tree.log[3], LiveOp::CreateElement { node, tag } if *node == h2.id && tag == "div"));
    assert!(
        matches!(&tree.log[4], LiveOp::Replace { new_child, old_child } if *new_child == h2.id && *old_child == h1.id)
    );
    assert_eq!(tree.children, vec![h2.id]);
}
