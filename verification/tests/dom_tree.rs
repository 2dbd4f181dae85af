use uzumaki::cursor::{resolve_cursor, UzCursorIcon};
use uzumaki::dom_tree::{DomTree, NodeLinks};
use uzumaki::element::{NodeData, TextNode};
use uzumaki::interactivity::hover_order;

fn tree_with(ids: &[usize]) -> DomTree {
    let mut t = DomTree::new();
    for id in ids {
        t.add_node(*id);
    }
    t
}

fn links(t: &DomTree, id: usize) -> NodeLinks {
    t.get(id).unwrap()
}

#[test]
fn appending_and_inserting_children() {
    let mut t = tree_with(&[0, 1, 2, 3, 4, 5]);
    t.append_child(0, 1);
    t.append_child(0, 2);
    t.append_child(0, 3);
    t.append_child(2, 4);
    t.insert_before(0, 5, 2);
    let root = links(&t, 0);
    assert_eq!((root.first_child, root.last_child), (Some(1), Some(3)));
    assert_eq!((links(&t, 1).next_sibling, links(&t, 5).prev_sibling), (Some(5), Some(1)));
    assert_eq!((links(&t, 5).next_sibling, links(&t, 2).prev_sibling), (Some(2), Some(5)));
    assert_eq!(links(&t, 4).parent, Some(2));
    assert_eq!(t.subtree_ids(0), Some(vec![0, 3, 2, 4, 5, 1]));
    assert_eq!(t.subtree_ids(9), Some(vec![]));
    assert_eq!(t.ancestor_path(4), Some(vec![4, 2, 0]));
    assert_eq!(t.ancestor_path(7), Some(vec![7]));
}

#[test]
fn removing_a_child_drops_its_subtree() {
    let mut t = tree_with(&[0, 1, 2, 3, 4]);
    t.append_child(0, 1);
    t.append_child(0, 2);
    t.append_child(0, 3);
    t.append_child(2, 4);
    assert_eq!(t.remove_child(0, 2), Some(vec![2, 4]));
    assert!(!t.contains(2) && !t.contains(4));
    assert_eq!(links(&t, 1).next_sibling, Some(3));
    assert_eq!(links(&t, 3).prev_sibling, Some(1));
    t.unlink_child(0, 3);
    assert_eq!(links(&t, 0).last_child, Some(1));
    assert_eq!(links(&t, 1).next_sibling, None);
}

#[test]
fn clearing_children_keeps_the_parent() {
    let mut t = tree_with(&[0, 1, 2, 3]);
    t.append_child(0, 1);
    t.append_child(0, 2);
    t.append_child(1, 3);
    assert_eq!(t.clear_children(0), Some(vec![2, 1, 3]));
    assert!(t.contains(0));
    assert!(!t.contains(1) && !t.contains(2) && !t.contains(3));
    assert_eq!((links(&t, 0).first_child, links(&t, 0).last_child), (None, None));
}

#[test]
fn broken_trees_are_refused() {
    let mut t = tree_with(&[0, 1]);
    t.append_child(0, 1);
    t.append_child(1, 0);
    assert_eq!(t.ancestor_path(1), None);
    assert_eq!(t.subtree_ids(0), None);
    assert_eq!(t.clear_children(0), None);
    assert!(t.contains(1));
    assert!(t.can_remove_all(&[0, 1]));
    assert!(!t.can_remove_all(&[0, 0]));
    assert!(!t.can_remove_all(&[5]));
    t.remove_nodes(&[0]);
    assert!(!t.contains(0));
    assert_eq!(t.remove_child(3, 1), None);
}

#[test]
fn plain_text_inherits_cursor_from_parent() {
    let mut t = tree_with(&[0, 1]);
    t.append_child(0, 1);
    let style_cursors = [Some(UzCursorIcon::Pointer), None];
    let child = NodeData::create_text(TextNode::new("pointer".to_string()));
    let path = t.ancestor_path(1).unwrap();
    let ancestors: Vec<Option<UzCursorIcon>> = path[1..].iter().map(|id| style_cursors[*id]).collect();
    assert_eq!(
        resolve_cursor(style_cursors[1], child.default_cursor(), false, &ancestors),
        UzCursorIcon::Pointer
    );
}

#[test]
fn hit_test_hover_and_dispatch_follow_top_node_ancestors_not_siblings() {
    let (root, sibling, modal) = (0usize, 1usize, 2usize);
    let mut t = tree_with(&[root, sibling, modal]);
    t.append_child(root, sibling);
    t.append_child(root, modal);
    // The sibling's hitbox (painted first) and the modal's both hold the
    // pointer at (30, 30).
    let (under_pointer, top) = hover_order(&[(sibling, true), (modal, true)]);
    assert_eq!(under_pointer, vec![sibling, modal]);
    assert_eq!(top, Some(modal));
    let dispatch_path = t.ancestor_path(top.unwrap()).unwrap();
    assert_eq!(dispatch_path, vec![modal, root]);
    let hovered: Vec<usize> = dispatch_path.iter().rev().copied().collect();
    assert_eq!(hovered, vec![root, modal]);
    assert!(!dispatch_path.contains(&sibling));
}

#[test]
fn hover_path_runs_from_the_root_to_the_top_node() {
    let mut t = tree_with(&[0, 1, 2, 3]);
    t.append_child(0, 1);
    t.append_child(1, 2);
    t.append_child(0, 3);
    assert_eq!(t.hover_path(2), Some(vec![0, 1, 2]));
    assert_eq!(t.hover_path(3), Some(vec![0, 3]));
}
