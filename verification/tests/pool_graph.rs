use scene_commands::graph::Graph;
use scene_commands::node::BaseBuilder;
use scene_commands::pool::Pool;

#[test]
fn pool_add_take_put_keeps_handle() {
    let mut pool: Pool<u64> = Pool::new();
    let h = pool.add(41);
    assert!(pool.is_valid(h));
    assert_eq!(*pool.borrow(h), 41);

    let (ticket, value) = pool.take_reserve(h);
    assert!(!pool.is_valid(h));
    assert_eq!(value, 41);

    let restored = pool.put_back(ticket, value);
    assert_eq!(restored, h);
    assert!(pool.is_valid(h));
    assert_eq!(*pool.borrow(h), 41);
}

#[test]
fn pool_reserved_slot_is_not_reused() {
    let mut pool: Pool<u64> = Pool::new();
    let h = pool.add(1);
    let (ticket, _) = pool.take_reserve(h);
    let other = pool.add(2);
    assert_ne!(other.index, h.index);
    pool.forget_ticket(ticket);
    let reused = pool.add(3);
    assert_eq!(reused.index, h.index);
    assert_ne!(reused.generation, h.generation);
    assert!(!pool.is_valid(h));
    assert!(pool.is_valid(reused));
}

#[test]
fn stale_handle_does_not_resolve_after_reuse() {
    let mut pool: Pool<u64> = Pool::new();
    let first = pool.add(10);
    let (ticket, _) = pool.take_reserve(first);
    pool.forget_ticket(ticket);
    let second = pool.add(20);
    assert_eq!(second.index, first.index);
    assert!(!pool.is_valid(first));
    assert_eq!(*pool.borrow(second), 20);
}

#[test]
fn graph_add_links_under_root_and_children_track_parents() {
    let root_node = BaseBuilder::new().with_name("root".to_string()).build_node();
    let mut graph = Graph::new(root_node);
    let root = graph.root();
    assert!(graph.is_valid_handle(root));

    let a = graph.add_node(BaseBuilder::new().with_name("a".to_string()).build_node());
    let b = graph.add_node(BaseBuilder::new().with_name("b".to_string()).build_node());
    let kids = graph.children_of(root);
    assert_eq!(kids.len(), 2);
    assert!(kids.contains(&a));
    assert!(kids.contains(&b));

    graph.link_nodes(b, a);
    let kids = graph.children_of(root);
    assert_eq!(kids.len(), 1);
    assert!(kids.contains(&a));
    let kids_of_a = graph.children_of(a);
    assert_eq!(kids_of_a, vec![b]);
}

#[test]
fn graph_take_reserve_detaches_and_put_back_restores() {
    let mut graph = Graph::new(BaseBuilder::new().with_name("root".to_string()).build_node());
    let root = graph.root();
    let a = graph.add_node(BaseBuilder::new().with_name("a".to_string()).build_node());

    let (ticket, node) = graph.take_reserve(a);
    assert!(!graph.is_valid_handle(a));
    assert!(!node.base.parent.is_some());

    let restored = graph.put_back(ticket, node);
    assert_eq!(restored, a);
    graph.link_nodes(a, root);
    assert_eq!(graph.node(a).base.parent, root);
    assert_eq!(graph.node(a).base.name, "a".to_string());
}

#[test]
fn sub_graph_extraction_takes_whole_subtree_only() {
    let mut graph = Graph::new(BaseBuilder::new().with_name("root".to_string()).build_node());
    let a = graph.add_node(BaseBuilder::new().with_name("a".to_string()).build_node());
    let b = graph.add_node(BaseBuilder::new().with_name("b".to_string()).build_node());
    let c = graph.add_node(BaseBuilder::new().with_name("c".to_string()).build_node());
    graph.link_nodes(c, a);

    let sg = graph.take_reserve_sub_graph(a);
    assert!(!graph.is_valid_handle(a));
    assert!(!graph.is_valid_handle(c));
    assert!(graph.is_valid_handle(b));
    assert_eq!(sg.root_handle(), a);

    let restored = graph.put_sub_graph_back(sg);
    assert_eq!(restored, a);
    assert!(graph.is_valid_handle(a));
    assert!(graph.is_valid_handle(c));
    assert_eq!(graph.node(c).base.parent, a);
}

#[test]
fn forget_sub_graph_frees_slots() {
    let mut graph = Graph::new(BaseBuilder::new().with_name("root".to_string()).build_node());
    let a = graph.add_node(BaseBuilder::new().with_name("a".to_string()).build_node());
    let c = graph.add_node(BaseBuilder::new().with_name("c".to_string()).build_node());
    graph.link_nodes(c, a);

    let sg = graph.take_reserve_sub_graph(a);
    graph.forget_sub_graph(sg);

    let r1 = graph.add_node(BaseBuilder::new().with_name("r1".to_string()).build_node());
    let r2 = graph.add_node(BaseBuilder::new().with_name("r2".to_string()).build_node());
    let mut got = vec![r1.index, r2.index];
    got.sort();
    let mut expected = vec![a.index, c.index];
    expected.sort();
    assert_eq!(got, expected);
}
