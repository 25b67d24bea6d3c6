use scene_commands::command_field::SetNodeFieldCommand;
use scene_commands::command_link::LinkNodesCommand;
use scene_commands::command_node::AddNodeCommand;
use scene_commands::command_node::DeleteNodeCommand;
use scene_commands::command_sub_graph::DeleteSubGraphCommand;
use scene_commands::command_transform::MoveNodeCommand;
use scene_commands::command_transform::RotateNodeCommand;
use scene_commands::command_transform::ScaleNodeCommand;
use scene_commands::handle::Handle;
use scene_commands::node::BaseBuilder;
use scene_commands::node::FieldValue;
use scene_commands::node::Mobility;
use scene_commands::node::Quaternion;
use scene_commands::node::Vector3;
use scene_commands::scene::Scene;
use scene_commands::scene::SceneContext;

fn context_with_root() -> SceneContext {
    let root = BaseBuilder::new().with_name("__ROOT__".to_string()).build_node();
    SceneContext::new(Scene::new(root))
}

#[test]
fn move_node_execute_revert_execute() {
    let mut ctx = context_with_root();
    let a = BaseBuilder::new().with_name("A".to_string()).build_node();
    let h = ctx.scene.graph.add_node(a);
    assert_eq!(
        ctx.scene.graph.node(h).base.local_transform.position,
        Vector3::new(0, 0, 0)
    );

    let mut cmd = MoveNodeCommand::new(h, Vector3::new(0, 0, 0), Vector3::new(1, 2, 3));
    cmd.execute(&mut ctx);
    assert_eq!(
        ctx.scene.graph.node(h).base.local_transform.position,
        Vector3::new(1, 2, 3)
    );
    cmd.revert(&mut ctx);
    assert_eq!(
        ctx.scene.graph.node(h).base.local_transform.position,
        Vector3::new(0, 0, 0)
    );
    cmd.execute(&mut ctx);
    assert_eq!(
        ctx.scene.graph.node(h).base.local_transform.position,
        Vector3::new(1, 2, 3)
    );
}

#[test]
fn scale_and_rotate_round_trip() {
    let mut ctx = context_with_root();
    let h = ctx
        .scene
        .graph
        .add_node(BaseBuilder::new().with_name("S".to_string()).build_node());

    let mut scale = ScaleNodeCommand::new(h, Vector3::new(1, 1, 1), Vector3::new(2, 4, 8));
    scale.execute(&mut ctx);
    assert_eq!(
        ctx.scene.graph.node(h).base.local_transform.scale,
        Vector3::new(2, 4, 8)
    );
    scale.revert(&mut ctx);
    assert_eq!(
        ctx.scene.graph.node(h).base.local_transform.scale,
        Vector3::new(1, 1, 1)
    );

    let q0 = Quaternion::identity();
    let q1 = Quaternion::new(1, 0, 0, 0);
    let mut rotate = RotateNodeCommand::new(h, q0, q1);
    rotate.execute(&mut ctx);
    assert_eq!(ctx.scene.graph.node(h).base.local_transform.rotation, q1);
    rotate.revert(&mut ctx);
    assert_eq!(ctx.scene.graph.node(h).base.local_transform.rotation, q0);
    rotate.execute(&mut ctx);
    assert_eq!(ctx.scene.graph.node(h).base.local_transform.rotation, q1);
}

#[test]
fn field_swap_commands_round_trip() {
    let mut ctx = context_with_root();
    let h = ctx
        .scene
        .graph
        .add_node(BaseBuilder::new().with_name("F".to_string()).build_node());

    let mut set_name = SetNodeFieldCommand::new(h, FieldValue::Name("renamed".to_string()));
    set_name.execute(&mut ctx);
    assert_eq!(ctx.scene.graph.node(h).base.name, "renamed".to_string());
    assert_eq!(set_name.value, FieldValue::Name("F".to_string()));
    set_name.revert(&mut ctx);
    assert_eq!(ctx.scene.graph.node(h).base.name, "F".to_string());
    set_name.execute(&mut ctx);
    assert_eq!(ctx.scene.graph.node(h).base.name, "renamed".to_string());

    let mut set_vis = SetNodeFieldCommand::new(h, FieldValue::Visibility(false));
    set_vis.execute(&mut ctx);
    assert!(!ctx.scene.graph.node(h).base.visibility);
    set_vis.revert(&mut ctx);
    assert!(ctx.scene.graph.node(h).base.visibility);

    let mut set_mob = SetNodeFieldCommand::new(h, FieldValue::Mobility(Mobility::Dynamic));
    set_mob.execute(&mut ctx);
    assert_eq!(ctx.scene.graph.node(h).base.mobility, Mobility::Dynamic);
    set_mob.revert(&mut ctx);
    assert_eq!(ctx.scene.graph.node(h).base.mobility, Mobility::Static);

    let mut set_piv = SetNodeFieldCommand::new(h, FieldValue::RotationPivot(Vector3::new(7, 7, 7)));
    set_piv.execute(&mut ctx);
    assert_eq!(
        ctx.scene.graph.node(h).base.local_transform.rotation_pivot,
        Vector3::new(7, 7, 7)
    );
    set_piv.revert(&mut ctx);
    assert_eq!(
        ctx.scene.graph.node(h).base.local_transform.rotation_pivot,
        Vector3::new(0, 0, 0)
    );
}

#[test]
fn link_nodes_round_trip() {
    let mut ctx = context_with_root();
    let root = ctx.scene.graph.root();
    let a = ctx
        .scene
        .graph
        .add_node(BaseBuilder::new().with_name("a".to_string()).build_node());
    let b = ctx
        .scene
        .graph
        .add_node(BaseBuilder::new().with_name("b".to_string()).build_node());
    assert_eq!(ctx.scene.graph.node(b).base.parent, root);

    let mut cmd = LinkNodesCommand::new(b, a);
    cmd.execute(&mut ctx);
    assert_eq!(ctx.scene.graph.node(b).base.parent, a);
    cmd.revert(&mut ctx);
    assert_eq!(ctx.scene.graph.node(b).base.parent, root);
    cmd.execute(&mut ctx);
    assert_eq!(ctx.scene.graph.node(b).base.parent, a);
}

#[test]
fn add_node_linked_then_detached_then_slot_reused() {
    let mut ctx = context_with_root();
    let root = ctx.scene.graph.root();
    let node = BaseBuilder::new().with_name("fresh".to_string()).build_node();

    let mut cmd = AddNodeCommand::new(node, root);
    assert_eq!(cmd.name(&ctx), "Add Node fresh".to_string());

    cmd.execute(&mut ctx);
    let h = cmd.handle;
    assert!(ctx.scene.graph.is_valid_handle(h));
    assert_eq!(ctx.scene.graph.node(h).base.parent, root);
    assert!(ctx.scene.graph.children_of(root).contains(&h));

    cmd.revert(&mut ctx);
    assert!(!ctx.scene.graph.is_valid_handle(h));
    assert!(!ctx.scene.graph.children_of(root).contains(&h));
    assert!(cmd.ticket.is_some());

    cmd.finalize(&mut ctx);
    assert!(cmd.ticket.is_none());
    let reused = ctx
        .scene
        .graph
        .add_node(BaseBuilder::new().with_name("other".to_string()).build_node());
    assert_eq!(reused.index, h.index);
    assert_ne!(reused.generation, h.generation);
}

#[test]
fn add_node_handle_stable_across_cycles() {
    let mut ctx = context_with_root();
    let root = ctx.scene.graph.root();
    let node = BaseBuilder::new().with_name("stable".to_string()).build_node();

    let mut cmd = AddNodeCommand::new(node, root);
    cmd.execute(&mut ctx);
    let h = cmd.handle;
    for _ in 0..4 {
        cmd.revert(&mut ctx);
        assert!(!ctx.scene.graph.is_valid_handle(h));
        cmd.execute(&mut ctx);
        assert_eq!(cmd.handle, h);
        assert!(ctx.scene.graph.is_valid_handle(h));
    }
}

#[test]
fn delete_node_round_trip_and_finalize() {
    let mut ctx = context_with_root();
    let root = ctx.scene.graph.root();
    let a = ctx
        .scene
        .graph
        .add_node(BaseBuilder::new().with_name("victim".to_string()).build_node());

    let mut cmd = DeleteNodeCommand::new(a);
    cmd.execute(&mut ctx);
    assert!(!ctx.scene.graph.is_valid_handle(a));
    assert_eq!(cmd.parent, root);

    cmd.revert(&mut ctx);
    assert!(ctx.scene.graph.is_valid_handle(a));
    assert_eq!(cmd.handle, a);
    assert_eq!(ctx.scene.graph.node(a).base.parent, root);
    assert_eq!(ctx.scene.graph.node(a).base.name, "victim".to_string());

    cmd.execute(&mut ctx);
    cmd.finalize(&mut ctx);
    assert!(!ctx.scene.graph.is_valid_handle(a));
    let reused = ctx
        .scene
        .graph
        .add_node(BaseBuilder::new().with_name("tenant".to_string()).build_node());
    assert_eq!(reused.index, a.index);
}

#[test]
fn delete_sub_graph_of_five_restores_handles_and_edges() {
    let mut ctx = context_with_root();
    let root = ctx.scene.graph.root();
    let mk = |name: &str, ctx: &mut SceneContext| -> Handle {
        let node = BaseBuilder::new().with_name(name.to_string()).build_node();
        ctx.scene.graph.add_node(node)
    };
    let n1 = mk("n1", &mut ctx);
    let n2 = mk("n2", &mut ctx);
    let n3 = mk("n3", &mut ctx);
    let n4 = mk("n4", &mut ctx);
    let n5 = mk("n5", &mut ctx);
    ctx.scene.graph.link_nodes(n2, n1);
    ctx.scene.graph.link_nodes(n3, n1);
    ctx.scene.graph.link_nodes(n4, n2);
    ctx.scene.graph.link_nodes(n5, n2);

    let mut cmd = DeleteSubGraphCommand::new(n1);
    cmd.execute(&mut ctx);
    for h in [n1, n2, n3, n4, n5] {
        assert!(!ctx.scene.graph.is_valid_handle(h));
    }
    assert!(ctx.scene.graph.children_of(root).is_empty());

    cmd.revert(&mut ctx);
    for h in [n1, n2, n3, n4, n5] {
        assert!(ctx.scene.graph.is_valid_handle(h));
    }
    assert_eq!(ctx.scene.graph.node(n1).base.parent, root);
    assert_eq!(ctx.scene.graph.node(n2).base.parent, n1);
    assert_eq!(ctx.scene.graph.node(n3).base.parent, n1);
    assert_eq!(ctx.scene.graph.node(n4).base.parent, n2);
    assert_eq!(ctx.scene.graph.node(n5).base.parent, n2);
    assert_eq!(ctx.scene.graph.node(n1).base.name, "n1".to_string());
}

#[test]
fn delete_sub_graph_finalize_frees_all_slots() {
    let mut ctx = context_with_root();
    let n1 = ctx
        .scene
        .graph
        .add_node(BaseBuilder::new().with_name("p".to_string()).build_node());
    let n2 = ctx
        .scene
        .graph
        .add_node(BaseBuilder::new().with_name("c".to_string()).build_node());
    ctx.scene.graph.link_nodes(n2, n1);

    let mut cmd = DeleteSubGraphCommand::new(n1);
    cmd.execute(&mut ctx);
    cmd.finalize(&mut ctx);

    let r1 = ctx
        .scene
        .graph
        .add_node(BaseBuilder::new().with_name("x".to_string()).build_node());
    let r2 = ctx
        .scene
        .graph
        .add_node(BaseBuilder::new().with_name("y".to_string()).build_node());
    let mut indices = vec![r1.index, r2.index];
    indices.sort();
    let mut expected = vec![n1.index, n2.index];
    expected.sort();
    assert_eq!(indices, expected);
}

#[test]
fn command_names() {
    let ctx = context_with_root();
    let h = Handle { index: 1, generation: 1 };
    assert_eq!(
        MoveNodeCommand::new(h, Vector3::zero(), Vector3::zero()).name(&ctx),
        "Move Node".to_string()
    );
    assert_eq!(
        ScaleNodeCommand::new(h, Vector3::zero(), Vector3::zero()).name(&ctx),
        "Scale Node".to_string()
    );
    assert_eq!(
        RotateNodeCommand::new(h, Quaternion::identity(), Quaternion::identity()).name(&ctx),
        "Rotate Node".to_string()
    );
    assert_eq!(LinkNodesCommand::new(h, h).name(&ctx), "Link Nodes".to_string());
    assert_eq!(DeleteNodeCommand::new(h).name(&ctx), "Delete Node".to_string());
    assert_eq!(
        DeleteSubGraphCommand::new(h).name(&ctx),
        "Delete Sub Graph".to_string()
    );
}
