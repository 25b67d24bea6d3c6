use scene_commands::command_sub_graph::AddModelCommand;
use scene_commands::handle::Handle;
use scene_commands::handle::Ticket;
use scene_commands::node::BaseBuilder;
use scene_commands::scene::Animation;
use scene_commands::scene::Scene;
use scene_commands::scene::SceneContext;

fn model_context() -> SceneContext {
    let root = BaseBuilder::new().with_name("__ROOT__".to_string()).build_node();
    SceneContext::new(Scene::new(root))
}

/// Stages a model import: nodes instantiated into the scene and then
/// extracted as a sub-graph, animations added and then reserved, exactly
/// the shape `AddModelCommand` is constructed with.
fn stage_model(ctx: &mut SceneContext) -> (AddModelCommand, Handle, Handle, Vec<Handle>) {
    let m_root = ctx
        .scene
        .graph
        .add_node(BaseBuilder::new().with_name("model".to_string()).build_node());
    let m_child = ctx
        .scene
        .graph
        .add_node(BaseBuilder::new().with_name("mesh".to_string()).build_node());
    ctx.scene.graph.link_nodes(m_child, m_root);
    let sub_graph = ctx.scene.graph.take_reserve_sub_graph(m_root);

    let a1 = ctx
        .scene
        .animations
        .add(Animation { name: "walk".to_string(), enabled: true });
    let a2 = ctx
        .scene
        .animations
        .add(Animation { name: "run".to_string(), enabled: false });
    let mut container: Vec<(Ticket, Animation)> = Vec::new();
    container.push(ctx.scene.animations.take_reserve(a1));
    container.push(ctx.scene.animations.take_reserve(a2));

    let cmd = AddModelCommand::new(sub_graph, container);
    (cmd, m_root, m_child, vec![a1, a2])
}

#[test]
fn add_model_execute_restores_nodes_and_animations() {
    let mut ctx = model_context();
    let (mut cmd, m_root, m_child, anims) = stage_model(&mut ctx);
    assert_eq!(cmd.name(&ctx), "Load Model".to_string());

    cmd.execute(&mut ctx);
    assert_eq!(cmd.model, m_root);
    assert!(ctx.scene.graph.is_valid_handle(m_root));
    assert!(ctx.scene.graph.is_valid_handle(m_child));
    assert_eq!(ctx.scene.graph.node(m_child).base.parent, m_root);
    assert_eq!(cmd.animations, anims);
    for a in &anims {
        assert!(ctx.scene.animations.is_valid(*a));
    }
    assert_eq!(ctx.scene.animations.borrow(anims[0]).name, "walk".to_string());
}

#[test]
fn add_model_revert_detaches_nodes_and_animations() {
    let mut ctx = model_context();
    let (mut cmd, m_root, m_child, anims) = stage_model(&mut ctx);
    cmd.execute(&mut ctx);
    cmd.revert(&mut ctx);

    assert!(!ctx.scene.graph.is_valid_handle(m_root));
    assert!(!ctx.scene.graph.is_valid_handle(m_child));
    for a in &anims {
        assert!(!ctx.scene.animations.is_valid(*a));
    }
    assert_eq!(cmd.animations, anims);
    assert_eq!(cmd.animations_container.len(), anims.len());
}

#[test]
fn add_model_execute_after_revert_restores_same_handles() {
    let mut ctx = model_context();
    let (mut cmd, m_root, m_child, anims) = stage_model(&mut ctx);
    cmd.execute(&mut ctx);
    cmd.revert(&mut ctx);
    cmd.execute(&mut ctx);

    assert_eq!(cmd.model, m_root);
    assert!(ctx.scene.graph.is_valid_handle(m_root));
    assert!(ctx.scene.graph.is_valid_handle(m_child));
    assert_eq!(ctx.scene.graph.node(m_child).base.parent, m_root);
    for a in &anims {
        assert!(ctx.scene.animations.is_valid(*a));
    }
    assert_eq!(ctx.scene.animations.borrow(anims[1]).name, "run".to_string());
}

#[test]
fn add_model_finalize_frees_animation_slots_for_reuse() {
    let mut ctx = model_context();
    let (mut cmd, _m_root, _m_child, anims) = stage_model(&mut ctx);
    cmd.finalize(&mut ctx);

    for a in &anims {
        assert!(!ctx.scene.animations.is_valid(*a));
    }
    let reused = ctx
        .scene
        .animations
        .add(Animation { name: "idle".to_string(), enabled: true });
    assert!(anims.iter().any(|a| a.index == reused.index));
    assert!(ctx.scene.animations.is_valid(reused));
}
