use scene_commands::absm::AbsmImportOptions;
use scene_commands::absm::AbsmResourceState;
use scene_commands::absm::MachineDefinition;
use scene_commands::listener::Listener;
use scene_commands::listener::ListenerBuilder;
use scene_commands::node::BaseBuilder;
use scene_commands::node::NodeKind;
use scene_commands::node::Property;
use scene_commands::node::PropertyValue;
use scene_commands::node::Script;
use scene_commands::scene::Scene;
use scene_commands::scene::SceneContext;
use scene_commands::transition::TransitionMessage;

#[test]
fn listener_builder_builds_listener_node() {
    let node = ListenerBuilder::new(BaseBuilder::new().with_name("ears".to_string())).build_node();
    assert_eq!(node.kind, NodeKind::Listener);
    assert_eq!(node.base.name, "ears".to_string());
    assert!(node.base.script.is_none());
}

#[test]
fn listener_builder_build_links_under_root() {
    let root = BaseBuilder::new().with_name("__ROOT__".to_string()).build_node();
    let mut ctx = SceneContext::new(Scene::new(root));
    let root_handle = ctx.scene.graph.root();
    let h = ListenerBuilder::new(BaseBuilder::new().with_name("ears".to_string()))
        .build(&mut ctx.scene.graph);
    assert!(ctx.scene.graph.is_valid_handle(h));
    assert_eq!(ctx.scene.graph.node(h).kind, NodeKind::Listener);
    assert_eq!(ctx.scene.graph.node(h).base.parent, root_handle);
}

#[test]
fn listener_raw_copy_copies_every_field() {
    let mut base = BaseBuilder::new().with_name("L".to_string()).build_base();
    base.properties = vec![Property {
        name: "gain".to_string(),
        value: PropertyValue::Text("low".to_string()),
    }];
    base.script = Some(Script { kind: 5, payload: vec![1, 2] });
    let listener = Listener { base };
    let copy = listener.raw_copy();
    assert_eq!(copy.base.name, listener.base.name);
    assert_eq!(copy.base.visibility, listener.base.visibility);
    assert_eq!(copy.base.local_transform, listener.base.local_transform);
    assert_eq!(copy.base.properties, listener.base.properties);
    assert_eq!(copy.base.script, listener.base.script);
}

#[test]
fn absm_resource_state_tracks_path() {
    let definition = MachineDefinition::default();
    assert_eq!(definition.name, String::new());
    assert!(definition.states.is_empty());

    let mut state = AbsmResourceState::new("walk.absm".to_string(), definition);
    assert_eq!(state.path(), "walk.absm");
    state.set_path("run.absm".to_string());
    assert_eq!(state.path(), "run.absm");

    let options = AbsmImportOptions::default();
    let _cloned = options.clone();
}

#[test]
fn transition_message_activate() {
    assert_eq!(TransitionMessage::activate(), TransitionMessage::Activate);
    let msg = TransitionMessage::Activate.clone();
    assert!(matches!(msg, TransitionMessage::Activate));
}
