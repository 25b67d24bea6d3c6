use scene_commands::command_property::AddPropertyCommand;
use scene_commands::command_property::RemovePropertyCommand;
use scene_commands::command_property::SetPropertyNameCommand;
use scene_commands::command_property::SetPropertyValueCommand;
use scene_commands::handle::Handle;
use scene_commands::node::BaseBuilder;
use scene_commands::node::Property;
use scene_commands::node::PropertyValue;
use scene_commands::scene::Scene;
use scene_commands::scene::SceneContext;

fn context_with_three_properties() -> (SceneContext, Handle) {
    let root = BaseBuilder::new().with_name("__ROOT__".to_string()).build_node();
    let mut ctx = SceneContext::new(Scene::new(root));
    let mut node = BaseBuilder::new().with_name("owner".to_string()).build_node();
    node.base.properties = vec![
        Property { name: "hp".to_string(), value: PropertyValue::Integer(100) },
        Property { name: "speed".to_string(), value: PropertyValue::Unsigned(7) },
        Property { name: "ghost".to_string(), value: PropertyValue::Boolean(false) },
    ];
    let h = ctx.scene.graph.add_node(node);
    (ctx, h)
}

#[test]
fn set_property_value_round_trip_keeps_indices() {
    let (mut ctx, h) = context_with_three_properties();
    let mut cmd = SetPropertyValueCommand::new(h, 1, PropertyValue::Unsigned(99));

    cmd.execute(&mut ctx);
    let props = &ctx.scene.graph.node(h).base.properties;
    assert_eq!(props.len(), 3);
    assert_eq!(props[1].name, "speed".to_string());
    assert_eq!(props[1].value, PropertyValue::Unsigned(99));
    assert_eq!(props[0].value, PropertyValue::Integer(100));
    assert_eq!(props[2].value, PropertyValue::Boolean(false));
    assert_eq!(cmd.value, PropertyValue::Unsigned(7));

    cmd.revert(&mut ctx);
    let props = &ctx.scene.graph.node(h).base.properties;
    assert_eq!(props.len(), 3);
    assert_eq!(props[1].name, "speed".to_string());
    assert_eq!(props[1].value, PropertyValue::Unsigned(7));
    assert_eq!(props[0].value, PropertyValue::Integer(100));
    assert_eq!(props[2].value, PropertyValue::Boolean(false));
}

#[test]
fn set_property_name_round_trip() {
    let (mut ctx, h) = context_with_three_properties();
    let mut cmd = SetPropertyNameCommand::new(h, 0, "health".to_string());

    cmd.execute(&mut ctx);
    assert_eq!(
        ctx.scene.graph.node(h).base.properties[0].name,
        "health".to_string()
    );
    assert_eq!(cmd.name, "hp".to_string());

    cmd.revert(&mut ctx);
    assert_eq!(ctx.scene.graph.node(h).base.properties[0].name, "hp".to_string());
    assert_eq!(
        ctx.scene.graph.node(h).base.properties[0].value,
        PropertyValue::Integer(100)
    );
}

#[test]
fn add_property_appends_and_revert_removes() {
    let (mut ctx, h) = context_with_three_properties();
    let extra = Property { name: "mana".to_string(), value: PropertyValue::Integer(50) };
    let mut cmd = AddPropertyCommand::new(h, extra.clone());

    cmd.execute(&mut ctx);
    let props = &ctx.scene.graph.node(h).base.properties;
    assert_eq!(props.len(), 4);
    assert_eq!(props[3], extra);

    cmd.revert(&mut ctx);
    let props = &ctx.scene.graph.node(h).base.properties;
    assert_eq!(props.len(), 3);
    assert_eq!(props[0].name, "hp".to_string());
    assert_eq!(props[2].name, "ghost".to_string());
    assert_eq!(cmd.value, Some(extra));
}

#[test]
fn remove_property_and_revert_preserves_order() {
    let (mut ctx, h) = context_with_three_properties();
    let mut cmd = RemovePropertyCommand::new(h, 1);

    cmd.execute(&mut ctx);
    let props = &ctx.scene.graph.node(h).base.properties;
    assert_eq!(props.len(), 2);
    assert_eq!(props[0].name, "hp".to_string());
    assert_eq!(props[1].name, "ghost".to_string());
    assert_eq!(
        cmd.value,
        Some(Property { name: "speed".to_string(), value: PropertyValue::Unsigned(7) })
    );

    cmd.revert(&mut ctx);
    let props = &ctx.scene.graph.node(h).base.properties;
    assert_eq!(props.len(), 3);
    assert_eq!(props[0].name, "hp".to_string());
    assert_eq!(props[1].name, "speed".to_string());
    assert_eq!(props[2].name, "ghost".to_string());
}
