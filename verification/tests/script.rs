use scene_commands::command_script::CommandError;
use scene_commands::command_script::ScriptDataBlobCommand;
use scene_commands::command_script::SetScriptCommand;
use scene_commands::command_script::SetScriptCommandState;
use scene_commands::command_script::deserialize_opt_script;
use scene_commands::command_script::deserialize_script;
use scene_commands::command_script::serialize_opt_script;
use scene_commands::command_script::serialize_script;
use scene_commands::node::BaseBuilder;
use scene_commands::node::Script;
use scene_commands::scene::Scene;
use scene_commands::scene::SceneContext;

fn scripted_context() -> SceneContext {
    let root = BaseBuilder::new().with_name("__ROOT__".to_string()).build_node();
    SceneContext::new(Scene::new(root))
}

#[test]
fn script_codec_round_trip() {
    let script = Script { kind: 7, payload: vec![1, 2, 3, 250] };
    let bytes = serialize_script(&script);
    assert_eq!(bytes, vec![7, 1, 2, 3, 250]);
    let decoded = deserialize_script(&bytes).unwrap();
    assert_eq!(decoded, script);

    let blob = serialize_opt_script(&Some(script.clone()));
    assert_eq!(blob, vec![1, 7, 1, 2, 3, 250]);
    assert_eq!(deserialize_opt_script(&blob).unwrap(), Some(script));

    let none_blob = serialize_opt_script(&None);
    assert_eq!(none_blob, vec![0]);
    assert_eq!(deserialize_opt_script(&none_blob).unwrap(), None);
}

#[test]
fn script_codec_rejects_malformed_blobs() {
    assert_eq!(
        deserialize_script(&vec![]),
        Err(CommandError::MalformedScriptData)
    );
    assert_eq!(
        deserialize_opt_script(&vec![]),
        Err(CommandError::MalformedScriptData)
    );
    assert_eq!(
        deserialize_opt_script(&vec![0, 9]),
        Err(CommandError::MalformedScriptData)
    );
    assert_eq!(
        deserialize_opt_script(&vec![1]),
        Err(CommandError::MalformedScriptData)
    );
    assert_eq!(
        deserialize_opt_script(&vec![2, 0]),
        Err(CommandError::MalformedScriptData)
    );
}

#[test]
fn set_script_execute_revert_execute_keeps_serialized_form() {
    let mut ctx = scripted_context();
    let h = ctx
        .scene
        .graph
        .add_node(BaseBuilder::new().with_name("scripted".to_string()).build_node());
    let script = Script { kind: 3, payload: vec![10, 20, 30] };
    let expected_blob = serialize_opt_script(&Some(script.clone()));

    let mut cmd = SetScriptCommand::new(h, Some(script));
    assert_eq!(cmd.execute(&mut ctx), Ok(()));
    assert_eq!(
        serialize_opt_script(&ctx.scene.graph.node(h).base.script),
        expected_blob
    );

    assert_eq!(cmd.revert(&mut ctx), Ok(()));
    assert!(ctx.scene.graph.node(h).base.script.is_none());
    match &cmd.state {
        SetScriptCommandState::Reverted { data } => assert_eq!(*data, expected_blob),
        other => panic!("unexpected state: {:?}", other),
    }

    assert_eq!(cmd.execute(&mut ctx), Ok(()));
    assert_eq!(
        serialize_opt_script(&ctx.scene.graph.node(h).base.script),
        expected_blob
    );
}

#[test]
fn set_script_invalid_transitions_change_nothing() {
    let mut ctx = scripted_context();
    let h = ctx
        .scene
        .graph
        .add_node(BaseBuilder::new().with_name("n".to_string()).build_node());

    let mut cmd = SetScriptCommand::new(h, None);
    assert_eq!(cmd.revert(&mut ctx), Err(CommandError::InvalidState));
    assert!(matches!(cmd.state, SetScriptCommandState::NonExecuted { .. }));

    assert_eq!(cmd.execute(&mut ctx), Ok(()));
    assert_eq!(cmd.execute(&mut ctx), Err(CommandError::InvalidState));
    assert!(matches!(cmd.state, SetScriptCommandState::Executed));

    cmd.state = SetScriptCommandState::Undefined;
    assert_eq!(cmd.execute(&mut ctx), Err(CommandError::InvalidState));
    assert_eq!(cmd.revert(&mut ctx), Err(CommandError::InvalidState));
}

#[test]
fn set_script_rejects_malformed_reverted_blob() {
    let mut ctx = scripted_context();
    let h = ctx
        .scene
        .graph
        .add_node(BaseBuilder::new().with_name("n".to_string()).build_node());
    let mut cmd = SetScriptCommand::new(h, None);
    assert_eq!(cmd.execute(&mut ctx), Ok(()));
    assert_eq!(cmd.revert(&mut ctx), Ok(()));
    cmd.state = SetScriptCommandState::Reverted { data: vec![9, 9] };
    assert_eq!(cmd.execute(&mut ctx), Err(CommandError::MalformedScriptData));
    assert!(matches!(cmd.state, SetScriptCommandState::Reverted { .. }));
}

#[test]
fn script_data_blob_swap_round_trip() {
    let mut ctx = scripted_context();
    let h = ctx
        .scene
        .graph
        .add_node(BaseBuilder::new().with_name("n".to_string()).build_node());
    let old_script = Script { kind: 1, payload: vec![5] };
    let new_script = Script { kind: 2, payload: vec![6, 7] };
    let old_blob = serialize_script(&old_script);
    let new_blob = serialize_script(&new_script);

    let mut set = SetScriptCommand::new(h, Some(old_script.clone()));
    assert_eq!(set.execute(&mut ctx), Ok(()));

    let mut cmd = ScriptDataBlobCommand::new(h, old_blob.clone(), new_blob.clone());
    assert_eq!(cmd.execute(&mut ctx), Ok(()));
    assert_eq!(ctx.scene.graph.node(h).base.script, Some(new_script));
    assert_eq!(cmd.new_value, old_blob);
    assert_eq!(cmd.old_value, new_blob);

    assert_eq!(cmd.revert(&mut ctx), Ok(()));
    assert_eq!(ctx.scene.graph.node(h).base.script, Some(old_script));
}

#[test]
fn script_data_blob_requires_attached_script() {
    let mut ctx = scripted_context();
    let h = ctx
        .scene
        .graph
        .add_node(BaseBuilder::new().with_name("bare".to_string()).build_node());
    let mut cmd = ScriptDataBlobCommand::new(h, vec![1, 2], vec![3, 4]);
    assert_eq!(cmd.execute(&mut ctx), Err(CommandError::NoScript));
    assert!(ctx.scene.graph.node(h).base.script.is_none());
}

#[test]
fn script_data_blob_rejects_empty_blob() {
    let mut ctx = scripted_context();
    let h = ctx
        .scene
        .graph
        .add_node(BaseBuilder::new().with_name("n".to_string()).build_node());
    let mut set = SetScriptCommand::new(h, Some(Script { kind: 1, payload: vec![] }));
    assert_eq!(set.execute(&mut ctx), Ok(()));
    let mut cmd = ScriptDataBlobCommand::new(h, vec![1], vec![]);
    assert_eq!(cmd.execute(&mut ctx), Err(CommandError::MalformedScriptData));
    assert_eq!(
        ctx.scene.graph.node(h).base.script,
        Some(Script { kind: 1, payload: vec![] })
    );
}
