use now_playing::obs_client::{
    connect_failure_message, connect_refusal, connection_password, ObsAction, ObsFlow,
    ObsFlowState,
};
use now_playing::Config;

fn names(v: &[&str]) -> Result<Vec<String>, String> {
    Ok(v.iter().map(|s| s.to_string()).collect())
}

#[test]
fn connection_decisions() {
    let mut c = Config::default().obs;
    assert_eq!(connect_refusal(&c), Some("OBS WebSocket is disabled".to_string()));
    assert_eq!(connection_password(&c), None);
    c.enabled = true;
    c.password = "pw".to_string();
    assert_eq!(connect_refusal(&c), None);
    assert_eq!(connection_password(&c), Some("pw".to_string()));
    assert_eq!(connect_failure_message("refused"), "Failed to connect: refused");
}

#[test]
fn refresh_not_connected() {
    let c = Config::default().obs;
    let (flow, a) = ObsFlow::refresh_source(&c, false, "http://u/", 1, 2);
    assert!(flow.is_finished());
    assert!(matches!(a, ObsAction::Finish(Err(ref e)) if e == "Not connected to OBS"));
}

#[test]
fn refresh_updates_existing_source() {
    let c = Config::default().obs;
    let (mut flow, a) = ObsFlow::refresh_source(&c, true, "http://u/", 360, 160);
    assert!(matches!(a, ObsAction::ListScenes));
    let a = flow.on_reply(names(&["Other", "Now Playing"]));
    assert!(matches!(a, ObsAction::ListSceneItems { ref scene } if scene == "Now Playing"));
    let a = flow.on_reply(names(&["Now Playing"]));
    match a {
        ObsAction::SetSourceSettings { input, settings } => {
            assert_eq!(input, "Now Playing");
            assert_eq!(settings.url, "http://u/");
            assert_eq!(settings.width, 360);
            assert_eq!(settings.height, 160);
            assert_eq!(settings.shutdown, None);
        }
        other => panic!("unexpected {:?}", other),
    }
    let a = flow.on_reply(Err("boom".to_string()));
    assert!(matches!(a, ObsAction::Finish(Err(ref e)) if e == "Failed to update source: boom"));
    assert!(flow.is_finished());
}

#[test]
fn refresh_missing_scene_is_fine() {
    let c = Config::default().obs;
    let (mut flow, _) = ObsFlow::refresh_source(&c, true, "u", 1, 1);
    let a = flow.on_reply(names(&["Else"]));
    assert!(matches!(a, ObsAction::Finish(Ok(()))));
    assert_eq!(flow.state, ObsFlowState::Finished);
}

#[test]
fn create_new_scene_and_source() {
    let c = Config::default().obs;
    let (mut flow, a) = ObsFlow::create_scene_and_source(&c, true, "http://u/", 10, 20);
    assert!(matches!(a, ObsAction::ListScenes));
    let a = flow.on_reply(names(&[]));
    assert!(matches!(a, ObsAction::CreateScene { ref scene } if scene == "Now Playing"));
    let a = flow.on_reply(names(&[]));
    assert!(matches!(a, ObsAction::ListInputs));
    let a = flow.on_reply(names(&["mic"]));
    match a {
        ObsAction::CreateBrowserSource { scene, input, settings } => {
            assert_eq!(scene, "Now Playing");
            assert_eq!(input, "Now Playing Widget");
            assert_eq!(settings.shutdown, Some(false));
        }
        other => panic!("unexpected {:?}", other),
    }
    let a = flow.on_reply(Err("x".to_string()));
    assert!(matches!(a, ObsAction::Finish(Err(ref e)) if e == "Failed to create source: x"));
}

#[test]
fn create_with_existing_source_updates_it() {
    let c = Config::default().obs;
    let (mut flow, _) = ObsFlow::create_scene_and_source(&c, true, "u", 1, 1);
    assert!(matches!(flow.on_reply(names(&["Now Playing"])), ObsAction::ListInputs));
    assert!(matches!(flow.on_reply(names(&["Now Playing Widget"])), ObsAction::SetSourceSettings { .. }));
    assert!(matches!(flow.on_reply(names(&[])), ObsAction::ListSceneItems { .. }));
    assert!(matches!(flow.on_reply(names(&[])), ObsAction::Finish(Ok(()))));
}

#[test]
fn create_scene_errors() {
    let mut c = Config::default().obs;
    let (mut flow, _) = ObsFlow::create_scene_and_source(&c, true, "u", 1, 1);
    let a = flow.on_reply(names(&[]));
    assert!(matches!(a, ObsAction::CreateScene { .. }));
    let a = flow.on_reply(Err("denied".to_string()));
    assert!(matches!(a, ObsAction::Finish(Err(ref e)) if e == "Failed to create scene: denied"));
    c.scene_name = "Now Playing Widget".to_string();
    let (flow, a) = ObsFlow::create_scene_and_source(&c, true, "u", 1, 1);
    assert!(flow.is_finished());
    assert!(matches!(a, ObsAction::Finish(Err(ref e)) if e == "Scene name and source name must be different"));
}

#[test]
fn second_create_run_only_refreshes() {
    let c = Config::default().obs;
    // First run against an OBS without the scene or the source.
    let (mut flow, a) = ObsFlow::create_scene_and_source(&c, true, "u", 1, 1);
    assert!(matches!(a, ObsAction::ListScenes));
    assert!(matches!(flow.on_reply(names(&[])), ObsAction::CreateScene { .. }));
    assert!(matches!(flow.on_reply(names(&[])), ObsAction::ListInputs));
    assert!(matches!(flow.on_reply(names(&[])), ObsAction::CreateBrowserSource { .. }));
    assert!(matches!(flow.on_reply(names(&[])), ObsAction::Finish(Ok(()))));
    // Second run against the OBS the first left: nothing is created.
    let (mut flow, _) = ObsFlow::create_scene_and_source(&c, true, "u", 1, 1);
    assert!(matches!(flow.on_reply(names(&["Now Playing"])), ObsAction::ListInputs));
    assert!(matches!(flow.on_reply(names(&["Now Playing Widget"])), ObsAction::SetSourceSettings { .. }));
    assert!(matches!(flow.on_reply(names(&["Now Playing Widget"])), ObsAction::ListSceneItems { .. }));
    assert!(matches!(flow.on_reply(names(&["Now Playing Widget"])), ObsAction::Finish(Ok(()))));
}
