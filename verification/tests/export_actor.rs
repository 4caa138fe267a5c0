use tinymist::actor::render::{
    ExportAction, ExportActor, ExportConfig, ExportEvent, ExportMode, ExportPhase, Notification,
    RenderActorRequest,
};
use tinymist::entry::EntryState;

fn config(mode: ExportMode) -> ExportConfig {
    ExportConfig {
        substitute_pattern: "$root/$dir/$name".to_string(),
        entry: EntryState::Active { main: "main.typ".to_string() },
        mode,
    }
}

fn rendered(version: usize) -> ExportEvent {
    ExportEvent::Notified(Notification::Request(RenderActorRequest::Rendered(version)))
}

#[test]
fn new_export_actor_listens() {
    let actor = ExportActor::new(config(ExportMode::Always));
    assert_eq!(actor.phase, ExportPhase::Listening);
    assert_eq!(actor.config.substitute_pattern, "$root/$dir/$name");
    assert_eq!(actor.config.mode, ExportMode::Always);
}

#[test]
fn always_renders_a_new_document() {
    let mut actor = ExportActor::new(config(ExportMode::Always));
    assert!(matches!(actor.step(rendered(3)), ExportAction::ReadDocument));
    assert_eq!(actor.phase, ExportPhase::Reading);
    match actor.step(ExportEvent::DocumentRead(Some(3))) {
        ExportAction::Render { version, substitute_pattern, entry } => {
            assert_eq!(version, 3);
            assert_eq!(substitute_pattern, "$root/$dir/$name");
            assert!(matches!(entry, EntryState::Active { main } if main == "main.typ"));
        }
        other => panic!("expected Render, got {:?}", other),
    }
    assert_eq!(actor.phase, ExportPhase::Listening);
}

#[test]
fn never_and_on_save_do_not_render_a_new_document() {
    for mode in [ExportMode::Never, ExportMode::OnSave] {
        let mut actor = ExportActor::new(config(mode));
        assert!(matches!(actor.step(rendered(3)), ExportAction::Receive));
        assert_eq!(actor.phase, ExportPhase::Listening);
    }
}

#[test]
fn empty_feed_renders_nothing() {
    let mut actor = ExportActor::new(config(ExportMode::Always));
    actor.step(rendered(1));
    assert!(matches!(actor.step(ExportEvent::DocumentRead(None)), ExportAction::Receive));
    assert_eq!(actor.phase, ExportPhase::Listening);
}

#[test]
fn change_of_config_never_renders() {
    let mut actor = ExportActor::new(config(ExportMode::Never));
    let mut replaced = config(ExportMode::Always);
    replaced.substitute_pattern = "out/$name".to_string();
    replaced.entry = EntryState::Inactive;
    let event = ExportEvent::Notified(Notification::Request(RenderActorRequest::ChangeConfig(replaced)));
    assert!(matches!(actor.step(event), ExportAction::Receive));
    assert_eq!(actor.phase, ExportPhase::Listening);
    assert_eq!(actor.config.mode, ExportMode::Always);
    assert_eq!(actor.config.substitute_pattern, "out/$name");
    assert!(matches!(actor.config.entry, EntryState::Inactive));
}

#[test]
fn change_of_path_keeps_the_rest() {
    let mut actor = ExportActor::new(config(ExportMode::OnSave));
    let event = ExportEvent::Notified(Notification::Request(RenderActorRequest::ChangeExportPath(
        "build/$name".to_string(),
    )));
    assert!(matches!(actor.step(event), ExportAction::Receive));
    assert_eq!(actor.config.substitute_pattern, "build/$name");
    assert_eq!(actor.config.mode, ExportMode::OnSave);
    assert!(matches!(&actor.config.entry, EntryState::Active { main } if main == "main.typ"));
}

#[test]
fn new_path_is_used_for_the_next_render() {
    let mut actor = ExportActor::new(config(ExportMode::Always));
    actor.step(ExportEvent::Notified(Notification::Request(RenderActorRequest::ChangeExportPath(
        "build/$name".to_string(),
    ))));
    actor.step(rendered(5));
    match actor.step(ExportEvent::DocumentRead(Some(5))) {
        ExportAction::Render { substitute_pattern, .. } => assert_eq!(substitute_pattern, "build/$name"),
        other => panic!("expected Render, got {:?}", other),
    }
}

#[test]
fn export_lag_is_skipped_and_close_stops() {
    let mut actor = ExportActor::new(config(ExportMode::Always));
    assert!(matches!(
        actor.step(ExportEvent::Notified(Notification::Lagged(3))),
        ExportAction::Receive
    ));
    assert_eq!(actor.phase, ExportPhase::Listening);
    assert!(matches!(actor.step(ExportEvent::Notified(Notification::Closed)), ExportAction::Stop));
    assert_eq!(actor.phase, ExportPhase::Stopped);
    assert!(matches!(actor.step(rendered(1)), ExportAction::Ignored));
    assert_eq!(actor.phase, ExportPhase::Stopped);
}

#[test]
fn export_ignores_what_it_does_not_wait_for() {
    let mut actor = ExportActor::new(config(ExportMode::Always));
    assert!(matches!(actor.step(ExportEvent::DocumentRead(Some(1))), ExportAction::Ignored));
    actor.step(rendered(1));
    assert!(matches!(actor.step(rendered(2)), ExportAction::Ignored));
    assert_eq!(actor.phase, ExportPhase::Reading);
}
