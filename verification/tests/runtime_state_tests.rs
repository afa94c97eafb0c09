use chalkak::runtime::toast::ToastSequence;
use chalkak::runtime::{RuntimeWindowGeometry, RuntimeWindowKind, RuntimeWindowState};
use chalkak::state::{AppEvent, AppState, StateError, StateMachine, StateTransition};

#[test]
fn runtime_window_state_tracks_each_window_kind_independently() {
    let mut state = RuntimeWindowState::default();
    let preview_geometry = RuntimeWindowGeometry::new(800, 450);
    let editor_geometry = RuntimeWindowGeometry::new(1200, 760);

    state.set_geometry(RuntimeWindowKind::Preview, preview_geometry);
    state.set_geometry(RuntimeWindowKind::Editor, editor_geometry);

    assert_eq!(state.geometry_for(RuntimeWindowKind::Preview), Some(preview_geometry));
    assert_eq!(state.geometry_for(RuntimeWindowKind::Editor), Some(editor_geometry));
}

#[test]
fn runtime_window_state_tracks_preview_geometry_by_capture_id() {
    let mut state = RuntimeWindowState::default();
    let geometry = RuntimeWindowGeometry::with_position(120, 44, 760, 480);

    state.set_preview_geometry_for_capture("capture-1", geometry);

    assert_eq!(state.preview_geometry_for_capture("capture-1"), Some(geometry));
    assert!(state
        .preview_geometry_capture_ids()
        .contains(&"capture-1".to_string()));

    state.remove_preview_geometry_for_capture("capture-1");
    assert_eq!(state.preview_geometry_for_capture("capture-1"), None);
}

#[test]
fn runtime_window_state_overwrites_and_keeps_other_captures() {
    let mut state = RuntimeWindowState::new();
    let first = RuntimeWindowGeometry::with_position(1, 2, 3, 4);
    let second = RuntimeWindowGeometry::with_position(5, 6, 7, 8);
    state.set_preview_geometry_for_capture("a", first);
    state.set_preview_geometry_for_capture("b", first);
    state.set_preview_geometry_for_capture("a", second);
    assert_eq!(state.preview_geometry_for_capture("a"), Some(second));
    assert_eq!(state.preview_geometry_for_capture("b"), Some(first));
    assert_eq!(state.preview_geometry_capture_ids().len(), 2);
    state.remove_preview_geometry_for_capture("a");
    assert_eq!(state.preview_geometry_for_capture("b"), Some(first));
    assert_eq!(state.geometry_for(RuntimeWindowKind::Editor), None);
}

#[test]
fn can_transition_tracks_valid_and_invalid_events() {
    let mut machine = StateMachine::new();
    assert!(machine.can_transition(AppEvent::Start));
    assert!(machine.can_transition(AppEvent::OpenPreview));
    assert!(!machine.can_transition(AppEvent::CloseEditor));

    let _ = machine
        .transition(AppEvent::OpenPreview)
        .expect("idle -> preview should transition");

    assert!(machine.can_transition(AppEvent::OpenEditor));
    assert!(machine.can_transition(AppEvent::ClosePreview));
    assert!(!machine.can_transition(AppEvent::Start));
}

#[test]
fn transition_records_history_with_ordered_entries() {
    let mut machine = StateMachine::new();
    let _ = machine.transition(AppEvent::Start).expect("start should work");
    let _ = machine.transition(AppEvent::OpenPreview).expect("open preview should work");
    let _ = machine.transition(AppEvent::OpenEditor).expect("open editor should work");
    let _ = machine.transition(AppEvent::CloseEditor).expect("close editor should work");

    assert_eq!(machine.state(), AppState::Preview);
    assert_eq!(machine.history().len(), 4);
    assert_eq!(
        machine.history()[0],
        StateTransition::new(Some(AppState::Idle), AppEvent::Start, AppState::Idle)
    );
    assert_eq!(
        machine.history()[1],
        StateTransition::new(Some(AppState::Idle), AppEvent::OpenPreview, AppState::Preview)
    );
    assert_eq!(
        machine.history()[2],
        StateTransition::new(Some(AppState::Preview), AppEvent::OpenEditor, AppState::Editor)
    );
    assert_eq!(
        machine.history()[3],
        StateTransition::new(Some(AppState::Editor), AppEvent::CloseEditor, AppState::Preview)
    );
}

#[test]
fn invalid_transition_returns_error_without_mutating_history() {
    let mut machine = StateMachine::new();

    let err = machine
        .transition(AppEvent::ClosePreview)
        .expect_err("idle -> close preview should fail");
    assert!(matches!(
        err,
        StateError::InvalidStateTransition { from: AppState::Idle, event: AppEvent::ClosePreview }
    ));
    assert_eq!(machine.state(), AppState::Idle);
    assert!(machine.history().is_empty());
}

#[test]
fn prune_stale_preview_window_geometries_keeps_open_captures() {
    let capture = |id: &str| chalkak::capture::flow::CaptureArtifact {
        capture_id: id.to_string(),
        temp_path: format!("/tmp/{id}.png"),
        width: 10,
        height: 10,
        screen_x: 0,
        screen_y: 0,
        screen_width: 10,
        screen_height: 10,
        created_at: 0,
    };
    let mut state = RuntimeWindowState::default();
    let geometry = RuntimeWindowGeometry::with_position(1, 2, 300, 200);
    state.set_preview_geometry_for_capture("a", geometry);
    state.set_preview_geometry_for_capture("b", geometry);
    state.set_preview_geometry_for_capture("c", geometry);
    state.set_geometry(RuntimeWindowKind::Editor, geometry);

    chalkak::runtime::preview_windows::prune_stale_preview_window_geometries(
        &vec![capture("b"), capture("z")],
        &mut state,
    );

    assert_eq!(state.preview_geometry_capture_ids(), vec!["b".to_string()]);
    assert_eq!(state.preview_geometry_for_capture("b"), Some(geometry));
    assert_eq!(state.geometry_for(RuntimeWindowKind::Editor), Some(geometry));
    assert!(chalkak::runtime::preview_windows::capture_listed(&vec![capture("q")], "q"));
}

#[test]
fn only_the_latest_toast_timer_hides_the_label() {
    let mut toasts = ToastSequence::new();
    let first = toasts.begin_show();
    assert_eq!(first, 1);
    assert!(toasts.should_hide(first));
    let second = toasts.begin_show();
    assert_eq!(second, 2);
    assert!(!toasts.should_hide(first));
    assert!(toasts.should_hide(second));
}

#[test]
fn plan_preview_windows_closes_stale_and_creates_missing() {
    let capture = |id: &str| chalkak::capture::flow::CaptureArtifact {
        capture_id: id.to_string(),
        temp_path: format!("/tmp/{id}.png"),
        width: 10,
        height: 10,
        screen_x: 0,
        screen_y: 0,
        screen_width: 10,
        screen_height: 10,
        created_at: 0,
    };
    let open = vec!["a".to_string(), "old".to_string(), "b".to_string(), "gone".to_string()];
    let captures = vec![capture("b"), capture("new"), capture("a"), capture("new")];
    let plan = chalkak::runtime::preview_windows::plan_preview_windows(&open, &captures);
    assert_eq!(plan.stale_ids, vec!["old".to_string(), "gone".to_string()]);
    assert_eq!(plan.create, vec![false, true, false, false]);

    let empty = chalkak::runtime::preview_windows::plan_preview_windows(&open, &Vec::new());
    assert_eq!(empty.stale_ids, open);
    assert!(empty.create.is_empty());
}
