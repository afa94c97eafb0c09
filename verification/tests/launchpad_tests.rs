use chalkak::launchpad::{
    capture_failure_messages, close_editor, close_preview_allowed, close_preview_finish, open_editor,
    open_preview, open_preview_for_new_capture, preview_action_precheck,
};
use chalkak::preview::PreviewAction;
use chalkak::state::{AppEvent, AppState, StateMachine};

fn machine_in(state: AppState) -> StateMachine {
    let mut machine = StateMachine::new();
    match state {
        AppState::Idle => {}
        AppState::Preview => {
            machine.transition(AppEvent::OpenPreview).unwrap();
        }
        AppState::Editor => {
            machine.transition(AppEvent::OpenPreview).unwrap();
            machine.transition(AppEvent::OpenEditor).unwrap();
        }
    }
    machine
}

#[test]
fn open_preview_requires_a_capture() {
    let mut machine = machine_in(AppState::Idle);
    let mut status = String::from("ready");
    open_preview(None, &mut machine, &mut status);
    assert_eq!(status, "capture required before preview");
    assert_eq!(machine.state(), AppState::Idle);
}

#[test]
fn open_preview_from_idle_enters_preview() {
    let mut machine = machine_in(AppState::Idle);
    let mut status = String::new();
    open_preview(Some("capture-1"), &mut machine, &mut status);
    assert_eq!(status, "preview opened for capture-1");
    assert_eq!(machine.state(), AppState::Preview);
}

#[test]
fn open_preview_in_preview_keeps_state() {
    let mut machine = machine_in(AppState::Preview);
    let before = machine.history().len();
    let mut status = String::new();
    open_preview(Some("capture-2"), &mut machine, &mut status);
    assert_eq!(status, "preview opened for capture-2");
    assert_eq!(machine.state(), AppState::Preview);
    assert_eq!(machine.history().len(), before);
}

#[test]
fn open_preview_from_editor_is_refused() {
    let mut machine = machine_in(AppState::Editor);
    let mut status = String::new();
    open_preview(Some("capture-3"), &mut machine, &mut status);
    assert_eq!(status, "cannot open preview from state Editor");
    assert_eq!(machine.state(), AppState::Editor);
}

#[test]
fn open_editor_needs_capture_and_preview() {
    let mut machine = machine_in(AppState::Preview);
    let mut status = String::new();
    open_editor(None, &mut machine, &mut status);
    assert_eq!(status, "capture required before editor");
    assert_eq!(machine.state(), AppState::Preview);

    let mut idle = machine_in(AppState::Idle);
    open_editor(Some("capture-1"), &mut idle, &mut status);
    assert_eq!(status, "editor can only open from preview state");
    assert_eq!(idle.state(), AppState::Idle);

    open_editor(Some("capture-1"), &mut machine, &mut status);
    assert_eq!(status, "editor opened for capture-1");
    assert_eq!(machine.state(), AppState::Editor);
}

#[test]
fn close_editor_returns_to_preview() {
    let mut machine = machine_in(AppState::Editor);
    let mut status = String::new();
    close_editor(&mut machine, &mut status);
    assert_eq!(status, "editor closed");
    assert_eq!(machine.state(), AppState::Preview);

    close_editor(&mut machine, &mut status);
    assert_eq!(status, "cannot close editor");
    assert_eq!(machine.state(), AppState::Preview);
}

#[test]
fn close_preview_allowed_reports_what_is_missing() {
    let mut status = String::from("unchanged");
    assert!(!close_preview_allowed(AppState::Idle, Some("c"), &mut status));
    assert_eq!(status, "close preview requires preview state");
    assert!(!close_preview_allowed(AppState::Preview, None, &mut status));
    assert_eq!(status, "preview close requires an active capture");
    let mut kept = String::from("unchanged");
    assert!(close_preview_allowed(AppState::Preview, Some("c"), &mut kept));
    assert_eq!(kept, "unchanged");
}

#[test]
fn close_preview_finish_leaves_preview_when_no_capture_remains() {
    let mut machine = machine_in(AppState::Preview);
    let mut status = String::new();
    close_preview_finish("capture-1", true, &mut machine, &mut status);
    assert_eq!(status, "preview closed for capture-1");
    assert_eq!(machine.state(), AppState::Preview);

    close_preview_finish("capture-2", false, &mut machine, &mut status);
    assert_eq!(status, "preview closed");
    assert_eq!(machine.state(), AppState::Idle);

    close_preview_finish("capture-3", false, &mut machine, &mut status);
    assert_eq!(status, "cannot close preview");
    assert_eq!(machine.state(), AppState::Idle);
}

#[test]
fn open_preview_for_new_capture_follows_the_machine() {
    let mut machine = machine_in(AppState::Idle);
    let mut status = String::new();
    assert!(open_preview_for_new_capture("capture-9", &mut machine, &mut status));
    assert_eq!(status, "preview opened for capture-9");
    assert_eq!(machine.state(), AppState::Preview);

    let mut editor = machine_in(AppState::Editor);
    assert!(!open_preview_for_new_capture("capture-10", &mut editor, &mut status));
    assert_eq!(status, "preview transition blocked for current state");
    assert_eq!(editor.state(), AppState::Editor);
}

#[test]
fn capture_failure_messages_join_prefix_and_error() {
    let (status, toast) = capture_failure_messages("capture failed", "Capture failed", "no monitor");
    assert_eq!(status, "capture failed: no monitor");
    assert_eq!(toast, "Capture failed: no monitor");
}

#[test]
fn preview_action_precheck_names_the_missing_piece() {
    let mut status = String::from("unchanged");
    assert!(!preview_action_precheck(PreviewAction::Save, false, AppState::Preview, true, &mut status));
    assert_eq!(status, "save requires an active capture");
    assert!(!preview_action_precheck(PreviewAction::Copy, true, AppState::Idle, true, &mut status));
    assert_eq!(status, "copy requires preview state");
    assert!(!preview_action_precheck(PreviewAction::Delete, true, AppState::Preview, false, &mut status));
    assert_eq!(status, "storage service unavailable");
    let mut kept = String::from("unchanged");
    assert!(preview_action_precheck(PreviewAction::Edit, true, AppState::Preview, true, &mut kept));
    assert_eq!(kept, "unchanged");
}
