use std::cell::RefCell;

use chalkak::capture::{
    capture_full_with, capture_region_with, command_output_outcome, command_status_outcome, capture_window_with, cleanup_temp_capture_file_with,
    format_window_selection_regions, parse_region_selection, select_focused_monitor,
    selectable_windows, CaptureBackend, CaptureError, CaptureSelection, MonitorStatus,
    RemoveFileError, TempCaptureCleanupOutcome, WindowClientStatus, WorkspaceStatus,
};

struct FakeCaptureBackend {
    monitors: Vec<MonitorStatus>,
    clients: Vec<WindowClientStatus>,
    dimensions: (u32, u32),
    region_selection: String,
    window_selection: String,
    window_selection_regions_input: RefCell<Option<String>>,
    fail_full_capture: bool,
    fail_region_capture: bool,
    fail_image_dimensions: bool,
    files: RefCell<Vec<String>>,
    calls: RefCell<Vec<String>>,
}

fn monitor(name: &str, focused: bool, workspace: Option<i32>) -> MonitorStatus {
    MonitorStatus {
        focused,
        name: Some(name.to_string()),
        x: None,
        y: None,
        width: None,
        height: None,
        active_workspace: workspace.map(|id| WorkspaceStatus { id: Some(id) }),
    }
}

fn client(
    title: &str,
    class: Option<&str>,
    mapped: Option<bool>,
    hidden: Option<bool>,
    workspace: Option<i32>,
    at: Option<(i32, i32)>,
    size: Option<(i32, i32)>,
) -> WindowClientStatus {
    WindowClientStatus {
        title: Some(title.to_string()),
        class: class.map(|c| c.to_string()),
        mapped,
        hidden,
        at,
        size,
        workspace: workspace.map(|id| WorkspaceStatus { id: Some(id) }),
    }
}

/// `[{"name":"DP-1","focused":true}]`
fn focused_monitor() -> Vec<MonitorStatus> {
    vec![monitor("DP-1", true, None)]
}

/// `[{"name":"DP-1","focused":true,"activeWorkspace":{"id":1,"name":"1"}}]`
fn focused_monitor_with_workspace() -> Vec<MonitorStatus> {
    vec![monitor("DP-1", true, Some(1))]
}

impl FakeCaptureBackend {
    fn new(monitors: Vec<MonitorStatus>, dimensions: (u32, u32), region_selection: &str) -> Self {
        Self {
            monitors,
            clients: Vec::new(),
            dimensions,
            region_selection: region_selection.to_string(),
            window_selection: region_selection.to_string(),
            window_selection_regions_input: RefCell::new(None),
            fail_full_capture: false,
            fail_region_capture: false,
            fail_image_dimensions: false,
            files: RefCell::new(Vec::new()),
            calls: RefCell::new(Vec::new()),
        }
    }

    fn calls(&self) -> Vec<String> {
        self.calls.borrow().clone()
    }

    fn has_file(&self, path: &str) -> bool {
        self.files.borrow().iter().any(|f| f == path)
    }
}

impl CaptureBackend for FakeCaptureBackend {
    fn focused_monitors(&mut self) -> Result<Vec<MonitorStatus>, CaptureError> {
        self.calls.borrow_mut().push("hyprctl monitors -j".to_string());
        Ok(self.monitors.clone())
    }

    fn clients(&mut self) -> Result<Vec<WindowClientStatus>, CaptureError> {
        self.calls.borrow_mut().push("hyprctl clients -j".to_string());
        Ok(self.clients.clone())
    }

    fn temp_capture_path(&mut self, capture_id: &str) -> String {
        format!("/tmp/chalkak-test-{capture_id}.png")
    }

    fn run_full_capture(&mut self, monitor: &str, output: &str) -> Result<(), CaptureError> {
        self.calls.borrow_mut().push(format!("grim -o {monitor} {output}"));
        if self.fail_full_capture {
            return Err(CaptureError::CommandFailed {
                command: "grim".to_string(),
                message: "simulated full capture failure".to_string(),
            });
        }
        self.files.borrow_mut().push(output.to_string());
        Ok(())
    }

    fn run_region_selection(&mut self) -> Result<String, CaptureError> {
        self.calls.borrow_mut().push("slurp".to_string());
        Ok(self.region_selection.clone())
    }

    fn run_window_selection(&mut self, window_regions: &str) -> Result<String, CaptureError> {
        self.calls.borrow_mut().push("slurp -r".to_string());
        *self.window_selection_regions_input.borrow_mut() = Some(window_regions.to_string());
        Ok(self.window_selection.clone())
    }

    fn run_region_capture(&mut self, geometry: &str, output: &str) -> Result<(), CaptureError> {
        self.calls.borrow_mut().push(format!("grim -g {geometry} {output}"));
        if self.fail_region_capture {
            return Err(CaptureError::CommandFailed {
                command: "grim".to_string(),
                message: "simulated region capture failure".to_string(),
            });
        }
        self.files.borrow_mut().push(output.to_string());
        Ok(())
    }

    fn image_dimensions(&mut self, _output: &str) -> Result<(u32, u32), CaptureError> {
        if self.fail_image_dimensions {
            return Err(CaptureError::ImageReadFailed {
                message: "simulated dimension read failure".to_string(),
            });
        }
        Ok(self.dimensions)
    }

    fn remove_temp_file(&mut self, path: &str) -> Result<(), RemoveFileError> {
        let mut files = self.files.borrow_mut();
        match files.iter().position(|f| f == path) {
            Some(index) => {
                files.remove(index);
                Ok(())
            }
            None => Err(RemoveFileError::NotFound),
        }
    }
}

#[test]
fn capture_full_uses_focused_monitor_and_creates_artifact() {
    let mut backend = FakeCaptureBackend::new(focused_monitor(), (1920, 1080), "");
    let artifact = capture_full_with(&mut backend).expect("fake adapter should produce artifact");
    assert_eq!(artifact.width, 1920);
    assert_eq!(artifact.height, 1080);
    assert_eq!(artifact.screen_x, 0);
    assert_eq!(artifact.screen_y, 0);
    assert_eq!(artifact.screen_width, 1920);
    assert_eq!(artifact.screen_height, 1080);
    assert!(backend.has_file(&artifact.temp_path));
    assert!(!artifact.capture_id.is_empty());
    assert!(artifact.created_at > 0);

    let calls = backend.calls();
    assert_eq!(calls.len(), 2);
    assert_eq!(calls[0], "hyprctl monitors -j");
    assert!(calls[1].contains("grim -o "));
}

#[test]
fn capture_region_uses_region_selection_and_creates_artifact() {
    let mut backend = FakeCaptureBackend::new(focused_monitor(), (800, 600), "30,40 300x200");
    let artifact = capture_region_with(&mut backend).expect("fake adapter should capture region");
    assert_eq!(artifact.width, 800);
    assert_eq!(artifact.height, 600);
    assert_eq!(artifact.screen_x, 30);
    assert_eq!(artifact.screen_y, 40);
    assert_eq!(artifact.screen_width, 300);
    assert_eq!(artifact.screen_height, 200);
    assert!(backend.has_file(&artifact.temp_path));
    assert!(!artifact.capture_id.is_empty());
    assert!(artifact.created_at > 0);

    let calls = backend.calls();
    assert_eq!(calls.len(), 3);
    assert_eq!(calls[0], "hyprctl monitors -j");
    assert_eq!(calls[1], "slurp");
    assert_eq!(calls[2], format!("grim -g 30,40 300x200 {}", artifact.temp_path));
}

#[test]
fn capture_region_errors_when_selection_empty() {
    let mut backend = FakeCaptureBackend::new(focused_monitor(), (1920, 1080), "\n");
    let err = capture_region_with(&mut backend).expect_err("selection empty should be invalid");
    assert!(matches!(err, CaptureError::InvalidSelection { message: _ }));

    let calls = backend.calls();
    assert_eq!(calls.len(), 2);
    assert_eq!(calls[0], "hyprctl monitors -j");
    assert_eq!(calls[1], "slurp");
}

#[test]
fn capture_window_uses_window_selection_and_creates_artifact() {
    let mut backend = FakeCaptureBackend::new(focused_monitor_with_workspace(), (800, 600), "");
    backend.clients = vec![client(
        "Browser",
        Some("firefox"),
        Some(true),
        Some(false),
        Some(1),
        Some((30, 40)),
        Some((300, 200)),
    )];
    backend.window_selection = "30,40 300x200".to_string();
    let artifact = capture_window_with(&mut backend).expect("fake adapter should capture window");

    assert_eq!(artifact.width, 800);
    assert_eq!(artifact.height, 600);
    assert_eq!(artifact.screen_x, 30);
    assert_eq!(artifact.screen_y, 40);
    assert_eq!(artifact.screen_width, 300);
    assert_eq!(artifact.screen_height, 200);
    assert!(backend.has_file(&artifact.temp_path));

    let calls = backend.calls();
    assert_eq!(calls.len(), 4);
    assert_eq!(calls[0], "hyprctl monitors -j");
    assert_eq!(calls[1], "hyprctl clients -j");
    assert_eq!(calls[2], "slurp -r");
    assert_eq!(calls[3], format!("grim -g 30,40 300x200 {}", artifact.temp_path));
    assert_eq!(
        backend.window_selection_regions_input.borrow().as_deref(),
        Some("30,40 300x200 01. Browser [firefox]")
    );
}

#[test]
fn capture_window_errors_when_no_selectable_window_exists() {
    let mut backend = FakeCaptureBackend::new(focused_monitor_with_workspace(), (800, 600), "");
    backend.clients =
        vec![client("hidden", None, None, Some(true), Some(1), Some((1, 2)), Some((3, 4)))];

    let err = capture_window_with(&mut backend).expect_err("missing selectable windows should error");
    assert!(matches!(err, CaptureError::InvalidSelection { message: _ }));

    let calls = backend.calls();
    assert_eq!(calls.len(), 2);
    assert_eq!(calls[0], "hyprctl monitors -j");
    assert_eq!(calls[1], "hyprctl clients -j");
}

#[test]
fn capture_window_errors_when_focused_workspace_metadata_is_missing() {
    let mut backend = FakeCaptureBackend::new(focused_monitor(), (400, 300), "");
    backend.clients = vec![client(
        "Editor",
        None,
        Some(true),
        Some(false),
        Some(1),
        Some((9, 11)),
        Some((120, 70)),
    )];
    backend.window_selection = "9,11 120x70".to_string();

    let err = capture_window_with(&mut backend)
        .expect_err("window capture should fail when focused workspace id is missing");
    assert!(matches!(err, CaptureError::InvalidMonitorMetadata { message: _ }));

    assert_eq!(backend.calls(), vec!["hyprctl monitors -j".to_string()]);
}

fn output_path_of(call: &str) -> String {
    call.split_whitespace()
        .last()
        .expect("capture command should include output path")
        .to_string()
}

#[test]
fn capture_full_cleans_up_temp_file_when_dimension_read_fails() {
    let mut backend = FakeCaptureBackend::new(focused_monitor(), (1920, 1080), "");
    backend.fail_image_dimensions = true;

    let err = capture_full_with(&mut backend).expect_err("dimension read failure should bubble");
    assert!(matches!(err, CaptureError::ImageReadFailed { message: _ }));

    let capture_call = backend
        .calls()
        .into_iter()
        .find(|call| call.starts_with("grim -o "))
        .expect("expected full capture command");
    let temp_path = output_path_of(&capture_call);
    assert!(!backend.has_file(&temp_path));
}

#[test]
fn capture_region_cleans_up_temp_file_when_dimension_read_fails() {
    let mut backend = FakeCaptureBackend::new(focused_monitor(), (1920, 1080), "10,20 80x60");
    backend.fail_image_dimensions = true;

    let err = capture_region_with(&mut backend).expect_err("dimension read failure should bubble");
    assert!(matches!(err, CaptureError::ImageReadFailed { message: _ }));

    let capture_call = backend
        .calls()
        .into_iter()
        .find(|call| call.starts_with("grim -g "))
        .expect("expected region capture command");
    let temp_path = output_path_of(&capture_call);
    assert!(!backend.has_file(&temp_path));
}

#[test]
fn capture_window_cleans_up_temp_file_when_dimension_read_fails() {
    let mut backend = FakeCaptureBackend::new(focused_monitor_with_workspace(), (1920, 1080), "");
    backend.clients = vec![client(
        "window",
        None,
        Some(true),
        Some(false),
        Some(1),
        Some((10, 20)),
        Some((80, 60)),
    )];
    backend.window_selection = "10,20 80x60".to_string();
    backend.fail_image_dimensions = true;

    let err = capture_window_with(&mut backend).expect_err("dimension read failure should bubble");
    assert!(matches!(err, CaptureError::ImageReadFailed { message: _ }));

    let capture_call = backend
        .calls()
        .into_iter()
        .find(|call| call.starts_with("grim -g "))
        .expect("expected window capture command");
    let temp_path = output_path_of(&capture_call);
    assert!(!backend.has_file(&temp_path));
}

#[test]
fn capture_command_failure_is_returned_and_skips_dimensions() {
    let mut backend = FakeCaptureBackend::new(focused_monitor(), (1920, 1080), "10,20 80x60");
    backend.fail_region_capture = true;
    let err = capture_region_with(&mut backend).expect_err("capture failure should bubble");
    assert!(matches!(err, CaptureError::CommandFailed { .. }));
    backend.fail_full_capture = true;
    let err = capture_full_with(&mut backend).expect_err("capture failure should bubble");
    assert!(matches!(err, CaptureError::CommandFailed { .. }));
}

#[test]
fn cleanup_temp_capture_file_with_reports_failed_when_remove_errors() {
    let path = "/tmp/chalkak-nonexistent-file.png";
    let outcome = cleanup_temp_capture_file_with(path, |_| {
        Err(RemoveFileError::Failed { message: "simulated cleanup failure".to_string() })
    });

    assert_eq!(outcome, TempCaptureCleanupOutcome::Failed);
}

#[test]
fn cleanup_reports_removed_and_missing_files() {
    assert_eq!(
        cleanup_temp_capture_file_with("/tmp/x.png", |_| Ok(())),
        TempCaptureCleanupOutcome::Removed
    );
    assert_eq!(
        cleanup_temp_capture_file_with("/tmp/x.png", |_| Err(RemoveFileError::NotFound)),
        TempCaptureCleanupOutcome::NotFound
    );
}

#[test]
fn parse_region_selection_parses_expected_format() {
    let selection = parse_region_selection("320,240 640x360").expect("selection should parse");
    assert_eq!(selection, CaptureSelection { x: 320, y: 240, width: 640, height: 360 });
}

#[test]
fn parse_region_selection_rejects_invalid_formats() {
    let err = parse_region_selection("oops").expect_err("invalid geometry should produce an error");
    assert!(matches!(err, CaptureError::InvalidSelection { message: _ }));
}

fn selection_message(geometry: &str) -> String {
    match parse_region_selection(geometry) {
        Err(CaptureError::InvalidSelection { message }) => message,
        other => panic!("expected an invalid selection, got {other:?}"),
    }
}

#[test]
fn parse_region_selection_reports_each_failure() {
    assert_eq!(selection_message("1,2 3x4 5"), "invalid region geometry: 1,2 3x4 5");
    assert_eq!(selection_message("12 3x4"), "invalid region position: 12");
    assert_eq!(selection_message("1,2 34"), "invalid region size: 34");
    assert_eq!(
        selection_message("a,2 3x4"),
        "invalid x coordinate 'a': invalid digit found in string"
    );
    assert_eq!(
        selection_message("1, 3x4"),
        "invalid y coordinate '': cannot parse integer from empty string"
    );
    assert_eq!(
        selection_message("1,99999999999 3x4"),
        "invalid y coordinate '99999999999': number too large to fit in target type"
    );
    assert_eq!(
        selection_message("1,2 -3x4"),
        "invalid width '-3': invalid digit found in string"
    );
    assert_eq!(
        selection_message("1,2 3x"),
        "invalid height '': cannot parse integer from empty string"
    );
    assert_eq!(selection_message("1,2 0x4"), "selection must be positive, got 0x4");
    assert_eq!(
        parse_region_selection(" -5,+7\t3x4 ").expect("signed coordinates"),
        CaptureSelection { x: -5, y: 7, width: 3, height: 4 }
    );
    assert_eq!(
        parse_region_selection("-2147483648,0 4294967295x1").expect("extremes"),
        CaptureSelection { x: i32::MIN, y: 0, width: u32::MAX, height: 1 }
    );
    assert_eq!(
        selection_message("-2147483649,0 1x1"),
        "invalid x coordinate '-2147483649': number too small to fit in target type"
    );
}

#[test]
fn focused_monitor_is_the_first_focused_one() {
    let mut second = monitor("HDMI-A-1", true, Some(3));
    second.x = Some(100);
    second.y = Some(200);
    second.width = Some(2560);
    second.height = Some(-1);
    let monitors = vec![monitor("DP-1", false, None), second];
    let focused = select_focused_monitor(&monitors).expect("focused monitor");
    assert_eq!(focused.name, "HDMI-A-1");
    assert_eq!((focused.x, focused.y), (100, 200));
    assert_eq!(focused.width, Some(2560));
    assert_eq!(focused.height, None);
    assert_eq!(focused.active_workspace_id, Some(3));

    assert!(matches!(
        select_focused_monitor(&vec![monitor("DP-1", false, None)]),
        Err(CaptureError::NoFocusedMonitor)
    ));
    assert!(matches!(
        select_focused_monitor(&vec![monitor("", true, None), monitor("DP-2", true, None)]),
        Err(CaptureError::NoFocusedMonitor)
    ));
    assert_eq!(
        select_focused_monitor(&vec![monitor("DP-1", true, Some(0))])
            .expect("focused")
            .active_workspace_id,
        None
    );
}

#[test]
fn selectable_windows_filter_and_number_candidates() {
    let clients = vec![
        client("Browser", Some("firefox"), Some(true), Some(false), Some(1), Some((5, 10)), Some((400, 300))),
        client("OtherWorkspace", None, Some(true), Some(false), Some(2), Some((8, 9)), Some((50, 60))),
        client("Hidden", None, Some(true), Some(true), Some(1), Some((0, 0)), Some((10, 10))),
        client("Unmapped", None, Some(false), Some(false), Some(1), Some((0, 0)), Some((10, 10))),
        client("InvalidSize", None, Some(true), Some(false), Some(1), Some((0, 0)), Some((0, 10))),
        client("MissingGeometry", None, Some(true), Some(false), None, None, None),
        client("  Two\nLines ", Some("  "), None, None, Some(1), Some((-3, 4)), Some((5, 6))),
    ];
    let candidates = selectable_windows(&clients, 1);
    assert_eq!(candidates.len(), 2);
    assert_eq!(
        (candidates[0].x, candidates[0].y, candidates[0].width, candidates[0].height),
        (5, 10, 400, 300)
    );
    assert_eq!(candidates[0].label, "01. Browser [firefox]");
    assert_eq!(candidates[1].label, "02. Two Lines");
    assert_eq!(
        format_window_selection_regions(&candidates),
        "5,10 400x300 01. Browser [firefox]\n-3,4 5x6 02. Two Lines"
    );
    assert_eq!(format_window_selection_regions(&Vec::new()), "");
}

#[test]
fn printed_geometry_reads_back_as_the_region() {
    for (x, y, w, h) in [(0, 0, 1u32, 1u32), (-5, 7, 300, 200), (i32::MIN, i32::MAX, u32::MAX, 9)] {
        let text = format!("{x},{y} {w}x{h}");
        assert_eq!(
            parse_region_selection(&text).expect("printed geometry"),
            CaptureSelection { x, y, width: w, height: h }
        );
    }
}

#[test]
fn command_outcomes_classify_exit_and_output() {
    match command_output_outcome("hyprctl", false, "exit status: 1", "x".to_string(), "boom") {
        Err(CaptureError::CommandFailed { command, message }) => {
            assert_eq!(command, "hyprctl");
            assert_eq!(message, "exit status: exit status: 1; stderr: boom");
        }
        other => panic!("unexpected {other:?}"),
    }
    match command_output_outcome("slurp", true, "exit status: 0", String::new(), "") {
        Err(CaptureError::CommandFailed { message, .. }) => {
            assert_eq!(message, "command produced no stdout output")
        }
        other => panic!("unexpected {other:?}"),
    }
    assert_eq!(
        command_output_outcome("slurp", true, "exit status: 0", "1,2 3x4".to_string(), "").unwrap(),
        "1,2 3x4"
    );
    assert!(command_status_outcome("grim", true, "exit status: 0").is_ok());
    match command_status_outcome("grim", false, "exit status: 2") {
        Err(CaptureError::CommandFailed { command, message }) => {
            assert_eq!(command, "grim");
            assert_eq!(message, "command exited with status: exit status: 2");
        }
        other => panic!("unexpected {other:?}"),
    }
}
