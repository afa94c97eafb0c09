use chalkak::capture::{
    select_focused_monitor, selectable_windows, CaptureError, MonitorStatus, WindowClientStatus,
    WorkspaceStatus,
};
use serde_json::Value;

fn opt_i32(value: &Value, key: &str) -> Option<i32> {
    value
        .get(key)
        .and_then(Value::as_i64)
        .and_then(|v| i32::try_from(v).ok())
}

fn opt_string(value: &Value, key: &str) -> Option<String> {
    value.get(key).and_then(Value::as_str).map(str::to_string)
}

fn opt_pair(value: &Value, key: &str) -> Option<(i32, i32)> {
    let items = value.get(key)?.as_array()?;
    if items.len() != 2 {
        return None;
    }
    let first = i32::try_from(items[0].as_i64()?).ok()?;
    let second = i32::try_from(items[1].as_i64()?).ok()?;
    Some((first, second))
}

fn workspace(value: &Value, key: &str) -> Option<WorkspaceStatus> {
    value
        .get(key)
        .filter(|item| item.is_object())
        .map(|item| WorkspaceStatus {
            id: opt_i32(item, "id"),
        })
}

fn monitors_from_json(json: &str) -> Vec<MonitorStatus> {
    let parsed: Value = serde_json::from_str(json).expect("monitor report should be JSON");
    parsed
        .as_array()
        .expect("monitor report should be an array")
        .iter()
        .map(|item| MonitorStatus {
            focused: item.get("focused").and_then(Value::as_bool).unwrap_or(false),
            name: opt_string(item, "name"),
            x: opt_i32(item, "x"),
            y: opt_i32(item, "y"),
            width: opt_i32(item, "width"),
            height: opt_i32(item, "height"),
            active_workspace: workspace(item, "activeWorkspace"),
        })
        .collect()
}

fn clients_from_json(json: &str) -> Vec<WindowClientStatus> {
    let parsed: Value = serde_json::from_str(json).expect("client report should be JSON");
    parsed
        .as_array()
        .expect("client report should be an array")
        .iter()
        .map(|item| WindowClientStatus {
            title: opt_string(item, "title"),
            class: opt_string(item, "class"),
            mapped: item.get("mapped").and_then(Value::as_bool),
            hidden: item.get("hidden").and_then(Value::as_bool),
            at: opt_pair(item, "at"),
            size: opt_pair(item, "size"),
            workspace: workspace(item, "workspace"),
        })
        .collect()
}

#[test]
fn parse_focused_monitor_prefers_focused_monitor() {
    let json = r#"[{"name":"DP-1","focused":false},{"name":"HDMI-A-1","focused":true,"x":100,"y":200,"width":2560,"height":1440,"activeWorkspace":{"id":3,"name":"3"}}]"#;
    let monitor = select_focused_monitor(&monitors_from_json(json))
        .unwrap_or_else(|_| panic!("focused monitor should parse"));
    assert_eq!(monitor.name, "HDMI-A-1");
    assert_eq!((monitor.x, monitor.y), (100, 200));
    assert_eq!((monitor.width, monitor.height), (Some(2560), Some(1440)));
    assert_eq!(monitor.active_workspace_id, Some(3));
}

#[test]
fn parse_focused_monitor_errors_without_focused() {
    let json = r#"[{"name":"DP-1","focused":false}]"#;
    assert!(matches!(
        select_focused_monitor(&monitors_from_json(json)),
        Err(CaptureError::NoFocusedMonitor)
    ));
}

#[test]
fn parse_selectable_windows_filters_invalid_hidden_and_out_of_workspace_clients() {
    let clients_json = r#"
[
  {"title":"Browser","class":"firefox","mapped":true,"hidden":false,"workspace":{"id":1,"name":"1"},"at":[5,10],"size":[400,300]},
  {"title":"OtherWorkspace","mapped":true,"hidden":false,"workspace":{"id":2,"name":"2"},"at":[8,9],"size":[50,60]},
  {"title":"Hidden","mapped":true,"hidden":true,"workspace":{"id":1,"name":"1"},"at":[0,0],"size":[10,10]},
  {"title":"Unmapped","mapped":false,"hidden":false,"workspace":{"id":1,"name":"1"},"at":[0,0],"size":[10,10]},
  {"title":"InvalidSize","mapped":true,"hidden":false,"workspace":{"id":1,"name":"1"},"at":[0,0],"size":[0,10]},
  {"title":"MissingGeometry","mapped":true,"hidden":false}
]
"#;
    let candidates = selectable_windows(&clients_from_json(clients_json), 1);
    assert_eq!(candidates.len(), 1);
    let candidate = &candidates[0];
    assert_eq!(
        (candidate.x, candidate.y, candidate.width, candidate.height),
        (5, 10, 400, 300)
    );
    assert_eq!(candidate.label, "01. Browser [firefox]");
}
