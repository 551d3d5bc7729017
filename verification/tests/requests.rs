use cmux_gtk::app_state::AppState;
use cmux_gtk::dispatch::{internal_error, Answer};
use cmux_gtk::ghostty::{status, Attempt};
use cmux_gtk::host::{HostAction, HostReply, ScriptReply, Step};
use cmux_gtk::json::Json;
use cmux_gtk::layout::PaneNode;
use cmux_gtk::notifications::Clock;
use cmux_gtk::rpc::{Readings, RpcRequest};
use cmux_gtk::settings::Settings;
use cmux_gtk::shown::PaneLayoutDetail;
use cmux_gtk::system::Surroundings;
use serde_json::{Number, Value};

const CLOCK: Clock = Clock { nanos: 1_700_000_000_000_000_000, millis: 1_700_000_000_000 };

const NO_READINGS: Readings = Readings {
    dy: None,
    ratio: None,
    percent: None,
    timeout_ms: None,
    timeout_ms_camel: None,
    timeout: None,
};

fn surroundings() -> Surroundings {
    let attempts: Vec<Attempt> = Vec::new();
    Surroundings {
        settings: Settings::default(),
        settings_path: Some(String::from("/home/me/.config/cmux/settings.json")),
        socket_path: String::from("/run/user/1000/cmux/cmux.sock"),
        ghostty: status(&attempts),
    }
}

fn to_value(json: &Json) -> Value {
    match json {
        Json::Null => Value::Null,
        Json::Bool(b) => Value::Bool(*b),
        Json::Unsigned(n) => Value::Number(Number::from(*n)),
        Json::Negative(n) => Value::Number(Number::from(*n)),
        Json::Real(bits) => Number::from_f64(f64::from_bits(*bits)).map_or(Value::Null, Value::Number),
        Json::Text(s) => Value::String(s.clone()),
        Json::Array(items) => Value::Array(items.iter().map(to_value).collect()),
        Json::Object(entries) => {
            let mut map = serde_json::Map::new();
            for (key, value) in entries {
                map.insert(key.clone(), to_value(value));
            }
            Value::Object(map)
        }
    }
}

fn from_value(value: &Value) -> Json {
    match value {
        Value::Null => Json::Null,
        Value::Bool(b) => Json::Bool(*b),
        Value::Number(n) => match (n.as_u64(), n.as_i64()) {
            (Some(u), _) => Json::Unsigned(u),
            (None, Some(i)) => Json::Negative(i),
            (None, None) => Json::Real(n.as_f64().unwrap().to_bits()),
        },
        Value::String(s) => Json::Text(s.clone()),
        Value::Array(items) => Json::Array(items.iter().map(from_value).collect()),
        Value::Object(entries) => {
            Json::Object(entries.iter().map(|(k, v)| (k.clone(), from_value(v))).collect())
        }
    }
}

fn nothing_live(action: &HostAction) -> HostReply {
    match action {
        HostAction::TerminalReadText | HostAction::ActiveFrame => HostReply::Text(None),
        HostAction::TerminalStatus => HostReply::Terminal(None),
        HostAction::Expression(_) | HostAction::Statement(_) => HostReply::Script(ScriptReply::NotLive),
        HostAction::Screenshot { .. } => HostReply::Screenshot(None),
        HostAction::RespondToDialog { .. } => HostReply::Dialog(Err(String::from("no pending dialog"))),
        HostAction::WaitForDownload { .. } => {
            HostReply::Download(Err(String::from("timed out waiting for download")))
        }
        HostAction::SelectFrame(_) => HostReply::Frame(Err(String::from("browser surface is not live"))),
        HostAction::ConsoleMessages | HostAction::ErrorMessages => HostReply::Events(Vec::new()),
        HostAction::Pause { .. } => HostReply::Flag(true),
        _ => HostReply::Flag(false),
    }
}

/// Sends a line the way the socket does, with no terminal and no web view on
/// the screen.
fn send(app: &mut AppState, line: &str) -> Value {
    let parsed: Value = serde_json::from_str(line).unwrap();
    let request = RpcRequest {
        jsonrpc: parsed.get("jsonrpc").and_then(Value::as_str).map(String::from),
        id: parsed.get("id").map(from_value),
        method: String::from(parsed["method"].as_str().unwrap()),
        params: parsed.get("params").map(from_value),
        readings: NO_READINGS,
    };
    assert!(app.can_dispatch(&request));
    let around = surroundings();
    let mut replies: Vec<HostReply> = Vec::new();
    loop {
        match app.dispatch_line(line, Some(&request), &around, CLOCK, &replies) {
            Answer::Ask(call) => replies.push(nothing_live(&call.action)),
            Answer::Line(_) => panic!("a request is answered by a response"),
            Answer::Response(response) => {
                let mut map = serde_json::Map::new();
                map.insert(String::from("ok"), Value::Bool(response.ok));
                if let Some(id) = &response.id {
                    map.insert(String::from("id"), to_value(id));
                }
                if let Some(result) = &response.result {
                    map.insert(String::from("result"), to_value(result));
                }
                if let Some(error) = &response.error {
                    let mut inner = serde_json::Map::new();
                    inner.insert(String::from("code"), Value::from(error.code));
                    inner.insert(String::from("message"), Value::from(error.message.as_str()));
                    map.insert(String::from("error"), Value::Object(inner));
                }
                return Value::Object(map);
            }
        }
    }
}

fn object(entries: &[(&str, Value)]) -> Value {
    let mut map = serde_json::Map::new();
    for (key, value) in entries {
        map.insert(String::from(*key), value.clone());
    }
    Value::Object(map)
}

fn rpc(app: &mut AppState, method: &str, params: Value) -> Value {
    let request = object(&[
        ("jsonrpc", Value::from("2.0")),
        ("id", Value::from(1)),
        ("method", Value::from(method)),
        ("params", params),
    ]);
    send(app, &request.to_string())
}

fn text(s: &str) -> Value {
    Value::from(s)
}

fn id_of(response: &Value, key: &str) -> String {
    String::from(response["result"][key].as_str().unwrap())
}

#[test]
fn a_session_starts_with_one_terminal() {
    let mut app = AppState::start(CLOCK.nanos);
    let listed = rpc(&mut app, "workspace.list", object(&[]));
    let workspaces = listed["result"]["workspaces"].as_array().unwrap();
    assert_eq!(workspaces.len(), 1);
    assert_eq!(workspaces[0]["title"], "Default");
    assert_eq!(workspaces[0]["ref"], "workspace:1");
    assert_eq!(workspaces[0]["index"], 1);
    assert_eq!(workspaces[0]["selected"], true);
    assert_eq!(workspaces[0]["pane_count"], 1);
    assert_eq!(workspaces[0]["surface_count"], 1);
    let surfaces = rpc(&mut app, "surface.list", object(&[]));
    assert_eq!(surfaces["result"]["surfaces"][0]["kind"], "terminal");
    assert_eq!(surfaces["result"]["surfaces"][0]["title"], "Terminal");
    assert_eq!(surfaces["result"]["surfaces"][0]["focused"], true);
}

#[test]
fn ids_look_like_uuids_and_differ() {
    let mut app = AppState::start(CLOCK.nanos);
    let first = id_of(&rpc(&mut app, "workspace.create", object(&[])), "workspace_id");
    let second = id_of(&rpc(&mut app, "workspace.create", object(&[])), "workspace_id");
    assert_ne!(first, second);
    for id in [first, second] {
        let parts: Vec<usize> = id.split('-').map(str::len).collect();
        assert_eq!(parts, vec![8, 4, 4, 4, 12]);
    }
}

#[test]
fn a_new_workspace_is_the_current_one() {
    let mut app = AppState::start(CLOCK.nanos);
    let created = rpc(&mut app, "workspace.create", object(&[("title", text("Docs"))]));
    assert_eq!(created["result"]["workspace"]["title"], "Docs");
    assert_eq!(created["result"]["workspace_ref"], "workspace:2");
    let current = rpc(&mut app, "workspace.current", object(&[]));
    assert_eq!(current["result"], created["result"]);
}

#[test]
fn a_workspace_with_a_command_has_a_terminal() {
    let mut app = AppState::start(CLOCK.nanos);
    let created = rpc(
        &mut app,
        "workspace.create",
        object(&[("command", text("htop")), ("working_directory", text("/srv"))]),
    );
    assert_eq!(created["result"]["workspace"]["title"], "Workspace");
    assert_eq!(created["result"]["workspace"]["surface_count"], 1);
    let id = id_of(&created, "workspace_id");
    let surfaces = rpc(&mut app, "surface.list", object(&[("workspace_id", text(&id))]));
    assert_eq!(surfaces["result"]["surfaces"][0]["initial_command"], "htop");
    assert_eq!(surfaces["result"]["surfaces"][0]["working_directory"], "/srv");
}

#[test]
fn a_selected_workspace_is_the_current_one() {
    let mut app = AppState::start(CLOCK.nanos);
    rpc(&mut app, "workspace.create", object(&[]));
    let selected = rpc(&mut app, "workspace.select", object(&[("workspace", text("workspace:1"))]));
    assert_eq!(selected["result"]["workspace"]["title"], "Default");
    let current = rpc(&mut app, "workspace.current", object(&[]));
    assert_eq!(current["result"], selected["result"]);
    let refused = rpc(&mut app, "workspace.select", object(&[("workspace", text("nowhere"))]));
    assert_eq!(refused["error"]["message"], "invalid_params: unknown workspace: nowhere");
    let unnamed = rpc(&mut app, "workspace.select", object(&[]));
    assert_eq!(unnamed["error"]["code"], -32602);
}

#[test]
fn a_workspace_can_be_renamed() {
    let mut app = AppState::start(CLOCK.nanos);
    let renamed = rpc(&mut app, "workspace.rename", object(&[("title", text("  Home "))]));
    assert_eq!(renamed["result"]["workspace"]["title"], "Home");
    assert_eq!(app.workspace_summaries()[0].title, "Home");
    let refused = rpc(&mut app, "workspace.rename", object(&[]));
    assert_eq!(refused["error"]["code"], -32602);
}

#[test]
fn the_last_workspace_stays() {
    let mut app = AppState::start(CLOCK.nanos);
    let revision = app.revision();
    let refused = rpc(&mut app, "workspace.close", object(&[("workspace", text("workspace:1"))]));
    assert_eq!(
        refused["error"]["message"],
        "invalid_params: cannot close the last workspace"
    );
    assert_eq!(app.revision(), revision);
    rpc(&mut app, "workspace.create", object(&[]));
    let closed = rpc(&mut app, "workspace.close", object(&[("workspace", text("workspace:2"))]));
    assert_eq!(closed["result"]["closed"], true);
    assert_eq!(app.workspace_summaries().len(), 1);
    assert!(app.workspace_summaries()[0].selected);
}

#[test]
fn changes_make_revisions_and_questions_do_not() {
    let mut app = AppState::start(CLOCK.nanos);
    let start = app.revision();
    app.unsaved = false;
    rpc(&mut app, "workspace.list", object(&[]));
    assert_eq!(app.revision(), start);
    assert!(!app.unsaved);
    rpc(&mut app, "workspace.create", object(&[]));
    assert_eq!(app.revision(), start + 1);
    assert!(app.unsaved);
}

#[test]
fn a_split_puts_a_pane_beside_another() {
    let mut app = AppState::start(CLOCK.nanos);
    let created = rpc(
        &mut app,
        "pane.create",
        object(&[("direction", text("down")), ("type", text("terminal"))]),
    );
    assert_eq!(created["ok"], true);
    let panes = rpc(&mut app, "pane.list", object(&[]));
    let list = panes["result"]["panes"].as_array().unwrap();
    assert_eq!(list.len(), 2);
    assert_eq!(list[1]["ref"], "pane:2");
    assert_eq!(list[1]["focused"], true);
    assert_eq!(list[1]["surface_count"], 1);
    let refused = rpc(&mut app, "pane.create", object(&[("direction", text("sideways"))]));
    assert_eq!(refused["error"]["code"], -32602);
}

/// The panes of the two halves of the current workspace.
fn leaves(app: &AppState) -> (String, String) {
    match app.active_workspace_detail().unwrap().layout {
        PaneLayoutDetail::Split { first, second, .. } => match (*first, *second) {
            (PaneLayoutDetail::Leaf(a), PaneLayoutDetail::Leaf(b)) => (a.id, b.id),
            _ => panic!("two panes make two leaves"),
        },
        PaneLayoutDetail::Leaf(_) => panic!("two panes make a split"),
    }
}

#[test]
fn panes_can_be_focused_and_swapped() {
    let mut app = AppState::start(CLOCK.nanos);
    rpc(&mut app, "pane.create", object(&[("direction", text("right"))]));
    let (left, right) = leaves(&app);
    rpc(&mut app, "pane.focus", object(&[("pane", text("pane:1"))]));
    let focused = rpc(&mut app, "pane.list", object(&[]))["result"]["panes"].clone();
    assert_eq!(focused[0]["focused"], true);
    assert_eq!(focused[1]["focused"], false);
    let swapped = rpc(
        &mut app,
        "pane.swap",
        object(&[("pane", text("pane:1")), ("target_pane", text("pane:2"))]),
    );
    assert_eq!(swapped["ok"], true, "{swapped}");
    assert_eq!(leaves(&app), (right, left));
}

#[test]
fn a_surface_joins_the_pane_that_has_the_focus() {
    let mut app = AppState::start(CLOCK.nanos);
    let created = rpc(
        &mut app,
        "surface.create",
        object(&[("type", text("markdown")), ("title", text("Notes"))]),
    );
    assert_eq!(created["result"]["surface"]["title"], "Notes");
    assert_eq!(created["result"]["surface"]["kind"], "markdown");
    assert_eq!(created["result"]["surface_ref"], "surface:2");
    assert_eq!(created["result"]["pane_ref"], "pane:1");
    let listed = rpc(&mut app, "surface.list", object(&[]));
    let surfaces = listed["result"]["surfaces"].as_array().unwrap();
    assert!(surfaces.contains(&created["result"]["surface"]));
    let refused = rpc(&mut app, "surface.create", object(&[("type", text("carpet"))]));
    assert_eq!(
        refused["error"]["message"],
        "invalid_params: surface type must be terminal, browser, or markdown"
    );
}

#[test]
fn a_closed_surface_is_gone() {
    let mut app = AppState::start(CLOCK.nanos);
    let created = rpc(&mut app, "surface.create", object(&[("type", text("browser"))]));
    let id = id_of(&created, "surface_id");
    let closed = rpc(&mut app, "surface.close", object(&[("surface", text(&id))]));
    assert_eq!(closed["ok"], true);
    let listed = rpc(&mut app, "surface.list", object(&[]));
    assert_eq!(listed["result"]["surfaces"].as_array().unwrap().len(), 1);
    let again = rpc(&mut app, "surface.close", object(&[("surface", text(&id))]));
    assert_eq!(
        again["error"]["message"],
        format!("invalid_params: unknown surface: {id}")
    );
}

#[test]
fn a_surface_moves_within_its_pane() {
    let mut app = AppState::start(CLOCK.nanos);
    let first = String::from(
        rpc(&mut app, "surface.list", object(&[]))["result"]["surfaces"][0]["id"].as_str().unwrap(),
    );
    let second = id_of(&rpc(&mut app, "surface.create", object(&[])), "surface_id");
    let moved = rpc(
        &mut app,
        "surface.reorder",
        object(&[("surface", text(&second)), ("before_surface_id", text(&first))]),
    );
    assert_eq!(moved["ok"], true, "{moved}");
    assert_eq!(app.state.workspaces[0].panes[0].surface_ids, vec![second, first]);
}

#[test]
fn input_is_noted_and_read_back() {
    let mut app = AppState::start(CLOCK.nanos);
    let sent = rpc(&mut app, "surface.send_text", object(&[("text", text("ls\n"))]));
    assert_eq!(sent["result"]["accepted"], true);
    assert_eq!(sent["result"]["live_io"], false);
    rpc(&mut app, "surface.send_key", object(&[("key", text("enter"))]));
    let read = rpc(&mut app, "surface.read_text", object(&[]));
    assert_eq!(read["result"]["text"], "ls\nenter");
    assert_eq!(read["result"]["live_io"], false);
    let cleared = rpc(&mut app, "surface.clear_history", object(&[]));
    assert_eq!(cleared["result"]["cleared"], true);
    let empty = rpc(&mut app, "surface.read_text", object(&[]));
    assert_eq!(empty["result"]["text"], "");
}

#[test]
fn notifications_are_listed_until_they_are_cleared() {
    let mut app = AppState::start(CLOCK.nanos);
    let created = rpc(
        &mut app,
        "notification.create",
        object(&[("title", text("Build")), ("subtitle", text(" ci ")), ("body", text("done "))]),
    );
    assert_eq!(created["result"]["notification"]["title"], "Build");
    assert_eq!(created["result"]["notification"]["subtitle"], "ci");
    assert_eq!(created["result"]["notification"]["body"], "done");
    assert_eq!(created["result"]["notification"]["read"], false);
    let untitled = rpc(&mut app, "notification.create", object(&[]));
    assert_eq!(untitled["result"]["notification"]["title"], "cmux");
    let listed = rpc(&mut app, "notification.list", object(&[]));
    let list = listed["result"]["notifications"].as_array().unwrap();
    assert_eq!(list.len(), 2);
    assert_eq!(list[0], created["result"]["notification"]);
    assert_eq!(app.notification_count(), 2);
    assert_eq!(app.latest_notification().unwrap().title, "cmux");
    let cleared = rpc(&mut app, "notification.clear", object(&[]));
    assert_eq!(cleared["result"]["cleared"], 2);
    assert_eq!(app.notification_count(), 0);
    assert!(app.latest_notification().is_none());
}

#[test]
fn a_session_that_left_nothing_starts_anew() {
    let app = AppState::load_or_default(None, CLOCK.nanos);
    assert_eq!(app.workspace_summaries().len(), 1);
    assert_eq!(app.workspace_summaries()[0].title, "Default");
}

#[test]
fn a_session_is_repaired_where_it_does_not_hold_together() {
    let mut left = AppState::start(CLOCK.nanos).state;
    left.workspaces[0].panes.clear();
    left.active_workspace_id = Some(String::from("gone"));
    let app = AppState::load_or_default(Some(left), CLOCK.nanos + 1);
    let workspace = &app.state.workspaces[0];
    assert_eq!(workspace.panes.len(), 1);
    assert_eq!(app.state.active_workspace_id, Some(workspace.id.clone()));
    assert_eq!(app.state.active_pane_id, Some(workspace.panes[0].id.clone()));
}

fn written(app: &AppState) -> (String, Option<String>, Option<String>, Option<String>) {
    let mut all = String::new();
    for workspace in &app.state.workspaces {
        let mut leaves: Vec<String> = Vec::new();
        leaf_ids(&workspace.layout, &mut leaves);
        let panes: Vec<String> = workspace.panes.iter().map(|p| p.id.clone()).collect();
        let surfaces: Vec<String> = workspace.surfaces.iter().map(|s| s.id.clone()).collect();
        all.push_str(&format!(
            "{} {} {:?} {:?} {:?};",
            workspace.id, workspace.title, leaves, panes, surfaces
        ));
    }
    (
        all,
        app.state.active_workspace_id.clone(),
        app.state.active_pane_id.clone(),
        app.state.active_surface_id.clone(),
    )
}

#[test]
fn repairing_again_changes_only_the_revision() {
    let mut left = AppState::start(CLOCK.nanos).state;
    left.workspaces[0].panes.clear();
    left.active_workspace_id = Some(String::from("gone"));
    left.active_surface_id = Some(String::from("gone"));
    let mut app = AppState::load_or_default(Some(left), CLOCK.nanos + 1);
    let before = written(&app);
    let revision = app.state.revision;
    app.repair_state(CLOCK.nanos + 2);
    assert_eq!(written(&app), before);
    assert_eq!(app.state.revision, revision + 1);
}

fn leaf_ids(node: &PaneNode, all: &mut Vec<String>) {
    match node {
        PaneNode::Leaf { pane_id } => all.push(pane_id.clone()),
        PaneNode::Split { first, second, .. } => {
            leaf_ids(first, all);
            leaf_ids(second, all);
        }
    }
}

fn assert_whole(app: &AppState) {
    let mut seen: Vec<String> = Vec::new();
    assert!(!app.state.workspaces.is_empty());
    for workspace in &app.state.workspaces {
        assert!(!seen.contains(&workspace.id));
        seen.push(workspace.id.clone());
        for pane in &workspace.panes {
            assert!(!seen.contains(&pane.id));
            seen.push(pane.id.clone());
        }
        let mut leaves: Vec<String> = Vec::new();
        leaf_ids(&workspace.layout, &mut leaves);
        let mut panes: Vec<String> = workspace.panes.iter().map(|p| p.id.clone()).collect();
        leaves.sort();
        panes.sort();
        assert!(!panes.is_empty());
        assert_eq!(leaves, panes);
        for surface in &workspace.surfaces {
            assert!(!seen.contains(&surface.id));
            seen.push(surface.id.clone());
            assert!(workspace.panes.iter().any(|p| p.surface_ids.contains(&surface.id)));
        }
    }
}

#[test]
fn workspaces_stay_whole() {
    let mut app = AppState::start(CLOCK.nanos);
    let steps: Vec<(&str, Value)> = vec![
        ("pane.create", object(&[("direction", text("right"))])),
        ("workspace.create", object(&[("command", text("ls"))])),
        ("pane.create", object(&[("direction", text("up")), ("type", text("browser"))])),
        ("surface.create", object(&[("type", text("markdown"))])),
        ("surface.move", object(&[("surface", text("surface:1")), ("pane", text("pane:2"))])),
        ("pane.swap", object(&[("pane", text("pane:1")), ("target_pane", text("pane:2"))])),
        ("surface.close", object(&[("surface", text("surface:2"))])),
        ("surface.close", object(&[("surface", text("surface:1"))])),
        ("workspace.equalize_splits", object(&[])),
        ("browser.open_split", object(&[("url", text("https://a.example/"))])),
        ("browser.navigate", object(&[("url", text("https://b.example/"))])),
        ("surface.drag_to_split", object(&[("surface", text("surface:1"))])),
        ("workspace.close", object(&[("workspace", text("workspace:1"))])),
        ("workspace.close", object(&[("workspace", text("workspace:1"))])),
    ];
    for (method, params) in steps {
        rpc(&mut app, method, params);
        assert_whole(&app);
    }
    let one = rpc(&mut app, "notification.create", object(&[("title", text("one"))]));
    let two = rpc(&mut app, "notification.create", object(&[("title", text("two"))]));
    assert_ne!(one["result"]["notification"]["id"], two["result"]["notification"]["id"]);
    assert_eq!(app.dispatch_v1_line("new_window", CLOCK).is_empty(), false);
    assert_whole(&app);
    let id = app.create_workspace_with_title(String::from("By hand"), CLOCK.nanos);
    assert_whole(&app);
    assert!(app.select_workspace_by_id(&id).is_ok());
    assert!(app.focus_surface_by_id("surface:1").is_ok());
    assert_eq!(
        app.focus_surface_by_id("nowhere"),
        Err(String::from("invalid_params: unknown surface: nowhere"))
    );
    assert_eq!(
        app.select_workspace_by_id("nowhere"),
        Err(String::from("unknown workspace: nowhere"))
    );
    assert_whole(&app);
}

#[test]
fn a_surface_moves_to_another_workspace() {
    let mut app = AppState::start(CLOCK.nanos);
    let moved = app.state.workspaces[0].surfaces[0].id.clone();
    rpc(&mut app, "workspace.create", object(&[]));
    let target = app.state.workspaces[1].panes[0].id.clone();
    let answer = rpc(
        &mut app,
        "surface.move",
        object(&[("surface", text(&moved)), ("pane", text(&target))]),
    );
    assert_eq!(answer["ok"], true, "{answer}");
    assert!(app.state.workspaces[0].surfaces.is_empty());
    assert_eq!(app.state.workspaces[1].surfaces[0].id, moved);
    assert_eq!(app.state.workspaces[1].panes[0].surface_ids, vec![moved]);
    assert_whole(&app);
}

fn resized(app: &mut AppState, ratio: f64) -> Value {
    let params = from_value(&object(&[("ratio", Value::from(ratio))]));
    let readings = Readings { ratio: Some(ratio.to_bits()), ..NO_READINGS };
    let none: Vec<HostReply> = Vec::new();
    match app.run("pane.resize", Some(&params), &readings, &surroundings(), CLOCK, &none) {
        Some(Step::Done(Ok(value))) => to_value(&value),
        Some(Step::Done(Err(error))) => Value::from(error.message),
        _ => panic!("a pane is resized at once"),
    }
}

#[test]
fn a_split_is_resized_within_bounds() {
    let mut app = AppState::start(CLOCK.nanos);
    assert_eq!(resized(&mut app, 0.25), "invalid_params: pane has no resizable split");
    rpc(&mut app, "pane.create", object(&[]));
    assert_eq!(resized(&mut app, 0.25)["ratio"], 0.25);
    assert_eq!(resized(&mut app, 7.0)["ratio"], 0.9);
    assert_eq!(resized(&mut app, -1.0)["ratio"], 0.1);
    rpc(&mut app, "workspace.equalize_splits", object(&[]));
    match app.active_workspace_detail().unwrap().layout {
        PaneLayoutDetail::Split { ratio, direction, .. } => {
            assert_eq!(f64::from_bits(ratio), 0.5);
            assert_eq!(direction, "horizontal");
        }
        PaneLayoutDetail::Leaf(_) => panic!("two panes make a split"),
    }
}

#[test]
fn a_terminal_that_is_not_shown_is_not_live() {
    let mut app = AppState::start(CLOCK.nanos);
    let health = rpc(&mut app, "surface.health", object(&[]));
    assert_eq!(health["ok"], true, "{health}");
    let told = rpc(&mut app, "system.identify", object(&[]));
    assert_eq!(told["result"]["platform"], "linux");
    assert_eq!(
        told["result"]["focused"]["workspace_id"],
        app.state.workspaces[0].id.as_str()
    );
    let last = rpc(&mut app, "pane.last", object(&[]));
    assert_eq!(last["ok"], true, "{last}");
    let surfaces = rpc(&mut app, "pane.surfaces", object(&[]));
    assert_eq!(surfaces["result"]["surfaces"].as_array().unwrap().len(), 1, "{surfaces}");
}

#[test]
fn an_internal_error_has_no_id() {
    let response = internal_error("broken pipe");
    assert!(!response.ok);
    assert!(response.id.is_none());
    let error = response.error.unwrap();
    assert_eq!(error.code, -32603);
    assert_eq!(error.message, "broken pipe");
}
