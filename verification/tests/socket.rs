use cmux_gtk::app_state::AppState;
use cmux_gtk::dispatch::Answer;
use cmux_gtk::ghostty::{status, Attempt};
use cmux_gtk::host::{HostAction, HostReply, ScriptReply};
use cmux_gtk::json::Json;
use cmux_gtk::notifications::Clock;
use cmux_gtk::rpc::{Readings, RpcRequest};
use cmux_gtk::settings::Settings;
use cmux_gtk::system::Surroundings;
use serde_json::{Number, Value};

const CLOCK: Clock = Clock { nanos: 1_700_000_000_000_000_000, millis: 1_700_000_000_000 };

const NO_READINGS: Readings = Readings {
    dy: None,
    ratio: None,
    percent: None,
    timeout_ms: None,
    timeout_ms_camel: None,
    timeout: None,
};

fn surroundings() -> Surroundings {
    let attempts: Vec<Attempt> = Vec::new();
    Surroundings {
        settings: Settings::default(),
        settings_path: Some(String::from("/home/me/.config/cmux/settings.json")),
        socket_path: String::from("/run/user/1000/cmux/cmux.sock"),
        ghostty: status(&attempts),
    }
}

fn to_value(json: &Json) -> Value {
    match json {
        Json::Null => Value::Null,
        Json::Bool(b) => Value::Bool(*b),
        Json::Unsigned(n) => Value::Number(Number::from(*n)),
        Json::Negative(n) => Value::Number(Number::from(*n)),
        Json::Real(bits) => Number::from_f64(f64::from_bits(*bits)).map_or(Value::Null, Value::Number),
        Json::Text(s) => Value::String(s.clone()),
        Json::Array(items) => Value::Array(items.iter().map(to_value).collect()),
        Json::Object(entries) => {
            let mut map = serde_json::Map::new();
            for (key, value) in entries {
                map.insert(key.clone(), to_value(value));
            }
            Value::Object(map)
        }
    }
}

fn from_value(value: &Value) -> Json {
    match value {
        Value::Null => Json::Null,
        Value::Bool(b) => Json::Bool(*b),
        Value::Number(n) => match (n.as_u64(), n.as_i64()) {
            (Some(u), _) => Json::Unsigned(u),
            (None, Some(i)) => Json::Negative(i),
            (None, None) => Json::Real(n.as_f64().unwrap().to_bits()),
        },
        Value::String(s) => Json::Text(s.clone()),
        Value::Array(items) => Json::Array(items.iter().map(from_value).collect()),
        Value::Object(entries) => {
            Json::Object(entries.iter().map(|(k, v)| (k.clone(), from_value(v))).collect())
        }
    }
}

fn nothing_live(action: &HostAction) -> HostReply {
    match action {
        HostAction::TerminalReadText | HostAction::ActiveFrame => HostReply::Text(None),
        HostAction::TerminalStatus => HostReply::Terminal(None),
        HostAction::Expression(_) | HostAction::Statement(_) => HostReply::Script(ScriptReply::NotLive),
        HostAction::Screenshot { .. } => HostReply::Screenshot(None),
        HostAction::RespondToDialog { .. } => HostReply::Dialog(Err(String::from("no pending dialog"))),
        HostAction::WaitForDownload { .. } => {
            HostReply::Download(Err(String::from("timed out waiting for download")))
        }
        HostAction::SelectFrame(_) => HostReply::Frame(Err(String::from("browser surface is not live"))),
        HostAction::ConsoleMessages | HostAction::ErrorMessages => HostReply::Events(Vec::new()),
        HostAction::Pause { .. } => HostReply::Flag(true),
        _ => HostReply::Flag(false),
    }
}

/// Sends a line the way the socket does, with no terminal and no web view on
/// the screen.
fn send(app: &mut AppState, line: &str) -> Value {
    let parsed: Value = serde_json::from_str(line).unwrap();
    let request = RpcRequest {
        jsonrpc: parsed.get("jsonrpc").and_then(Value::as_str).map(String::from),
        id: parsed.get("id").map(from_value),
        method: String::from(parsed["method"].as_str().unwrap()),
        params: parsed.get("params").map(from_value),
        readings: NO_READINGS,
    };
    assert!(app.can_dispatch(&request));
    let around = surroundings();
    let mut replies: Vec<HostReply> = Vec::new();
    loop {
        match app.dispatch_line(line, Some(&request), &around, CLOCK, &replies) {
            Answer::Ask(call) => replies.push(nothing_live(&call.action)),
            Answer::Line(_) => panic!("a request is answered by a response"),
            Answer::Response(response) => {
                let mut map = serde_json::Map::new();
                map.insert(String::from("ok"), Value::Bool(response.ok));
                if let Some(id) = &response.id {
                    map.insert(String::from("id"), to_value(id));
                }
                if let Some(result) = &response.result {
                    map.insert(String::from("result"), to_value(result));
                }
                if let Some(error) = &response.error {
                    let mut inner = serde_json::Map::new();
                    inner.insert(String::from("code"), Value::from(error.code));
                    inner.insert(String::from("message"), Value::from(error.message.as_str()));
                    map.insert(String::from("error"), Value::Object(inner));
                }
                return Value::Object(map);
            }
        }
    }
}

fn object(entries: &[(&str, Value)]) -> Value {
    let mut map = serde_json::Map::new();
    for (key, value) in entries {
        map.insert(String::from(*key), value.clone());
    }
    Value::Object(map)
}

fn rpc(app: &mut AppState, method: &str, params: Value) -> Value {
    let request = object(&[
        ("jsonrpc", Value::from("2.0")),
        ("id", Value::from(1)),
        ("method", Value::from(method)),
        ("params", params),
    ]);
    send(app, &request.to_string())
}

#[test]
fn capabilities_identify_linux_surface_area() {
    let mut state = AppState::start(CLOCK.nanos);
    let response = rpc(&mut state, "system.capabilities", object(&[]));
    assert_eq!(response["result"]["platform"], "linux");
    assert_eq!(response["result"]["features"]["sshRelay"], true);
}

#[test]
fn workspace_and_surface_lifecycle_round_trip() {
    let mut state = AppState::start(CLOCK.nanos);
    let created = rpc(&mut state, "workspace.create", object(&[("title", Value::from("CI"))]));
    let workspace_id = created["result"]["workspace"]["id"].as_str().unwrap();

    let surface = rpc(
        &mut state,
        "surface.create",
        object(&[
            ("workspaceId", Value::from(workspace_id)),
            ("title", Value::from("Browser")),
            ("type", Value::from("browser")),
        ]),
    );
    assert_eq!(surface["result"]["surface"]["workspaceId"], workspace_id);
    assert_eq!(surface["result"]["surface"]["kind"], "browser");

    let listed = rpc(
        &mut state,
        "surface.list",
        object(&[("workspaceId", Value::from(workspace_id))]),
    );
    assert_eq!(listed["result"]["surfaces"].as_array().unwrap().len(), 1);
}

#[test]
fn unknown_workspace_returns_invalid_params() {
    let mut state = AppState::start(CLOCK.nanos);
    let response = rpc(
        &mut state,
        "surface.create",
        object(&[("workspaceId", Value::from("workspace-missing"))]),
    );
    assert_eq!(response["error"]["code"], -32602);
}

#[test]
fn a_response_carries_the_id_of_its_request() {
    let mut app = AppState::start(CLOCK.nanos);
    let response = send(&mut app, r#"{"jsonrpc":"2.0","id":"seven","method":"system.ping"}"#);
    assert_eq!(response["id"], "seven");
    assert_eq!(response["ok"], true);
    assert_eq!(response["result"]["pong"], true);
    let silent = send(&mut app, r#"{"method":"system.ping"}"#);
    assert_eq!(silent.get("id"), None);
    assert_eq!(silent["ok"], true);
}

#[test]
fn another_protocol_version_is_refused() {
    let mut app = AppState::start(CLOCK.nanos);
    let response = send(&mut app, r#"{"jsonrpc":"1.0","id":1,"method":"system.ping"}"#);
    assert_eq!(response["ok"], false);
    assert_eq!(response["error"]["code"], -32600);
    assert_eq!(response["error"]["message"], "unsupported jsonrpc version");
}

#[test]
fn an_unknown_method_is_refused() {
    let mut app = AppState::start(CLOCK.nanos);
    let before = app.revision();
    let response = rpc(&mut app, "window.explode", object(&[]));
    assert_eq!(response["error"]["code"], -32601);
    assert_eq!(
        response["error"]["message"],
        "method not implemented on Linux yet: window.explode"
    );
    assert_eq!(app.revision(), before);
}

#[test]
fn every_listed_method_is_known() {
    let mut app = AppState::start(CLOCK.nanos);
    let told = rpc(&mut app, "system.capabilities", object(&[]));
    let methods = told["result"]["methods"].as_array().unwrap().clone();
    assert_eq!(methods.len(), 92);
    for method in &methods {
        let response = rpc(&mut app, method.as_str().unwrap(), object(&[]));
        assert_ne!(response["error"]["code"], -32601, "{method}");
    }
}

#[test]
fn capabilities_tell_of_the_missing_renderer() {
    let mut app = AppState::start(CLOCK.nanos);
    let told = rpc(&mut app, "system.capabilities", object(&[]));
    assert_eq!(told["result"]["features"]["ghosttyRenderer"], false);
    assert_eq!(told["result"]["features"]["ghosttyLibrary"], false);
    assert_eq!(told["result"]["ghostty"]["rendererAvailable"], false);
    assert!(told["result"]["ghostty"]["reason"].is_string());
    assert_eq!(told["result"]["socket_path"], "/run/user/1000/cmux/cmux.sock");
    assert_eq!(told["result"]["protocol"], "cmux-socket");
    assert_eq!(told["result"]["version"], 2);
}

#[test]
fn plain_commands_are_answered_in_words() {
    let mut app = AppState::start(CLOCK.nanos);
    assert_eq!(app.dispatch_v1_line("ping", CLOCK), "pong");
    assert_eq!(app.dispatch_v1_line("   ", CLOCK), "ERR empty command");
    assert_eq!(
        app.dispatch_v1_line("dance", CLOCK),
        "ERR method not implemented on Linux yet: dance"
    );
    let first = app.dispatch_v1_line("current_window", CLOCK);
    assert_eq!(app.state.workspaces[0].id, first);
    let opened = app.dispatch_v1_line("new_window", CLOCK);
    let second = app.state.workspaces[1].id.clone();
    assert_eq!(opened, format!("OK window_id={second}"));
    assert_eq!(app.dispatch_v1_line("current_window", CLOCK), second);
    assert_eq!(app.dispatch_v1_line(&format!("focus_window {first}"), CLOCK), "OK");
    assert_eq!(app.dispatch_v1_line("current_window", CLOCK), first);
    assert_eq!(
        app.dispatch_v1_line("list_windows", CLOCK),
        format!("window:{first} Default\nwindow:{second} Workspace")
    );
    assert_eq!(app.dispatch_v1_line(&format!("close_window {second}"), CLOCK), "OK");
    assert_eq!(
        app.dispatch_v1_line(&format!("close_window {first}"), CLOCK),
        "ERR invalid_params: cannot close the last workspace"
    );
}
