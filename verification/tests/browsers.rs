use cmux_gtk::app_state::AppState;
use cmux_gtk::dispatch::Answer;
use cmux_gtk::ghostty::{status, Attempt};
use cmux_gtk::host::{HostAction, HostReply, ScriptReply, Step};
use cmux_gtk::json::Json;
use cmux_gtk::model::SurfaceRecord;
use cmux_gtk::notifications::Clock;
use cmux_gtk::rpc::{Readings, RpcRequest};
use cmux_gtk::settings::Settings;
use cmux_gtk::system::Surroundings;
use serde_json::{Number, Value};

const CLOCK: Clock = Clock { nanos: 1_700_000_000_000_000_000, millis: 1_700_000_000_000 };

const NO_READINGS: Readings = Readings {
    dy: None,
    ratio: None,
    percent: None,
    timeout_ms: None,
    timeout_ms_camel: None,
    timeout: None,
};

fn surroundings() -> Surroundings {
    let attempts: Vec<Attempt> = Vec::new();
    Surroundings {
        settings: Settings::default(),
        settings_path: Some(String::from("/home/me/.config/cmux/settings.json")),
        socket_path: String::from("/run/user/1000/cmux/cmux.sock"),
        ghostty: status(&attempts),
    }
}

fn to_value(json: &Json) -> Value {
    match json {
        Json::Null => Value::Null,
        Json::Bool(b) => Value::Bool(*b),
        Json::Unsigned(n) => Value::Number(Number::from(*n)),
        Json::Negative(n) => Value::Number(Number::from(*n)),
        Json::Real(bits) => Number::from_f64(f64::from_bits(*bits)).map_or(Value::Null, Value::Number),
        Json::Text(s) => Value::String(s.clone()),
        Json::Array(items) => Value::Array(items.iter().map(to_value).collect()),
        Json::Object(entries) => {
            let mut map = serde_json::Map::new();
            for (key, value) in entries {
                map.insert(key.clone(), to_value(value));
            }
            Value::Object(map)
        }
    }
}

fn from_value(value: &Value) -> Json {
    match value {
        Value::Null => Json::Null,
        Value::Bool(b) => Json::Bool(*b),
        Value::Number(n) => match (n.as_u64(), n.as_i64()) {
            (Some(u), _) => Json::Unsigned(u),
            (None, Some(i)) => Json::Negative(i),
            (None, None) => Json::Real(n.as_f64().unwrap().to_bits()),
        },
        Value::String(s) => Json::Text(s.clone()),
        Value::Array(items) => Json::Array(items.iter().map(from_value).collect()),
        Value::Object(entries) => {
            Json::Object(entries.iter().map(|(k, v)| (k.clone(), from_value(v))).collect())
        }
    }
}

fn nothing_live(action: &HostAction) -> HostReply {
    match action {
        HostAction::TerminalReadText | HostAction::ActiveFrame => HostReply::Text(None),
        HostAction::TerminalStatus => HostReply::Terminal(None),
        HostAction::Expression(_) | HostAction::Statement(_) => HostReply::Script(ScriptReply::NotLive),
        HostAction::Screenshot { .. } => HostReply::Screenshot(None),
        HostAction::RespondToDialog { .. } => HostReply::Dialog(Err(String::from("no pending dialog"))),
        HostAction::WaitForDownload { .. } => {
            HostReply::Download(Err(String::from("timed out waiting for download")))
        }
        HostAction::SelectFrame(_) => HostReply::Frame(Err(String::from("browser surface is not live"))),
        HostAction::ConsoleMessages | HostAction::ErrorMessages => HostReply::Events(Vec::new()),
        HostAction::Pause { .. } => HostReply::Flag(true),
        _ => HostReply::Flag(false),
    }
}

/// Sends a line the way the socket does, with no terminal and no web view on
/// the screen.
fn send(app: &mut AppState, line: &str) -> Value {
    let parsed: Value = serde_json::from_str(line).unwrap();
    let request = RpcRequest {
        jsonrpc: parsed.get("jsonrpc").and_then(Value::as_str).map(String::from),
        id: parsed.get("id").map(from_value),
        method: String::from(parsed["method"].as_str().unwrap()),
        params: parsed.get("params").map(from_value),
        readings: NO_READINGS,
    };
    assert!(app.can_dispatch(&request));
    let around = surroundings();
    let mut replies: Vec<HostReply> = Vec::new();
    loop {
        match app.dispatch_line(line, Some(&request), &around, CLOCK, &replies) {
            Answer::Ask(call) => replies.push(nothing_live(&call.action)),
            Answer::Line(_) => panic!("a request is answered by a response"),
            Answer::Response(response) => {
                let mut map = serde_json::Map::new();
                map.insert(String::from("ok"), Value::Bool(response.ok));
                if let Some(id) = &response.id {
                    map.insert(String::from("id"), to_value(id));
                }
                if let Some(result) = &response.result {
                    map.insert(String::from("result"), to_value(result));
                }
                if let Some(error) = &response.error {
                    let mut inner = serde_json::Map::new();
                    inner.insert(String::from("code"), Value::from(error.code));
                    inner.insert(String::from("message"), Value::from(error.message.as_str()));
                    map.insert(String::from("error"), Value::Object(inner));
                }
                return Value::Object(map);
            }
        }
    }
}

fn object(entries: &[(&str, Value)]) -> Value {
    let mut map = serde_json::Map::new();
    for (key, value) in entries {
        map.insert(String::from(*key), value.clone());
    }
    Value::Object(map)
}

fn rpc(app: &mut AppState, method: &str, params: Value) -> Value {
    let request = object(&[
        ("jsonrpc", Value::from("2.0")),
        ("id", Value::from(1)),
        ("method", Value::from(method)),
        ("params", params),
    ]);
    send(app, &request.to_string())
}

const PAGE: &str = "data:text/html,<html><head><title>Form</title></head><body>\
<h1 id=\"head\">Hello</h1><input id=\"name\" value=\"Ada\"><button id=\"go\">Go</button>\
<input id=\"tick\" type=\"checkbox\"><div id=\"status\"></div></body></html>";

fn text(s: &str) -> Value {
    Value::from(s)
}

fn opened(url: &str) -> (AppState, String) {
    let mut app = AppState::start(CLOCK.nanos);
    let created = rpc(
        &mut app,
        "surface.create",
        object(&[("type", text("browser")), ("url", text(url))]),
    );
    let id = String::from(created["result"]["surface_id"].as_str().unwrap());
    (app, id)
}

#[test]
fn a_browser_tells_where_it_went() {
    let (mut app, _) = opened("https://a.example/");
    let went = rpc(&mut app, "browser.navigate", object(&[("url", text("https://b.example/"))]));
    assert_eq!(went["result"]["url"], "https://b.example/");
    assert_eq!(went["result"]["live_webview"], false);
    let told = rpc(&mut app, "browser.url.get", object(&[]));
    assert_eq!(told["result"]["url"], "https://b.example/");
    let refused = rpc(&mut app, "browser.navigate", object(&[]));
    assert_eq!(refused["error"]["code"], -32602);
}

#[test]
fn back_and_forward_undo_each_other() {
    let (mut app, _) = opened("https://a.example/");
    rpc(&mut app, "browser.navigate", object(&[("url", text("https://b.example/"))]));
    let back = rpc(&mut app, "browser.back", object(&[]));
    assert_eq!(back["result"]["url"], "https://a.example/");
    let still = rpc(&mut app, "browser.back", object(&[]));
    assert_eq!(still["result"]["url"], "https://a.example/");
    let forward = rpc(&mut app, "browser.forward", object(&[]));
    assert_eq!(forward["result"]["url"], "https://b.example/");
    let end = rpc(&mut app, "browser.forward", object(&[]));
    assert_eq!(end["result"]["url"], "https://b.example/");
    rpc(&mut app, "browser.back", object(&[]));
    rpc(&mut app, "browser.navigate", object(&[("url", text("https://c.example/"))]));
    let forgotten = rpc(&mut app, "browser.forward", object(&[]));
    assert_eq!(forgotten["result"]["url"], "https://c.example/");
}

#[test]
fn steps_undo_each_other_within_a_history() {
    let (mut app, id) = opened("https://a.example/");
    for url in ["https://b.example/", "https://c.example/", "https://d.example/"] {
        rpc(&mut app, "browser.navigate", object(&[("url", text(url))]));
    }
    rpc(&mut app, "browser.back", object(&[]));
    let surface = |app: &AppState| {
        let all: Vec<&SurfaceRecord> =
            app.state.workspaces.iter().flat_map(|w| w.surfaces.iter()).collect();
        let found = all.into_iter().find(|s| s.id == id).unwrap();
        (found.url.clone(), found.history.clone(), found.history_index, found.title.clone())
    };
    let before = surface(&app);
    assert_eq!(before.0, Some(String::from("https://c.example/")));
    assert_eq!(before.2, Some(2));
    rpc(&mut app, "browser.back", object(&[("surface", text(&id))]));
    let forward = rpc(&mut app, "browser.forward", object(&[("surface", text(&id))]));
    assert_eq!(forward["result"]["url"], "https://c.example/");
    assert_eq!(surface(&app), before);
    rpc(&mut app, "browser.forward", object(&[]));
    let back = rpc(&mut app, "browser.back", object(&[]));
    assert_eq!(back["result"]["url"], "https://c.example/");
    assert_eq!(surface(&app), before);
}

#[test]
fn another_version_is_refused_before_a_page_is_read() {
    let (mut app, _) = opened("https://a.example/");
    let revision = app.state.revision;
    let request = |version: &str| RpcRequest {
        jsonrpc: Some(String::from(version)),
        id: Some(Json::Unsigned(7)),
        method: String::from("browser.navigate"),
        params: Some(from_value(&object(&[("url", text("data:text/html,%a\u{e9}"))]))),
        readings: NO_READINGS,
    };
    assert!(!app.can_dispatch(&request("2.0")));
    assert!(app.can_dispatch(&request("1.0")));
    let replies: Vec<HostReply> = Vec::new();
    match app.dispatch_request(&request("1.0"), &surroundings(), CLOCK, &replies) {
        Answer::Response(response) => {
            assert_eq!(response.jsonrpc, "2.0");
            assert!(!response.ok && response.result.is_none());
            assert_eq!(response.error.map(|e| e.code), Some(-32600));
            assert!(matches!(response.id, Some(Json::Unsigned(7))));
        }
        _ => panic!("a request in another version is answered at once"),
    }
    assert_eq!(app.state.revision, revision);
}

#[test]
fn a_terminal_is_no_browser() {
    let mut app = AppState::start(CLOCK.nanos);
    let refused = rpc(&mut app, "browser.navigate", object(&[("url", text("https://a.example/"))]));
    assert_eq!(refused["error"]["code"], -32004);
    let id = app.state.workspaces[0].surfaces[0].id.clone();
    assert_eq!(
        refused["error"]["message"],
        format!(
            "not_found: surface {id} is not a browser surface; snapshot available; \
             hint: verify selector and target surface"
        )
    );
}

#[test]
fn a_data_url_is_read_as_a_page() {
    let (mut app, _) = opened(PAGE);
    let title = rpc(&mut app, "browser.get.title", object(&[]));
    assert_eq!(title["result"]["title"], "Form", "{title}");
    let head = rpc(&mut app, "browser.get.text", object(&[("selector", text("#head"))]));
    assert_eq!(head["result"]["value"], "Hello", "{head}");
    let value = rpc(&mut app, "browser.get.value", object(&[("selector", text("#name"))]));
    assert_eq!(value["result"]["value"], "Ada", "{value}");
    let missing = rpc(&mut app, "browser.get.text", object(&[("selector", text("#nothing"))]));
    assert_eq!(missing["ok"], false);
}

#[test]
fn a_filled_field_reads_back() {
    let (mut app, _) = opened(PAGE);
    let filled = rpc(
        &mut app,
        "browser.fill",
        object(&[("selector", text("#name")), ("text", text("Grace"))]),
    );
    assert_eq!(filled["ok"], true, "{filled}");
    let value = rpc(&mut app, "browser.get.value", object(&[("selector", text("#name"))]));
    assert_eq!(value["result"]["value"], "Grace");
    rpc(
        &mut app,
        "browser.type",
        object(&[("selector", text("#name")), ("text", text("!"))]),
    );
    let typed = rpc(&mut app, "browser.get.value", object(&[("selector", text("#name"))]));
    assert_eq!(typed["result"]["value"], "Grace!");
}

#[test]
fn a_box_is_checked_until_it_is_unchecked() {
    let (mut app, _) = opened(PAGE);
    let tick = object(&[("selector", text("#tick"))]);
    let before = rpc(&mut app, "browser.is.checked", tick.clone());
    assert_eq!(before["result"]["value"], false, "{before}");
    rpc(&mut app, "browser.check", tick.clone());
    assert_eq!(rpc(&mut app, "browser.is.checked", tick.clone())["result"]["value"], true);
    rpc(&mut app, "browser.uncheck", tick.clone());
    assert_eq!(rpc(&mut app, "browser.is.checked", tick)["result"]["value"], false);
}

#[test]
fn a_saved_state_loads_back() {
    let (mut app, _) = opened(PAGE);
    rpc(
        &mut app,
        "browser.fill",
        object(&[("selector", text("#name")), ("text", text("Grace"))]),
    );
    let saved = rpc(&mut app, "browser.state.save", object(&[]));
    let state = saved["result"]["state"].clone();
    assert!(state.is_object(), "{saved}");
    rpc(&mut app, "browser.navigate", object(&[("url", text("https://b.example/"))]));
    let loaded = rpc(&mut app, "browser.state.load", object(&[("state", state.clone())]));
    assert_eq!(loaded["ok"], true, "{loaded}");
    let again = rpc(&mut app, "browser.state.save", object(&[]));
    assert_eq!(again["result"]["state"], state);
    let value = rpc(&mut app, "browser.get.value", object(&[("selector", text("#name"))]));
    assert_eq!(value["result"]["value"], "Grace");
}

#[test]
fn waiting_ends_when_the_time_is_up() {
    let (mut app, _) = opened(PAGE);
    let found = rpc(&mut app, "browser.wait", object(&[("selector", text("#head"))]));
    assert_eq!(found["ok"], true, "{found}");
    let late = rpc(&mut app, "browser.wait", object(&[("selector", text("#nothing"))]));
    assert_eq!(late["ok"], false, "{late}");
    assert_eq!(late["error"]["code"], -32002);
    assert_eq!(late["error"]["message"], "timeout: selector not found: #nothing");
}

#[test]
fn a_page_that_is_not_live_has_a_static_screenshot() {
    let (mut app, _) = opened(PAGE);
    let shot = rpc(&mut app, "browser.screenshot", object(&[]));
    assert_eq!(shot["ok"], true, "{shot}");
    assert!(shot.to_string().contains("iVBORw0KGgo"), "{shot}");
}

#[test]
fn what_needs_a_live_page_is_refused_without_one() {
    let (mut app, _) = opened(PAGE);
    let refused = rpc(&mut app, "browser.dialog.respond", object(&[]));
    assert_eq!(refused["error"]["code"], -32004);
    assert_eq!(
        refused["error"]["message"],
        "not_found: no pending dialog; snapshot available; hint: verify selector and target surface"
    );
    let odd = rpc(&mut app, "browser.dialog.respond", object(&[("action", text("maybe"))]));
    assert_eq!(
        odd["error"]["message"],
        "invalid_params: action must be accept or dismiss"
    );
    let late = rpc(&mut app, "browser.download.wait", object(&[]));
    assert_eq!(late["error"]["code"], -32002);
}

/// Runs a method with a live page that answers scripts with the given texts.
fn live(app: &mut AppState, method: &str, params: &Value, texts: &[&str]) -> (Value, Vec<String>) {
    let json = from_value(params);
    let around = surroundings();
    let mut replies: Vec<HostReply> = Vec::new();
    let mut scripts: Vec<String> = Vec::new();
    loop {
        match app.run(method, Some(&json), &NO_READINGS, &around, CLOCK, &replies) {
            None => panic!("no such method"),
            Some(Step::Done(Ok(value))) => return (to_value(&value), scripts),
            Some(Step::Done(Err(error))) => panic!("{}", error.message),
            Some(Step::Ask(call)) => match &call.action {
                HostAction::Expression(script) | HostAction::Statement(script) => {
                    let reply = String::from(texts[scripts.len()]);
                    scripts.push(script.clone());
                    replies.push(HostReply::Script(ScriptReply::Text(reply)));
                }
                other => replies.push(nothing_live(other)),
            },
        }
    }
}

#[test]
fn a_live_page_answers_for_itself() {
    let (mut app, _) = opened(PAGE);
    let (value, scripts) = live(
        &mut app,
        "browser.eval",
        &object(&[("script", text("6 * 7"))]),
        &["42"],
    );
    assert_eq!(value["value"], 42, "{value}");
    assert_eq!(scripts, vec![String::from("6 * 7")]);
    let (listed, _) = live(
        &mut app,
        "browser.eval",
        &object(&[("script", text("list"))]),
        &["[1, -2, 2.5, null, {\"a\": \"b\"}]"],
    );
    let expected: Value = serde_json::from_str("[1, -2, 2.5, null, {\"a\": \"b\"}]").unwrap();
    assert_eq!(listed["value"], expected);
    let (words, _) = live(&mut app, "browser.eval", &object(&[("script", text("x"))]), &["not json"]);
    assert_eq!(words["value"], "not json");
}

#[test]
fn a_selector_is_quoted_in_a_script() {
    let (mut app, _) = opened(PAGE);
    let (_, scripts) = live(
        &mut app,
        "browser.get.text",
        &object(&[("selector", text("a[title=\"x\\y\"]"))]),
        &["\"found\""],
    );
    assert!(scripts[0].contains(r#""a[title=\"x\\y\"]""#), "{}", scripts[0]);
}
