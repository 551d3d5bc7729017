//! What the shell says of itself.

use crate::ghostty::{status_json, status_value, GhosttyStatus, GhosttyStatusView};
use crate::json::{
    lemma_array_view, optional_chars, optional_text_view, texts_value, Json, JsonView, Object, ObjectView,
};
use crate::lists::views;
use crate::methods::{all_methods, supported_methods};
use crate::settings::{backend_name, backend_text, Settings, SettingsView};
use vstd::prelude::*;

verus! {

/// What the shell runs in: its settings and where they are, where its socket
/// is, and whether the renderer can be used.
pub struct Surroundings {
    pub settings: Settings,
    pub settings_path: Option<String>,
    pub socket_path: String,
    pub ghostty: GhosttyStatus,
}

/// What the shell runs in.
pub struct SurroundingsView {
    pub settings: SettingsView,
    pub settings_path: Option<Seq<char>>,
    pub socket_path: Seq<char>,
    pub ghostty: GhosttyStatusView,
}

impl View for Surroundings {
    type V = SurroundingsView;

    open spec fn view(&self) -> SurroundingsView {
        SurroundingsView {
            settings: self.settings@,
            settings_path: optional_chars(self.settings_path),
            socket_path: self.socket_path@,
            ghostty: self.ghostty@,
        }
    }
}

/// The answer to a ping.
pub open spec fn pong() -> JsonView {
    ObjectView::new().with("pong"@, JsonView::Bool(true)).done()
}

/// What terminals run on, as an object.
pub open spec fn runtime_value(backend: Seq<char>) -> JsonView {
    ObjectView::new().with("defaultBackend"@, JsonView::Text(backend)).with(
        "socketControllable"@,
        JsonView::Bool(true),
    ).done()
}

/// The status of the shell.
pub open spec fn app_status(s: SurroundingsView) -> JsonView {
    ObjectView::new().with("platform"@, JsonView::Text("linux"@)).with(
        "socket"@,
        ObjectView::new().with("defaultPath"@, JsonView::Text(s.socket_path)).done(),
    ).with("settings_path"@, optional_text_view(s.settings_path)).with(
        "terminal_backend"@,
        JsonView::Text(backend_text(s.settings.terminal_backend)),
    ).with(
        "terminal_runtime"@,
        runtime_value(
            if s.ghostty.renderer_available {
                "ghostty"@
            } else {
                "pty"@
            },
        ),
    ).with("ghostty"@, status_value(s.ghostty)).done()
}

/// What the shell can do, feature by feature.
pub open spec fn features(s: SurroundingsView) -> JsonView {
    ObjectView::new().with("terminal"@, JsonView::Bool(true)).with(
        "browser"@,
        JsonView::Bool(true),
    ).with("ghosttyRenderer"@, JsonView::Bool(s.ghostty.renderer_available)).with(
        "ghosttyLibrary"@,
        JsonView::Bool(s.ghostty.library_available),
    ).with("notifications"@, JsonView::Bool(true)).with("sshRelay"@, JsonView::Bool(true)).with(
        "terminalLivePty"@,
        JsonView::Bool(true),
    ).with(
        "browserStateAutomation"@,
        JsonView::Bool(s.settings.browser_state_automation),
    ).with("browserNativeScreenshots"@, JsonView::Bool(true)).with(
        "browserConsole"@,
        JsonView::Bool(true),
    ).with("browserDialogs"@, JsonView::Bool(true)).with(
        "browserDownloads"@,
        JsonView::Bool(true),
    ).with("browserFrames"@, JsonView::Bool(true)).done()
}

/// What the shell can do.
pub open spec fn capabilities(s: SurroundingsView, window_id: Seq<char>) -> JsonView {
    ObjectView::new().with("protocol"@, JsonView::Text("cmux-socket"@)).with(
        "version"@,
        JsonView::Unsigned(2),
    ).with("platform"@, JsonView::Text("linux"@)).with("app"@, JsonView::Text("cmux-gtk"@)).with(
        "socket_path"@,
        JsonView::Text(s.socket_path),
    ).with("settings_path"@, optional_text_view(s.settings_path)).with(
        "terminal_backend"@,
        JsonView::Text(backend_text(s.settings.terminal_backend)),
    ).with("ghostty"@, status_value(s.ghostty)).with("terminal_runtime"@, runtime_value("pty"@)).with(
        "access_mode"@,
        JsonView::Text("local"@),
    ).with("window_id"@, JsonView::Text(window_id)).with("methods"@, texts_value(all_methods())).with(
        "socketProtocol"@,
        JsonView::Text("jsonrpc"@),
    ).with("features"@, features(s)).done()
}

/// The answer to a ping.
pub fn ping_answer() -> (r: Json)
    ensures
        r@ == pong(),
{
    Object::new().with("pong", Json::Bool(true)).done()
}

/// What terminals run on, as an object.
fn runtime_json(backend: &str) -> (r: Json)
    ensures
        r@ == runtime_value(backend@),
{
    Object::new().with("defaultBackend", Json::text(backend)).with(
        "socketControllable",
        Json::Bool(true),
    ).done()
}

/// The methods as an array.
fn methods_json() -> (r: Json)
    ensures
        r@ == texts_value(all_methods()),
{
    broadcast use lemma_array_view;

    let names = supported_methods();
    let mut items: Vec<Json> = Vec::new();
    let mut i: usize = 0;
    while i < names.len()
        invariant
            i <= names@.len(),
            items@.len() == i,
            forall|j: int| 0 <= j < i ==> (#[trigger] items@[j])@ == JsonView::Text(names@[j]@),
        decreases names@.len() - i,
    {
        items.push(Json::text(names[i]));
        i += 1;
    }
    let r = Json::Array(items);
    assert(r@->Array_0 =~= texts_value(views(names@))->Array_0);
    r
}

impl Surroundings {
    /// The status of the shell.
    pub fn app_status(&self) -> (r: Json)
        ensures
            r@ == app_status(self@),
    {
        let backend = if self.ghostty.renderer_available {
            "ghostty"
        } else {
            "pty"
        };
        Object::new().with("platform", Json::text("linux")).with(
            "socket",
            Object::new().with("defaultPath", Json::text(self.socket_path.as_str())).done(),
        ).with("settings_path", Json::optional_text(&self.settings_path)).with(
            "terminal_backend",
            Json::text(backend_name(self.settings.terminal_backend)),
        ).with("terminal_runtime", runtime_json(backend)).with(
            "ghostty",
            status_json(&self.ghostty),
        ).done()
    }

    /// What the shell can do, feature by feature.
    fn features(&self) -> (r: Json)
        ensures
            r@ == features(self@),
    {
        Object::new().with("terminal", Json::Bool(true)).with("browser", Json::Bool(true)).with(
            "ghosttyRenderer",
            Json::Bool(self.ghostty.renderer_available),
        ).with("ghosttyLibrary", Json::Bool(self.ghostty.library_available)).with(
            "notifications",
            Json::Bool(true),
        ).with("sshRelay", Json::Bool(true)).with("terminalLivePty", Json::Bool(true)).with(
            "browserStateAutomation",
            Json::Bool(self.settings.browser_state_automation),
        ).with("browserNativeScreenshots", Json::Bool(true)).with(
            "browserConsole",
            Json::Bool(true),
        ).with("browserDialogs", Json::Bool(true)).with("browserDownloads", Json::Bool(true)).with(
            "browserFrames",
            Json::Bool(true),
        ).done()
    }

    /// What the shell can do.
    pub fn capabilities(&self, window_id: &str) -> (r: Json)
        ensures
            r@ == capabilities(self@, window_id@),
    {
        Object::new().with("protocol", Json::text("cmux-socket")).with(
            "version",
            Json::Unsigned(2),
        ).with("platform", Json::text("linux")).with("app", Json::text("cmux-gtk")).with(
            "socket_path",
            Json::text(self.socket_path.as_str()),
        ).with("settings_path", Json::optional_text(&self.settings_path)).with(
            "terminal_backend",
            Json::text(backend_name(self.settings.terminal_backend)),
        ).with("ghostty", status_json(&self.ghostty)).with(
            "terminal_runtime",
            runtime_json("pty"),
        ).with("access_mode", Json::text("local")).with("window_id", Json::text(window_id)).with(
            "methods",
            methods_json(),
        ).with("socketProtocol", Json::text("jsonrpc")).with("features", self.features()).done()
    }
}

} // verus!
