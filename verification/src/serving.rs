//! What the methods of requests come to.

use crate::acting::{
    gesture_act, gestured, key_act, key_counted, page_scrolled, scroll_act, scroll_distance, ActView,
};
use crate::app_state::{answered, told, AppView};
use crate::automation::{
    automated, automation_act, dialog_step, download_step, events_step, frame_step, main_frame_step,
    saved, screenshot_step, step_act,
};
use crate::browsing::{
    history_stepped, navigated, reloaded, url_told, webview_focus_told, webview_focused, HistoryStep,
};
use crate::finding::find_reading;
use crate::host::{ActionView, CallView, ReplyView, ScriptView};
use crate::input::{health_told, history_cleared, sent, text_read, Sending};
use crate::json::{lemma_with_get, parsed_json, quoted, JsonView};
use crate::methods::automation_methods;
use crate::model::SurfaceView;
use crate::moving::surface_moved;
use crate::notifications::{
    notification_created, notifications_cleared, notifications_listed, Clock,
};
use crate::page::PageView;
use crate::panes::{
    last_pane_told, pane_created, pane_focused, pane_resized, pane_surfaces_told, panes_listed,
    panes_swapped,
};
use crate::patience::is_part;
use crate::reading::{eval_reading, read_step};
use crate::routing::{
    browser_turn, method_turn, pane_turn, seen, surface_turn, system_turn, with_browser_kind,
    workspace_turn,
};
use crate::rpc::{param, text1, Readings};
use crate::script::{gesture_script, key_script, page_scroll_script, GestureView, KeyPhase};
use crate::surfaces::{surface_closed, surface_created, surface_focused, surfaces_listed};
use crate::system::{app_status, capabilities, pong, SurroundingsView};
use crate::telling::lemma_answer_keys;
use crate::text::{has_prefix, signed_decimal};
use crate::touching::dead;
use crate::waiting::wait_step;
use crate::workspaces::{
    current_told, identified, splits_equalized, workspace_closed, workspace_created, workspace_renamed,
    workspace_selected, workspaces_listed,
};
use vstd::prelude::*;

verus! {

// ---------------------------------------------------------------------------
// Methods

/// What tells the methods about the shell apart.
proof fn lemma_system_names()
    ensures
        "ping"@.len() == 4 && "ping"@[0] == 'p',
        "app.ping"@.len() == 8 && "app.ping"@[0] == 'a' && "app.ping"@[6] == 'n',
        "system.ping"@.len() == 11 && "system.ping"@[0] == 's' && "system.ping"@[6] == '.'
            && "system.ping"@[8] == 'i' && "system.ping"@[10] == 'g',
        "app.status"@.len() == 10 && "app.status"@[0] == 'a' && "app.status"@[6] == 'a'
            && "app.status"@[8] == 'u',
        "system.capabilities"@.len() == 19 && "system.capabilities"@[0] == 's'
            && "system.capabilities"@[6] == '.' && "system.capabilities"@[8] == 'a'
            && "system.capabilities"@[10] == 'a' && "system.capabilities"@[15] == 't',
        "system.identify"@.len() == 15 && "system.identify"@[0] == 's'
            && "system.identify"@[6] == '.' && "system.identify"@[8] == 'd'
            && "system.identify"@[10] == 'n',
        "surface.refresh"@.len() == 15 && "surface.refresh"@[0] == 's'
            && "surface.refresh"@[6] == 'e' && "surface.refresh"@[8] == 'r'
            && "surface.refresh"@[10] == 'f',
{
    reveal_strlit("ping");
    reveal_strlit("app.ping");
    reveal_strlit("system.ping");
    reveal_strlit("app.status");
    reveal_strlit("system.capabilities");
    reveal_strlit("system.identify");
    reveal_strlit("surface.refresh");
}

/// What tells the methods about the workspaces apart.
proof fn lemma_workspace_names()
    ensures
        "workspace.list"@.len() == 14 && "workspace.list"@[0] == 'w'
            && "workspace.list"@[6] == 'a' && "workspace.list"@[8] == 'e'
            && "workspace.list"@[10] == 'l',
        "list_workspaces"@.len() == 15 && "list_workspaces"@[0] == 'l'
            && "list_workspaces"@[6] == 'o' && "list_workspaces"@[8] == 'k'
            && "list_workspaces"@[10] == 'p',
        "workspace.create"@.len() == 16 && "workspace.create"@[0] == 'w'
            && "workspace.create"@[6] == 'a' && "workspace.create"@[8] == 'e'
            && "workspace.create"@[10] == 'c' && "workspace.create"@[15] == 'e',
        "new_workspace"@.len() == 13 && "new_workspace"@[0] == 'n' && "new_workspace"@[6] == 'r'
            && "new_workspace"@[8] == 's' && "new_workspace"@[10] == 'a',
        "workspace.current"@.len() == 17 && "workspace.current"@[0] == 'w'
            && "workspace.current"@[6] == 'a' && "workspace.current"@[8] == 'e'
            && "workspace.current"@[10] == 'c' && "workspace.current"@[15] == 'n',
        "workspace.select"@.len() == 16 && "workspace.select"@[0] == 'w'
            && "workspace.select"@[6] == 'a' && "workspace.select"@[8] == 'e'
            && "workspace.select"@[10] == 's' && "workspace.select"@[15] == 't',
        "workspace.close"@.len() == 15 && "workspace.close"@[0] == 'w'
            && "workspace.close"@[6] == 'a' && "workspace.close"@[8] == 'e'
            && "workspace.close"@[10] == 'c',
        "workspace.rename"@.len() == 16 && "workspace.rename"@[0] == 'w'
            && "workspace.rename"@[6] == 'a' && "workspace.rename"@[8] == 'e'
            && "workspace.rename"@[10] == 'r' && "workspace.rename"@[15] == 'e',
        "workspace.equalize_splits"@.len() == 25 && "workspace.equalize_splits"@[0] == 'w'
            && "workspace.equalize_splits"@[6] == 'a' && "workspace.equalize_splits"@[8] == 'e'
            && "workspace.equalize_splits"@[10] == 'e' && "workspace.equalize_splits"@[15] == 'i',
{
    reveal_strlit("workspace.list");
    reveal_strlit("list_workspaces");
    reveal_strlit("workspace.create");
    reveal_strlit("new_workspace");
    reveal_strlit("workspace.current");
    reveal_strlit("workspace.select");
    reveal_strlit("workspace.close");
    reveal_strlit("workspace.rename");
    reveal_strlit("workspace.equalize_splits");
}

/// What tells the methods about the surfaces apart.
proof fn lemma_surface_names()
    ensures
        "surface.list"@.len() == 12 && "surface.list"@[0] == 's' && "surface.list"@[6] == 'e'
            && "surface.list"@[8] == 'l' && "surface.list"@[10] == 's',
        "list_surfaces"@.len() == 13 && "list_surfaces"@[0] == 'l' && "list_surfaces"@[6] == 'u'
            && "list_surfaces"@[8] == 'f' && "list_surfaces"@[10] == 'c',
        "list_panels"@.len() == 11 && "list_panels"@[0] == 'l' && "list_panels"@[6] == 'a'
            && "list_panels"@[8] == 'e' && "list_panels"@[10] == 's',
        "surface.create"@.len() == 14 && "surface.create"@[0] == 's'
            && "surface.create"@[6] == 'e' && "surface.create"@[8] == 'c'
            && "surface.create"@[10] == 'e',
        "new_surface"@.len() == 11 && "new_surface"@[0] == 'n' && "new_surface"@[6] == 'r'
            && "new_surface"@[8] == 'a' && "new_surface"@[10] == 'e',
        "surface.focus"@.len() == 13 && "surface.focus"@[0] == 's' && "surface.focus"@[6] == 'e'
            && "surface.focus"@[8] == 'f' && "surface.focus"@[10] == 'c',
        "surface.close"@.len() == 13 && "surface.close"@[0] == 's' && "surface.close"@[6] == 'e'
            && "surface.close"@[8] == 'c' && "surface.close"@[10] == 'o',
        "surface.move"@.len() == 12 && "surface.move"@[0] == 's' && "surface.move"@[6] == 'e'
            && "surface.move"@[8] == 'm' && "surface.move"@[10] == 'v',
        "surface.reorder"@.len() == 15 && "surface.reorder"@[0] == 's'
            && "surface.reorder"@[6] == 'e' && "surface.reorder"@[8] == 'r'
            && "surface.reorder"@[10] == 'o',
        "surface.send_text"@.len() == 17 && "surface.send_text"@[0] == 's'
            && "surface.send_text"@[6] == 'e' && "surface.send_text"@[8] == 's'
            && "surface.send_text"@[10] == 'n' && "surface.send_text"@[15] == 'x',
        "surface.send_key"@.len() == 16 && "surface.send_key"@[0] == 's'
            && "surface.send_key"@[6] == 'e' && "surface.send_key"@[8] == 's'
            && "surface.send_key"@[10] == 'n' && "surface.send_key"@[15] == 'y',
        "surface.read_text"@.len() == 17 && "surface.read_text"@[0] == 's'
            && "surface.read_text"@[6] == 'e' && "surface.read_text"@[8] == 'r'
            && "surface.read_text"@[10] == 'a' && "surface.read_text"@[15] == 'x',
        "surface.clear_history"@.len() == 21 && "surface.clear_history"@[0] == 's'
            && "surface.clear_history"@[6] == 'e' && "surface.clear_history"@[8] == 'c'
            && "surface.clear_history"@[10] == 'e' && "surface.clear_history"@[15] == 'i',
        "surface.health"@.len() == 14 && "surface.health"@[0] == 's'
            && "surface.health"@[6] == 'e' && "surface.health"@[8] == 'h'
            && "surface.health"@[10] == 'a',
{
    reveal_strlit("surface.list");
    reveal_strlit("list_surfaces");
    reveal_strlit("list_panels");
    reveal_strlit("surface.create");
    reveal_strlit("new_surface");
    reveal_strlit("surface.focus");
    reveal_strlit("surface.close");
    reveal_strlit("surface.move");
    reveal_strlit("surface.reorder");
    reveal_strlit("surface.send_text");
    reveal_strlit("surface.send_key");
    reveal_strlit("surface.read_text");
    reveal_strlit("surface.clear_history");
    reveal_strlit("surface.health");
}

/// What tells the methods about the panes apart.
proof fn lemma_pane_names()
    ensures
        "surface.split"@.len() == 13 && "surface.split"@[0] == 's' && "surface.split"@[6] == 'e'
            && "surface.split"@[8] == 's' && "surface.split"@[10] == 'l',
        "surface.drag_to_split"@.len() == 21 && "surface.drag_to_split"@[0] == 's'
            && "surface.drag_to_split"@[6] == 'e' && "surface.drag_to_split"@[8] == 'd'
            && "surface.drag_to_split"@[10] == 'a' && "surface.drag_to_split"@[15] == '_',
        "pane.create"@.len() == 11 && "pane.create"@[0] == 'p' && "pane.create"@[6] == 'r'
            && "pane.create"@[8] == 'a' && "pane.create"@[10] == 'e',
        "pane.list"@.len() == 9 && "pane.list"@[0] == 'p' && "pane.list"@[6] == 'i'
            && "pane.list"@[8] == 't',
        "pane.surfaces"@.len() == 13 && "pane.surfaces"@[0] == 'p' && "pane.surfaces"@[6] == 'u'
            && "pane.surfaces"@[8] == 'f' && "pane.surfaces"@[10] == 'c',
        "pane.focus"@.len() == 10 && "pane.focus"@[0] == 'p' && "pane.focus"@[6] == 'o'
            && "pane.focus"@[8] == 'u',
        "pane.swap"@.len() == 9 && "pane.swap"@[0] == 'p' && "pane.swap"@[6] == 'w'
            && "pane.swap"@[8] == 'p',
        "pane.resize"@.len() == 11 && "pane.resize"@[0] == 'p' && "pane.resize"@[6] == 'e'
            && "pane.resize"@[8] == 'i' && "pane.resize"@[10] == 'e',
        "pane.last"@.len() == 9 && "pane.last"@[0] == 'p' && "pane.last"@[6] == 'a'
            && "pane.last"@[8] == 't',
{
    reveal_strlit("surface.split");
    reveal_strlit("surface.drag_to_split");
    reveal_strlit("pane.create");
    reveal_strlit("pane.list");
    reveal_strlit("pane.surfaces");
    reveal_strlit("pane.focus");
    reveal_strlit("pane.swap");
    reveal_strlit("pane.resize");
    reveal_strlit("pane.last");
}

/// What tells the methods about the browsers apart.
proof fn lemma_browser_names()
    ensures
        "browser.open_split"@.len() == 18 && "browser.open_split"@[0] == 'b'
            && "browser.open_split"@[6] == 'r' && "browser.open_split"@[8] == 'o'
            && "browser.open_split"@[10] == 'e' && "browser.open_split"@[15] == 'l',
        "browser.navigate"@.len() == 16 && "browser.navigate"@[0] == 'b'
            && "browser.navigate"@[6] == 'r' && "browser.navigate"@[8] == 'n'
            && "browser.navigate"@[10] == 'v' && "browser.navigate"@[15] == 'e',
        "browser.url.get"@.len() == 15 && "browser.url.get"@[0] == 'b'
            && "browser.url.get"@[6] == 'r' && "browser.url.get"@[8] == 'u'
            && "browser.url.get"@[10] == 'l',
        "browser.back"@.len() == 12 && "browser.back"@[0] == 'b' && "browser.back"@[6] == 'r'
            && "browser.back"@[8] == 'b' && "browser.back"@[10] == 'c',
        "browser.forward"@.len() == 15 && "browser.forward"@[0] == 'b'
            && "browser.forward"@[6] == 'r' && "browser.forward"@[8] == 'f'
            && "browser.forward"@[10] == 'r',
        "browser.reload"@.len() == 14 && "browser.reload"@[0] == 'b'
            && "browser.reload"@[6] == 'r' && "browser.reload"@[8] == 'r'
            && "browser.reload"@[10] == 'l',
        "browser.focus_webview"@.len() == 21 && "browser.focus_webview"@[0] == 'b'
            && "browser.focus_webview"@[6] == 'r' && "browser.focus_webview"@[8] == 'f'
            && "browser.focus_webview"@[10] == 'c' && "browser.focus_webview"@[15] == 'e',
        "browser.is_webview_focused"@.len() == 26 && "browser.is_webview_focused"@[0] == 'b'
            && "browser.is_webview_focused"@[6] == 'r' && "browser.is_webview_focused"@[8] == 'i'
            && "browser.is_webview_focused"@[10] == '_'
            && "browser.is_webview_focused"@[15] == 'i',
{
    reveal_strlit("browser.open_split");
    reveal_strlit("browser.navigate");
    reveal_strlit("browser.url.get");
    reveal_strlit("browser.back");
    reveal_strlit("browser.forward");
    reveal_strlit("browser.reload");
    reveal_strlit("browser.focus_webview");
    reveal_strlit("browser.is_webview_focused");
}

/// What tells the methods about the notifications apart.
proof fn lemma_notification_names()
    ensures
        "notification.create"@.len() == 19 && "notification.create"@[0] == 'n'
            && "notification.create"@[6] == 'c' && "notification.create"@[8] == 't'
            && "notification.create"@[10] == 'o' && "notification.create"@[15] == 'e',
        "notification.create_for_surface"@.len() == 31
            && "notification.create_for_surface"@[0] == 'n'
            && "notification.create_for_surface"@[6] == 'c'
            && "notification.create_for_surface"@[8] == 't'
            && "notification.create_for_surface"@[10] == 'o'
            && "notification.create_for_surface"@[15] == 'e',
        "notification.list"@.len() == 17 && "notification.list"@[0] == 'n'
            && "notification.list"@[6] == 'c' && "notification.list"@[8] == 't'
            && "notification.list"@[10] == 'o' && "notification.list"@[15] == 's',
        "notification.clear"@.len() == 18 && "notification.clear"@[0] == 'n'
            && "notification.clear"@[6] == 'c' && "notification.clear"@[8] == 't'
            && "notification.clear"@[10] == 'o' && "notification.clear"@[15] == 'e',
{
    reveal_strlit("notification.create");
    reveal_strlit("notification.create_for_surface");
    reveal_strlit("notification.list");
    reveal_strlit("notification.clear");
}

/// The methods about the shell answer what they are asked: a ping, its status,
/// what it can do and what has the focus.
pub proof fn law_shell_methods_answer(
    app: AppView,
    params: Option<JsonView>,
    readings: Readings,
    surroundings: SurroundingsView,
    clock: Clock,
    replies: Seq<ReplyView>,
)
    ensures
        method_turn(app, "ping"@, params, readings, surroundings, clock, replies) == Some(
            answered(app, pong()),
        ),
        method_turn(app, "app.ping"@, params, readings, surroundings, clock, replies) == Some(
            answered(app, pong()),
        ),
        method_turn(app, "system.ping"@, params, readings, surroundings, clock, replies) == Some(
            answered(app, pong()),
        ),
        method_turn(app, "app.status"@, params, readings, surroundings, clock, replies) == Some(
            answered(app, app_status(surroundings)),
        ),
        method_turn(app, "system.capabilities"@, params, readings, surroundings, clock, replies) == Some(
            answered(app, capabilities(surroundings, app.window_id)),
        ),
        method_turn(app, "system.identify"@, params, readings, surroundings, clock, replies) == Some(
            answered(app, identified(app)),
        ),
{
    lemma_system_names();
}

/// The methods about workspaces list, make, tell, select, close, rename and even
/// out workspaces, each as it is called.
pub proof fn law_workspace_methods_do_as_called(
    app: AppView,
    params: Option<JsonView>,
    readings: Readings,
    surroundings: SurroundingsView,
    clock: Clock,
    replies: Seq<ReplyView>,
)
    ensures
        method_turn(app, "workspace.list"@, params, readings, surroundings, clock, replies) == Some(
            answered(app, workspaces_listed(app)),
        ),
        method_turn(app, "list_workspaces"@, params, readings, surroundings, clock, replies) == Some(
            answered(app, workspaces_listed(app)),
        ),
        method_turn(app, "workspace.create"@, params, readings, surroundings, clock, replies) == Some(
            workspace_created(app, clock.nanos, params),
        ),
        method_turn(app, "new_workspace"@, params, readings, surroundings, clock, replies) == Some(
            workspace_created(app, clock.nanos, params),
        ),
        method_turn(app, "workspace.current"@, params, readings, surroundings, clock, replies) == Some(
            told(app, current_told(app)),
        ),
        method_turn(app, "workspace.select"@, params, readings, surroundings, clock, replies) == Some(
            workspace_selected(app, params),
        ),
        method_turn(app, "workspace.close"@, params, readings, surroundings, clock, replies) == Some(
            workspace_closed(app, params),
        ),
        method_turn(app, "workspace.rename"@, params, readings, surroundings, clock, replies) == Some(
            workspace_renamed(app, params),
        ),
        method_turn(app, "workspace.equalize_splits"@, params, readings, surroundings, clock, replies) == Some(
            splits_equalized(app, params),
        ),
{
    lemma_system_names();
    lemma_workspace_names();
}

/// The methods about surfaces list, make, focus, close and move surfaces, send to
/// them, read and clear them and tell their health, each as it is called.
pub proof fn law_surface_methods_do_as_called(
    app: AppView,
    params: Option<JsonView>,
    readings: Readings,
    surroundings: SurroundingsView,
    clock: Clock,
    replies: Seq<ReplyView>,
)
    ensures
        method_turn(app, "surface.list"@, params, readings, surroundings, clock, replies) == Some(
            told(app, surfaces_listed(app, params)),
        ),
        method_turn(app, "list_surfaces"@, params, readings, surroundings, clock, replies) == Some(
            told(app, surfaces_listed(app, params)),
        ),
        method_turn(app, "list_panels"@, params, readings, surroundings, clock, replies) == Some(
            told(app, surfaces_listed(app, params)),
        ),
        method_turn(app, "surface.create"@, params, readings, surroundings, clock, replies) == Some(
            surface_created(app, clock.nanos, params),
        ),
        method_turn(app, "new_surface"@, params, readings, surroundings, clock, replies) == Some(
            surface_created(app, clock.nanos, params),
        ),
        method_turn(app, "surface.focus"@, params, readings, surroundings, clock, replies) == Some(
            surface_focused(app, params, replies),
        ),
        method_turn(app, "surface.close"@, params, readings, surroundings, clock, replies) == Some(
            surface_closed(app, params, replies),
        ),
        method_turn(app, "surface.move"@, params, readings, surroundings, clock, replies) == Some(
            surface_moved(app, params),
        ),
        method_turn(app, "surface.reorder"@, params, readings, surroundings, clock, replies) == Some(
            surface_moved(app, params),
        ),
        method_turn(app, "surface.send_text"@, params, readings, surroundings, clock, replies) == Some(
            sent(app, params, Sending::Text, replies),
        ),
        method_turn(app, "surface.send_key"@, params, readings, surroundings, clock, replies) == Some(
            sent(app, params, Sending::Key, replies),
        ),
        method_turn(app, "surface.read_text"@, params, readings, surroundings, clock, replies) == Some(
            seen(app, text_read(app, params, replies)),
        ),
        method_turn(app, "surface.clear_history"@, params, readings, surroundings, clock, replies) == Some(
            history_cleared(app, params, replies),
        ),
        method_turn(app, "surface.health"@, params, readings, surroundings, clock, replies) == Some(
            seen(app, health_told(app, params, replies)),
        ),
{
    lemma_system_names();
    lemma_workspace_names();
    lemma_surface_names();
}

/// The methods about panes make, list, focus, swap and resize panes and tell their
/// surfaces, each as it is called.
pub proof fn law_pane_methods_do_as_called(
    app: AppView,
    params: Option<JsonView>,
    readings: Readings,
    surroundings: SurroundingsView,
    clock: Clock,
    replies: Seq<ReplyView>,
)
    ensures
        method_turn(app, "surface.split"@, params, readings, surroundings, clock, replies) == Some(
            pane_created(app, clock.nanos, params),
        ),
        method_turn(app, "surface.drag_to_split"@, params, readings, surroundings, clock, replies) == Some(
            pane_created(app, clock.nanos, params),
        ),
        method_turn(app, "pane.create"@, params, readings, surroundings, clock, replies) == Some(
            pane_created(app, clock.nanos, params),
        ),
        method_turn(app, "pane.list"@, params, readings, surroundings, clock, replies) == Some(
            told(app, panes_listed(app, params)),
        ),
        method_turn(app, "pane.surfaces"@, params, readings, surroundings, clock, replies) == Some(
            told(app, pane_surfaces_told(app, params)),
        ),
        method_turn(app, "pane.focus"@, params, readings, surroundings, clock, replies) == Some(
            pane_focused(app, params),
        ),
        method_turn(app, "pane.swap"@, params, readings, surroundings, clock, replies) == Some(
            panes_swapped(app, params),
        ),
        method_turn(app, "pane.resize"@, params, readings, surroundings, clock, replies) == Some(
            pane_resized(app, params, readings),
        ),
        method_turn(app, "pane.last"@, params, readings, surroundings, clock, replies) == Some(
            told(app, last_pane_told(app)),
        ),
{
    lemma_system_names();
    lemma_workspace_names();
    lemma_surface_names();
    lemma_pane_names();
}

/// The methods about browsers open them, go, go back and forward, reload them and
/// ask for the address and the focus, each as it is called.
pub proof fn law_browser_methods_do_as_called(
    app: AppView,
    params: Option<JsonView>,
    readings: Readings,
    surroundings: SurroundingsView,
    clock: Clock,
    replies: Seq<ReplyView>,
)
    ensures
        method_turn(app, "browser.open_split"@, params, readings, surroundings, clock, replies) == Some(
            pane_created(app, clock.nanos, with_browser_kind(params)),
        ),
        method_turn(app, "browser.navigate"@, params, readings, surroundings, clock, replies) == Some(
            navigated(app, params, replies),
        ),
        method_turn(app, "browser.url.get"@, params, readings, surroundings, clock, replies) == Some(
            told(app, url_told(app, params)),
        ),
        method_turn(app, "browser.back"@, params, readings, surroundings, clock, replies) == Some(
            history_stepped(app, params, HistoryStep::Back, replies),
        ),
        method_turn(app, "browser.forward"@, params, readings, surroundings, clock, replies) == Some(
            history_stepped(app, params, HistoryStep::Forward, replies),
        ),
        method_turn(app, "browser.reload"@, params, readings, surroundings, clock, replies) == Some(
            seen(app, reloaded(app, params, replies)),
        ),
        method_turn(app, "browser.focus_webview"@, params, readings, surroundings, clock, replies) == Some(
            webview_focused(app, params, replies),
        ),
        method_turn(app, "browser.is_webview_focused"@, params, readings, surroundings, clock, replies) == Some(
            seen(app, webview_focus_told(app, params, replies)),
        ),
{
    lemma_system_names();
    lemma_workspace_names();
    lemma_surface_names();
    lemma_pane_names();
    lemma_browser_names();
}

/// The methods of automation are those of browsers.
proof fn lemma_automation_methods(method: Seq<char>)
    requires
        automation_methods().contains(method),
    ensures
        is_automation_method(method),
{
    broadcast use vstd::seq_lib::lemma_seq_contains_after_push;

    assert(!Seq::<Seq<char>>::empty().contains(method));
}

/// Whether a method is one of automation.
spec fn is_automation_method(m: Seq<char>) -> bool {
    ||| m == "browser.snapshot"@
    ||| m == "browser.eval"@
    ||| m == "browser.wait"@
    ||| m == "browser.click"@
    ||| m == "browser.dblclick"@
    ||| m == "browser.type"@
    ||| m == "browser.fill"@
    ||| m == "browser.press"@
    ||| m == "browser.keydown"@
    ||| m == "browser.keyup"@
    ||| m == "browser.hover"@
    ||| m == "browser.focus"@
    ||| m == "browser.check"@
    ||| m == "browser.uncheck"@
    ||| m == "browser.select"@
    ||| m == "browser.scroll"@
    ||| m == "browser.scroll_into_view"@
    ||| m == "browser.screenshot"@
    ||| m == "browser.get.title"@
    ||| m == "browser.get.text"@
    ||| m == "browser.get.html"@
    ||| m == "browser.get.value"@
    ||| m == "browser.get.attr"@
    ||| m == "browser.get.count"@
    ||| m == "browser.get.box"@
    ||| m == "browser.get.styles"@
    ||| m == "browser.is.visible"@
    ||| m == "browser.is.enabled"@
    ||| m == "browser.is.checked"@
    ||| m == "browser.find.role"@
    ||| m == "browser.find.text"@
    ||| m == "browser.find.label"@
    ||| m == "browser.find.placeholder"@
    ||| m == "browser.find.alt"@
    ||| m == "browser.find.title"@
    ||| m == "browser.find.testid"@
    ||| m == "browser.find.nth"@
    ||| m == "browser.find.first"@
    ||| m == "browser.find.last"@
    ||| m == "browser.frame.select"@
    ||| m == "browser.frame.main"@
    ||| m == "browser.dialog.respond"@
    ||| m == "browser.download.wait"@
    ||| m == "browser.console.list"@
    ||| m == "browser.errors.list"@
    ||| m == "browser.highlight"@
    ||| m == "browser.state.save"@
    ||| m == "browser.state.load"@
}

/// What tells the methods of automation apart.
proof fn lemma_automation_names()
    ensures
        "browser.snapshot"@.len() == 16 && "browser.snapshot"@[0] == 'b'
            && "browser.snapshot"@[6] == 'r' && "browser.snapshot"@[8] == 's'
            && "browser.snapshot"@[10] == 'a' && "browser.snapshot"@[15] == 't',
        "browser.eval"@.len() == 12 && "browser.eval"@[0] == 'b' && "browser.eval"@[6] == 'r'
            && "browser.eval"@[8] == 'e' && "browser.eval"@[10] == 'a',
        "browser.wait"@.len() == 12 && "browser.wait"@[0] == 'b' && "browser.wait"@[6] == 'r'
            && "browser.wait"@[8] == 'w' && "browser.wait"@[10] == 'i',
        "browser.click"@.len() == 13 && "browser.click"@[0] == 'b' && "browser.click"@[6] == 'r'
            && "browser.click"@[8] == 'c' && "browser.click"@[10] == 'i',
        "browser.dblclick"@.len() == 16 && "browser.dblclick"@[0] == 'b'
            && "browser.dblclick"@[6] == 'r' && "browser.dblclick"@[8] == 'd'
            && "browser.dblclick"@[10] == 'l' && "browser.dblclick"@[15] == 'k',
        "browser.type"@.len() == 12 && "browser.type"@[0] == 'b' && "browser.type"@[6] == 'r'
            && "browser.type"@[8] == 't' && "browser.type"@[10] == 'p',
        "browser.fill"@.len() == 12 && "browser.fill"@[0] == 'b' && "browser.fill"@[6] == 'r'
            && "browser.fill"@[8] == 'f' && "browser.fill"@[10] == 'l',
        "browser.press"@.len() == 13 && "browser.press"@[0] == 'b' && "browser.press"@[6] == 'r'
            && "browser.press"@[8] == 'p' && "browser.press"@[10] == 'e',
        "browser.keydown"@.len() == 15 && "browser.keydown"@[0] == 'b'
            && "browser.keydown"@[6] == 'r' && "browser.keydown"@[8] == 'k'
            && "browser.keydown"@[10] == 'y',
        "browser.keyup"@.len() == 13 && "browser.keyup"@[0] == 'b' && "browser.keyup"@[6] == 'r'
            && "browser.keyup"@[8] == 'k' && "browser.keyup"@[10] == 'y',
        "browser.hover"@.len() == 13 && "browser.hover"@[0] == 'b' && "browser.hover"@[6] == 'r'
            && "browser.hover"@[8] == 'h' && "browser.hover"@[10] == 'v',
        "browser.focus"@.len() == 13 && "browser.focus"@[0] == 'b' && "browser.focus"@[6] == 'r'
            && "browser.focus"@[8] == 'f' && "browser.focus"@[10] == 'c',
        "browser.check"@.len() == 13 && "browser.check"@[0] == 'b' && "browser.check"@[6] == 'r'
            && "browser.check"@[8] == 'c' && "browser.check"@[10] == 'e',
        "browser.uncheck"@.len() == 15 && "browser.uncheck"@[0] == 'b'
            && "browser.uncheck"@[6] == 'r' && "browser.uncheck"@[8] == 'u'
            && "browser.uncheck"@[10] == 'c',
        "browser.select"@.len() == 14 && "browser.select"@[0] == 'b'
            && "browser.select"@[6] == 'r' && "browser.select"@[8] == 's'
            && "browser.select"@[10] == 'l',
        "browser.scroll"@.len() == 14 && "browser.scroll"@[0] == 'b'
            && "browser.scroll"@[6] == 'r' && "browser.scroll"@[8] == 's'
            && "browser.scroll"@[10] == 'r',
        "browser.scroll_into_view"@.len() == 24 && "browser.scroll_into_view"@[0] == 'b'
            && "browser.scroll_into_view"@[6] == 'r' && "browser.scroll_into_view"@[8] == 's'
            && "browser.scroll_into_view"@[10] == 'r' && "browser.scroll_into_view"@[15] == 'i',
        "browser.screenshot"@.len() == 18 && "browser.screenshot"@[0] == 'b'
            && "browser.screenshot"@[6] == 'r' && "browser.screenshot"@[8] == 's'
            && "browser.screenshot"@[10] == 'r' && "browser.screenshot"@[15] == 'h',
        "browser.get.title"@.len() == 17 && "browser.get.title"@[0] == 'b'
            && "browser.get.title"@[6] == 'r' && "browser.get.title"@[8] == 'g'
            && "browser.get.title"@[10] == 't' && "browser.get.title"@[15] == 'l',
        "browser.get.text"@.len() == 16 && "browser.get.text"@[0] == 'b'
            && "browser.get.text"@[6] == 'r' && "browser.get.text"@[8] == 'g'
            && "browser.get.text"@[10] == 't' && "browser.get.text"@[15] == 't',
        "browser.get.html"@.len() == 16 && "browser.get.html"@[0] == 'b'
            && "browser.get.html"@[6] == 'r' && "browser.get.html"@[8] == 'g'
            && "browser.get.html"@[10] == 't' && "browser.get.html"@[15] == 'l',
        "browser.get.value"@.len() == 17 && "browser.get.value"@[0] == 'b'
            && "browser.get.value"@[6] == 'r' && "browser.get.value"@[8] == 'g'
            && "browser.get.value"@[10] == 't' && "browser.get.value"@[15] == 'u',
        "browser.get.attr"@.len() == 16 && "browser.get.attr"@[0] == 'b'
            && "browser.get.attr"@[6] == 'r' && "browser.get.attr"@[8] == 'g'
            && "browser.get.attr"@[10] == 't' && "browser.get.attr"@[15] == 'r',
        "browser.get.count"@.len() == 17 && "browser.get.count"@[0] == 'b'
            && "browser.get.count"@[6] == 'r' && "browser.get.count"@[8] == 'g'
            && "browser.get.count"@[10] == 't' && "browser.get.count"@[15] == 'n',
        "browser.get.box"@.len() == 15 && "browser.get.box"@[0] == 'b'
            && "browser.get.box"@[6] == 'r' && "browser.get.box"@[8] == 'g'
            && "browser.get.box"@[10] == 't',
        "browser.get.styles"@.len() == 18 && "browser.get.styles"@[0] == 'b'
            && "browser.get.styles"@[6] == 'r' && "browser.get.styles"@[8] == 'g'
            && "browser.get.styles"@[10] == 't' && "browser.get.styles"@[15] == 'l',
        "browser.is.visible"@.len() == 18 && "browser.is.visible"@[0] == 'b'
            && "browser.is.visible"@[6] == 'r' && "browser.is.visible"@[8] == 'i'
            && "browser.is.visible"@[10] == '.' && "browser.is.visible"@[15] == 'b',
        "browser.is.enabled"@.len() == 18 && "browser.is.enabled"@[0] == 'b'
            && "browser.is.enabled"@[6] == 'r' && "browser.is.enabled"@[8] == 'i'
            && "browser.is.enabled"@[10] == '.' && "browser.is.enabled"@[15] == 'l',
        "browser.is.checked"@.len() == 18 && "browser.is.checked"@[0] == 'b'
            && "browser.is.checked"@[6] == 'r' && "browser.is.checked"@[8] == 'i'
            && "browser.is.checked"@[10] == '.' && "browser.is.checked"@[15] == 'k',
        "browser.find.role"@.len() == 17 && "browser.find.role"@[0] == 'b'
            && "browser.find.role"@[6] == 'r' && "browser.find.role"@[8] == 'f'
            && "browser.find.role"@[10] == 'n' && "browser.find.role"@[15] == 'l',
        "browser.find.text"@.len() == 17 && "browser.find.text"@[0] == 'b'
            && "browser.find.text"@[6] == 'r' && "browser.find.text"@[8] == 'f'
            && "browser.find.text"@[10] == 'n' && "browser.find.text"@[15] == 'x',
        "browser.find.label"@.len() == 18 && "browser.find.label"@[0] == 'b'
            && "browser.find.label"@[6] == 'r' && "browser.find.label"@[8] == 'f'
            && "browser.find.label"@[10] == 'n' && "browser.find.label"@[15] == 'b',
        "browser.find.placeholder"@.len() == 24 && "browser.find.placeholder"@[0] == 'b'
            && "browser.find.placeholder"@[6] == 'r' && "browser.find.placeholder"@[8] == 'f'
            && "browser.find.placeholder"@[10] == 'n' && "browser.find.placeholder"@[15] == 'a',
        "browser.find.alt"@.len() == 16 && "browser.find.alt"@[0] == 'b'
            && "browser.find.alt"@[6] == 'r' && "browser.find.alt"@[8] == 'f'
            && "browser.find.alt"@[10] == 'n' && "browser.find.alt"@[15] == 't',
        "browser.find.title"@.len() == 18 && "browser.find.title"@[0] == 'b'
            && "browser.find.title"@[6] == 'r' && "browser.find.title"@[8] == 'f'
            && "browser.find.title"@[10] == 'n' && "browser.find.title"@[15] == 't',
        "browser.find.testid"@.len() == 19 && "browser.find.testid"@[0] == 'b'
            && "browser.find.testid"@[6] == 'r' && "browser.find.testid"@[8] == 'f'
            && "browser.find.testid"@[10] == 'n' && "browser.find.testid"@[15] == 's',
        "browser.find.nth"@.len() == 16 && "browser.find.nth"@[0] == 'b'
            && "browser.find.nth"@[6] == 'r' && "browser.find.nth"@[8] == 'f'
            && "browser.find.nth"@[10] == 'n' && "browser.find.nth"@[15] == 'h',
        "browser.find.first"@.len() == 18 && "browser.find.first"@[0] == 'b'
            && "browser.find.first"@[6] == 'r' && "browser.find.first"@[8] == 'f'
            && "browser.find.first"@[10] == 'n' && "browser.find.first"@[15] == 'r',
        "browser.find.last"@.len() == 17 && "browser.find.last"@[0] == 'b'
            && "browser.find.last"@[6] == 'r' && "browser.find.last"@[8] == 'f'
            && "browser.find.last"@[10] == 'n' && "browser.find.last"@[15] == 's',
        "browser.frame.select"@.len() == 20 && "browser.frame.select"@[0] == 'b'
            && "browser.frame.select"@[6] == 'r' && "browser.frame.select"@[8] == 'f'
            && "browser.frame.select"@[10] == 'a' && "browser.frame.select"@[15] == 'e',
        "browser.frame.main"@.len() == 18 && "browser.frame.main"@[0] == 'b'
            && "browser.frame.main"@[6] == 'r' && "browser.frame.main"@[8] == 'f'
            && "browser.frame.main"@[10] == 'a' && "browser.frame.main"@[15] == 'a',
        "browser.dialog.respond"@.len() == 22 && "browser.dialog.respond"@[0] == 'b'
            && "browser.dialog.respond"@[6] == 'r' && "browser.dialog.respond"@[8] == 'd'
            && "browser.dialog.respond"@[10] == 'a' && "browser.dialog.respond"@[15] == 'r',
        "browser.download.wait"@.len() == 21 && "browser.download.wait"@[0] == 'b'
            && "browser.download.wait"@[6] == 'r' && "browser.download.wait"@[8] == 'd'
            && "browser.download.wait"@[10] == 'w' && "browser.download.wait"@[15] == 'd',
        "browser.console.list"@.len() == 20 && "browser.console.list"@[0] == 'b'
            && "browser.console.list"@[6] == 'r' && "browser.console.list"@[8] == 'c'
            && "browser.console.list"@[10] == 'n' && "browser.console.list"@[15] == '.',
        "browser.errors.list"@.len() == 19 && "browser.errors.list"@[0] == 'b'
            && "browser.errors.list"@[6] == 'r' && "browser.errors.list"@[8] == 'e'
            && "browser.errors.list"@[10] == 'r' && "browser.errors.list"@[15] == 'l',
        "browser.highlight"@.len() == 17 && "browser.highlight"@[0] == 'b'
            && "browser.highlight"@[6] == 'r' && "browser.highlight"@[8] == 'h'
            && "browser.highlight"@[10] == 'g' && "browser.highlight"@[15] == 'h',
        "browser.state.save"@.len() == 18 && "browser.state.save"@[0] == 'b'
            && "browser.state.save"@[6] == 'r' && "browser.state.save"@[8] == 's'
            && "browser.state.save"@[10] == 'a' && "browser.state.save"@[15] == 'a',
        "browser.state.load"@.len() == 18 && "browser.state.load"@[0] == 'b'
            && "browser.state.load"@[6] == 'r' && "browser.state.load"@[8] == 's'
            && "browser.state.load"@[10] == 'a' && "browser.state.load"@[15] == 'o',
{
    reveal_strlit("browser.snapshot");
    reveal_strlit("browser.eval");
    reveal_strlit("browser.wait");
    reveal_strlit("browser.click");
    reveal_strlit("browser.dblclick");
    reveal_strlit("browser.type");
    reveal_strlit("browser.fill");
    reveal_strlit("browser.press");
    reveal_strlit("browser.keydown");
    reveal_strlit("browser.keyup");
    reveal_strlit("browser.hover");
    reveal_strlit("browser.focus");
    reveal_strlit("browser.check");
    reveal_strlit("browser.uncheck");
    reveal_strlit("browser.select");
    reveal_strlit("browser.scroll");
    reveal_strlit("browser.scroll_into_view");
    reveal_strlit("browser.screenshot");
    reveal_strlit("browser.get.title");
    reveal_strlit("browser.get.text");
    reveal_strlit("browser.get.html");
    reveal_strlit("browser.get.value");
    reveal_strlit("browser.get.attr");
    reveal_strlit("browser.get.count");
    reveal_strlit("browser.get.box");
    reveal_strlit("browser.get.styles");
    reveal_strlit("browser.is.visible");
    reveal_strlit("browser.is.enabled");
    reveal_strlit("browser.is.checked");
    reveal_strlit("browser.find.role");
    reveal_strlit("browser.find.text");
    reveal_strlit("browser.find.label");
    reveal_strlit("browser.find.placeholder");
    reveal_strlit("browser.find.alt");
    reveal_strlit("browser.find.title");
    reveal_strlit("browser.find.testid");
    reveal_strlit("browser.find.nth");
    reveal_strlit("browser.find.first");
    reveal_strlit("browser.find.last");
    reveal_strlit("browser.frame.select");
    reveal_strlit("browser.frame.main");
    reveal_strlit("browser.dialog.respond");
    reveal_strlit("browser.download.wait");
    reveal_strlit("browser.console.list");
    reveal_strlit("browser.errors.list");
    reveal_strlit("browser.highlight");
    reveal_strlit("browser.state.save");
    reveal_strlit("browser.state.load");
}

/// A method that is about notifications is none of automation.
proof fn lemma_not_automated(method: Seq<char>)
    requires
        method.len() > 0 && method[0] == 'n',
    ensures
        !automation_methods().contains(method),
{
    if automation_methods().contains(method) {
        lemma_automation_methods(method);
        lemma_automation_names();
    }
}

/// The methods about notifications make, list and clear them, each as it is
/// called.
pub proof fn law_notification_methods_do_as_called(
    app: AppView,
    params: Option<JsonView>,
    readings: Readings,
    surroundings: SurroundingsView,
    clock: Clock,
    replies: Seq<ReplyView>,
)
    ensures
        method_turn(app, "notification.create"@, params, readings, surroundings, clock, replies) == Some(
            notification_created(app, clock, params),
        ),
        method_turn(app, "notification.create_for_surface"@, params, readings, surroundings, clock, replies) == Some(
            notification_created(app, clock, params),
        ),
        method_turn(app, "notification.list"@, params, readings, surroundings, clock, replies) == Some(
            answered(app, notifications_listed(app)),
        ),
        method_turn(app, "notification.clear"@, params, readings, surroundings, clock, replies) == Some(
            notifications_cleared(app),
        ),
{
    lemma_system_names();
    lemma_workspace_names();
    lemma_surface_names();
    lemma_pane_names();
    lemma_browser_names();
    lemma_notification_names();
    lemma_not_automated("notification.create"@);
    lemma_not_automated("notification.create_for_surface"@);
    lemma_not_automated("notification.list"@);
    lemma_not_automated("notification.clear"@);
}

/// The methods of automation go to the page of the browser.
pub proof fn law_automation_methods_go_to_the_page(
    app: AppView,
    method: Seq<char>,
    params: Option<JsonView>,
    readings: Readings,
    surroundings: SurroundingsView,
    clock: Clock,
    replies: Seq<ReplyView>,
)
    requires
        automation_methods().contains(method),
    ensures
        method_turn(app, method, params, readings, surroundings, clock, replies) == Some(
            automated(app, method, params, readings, replies),
        ),
{
    lemma_browser_method(app, method, params, readings, surroundings, clock, replies);
    lemma_automated(method);
    lemma_automated_last(app, method, params, readings, clock, replies);
}

/// The methods of automation are none of the others.
proof fn lemma_automated(method: Seq<char>)
    requires
        automation_methods().contains(method),
    ensures
        method.len() > 0 && method[0] == 'b',
        !is_other_browser_method(method),
{
    lemma_automation_methods(method);
    lemma_about_browsers(method);
    lemma_no_other_browser_method(method);
}

/// Whether a method is one about browsers that is none of automation.
spec fn is_other_browser_method(m: Seq<char>) -> bool {
    ||| m == "browser.open_split"@
    ||| m == "browser.navigate"@
    ||| m == "browser.url.get"@
    ||| m == "browser.back"@
    ||| m == "browser.forward"@
    ||| m == "browser.reload"@
    ||| m == "browser.focus_webview"@
    ||| m == "browser.is_webview_focused"@
}

/// What is neither about the shell nor about workspaces, surfaces and panes is
/// about browsers or notifications.
proof fn lemma_browser_method(
    app: AppView,
    method: Seq<char>,
    params: Option<JsonView>,
    readings: Readings,
    surroundings: SurroundingsView,
    clock: Clock,
    replies: Seq<ReplyView>,
)
    ensures
        method.len() > 0 && method[0] == 'b' && browser_turn(
            app,
            method,
            params,
            readings,
            clock,
            replies,
        ) is Some ==> method_turn(app, method, params, readings, surroundings, clock, replies)
            == browser_turn(app, method, params, readings, clock, replies),
{
    if method.len() > 0 && method[0] == 'b' {
        lemma_other_methods(method);
        assert(system_turn(app, method, surroundings) is None);
        assert(workspace_turn(app, method, params, clock) is None);
        assert(surface_turn(app, method, params, clock, replies) is None);
        assert(pane_turn(app, method, params, readings, clock) is None);
    }
}

/// The methods of automation are the last about browsers.
proof fn lemma_automated_last(
    app: AppView,
    method: Seq<char>,
    params: Option<JsonView>,
    readings: Readings,
    clock: Clock,
    replies: Seq<ReplyView>,
)
    requires
        automation_methods().contains(method),
        !is_other_browser_method(method),
    ensures
        browser_turn(app, method, params, readings, clock, replies) == Some(
            automated(app, method, params, readings, replies),
        ),
{
}

/// The methods of automation start like all methods about browsers.
proof fn lemma_about_browsers(method: Seq<char>)
    requires
        is_automation_method(method),
    ensures
        method.len() > 0 && method[0] == 'b',
{
    lemma_automation_names();
}

/// The methods of automation are none of the others about browsers.
proof fn lemma_no_other_browser_method(method: Seq<char>)
    requires
        is_automation_method(method),
    ensures
        method != "browser.open_split"@,
        method != "browser.navigate"@,
        method != "browser.url.get"@,
        method != "browser.back"@,
        method != "browser.forward"@,
        method != "browser.reload"@,
        method != "browser.focus_webview"@,
        method != "browser.is_webview_focused"@,
{
    lemma_automation_names();
    lemma_browser_names();
}

/// A method about browsers is none about the shell, workspaces, surfaces or
/// panes.
proof fn lemma_other_methods(method: Seq<char>)
    requires
        method.len() > 0 && method[0] == 'b',
    ensures
        method != "ping"@,
        method != "app.ping"@,
        method != "system.ping"@,
        method != "app.status"@,
        method != "system.capabilities"@,
        method != "system.identify"@,
        method != "surface.refresh"@,
        method != "workspace.list"@,
        method != "list_workspaces"@,
        method != "workspace.create"@,
        method != "new_workspace"@,
        method != "workspace.current"@,
        method != "workspace.select"@,
        method != "workspace.close"@,
        method != "workspace.rename"@,
        method != "workspace.equalize_splits"@,
        method != "surface.list"@,
        method != "list_surfaces"@,
        method != "list_panels"@,
        method != "surface.create"@,
        method != "new_surface"@,
        method != "surface.focus"@,
        method != "surface.close"@,
        method != "surface.move"@,
        method != "surface.reorder"@,
        method != "surface.send_text"@,
        method != "surface.send_key"@,
        method != "surface.read_text"@,
        method != "surface.clear_history"@,
        method != "surface.health"@,
        method != "surface.split"@,
        method != "surface.drag_to_split"@,
        method != "pane.create"@,
        method != "pane.list"@,
        method != "pane.surfaces"@,
        method != "pane.focus"@,
        method != "pane.swap"@,
        method != "pane.resize"@,
        method != "pane.last"@,
{
    lemma_system_names();
    lemma_workspace_names();
    lemma_surface_names();
    lemma_pane_names();
}

/// How the methods of automation start.
proof fn lemma_starts()
    ensures
        has_prefix("browser.find.role"@, "browser.find."@),
        !has_prefix("browser.find.role"@, "browser.get."@),
        !has_prefix("browser.find.role"@, "browser.is."@),
        has_prefix("browser.find.text"@, "browser.find."@),
        !has_prefix("browser.find.text"@, "browser.get."@),
        !has_prefix("browser.find.text"@, "browser.is."@),
        has_prefix("browser.find.label"@, "browser.find."@),
        !has_prefix("browser.find.label"@, "browser.get."@),
        !has_prefix("browser.find.label"@, "browser.is."@),
        has_prefix("browser.find.placeholder"@, "browser.find."@),
        !has_prefix("browser.find.placeholder"@, "browser.get."@),
        !has_prefix("browser.find.placeholder"@, "browser.is."@),
        has_prefix("browser.find.alt"@, "browser.find."@),
        !has_prefix("browser.find.alt"@, "browser.get."@),
        !has_prefix("browser.find.alt"@, "browser.is."@),
        has_prefix("browser.find.title"@, "browser.find."@),
        !has_prefix("browser.find.title"@, "browser.get."@),
        !has_prefix("browser.find.title"@, "browser.is."@),
        has_prefix("browser.find.testid"@, "browser.find."@),
        !has_prefix("browser.find.testid"@, "browser.get."@),
        !has_prefix("browser.find.testid"@, "browser.is."@),
        has_prefix("browser.find.nth"@, "browser.find."@),
        !has_prefix("browser.find.nth"@, "browser.get."@),
        !has_prefix("browser.find.nth"@, "browser.is."@),
        has_prefix("browser.find.first"@, "browser.find."@),
        !has_prefix("browser.find.first"@, "browser.get."@),
        !has_prefix("browser.find.first"@, "browser.is."@),
        has_prefix("browser.find.last"@, "browser.find."@),
        !has_prefix("browser.find.last"@, "browser.get."@),
        !has_prefix("browser.find.last"@, "browser.is."@),
        !has_prefix("browser.frame.main"@, "browser.get."@),
        !has_prefix("browser.frame.main"@, "browser.is."@),
        !has_prefix("browser.frame.main"@, "browser.find."@),
        !has_prefix("browser.frame.select"@, "browser.get."@),
        !has_prefix("browser.frame.select"@, "browser.is."@),
        !has_prefix("browser.frame.select"@, "browser.find."@),
        !has_prefix("browser.console.list"@, "browser.get."@),
        !has_prefix("browser.console.list"@, "browser.is."@),
        !has_prefix("browser.console.list"@, "browser.find."@),
        !has_prefix("browser.errors.list"@, "browser.get."@),
        !has_prefix("browser.errors.list"@, "browser.is."@),
        !has_prefix("browser.errors.list"@, "browser.find."@),
        !has_prefix("browser.dialog.respond"@, "browser.get."@),
        !has_prefix("browser.dialog.respond"@, "browser.is."@),
        !has_prefix("browser.dialog.respond"@, "browser.find."@),
        !has_prefix("browser.download.wait"@, "browser.get."@),
        !has_prefix("browser.download.wait"@, "browser.is."@),
        !has_prefix("browser.download.wait"@, "browser.find."@),
        !has_prefix("browser.state.save"@, "browser.get."@),
        !has_prefix("browser.state.save"@, "browser.is."@),
        !has_prefix("browser.state.save"@, "browser.find."@),
{
    reveal_strlit("browser.get.");
    reveal_strlit("browser.is.");
    reveal_strlit("browser.find.");
    assert("browser.get."@[8] == 'g' && "browser.is."@[8] == 'i');
    assert("browser.find."@[9] == 'i' && "browser.find."@[8] == 'f');
    reveal_strlit("browser.find.role");
    reveal_strlit("browser.find.text");
    reveal_strlit("browser.find.label");
    reveal_strlit("browser.find.placeholder");
    reveal_strlit("browser.find.alt");
    reveal_strlit("browser.find.title");
    reveal_strlit("browser.find.testid");
    reveal_strlit("browser.find.nth");
    reveal_strlit("browser.find.first");
    reveal_strlit("browser.find.last");
    reveal_strlit("browser.frame.main");
    reveal_strlit("browser.frame.select");
    reveal_strlit("browser.console.list");
    reveal_strlit("browser.errors.list");
    reveal_strlit("browser.dialog.respond");
    reveal_strlit("browser.download.wait");
    reveal_strlit("browser.state.save");
    assert("browser.find.role"@.take(13) =~= "browser.find."@);
    assert("browser.find.role"@.take(12)[8] == 'f');
    assert("browser.find.role"@.take(11)[8] == 'f');
    assert("browser.find.text"@.take(13) =~= "browser.find."@);
    assert("browser.find.text"@.take(12)[8] == 'f');
    assert("browser.find.text"@.take(11)[8] == 'f');
    assert("browser.find.label"@.take(13) =~= "browser.find."@);
    assert("browser.find.label"@.take(12)[8] == 'f');
    assert("browser.find.label"@.take(11)[8] == 'f');
    assert("browser.find.placeholder"@.take(13) =~= "browser.find."@);
    assert("browser.find.placeholder"@.take(12)[8] == 'f');
    assert("browser.find.placeholder"@.take(11)[8] == 'f');
    assert("browser.find.alt"@.take(13) =~= "browser.find."@);
    assert("browser.find.alt"@.take(12)[8] == 'f');
    assert("browser.find.alt"@.take(11)[8] == 'f');
    assert("browser.find.title"@.take(13) =~= "browser.find."@);
    assert("browser.find.title"@.take(12)[8] == 'f');
    assert("browser.find.title"@.take(11)[8] == 'f');
    assert("browser.find.testid"@.take(13) =~= "browser.find."@);
    assert("browser.find.testid"@.take(12)[8] == 'f');
    assert("browser.find.testid"@.take(11)[8] == 'f');
    assert("browser.find.nth"@.take(13) =~= "browser.find."@);
    assert("browser.find.nth"@.take(12)[8] == 'f');
    assert("browser.find.nth"@.take(11)[8] == 'f');
    assert("browser.find.first"@.take(13) =~= "browser.find."@);
    assert("browser.find.first"@.take(12)[8] == 'f');
    assert("browser.find.first"@.take(11)[8] == 'f');
    assert("browser.find.last"@.take(13) =~= "browser.find."@);
    assert("browser.find.last"@.take(12)[8] == 'f');
    assert("browser.find.last"@.take(11)[8] == 'f');
    assert("browser.frame.main"@.take(12)[8] == 'f');
    assert("browser.frame.main"@.take(11)[8] == 'f');
    assert("browser.frame.main"@.take(13)[8] == 'f' && "browser.frame.main"@.take(13)[9] == 'r');
    assert("browser.frame.select"@.take(12)[8] == 'f');
    assert("browser.frame.select"@.take(11)[8] == 'f');
    assert("browser.frame.select"@.take(13)[8] == 'f'
        && "browser.frame.select"@.take(13)[9] == 'r');
    assert("browser.console.list"@.take(12)[8] == 'c');
    assert("browser.console.list"@.take(11)[8] == 'c');
    assert("browser.console.list"@.take(13)[8] == 'c'
        && "browser.console.list"@.take(13)[9] == 'o');
    assert("browser.errors.list"@.take(12)[8] == 'e');
    assert("browser.errors.list"@.take(11)[8] == 'e');
    assert("browser.errors.list"@.take(13)[8] == 'e' && "browser.errors.list"@.take(13)[9] == 'r');
    assert("browser.dialog.respond"@.take(12)[8] == 'd');
    assert("browser.dialog.respond"@.take(11)[8] == 'd');
    assert("browser.dialog.respond"@.take(13)[8] == 'd'
        && "browser.dialog.respond"@.take(13)[9] == 'i');
    assert("browser.download.wait"@.take(12)[8] == 'd');
    assert("browser.download.wait"@.take(11)[8] == 'd');
    assert("browser.download.wait"@.take(13)[8] == 'd'
        && "browser.download.wait"@.take(13)[9] == 'o');
    assert("browser.state.save"@.take(12)[8] == 's');
    assert("browser.state.save"@.take(11)[8] == 's');
    assert("browser.state.save"@.take(13)[8] == 's' && "browser.state.save"@.take(13)[9] == 't');
}

/// Each request for a page comes to its own step on that page.
pub proof fn law_page_methods_do_as_called(
    surface: SurfaceView,
    params: Option<JsonView>,
    readings: Readings,
    replies: Seq<ReplyView>,
)
    ensures
        ({
            let id = surface.id;
            let page = surface.browser_state;
            &&& automation_act(surface, "browser.eval"@, params, readings, replies) == step_act(read_step(id, eval_reading(page, params), replies), page)
            &&& automation_act(surface, "browser.wait"@, params, readings, replies) == step_act(wait_step(id, page, surface.url, params, readings, replies), page)
            &&& automation_act(surface, "browser.press"@, params, readings, replies) == key_act(id, page, KeyPhase::Press, params, replies)
            &&& automation_act(surface, "browser.keydown"@, params, readings, replies) == key_act(id, page, KeyPhase::Down, params, replies)
            &&& automation_act(surface, "browser.keyup"@, params, readings, replies) == key_act(id, page, KeyPhase::Up, params, replies)
            &&& automation_act(surface, "browser.screenshot"@, params, readings, replies) == step_act(screenshot_step(id, params, readings, replies), page)
            &&& automation_act(surface, "browser.frame.main"@, params, readings, replies) == step_act(main_frame_step(id, replies), page)
            &&& automation_act(surface, "browser.frame.select"@, params, readings, replies) == step_act(frame_step(id, params, replies), page)
            &&& automation_act(surface, "browser.console.list"@, params, readings, replies) == step_act(events_step(id, ActionView::ConsoleMessages, "messages"@, replies), page)
            &&& automation_act(surface, "browser.errors.list"@, params, readings, replies) == step_act(events_step(id, ActionView::ErrorMessages, "errors"@, replies), page)
            &&& automation_act(surface, "browser.dialog.respond"@, params, readings, replies) == step_act(dialog_step(id, params, replies), page)
            &&& automation_act(surface, "browser.download.wait"@, params, readings, replies) == step_act(download_step(id, params, readings, replies), page)
            &&& automation_act(surface, "browser.state.save"@, params, readings, replies) == ActView::Done(page, saved(id, page))
            &&& text1(params, "selector"@) is None ==> automation_act(
                surface,
                "browser.scroll"@,
                params,
                readings,
                replies,
            ) == scroll_act(id, page, scroll_distance(params, readings), params, replies)
        }),
{
    lemma_automation_names();
    lemma_starts();
}

/// Each search for an element is a search on the page.
pub proof fn law_searches_go_to_the_page(
    surface: SurfaceView,
    params: Option<JsonView>,
    readings: Readings,
    replies: Seq<ReplyView>,
)
    ensures
        ({
            let page = surface.browser_state;
            &&& automation_act(surface, "browser.find.role"@, params, readings, replies) == step_act(
                read_step(
                    surface.id,
                    Ok(find_reading(page, "browser.find.role"@, params)),
                    replies,
                ),
                page,
            )
            &&& automation_act(surface, "browser.find.text"@, params, readings, replies) == step_act(
                read_step(
                    surface.id,
                    Ok(find_reading(page, "browser.find.text"@, params)),
                    replies,
                ),
                page,
            )
            &&& automation_act(surface, "browser.find.label"@, params, readings, replies) == step_act(
                read_step(
                    surface.id,
                    Ok(find_reading(page, "browser.find.label"@, params)),
                    replies,
                ),
                page,
            )
            &&& automation_act(surface, "browser.find.placeholder"@, params, readings, replies) == step_act(
                read_step(
                    surface.id,
                    Ok(find_reading(page, "browser.find.placeholder"@, params)),
                    replies,
                ),
                page,
            )
            &&& automation_act(surface, "browser.find.alt"@, params, readings, replies) == step_act(
                read_step(
                    surface.id,
                    Ok(find_reading(page, "browser.find.alt"@, params)),
                    replies,
                ),
                page,
            )
            &&& automation_act(surface, "browser.find.title"@, params, readings, replies) == step_act(
                read_step(
                    surface.id,
                    Ok(find_reading(page, "browser.find.title"@, params)),
                    replies,
                ),
                page,
            )
            &&& automation_act(surface, "browser.find.testid"@, params, readings, replies) == step_act(
                read_step(
                    surface.id,
                    Ok(find_reading(page, "browser.find.testid"@, params)),
                    replies,
                ),
                page,
            )
            &&& automation_act(surface, "browser.find.nth"@, params, readings, replies) == step_act(
                read_step(
                    surface.id,
                    Ok(find_reading(page, "browser.find.nth"@, params)),
                    replies,
                ),
                page,
            )
            &&& automation_act(surface, "browser.find.first"@, params, readings, replies) == step_act(
                read_step(
                    surface.id,
                    Ok(find_reading(page, "browser.find.first"@, params)),
                    replies,
                ),
                page,
            )
            &&& automation_act(surface, "browser.find.last"@, params, readings, replies) == step_act(
                read_step(
                    surface.id,
                    Ok(find_reading(page, "browser.find.last"@, params)),
                    replies,
                ),
                page,
            )
        }),
{
    lemma_automation_names();
    lemma_starts();
}

// ---------------------------------------------------------------------------
// Live pages

/// A live page that says yes.
pub open spec fn consents(replies: Seq<ReplyView>) -> bool {
    replies.len() == 1 && (replies[0] matches ReplyView::Script(ScriptView::Text(t))
        && parsed_json(t)
        == Some(JsonView::Bool(true)))
}

/// Whether an act is done and leaves a page, and says whether a live one made it.
pub open spec fn leaves(act: ActView, page: PageView, live: bool) -> bool {
    act matches ActView::Done(after, told) && after == page && told.get("live_webview"@) == Some(
        JsonView::Bool(live),
    ) && told.get("ok"@) == Some(JsonView::Bool(true))
}

/// A gesture is first asked of the live page. Where it makes it, what is known of
/// the page stays as it is; where there is no live page, the gesture is made on
/// what is known.
pub proof fn law_live_pages_make_gestures(
    surface_id: Seq<char>,
    page: PageView,
    selector: Seq<char>,
    g: GestureView,
    params: Option<JsonView>,
    replies: Seq<ReplyView>,
)
    requires
        param(params, "snapshot_after"@) is None,
    ensures
        gesture_act(surface_id, page, selector, g, params, Seq::empty()) == ActView::Ask(
            CallView { surface_id, action: ActionView::Statement(gesture_script(selector, g)) },
        ),
        consents(replies) ==> leaves(
            gesture_act(surface_id, page, selector, g, params, replies),
            page,
            true,
        ),
        gestured(page, selector, g) matches Ok(after) ==> leaves(
            gesture_act(surface_id, page, selector, g, params, dead()),
            after,
            false,
        ),
        gestured(page, selector, g) matches Err(e) ==> gesture_act(
            surface_id,
            page,
            selector,
            g,
            params,
            dead(),
        ) == ActView::Fail(e),
{
    broadcast use lemma_with_get;

    lemma_answer_keys();
    assert(dead()[0] == ReplyView::Script(ScriptView::NotLive));
}

/// A key goes to the live page, and is counted where there is none; so does and is
/// scrolling.
pub proof fn law_live_pages_get_keys_and_scrolling(
    surface_id: Seq<char>,
    page: PageView,
    phase: KeyPhase,
    key: Seq<char>,
    dy: i64,
    params: Option<JsonView>,
    replies: Seq<ReplyView>,
)
    requires
        param(params, "snapshot_after"@) is None,
        text1(params, "key"@) == Some(key),
    ensures
        key_act(surface_id, page, phase, params, Seq::empty()) == ActView::Ask(
            CallView { surface_id, action: ActionView::Statement(key_script(key, phase)) },
        ),
        consents(replies) ==> leaves(
            key_act(surface_id, page, phase, params, replies),
            page,
            true,
        ),
        leaves(
            key_act(surface_id, page, phase, params, dead()),
            key_counted(page, phase),
            false,
        ),
        scroll_act(surface_id, page, dy, params, Seq::empty()) == ActView::Ask(
            CallView { surface_id, action: ActionView::Statement(page_scroll_script(dy)) },
        ),
        consents(replies) ==> leaves(
            scroll_act(surface_id, page, dy, params, replies),
            page,
            true,
        ),
        leaves(
            scroll_act(surface_id, page, dy, params, dead()),
            page_scrolled(page, dy),
            false,
        ),
{
    broadcast use lemma_with_get;

    lemma_answer_keys();
    assert(dead()[0] == ReplyView::Script(ScriptView::NotLive));
}

/// A part of a text that is put together.
pub proof fn lemma_part(a: Seq<char>, part: Seq<char>, b: Seq<char>, whole: Seq<char>)
    requires
        whole =~= a + part + b,
    ensures
        is_part(whole, part),
{
    assert(whole == a + part + b);
}

/// The script of a gesture looks the element up by its selector, and does with it
/// what the gesture is: it sets the value to the text or puts the text behind it,
/// checks or unchecks, scrolls by the distance, clicks or focuses.
pub proof fn law_scripts_of_gestures_say_what_to_do(
    selector: Seq<char>,
    g: GestureView,
    text: Seq<char>,
    dy: i64,
)
    ensures
        is_part(
            gesture_script(selector, g),
            "const el = document.querySelector("@ + quoted(selector) + ")"@,
        ),
        is_part(
            gesture_script(selector, GestureView::Fill(text)),
            "el.value = "@ + quoted(text) + "; "@,
        ),
        is_part(
            gesture_script(selector, GestureView::Select(text)),
            "el.value = "@ + quoted(text) + "; "@,
        ),
        is_part(
            gesture_script(selector, GestureView::Type(text)),
            "el.value = String(el.value ?? '') + "@ + quoted(text) + "; "@,
        ),
        is_part(gesture_script(selector, GestureView::Check), "el.checked = true; "@),
        is_part(gesture_script(selector, GestureView::Uncheck), "el.checked = false; "@),
        is_part(
            gesture_script(selector, GestureView::Scroll(dy)),
            "el.scrollTop += "@ + signed_decimal(dy as int) + ";"@,
        ),
        is_part(gesture_script(selector, GestureView::Click), "el.click();"@),
        is_part(gesture_script(selector, GestureView::Focus), "el.focus();"@),
{
    let head = crate::script::around(
        "const el = document.querySelector("@,
        selector,
        "); if (!el) return false; "@,
    );
    let tail = " return true;"@;
    assert("); if (!el) return false; "@ =~= ")"@ + "; if (!el) return false; "@) by {
        reveal_strlit("); if (!el) return false; ");
        reveal_strlit(")");
        reveal_strlit("; if (!el) return false; ");
    }
    let none = Seq::<char>::empty();
    lemma_part(
        none,
        "const el = document.querySelector("@ + quoted(selector) + ")"@,
        "; if (!el) return false; "@ + crate::script::gesture_code(g) + tail,
        gesture_script(selector, g),
    );
    let events = crate::script::value_events();
    lemma_part(
        head,
        "el.value = "@ + quoted(text) + "; "@,
        events + tail,
        gesture_script(selector, GestureView::Fill(text)),
    );
    lemma_part(
        head,
        "el.value = "@ + quoted(text) + "; "@,
        events + tail,
        gesture_script(selector, GestureView::Select(text)),
    );
    assert("el.focus(); el.value = String(el.value ?? '') + "@ =~= "el.focus(); "@
        + "el.value = String(el.value ?? '') + "@) by {
        reveal_strlit("el.focus(); el.value = String(el.value ?? '') + ");
        reveal_strlit("el.focus(); ");
        reveal_strlit("el.value = String(el.value ?? '') + ");
    }
    lemma_part(
        head + "el.focus(); "@,
        "el.value = String(el.value ?? '') + "@ + quoted(text) + "; "@,
        crate::script::INPUT_EVENT@ + tail,
        gesture_script(selector, GestureView::Type(text)),
    );
    lemma_part(
        head,
        "el.checked = true; "@,
        events + tail,
        gesture_script(selector, GestureView::Check),
    );
    lemma_part(
        head,
        "el.checked = false; "@,
        events + tail,
        gesture_script(selector, GestureView::Uncheck),
    );
    lemma_part(
        head,
        "el.scrollTop += "@ + signed_decimal(dy as int) + ";"@,
        tail,
        gesture_script(selector, GestureView::Scroll(dy)),
    );
    lemma_part(head, "el.click();"@, tail, gesture_script(selector, GestureView::Click));
    lemma_part(head, "el.focus();"@, tail, gesture_script(selector, GestureView::Focus));
}

// ---------------------------------------------------------------------------
// Opening a browser

/// A browser is opened where no other kind of surface is named; everything else
/// that the request says stays.
pub proof fn law_open_split_opens_a_browser(params: Option<JsonView>, key: Seq<char>)
    requires
        params is Some ==> params->0 is Object,
    ensures
        param(params, "type"@) is None ==> param(with_browser_kind(params), "type"@) == Some(
            JsonView::Text("browser"@),
        ),
        param(params, "type"@) is Some ==> with_browser_kind(params) == params,
        key != "type"@ ==> param(with_browser_kind(params), key) == param(params, key),
{
    broadcast use lemma_with_get;

    let entries = crate::routing::param_entries(params);
    let before = crate::json::ObjectView { entries };
    assert(before.done() == JsonView::Object(entries));
    assert(before.with("type"@, JsonView::Text("browser"@)).done() == JsonView::Object(
        entries.push(("type"@, JsonView::Text("browser"@))),
    ));
    assert(before.done().get(key) == before.done().get(key));
    let opened = before.with("type"@, JsonView::Text("browser"@)).done();
    assert(opened.get("type"@) == opened.get("type"@));
    assert(opened.get(key) == opened.get(key));
    if params is None {
        assert(JsonView::Object(Seq::empty()).get(key) is None);
    }
}

} // verus!
