//! The words that the window shows.

use crate::text::same;
use vstd::prelude::*;

verus! {

/// The words under a key; the name of the program where there are none.
pub open spec fn wording(key: Seq<char>) -> Seq<char> {
    if key == "app.title"@ {
        "cmux"@
    } else if key == "sidebar.workspaces"@ {
        "Workspaces"@
    } else if key == "sidebar.newWorkspace"@ {
        "New workspace"@
    } else if key == "sidebar.socket"@ {
        "Socket"@
    } else if key == "sidebar.notifications.none"@ {
        "No notifications"@
    } else if key == "sidebar.notifications.one"@ {
        "1 notification"@
    } else if key == "sidebar.notifications.clear"@ {
        "Clear notifications"@
    } else if key == "workspace.empty"@ {
        "No workspace"@
    } else if key == "pane.empty"@ {
        "Empty pane"@
    } else if key == "surface.markdown"@ {
        "Markdown"@
    } else {
        "cmux"@
    }
}

/// The words under a key.
pub fn tr(key: &str) -> (r: &'static str)
    ensures
        r@ == wording(key@),
{
    if same(key, "app.title") {
        "cmux"
    } else if same(key, "sidebar.workspaces") {
        "Workspaces"
    } else if same(key, "sidebar.newWorkspace") {
        "New workspace"
    } else if same(key, "sidebar.socket") {
        "Socket"
    } else if same(key, "sidebar.notifications.none") {
        "No notifications"
    } else if same(key, "sidebar.notifications.one") {
        "1 notification"
    } else if same(key, "sidebar.notifications.clear") {
        "Clear notifications"
    } else if same(key, "workspace.empty") {
        "No workspace"
    } else if same(key, "pane.empty") {
        "Empty pane"
    } else if same(key, "surface.markdown") {
        "Markdown"
    } else {
        "cmux"
    }
}

} // verus!
