//! What the user is told.

use crate::app_state::{answered, refused, AppState, AppView, Turn};
use crate::json::{optional_ref_view, Json, JsonView, Object, ObjectView};
use crate::lists::group_views;
use crate::model::{NotificationRecord, NotificationView, StateView};
use crate::panes::{given_surface, given_surface_id, given_workspace, given_workspace_id};
use crate::records_json::{
    notification_json, notification_value, notifications_json, notifications_value,
};
use crate::rpc::{optional_string_param, raw_text, raw_text_param, text1, RpcError};
use crate::text::{trim, trimmed};
use crate::workspaces::{or_text, text_or, turn_of};
use vstd::prelude::*;

verus! {

/// The moment at which a request is worked off.
#[derive(Clone, Copy)]
pub struct Clock {
    pub nanos: u64,
    pub millis: u64,
}

/// The text under a key, trimmed; nothing where it is absent.
pub open spec fn plain_text(params: Option<JsonView>, key: Seq<char>) -> Seq<char> {
    match raw_text(params, key) {
        Some(s) => trimmed(s),
        None => Seq::empty(),
    }
}

/// The text under a key, trimmed; nothing where it is absent.
fn plain_text_param(params: Option<&Json>, key: &str) -> (r: String)
    ensures
        r@ == plain_text(optional_ref_view(params), key@),
{
    match raw_text_param(params, key) {
        Some(s) => trim(s.as_str()),
        None => String::new(),
    }
}

/// A new notification.
pub open spec fn notification_created(app: AppView, clock: Clock, params: Option<JsonView>) -> Turn {
    match given_workspace(app.state, params) {
        Err(e) => refused(app, e),
        Ok(workspace_id) => match given_surface(app.state, params) {
            Err(e) => refused(app, e),
            Ok(surface_id) => {
                let notification = NotificationView {
                    id: app.next_id("notification"@, clock.nanos),
                    title: or_text(text1(params, "title"@), "cmux"@),
                    subtitle: plain_text(params, "subtitle"@),
                    body: plain_text(params, "body"@),
                    workspace_id,
                    surface_id,
                    created_at_ms: clock.millis,
                    read: false,
                };
                answered(
                    app.counted().changed_to(
                        StateView {
                            notifications: app.state.notifications.push(notification),
                            ..app.state
                        },
                    ),
                    ObjectView::new().with(
                        "notification"@,
                        notification_value(notification),
                    ).done(),
                )
            },
        },
    }
}

/// All notifications.
pub open spec fn notifications_listed(app: AppView) -> JsonView {
    ObjectView::new().with("notifications"@, notifications_value(app.state.notifications)).done()
}

/// The shell without notifications.
pub open spec fn without_notifications(app: AppView) -> AppView {
    app.changed_to(StateView { notifications: Seq::empty(), ..app.state })
}

/// All notifications cleared.
pub open spec fn notifications_cleared(app: AppView) -> Turn {
    answered(
        without_notifications(app),
        ObjectView::new().with(
            "cleared"@,
            JsonView::Unsigned(app.state.notifications.len() as u64),
        ).done(),
    )
}

impl AppState {
    /// Adds a notification.
    pub fn create_notification(&mut self, params: Option<&Json>, clock: Clock) -> (r: Result<
        Json,
        RpcError,
    >)
        ensures
            turn_of(r, final(self)@) == notification_created(
                old(self)@,
                clock,
                optional_ref_view(params),
            ),
    {
        broadcast use group_views;

        let workspace_id = match given_workspace_id(&self.state, params) {
            Ok(id) => id,
            Err(e) => {
                return Err(e);
            },
        };
        let surface_id = match given_surface_id(&self.state, params) {
            Ok(id) => id,
            Err(e) => {
                return Err(e);
            },
        };
        let id = self.next_uuid("notification", clock.nanos);
        let notification = NotificationRecord {
            id,
            title: text_or(optional_string_param(params, "title"), "cmux"),
            subtitle: plain_text_param(params, "subtitle"),
            body: plain_text_param(params, "body"),
            workspace_id,
            surface_id,
            created_at_ms: clock.millis,
            read: false,
        };
        let value = notification_json(&notification);
        self.state.notifications.push(notification);
        self.mark_state_changed();
        Ok(Object::new().with("notification", value).done())
    }

    /// All notifications.
    pub fn list_notifications(&self) -> (r: Json)
        ensures
            r@ == notifications_listed(self@),
    {
        Object::new().with("notifications", notifications_json(&self.state.notifications)).done()
    }

    /// Clears all notifications.
    pub fn clear_notifications(&mut self) -> (r: Result<Json, RpcError>)
        ensures
            turn_of(r, final(self)@) == notifications_cleared(old(self)@),
    {
        broadcast use group_views;

        let count: usize = self.state.notifications.len();
        self.state.notifications.clear();
        self.mark_state_changed();
        Ok(Object::new().with("cleared", Json::count(count)).done())
    }

    /// Clears all notifications for the user.
    pub fn clear_notifications_for_ui(&mut self)
        ensures
            final(self)@ == without_notifications(old(self)@),
    {
        broadcast use group_views;

        self.state.notifications.clear();
        self.mark_state_changed();
    }
}

} // verus!
