//! What holds of every request.

use crate::app_state::{next_revision, AppView, Turn};
use crate::automation::automated;
use crate::browsing::{history_stepped, navigated, webview_focused, HistoryStep};
use crate::dispatch::{line_turn, AnswerView};
use crate::host::{ReplyView, StepView};
use crate::input::{history_cleared, sent, Sending};
use crate::json::JsonView;
use crate::moving::surface_moved;
use crate::notifications::{notification_created, notifications_cleared, Clock};
use crate::panes::{pane_created, pane_focused, pane_resized, panes_swapped};
use crate::routing::{browser_turn, method_turn, notification_turn, pane_turn, surface_turn, workspace_turn};
use crate::rpc::{Readings, RequestView};
use crate::surfaces::{surface_closed, surface_created, surface_focused};
use crate::system::SurroundingsView;
use crate::workspaces::{
    splits_equalized, workspace_closed, workspace_created, workspace_renamed, workspace_selected,
};
use vstd::prelude::*;

verus! {

// ---------------------------------------------------------------------------
// Revisions

/// Whether a turn is in order: one that asks or refuses changes nothing; one
/// that changes the state makes the next revision of it, which is not written
/// out yet; and none changes the window.
pub open spec fn is_orderly(before: AppView, turn: Turn) -> bool {
    &&& !(turn.step matches StepView::Done(Ok(_))) ==> turn.app == before
    &&& turn.app == before || (turn.app.state.revision == next_revision(before.state.revision)
        && turn.app.unsaved)
    &&& turn.app.window_id == before.window_id
}

/// The turns about workspaces are in order.
proof fn lemma_workspace_orderly(app: AppView, method: Seq<char>, params: Option<JsonView>, clock: Clock)
    ensures
        workspace_turn(app, method, params, clock) matches Some(turn) ==> is_orderly(app, turn),
{
    assert(is_orderly(app, workspace_created(app, clock.nanos, params)));
    assert(is_orderly(app, workspace_selected(app, params)));
    assert(is_orderly(app, workspace_closed(app, params)));
    assert(is_orderly(app, workspace_renamed(app, params)));
    assert(is_orderly(app, splits_equalized(app, params)));
}

/// The turns about notifications are in order.
proof fn lemma_notification_orderly(
    app: AppView,
    method: Seq<char>,
    params: Option<JsonView>,
    clock: Clock,
)
    ensures
        notification_turn(app, method, params, clock) matches Some(turn) ==> is_orderly(app, turn),
{
    assert(is_orderly(app, notification_created(app, clock, params)));
    assert(is_orderly(app, notifications_cleared(app)));
}

/// The turns about surfaces are in order.
proof fn lemma_surface_orderly(
    app: AppView,
    method: Seq<char>,
    params: Option<JsonView>,
    clock: Clock,
    replies: Seq<ReplyView>,
)
    ensures
        surface_turn(app, method, params, clock, replies) matches Some(turn) ==> is_orderly(
            app,
            turn,
        ),
{
    assert(is_orderly(app, surface_created(app, clock.nanos, params)));
    assert(is_orderly(app, surface_focused(app, params, replies)));
    assert(is_orderly(app, surface_closed(app, params, replies)));
    assert(is_orderly(app, surface_moved(app, params)));
    assert(is_orderly(app, sent(app, params, Sending::Text, replies)));
    assert(is_orderly(app, sent(app, params, Sending::Key, replies)));
    assert(is_orderly(app, history_cleared(app, params, replies)));
}

/// The turns about panes are in order.
proof fn lemma_pane_orderly(
    app: AppView,
    method: Seq<char>,
    params: Option<JsonView>,
    readings: Readings,
    clock: Clock,
)
    ensures
        pane_turn(app, method, params, readings, clock) matches Some(turn) ==> is_orderly(app, turn),
{
    assert(is_orderly(app, pane_created(app, clock.nanos, params)));
    assert(is_orderly(app, pane_focused(app, params)));
    assert(is_orderly(app, panes_swapped(app, params)));
    assert(is_orderly(app, pane_resized(app, params, readings)));
}

/// The turns about browsers are in order.
proof fn lemma_browser_orderly(
    app: AppView,
    method: Seq<char>,
    params: Option<JsonView>,
    readings: Readings,
    clock: Clock,
    replies: Seq<ReplyView>,
)
    ensures
        browser_turn(app, method, params, readings, clock, replies) matches Some(turn)
            ==> is_orderly(app, turn),
{
    let opened = crate::routing::with_browser_kind(params);
    assert(is_orderly(app, pane_created(app, clock.nanos, opened)));
    assert(is_orderly(app, navigated(app, params, replies)));
    assert(is_orderly(app, history_stepped(app, params, HistoryStep::Back, replies)));
    assert(is_orderly(app, history_stepped(app, params, HistoryStep::Forward, replies)));
    assert(is_orderly(app, webview_focused(app, params, replies)));
    assert(is_orderly(app, automated(app, method, params, readings, replies)));
}

/// Every turn is in order: one that asks or refuses changes nothing; one that
/// changes the state makes the next revision of it, which is not written out
/// yet; and none changes the window.
pub proof fn law_every_turn_is_orderly(
    app: AppView,
    method: Seq<char>,
    params: Option<JsonView>,
    readings: Readings,
    surroundings: SurroundingsView,
    clock: Clock,
    replies: Seq<ReplyView>,
)
    ensures
        method_turn(app, method, params, readings, surroundings, clock, replies) matches Some(turn)
            ==> is_orderly(app, turn) && turn.app.state.revision >= app.state.revision,
{
    lemma_workspace_orderly(app, method, params, clock);
    lemma_notification_orderly(app, method, params, clock);
    lemma_surface_orderly(app, method, params, clock, replies);
    lemma_pane_orderly(app, method, params, readings, clock);
    lemma_browser_orderly(app, method, params, readings, clock, replies);
}

/// Every line is answered in order: one that needs more from the window, and
/// one that is refused, changes nothing; one that changes the state makes the
/// next revision of it, which is not written out yet; and none changes the
/// window.
pub proof fn law_every_line_is_orderly(
    app: AppView,
    line: Seq<char>,
    request: Option<RequestView>,
    surroundings: SurroundingsView,
    clock: Clock,
    replies: Seq<ReplyView>,
)
    ensures
        ({
            let turn = line_turn(app, line, request, surroundings, clock, replies);
            &&& turn.answer is Ask ==> turn.app == app
            &&& turn.answer matches AnswerView::Response(r) ==> r.error is Some ==> turn.app == app
            &&& turn.app == app || (turn.app.state.revision == next_revision(app.state.revision)
                && turn.app.unsaved)
            &&& turn.app.window_id == app.window_id
        }),
{
    match request {
        Some(r) => {
            law_every_turn_is_orderly(
                app,
                r.method,
                r.params,
                r.readings,
                surroundings,
                clock,
                replies,
            );
        },
        None => {},
    }
}

/// Every request that needs nothing more from the window is answered by one
/// response, which carries its id and says either what came of it or why it was
/// refused.
pub proof fn law_every_request_has_one_answer(
    app: AppView,
    line: Seq<char>,
    request: RequestView,
    surroundings: SurroundingsView,
    clock: Clock,
    replies: Seq<ReplyView>,
)
    ensures
        match line_turn(app, line, Some(request), surroundings, clock, replies).answer {
            AnswerView::Ask(_) => true,
            AnswerView::Line(_) => false,
            AnswerView::Response(r) => {
                &&& r.jsonrpc == "2.0"@
                &&& r.id == request.id
                &&& r.ok == (r.result is Some)
                &&& r.ok == (r.error is None)
            },
        },
{
}

} // verus!
