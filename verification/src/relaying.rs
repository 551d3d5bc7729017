//! What live views are asked for, and what is made of their replies.

use crate::app_state::AppView;
use crate::automation::{
    dialog_step, download_step, events_step, frame_step, main_frame_step, screenshot_step, wants_accept,
};
use crate::browsing::{webview_focus_told, webview_focused};
use crate::host::{ActionView, CallView, ReplyView, StepView};
use crate::input::target_surface;
use crate::json::{integer_view, lemma_with_get, JsonView};
use crate::locate::reference_index;
use crate::model::SurfaceKind;
use crate::naming::{law_an_id_names_its_surface, law_an_id_names_its_workspace};
use crate::notifications::{notification_created, Clock};
use crate::patience::{is_part, law_a_text_holds_its_parts};
use crate::rpc::{param, raw_text, text1, text2, text4, Readings};
use crate::placing::is_pane_id;
use crate::soundness::all_whole;
use crate::surfaces::{focused_by_id, requested_surface};
use crate::surfacing::is_raised;
use crate::telling::lemma_answer_keys;
use crate::text::{lowered, trimmed};
use crate::webview::{dialog_value, download_value, events_value, DialogView, DownloadView, EventView, ScreenshotView};
use crate::workspaces::selected_by_id;
use vstd::prelude::*;

verus! {

// ---------------------------------------------------------------------------
// Dialogs

/// Whether a word says yes to a dialog.
pub open spec fn says_yes(word: Seq<char>) -> bool {
    word == "accept"@ || word == "ok"@ || word == "confirm"@ || word == "yes"@
}

/// Whether a word says no to a dialog.
pub open spec fn says_no(word: Seq<char>) -> bool {
    word == "dismiss"@ || word == "cancel"@ || word == "deny"@ || word == "no"@
}

/// What tells the words of dialogs apart.
proof fn lemma_words()
    ensures
        forall|word: Seq<char>| !(#[trigger] says_yes(word) && says_no(word)),
{
    reveal_strlit("accept");
    reveal_strlit("ok");
    reveal_strlit("confirm");
    reveal_strlit("yes");
    reveal_strlit("dismiss");
    reveal_strlit("cancel");
    reveal_strlit("deny");
    reveal_strlit("no");
    assert("accept"@.len() == 6 && "ok"@.len() == 2 && "confirm"@.len() == 7 && "yes"@.len() == 3);
    assert("dismiss"@.len() == 7 && "cancel"@.len() == 6 && "deny"@.len() == 4 && "no"@.len() == 2);
    assert("accept"@[0] == 'a' && "cancel"@[0] == 'c' && "ok"@[0] == 'o' && "no"@[0] == 'n'
        && "confirm"@[0] == 'c' && "dismiss"@[0] == 'd');
}

/// A dialog is answered as the request says: the view is told yes or no with the
/// text, and the answer says which it was. A request that does not say accepts,
/// and one that says neither is refused.
pub proof fn law_dialogs_are_answered_as_asked(
    surface_id: Seq<char>,
    params: Option<JsonView>,
    word: Seq<char>,
    d: DialogView,
)
    ensures
        ({
            let asked = dialog_step(surface_id, params, Seq::empty());
            let told = dialog_step(surface_id, params, seq![ReplyView::Dialog(Ok(d))]);
            let given = text2(params, "action"@, "response"@);
            &&& given == Some(word) && says_yes(lowered(word)) || given is None ==> {
                &&& asked matches StepView::Ask(call) && call.surface_id == surface_id
                    && call.action
                    == (ActionView::RespondToDialog {
                    accept: true,
                    prompt_text: text4(params, "prompt_text"@, "promptText"@, "text"@, "value"@),
                })
                &&& told matches StepView::Done(Ok(v)) && v.get("accepted"@) == Some(
                    JsonView::Bool(true),
                ) && v.get("dialog"@) == Some(dialog_value(d)) && v.get("surface_id"@) == Some(
                    JsonView::Text(surface_id),
                )
            }
            &&& given == Some(word) && says_no(lowered(word)) ==> {
                &&& asked matches StepView::Ask(call) && call.surface_id == surface_id
                    && call.action
                    == (ActionView::RespondToDialog {
                    accept: false,
                    prompt_text: text4(params, "prompt_text"@, "promptText"@, "text"@, "value"@),
                })
                &&& told matches StepView::Done(Ok(v)) && v.get("accepted"@) == Some(
                    JsonView::Bool(false),
                ) && v.get("dialog"@) == Some(dialog_value(d))
            }
            &&& given == Some(word) && !says_yes(lowered(word)) && !says_no(lowered(word)) ==> (
            asked matches StepView::Done(Err(e)) && e.code == -32602)
        }),
{
    broadcast use lemma_with_get;

    lemma_words();
    lemma_answer_keys();
    assert(says_yes(lowered("accept"@))) by {
        reveal_strlit("accept");
        assert(lowered("accept"@) =~= "accept"@);
    }
    let given = text2(params, "action"@, "response"@);
    if given == Some(word) && says_yes(lowered(word)) || given is None {
        assert(wants_accept(params) == Some(true));
    } else if given == Some(word) && says_no(lowered(word)) {
        assert(!says_yes(lowered(word)));
        assert(wants_accept(params) == Some(false));
    } else if given == Some(word) {
        assert(wants_accept(params) is None);
    }
    let replies = seq![ReplyView::Dialog(Ok::<DialogView, Seq<char>>(d))];
    assert(replies[0] == ReplyView::Dialog(Ok::<DialogView, Seq<char>>(d)));
}

// ---------------------------------------------------------------------------
// Downloads, frames, events and screenshots

/// A download that came is told; one that did not come in time and one that could
/// not be waited for are refused, each in its way.
pub proof fn law_a_download_is_told(
    surface_id: Seq<char>,
    params: Option<JsonView>,
    readings: Readings,
    d: DownloadView,
    e: Seq<char>,
)
    ensures
        download_step(surface_id, params, readings, Seq::empty()) matches StepView::Ask(call)
            && call.surface_id == surface_id && call.action is WaitForDownload,
        download_step(
            surface_id,
            params,
            readings,
            seq![ReplyView::Download(Ok(d))],
        ) matches StepView::Done(Ok(v)) && v.get("download"@) == Some(download_value(d)) && v.get(
            "surface_id"@,
        ) == Some(JsonView::Text(surface_id)),
        download_step(
            surface_id,
            params,
            readings,
            seq![ReplyView::Download(Err(e))],
        ) matches StepView::Done(Err(refusal))
            && (is_part(e, "timed out"@) ==> refusal.code == -32002
            && refusal.message == "timeout: "@ + e) && (!is_part(e, "timed out"@) ==> refusal.code
            == -32004 && refusal.message == e),
{
    broadcast use lemma_with_get;

    lemma_answer_keys();
    law_a_text_holds_its_parts(e, "timed out"@);
    let good = seq![ReplyView::Download(Ok::<DownloadView, Seq<char>>(d))];
    assert(good[0] == ReplyView::Download(Ok::<DownloadView, Seq<char>>(d)));
    let bad = seq![ReplyView::Download(Err::<DownloadView, Seq<char>>(e))];
    assert(bad[0] == ReplyView::Download(Err::<DownloadView, Seq<char>>(e)));
}

/// Events are told under the key that they were asked for, in their order.
pub proof fn law_events_are_told(
    surface_id: Seq<char>,
    action: ActionView,
    key: Seq<char>,
    events: Seq<EventView>,
    live: bool,
)
    requires
        key != "surface_id"@,
        key != "live_webview"@,
    ensures
        events_step(surface_id, action, key, Seq::empty()) == StepView::Ask(
            CallView { surface_id, action },
        ),
        events_step(
            surface_id,
            action,
            key,
            seq![ReplyView::Events(events), ReplyView::Flag(live)],
        ) matches StepView::Done(Ok(v)) && v.get(key) == Some(events_value(events)) && v.get(
            "surface_id"@,
        ) == Some(JsonView::Text(surface_id)) && v.get("live_webview"@) == Some(
            JsonView::Bool(live),
        ),
{
    broadcast use lemma_with_get;

    lemma_answer_keys();
    let replies = seq![ReplyView::Events(events), ReplyView::Flag(live)];
    assert(replies[0] == ReplyView::Events(events) && replies[1] == ReplyView::Flag(live));
}

/// A frame that is selected is told by its selector; one that cannot be used is
/// refused.
pub proof fn law_frames_are_told(
    surface_id: Seq<char>,
    params: Option<JsonView>,
    selector: Seq<char>,
    e: Seq<char>,
    live: bool,
)
    requires
        text2(params, "selector"@, "frame"@) == Some(selector),
    ensures
        frame_step(surface_id, params, Seq::empty()) == StepView::Ask(
            CallView { surface_id, action: ActionView::SelectFrame(selector) },
        ),
        frame_step(surface_id, params, seq![ReplyView::Frame(Ok(()))]) matches StepView::Done(Ok(v))
            && v.get("frame"@) == Some(JsonView::Text(selector)),
        frame_step(surface_id, params, seq![ReplyView::Frame(Err(e))]) matches StepView::Done(
            Err(refusal),
        ) && refusal.message == e,
        main_frame_step(surface_id, Seq::empty()) == StepView::Ask(
            CallView { surface_id, action: ActionView::SelectMainFrame },
        ),
        main_frame_step(
            surface_id,
            seq![ReplyView::Flag(live), ReplyView::Text(None)],
        ) matches StepView::Done(Ok(v)) && v.get("frame"@) == Some(JsonView::Text("main"@))
            && v.get(
            "live_webview"@,
        ) == Some(JsonView::Bool(live)),
        main_frame_step(
            surface_id,
            seq![ReplyView::Flag(live), ReplyView::Text(Some(selector))],
        ) matches StepView::Done(Ok(v)) && v.get("frame"@) == Some(JsonView::Text(selector)),
{
    broadcast use lemma_with_get;

    lemma_answer_keys();
    let good = seq![ReplyView::Frame(Ok::<(), Seq<char>>(()))];
    assert(good[0] == ReplyView::Frame(Ok::<(), Seq<char>>(())));
    let bad = seq![ReplyView::Frame(Err::<(), Seq<char>>(e))];
    assert(bad[0] == ReplyView::Frame(Err::<(), Seq<char>>(e)));
    let main = seq![ReplyView::Flag(live), ReplyView::Text(None)];
    assert(main[0] == ReplyView::Flag(live) && main[1] == ReplyView::Text(None));
    let other = seq![ReplyView::Flag(live), ReplyView::Text(Some(selector))];
    assert(other[0] == ReplyView::Flag(live) && other[1] == ReplyView::Text(Some(selector)));
}

/// A screenshot of a live page is told as it was taken, its width as its width and
/// its height as its height.
pub proof fn law_screenshots_are_told_as_taken(
    surface_id: Seq<char>,
    params: Option<JsonView>,
    readings: Readings,
    shot: ScreenshotView,
)
    ensures
        screenshot_step(
            surface_id,
            params,
            readings,
            seq![ReplyView::Screenshot(Some(Ok(shot)))],
        ) matches StepView::Done(Ok(v)) && {
            &&& v.get("surface_id"@) == Some(JsonView::Text(surface_id))
            &&& v.get("png_base64"@) == Some(JsonView::Text(shot.png_base64))
            &&& v.get("width"@) == Some(integer_view(shot.width as i64))
            &&& v.get("height"@) == Some(integer_view(shot.height as i64))
            &&& v.get("full_page"@) == Some(JsonView::Bool(shot.full_page))
            &&& v.get("live_webview"@) == Some(JsonView::Bool(true))
        },
        screenshot_step(
            surface_id,
            params,
            readings,
            seq![ReplyView::Screenshot(None)],
        ) matches StepView::Done(Ok(v)) && v.get("live_webview"@) == Some(JsonView::Bool(false)),
{
    broadcast use lemma_with_get;

    lemma_answer_keys();
    reveal_strlit("png_base64");
    reveal_strlit("width");
    reveal_strlit("height");
    reveal_strlit("full_page");
    assert("png_base64"@.len() == 10 && "png_base64"@[0] == 'p' && "width"@.len() == 5
        && "height"@.len() == 6 && "full_page"@.len() == 9);
    let good = seq![ReplyView::Screenshot(Some(Ok::<ScreenshotView, Seq<char>>(shot)))];
    assert(good[0] == ReplyView::Screenshot(Some(Ok::<ScreenshotView, Seq<char>>(shot))));
    let none = seq![ReplyView::Screenshot(None)];
    assert(none[0] == ReplyView::Screenshot(None));
}

/// A screenshot is of the whole page where the request says so, and takes five
/// seconds at most unless it says otherwise; a download is waited for half a
/// minute.
pub proof fn law_views_are_given_time(
    surface_id: Seq<char>,
    params: Option<JsonView>,
    readings: Readings,
    whole: bool,
)
    requires
        param(params, "timeout_ms"@) is None,
        param(params, "timeoutMs"@) is None,
        param(params, "timeout"@) is None,
    ensures
        param(params, "full_page"@) == Some(JsonView::Bool(whole)) ==> screenshot_step(
            surface_id,
            params,
            readings,
            Seq::empty(),
        ) == StepView::Ask(
            CallView {
                surface_id,
                action: ActionView::Screenshot { full_page: whole, timeout_ms: 5000 },
            },
        ),
        param(params, "full_page"@) is None && param(params, "fullPage"@) is None
            ==> screenshot_step(surface_id, params, readings, Seq::empty()) == StepView::Ask(
            CallView {
                surface_id,
                action: ActionView::Screenshot { full_page: false, timeout_ms: 5000 },
            },
        ),
        download_step(surface_id, params, readings, Seq::empty()) == StepView::Ask(
            CallView { surface_id, action: ActionView::WaitForDownload { timeout_ms: 30000 } },
        ),
{
}

// ---------------------------------------------------------------------------
// The focus

/// Whether a surface has the focus is told: it has where it is the active one.
pub proof fn law_the_focus_of_a_view_is_told(app: AppView, params: Option<JsonView>, live: bool)
    requires
        target_surface(app.state, params) is Ok,
    ensures
        ({
            let id = target_surface(app.state, params)->Ok_0;
            webview_focus_told(app, params, seq![ReplyView::Flag(live)]) matches StepView::Done(
                Ok(v),
            ) && v.get("focused"@) == Some(JsonView::Bool(app.state.active_surface_id == Some(id)))
                && v.get("surface_id"@) == Some(JsonView::Text(id)) && v.get("live_webview"@)
                == Some(JsonView::Bool(live))
        }),
{
    broadcast use lemma_with_get;

    lemma_answer_keys();
    let replies = seq![ReplyView::Flag(live)];
    assert(replies[0] == ReplyView::Flag(live));
}

/// A view that gets the focus is asked to take it, and its surface is then the
/// active one, on top of its pane.
pub proof fn law_a_view_gets_the_focus(
    app: AppView,
    params: Option<JsonView>,
    replies: Seq<ReplyView>,
)
    requires
        all_whole(app.state.workspaces),
        requested_surface(app.state, params) is Ok,
        replies.len() == 2,
    ensures
        ({
            let (w, i) = requested_surface(app.state, params)->Ok_0;
            let surface = app.state.workspaces[w].surfaces[i];
            let turn = webview_focused(app, params, replies);
            &&& is_pane_id(app.state, surface.pane_id) ==> is_raised(
                app.state,
                turn.app.state,
                surface,
            )
            &&& surface.kind == SurfaceKind::Browser ==> (webview_focused(
                app,
                params,
                Seq::empty(),
            ).step matches StepView::Ask(call) && call.surface_id == surface.id && call.action
                == ActionView::BrowserFocus)
        }),
{
    let (w, i) = requested_surface(app.state, params)->Ok_0;
    let surface = app.state.workspaces[w].surfaces[i];
    if is_pane_id(app.state, surface.pane_id) {
        crate::surfacing::lemma_raised(app.state, surface);
    }
}

/// A surface that the user focuses has the focus, with its pane and workspace.
pub proof fn law_a_surface_focused_by_hand_has_the_focus(app: AppView, w: int, i: int)
    requires
        all_whole(app.state.workspaces),
        0 <= w < app.state.workspaces.len(),
        0 <= i < app.state.workspaces[w].surfaces.len(),
    ensures
        ({
            let surface = app.state.workspaces[w].surfaces[i];
            let (said, after) = focused_by_id(app, surface.id);
            &&& said is Ok
            &&& after.state.active_surface_id == Some(surface.id)
            &&& after.state.active_pane_id == Some(surface.pane_id)
            &&& after.state.active_workspace_id == Some(surface.workspace_id)
            &&& forall|p: int|
                0 <= p < app.state.workspaces[w].panes.len() && (
                #[trigger] app.state.workspaces[w].panes[p]).id == surface.pane_id ==> exists|q: int|
                    0 <= q < after.state.workspaces[w].panes.len() && (
                    #[trigger] after.state.workspaces[w].panes[q]).id == surface.pane_id
                        && after.state.workspaces[w].panes[q].active_surface_id == Some(surface.id)
        }),
{
    law_an_id_names_its_surface(app.state, w, i);
    let surface = app.state.workspaces[w].surfaces[i];
    let panes = app.state.workspaces[w].panes;
    let ids = crate::model::pane_ids(panes);
    let (said, after) = focused_by_id(app, surface.id);
    crate::lists::lemma_first_from(ids, surface.pane_id, 0);
    assert forall|p: int| 0 <= p < panes.len() && (#[trigger] panes[p]).id
        == surface.pane_id implies exists|q: int|
        0 <= q < after.state.workspaces[w].panes.len() && (
        #[trigger] after.state.workspaces[w].panes[q]).id == surface.pane_id
            && after.state.workspaces[w].panes[q].active_surface_id == Some(surface.id) by {
        assert(ids[p] == surface.pane_id);
        let q = crate::lists::first_at(ids, surface.pane_id)->0;
        assert(ids[q] == panes[q].id);
        assert(after.state.workspaces[w].panes[q].active_surface_id == Some(surface.id));
    }
}

/// A workspace that the user selects by its id, which is no reference, has the
/// focus, with its first pane and the surface on top of that.
pub proof fn law_a_workspace_selected_by_hand_has_the_focus(app: AppView, w: int)
    requires
        0 <= w < app.state.workspaces.len(),
        reference_index(app.state.workspaces[w].id, "workspace"@) is None,
        forall|v: int|
            0 <= v < w ==> (#[trigger] app.state.workspaces[v]).id != app.state.workspaces[w].id,
    ensures
        ({
            let workspace = app.state.workspaces[w];
            let (said, after) = selected_by_id(app, workspace.id);
            &&& said is Ok
            &&& after.state.workspaces == app.state.workspaces
            &&& after.state.active_workspace_id == Some(workspace.id)
            &&& workspace.panes.len() > 0 ==> after.state.active_pane_id == Some(
                workspace.panes[0].id,
            )
            &&& workspace.panes.len() > 0 && workspace.panes[0].active_surface_id is Some
                ==> after.state.active_surface_id == workspace.panes[0].active_surface_id
        }),
{
    law_an_id_names_its_workspace(app.state, w);
}

// ---------------------------------------------------------------------------
// Notifications

/// A notification says what the request says: its title, or the name of the
/// program, its subtitle and its body, without the white space around them, when
/// it was made and that it is new.
pub proof fn law_a_notification_says_what_was_asked(
    app: AppView,
    clock: Clock,
    params: Option<JsonView>,
)
    requires
        notification_created(app, clock, params).step matches StepView::Done(Ok(_)),
    ensures
        ({
            let after = notification_created(app, clock, params).app.state;
            let n = after.notifications.last();
            &&& text1(params, "title"@) matches Some(t) ==> n.title == t
            &&& text1(params, "title"@) is None ==> n.title == "cmux"@
            &&& raw_text(params, "subtitle"@) matches Some(t) ==> n.subtitle == trimmed(t)
            &&& raw_text(params, "subtitle"@) is None ==> n.subtitle.len() == 0
            &&& raw_text(params, "body"@) matches Some(t) ==> n.body == trimmed(t)
            &&& raw_text(params, "body"@) is None ==> n.body.len() == 0
            &&& n.created_at_ms == clock.millis
            &&& !n.read
            &&& crate::panes::given_workspace(app.state, params) == Ok::<
                Option<Seq<char>>,
                crate::rpc::ErrorView,
            >(n.workspace_id)
            &&& crate::panes::given_surface(app.state, params) == Ok::<
                Option<Seq<char>>,
                crate::rpc::ErrorView,
            >(n.surface_id)
            &&& after.workspaces == app.state.workspaces
            &&& after.active_workspace_id == app.state.active_workspace_id
            &&& after.active_pane_id == app.state.active_pane_id
            &&& after.active_surface_id == app.state.active_surface_id
        }),
{
}

} // verus!
