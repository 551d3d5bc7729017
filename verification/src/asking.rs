//! What requests say, and how things are told in full.

use crate::ghostty::{
    candidate_views, health_value, probed, status_value, CandidateView, GhosttyGtkSurfaceHealth,
    GhosttyStatusView, Probe,
};
use crate::host::{
    evaluated, script_value, value_of_text, ActionView, CallView, Heard, ReplyView, ScriptView,
};
use crate::i18n::wording;
use crate::ids::{hex_digits, id_text};
use crate::json::{
    hex_char, integer_view, lemma_with_get, optional_text_view, texts_value, JsonView, ObjectView,
};
use crate::layout::{LayoutView, SplitDirection};
use crate::model::{kind_text, NotificationView, PaneView, SurfaceView, WorkspaceView};
use crate::page::{ElementView, PageView};
use crate::page_json::{attrs_value, element_value, elements_value, page_value};
use crate::reading::usual_style;
use crate::records_json::{
    layout_value, notification_value, pane_value, ratio_value, surface_value, workspace_value,
};
use crate::rpc::{
    answer, count_of, flag_of, invalid, not_found, param, required, text1, text2, text3, text4, timed_out,
    timeout_of, unsupported, ErrorView, Readings,
};
use crate::system::{app_status, capabilities, features, SurroundingsView};
use crate::terminal::{ghostty_status_view, pty_status_view, terminal_value, TerminalStatusView};
use crate::text::{decimal, lowered, trimmed};
use vstd::prelude::*;

verus! {

// ---------------------------------------------------------------------------
// Parameters

/// A text under a key counts without the white space around it, and not at all
/// where nothing is left of it. Of several keys the first with a text counts.
pub proof fn law_texts_are_taken_by_their_keys(
    params: Option<JsonView>,
    a: Seq<char>,
    b: Seq<char>,
    c: Seq<char>,
    d: Seq<char>,
    s: Seq<char>,
)
    ensures
        param(params, a) == Some(JsonView::Text(s))
            && trimmed(s).len() > 0 ==> text1(params, a) == Some(
            trimmed(s),
        ),
        param(params, a) == Some(JsonView::Text(s)) && trimmed(s).len() == 0 ==> text1(
            params,
            a,
        ) is None,
        param(params, a) is None ==> text1(params, a) is None,
        (param(params, a) matches Some(v) && v !is Text) ==> text1(params, a) is None,
        text1(params, a) matches Some(t) ==> text2(params, a, b) == Some(t)
            && text3(params, a, b, c)
            == Some(t) && text4(params, a, b, c, d) == Some(t),
        text1(params, a) is None ==> text2(params, a, b) == text1(params, b)
            && text3(params, a, b, c)
            == text2(params, b, c) && text4(params, a, b, c, d) == text3(params, b, c, d),
{
}

/// What tells the words for yes and no apart.
proof fn lemma_yes_and_no()
    ensures
        "1"@.len() == 1 && "1"@[0] == '1',
        "true"@.len() == 4 && "true"@[0] == 't',
        "yes"@.len() == 3 && "yes"@[0] == 'y',
        "on"@.len() == 2 && "on"@[0] == 'o',
        "0"@.len() == 1 && "0"@[0] == '0',
        "false"@.len() == 5 && "false"@[0] == 'f',
        "no"@.len() == 2 && "no"@[0] == 'n',
        "off"@.len() == 3 && "off"@[0] == 'o',
{
    reveal_strlit("1");
    reveal_strlit("true");
    reveal_strlit("yes");
    reveal_strlit("on");
    reveal_strlit("0");
    reveal_strlit("false");
    reveal_strlit("no");
    reveal_strlit("off");
}

/// Truth values count as they are, and so do the words for them in any spelling;
/// other words and other values say nothing.
pub proof fn law_words_for_yes_and_no(b: bool, s: Seq<char>, n: u64)
    ensures
        flag_of(JsonView::Bool(b)) == Some(b),
        ({
            let word = lowered(trimmed(s));
            let yes = word == "1"@ || word == "true"@ || word == "yes"@ || word == "on"@;
            let no = word == "0"@ || word == "false"@ || word == "no"@ || word == "off"@;
            &&& yes ==> flag_of(JsonView::Text(s)) == Some(true)
            &&& no ==> flag_of(JsonView::Text(s)) == Some(false)
            &&& !yes && !no ==> flag_of(JsonView::Text(s)) is None
        }),
        flag_of(JsonView::Unsigned(n)) is None,
        flag_of(JsonView::Null) is None,
{
    lemma_yes_and_no();
}

/// Counts are read from numbers and from what is written in decimal.
pub proof fn law_counts_are_read(n: usize)
    ensures
        count_of(JsonView::Unsigned(n as u64)) == Some(n),
        trimmed(decimal(n as nat)) == decimal(n as nat) ==> count_of(
            JsonView::Text(decimal(n as nat)),
        ) == Some(n),
        count_of(JsonView::Null) is None,
        count_of(JsonView::Bool(true)) is None,
{
    crate::naming::law_written_numbers_are_read_back(n as nat, usize::MAX as nat);
}

/// A time that the request gives counts, and the usual one where it gives none.
pub proof fn law_times_are_taken_as_given(
    params: Option<JsonView>,
    readings: Readings,
    usual: u64,
    ms: u64,
)
    ensures
        param(params, "timeout_ms"@) is Some && readings.timeout_ms == Some(ms) ==> timeout_of(
            params,
            readings,
            usual,
        ) == ms,
        param(params, "timeout_ms"@) is None && param(params, "timeoutMs"@) is Some
            && readings.timeout_ms_camel == Some(ms) ==> timeout_of(params, readings, usual) == ms,
        param(params, "timeout_ms"@) is None && param(params, "timeoutMs"@) is None && param(
            params,
            "timeout"@,
        ) is Some && readings.timeout == Some(ms) ==> timeout_of(params, readings, usual) == ms,
        param(params, "timeout_ms"@) is None && param(params, "timeoutMs"@) is None && param(
            params,
            "timeout"@,
        ) is None ==> timeout_of(params, readings, usual) == usual,
{
}

/// An answer carries the id of the request, and either the value or the refusal;
/// refusals of each kind have their own code.
pub proof fn law_answers_carry_what_came_of_it(
    id: Option<JsonView>,
    value: JsonView,
    error: ErrorView,
    message: Seq<char>,
)
    ensures
        answer(id, Ok(value)).id == id && answer(id, Err(error)).id == id,
        answer(id, Ok(value)).ok && answer(id, Ok(value)).result == Some(value) && answer(
            id,
            Ok(value),
        ).error is None,
        !answer(id, Err(error)).ok && answer(id, Err(error)).error == Some(error) && answer(
            id,
            Err(error),
        ).result is None,
        answer(id, Ok(value)).jsonrpc == "2.0"@ && answer(id, Err(error)).jsonrpc == "2.0"@,
        invalid(message).code == -32602
            && invalid(message).message == "invalid_params: "@ + message,
        unsupported(message).code == -32004 && unsupported(message).message == message,
        not_found(message).code == -32004,
        timed_out(message).code == -32002 && timed_out(message).message == "timeout: "@ + message,
        required(Some(message), "name"@) == Ok::<Seq<char>, ErrorView>(message),
        required(None, message) matches Err(e) && e.code == -32602 && e.message
            == "invalid_params: "@ + (message + " is required"@),
{
}

// ---------------------------------------------------------------------------
// Scripts

/// What a live page says is the value that it writes; nothing and `undefined` are
/// null, and what writes no value is a text.
pub proof fn law_values_of_scripts(text: Seq<char>, value: JsonView)
    ensures
        value_of_text(Seq::empty(), Some(value)) == JsonView::Null,
        value_of_text("undefined"@, Some(value)) == JsonView::Null,
        text.len() > 0 && text != "undefined"@ ==> value_of_text(text, Some(value)) == value,
        text.len() > 0
            && text != "undefined"@ ==> value_of_text(text, None) == JsonView::Text(text),
{
}

/// A script is tried as an expression and, where that fails, as statements; a page
/// that is not live is not asked again.
pub proof fn law_scripts_are_tried_twice(
    surface_id: Seq<char>,
    script: Seq<char>,
    text: Seq<char>,
    error: Seq<char>,
)
    ensures
        evaluated(Seq::empty(), 0, surface_id, script) == Heard::<Option<JsonView>>::Ask(
            CallView { surface_id, action: ActionView::Expression(script) },
        ),
        evaluated(
            seq![ReplyView::Script(ScriptView::Text(text))],
            0,
            surface_id,
            script,
        ) == Heard::<Option<JsonView>>::Got(Some(script_value(text)), 1),
        evaluated(
            seq![ReplyView::Script(ScriptView::NotLive)],
            0,
            surface_id,
            script,
        ) == Heard::<Option<JsonView>>::Got(None, 1),
        evaluated(
            seq![ReplyView::Script(ScriptView::Failed(error))],
            0,
            surface_id,
            script,
        ) == Heard::<Option<JsonView>>::Ask(
            CallView { surface_id, action: ActionView::Statement(script) },
        ),
        evaluated(
            seq![
                ReplyView::Script(ScriptView::Failed(error)),
                ReplyView::Script(ScriptView::Text(text)),
            ],
            0,
            surface_id,
            script,
        ) == Heard::<Option<JsonView>>::Got(Some(script_value(text)), 2),
{
    assert(seq![ReplyView::Script(ScriptView::Text(text))][0] == ReplyView::Script(
        ScriptView::Text(text),
    ));
    assert(seq![ReplyView::Script(ScriptView::NotLive)][0] == ReplyView::Script(
        ScriptView::NotLive,
    ));
    assert(seq![ReplyView::Script(ScriptView::Failed(error))][0] == ReplyView::Script(
        ScriptView::Failed(error),
    ));
    let both = seq![
        ReplyView::Script(ScriptView::Failed(error)),
        ReplyView::Script(ScriptView::Text(text)),
    ];
    assert(both[0] == ReplyView::Script(ScriptView::Failed(error)));
    assert(both[1] == ReplyView::Script(ScriptView::Text(text)));
}

/// Without a live page a hidden element has no display and the others are blocks.
pub proof fn law_usual_styles(selector: Seq<char>)
    ensures
        usual_style("#hidden"@, "display"@) == JsonView::Text("none"@),
        selector != "#hidden"@ ==> usual_style(selector, "display"@) == JsonView::Text("block"@),
        usual_style("#style-target"@, "color"@) == JsonView::Text("rgb(255, 0, 0)"@),
        selector != "#style-target"@ ==> usual_style(selector, "color"@) == JsonView::Text(
            "rgb(0, 0, 0)"@,
        ),
{
    reveal_strlit("display");
    reveal_strlit("color");
    assert("display"@.len() == 7 && "color"@.len() == 5);
}

// ---------------------------------------------------------------------------
// Things told in full

/// A page is told with all that is known of it.
pub proof fn law_pages_are_told_in_full(p: PageView)
    ensures
        page_value(p).get("html"@) == Some(JsonView::Text(p.html)),
        page_value(p).get("title"@) == Some(JsonView::Text(p.title)),
        p.active_element_id is None ==> page_value(p).get("activeElementId"@) == Some(JsonView::Null),
        p.active_element_id is Some ==> page_value(p).get("activeElementId"@) == Some(JsonView::Text(p.active_element_id->0)),
        page_value(p).get("pageScrollY"@) == Some(integer_view(p.page_scroll_y)),
        page_value(p).get("hoverCount"@) == Some(JsonView::Unsigned(p.hover_count)),
        page_value(p).get("dblCount"@) == Some(JsonView::Unsigned(p.dbl_count)),
        page_value(p).get("keyDownCount"@) == Some(JsonView::Unsigned(p.key_down_count)),
        page_value(p).get("keyUpCount"@) == Some(JsonView::Unsigned(p.key_up_count)),
        page_value(p).get("keyPressCount"@) == Some(JsonView::Unsigned(p.key_press_count)),
        page_value(p).get("elements"@) == Some(elements_value(p.elements)),
{
    broadcast use lemma_with_get;

    reveal_strlit("html");
    reveal_strlit("title");
    reveal_strlit("activeElementId");
    reveal_strlit("pageScrollY");
    reveal_strlit("hoverCount");
    reveal_strlit("dblCount");
    reveal_strlit("keyDownCount");
    reveal_strlit("keyUpCount");
    reveal_strlit("keyPressCount");
    reveal_strlit("elements");
    assert("html"@.len() == 4 && "html"@[0] == 'h');
    assert("title"@.len() == 5 && "title"@[0] == 't');
    assert("activeElementId"@.len() == 15 && "activeElementId"@[0] == 'a');
    assert("pageScrollY"@.len() == 11 && "pageScrollY"@[0] == 'p');
    assert("hoverCount"@.len() == 10 && "hoverCount"@[0] == 'h');
    assert("dblCount"@.len() == 8 && "dblCount"@[0] == 'd');
    assert("keyDownCount"@.len() == 12 && "keyDownCount"@[0] == 'k');
    assert("keyUpCount"@.len() == 10 && "keyUpCount"@[0] == 'k');
    assert("keyPressCount"@.len() == 13 && "keyPressCount"@[0] == 'k');
    assert("elements"@.len() == 8 && "elements"@[0] == 'e');
}

/// An element is told with all that is known of it.
pub proof fn law_elements_are_told_in_full(e: ElementView)
    ensures
        element_value(e).get("id"@) == Some(JsonView::Text(e.id)),
        element_value(e).get("tag"@) == Some(JsonView::Text(e.tag)),
        element_value(e).get("text"@) == Some(JsonView::Text(e.text)),
        element_value(e).get("html"@) == Some(JsonView::Text(e.html)),
        element_value(e).get("value"@) == Some(JsonView::Text(e.value)),
        element_value(e).get("checked"@) == Some(JsonView::Bool(e.checked)),
        element_value(e).get("disabled"@) == Some(JsonView::Bool(e.disabled)),
        element_value(e).get("visible"@) == Some(JsonView::Bool(e.visible)),
        element_value(e).get("scrollTop"@) == Some(integer_view(e.scroll_top)),
        element_value(e).get("attrs"@) == Some(attrs_value(e.attrs)),
{
    broadcast use lemma_with_get;

    reveal_strlit("id");
    reveal_strlit("tag");
    reveal_strlit("text");
    reveal_strlit("html");
    reveal_strlit("value");
    reveal_strlit("checked");
    reveal_strlit("disabled");
    reveal_strlit("visible");
    reveal_strlit("scrollTop");
    reveal_strlit("attrs");
    assert("id"@.len() == 2 && "id"@[0] == 'i');
    assert("tag"@.len() == 3 && "tag"@[0] == 't');
    assert("text"@.len() == 4 && "text"@[0] == 't');
    assert("html"@.len() == 4 && "html"@[0] == 'h');
    assert("value"@.len() == 5 && "value"@[0] == 'v');
    assert("checked"@.len() == 7 && "checked"@[0] == 'c');
    assert("disabled"@.len() == 8 && "disabled"@[0] == 'd');
    assert("visible"@.len() == 7 && "visible"@[0] == 'v');
    assert("scrollTop"@.len() == 9 && "scrollTop"@[0] == 's');
    assert("attrs"@.len() == 5 && "attrs"@[0] == 'a');
}

/// A pane is told with all that is known of it.
pub proof fn law_panes_are_told_in_full(p: PaneView)
    ensures
        pane_value(p).get("id"@) == Some(JsonView::Text(p.id)),
        pane_value(p).get("workspaceId"@) == Some(JsonView::Text(p.workspace_id)),
        pane_value(p).get("surfaceIds"@) == Some(texts_value(p.surface_ids)),
        pane_value(p).get("activeSurfaceId"@) == Some(optional_text_view(p.active_surface_id)),
{
    broadcast use lemma_with_get;

    reveal_strlit("id");
    reveal_strlit("workspaceId");
    reveal_strlit("surfaceIds");
    reveal_strlit("activeSurfaceId");
    assert("id"@.len() == 2);
    assert("workspaceId"@.len() == 11);
    assert("surfaceIds"@.len() == 10);
    assert("activeSurfaceId"@.len() == 15);
}

/// A surface is told with all that is known of it; what it lacks is left out.
pub proof fn law_surfaces_are_told_in_full(s: SurfaceView)
    ensures
        surface_value(s).get("id"@) == Some(JsonView::Text(s.id)),
        surface_value(s).get("workspaceId"@) == Some(JsonView::Text(s.workspace_id)),
        surface_value(s).get("paneId"@) == Some(JsonView::Text(s.pane_id)),
        surface_value(s).get("title"@) == Some(JsonView::Text(s.title)),
        surface_value(s).get("kind"@) == Some(JsonView::Text(kind_text(s.kind))),
        s.initial_command is Some ==> surface_value(s).get("initialCommand"@) == Some(JsonView::Text(s.initial_command->0)),
        s.initial_command is None ==> surface_value(s).get("initialCommand"@) is None,
        s.working_directory is Some ==> surface_value(s).get("workingDirectory"@) == Some(JsonView::Text(s.working_directory->0)),
        s.working_directory is None ==> surface_value(s).get("workingDirectory"@) is None,
        s.url is Some ==> surface_value(s).get("url"@) == Some(JsonView::Text(s.url->0)),
        s.url is None ==> surface_value(s).get("url"@) is None,
        s.history.len() > 0 ==> surface_value(s).get("history"@) == Some(texts_value(s.history)),
        s.history.len() == 0 ==> surface_value(s).get("history"@) is None,
        s.history_index is Some ==> surface_value(s).get("historyIndex"@) == Some(JsonView::Unsigned(s.history_index->0 as u64)),
        s.history_index is None ==> surface_value(s).get("historyIndex"@) is None,
        s.input_log.len() > 0 ==> surface_value(s).get("inputLog"@) == Some(texts_value(s.input_log)),
        s.input_log.len() == 0 ==> surface_value(s).get("inputLog"@) is None,
        !s.browser_state.is_blank() ==> surface_value(s).get("browserState"@) == Some(page_value(s.browser_state)),
        s.browser_state.is_blank() ==> surface_value(s).get("browserState"@) is None,
{
    broadcast use lemma_with_get;

    reveal_strlit("id");
    reveal_strlit("workspaceId");
    reveal_strlit("paneId");
    reveal_strlit("title");
    reveal_strlit("kind");
    reveal_strlit("initialCommand");
    reveal_strlit("workingDirectory");
    reveal_strlit("url");
    reveal_strlit("history");
    reveal_strlit("historyIndex");
    reveal_strlit("inputLog");
    reveal_strlit("browserState");
    assert("id"@.len() == 2 && "id"@[0] == 'i');
    assert("workspaceId"@.len() == 11 && "workspaceId"@[0] == 'w');
    assert("paneId"@.len() == 6 && "paneId"@[0] == 'p');
    assert("title"@.len() == 5 && "title"@[0] == 't');
    assert("kind"@.len() == 4 && "kind"@[0] == 'k');
    assert("initialCommand"@.len() == 14 && "initialCommand"@[0] == 'i');
    assert("workingDirectory"@.len() == 16 && "workingDirectory"@[0] == 'w');
    assert("url"@.len() == 3 && "url"@[0] == 'u');
    assert("history"@.len() == 7 && "history"@[0] == 'h');
    assert("historyIndex"@.len() == 12 && "historyIndex"@[0] == 'h');
    assert("inputLog"@.len() == 8 && "inputLog"@[0] == 'i');
    assert("browserState"@.len() == 12 && "browserState"@[0] == 'b');
}

/// A workspace is told with its panes, its surfaces and its layout.
pub proof fn law_workspaces_are_told_in_full(w: WorkspaceView)
    ensures
        workspace_value(w).get("id"@) == Some(JsonView::Text(w.id)),
        workspace_value(w).get("title"@) == Some(JsonView::Text(w.title)),
        workspace_value(w).get("layout"@) == Some(layout_value(w.layout)),
        workspace_value(w).get("panes"@) == Some(JsonView::Array(w.panes.map_values(|p: PaneView| pane_value(p)))),
        workspace_value(w).get("surfaces"@) == Some(JsonView::Array(w.surfaces.map_values(|s: SurfaceView| surface_value(s)))),
{
    broadcast use lemma_with_get;

    reveal_strlit("id");
    reveal_strlit("title");
    reveal_strlit("layout");
    reveal_strlit("panes");
    reveal_strlit("surfaces");
    assert("id"@.len() == 2 && "id"@[0] == 'i');
    assert("title"@.len() == 5 && "title"@[0] == 't');
    assert("layout"@.len() == 6 && "layout"@[0] == 'l');
    assert("panes"@.len() == 5 && "panes"@[0] == 'p');
    assert("surfaces"@.len() == 8 && "surfaces"@[0] == 's');
}

/// A notification is told with all that it says; what it lacks is left out.
pub proof fn law_notifications_are_told_in_full(s: NotificationView)
    ensures
        notification_value(s).get("id"@) == Some(JsonView::Text(s.id)),
        notification_value(s).get("title"@) == Some(JsonView::Text(s.title)),
        s.subtitle.len() > 0 ==> notification_value(s).get("subtitle"@) == Some(JsonView::Text(s.subtitle)),
        s.subtitle.len() == 0 ==> notification_value(s).get("subtitle"@) is None,
        notification_value(s).get("body"@) == Some(JsonView::Text(s.body)),
        notification_value(s).get("workspaceId"@) == Some(optional_text_view(s.workspace_id)),
        s.surface_id is Some ==> notification_value(s).get("surfaceId"@) == Some(JsonView::Text(s.surface_id->0)),
        s.surface_id is None ==> notification_value(s).get("surfaceId"@) is None,
        notification_value(s).get("createdAtMs"@) == Some(JsonView::Unsigned(s.created_at_ms)),
        notification_value(s).get("read"@) == Some(JsonView::Bool(s.read)),
{
    broadcast use lemma_with_get;

    reveal_strlit("id");
    reveal_strlit("title");
    reveal_strlit("subtitle");
    reveal_strlit("body");
    reveal_strlit("workspaceId");
    reveal_strlit("surfaceId");
    reveal_strlit("createdAtMs");
    reveal_strlit("read");
    assert("id"@.len() == 2 && "id"@[0] == 'i');
    assert("title"@.len() == 5 && "title"@[0] == 't');
    assert("subtitle"@.len() == 8 && "subtitle"@[0] == 's');
    assert("body"@.len() == 4 && "body"@[0] == 'b');
    assert("workspaceId"@.len() == 11 && "workspaceId"@[0] == 'w');
    assert("surfaceId"@.len() == 9 && "surfaceId"@[0] == 's');
    assert("createdAtMs"@.len() == 11 && "createdAtMs"@[0] == 'c');
    assert("read"@.len() == 4 && "read"@[0] == 'r');
}

/// A layout is told as it is: a pane by its id, and a split by its direction and
/// ratio, with its first half first.
pub proof fn law_layouts_are_told_in_full(
    pane: Seq<char>,
    direction: SplitDirection,
    ratio: u64,
    first: LayoutView,
    second: LayoutView,
)
    ensures
        ({
            let leaf = layout_value(LayoutView::Leaf { pane });
            leaf.get("type"@) == Some(JsonView::Text("leaf"@)) && leaf.get("pane_id"@) == Some(
                JsonView::Text(pane),
            )
        }),
        ({
            let split = layout_value(
                LayoutView::Split {
                    direction,
                    ratio,
                    first: Box::new(first),
                    second: Box::new(second),
                },
            );
            &&& split.get("type"@) == Some(JsonView::Text("split"@))
            &&& direction == SplitDirection::Horizontal ==> split.get("direction"@) == Some(
                JsonView::Text("horizontal"@),
            )
            &&& direction == SplitDirection::Vertical ==> split.get("direction"@) == Some(
                JsonView::Text("vertical"@),
            )
            &&& split.get("ratio"@) == Some(ratio_value(ratio))
            &&& split.get("first"@) == Some(layout_value(first))
            &&& split.get("second"@) == Some(layout_value(second))
        }),
{
    reveal_with_fuel(layout_value, 2);
    broadcast use lemma_with_get;

    reveal_strlit("type");
    reveal_strlit("pane_id");
    reveal_strlit("direction");
    reveal_strlit("ratio");
    reveal_strlit("first");
    reveal_strlit("second");
    assert("type"@.len() == 4 && "type"@[0] == 't');
    assert("pane_id"@.len() == 7 && "pane_id"@[0] == 'p');
    assert("direction"@.len() == 9 && "direction"@[0] == 'd');
    assert("ratio"@.len() == 5 && "ratio"@[0] == 'r');
    assert("first"@.len() == 5 && "first"@[0] == 'f');
    assert("second"@.len() == 6 && "second"@[0] == 's');
}

/// The health of a surface is told as it is.
pub proof fn law_health_is_told_as_it_is(h: GhosttyGtkSurfaceHealth)
    ensures
        health_value(h).get("alive"@) == Some(JsonView::Bool(h.alive)),
        health_value(h).get("childExited"@) == Some(JsonView::Bool(h.child_exited)),
        health_value(h).get("rows"@) == Some(JsonView::Unsigned(h.rows as u64)),
        health_value(h).get("cols"@) == Some(JsonView::Unsigned(h.cols as u64)),
{
    broadcast use lemma_with_get;

    reveal_strlit("alive");
    reveal_strlit("childExited");
    reveal_strlit("rows");
    reveal_strlit("cols");
    assert("alive"@.len() == 5 && "alive"@[0] == 'a');
    assert("childExited"@.len() == 11 && "childExited"@[0] == 'c');
    assert("rows"@.len() == 4 && "rows"@[0] == 'r');
    assert("cols"@.len() == 4 && "cols"@[0] == 'c');
}

/// The status of the renderer is told as it is.
pub proof fn law_the_status_of_the_renderer_is_told(s: GhosttyStatusView)
    ensures
        status_value(s).get("available"@) == Some(JsonView::Bool(s.available)),
        status_value(s).get("libraryAvailable"@) == Some(JsonView::Bool(s.library_available)),
        status_value(s).get("rendererAvailable"@) == Some(JsonView::Bool(s.renderer_available)),
        status_value(s).get("libraryPath"@) == Some(optional_text_view(s.library_path)),
        status_value(s).get("version"@) == Some(optional_text_view(s.version)),
        s.abi_version is Some ==> status_value(s).get("abiVersion"@) == Some(JsonView::Unsigned(s.abi_version->0 as u64)),
        s.abi_version is None ==> status_value(s).get("abiVersion"@) == Some(JsonView::Null),
        status_value(s).get("reason"@) == Some(optional_text_view(s.reason)),
{
    broadcast use lemma_with_get;

    reveal_strlit("available");
    reveal_strlit("libraryAvailable");
    reveal_strlit("rendererAvailable");
    reveal_strlit("libraryPath");
    reveal_strlit("version");
    reveal_strlit("abiVersion");
    reveal_strlit("reason");
    assert("available"@.len() == 9);
    assert("libraryAvailable"@.len() == 16);
    assert("rendererAvailable"@.len() == 17);
    assert("libraryPath"@.len() == 11);
    assert("version"@.len() == 7);
    assert("abiVersion"@.len() == 10);
    assert("reason"@.len() == 6);
}

/// The status of a terminal is told as it is.
pub proof fn law_the_status_of_a_terminal_is_told(s: TerminalStatusView)
    ensures
        terminal_value(s).get("backend"@) == Some(JsonView::Text(s.backend)),
        terminal_value(s).get("live"@) == Some(JsonView::Bool(s.live)),
        terminal_value(s).get("pid"@) == Some(integer_view(s.pid as i64)),
        terminal_value(s).get("exited"@) == Some(JsonView::Bool(s.exited)),
        terminal_value(s).get("captured_bytes"@) == Some(JsonView::Unsigned(s.captured_bytes as u64)),
        s.ghostty is Some ==> terminal_value(s).get("ghostty"@) == Some(health_value(s.ghostty->0)),
        s.ghostty is None ==> terminal_value(s).get("ghostty"@) is None,
{
    broadcast use lemma_with_get;

    reveal_strlit("backend");
    reveal_strlit("live");
    reveal_strlit("pid");
    reveal_strlit("exited");
    reveal_strlit("captured_bytes");
    reveal_strlit("ghostty");
    assert("backend"@.len() == 7 && "backend"@[0] == 'b');
    assert("live"@.len() == 4 && "live"@[0] == 'l');
    assert("pid"@.len() == 3 && "pid"@[0] == 'p');
    assert("exited"@.len() == 6 && "exited"@[0] == 'e');
    assert("captured_bytes"@.len() == 14 && "captured_bytes"@[0] == 'c');
    assert("ghostty"@.len() == 7 && "ghostty"@[0] == 'g');
}

/// A terminal fares as its program does: it is live until that has ended, and one
/// of the renderer only while its surface is alive.
pub proof fn law_terminals_fare_as_their_programs(
    pid: i32,
    exited: bool,
    health: GhosttyGtkSurfaceHealth,
    captured_bytes: usize,
)
    ensures
        ({
            let s = pty_status_view(pid, exited, captured_bytes);
            &&& s.backend == "pty"@
            &&& s.live == !exited
            &&& s.exited == exited
            &&& s.pid == pid
            &&& s.captured_bytes == captured_bytes
            &&& s.ghostty is None
        }),
        ({
            let s = ghostty_status_view(health, captured_bytes);
            &&& s.backend == "ghostty"@
            &&& s.live <==> health.alive && !health.child_exited
            &&& s.exited == health.child_exited
            &&& s.captured_bytes == captured_bytes
            &&& s.ghostty == Some(health)
        }),
{
}

/// The renderer can be used where it could be started and made a surface, and only
/// there; otherwise its status says why not.
pub proof fn law_the_renderer_is_used_where_it_works(library_path: Seq<char>, probe: Probe)
    ensures
        probe is Works <==> probed(library_path, probe).renderer_available,
        probe is Works <==> probed(library_path, probe).available,
        probe is Works <==> probed(library_path, probe).reason is None,
        probed(library_path, probe).library_available,
        probed(library_path, probe).library_path == Some(library_path),
{
}

/// The library of the renderer is looked for where the environment says first, and
/// then at the usual places.
pub proof fn law_what_is_said_is_tried_first(path: Seq<u8>)
    requires
        path.len() > 0,
    ensures
        candidate_views(Some(path)).len() == candidate_views(None).len() + 1,
        candidate_views(Some(path))[0] == CandidateView::Path(path),
        candidate_views(Some(path)).skip(1) == candidate_views(None),
        candidate_views(Some(Seq::empty())) == candidate_views(None),
        candidate_views(None).len() == 3,
        candidate_views(None)[0] is Path && candidate_views(None)[1] is Path && candidate_views(
            None,
        )[2] == CandidateView::Library("libghostty-gtk-embed.so"@),
{
    assert(candidate_views(Some(path)).skip(1) =~= candidate_views(None));
}

/// The status of the shell tells of its socket, its settings and its terminals.
pub proof fn law_the_status_of_the_shell_is_told(s: SurroundingsView)
    ensures
        app_status(s).get("platform"@) == Some(JsonView::Text("linux"@)),
        app_status(s).get("socket"@) == Some(ObjectView::new().with("defaultPath"@, JsonView::Text(s.socket_path)).done()),
        app_status(s).get("settings_path"@) == Some(optional_text_view(s.settings_path)),
        app_status(s).get("terminal_backend"@) == Some(JsonView::Text(crate::settings::backend_text(s.settings.terminal_backend))),
        app_status(s).get("ghostty"@) == Some(status_value(s.ghostty)),
        s.ghostty.renderer_available ==> app_status(s).get("terminal_runtime"@) == Some(crate::system::runtime_value("ghostty"@)),
        !s.ghostty.renderer_available ==> app_status(s).get("terminal_runtime"@) == Some(crate::system::runtime_value("pty"@)),
{
    broadcast use lemma_with_get;

    reveal_strlit("platform");
    reveal_strlit("socket");
    reveal_strlit("settings_path");
    reveal_strlit("terminal_backend");
    reveal_strlit("ghostty");
    reveal_strlit("terminal_runtime");
    assert("platform"@.len() == 8);
    assert("socket"@.len() == 6);
    assert("settings_path"@.len() == 13 && "settings_path"@[9] == 'p');
    assert("terminal_backend"@.len() == 16 && "terminal_backend"@[9] == 'b');
    assert("ghostty"@.len() == 7);
    assert("terminal_runtime"@.len() == 16 && "terminal_runtime"@[9] == 'r');
}

/// What the shell says it can do: how it is spoken to and where, on what, and with
/// which methods.
pub proof fn law_capabilities_say_how_the_shell_is_reached(s: SurroundingsView, window_id: Seq<char>)
    ensures
        capabilities(s, window_id).get("protocol"@) == Some(JsonView::Text("cmux-socket"@)),
        capabilities(s, window_id).get("version"@) == Some(JsonView::Unsigned(2)),
        capabilities(s, window_id).get("platform"@) == Some(JsonView::Text("linux"@)),
        capabilities(s, window_id).get("app"@) == Some(JsonView::Text("cmux-gtk"@)),
        capabilities(s, window_id).get("socket_path"@) == Some(JsonView::Text(s.socket_path)),
        capabilities(s, window_id).get("settings_path"@) == Some(optional_text_view(s.settings_path)),
        capabilities(s, window_id).get("terminal_backend"@) == Some(JsonView::Text(crate::settings::backend_text(s.settings.terminal_backend))),
        capabilities(s, window_id).get("ghostty"@) == Some(status_value(s.ghostty)),
        capabilities(s, window_id).get("terminal_runtime"@) == Some(crate::system::runtime_value("pty"@)),
        capabilities(s, window_id).get("access_mode"@) == Some(JsonView::Text("local"@)),
        capabilities(s, window_id).get("window_id"@) == Some(JsonView::Text(window_id)),
        capabilities(s, window_id).get("methods"@) == Some(texts_value(crate::methods::all_methods())),
        capabilities(s, window_id).get("socketProtocol"@) == Some(JsonView::Text("jsonrpc"@)),
        capabilities(s, window_id).get("features"@) == Some(features(s)),
{
    broadcast use lemma_with_get;

    reveal_strlit("protocol");
    reveal_strlit("version");
    reveal_strlit("platform");
    reveal_strlit("app");
    reveal_strlit("socket_path");
    reveal_strlit("settings_path");
    reveal_strlit("terminal_backend");
    reveal_strlit("ghostty");
    reveal_strlit("terminal_runtime");
    reveal_strlit("access_mode");
    reveal_strlit("window_id");
    reveal_strlit("methods");
    reveal_strlit("socketProtocol");
    reveal_strlit("features");
    assert("protocol"@.len() == 8 && "protocol"@[4] == 'o');
    assert("version"@.len() == 7 && "version"@[4] == 'i');
    assert("platform"@.len() == 8 && "platform"@[4] == 'f');
    assert("app"@.len() == 3);
    assert("socket_path"@.len() == 11 && "socket_path"@[4] == 'e' && "socket_path"@[9] == 't');
    assert("settings_path"@.len() == 13 && "settings_path"@[4] == 'i'
        && "settings_path"@[9] == 'p');
    assert("terminal_backend"@.len() == 16 && "terminal_backend"@[4] == 'i'
        && "terminal_backend"@[9] == 'b');
    assert("ghostty"@.len() == 7 && "ghostty"@[4] == 't');
    assert("terminal_runtime"@.len() == 16 && "terminal_runtime"@[4] == 'i'
        && "terminal_runtime"@[9] == 'r');
    assert("access_mode"@.len() == 11 && "access_mode"@[4] == 's' && "access_mode"@[9] == 'd');
    assert("window_id"@.len() == 9 && "window_id"@[4] == 'o');
    assert("methods"@.len() == 7 && "methods"@[4] == 'o');
    assert("socketProtocol"@.len() == 14 && "socketProtocol"@[4] == 'e'
        && "socketProtocol"@[9] == 't');
    assert("features"@.len() == 8 && "features"@[4] == 'u');
}

/// The features are there, but for those of the renderer and for automation, which
/// are there as found and as set.
pub proof fn law_features_are_there(s: SurroundingsView)
    ensures
        features(s).get("terminal"@) == Some(JsonView::Bool(true)),
        features(s).get("browser"@) == Some(JsonView::Bool(true)),
        features(s).get("ghosttyRenderer"@) == Some(JsonView::Bool(s.ghostty.renderer_available)),
        features(s).get("ghosttyLibrary"@) == Some(JsonView::Bool(s.ghostty.library_available)),
        features(s).get("notifications"@) == Some(JsonView::Bool(true)),
        features(s).get("sshRelay"@) == Some(JsonView::Bool(true)),
        features(s).get("terminalLivePty"@) == Some(JsonView::Bool(true)),
        features(s).get("browserStateAutomation"@) == Some(JsonView::Bool(s.settings.browser_state_automation)),
        features(s).get("browserNativeScreenshots"@) == Some(JsonView::Bool(true)),
        features(s).get("browserConsole"@) == Some(JsonView::Bool(true)),
        features(s).get("browserDialogs"@) == Some(JsonView::Bool(true)),
        features(s).get("browserDownloads"@) == Some(JsonView::Bool(true)),
        features(s).get("browserFrames"@) == Some(JsonView::Bool(true)),
{
    broadcast use lemma_with_get;

    reveal_strlit("terminal");
    reveal_strlit("browser");
    reveal_strlit("ghosttyRenderer");
    reveal_strlit("ghosttyLibrary");
    reveal_strlit("notifications");
    reveal_strlit("sshRelay");
    reveal_strlit("terminalLivePty");
    reveal_strlit("browserStateAutomation");
    reveal_strlit("browserNativeScreenshots");
    reveal_strlit("browserConsole");
    reveal_strlit("browserDialogs");
    reveal_strlit("browserDownloads");
    reveal_strlit("browserFrames");
    assert("terminal"@.len() == 8 && "terminal"@[7] == 'l');
    assert("browser"@.len() == 7);
    assert("ghosttyRenderer"@.len() == 15 && "ghosttyRenderer"@[7] == 'R');
    assert("ghosttyLibrary"@.len() == 14 && "ghosttyLibrary"@[7] == 'L');
    assert("notifications"@.len() == 13 && "notifications"@[7] == 'a');
    assert("sshRelay"@.len() == 8 && "sshRelay"@[7] == 'y');
    assert("terminalLivePty"@.len() == 15 && "terminalLivePty"@[7] == 'l');
    assert("browserStateAutomation"@.len() == 22 && "browserStateAutomation"@[7] == 'S');
    assert("browserNativeScreenshots"@.len() == 24 && "browserNativeScreenshots"@[7] == 'N');
    assert("browserConsole"@.len() == 14 && "browserConsole"@[7] == 'C');
    assert("browserDialogs"@.len() == 14 && "browserDialogs"@[7] == 'D');
    assert("browserDownloads"@.len() == 16 && "browserDownloads"@[7] == 'D');
    assert("browserFrames"@.len() == 13 && "browserFrames"@[7] == 'F');
}

// ---------------------------------------------------------------------------
// Words and identifiers

/// The words of the window stand under their keys; under any other key stands the
/// name of the program.
pub proof fn law_words_stand_under_their_keys(key: Seq<char>)
    ensures
        wording("app.title"@) == "cmux"@,
        wording("sidebar.workspaces"@) == "Workspaces"@,
        wording("sidebar.newWorkspace"@) == "New workspace"@,
        wording("sidebar.socket"@) == "Socket"@,
        wording("sidebar.notifications.none"@) == "No notifications"@,
        wording("sidebar.notifications.one"@) == "1 notification"@,
        wording("sidebar.notifications.clear"@) == "Clear notifications"@,
        wording("workspace.empty"@) == "No workspace"@,
        wording("pane.empty"@) == "Empty pane"@,
        wording("surface.markdown"@) == "Markdown"@,
        key != "app.title"@ && key != "sidebar.workspaces"@ && key != "sidebar.newWorkspace"@
            && key != "sidebar.socket"@ && key != "sidebar.notifications.none"@
            && key != "sidebar.notifications.one"@ && key != "sidebar.notifications.clear"@
            && key != "workspace.empty"@ && key != "pane.empty"@
            && key != "surface.markdown"@ ==> wording(key) == "cmux"@,
{
    reveal_strlit("app.title");
    reveal_strlit("sidebar.workspaces");
    reveal_strlit("sidebar.newWorkspace");
    reveal_strlit("sidebar.socket");
    reveal_strlit("sidebar.notifications.none");
    reveal_strlit("sidebar.notifications.one");
    reveal_strlit("sidebar.notifications.clear");
    reveal_strlit("workspace.empty");
    reveal_strlit("pane.empty");
    reveal_strlit("surface.markdown");
    assert("app.title"@.len() == 9);
    assert("sidebar.workspaces"@.len() == 18);
    assert("sidebar.newWorkspace"@.len() == 20);
    assert("sidebar.socket"@.len() == 14);
    assert("sidebar.notifications.none"@.len() == 26);
    assert("sidebar.notifications.one"@.len() == 25);
    assert("sidebar.notifications.clear"@.len() == 27);
    assert("workspace.empty"@.len() == 15);
    assert("pane.empty"@.len() == 10);
    assert("surface.markdown"@.len() == 16);
}

/// The digits of a number in hexadecimal are as many as asked for.
proof fn lemma_hex_digits(n: nat, width: nat)
    ensures
        hex_digits(n, width).len() == width,
        forall|i: int| 0 <= i < width ==> is_hex(#[trigger] hex_digits(n, width)[i]),
    decreases width,
{
    if width > 0 {
        lemma_hex_digits(n / 16, (width - 1) as nat);
        let rest = hex_digits(n / 16, (width - 1) as nat);
        let d = (n % 16) as int;
        assert(is_hex(hex_char(d)));
        assert forall|i: int| 0 <= i < width implies is_hex(#[trigger] hex_digits(n, width)[i]) by {
            if i < width - 1 {
                assert(hex_digits(n, width)[i] == rest[i]);
            }
        }
    }
}

/// Whether a character is a digit in hexadecimal, in small letters.
pub open spec fn is_hex(c: char) -> bool {
    '0' <= c <= '9' || 'a' <= c <= 'f'
}

/// An identifier has five groups of digits with hyphens between them, of the
/// version and variant of random identifiers.
pub proof fn law_identifiers_have_their_form(high: u64, low: u64, i: int)
    ensures
        ({
            let id = id_text(high, low);
            &&& id.len() == 36
            &&& id[8] == '-' && id[13] == '-' && id[18] == '-' && id[23] == '-'
            &&& id[14] == '4' && id[19] == '8'
            &&& 0 <= i < 36 && i != 8 && i != 13 && i != 18 && i != 23 ==> is_hex(id[i])
        }),
{
    let a = hex_digits((high / 0x1_0000_0000) as nat, 8);
    let b = hex_digits((high / 0x1_0000) as nat, 4);
    let c = hex_digits(high as nat, 3);
    let d = hex_digits((low / 0x1_0000_0000_0000) as nat, 3);
    let e = hex_digits(low as nat, 12);
    lemma_hex_digits((high / 0x1_0000_0000) as nat, 8);
    lemma_hex_digits((high / 0x1_0000) as nat, 4);
    lemma_hex_digits(high as nat, 3);
    lemma_hex_digits((low / 0x1_0000_0000_0000) as nat, 3);
    lemma_hex_digits(low as nat, 12);
    reveal_strlit("-");
    reveal_strlit("-4");
    reveal_strlit("-8");
    let id = id_text(high, low);
    assert(id == a + "-"@ + b + "-4"@ + c + "-8"@ + d + "-"@ + e);
    if 0 <= i < 36 && i != 8 && i != 13 && i != 18 && i != 23 {
        if i < 8 {
            assert(id[i] == a[i]);
        } else if i < 13 {
            assert(id[i] == b[i - 9]);
        } else if i == 14 {
        } else if i < 18 {
            assert(id[i] == c[i - 15]);
        } else if i == 19 {
        } else if i < 23 {
            assert(id[i] == d[i - 20]);
        } else {
            assert(id[i] == e[i - 24]);
        }
    }
}

} // verus!
