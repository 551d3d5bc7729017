//! Workspaces, panes, surfaces and notifications as JSON values.

use crate::json::{
    lemma_array_view, optional_chars, optional_text_view, texts_json, texts_value, Json, JsonView, Object,
    ObjectView,
};
use crate::layout::{direction_text, split_direction_name, LayoutView, PaneNode, RATIO_INFINITE, RATIO_SIGN};
use crate::lists::views;
use crate::model::{
    kind_text, surface_kind_name, NotificationRecord, NotificationView, PaneRecord, PaneView,
    SurfaceRecord, SurfaceView, WorkspaceRecord, WorkspaceView,
};
use crate::page_json::{browser_state_json, page_value};
use crate::text::texts;
use vstd::prelude::*;

verus! {

/// A text that is left out where it is absent.
pub open spec fn some_text(s: Option<Seq<char>>) -> Option<JsonView> {
    match s {
        Some(t) => Some(JsonView::Text(t)),
        None => None,
    }
}

/// A text that is left out where it is absent.
fn some_text_json(s: &Option<String>) -> (r: Option<Json>)
    ensures
        crate::json::optional_view(r) == some_text(optional_chars(*s)),
{
    match s {
        Some(t) => Some(Json::text(t.as_str())),
        None => None,
    }
}

/// Texts that are left out where there are none.
pub open spec fn some_texts(list: Seq<Seq<char>>) -> Option<JsonView> {
    if list.len() == 0 {
        None
    } else {
        Some(texts_value(list))
    }
}

/// Texts that are left out where there are none.
fn some_texts_json(list: &Vec<String>) -> (r: Option<Json>)
    ensures
        crate::json::optional_view(r) == some_texts(texts(list@)),
{
    if list.is_empty() {
        None
    } else {
        Some(texts_json(list))
    }
}

/// A ratio as a value: null where it is not finite.
pub open spec fn ratio_value(bits: u64) -> JsonView {
    if bits % RATIO_SIGN >= RATIO_INFINITE {
        JsonView::Null
    } else {
        JsonView::Real(bits)
    }
}

/// A ratio as a value.
pub fn ratio_json(bits: u64) -> (r: Json)
    ensures
        r@ == ratio_value(bits),
{
    if bits % RATIO_SIGN >= RATIO_INFINITE {
        Json::Null
    } else {
        Json::Real(bits)
    }
}

/// A layout as an object.
pub open spec fn layout_value(l: LayoutView) -> JsonView
    decreases l,
{
    match l {
        LayoutView::Leaf { pane } => ObjectView::new().with("type"@, JsonView::Text("leaf"@)).with(
            "pane_id"@,
            JsonView::Text(pane),
        ).done(),
        LayoutView::Split { direction, ratio, first, second } => ObjectView::new().with(
            "type"@,
            JsonView::Text("split"@),
        ).with("direction"@, JsonView::Text(direction_text(direction))).with(
            "ratio"@,
            ratio_value(ratio),
        ).with("first"@, layout_value(*first)).with("second"@, layout_value(*second)).done(),
    }
}

/// A pane as an object.
pub open spec fn pane_value(p: PaneView) -> JsonView {
    ObjectView::new().with("id"@, JsonView::Text(p.id)).with(
        "workspaceId"@,
        JsonView::Text(p.workspace_id),
    ).with("surfaceIds"@, texts_value(p.surface_ids)).with(
        "activeSurfaceId"@,
        optional_text_view(p.active_surface_id),
    ).done()
}

/// A surface as an object.
pub open spec fn surface_value(s: SurfaceView) -> JsonView {
    ObjectView::new().with("id"@, JsonView::Text(s.id)).with(
        "workspaceId"@,
        JsonView::Text(s.workspace_id),
    ).with("paneId"@, JsonView::Text(s.pane_id)).with("title"@, JsonView::Text(s.title)).with(
        "kind"@,
        JsonView::Text(kind_text(s.kind)),
    ).with_some("initialCommand"@, some_text(s.initial_command)).with_some(
        "workingDirectory"@,
        some_text(s.working_directory),
    ).with_some("url"@, some_text(s.url)).with_some("history"@, some_texts(s.history)).with_some(
        "historyIndex"@,
        match s.history_index {
            Some(i) => Some(JsonView::Unsigned(i as u64)),
            None => None,
        },
    ).with_some("inputLog"@, some_texts(s.input_log)).with_some(
        "browserState"@,
        if s.browser_state.is_blank() {
            None
        } else {
            Some(page_value(s.browser_state))
        },
    ).done()
}

/// A workspace as an object.
pub open spec fn workspace_value(w: WorkspaceView) -> JsonView {
    ObjectView::new().with("id"@, JsonView::Text(w.id)).with("title"@, JsonView::Text(w.title)).with(
        "panes"@,
        JsonView::Array(w.panes.map_values(|p: PaneView| pane_value(p))),
    ).with(
        "surfaces"@,
        JsonView::Array(w.surfaces.map_values(|s: SurfaceView| surface_value(s))),
    ).with("layout"@, layout_value(w.layout)).done()
}

/// A notification as an object.
pub open spec fn notification_value(n: NotificationView) -> JsonView {
    ObjectView::new().with("id"@, JsonView::Text(n.id)).with("title"@, JsonView::Text(n.title)).with_some(
        "subtitle"@,
        if n.subtitle.len() == 0 {
            None
        } else {
            Some(JsonView::Text(n.subtitle))
        },
    ).with("body"@, JsonView::Text(n.body)).with(
        "workspaceId"@,
        optional_text_view(n.workspace_id),
    ).with_some("surfaceId"@, some_text(n.surface_id)).with(
        "createdAtMs"@,
        JsonView::Unsigned(n.created_at_ms),
    ).with("read"@, JsonView::Bool(n.read)).done()
}

/// Notifications as an array.
pub open spec fn notifications_value(list: Seq<NotificationView>) -> JsonView {
    JsonView::Array(list.map_values(|n: NotificationView| notification_value(n)))
}

/// A layout as an object.
pub fn layout_json(l: &PaneNode) -> (r: Json)
    ensures
        r@ == layout_value(l@),
    decreases l,
{
    match l {
        PaneNode::Leaf { pane_id } => Object::new().with("type", Json::text("leaf")).with(
            "pane_id",
            Json::text(pane_id.as_str()),
        ).done(),
        PaneNode::Split { direction, ratio, first, second } => {
            let a = layout_json(first);
            let b = layout_json(second);
            Object::new().with("type", Json::text("split")).with(
                "direction",
                Json::text(split_direction_name(*direction)),
            ).with("ratio", ratio_json(*ratio)).with("first", a).with("second", b).done()
        },
    }
}

/// A pane as an object.
pub fn pane_json(p: &PaneRecord) -> (r: Json)
    ensures
        r@ == pane_value(p@),
{
    Object::new().with("id", Json::text(p.id.as_str())).with(
        "workspaceId",
        Json::text(p.workspace_id.as_str()),
    ).with("surfaceIds", texts_json(&p.surface_ids)).with(
        "activeSurfaceId",
        Json::optional_text(&p.active_surface_id),
    ).done()
}

/// A surface as an object.
pub fn surface_json(s: &SurfaceRecord) -> (r: Json)
    ensures
        r@ == surface_value(s@),
{
    let index = match s.history_index {
        Some(i) => Some(Json::count(i)),
        None => None,
    };
    let page = if s.browser_state.is_empty() {
        None
    } else {
        Some(browser_state_json(&s.browser_state))
    };
    Object::new().with("id", Json::text(s.id.as_str())).with(
        "workspaceId",
        Json::text(s.workspace_id.as_str()),
    ).with("paneId", Json::text(s.pane_id.as_str())).with("title", Json::text(s.title.as_str())).with(
        "kind",
        Json::text(surface_kind_name(s.kind)),
    ).with_some("initialCommand", some_text_json(&s.initial_command)).with_some(
        "workingDirectory",
        some_text_json(&s.working_directory),
    ).with_some("url", some_text_json(&s.url)).with_some(
        "history",
        some_texts_json(&s.history),
    ).with_some("historyIndex", index).with_some("inputLog", some_texts_json(&s.input_log)).with_some(
        "browserState",
        page,
    ).done()
}

/// Panes as an array.
fn panes_json(list: &Vec<PaneRecord>) -> (r: Json)
    ensures
        r@ == JsonView::Array(views(list@).map_values(|p: PaneView| pane_value(p))),
{
    broadcast use lemma_array_view;

    let mut items: Vec<Json> = Vec::new();
    let mut i: usize = 0;
    while i < list.len()
        invariant
            i <= list@.len(),
            items@.len() == i,
            forall|j: int| 0 <= j < i ==> (#[trigger] items@[j])@ == pane_value(list@[j]@),
        decreases list@.len() - i,
    {
        items.push(pane_json(&list[i]));
        i += 1;
    }
    let r = Json::Array(items);
    assert(r@->Array_0 =~= views(list@).map_values(|p: PaneView| pane_value(p)));
    r
}

/// Surfaces as an array.
fn surfaces_json(list: &Vec<SurfaceRecord>) -> (r: Json)
    ensures
        r@ == JsonView::Array(views(list@).map_values(|s: SurfaceView| surface_value(s))),
{
    broadcast use lemma_array_view;

    let mut items: Vec<Json> = Vec::new();
    let mut i: usize = 0;
    while i < list.len()
        invariant
            i <= list@.len(),
            items@.len() == i,
            forall|j: int| 0 <= j < i ==> (#[trigger] items@[j])@ == surface_value(list@[j]@),
        decreases list@.len() - i,
    {
        items.push(surface_json(&list[i]));
        i += 1;
    }
    let r = Json::Array(items);
    assert(r@->Array_0 =~= views(list@).map_values(|s: SurfaceView| surface_value(s)));
    r
}

/// A workspace as an object.
pub fn workspace_json(w: &WorkspaceRecord) -> (r: Json)
    ensures
        r@ == workspace_value(w@),
{
    Object::new().with("id", Json::text(w.id.as_str())).with("title", Json::text(w.title.as_str())).with(
        "panes",
        panes_json(&w.panes),
    ).with("surfaces", surfaces_json(&w.surfaces)).with("layout", layout_json(&w.layout)).done()
}

/// A notification as an object.
pub fn notification_json(n: &NotificationRecord) -> (r: Json)
    ensures
        r@ == notification_value(n@),
{
    let subtitle = if n.subtitle.as_str().is_empty() {
        None
    } else {
        Some(Json::text(n.subtitle.as_str()))
    };
    Object::new().with("id", Json::text(n.id.as_str())).with("title", Json::text(n.title.as_str())).with_some(
        "subtitle",
        subtitle,
    ).with("body", Json::text(n.body.as_str())).with(
        "workspaceId",
        Json::optional_text(&n.workspace_id),
    ).with_some("surfaceId", some_text_json(&n.surface_id)).with(
        "createdAtMs",
        Json::Unsigned(n.created_at_ms),
    ).with("read", Json::Bool(n.read)).done()
}

/// Notifications as an array.
pub fn notifications_json(list: &Vec<NotificationRecord>) -> (r: Json)
    ensures
        r@ == notifications_value(views(list@)),
{
    broadcast use lemma_array_view;

    let mut items: Vec<Json> = Vec::new();
    let mut i: usize = 0;
    while i < list.len()
        invariant
            i <= list@.len(),
            items@.len() == i,
            forall|j: int| 0 <= j < i ==> (#[trigger] items@[j])@ == notification_value(list@[j]@),
        decreases list@.len() - i,
    {
        items.push(notification_json(&list[i]));
        i += 1;
    }
    let r = Json::Array(items);
    assert(r@->Array_0 =~= notifications_value(views(list@))->Array_0);
    r
}

} // verus!
