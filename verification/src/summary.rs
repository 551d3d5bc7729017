//! How requests are told of workspaces, panes and surfaces.

use crate::app_state::{AppState, AppView};
use crate::json::{optional_text_view, Json, JsonView, Object, ObjectView};
use crate::lists::first_at;
use crate::model::{
    is_id, kind_text, pane_ids, pane_position, same_id, surface_kind_name, PaneRecord, PaneView,
    SurfaceRecord, SurfaceView, WorkspaceRecord, WorkspaceView,
};
use crate::text::{decimal, decimal_of, join2};
use vstd::prelude::*;

verus! {

/// The reference to the thing at a place: a prefix and the place, counted from
/// one.
pub open spec fn reference_text(prefix: Seq<char>, index: int) -> Seq<char> {
    prefix + decimal((index + 1) as nat)
}

/// The reference to the thing at a place.
pub fn reference_to(prefix: &str, index: usize) -> (r: String)
    requires
        index < usize::MAX,
    ensures
        r@ == reference_text(prefix@, index as int),
{
    join2(prefix, decimal_of(index as u64 + 1).as_str())
}

/// How a request is told of a workspace.
pub open spec fn workspace_summary(app: AppView, index: int, w: WorkspaceView) -> JsonView {
    ObjectView::new().with("id"@, JsonView::Text(w.id)).with("workspace_id"@, JsonView::Text(w.id)).with(
        "window_id"@,
        JsonView::Text(app.window_id),
    ).with("ref"@, JsonView::Text(reference_text("workspace:"@, index))).with(
        "index"@,
        JsonView::Unsigned((index + 1) as u64),
    ).with("title"@, JsonView::Text(w.title)).with(
        "selected"@,
        JsonView::Bool(is_id(app.state.active_workspace_id, w.id)),
    ).with("pane_count"@, JsonView::Unsigned(w.panes.len() as u64)).with(
        "surface_count"@,
        JsonView::Unsigned(w.surfaces.len() as u64),
    ).done()
}

/// The answer about a workspace.
pub open spec fn workspace_result(app: AppView, index: int, w: WorkspaceView) -> JsonView {
    ObjectView::new().with("workspace_id"@, JsonView::Text(w.id)).with(
        "workspace_ref"@,
        JsonView::Text(reference_text("workspace:"@, index)),
    ).with("window_id"@, JsonView::Text(app.window_id)).with(
        "workspace"@,
        workspace_summary(app, index, w),
    ).done()
}

/// How a request is told of a pane.
pub open spec fn pane_summary(app: AppView, w: WorkspaceView, index: int, p: PaneView) -> JsonView {
    ObjectView::new().with("id"@, JsonView::Text(p.id)).with("pane_id"@, JsonView::Text(p.id)).with(
        "workspace_id"@,
        JsonView::Text(w.id),
    ).with("window_id"@, JsonView::Text(app.window_id)).with(
        "ref"@,
        JsonView::Text(reference_text("pane:"@, index)),
    ).with("index"@, JsonView::Unsigned((index + 1) as u64)).with(
        "surface_count"@,
        JsonView::Unsigned(p.surface_ids.len() as u64),
    ).with("focused"@, JsonView::Bool(is_id(app.state.active_pane_id, p.id))).with(
        "selected_surface_id"@,
        optional_text_view(p.active_surface_id),
    ).done()
}

/// Whether a surface is the one on top of its pane.
pub open spec fn on_top(w: WorkspaceView, s: SurfaceView) -> bool {
    match first_at(pane_ids(w.panes), s.pane_id) {
        Some(i) => is_id(w.panes[i].active_surface_id, s.id),
        None => false,
    }
}

/// How a request is told of a surface.
pub open spec fn surface_summary(app: AppView, w: WorkspaceView, index: int, s: SurfaceView) -> JsonView {
    ObjectView::new().with("id"@, JsonView::Text(s.id)).with("surface_id"@, JsonView::Text(s.id)).with(
        "panel_id"@,
        JsonView::Text(s.id),
    ).with("pane_id"@, JsonView::Text(s.pane_id)).with("workspace_id"@, JsonView::Text(w.id)).with(
        "workspaceId"@,
        JsonView::Text(w.id),
    ).with("window_id"@, JsonView::Text(app.window_id)).with(
        "ref"@,
        JsonView::Text(reference_text("surface:"@, index)),
    ).with("index"@, JsonView::Unsigned((index + 1) as u64)).with(
        "title"@,
        JsonView::Text(s.title),
    ).with("kind"@, JsonView::Text(kind_text(s.kind))).with(
        "type"@,
        JsonView::Text(kind_text(s.kind)),
    ).with("url"@, optional_text_view(s.url)).with(
        "initial_command"@,
        optional_text_view(s.initial_command),
    ).with("working_directory"@, optional_text_view(s.working_directory)).with(
        "focused"@,
        JsonView::Bool(is_id(app.state.active_surface_id, s.id)),
    ).with("selected"@, JsonView::Bool(on_top(w, s))).done()
}

/// The reference to the pane of a surface; the first pane where it is gone.
pub open spec fn pane_reference(w: WorkspaceView, s: SurfaceView) -> Seq<char> {
    match first_at(pane_ids(w.panes), s.pane_id) {
        Some(i) => reference_text("pane:"@, i),
        None => "pane:1"@,
    }
}

/// The answer about a surface.
pub open spec fn surface_result(app: AppView, w: int, index: int, s: SurfaceView) -> JsonView {
    let workspace = app.state.workspaces[w];
    ObjectView::new().with("workspace_id"@, JsonView::Text(s.workspace_id)).with(
        "pane_id"@,
        JsonView::Text(s.pane_id),
    ).with("surface_id"@, JsonView::Text(s.id)).with("panel_id"@, JsonView::Text(s.id)).with(
        "surface_ref"@,
        JsonView::Text(reference_text("surface:"@, index)),
    ).with("pane_ref"@, JsonView::Text(pane_reference(workspace, s))).with(
        "window_id"@,
        JsonView::Text(app.window_id),
    ).with("workspace"@, workspace_summary(app, w, workspace)).with(
        "surface"@,
        surface_summary(app, workspace, index, s),
    ).done()
}

impl AppState {
    /// How a request is told of a workspace.
    pub fn workspace_summary_value(&self, index: usize, w: &WorkspaceRecord) -> (r: Json)
        requires
            index < usize::MAX,
        ensures
            r@ == workspace_summary(self@, index as int, w@),
    {
        Object::new().with("id", Json::text(w.id.as_str())).with(
            "workspace_id",
            Json::text(w.id.as_str()),
        ).with("window_id", Json::text(self.window_id.as_str())).with(
            "ref",
            Json::Text(reference_to("workspace:", index)),
        ).with("index", Json::count(index + 1)).with("title", Json::text(w.title.as_str())).with(
            "selected",
            Json::Bool(same_id(&self.state.active_workspace_id, w.id.as_str())),
        ).with("pane_count", Json::count(w.panes.len())).with(
            "surface_count",
            Json::count(w.surfaces.len()),
        ).done()
    }

    /// The answer about a workspace.
    pub fn workspace_result_value(&self, index: usize, w: &WorkspaceRecord) -> (r: Json)
        requires
            index < usize::MAX,
        ensures
            r@ == workspace_result(self@, index as int, w@),
    {
        Object::new().with("workspace_id", Json::text(w.id.as_str())).with(
            "workspace_ref",
            Json::Text(reference_to("workspace:", index)),
        ).with("window_id", Json::text(self.window_id.as_str())).with(
            "workspace",
            self.workspace_summary_value(index, w),
        ).done()
    }

    /// How a request is told of a pane.
    pub fn pane_summary_value(&self, w: &WorkspaceRecord, index: usize, p: &PaneRecord) -> (r: Json)
        requires
            index < usize::MAX,
        ensures
            r@ == pane_summary(self@, w@, index as int, p@),
    {
        Object::new().with("id", Json::text(p.id.as_str())).with("pane_id", Json::text(p.id.as_str())).with(
            "workspace_id",
            Json::text(w.id.as_str()),
        ).with("window_id", Json::text(self.window_id.as_str())).with(
            "ref",
            Json::Text(reference_to("pane:", index)),
        ).with("index", Json::count(index + 1)).with(
            "surface_count",
            Json::count(p.surface_ids.len()),
        ).with(
            "focused",
            Json::Bool(same_id(&self.state.active_pane_id, p.id.as_str())),
        ).with("selected_surface_id", Json::optional_text(&p.active_surface_id)).done()
    }

    /// How a request is told of a surface.
    pub fn surface_summary_value(
        &self,
        w: &WorkspaceRecord,
        index: usize,
        s: &SurfaceRecord,
    ) -> (r: Json)
        requires
            index < usize::MAX,
        ensures
            r@ == surface_summary(self@, w@, index as int, s@),
    {
        let selected = match pane_position(&w.panes, s.pane_id.as_str()) {
            Some(i) => same_id(&w.panes[i].active_surface_id, s.id.as_str()),
            None => false,
        };
        Object::new().with("id", Json::text(s.id.as_str())).with(
            "surface_id",
            Json::text(s.id.as_str()),
        ).with("panel_id", Json::text(s.id.as_str())).with(
            "pane_id",
            Json::text(s.pane_id.as_str()),
        ).with("workspace_id", Json::text(w.id.as_str())).with(
            "workspaceId",
            Json::text(w.id.as_str()),
        ).with("window_id", Json::text(self.window_id.as_str())).with(
            "ref",
            Json::Text(reference_to("surface:", index)),
        ).with("index", Json::count(index + 1)).with("title", Json::text(s.title.as_str())).with(
            "kind",
            Json::text(surface_kind_name(s.kind)),
        ).with("type", Json::text(surface_kind_name(s.kind))).with(
            "url",
            Json::optional_text(&s.url),
        ).with("initial_command", Json::optional_text(&s.initial_command)).with(
            "working_directory",
            Json::optional_text(&s.working_directory),
        ).with(
            "focused",
            Json::Bool(same_id(&self.state.active_surface_id, s.id.as_str())),
        ).with("selected", Json::Bool(selected)).done()
    }

    /// The answer about a surface.
    pub fn surface_result_value(&self, w: usize, index: usize, s: &SurfaceRecord) -> (r: Json)
        requires
            w < self.state.workspaces@.len(),
            index < usize::MAX,
        ensures
            r@ == surface_result(self@, w as int, index as int, s@),
    {
        assert(self.state.workspaces.len() <= usize::MAX);
        let workspace = &self.state.workspaces[w];
        assert(workspace.panes.len() <= usize::MAX);
        let pane_ref = match pane_position(&workspace.panes, s.pane_id.as_str()) {
            Some(i) => reference_to("pane:", i),
            None => "pane:1".to_owned(),
        };
        Object::new().with("workspace_id", Json::text(s.workspace_id.as_str())).with(
            "pane_id",
            Json::text(s.pane_id.as_str()),
        ).with("surface_id", Json::text(s.id.as_str())).with(
            "panel_id",
            Json::text(s.id.as_str()),
        ).with("surface_ref", Json::Text(reference_to("surface:", index))).with(
            "pane_ref",
            Json::Text(pane_ref),
        ).with("window_id", Json::text(self.window_id.as_str())).with(
            "workspace",
            self.workspace_summary_value(w, workspace),
        ).with("surface", self.surface_summary_value(workspace, index, s)).done()
    }
}

} // verus!
