//! Operations on surfaces.

use crate::app_state::{answered, asked, refused, AppState, AppView, Turn};
use crate::host::{ask, asking, ActionView, HostAction, HostReply, ReplyView, Step};
use crate::json::{
    items_view, lemma_array_view, optional_chars, optional_ref_view, Json, JsonView, Object, ObjectView,
};
use crate::layout::prune_layout;
use crate::lists::{first_at, group_views, lemma_first_from, remove_text, views, without};
use crate::locate::{
    lemma_surface_by_id, pane_at, pane_by_id, pane_location, pane_place, resolve_surface_identifier,
    surface_at, surface_by_id, surface_location, surface_named, surface_place, unknown_pane,
    unknown_pane_error, unknown_surface, unknown_surface_error, unknown_workspace, unknown_workspace_error,
};
use crate::model::{
    ids_of_panes, is_id, pane_ids, pane_position, same_id, surface_ids, surface_position, workspace_ids,
    workspace_position, PaneRecord, PaneView, State, StateView, SurfaceKind, SurfaceRecord, SurfaceView,
    WorkspaceRecord, WorkspaceView,
};
use crate::opening::{
    opening_from_params, opening_of, requested_kind, surface_kind_param, Opening, OpeningView,
};
use crate::page::copy_optional;
use crate::panes::{given_pane, given_pane_id, given_workspace, given_workspace_id, is_wanted, wanted};
use crate::records_json::{surface_json, surface_value};
use crate::rpc::{
    invalid, invalid_params, outcome_view, panel_text, required, required_surface_param, text_outcome,
    ErrorView, RpcError,
};
use crate::summary::{surface_result, surface_summary};
use crate::text::join2;
use crate::workspaces::{first_pane, first_pane_id, place_outcome, said, turn_of};
use vstd::prelude::*;

verus! {

/// What a step makes of the shell.
pub open spec fn step_turn(r: Step, app: AppView) -> Turn {
    Turn { step: r@, app }
}

// ---------------------------------------------------------------------------
// Lists

/// What is told of the surfaces of a workspace.
pub open spec fn surfaces_told(app: AppView, w: WorkspaceView) -> Seq<JsonView> {
    Seq::new(w.surfaces.len(), |i: int| surface_summary(app, w, i, w.surfaces[i]))
}

/// What is told of the surfaces of the workspaces from `w` on.
pub open spec fn surfaces_from(app: AppView, only: Option<Seq<char>>, w: int) -> Seq<JsonView>
    decreases app.state.workspaces.len() - w,
{
    if w < 0 || w >= app.state.workspaces.len() {
        Seq::empty()
    } else if wanted(only, app.state.workspaces[w].id) {
        surfaces_told(app, app.state.workspaces[w]) + surfaces_from(app, only, w + 1)
    } else {
        surfaces_from(app, only, w + 1)
    }
}

/// The surfaces of a workspace, or of all.
pub open spec fn surfaces_listed(app: AppView, params: Option<JsonView>) -> Result<JsonView, ErrorView> {
    match given_workspace(app.state, params) {
        Err(e) => Err(e),
        Ok(only) => Ok(
            ObjectView::new().with("surfaces"@, JsonView::Array(surfaces_from(app, only, 0))).done(),
        ),
    }
}

impl AppState {
    /// Appends what is told of the surfaces of a workspace.
    fn push_surfaces(&self, w: &WorkspaceRecord, out: &mut Vec<Json>)
        ensures
            items_view(final(out)@) == items_view(old(out)@) + surfaces_told(self@, w@),
    {
        let ghost start = items_view(out@);
        let ghost all = surfaces_told(self@, w@);
        let mut i: usize = 0;
        let length: usize = w.surfaces.len();
        assert(start + all.take(0) =~= start);
        while i < length
            invariant
                i <= length == w.surfaces@.len(),
                all == surfaces_told(self@, w@),
                items_view(out@) == start + all.take(i as int),
            decreases length - i,
        {
            let ghost before = out@;
            out.push(self.surface_summary_value(w, i, &w.surfaces[i]));
            assert(items_view(out@) =~= items_view(before).push(all[i as int]));
            assert(all.take(i + 1) =~= all.take(i as int).push(all[i as int]));
            i += 1;
        }
        assert(all.take(length as int) =~= all);
    }

    /// The surfaces of a workspace, or of all.
    pub fn list_surfaces(&self, params: Option<&Json>) -> (r: Result<Json, RpcError>)
        ensures
            outcome_view(r) == surfaces_listed(self@, optional_ref_view(params)),
    {
        broadcast use lemma_array_view;

        match given_workspace_id(&self.state, params) {
            Err(e) => Err(e),
            Ok(only) => {
                let mut items: Vec<Json> = Vec::new();
                let mut w: usize = 0;
                let ghost wanted_id = optional_chars(only);
                while w < self.state.workspaces.len()
                    invariant
                        w <= self.state.workspaces@.len(),
                        wanted_id == optional_chars(only),
                        items_view(items@) + surfaces_from(self@, wanted_id, w as int)
                            =~= surfaces_from(self@, wanted_id, 0),
                    decreases self.state.workspaces@.len() - w,
                {
                    let workspace = &self.state.workspaces[w];
                    if is_wanted(&only, workspace.id.as_str()) {
                        self.push_surfaces(workspace, &mut items);
                    }
                    w += 1;
                }
                assert(items_view(items@) =~= surfaces_from(self@, wanted_id, 0));
                Ok(Object::new().with("surfaces", Json::Array(items)).done())
            },
        }
    }
}

// ---------------------------------------------------------------------------
// New surfaces

/// Where a new surface goes, and what it shows. Without a place among the
/// panes, a pane is made for it.
pub struct SurfacePlan {
    pub w: usize,
    pub p: Option<usize>,
    pub opening: Opening,
}

/// Where a new surface goes, and what it shows.
pub struct SurfacePlanView {
    pub w: int,
    pub p: Option<int>,
    pub opening: OpeningView,
}

impl View for SurfacePlan {
    type V = SurfacePlanView;

    open spec fn view(&self) -> SurfacePlanView {
        SurfacePlanView {
            w: self.w as int,
            p: match self.p {
                Some(p) => Some(p as int),
                None => None,
            },
            opening: self.opening@,
        }
    }
}

/// The workspace of a new surface: the one named, or that of the pane named, or
/// the first one.
pub open spec fn surface_home(
    s: StateView,
    workspace: Option<Seq<char>>,
    pane: Option<Seq<char>>,
) -> Result<int, ErrorView> {
    match workspace {
        Some(id) => match first_at(workspace_ids(s.workspaces), id) {
            Some(w) => Ok(w),
            None => Err(unknown_workspace(id)),
        },
        None => match pane {
            Some(id) => match pane_place(s.workspaces, id, 0) {
                Some((w, _)) => Ok(w),
                None => Err(unknown_pane(id)),
            },
            None => if s.workspaces.len() > 0 {
                Ok(0)
            } else {
                Err(invalid("no workspace exists"@))
            },
        },
    }
}

/// The first pane, if there is one.
pub open spec fn default_pane(w: WorkspaceView) -> Option<int> {
    if w.panes.len() > 0 {
        Some(0)
    } else {
        None
    }
}

/// The pane of a new surface: the one named, or the active one where it is in
/// the workspace, or the first one.
pub open spec fn surface_pane(s: StateView, w: WorkspaceView, pane: Option<Seq<char>>) -> Result<
    Option<int>,
    ErrorView,
> {
    match pane {
        Some(id) => match first_at(pane_ids(w.panes), id) {
            Some(p) => Ok(Some(p)),
            None => Err(unknown_pane(id)),
        },
        None => match s.active_pane_id {
            Some(id) => match first_at(pane_ids(w.panes), id) {
                Some(p) => Ok(Some(p)),
                None => Ok(default_pane(w)),
            },
            None => Ok(default_pane(w)),
        },
    }
}

/// The plan of a new surface, or why there is none.
pub open spec fn surface_plan(s: StateView, params: Option<JsonView>) -> Result<
    SurfacePlanView,
    ErrorView,
> {
    match requested_kind(params, "surface type must be terminal, browser, or markdown"@) {
        Err(e) => Err(e),
        Ok(kind) => match given_workspace(s, params) {
            Err(e) => Err(e),
            Ok(workspace) => match given_pane(s, params) {
                Err(e) => Err(e),
                Ok(pane) => match surface_home(s, workspace, pane) {
                    Err(e) => Err(e),
                    Ok(w) => match surface_pane(s, s.workspaces[w], pane) {
                        Err(e) => Err(e),
                        Ok(p) => Ok(
                            SurfacePlanView { w, p, opening: opening_of(params, kind, true) },
                        ),
                    },
                },
            },
        },
    }
}

/// What a result says whose value is a plan.
pub open spec fn surface_plan_outcome(r: Result<SurfacePlan, RpcError>) -> Result<
    SurfacePlanView,
    ErrorView,
> {
    match r {
        Ok(plan) => Ok(plan@),
        Err(e) => Err(e@),
    }
}

/// A workspace with a pane made for it.
pub open spec fn with_bare_pane(w: WorkspaceView, pane_id: Seq<char>) -> WorkspaceView {
    WorkspaceView {
        panes: w.panes.push(
            PaneView {
                id: pane_id,
                workspace_id: w.id,
                surface_ids: Seq::empty(),
                active_surface_id: None,
            },
        ),
        ..w
    }
}

/// A workspace with a new surface on top of a pane.
pub open spec fn with_new_surface(w: WorkspaceView, p: int, surface: SurfaceView) -> WorkspaceView {
    WorkspaceView {
        surfaces: w.surfaces.push(surface),
        panes: w.panes.update(
            p,
            PaneView {
                surface_ids: w.panes[p].surface_ids.push(surface.id),
                active_surface_id: Some(surface.id),
                ..w.panes[p]
            },
        ),
        ..w
    }
}

/// The shell after a pane was made for a new surface, where the plan has none,
/// and the workspace and the place of the pane.
pub open spec fn with_pane_ready(app: AppView, nanos: u64, plan: SurfacePlanView) -> (
    AppView,
    WorkspaceView,
    int,
) {
    let w = app.state.workspaces[plan.w];
    match plan.p {
        Some(p) => (app, w, p),
        None => (
            app.counted(),
            with_bare_pane(w, app.next_id("pane"@, nanos)),
            w.panes.len() as int,
        ),
    }
}

/// A new surface.
pub open spec fn surface_created(app: AppView, nanos: u64, params: Option<JsonView>) -> Turn {
    match surface_plan(app.state, params) {
        Err(e) => refused(app, e),
        Ok(plan) => {
            let (ready, w, p) = with_pane_ready(app, nanos, plan);
            let id = ready.next_id("surface"@, nanos);
            let surface = plan.opening.surface(id, w.id, w.panes[p].id);
            let now = with_new_surface(w, p, surface);
            let after = ready.counted().changed_to(
                app.state.with_workspace(plan.w, now).focused(
                    Some(w.id),
                    Some(w.panes[p].id),
                    Some(id),
                ),
            );
            let s = first_at(surface_ids(now.surfaces), id)->0;
            answered(after, surface_result(after, plan.w, s, surface))
        },
    }
}

/// Whether the page that a new surface shows, if any, can be read.
pub open spec fn surface_can_open(app: AppView, params: Option<JsonView>) -> bool {
    surface_plan(app.state, params) matches Ok(plan) ==> plan.opening.can_open()
}

/// The workspace of a new surface.
fn surface_home_place(state: &State, workspace: &Option<String>, pane: &Option<String>) -> (r: Result<
    usize,
    RpcError,
>)
    ensures
        place_outcome(r) == surface_home(
            state@,
            optional_chars(*workspace),
            optional_chars(*pane),
        ),
        r matches Ok(w) ==> w < state.workspaces@.len(),
{
    match workspace {
        Some(id) => match workspace_position(&state.workspaces, id.as_str()) {
            Some(w) => Ok(w),
            None => Err(unknown_workspace_error(id.as_str())),
        },
        None => match pane {
            Some(id) => match pane_by_id(&state.workspaces, id.as_str()) {
                Some((w, _)) => Ok(w),
                None => Err(unknown_pane_error(id.as_str())),
            },
            None => if state.workspaces.len() > 0 {
                Ok(0)
            } else {
                Err(invalid_params("no workspace exists"))
            },
        },
    }
}

/// What a result says whose value is an optional place.
pub open spec fn optional_place_outcome(r: Result<Option<usize>, RpcError>) -> Result<
    Option<int>,
    ErrorView,
> {
    match r {
        Ok(Some(p)) => Ok(Some(p as int)),
        Ok(None) => Ok(None),
        Err(e) => Err(e@),
    }
}

/// The pane of a new surface.
fn surface_pane_place(state: &State, w: &WorkspaceRecord, pane: &Option<String>) -> (r: Result<
    Option<usize>,
    RpcError,
>)
    ensures
        optional_place_outcome(r) == surface_pane(state@, w@, optional_chars(*pane)),
        r matches Ok(Some(p)) ==> p < w.panes@.len(),
{
    match pane {
        Some(id) => match pane_position(&w.panes, id.as_str()) {
            Some(p) => Ok(Some(p)),
            None => Err(unknown_pane_error(id.as_str())),
        },
        None => {
            if let Some(id) = &state.active_pane_id {
                if let Some(p) = pane_position(&w.panes, id.as_str()) {
                    return Ok(Some(p));
                }
            }
            if w.panes.len() > 0 {
                Ok(Some(0))
            } else {
                Ok(None)
            }
        },
    }
}

/// The plan of a new surface, or why there is none.
pub fn plan_surface(state: &State, params: Option<&Json>) -> (r: Result<SurfacePlan, RpcError>)
    ensures
        surface_plan_outcome(r) == surface_plan(state@, optional_ref_view(params)),
        r matches Ok(plan) ==> plan.w < state.workspaces@.len() && (plan.p matches Some(p) ==> p
            < state.workspaces@[plan.w as int].panes@.len()),
{
    let kind = match surface_kind_param(
        params,
        "surface type must be terminal, browser, or markdown",
    ) {
        Ok(k) => k,
        Err(e) => {
            return Err(e);
        },
    };
    let workspace = match given_workspace_id(state, params) {
        Ok(id) => id,
        Err(e) => {
            return Err(e);
        },
    };
    let pane = match given_pane_id(state, params) {
        Ok(id) => id,
        Err(e) => {
            return Err(e);
        },
    };
    match surface_home_place(state, &workspace, &pane) {
        Err(e) => Err(e),
        Ok(w) => match surface_pane_place(state, &state.workspaces[w], &pane) {
            Err(e) => Err(e),
            Ok(p) => Ok(SurfacePlan { w, p, opening: opening_from_params(params, kind, true) }),
        },
    }
}

/// Makes a pane in a workspace that has none.
fn add_bare_pane(w: &mut WorkspaceRecord, pane_id: String)
    ensures
        final(w)@ == with_bare_pane(old(w)@, pane_id@),
        final(w).panes@.len() == old(w).panes@.len() + 1,
        final(w).surfaces == old(w).surfaces,
{
    broadcast use group_views;

    let pane = PaneRecord {
        id: pane_id,
        workspace_id: w.id.clone(),
        surface_ids: Vec::new(),
        active_surface_id: None,
    };
    w.panes.push(pane);
}

/// Puts a new surface on top of a pane.
fn add_surface(w: &mut WorkspaceRecord, p: usize, surface: SurfaceRecord)
    requires
        p < old(w).panes@.len(),
    ensures
        final(w)@ == with_new_surface(old(w)@, p as int, surface@),
        final(w).surfaces@ == old(w).surfaces@.push(surface),
{
    broadcast use group_views;

    w.panes[p].surface_ids.push(surface.id.clone());
    w.panes[p].active_surface_id = Some(surface.id.clone());
    w.surfaces.push(surface);
}

impl AppState {
    /// Opens a new surface.
    pub fn create_surface(&mut self, params: Option<&Json>, nanos: u64) -> (r: Result<Json, RpcError>)
        requires
            surface_can_open(old(self)@, optional_ref_view(params)),
        ensures
            turn_of(r, final(self)@) == surface_created(old(self)@, nanos, optional_ref_view(params)),
    {
        broadcast use group_views;

        let ghost before = self@;
        match plan_surface(&self.state, params) {
            Err(e) => Err(e),
            Ok(plan) => {
                let ghost view = plan@;
                let w: usize = plan.w;
                let p: usize = match plan.p {
                    Some(p) => p,
                    None => {
                        let pane_id = self.next_uuid("pane", nanos);
                        let p: usize = self.state.workspaces[w].panes.len();
                        add_bare_pane(self.workspace_mut(w), pane_id);
                        p
                    },
                };
                let ghost ready = with_pane_ready(before, nanos, view);
                proof {
                    assert(self.state.workspaces@[w as int]@ == ready.1);
                    assert(views(self.state.workspaces@[w as int].panes@).len()
                        == ready.1.panes.len());
                    assert(p == ready.2);
                }
                let id = self.next_uuid("surface", nanos);
                let workspace_id = self.state.workspaces[w].id.clone();
                let pane_id = self.state.workspaces[w].panes[p].id.clone();
                let surface = plan.opening.open(id.as_str(), workspace_id.as_str(), pane_id.as_str());
                let kept = surface.copy();
                add_surface(self.workspace_mut(w), p, surface);
                self.set_focus(Some(workspace_id), Some(pane_id), Some(id.clone()));
                self.mark_state_changed();
                proof {
                    let now = with_new_surface(ready.1, ready.2, kept@);
                    let ids = surface_ids(now.surfaces);
                    assert(self@.state.workspaces =~= before.state.workspaces.update(w as int, now));
                    lemma_first_from(ids, id@, 0);
                    assert(ids[ids.len() - 1] == id@);
                }
                assert(self.state.workspaces@[w as int].surfaces.len() <= usize::MAX);
                let s: usize = match surface_position(
                    &self.state.workspaces[w].surfaces,
                    id.as_str(),
                ) {
                    Some(s) => s,
                    None => 0,
                };
                Ok(self.surface_result_value(w, s, &kept))
            },
        }
    }
}

// ---------------------------------------------------------------------------
// Focus

/// The place of the surface that a request must name.
pub open spec fn requested_surface(s: StateView, params: Option<JsonView>) -> Result<
    (int, int),
    ErrorView,
> {
    match required(panel_text(params), "surface"@) {
        Err(e) => Err(e),
        Ok(name) => match surface_named(s, name) {
            Err(e) => Err(e),
            Ok(id) => match surface_place(s.workspaces, id, 0) {
                Some(place) => Ok(place),
                None => Err(unknown_surface(id)),
            },
        },
    }
}

/// What a result says whose value is two places.
pub open spec fn places_outcome(r: Result<(usize, usize), RpcError>) -> Result<
    (int, int),
    ErrorView,
> {
    match r {
        Ok((w, i)) => Ok((w as int, i as int)),
        Err(e) => Err(e@),
    }
}

/// A state in which a surface has the focus and is on top of its pane.
pub open spec fn surface_raised(s: StateView, surface: SurfaceView) -> StateView {
    let moved = s.focused(
        Some(surface.workspace_id),
        Some(surface.pane_id),
        Some(surface.id),
    );
    match pane_at(moved, surface.pane_id) {
        Some((w, p)) => moved.with_pane(
            w,
            p,
            PaneView {
                active_surface_id: Some(surface.id),
                ..moved.workspaces[w].panes[p]
            },
        ),
        None => moved,
    }
}

/// The answer about a surface, found again by its id.
pub open spec fn found_again(after: AppView, surface: SurfaceView) -> JsonView {
    let (w, i) = surface_at(after.state, surface.id)->0;
    surface_result(after, w, i, surface)
}

/// A surface that gets the focus. A terminal on the screen gets it too.
pub open spec fn surface_focused(
    app: AppView,
    params: Option<JsonView>,
    replies: Seq<ReplyView>,
) -> Turn {
    match requested_surface(app.state, params) {
        Err(e) => refused(app, e),
        Ok((w, i)) => {
            let surface = app.state.workspaces[w].surfaces[i];
            if surface.kind == SurfaceKind::Terminal && replies.len() == 0 {
                asked(app, asking(surface.id, ActionView::TerminalFocus))
            } else {
                let after = app.changed_to(surface_raised(app.state, surface));
                answered(after, found_again(after, surface))
            }
        },
    }
}

/// Putting a surface on top leaves all surfaces where they are.
proof fn lemma_surface_raised(s: StateView, surface: SurfaceView)
    ensures
        surface_raised(s, surface).workspaces.len() == s.workspaces.len(),
        forall|w: int|
            0 <= w < s.workspaces.len() ==> (#[trigger] surface_raised(s, surface).workspaces[w]).surfaces
                == s.workspaces[w].surfaces,
{
    crate::locate::lemma_pane_at(
        s.focused(Some(surface.workspace_id), Some(surface.pane_id), Some(surface.id)),
        surface.pane_id,
    );
}

impl AppState {
    /// The place of the surface that a request must name.
    pub fn requested_surface_place(&self, params: Option<&Json>) -> (r: Result<(usize, usize), RpcError>)
        ensures
            places_outcome(r) == requested_surface(self@.state, optional_ref_view(params)),
            r matches Ok((w, i)) ==> w < self.state.workspaces@.len() && i
                < self.state.workspaces@[w as int].surfaces@.len(),
    {
        match required_surface_param(params) {
            Err(e) => Err(e),
            Ok(name) => match resolve_surface_identifier(&self.state, name.as_str()) {
                Err(e) => Err(e),
                Ok(id) => match surface_by_id(&self.state.workspaces, id.as_str()) {
                    Some(place) => Ok(place),
                    None => Err(unknown_surface_error(id.as_str())),
                },
            },
        }
    }

    /// Gives a surface the focus and puts it on top of its pane.
    pub fn raise_surface(&mut self, surface: &SurfaceRecord)
        ensures
            final(self)@ == old(self)@.holding(surface_raised(old(self)@.state, surface@)),
    {
        self.set_focus(
            Some(surface.workspace_id.clone()),
            Some(surface.pane_id.clone()),
            Some(surface.id.clone()),
        );
        if let Some((w, p)) = pane_location(&self.state, surface.pane_id.as_str()) {
            self.pane_mut(w, p).active_surface_id = Some(surface.id.clone());
        }
    }

    /// The answer about a surface, found again by its id.
    fn found_again_value(&self, surface: &SurfaceRecord) -> (r: Json)
        requires
            surface_at(self@.state, surface@.id) is Some,
        ensures
            r@ == found_again(self@, surface@),
    {
        match surface_location(&self.state, surface.id.as_str()) {
            Some((w, i)) => {
                assert(self.state.workspaces@[w as int].surfaces.len() <= usize::MAX);
                self.surface_result_value(w, i, surface)
            },
            None => Json::Null,
        }
    }

    /// Gives a surface the focus.
    pub fn focus_surface(&mut self, params: Option<&Json>, replies: &Vec<HostReply>) -> (r: Step)
        ensures
            step_turn(r, final(self)@) == surface_focused(
                old(self)@,
                optional_ref_view(params),
                views(replies@),
            ),
    {
        broadcast use group_views;

        match self.requested_surface_place(params) {
            Err(e) => Step::Done(Err(e)),
            Ok((w, i)) => {
                let surface = self.state.workspaces[w].surfaces[i].copy();
                if let SurfaceKind::Terminal = surface.kind {
                    if replies.len() == 0 {
                        return Step::Ask(ask(surface.id.as_str(), HostAction::TerminalFocus));
                    }
                }
                let ghost before = self@.state;
                self.raise_surface(&surface);
                self.mark_state_changed();
                proof {
                    lemma_surface_raised(before, surface@);
                    assert(self@.state.workspaces[w as int].surfaces
                        == before.workspaces[w as int].surfaces);
                    lemma_surface_by_id(self@.state, w as int, i as int);
                }
                Step::Done(Ok(self.found_again_value(&surface)))
            },
        }
    }
}

/// The shell after the user focused a surface, and what is said where there is
/// none.
pub open spec fn focused_by_id(app: AppView, identifier: Seq<char>) -> (Result<(), Seq<char>>, AppView) {
    match surface_named(app.state, identifier) {
        Err(e) => (Err(e.message), app),
        Ok(id) => {
            let (w, i) = surface_at(app.state, id)->0;
            let surface = app.state.workspaces[w].surfaces[i];
            let panes = app.state.workspaces[w].panes;
            let raised = match first_at(pane_ids(panes), surface.pane_id) {
                Some(p) => app.state.with_pane(
                    w,
                    p,
                    PaneView { active_surface_id: Some(surface.id), ..panes[p] },
                ),
                None => app.state,
            };
            (
                Ok(()),
                app.changed_to(
                    raised.focused(
                        Some(surface.workspace_id),
                        Some(surface.pane_id),
                        Some(surface.id),
                    ),
                ),
            )
        },
    }
}

/// The id that an identifier resolves to names a surface.
pub proof fn lemma_named_surface(s: StateView, identifier: Seq<char>)
    ensures
        surface_named(s, identifier) matches Ok(id) ==> surface_at(s, id) is Some && surface_place(
            s.workspaces,
            id,
            0,
        ) is Some,
{
    crate::locate::lemma_surface_at(s, identifier);
    if let Some((w, i)) = surface_at(s, identifier) {
        lemma_surface_by_id(s, w, i);
        crate::locate::lemma_surface_found(s.workspaces, w, i, 0);
    }
}

impl AppState {
    /// Gives a surface the focus for the user.
    pub fn focus_surface_by_id(&mut self, surface_id: &str) -> (r: Result<(), String>)
        ensures
            (said(r), final(self)@) == focused_by_id(old(self)@, surface_id@),
    {
        proof {
            lemma_named_surface(self@.state, surface_id@);
        }
        match resolve_surface_identifier(&self.state, surface_id) {
            Err(e) => Err(e.message),
            Ok(id) => match surface_location(&self.state, id.as_str()) {
                None => Err(join2("unknown surface: ", id.as_str())),
                Some((w, i)) => {
                    let surface = self.state.workspaces[w].surfaces[i].copy();
                    let place = pane_position(
                        &self.state.workspaces[w].panes,
                        surface.pane_id.as_str(),
                    );
                    if let Some(p) = place {
                        self.pane_mut(w, p).active_surface_id = Some(surface.id.clone());
                    }
                    self.set_focus(
                        Some(surface.workspace_id),
                        Some(surface.pane_id),
                        Some(surface.id),
                    );
                    self.mark_state_changed();
                    Ok(())
                },
            },
        }
    }
}

// ---------------------------------------------------------------------------
// Closing

/// The surface that a request closes: the one it names, or the active one.
pub open spec fn closing_surface(s: StateView, params: Option<JsonView>) -> Result<
    Seq<char>,
    ErrorView,
> {
    match panel_text(params) {
        Some(name) => surface_named(s, name),
        None => match s.active_surface_id {
            Some(id) => Ok(id),
            None => Err(invalid("no active surface"@)),
        },
    }
}

/// A pane without a surface: where that was on top, the first of the others is.
pub open spec fn pane_without(p: PaneView, id: Seq<char>) -> PaneView {
    let rest = without(p.surface_ids, id);
    PaneView {
        surface_ids: rest,
        active_surface_id: if is_id(p.active_surface_id, id) {
            if rest.len() > 0 {
                Some(rest[0])
            } else {
                None
            }
        } else {
            p.active_surface_id
        },
        ..p
    }
}

/// The panes of a workspace without a surface.
pub open spec fn panes_without(panes: Seq<PaneView>, id: Seq<char>) -> Seq<PaneView> {
    panes.map_values(|p: PaneView| pane_without(p, id))
}

/// Whether a pane has a surface.
pub open spec fn occupied(p: PaneView) -> bool {
    p.surface_ids.len() > 0
}

/// A workspace without a surface. Panes that are left empty go too, unless the
/// workspace has no surface any more; the layout keeps the panes that stay.
pub open spec fn workspace_without(w: WorkspaceView, i: int) -> WorkspaceView {
    let id = w.surfaces[i].id;
    let surfaces = w.surfaces.remove(i);
    let rest = panes_without(w.panes, id);
    let panes = if surfaces.len() > 0 {
        rest.filter(|p: PaneView| occupied(p))
    } else {
        rest
    };
    WorkspaceView {
        surfaces,
        panes,
        layout: match w.layout.prune(pane_ids(panes)) {
            Some(layout) => layout,
            None => w.layout,
        },
        ..w
    }
}

/// The surface on top of the first pane.
pub open spec fn first_top(w: WorkspaceView) -> Option<Seq<char>> {
    if w.panes.len() > 0 {
        w.panes[0].active_surface_id
    } else {
        None
    }
}

/// A state without a surface: where that had the focus, the first pane of its
/// workspace gets it.
pub open spec fn state_without_surface(s: StateView, w: int, i: int) -> StateView {
    let id = s.workspaces[w].surfaces[i].id;
    let rest = workspace_without(s.workspaces[w], i);
    let after = s.with_workspace(w, rest);
    if is_id(s.active_surface_id, id) {
        after.focused(s.active_workspace_id, first_pane(rest), first_top(rest))
    } else {
        after
    }
}

/// What is taken off the screen with a surface.
pub open spec fn unregistering(kind: SurfaceKind) -> Option<ActionView> {
    match kind {
        SurfaceKind::Terminal => Some(ActionView::TerminalUnregister),
        SurfaceKind::Browser => Some(ActionView::BrowserUnregister),
        SurfaceKind::Markdown => None,
    }
}

/// A surface that is closed.
pub open spec fn surface_closed(
    app: AppView,
    params: Option<JsonView>,
    replies: Seq<ReplyView>,
) -> Turn {
    match closing_surface(app.state, params) {
        Err(e) => refused(app, e),
        Ok(id) => match surface_place(app.state.workspaces, id, 0) {
            None => refused(app, unknown_surface(id)),
            Some((w, i)) => {
                let surface = app.state.workspaces[w].surfaces[i];
                if unregistering(surface.kind) is Some && replies.len() == 0 {
                    asked(app, asking(surface.id, unregistering(surface.kind)->0))
                } else {
                    answered(
                        app.changed_to(state_without_surface(app.state, w, i)),
                        ObjectView::new().with(
                            "workspace_id"@,
                            JsonView::Text(surface.workspace_id),
                        ).with("pane_id"@, JsonView::Text(surface.pane_id)).with(
                            "surface_id"@,
                            JsonView::Text(surface.id),
                        ).with("closed"@, JsonView::Bool(true)).with(
                            "surface"@,
                            surface_value(surface),
                        ).done(),
                    )
                }
            },
        },
    }
}

/// The surface that a request closes.
fn closing_surface_id(state: &State, params: Option<&Json>) -> (r: Result<String, RpcError>)
    ensures
        text_outcome(r) == closing_surface(state@, optional_ref_view(params)),
{
    match required_surface_param(params) {
        Ok(name) => resolve_surface_identifier(state, name.as_str()),
        Err(_) => match &state.active_surface_id {
            Some(id) => Ok(id.clone()),
            None => Err(invalid_params("no active surface")),
        },
    }
}

/// Takes a surface off a pane.
fn take_off_pane(p: &PaneRecord, id: &str) -> (r: PaneRecord)
    ensures
        r@ == pane_without(p@, id@),
{
    let rest = remove_text(&p.surface_ids, id);
    let active = if same_id(&p.active_surface_id, id) {
        if rest.len() > 0 {
            Some(rest[0].clone())
        } else {
            None
        }
    } else {
        copy_optional(&p.active_surface_id)
    };
    PaneRecord {
        id: p.id.clone(),
        workspace_id: p.workspace_id.clone(),
        surface_ids: rest,
        active_surface_id: active,
    }
}

/// Takes a surface off the panes; empty panes go where `drop_empty` says so.
fn take_off_panes(panes: &Vec<PaneRecord>, id: &str, drop_empty: bool) -> (r: Vec<PaneRecord>)
    ensures
        views(r@) == if drop_empty {
            panes_without(views(panes@), id@).filter(|p: PaneView| occupied(p))
        } else {
            panes_without(views(panes@), id@)
        },
{
    broadcast use group_views;

    let ghost all = panes_without(views(panes@), id@);
    let ghost keep = |p: PaneView| occupied(p);
    let mut out: Vec<PaneRecord> = Vec::new();
    let mut i: usize = 0;
    proof {
        reveal(Seq::filter);
        assert(all.take(0) =~= Seq::empty());
    }
    while i < panes.len()
        invariant
            i <= panes@.len(),
            all == panes_without(views(panes@), id@),
            keep == (|p: PaneView| occupied(p)),
            views(out@) == if drop_empty {
                all.take(i as int).filter(keep)
            } else {
                all.take(i as int)
            },
        decreases panes@.len() - i,
    {
        proof {
            reveal(Seq::filter);
            assert(all.take(i + 1).drop_last() =~= all.take(i as int));
            assert(all.take(i + 1).last() == all[i as int]);
            assert(all.take(i + 1) =~= all.take(i as int).push(all[i as int]));
        }
        let pane = take_off_pane(&panes[i], id);
        if !drop_empty || pane.surface_ids.len() > 0 {
            out.push(pane);
        }
        i += 1;
    }
    assert(all.take(all.len() as int) =~= all);
    out
}

/// Takes a surface out of a workspace.
fn take_out_surface(w: &mut WorkspaceRecord, i: usize) -> (r: SurfaceRecord)
    requires
        i < old(w).surfaces@.len(),
    ensures
        final(w)@ == workspace_without(old(w)@, i as int),
        r@ == old(w)@.surfaces[i as int],
{
    broadcast use group_views;

    let surface = w.surfaces.remove(i);
    let has_surfaces = !w.surfaces.is_empty();
    w.panes = take_off_panes(&w.panes, surface.id.as_str(), has_surfaces);
    let ids = ids_of_panes(&w.panes);
    if let Some(layout) = prune_layout(&w.layout, &ids) {
        w.layout = layout;
    }
    surface
}

impl AppState {
    /// Closes a surface.
    pub fn close_surface(&mut self, params: Option<&Json>, replies: &Vec<HostReply>) -> (r: Step)
        ensures
            step_turn(r, final(self)@) == surface_closed(
                old(self)@,
                optional_ref_view(params),
                views(replies@),
            ),
    {
        broadcast use group_views;

        let id = match closing_surface_id(&self.state, params) {
            Ok(id) => id,
            Err(e) => {
                return Step::Done(Err(e));
            },
        };
        match surface_by_id(&self.state.workspaces, id.as_str()) {
            None => Step::Done(Err(unknown_surface_error(id.as_str()))),
            Some((w, i)) => {
                let kind = self.state.workspaces[w].surfaces[i].kind;
                if replies.len() == 0 {
                    let own_id = self.state.workspaces[w].surfaces[i].id.as_str();
                    match kind {
                        SurfaceKind::Terminal => {
                            return Step::Ask(ask(own_id, HostAction::TerminalUnregister));
                        },
                        SurfaceKind::Browser => {
                            return Step::Ask(ask(own_id, HostAction::BrowserUnregister));
                        },
                        SurfaceKind::Markdown => {},
                    }
                }
                let surface = take_out_surface(self.workspace_mut(w), i);
                if same_id(&self.state.active_surface_id, surface.id.as_str()) {
                    let workspace = &self.state.workspaces[w];
                    let pane = first_pane_id(workspace);
                    let top = if workspace.panes.len() > 0 {
                        copy_optional(&workspace.panes[0].active_surface_id)
                    } else {
                        None
                    };
                    let active = copy_optional(&self.state.active_workspace_id);
                    self.set_focus(active, pane, top);
                }
                self.mark_state_changed();
                Step::Done(
                    Ok(
                        Object::new().with(
                            "workspace_id",
                            Json::text(surface.workspace_id.as_str()),
                        ).with("pane_id", Json::text(surface.pane_id.as_str())).with(
                            "surface_id",
                            Json::text(surface.id.as_str()),
                        ).with("closed", Json::Bool(true)).with(
                            "surface",
                            surface_json(&surface),
                        ).done(),
                    ),
                )
            },
        }
    }
}

} // verus!
