//! Operations on panes.

use crate::app_state::{answered, refused, AppState, AppView, Turn};
use crate::json::{
    items_view, lemma_array_view, optional_chars, optional_ref_view, Json, JsonView, Object, ObjectView,
};
use crate::layout::{
    clamp_ratio, clamped, insert_pane_in_layout, resize_split_for_pane, swap_panes_in_layout,
    SplitDirection, RATIO_HALF,
};
use crate::lists::{first_at, group_views, lemma_first_at_contains, lemma_first_from, views};
use crate::locate::{
    current_index, current_workspace_index, pane_at, pane_by_id, pane_location, pane_named, pane_place,
    resolve_pane_identifier, resolve_surface_identifier, resolve_workspace_identifier, surface_at,
    surface_location, surface_named, unknown_pane, unknown_pane_error, unknown_workspace,
    unknown_workspace_error, workspace_named,
};
use crate::model::{
    pane_ids, pane_position, surface_ids, surface_position, workspace_ids, workspace_position, PaneRecord,
    PaneView, State, StateView, WorkspaceRecord, WorkspaceView,
};
use crate::opening::{
    asks_before, opening_from_params, opening_of, requested_direction, requested_kind,
    split_direction_from_params, split_insert_before, surface_kind_param, Opening, OpeningView,
};
use crate::page::copy_optional;
use crate::records_json::{ratio_json, ratio_value};
use crate::rpc::{
    invalid, invalid_params, optional_string_any4, outcome_view, pane_param, pane_text, param, param_value,
    require, required, required_pane_param, surface_param, surface_text, text4, workspace_param,
    workspace_text, ErrorView, Readings, RpcError,
};
use crate::summary::{pane_summary, surface_summary, workspace_summary};
use crate::text::{owned, texts};
use crate::workspaces::turn_of;
use vstd::prelude::*;

verus! {

/// What a result says whose value is an optional text.
pub open spec fn optional_outcome(r: Result<Option<String>, RpcError>) -> Result<
    Option<Seq<char>>,
    ErrorView,
> {
    match r {
        Ok(s) => Ok(optional_chars(s)),
        Err(e) => Err(e@),
    }
}

/// The id of the workspace that a request names, if it names one.
pub open spec fn given_workspace(s: StateView, params: Option<JsonView>) -> Result<
    Option<Seq<char>>,
    ErrorView,
> {
    match workspace_text(params) {
        None => Ok(None),
        Some(name) => match workspace_named(s, name) {
            Ok(id) => Ok(Some(id)),
            Err(e) => Err(e),
        },
    }
}

/// The id of the pane that a request names, if it names one.
pub open spec fn given_pane(s: StateView, params: Option<JsonView>) -> Result<
    Option<Seq<char>>,
    ErrorView,
> {
    match pane_text(params) {
        None => Ok(None),
        Some(name) => match pane_named(s, name) {
            Ok(id) => Ok(Some(id)),
            Err(e) => Err(e),
        },
    }
}

/// The id of the surface that a request names, if it names one.
pub open spec fn given_surface(s: StateView, params: Option<JsonView>) -> Result<
    Option<Seq<char>>,
    ErrorView,
> {
    match surface_text(params) {
        None => Ok(None),
        Some(name) => match surface_named(s, name) {
            Ok(id) => Ok(Some(id)),
            Err(e) => Err(e),
        },
    }
}

/// The id of the workspace that a request names, if it names one.
pub fn given_workspace_id(state: &State, params: Option<&Json>) -> (r: Result<
    Option<String>,
    RpcError,
>)
    ensures
        optional_outcome(r) == given_workspace(state@, optional_ref_view(params)),
{
    match workspace_param(params) {
        None => Ok(None),
        Some(name) => match resolve_workspace_identifier(state, name.as_str()) {
            Ok(id) => Ok(Some(id)),
            Err(e) => Err(e),
        },
    }
}

/// The id of the pane that a request names, if it names one.
pub fn given_pane_id(state: &State, params: Option<&Json>) -> (r: Result<Option<String>, RpcError>)
    ensures
        optional_outcome(r) == given_pane(state@, optional_ref_view(params)),
{
    match pane_param(params) {
        None => Ok(None),
        Some(name) => match resolve_pane_identifier(state, name.as_str()) {
            Ok(id) => Ok(Some(id)),
            Err(e) => Err(e),
        },
    }
}

/// The id of the surface that a request names, if it names one.
pub fn given_surface_id(state: &State, params: Option<&Json>) -> (r: Result<
    Option<String>,
    RpcError,
>)
    ensures
        optional_outcome(r) == given_surface(state@, optional_ref_view(params)),
{
    match surface_param(params) {
        None => Ok(None),
        Some(name) => match resolve_surface_identifier(state, name.as_str()) {
            Ok(id) => Ok(Some(id)),
            Err(e) => Err(e),
        },
    }
}

// ---------------------------------------------------------------------------
// Lists

/// What is told of the panes of a workspace.
pub open spec fn panes_told(app: AppView, w: WorkspaceView) -> Seq<JsonView> {
    Seq::new(w.panes.len(), |i: int| pane_summary(app, w, i, w.panes[i]))
}

/// Whether a workspace is the one asked for, or all are.
pub open spec fn wanted(only: Option<Seq<char>>, id: Seq<char>) -> bool {
    only is None || only == Some(id)
}

/// What is told of the panes of the workspaces from `w` on.
pub open spec fn panes_from(app: AppView, only: Option<Seq<char>>, w: int) -> Seq<JsonView>
    decreases app.state.workspaces.len() - w,
{
    if w < 0 || w >= app.state.workspaces.len() {
        Seq::empty()
    } else if wanted(only, app.state.workspaces[w].id) {
        panes_told(app, app.state.workspaces[w]) + panes_from(app, only, w + 1)
    } else {
        panes_from(app, only, w + 1)
    }
}

/// The panes of a workspace, or of all.
pub open spec fn panes_listed(app: AppView, params: Option<JsonView>) -> Result<JsonView, ErrorView> {
    match given_workspace(app.state, params) {
        Err(e) => Err(e),
        Ok(only) => Ok(
            ObjectView::new().with("panes"@, JsonView::Array(panes_from(app, only, 0))).done(),
        ),
    }
}

/// Whether a workspace is the one asked for, or all are.
pub fn is_wanted(only: &Option<String>, id: &str) -> (r: bool)
    ensures
        r == wanted(optional_chars(*only), id@),
{
    match only {
        None => true,
        Some(o) => crate::text::same(o.as_str(), id),
    }
}

impl AppState {
    /// Appends what is told of the panes of a workspace.
    fn push_panes(&self, w: &WorkspaceRecord, out: &mut Vec<Json>)
        ensures
            items_view(final(out)@) == items_view(old(out)@) + panes_told(self@, w@),
    {
        let ghost start = items_view(out@);
        let mut i: usize = 0;
        let length: usize = w.panes.len();
        assert(panes_told(self@, w@).take(0) =~= Seq::empty());
        assert(start + panes_told(self@, w@).take(0) =~= start);
        while i < length
            invariant
                i <= length == w.panes@.len(),
                items_view(out@) == start + panes_told(self@, w@).take(i as int),
            decreases length - i,
        {
            let ghost before = out@;
            out.push(self.pane_summary_value(w, i, &w.panes[i]));
            assert(items_view(out@) =~= items_view(before).push(panes_told(self@, w@)[i as int]));
            assert(panes_told(self@, w@).take(i + 1) =~= panes_told(self@, w@).take(i as int).push(
                panes_told(self@, w@)[i as int],
            ));
            i += 1;
        }
        assert(panes_told(self@, w@).take(length as int) =~= panes_told(self@, w@));
    }

    /// The panes of a workspace, or of all.
    pub fn list_panes(&self, params: Option<&Json>) -> (r: Result<Json, RpcError>)
        ensures
            outcome_view(r) == panes_listed(self@, optional_ref_view(params)),
    {
        broadcast use lemma_array_view;

        match given_workspace_id(&self.state, params) {
            Err(e) => Err(e),
            Ok(only) => {
                let mut items: Vec<Json> = Vec::new();
                let mut w: usize = 0;
                let ghost wanted_id = optional_chars(only);
                while w < self.state.workspaces.len()
                    invariant
                        w <= self.state.workspaces@.len(),
                        wanted_id == optional_chars(only),
                        items_view(items@) + panes_from(self@, wanted_id, w as int) =~= panes_from(
                            self@,
                            wanted_id,
                            0,
                        ),
                    decreases self.state.workspaces@.len() - w,
                {
                    let workspace = &self.state.workspaces[w];
                    if is_wanted(&only, workspace.id.as_str()) {
                        self.push_panes(workspace, &mut items);
                    }
                    w += 1;
                }
                assert(items_view(items@) =~= panes_from(self@, wanted_id, 0));
                Ok(Object::new().with("panes", Json::Array(items)).done())
            },
        }
    }
}

/// What is told of the surfaces of a pane from `i` on; one that is gone is left
/// out.
pub open spec fn stack_from(
    app: AppView,
    w: WorkspaceView,
    ids: Seq<Seq<char>>,
    i: int,
) -> Seq<JsonView>
    decreases ids.len() - i,
{
    if i < 0 || i >= ids.len() {
        Seq::empty()
    } else {
        match first_at(surface_ids(w.surfaces), ids[i]) {
            Some(k) => seq![surface_summary(app, w, i, w.surfaces[k])] + stack_from(
                app,
                w,
                ids,
                i + 1,
            ),
            None => stack_from(app, w, ids, i + 1),
        }
    }
}

/// The pane that a request names, or the active one, if there is one.
pub open spec fn given_or_active_pane(s: StateView, params: Option<JsonView>) -> Result<
    Option<Seq<char>>,
    ErrorView,
> {
    match given_pane(s, params) {
        Err(e) => Err(e),
        Ok(Some(id)) => Ok(Some(id)),
        Ok(None) => Ok(s.active_pane_id),
    }
}

/// The surfaces of a pane.
pub open spec fn pane_surfaces_told(app: AppView, params: Option<JsonView>) -> Result<
    JsonView,
    ErrorView,
> {
    match given_or_active_pane(app.state, params) {
        Err(e) => Err(e),
        Ok(None) => Ok(ObjectView::new().with("surfaces"@, JsonView::Array(Seq::empty())).done()),
        Ok(Some(id)) => match pane_place(app.state.workspaces, id, 0) {
            None => Err(unknown_pane(id)),
            Some((w, i)) => {
                let workspace = app.state.workspaces[w];
                let pane = workspace.panes[i];
                let first = first_at(workspace_ids(app.state.workspaces), workspace.id)->0;
                Ok(
                    ObjectView::new().with("workspace_id"@, JsonView::Text(workspace.id)).with(
                        "pane_id"@,
                        JsonView::Text(pane.id),
                    ).with("pane"@, pane_summary(app, workspace, i, pane)).with(
                        "workspace"@,
                        workspace_summary(app, first, workspace),
                    ).with(
                        "surfaces"@,
                        JsonView::Array(stack_from(app, workspace, pane.surface_ids, 0)),
                    ).done(),
                )
            },
        },
    }
}

/// The id of the pane that a request names, or of the active one.
fn given_or_active_pane_id(state: &State, params: Option<&Json>) -> (r: Result<
    Option<String>,
    RpcError,
>)
    ensures
        optional_outcome(r) == given_or_active_pane(state@, optional_ref_view(params)),
{
    match given_pane_id(state, params) {
        Err(e) => Err(e),
        Ok(Some(id)) => Ok(Some(id)),
        Ok(None) => Ok(copy_optional(&state.active_pane_id)),
    }
}

impl AppState {
    /// What is told of the surfaces of a pane.
    fn stack_summaries(&self, w: &WorkspaceRecord, pane: &PaneRecord) -> (r: Vec<Json>)
        ensures
            items_view(r@) == stack_from(self@, w@, pane@.surface_ids, 0),
    {
        let mut items: Vec<Json> = Vec::new();
        let mut i: usize = 0;
        let length: usize = pane.surface_ids.len();
        let ghost ids = pane@.surface_ids;
        while i < length
            invariant
                i <= length == pane.surface_ids@.len(),
                ids == pane@.surface_ids,
                items_view(items@) + stack_from(self@, w@, ids, i as int) =~= stack_from(
                    self@,
                    w@,
                    ids,
                    0,
                ),
            decreases length - i,
        {
            if let Some(k) = surface_position(&w.surfaces, pane.surface_ids[i].as_str()) {
                let ghost before = items@;
                items.push(self.surface_summary_value(w, i, &w.surfaces[k]));
                assert(items_view(items@) =~= items_view(before).push(
                    surface_summary(self@, w@, i as int, w@.surfaces[k as int]),
                ));
            }
            i += 1;
        }
        assert(items_view(items@) =~= stack_from(self@, w@, ids, 0));
        items
    }

    /// The surfaces of a pane.
    pub fn pane_surfaces(&self, params: Option<&Json>) -> (r: Result<Json, RpcError>)
        ensures
            outcome_view(r) == pane_surfaces_told(self@, optional_ref_view(params)),
    {
        broadcast use lemma_array_view;

        match given_or_active_pane_id(&self.state, params) {
            Err(e) => Err(e),
            Ok(None) => {
                let none: Vec<Json> = Vec::new();
                assert(items_view(none@) =~= Seq::empty());
                Ok(Object::new().with("surfaces", Json::Array(none)).done())
            },
            Ok(Some(id)) => match pane_by_id(&self.state.workspaces, id.as_str()) {
                None => Err(unknown_pane_error(id.as_str())),
                Some((w, i)) => {
                    let workspace = &self.state.workspaces[w];
                    let pane = &workspace.panes[i];
                    assert(self.state.workspaces.len() <= usize::MAX);
                    assert(workspace.panes.len() <= usize::MAX);
                    proof {
                        let ids = workspace_ids(self@.state.workspaces);
                        lemma_first_from(ids, workspace@.id, 0);
                        assert(ids[w as int] == workspace@.id);
                    }
                    let first: usize = match workspace_position(
                        &self.state.workspaces,
                        workspace.id.as_str(),
                    ) {
                        Some(first) => first,
                        None => 0,
                    };
                    let surfaces = self.stack_summaries(workspace, pane);
                    Ok(
                        Object::new().with("workspace_id", Json::text(workspace.id.as_str())).with(
                            "pane_id",
                            Json::text(pane.id.as_str()),
                        ).with("pane", self.pane_summary_value(workspace, i, pane)).with(
                            "workspace",
                            self.workspace_summary_value(first, workspace),
                        ).with("surfaces", Json::Array(surfaces)).done(),
                    )
                },
            },
        }
    }
}

// ---------------------------------------------------------------------------
// New panes

/// Where a new pane goes, and what it shows.
pub struct PanePlan {
    pub w: usize,
    pub target: Option<String>,
    pub direction: SplitDirection,
    pub ahead: bool,
    pub opening: Opening,
}

/// Where a new pane goes, and what it shows.
pub struct PanePlanView {
    pub w: int,
    pub target: Option<Seq<char>>,
    pub direction: SplitDirection,
    pub ahead: bool,
    pub opening: OpeningView,
}

impl View for PanePlan {
    type V = PanePlanView;

    open spec fn view(&self) -> PanePlanView {
        PanePlanView {
            w: self.w as int,
            target: optional_chars(self.target),
            direction: self.direction,
            ahead: self.ahead,
            opening: self.opening@,
        }
    }
}

/// The pane that is split: that of the surface named, or the one named, or the
/// active one.
pub open spec fn split_target(
    s: StateView,
    pane: Option<Seq<char>>,
    surface: Option<Seq<char>>,
) -> Option<Seq<char>> {
    match surface {
        Some(id) => match surface_at(s, id) {
            Some((w, i)) => Some(s.workspaces[w].surfaces[i].pane_id),
            None => None,
        },
        None => match pane {
            Some(id) => Some(id),
            None => s.active_pane_id,
        },
    }
}

/// The workspace of a new pane: the one named, or that of the pane that is
/// split, or the current one.
pub open spec fn pane_home(
    s: StateView,
    workspace: Option<Seq<char>>,
    target: Option<Seq<char>>,
) -> Result<int, ErrorView> {
    match workspace {
        Some(id) => match first_at(workspace_ids(s.workspaces), id) {
            Some(w) => Ok(w),
            None => Err(unknown_workspace(id)),
        },
        None => match target {
            Some(id) => match pane_place(s.workspaces, id, 0) {
                Some((w, _)) => Ok(w),
                None => Err(unknown_pane(id)),
            },
            None => match current_index(s) {
                Some(w) => Ok(w),
                None => Err(invalid("no workspace exists"@)),
            },
        },
    }
}

/// The plan of a new pane, or why there is none.
pub open spec fn pane_plan(s: StateView, params: Option<JsonView>) -> Result<PanePlanView, ErrorView> {
    match requested_direction(params) {
        Err(e) => Err(e),
        Ok(direction) => match requested_kind(
            params,
            "pane type must be terminal, browser, or markdown"@,
        ) {
            Err(e) => Err(e),
            Ok(kind) => match given_workspace(s, params) {
                Err(e) => Err(e),
                Ok(workspace) => match given_pane(s, params) {
                    Err(e) => Err(e),
                    Ok(pane) => match given_surface(s, params) {
                        Err(e) => Err(e),
                        Ok(surface) => {
                            let target = split_target(s, pane, surface);
                            match pane_home(s, workspace, target) {
                                Err(e) => Err(e),
                                Ok(w) => Ok(
                                    PanePlanView {
                                        w,
                                        target,
                                        direction,
                                        ahead: asks_before(params),
                                        opening: opening_of(params, kind, false),
                                    },
                                ),
                            }
                        },
                    },
                },
            },
        },
    }
}

/// What a result says whose value is a plan.
pub open spec fn pane_plan_outcome(r: Result<PanePlan, RpcError>) -> Result<PanePlanView, ErrorView> {
    match r {
        Ok(plan) => Ok(plan@),
        Err(e) => Err(e@),
    }
}

/// A pane with one surface on it.
pub open spec fn pane_with(id: Seq<char>, workspace_id: Seq<char>, surface_id: Seq<char>) -> PaneView {
    PaneView {
        id,
        workspace_id,
        surface_ids: seq![surface_id],
        active_surface_id: Some(surface_id),
    }
}

/// A workspace with a new pane in it.
pub open spec fn with_new_pane(
    w: WorkspaceView,
    plan: PanePlanView,
    pane_id: Seq<char>,
    surface_id: Seq<char>,
) -> WorkspaceView {
    let panes = w.panes.push(pane_with(pane_id, w.id, surface_id));
    let target = match plan.target {
        Some(id) => if pane_ids(panes).contains(id) {
            Some(id)
        } else {
            None
        },
        None => None,
    };
    WorkspaceView {
        panes,
        surfaces: w.surfaces.push(plan.opening.surface(surface_id, w.id, pane_id)),
        layout: w.layout.insert(target, pane_id, plan.direction, plan.ahead),
        ..w
    }
}

/// The shell with a new pane, which has the focus.
pub open spec fn after_new_pane(app: AppView, nanos: u64, plan: PanePlanView) -> AppView {
    let pane_id = app.next_id("pane"@, nanos);
    let surface_id = app.counted().next_id("surface"@, nanos);
    let after = app.counted().counted();
    let w = app.state.workspaces[plan.w];
    after.changed_to(
        after.state.with_workspace(plan.w, with_new_pane(w, plan, pane_id, surface_id)).focused(
            Some(w.id),
            Some(pane_id),
            Some(surface_id),
        ),
    )
}

/// The answer about a new pane.
pub open spec fn new_pane_told(
    after: AppView,
    plan: PanePlanView,
    pane_id: Seq<char>,
    surface_id: Seq<char>,
) -> JsonView {
    let w = after.state.workspaces[plan.w];
    let p = first_at(pane_ids(w.panes), pane_id)->0;
    let s = first_at(surface_ids(w.surfaces), surface_id)->0;
    ObjectView::new().with("window_id"@, JsonView::Text(after.window_id)).with(
        "workspace_id"@,
        JsonView::Text(w.id),
    ).with("pane_id"@, JsonView::Text(pane_id)).with("surface_id"@, JsonView::Text(surface_id)).with(
        "pane"@,
        pane_summary(after, w, p, w.panes.last()),
    ).with("surface"@, surface_summary(after, w, s, w.surfaces.last())).done()
}

/// A new pane.
pub open spec fn pane_created(app: AppView, nanos: u64, params: Option<JsonView>) -> Turn {
    match pane_plan(app.state, params) {
        Err(e) => refused(app, e),
        Ok(plan) => {
            let after = after_new_pane(app, nanos, plan);
            answered(
                after,
                new_pane_told(
                    after,
                    plan,
                    app.next_id("pane"@, nanos),
                    app.counted().next_id("surface"@, nanos),
                ),
            )
        },
    }
}

/// Whether the page that a new pane shows, if any, can be read.
pub open spec fn pane_can_open(app: AppView, params: Option<JsonView>) -> bool {
    pane_plan(app.state, params) matches Ok(plan) ==> plan.opening.can_open()
}

/// The pane that is split.
fn split_target_id(state: &State, pane: &Option<String>, surface: &Option<String>) -> (r: Option<
    String,
>)
    ensures
        optional_chars(r) == split_target(
            state@,
            optional_chars(*pane),
            optional_chars(*surface),
        ),
{
    match surface {
        Some(id) => match surface_location(state, id.as_str()) {
            Some((w, i)) => Some(state.workspaces[w].surfaces[i].pane_id.clone()),
            None => None,
        },
        None => match pane {
            Some(id) => Some(id.clone()),
            None => copy_optional(&state.active_pane_id),
        },
    }
}

/// The workspace of a new pane.
fn pane_home_place(state: &State, workspace: &Option<String>, target: &Option<String>) -> (r: Result<
    usize,
    RpcError,
>)
    ensures
        crate::workspaces::place_outcome(r) == pane_home(
            state@,
            optional_chars(*workspace),
            optional_chars(*target),
        ),
        r matches Ok(w) ==> w < state.workspaces@.len(),
{
    match workspace {
        Some(id) => match workspace_position(&state.workspaces, id.as_str()) {
            Some(w) => Ok(w),
            None => Err(unknown_workspace_error(id.as_str())),
        },
        None => match target {
            Some(id) => match pane_by_id(&state.workspaces, id.as_str()) {
                Some((w, _)) => Ok(w),
                None => Err(unknown_pane_error(id.as_str())),
            },
            None => match current_workspace_index(state) {
                Some(w) => Ok(w),
                None => Err(invalid_params("no workspace exists")),
            },
        },
    }
}

/// The plan of a new pane, or why there is none.
pub fn plan_pane(state: &State, params: Option<&Json>) -> (r: Result<PanePlan, RpcError>)
    ensures
        pane_plan_outcome(r) == pane_plan(state@, optional_ref_view(params)),
        r matches Ok(plan) ==> plan.w < state.workspaces@.len(),
{
    let direction = match split_direction_from_params(params) {
        Ok(d) => d,
        Err(e) => {
            return Err(e);
        },
    };
    let kind = match surface_kind_param(params, "pane type must be terminal, browser, or markdown") {
        Ok(k) => k,
        Err(e) => {
            return Err(e);
        },
    };
    let workspace = match given_workspace_id(state, params) {
        Ok(id) => id,
        Err(e) => {
            return Err(e);
        },
    };
    let pane = match given_pane_id(state, params) {
        Ok(id) => id,
        Err(e) => {
            return Err(e);
        },
    };
    let surface = match given_surface_id(state, params) {
        Ok(id) => id,
        Err(e) => {
            return Err(e);
        },
    };
    let target = split_target_id(state, &pane, &surface);
    match pane_home_place(state, &workspace, &target) {
        Err(e) => Err(e),
        Ok(w) => Ok(
            PanePlan {
                w,
                target,
                direction,
                ahead: split_insert_before(params),
                opening: opening_from_params(params, kind, false),
            },
        ),
    }
}

/// Puts a new pane in a workspace.
fn add_pane(w: &mut WorkspaceRecord, plan: PanePlan, pane_id: &str, surface_id: &str)
    requires
        plan@.opening.can_open(),
    ensures
        final(w)@ == with_new_pane(old(w)@, plan@, pane_id@, surface_id@),
{
    broadcast use group_views;

    let mut stack: Vec<String> = Vec::new();
    stack.push(owned(surface_id));
    assert(texts(stack@) =~= seq![surface_id@]);
    let pane = PaneRecord {
        id: owned(pane_id),
        workspace_id: w.id.clone(),
        surface_ids: stack,
        active_surface_id: Some(owned(surface_id)),
    };
    let surface = plan.opening.open(surface_id, w.id.as_str(), pane_id);
    w.panes.push(pane);
    w.surfaces.push(surface);
    let target = match plan.target {
        Some(id) => {
            proof {
                lemma_first_at_contains(pane_ids(w@.panes), id@);
            }
            if pane_position(&w.panes, id.as_str()).is_some() {
                Some(id)
            } else {
                None
            }
        },
        None => None,
    };
    match &target {
        Some(id) => {
            insert_pane_in_layout(
                &mut w.layout,
                Some(id.as_str()),
                pane_id,
                plan.direction,
                plan.ahead,
            );
        },
        None => {
            insert_pane_in_layout(&mut w.layout, None, pane_id, plan.direction, plan.ahead);
        },
    }
}

impl AppState {
    /// The answer about a new pane.
    fn new_pane_value(&self, w: usize, pane_id: &str, surface_id: &str) -> (r: Json)
        requires
            w < self.state.workspaces@.len(),
            self.state.workspaces@[w as int].panes@.len() > 0,
            self.state.workspaces@[w as int].panes@.last().id@ == pane_id@,
            self.state.workspaces@[w as int].surfaces@.len() > 0,
            self.state.workspaces@[w as int].surfaces@.last().id@ == surface_id@,
        ensures
            forall|plan: PanePlanView|
                plan.w == w ==> r@ == #[trigger] new_pane_told(self@, plan, pane_id@, surface_id@),
    {
        let workspace = &self.state.workspaces[w];
        let panes: usize = workspace.panes.len();
        let surfaces: usize = workspace.surfaces.len();
        proof {
            let pids = pane_ids(workspace@.panes);
            lemma_first_from(pids, pane_id@, 0);
            assert(pids[panes - 1] == pane_id@);
            let sids = surface_ids(workspace@.surfaces);
            lemma_first_from(sids, surface_id@, 0);
            assert(sids[surfaces - 1] == surface_id@);
        }
        let p: usize = match pane_position(&workspace.panes, pane_id) {
            Some(p) => p,
            None => 0,
        };
        let s: usize = match surface_position(&workspace.surfaces, surface_id) {
            Some(s) => s,
            None => 0,
        };
        Object::new().with("window_id", Json::text(self.window_id.as_str())).with(
            "workspace_id",
            Json::text(workspace.id.as_str()),
        ).with("pane_id", Json::text(pane_id)).with("surface_id", Json::text(surface_id)).with(
            "pane",
            self.pane_summary_value(workspace, p, &workspace.panes[panes - 1]),
        ).with(
            "surface",
            self.surface_summary_value(workspace, s, &workspace.surfaces[surfaces - 1]),
        ).done()
    }

    /// Opens a new pane.
    pub fn create_pane(&mut self, params: Option<&Json>, nanos: u64) -> (r: Result<Json, RpcError>)
        requires
            pane_can_open(old(self)@, optional_ref_view(params)),
        ensures
            turn_of(r, final(self)@) == pane_created(old(self)@, nanos, optional_ref_view(params)),
    {
        broadcast use group_views;

        let ghost before = self@;
        match plan_pane(&self.state, params) {
            Err(e) => Err(e),
            Ok(plan) => {
                let ghost p = plan@;
                let w: usize = plan.w;
                let pane_id = self.next_uuid("pane", nanos);
                let surface_id = self.next_uuid("surface", nanos);
                add_pane(self.workspace_mut(w), plan, pane_id.as_str(), surface_id.as_str());
                let workspace_id = self.state.workspaces[w].id.clone();
                self.set_focus(
                    Some(workspace_id),
                    Some(pane_id.clone()),
                    Some(surface_id.clone()),
                );
                self.mark_state_changed();
                proof {
                    let now = self.state.workspaces@[w as int]@;
                    assert(now == with_new_pane(
                        before.state.workspaces[w as int],
                        p,
                        pane_id@,
                        surface_id@,
                    ));
                    assert(views(self.state.workspaces@[w as int].panes@).last().id == pane_id@);
                    assert(views(self.state.workspaces@[w as int].surfaces@).last().id
                        == surface_id@);
                    assert(self@ == after_new_pane(before, nanos, p));
                }
                let r = self.new_pane_value(w, pane_id.as_str(), surface_id.as_str());
                assert(r@ == new_pane_told(self@, p, pane_id@, surface_id@));
                Ok(r)
            },
        }
    }
}

// ---------------------------------------------------------------------------
// Focus, places and sizes

/// The answer about a pane.
pub open spec fn pane_told(app: AppView, w: int, p: int, pane: PaneView, workspace_id: Seq<char>) -> JsonView {
    ObjectView::new().with("workspace_id"@, JsonView::Text(workspace_id)).with(
        "pane_id"@,
        JsonView::Text(pane.id),
    ).with("pane"@, pane_summary(app, app.state.workspaces[w], p, pane)).done()
}

/// A pane that gets the focus.
pub open spec fn pane_focused(app: AppView, params: Option<JsonView>) -> Turn {
    match required(pane_text(params), "pane"@) {
        Err(e) => refused(app, e),
        Ok(name) => match pane_named(app.state, name) {
            Err(e) => refused(app, e),
            Ok(id) => match pane_at(app.state, id) {
                None => refused(app, unknown_pane(id)),
                Some((w, i)) => {
                    let pane = app.state.workspaces[w].panes[i];
                    let after = app.changed_to(
                        app.state.focused(
                            Some(pane.workspace_id),
                            Some(pane.id),
                            pane.active_surface_id,
                        ),
                    );
                    answered(after, pane_told(after, w, i, pane, pane.workspace_id))
                },
            },
        },
    }
}

/// The active pane.
pub open spec fn last_pane_told(app: AppView) -> Result<JsonView, ErrorView> {
    match app.state.active_pane_id {
        None => Err(invalid("no pane selected"@)),
        Some(id) => match pane_at(app.state, id) {
            None => Err(unknown_pane(id)),
            Some((w, i)) => Ok(
                pane_told(
                    app,
                    w,
                    i,
                    app.state.workspaces[w].panes[i],
                    app.state.workspaces[w].id,
                ),
            ),
        },
    }
}

impl AppState {
    /// The answer about a pane.
    fn pane_answer(&self, w: usize, p: usize, workspace_id: &str) -> (r: Json)
        requires
            w < self.state.workspaces@.len(),
            p < self.state.workspaces@[w as int].panes@.len(),
        ensures
            r@ == pane_told(
                self@,
                w as int,
                p as int,
                self@.state.workspaces[w as int].panes[p as int],
                workspace_id@,
            ),
    {
        let workspace = &self.state.workspaces[w];
        assert(workspace.panes.len() <= usize::MAX);
        let pane = &workspace.panes[p];
        Object::new().with("workspace_id", Json::text(workspace_id)).with(
            "pane_id",
            Json::text(pane.id.as_str()),
        ).with("pane", self.pane_summary_value(workspace, p, pane)).done()
    }

    /// Gives a pane the focus.
    pub fn focus_pane(&mut self, params: Option<&Json>) -> (r: Result<Json, RpcError>)
        ensures
            turn_of(r, final(self)@) == pane_focused(old(self)@, optional_ref_view(params)),
    {
        match required_pane_param(params) {
            Err(e) => Err(e),
            Ok(name) => match resolve_pane_identifier(&self.state, name.as_str()) {
                Err(e) => Err(e),
                Ok(id) => match pane_location(&self.state, id.as_str()) {
                    None => Err(unknown_pane_error(id.as_str())),
                    Some((w, i)) => {
                        let pane = self.state.workspaces[w].panes[i].copy();
                        let workspace_id = pane.workspace_id.clone();
                        self.set_focus(
                            Some(pane.workspace_id),
                            Some(pane.id),
                            pane.active_surface_id,
                        );
                        self.mark_state_changed();
                        Ok(self.pane_answer(w, i, workspace_id.as_str()))
                    },
                },
            },
        }
    }

    /// The active pane.
    pub fn pane_last(&self) -> (r: Result<Json, RpcError>)
        ensures
            outcome_view(r) == last_pane_told(self@),
    {
        match &self.state.active_pane_id {
            None => Err(invalid_params("no pane selected")),
            Some(id) => match pane_location(&self.state, id.as_str()) {
                None => Err(unknown_pane_error(id.as_str())),
                Some((w, i)) => Ok(self.pane_answer(w, i, self.state.workspaces[w].id.as_str())),
            },
        }
    }
}

/// The pane that a request names to change places with.
pub open spec fn swap_text(params: Option<JsonView>) -> Option<Seq<char>> {
    text4(params, "target_pane"@, "targetPane"@, "target_pane_id"@, "targetPaneId"@)
}

/// Whether the focus moves along; it does where the request does not say.
pub open spec fn moves_focus(params: Option<JsonView>) -> bool {
    match param(params, "focus"@) {
        Some(JsonView::Bool(b)) => b,
        _ => true,
    }
}

/// A state in which two panes of a workspace have changed places.
pub open spec fn panes_exchanged(
    s: StateView,
    w: int,
    pane: Seq<char>,
    target: Seq<char>,
    focus: bool,
) -> StateView {
    let workspace = WorkspaceView {
        layout: s.workspaces[w].layout.swap(pane, target),
        ..s.workspaces[w]
    };
    let after = s.with_workspace(w, workspace);
    if focus {
        after.focused(
            Some(workspace.id),
            Some(target),
            match first_at(pane_ids(workspace.panes), target) {
                Some(i) => workspace.panes[i].active_surface_id,
                None => None,
            },
        )
    } else {
        after
    }
}

/// Two panes that change places.
pub open spec fn panes_swapped(app: AppView, params: Option<JsonView>) -> Turn {
    match required(pane_text(params), "pane"@) {
        Err(e) => refused(app, e),
        Ok(name) => match required(swap_text(params), "target_pane_id"@) {
            Err(e) => refused(app, e),
            Ok(target_name) => match pane_named(app.state, name) {
                Err(e) => refused(app, e),
                Ok(pane) => match pane_named(app.state, target_name) {
                    Err(e) => refused(app, e),
                    Ok(target) => match (pane_at(app.state, pane), pane_at(app.state, target)) {
                        (None, _) => refused(app, unknown_pane(pane)),
                        (_, None) => refused(app, unknown_pane(target)),
                        (Some((w, _)), Some((v, _))) => if w != v {
                            refused(app, invalid("pane.swap is limited to one workspace on Linux"@))
                        } else {
                            answered(
                                app.changed_to(
                                    panes_exchanged(
                                        app.state,
                                        w,
                                        pane,
                                        target,
                                        moves_focus(params),
                                    ),
                                ),
                                ObjectView::new().with(
                                    "workspace_id"@,
                                    JsonView::Text(app.state.workspaces[w].id),
                                ).with("pane_id"@, JsonView::Text(pane)).with(
                                    "target_pane_id"@,
                                    JsonView::Text(target),
                                ).done(),
                            )
                        },
                    },
                },
            },
        },
    }
}

/// Whether the focus moves along.
fn focus_param(params: Option<&Json>) -> (r: bool)
    ensures
        r == moves_focus(optional_ref_view(params)),
{
    match param_value(params, "focus") {
        Some(Json::Bool(b)) => *b,
        _ => true,
    }
}

impl AppState {
    /// Puts two panes of a workspace in each other's places.
    fn exchange_panes(&mut self, w: usize, pane: &str, target: &str, focus: bool)
        requires
            w < old(self).state.workspaces@.len(),
        ensures
            final(self)@ == old(self)@.holding(
                panes_exchanged(old(self)@.state, w as int, pane@, target@, focus),
            ),
            final(self).state.workspaces@.len() == old(self).state.workspaces@.len(),
    {
        broadcast use group_views;

        swap_panes_in_layout(&mut self.workspace_mut(w).layout, pane, target);
        if focus {
            let workspace = &self.state.workspaces[w];
            let id = workspace.id.clone();
            let surface = match pane_position(&workspace.panes, target) {
                Some(i) => copy_optional(&workspace.panes[i].active_surface_id),
                None => None,
            };
            self.set_focus(Some(id), Some(owned(target)), surface);
        }
    }

    /// Puts two panes in each other's places.
    pub fn pane_swap(&mut self, params: Option<&Json>) -> (r: Result<Json, RpcError>)
        ensures
            turn_of(r, final(self)@) == panes_swapped(old(self)@, optional_ref_view(params)),
    {
        let name = match required_pane_param(params) {
            Ok(name) => name,
            Err(e) => {
                return Err(e);
            },
        };
        let target_name = match require(
            optional_string_any4(
                params,
                "target_pane",
                "targetPane",
                "target_pane_id",
                "targetPaneId",
            ),
            "target_pane_id",
        ) {
            Ok(name) => name,
            Err(e) => {
                return Err(e);
            },
        };
        let pane = match resolve_pane_identifier(&self.state, name.as_str()) {
            Ok(id) => id,
            Err(e) => {
                return Err(e);
            },
        };
        let target = match resolve_pane_identifier(&self.state, target_name.as_str()) {
            Ok(id) => id,
            Err(e) => {
                return Err(e);
            },
        };
        match (
            pane_location(&self.state, pane.as_str()),
            pane_location(&self.state, target.as_str()),
        ) {
            (None, _) => Err(unknown_pane_error(pane.as_str())),
            (_, None) => Err(unknown_pane_error(target.as_str())),
            (Some((w, _)), Some((v, _))) => {
                if w != v {
                    return Err(invalid_params("pane.swap is limited to one workspace on Linux"));
                }
                let workspace_id = self.state.workspaces[w].id.clone();
                self.exchange_panes(w, pane.as_str(), target.as_str(), focus_param(params));
                self.mark_state_changed();
                Ok(
                    Object::new().with("workspace_id", Json::text(workspace_id.as_str())).with(
                        "pane_id",
                        Json::text(pane.as_str()),
                    ).with("target_pane_id", Json::text(target.as_str())).done(),
                )
            },
        }
    }
}

/// The ratio that a request asks for, brought between 0.1 and 0.9; the middle
/// where it does not say.
pub open spec fn requested_ratio(params: Option<JsonView>, readings: Readings) -> u64 {
    let read = if param(params, "ratio"@) is Some {
        readings.ratio
    } else if param(params, "percent"@) is Some {
        readings.percent
    } else {
        None
    };
    clamped(
        match read {
            Some(bits) => bits,
            None => RATIO_HALF,
        },
    )
}

/// A split resized.
pub open spec fn pane_resized(app: AppView, params: Option<JsonView>, readings: Readings) -> Turn {
    let ratio = requested_ratio(params, readings);
    match given_or_active_pane(app.state, params) {
        Err(e) => refused(app, e),
        Ok(None) => refused(app, invalid("no pane selected"@)),
        Ok(Some(id)) => match pane_at(app.state, id) {
            None => refused(app, unknown_pane(id)),
            Some((w, _)) => {
                let workspace = app.state.workspaces[w];
                if !workspace.layout.resizable(id) {
                    refused(app, invalid("pane has no resizable split"@))
                } else {
                    answered(
                        app.changed_to(
                            app.state.with_workspace(
                                w,
                                WorkspaceView {
                                    layout: workspace.layout.resize(id, ratio),
                                    ..workspace
                                },
                            ),
                        ),
                        ObjectView::new().with("workspace_id"@, JsonView::Text(workspace.id)).with(
                            "pane_id"@,
                            JsonView::Text(id),
                        ).with("ratio"@, ratio_value(ratio)).done(),
                    )
                }
            },
        },
    }
}

/// The ratio that a request asks for.
fn ratio_param(params: Option<&Json>, readings: &Readings) -> (r: u64)
    ensures
        r == requested_ratio(optional_ref_view(params), *readings),
{
    let read: Option<u64> = if param_value(params, "ratio").is_some() {
        readings.ratio
    } else if param_value(params, "percent").is_some() {
        readings.percent
    } else {
        None
    };
    clamp_ratio(
        match read {
            Some(bits) => bits,
            None => RATIO_HALF,
        },
    )
}

impl AppState {
    /// Resizes the split that holds a pane.
    pub fn pane_resize(&mut self, params: Option<&Json>, readings: &Readings) -> (r: Result<
        Json,
        RpcError,
    >)
        ensures
            turn_of(r, final(self)@) == pane_resized(
                old(self)@,
                optional_ref_view(params),
                *readings,
            ),
    {
        let ratio: u64 = ratio_param(params, readings);
        match given_or_active_pane_id(&self.state, params) {
            Err(e) => Err(e),
            Ok(None) => Err(invalid_params("no pane selected")),
            Ok(Some(id)) => match pane_location(&self.state, id.as_str()) {
                None => Err(unknown_pane_error(id.as_str())),
                Some((w, _)) => {
                    let workspace_id = self.state.workspaces[w].id.clone();
                    let ghost before = self@;
                    if !resize_split_for_pane(&mut self.workspace_mut(w).layout, id.as_str(), ratio) {
                        assert(self@.state.workspaces =~= before.state.workspaces);
                        assert(self@ =~= before);
                        return Err(invalid_params("pane has no resizable split"));
                    }
                    self.mark_state_changed();
                    Ok(
                        Object::new().with("workspace_id", Json::text(workspace_id.as_str())).with(
                            "pane_id",
                            Json::text(id.as_str()),
                        ).with("ratio", ratio_json(ratio)).done(),
                    )
                },
            },
        }
    }
}

} // verus!
