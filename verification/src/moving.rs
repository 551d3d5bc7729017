//! Moving a surface to another place.

use crate::app_state::{answered, refused, AppState, AppView, Turn};
use crate::json::{optional_chars, optional_ref_view, Json, JsonView};
use crate::lists::{first_at, group_views, lemma_first_from, remove_text, text_position, without};
use crate::locate::{
    lemma_pane_at, lemma_surface_at, lemma_surface_by_id, pane_at, pane_location, pane_named,
    resolve_pane_identifier, resolve_surface_identifier, surface_at, surface_location, surface_named,
    unknown_pane, unknown_pane_error, unknown_surface, unknown_surface_error,
};
use crate::model::{
    surface_ids, surface_position, PaneView, State, StateView, SurfaceView, WorkspaceRecord, WorkspaceView,
};
use crate::panes::optional_outcome;
use crate::rpc::{
    count_param, optional_string_any3, optional_string_any4, pane_param, pane_text, panel_text, required,
    required_surface_param, text3, text4, usize_param, ErrorView, RpcError,
};
use crate::summary::surface_result;
use crate::text::texts;
use crate::workspaces::turn_of;
use vstd::prelude::*;

verus! {

/// The pane that a request names to move to.
pub open spec fn destination_text(params: Option<JsonView>) -> Option<Seq<char>> {
    match pane_text(params) {
        Some(s) => Some(s),
        None => text3(params, "target_pane"@, "targetPane"@, "target_pane_id"@),
    }
}

/// The surface that a request names to stand before.
pub open spec fn before_text(params: Option<JsonView>) -> Option<Seq<char>> {
    text4(params, "before"@, "beforeSurface"@, "before_surface_id"@, "beforeSurfaceId"@)
}

/// The surface that a request names to stand after.
pub open spec fn after_text(params: Option<JsonView>) -> Option<Seq<char>> {
    text4(params, "after"@, "afterSurface"@, "after_surface_id"@, "afterSurfaceId"@)
}

/// The id of a surface that may be named.
pub open spec fn maybe_surface(s: StateView, name: Option<Seq<char>>) -> Result<
    Option<Seq<char>>,
    ErrorView,
> {
    match name {
        None => Ok(None),
        Some(n) => match surface_named(s, n) {
            Ok(id) => Ok(Some(id)),
            Err(e) => Err(e),
        },
    }
}

/// The id of a surface that may be named.
fn maybe_surface_id(state: &State, name: Option<String>) -> (r: Result<Option<String>, RpcError>)
    ensures
        optional_outcome(r) == maybe_surface(state@, optional_chars(name)),
{
    match name {
        None => Ok(None),
        Some(n) => match resolve_surface_identifier(state, n.as_str()) {
            Ok(id) => Ok(Some(id)),
            Err(e) => Err(e),
        },
    }
}

/// Where a surface stands in a list of ids: at the place asked for, counted
/// from one; before or after another surface; at the end otherwise.
pub open spec fn insertion(
    ids: Seq<Seq<char>>,
    index: Option<usize>,
    before: Option<Seq<char>>,
    after: Option<Seq<char>>,
) -> int {
    match index {
        Some(n) => {
            let i = if n == 0 {
                0
            } else {
                n - 1
            };
            if i <= ids.len() {
                i
            } else {
                ids.len() as int
            }
        },
        None => match before {
            Some(id) => match first_at(ids, id) {
                Some(i) => i,
                None => ids.len() as int,
            },
            None => match after {
                Some(id) => match first_at(ids, id) {
                    Some(i) => i + 1,
                    None => ids.len() as int,
                },
                None => ids.len() as int,
            },
        },
    }
}

/// Where a surface stands in a list of ids.
pub fn surface_insert_index(
    ids: &Vec<String>,
    explicit_index: Option<usize>,
    before_surface_id: &Option<String>,
    after_surface_id: &Option<String>,
) -> (r: usize)
    ensures
        r == insertion(
            texts(ids@),
            explicit_index,
            optional_chars(*before_surface_id),
            optional_chars(*after_surface_id),
        ),
        r <= ids@.len(),
{
    let length: usize = ids.len();
    match explicit_index {
        Some(n) => {
            let i: usize = if n == 0 {
                0
            } else {
                n - 1
            };
            if i <= length {
                i
            } else {
                length
            }
        },
        None => match before_surface_id {
            Some(id) => match text_position(ids, id.as_str()) {
                Some(i) => i,
                None => length,
            },
            None => match after_surface_id {
                Some(id) => match text_position(ids, id.as_str()) {
                    Some(i) => i + 1,
                    None => length,
                },
                None => length,
            },
        },
    }
}

/// Where a surface goes.
pub struct MovePlan {
    pub id: String,
    pub w: usize,
    pub s: usize,
    pub target: String,
    pub tw: usize,
    pub tp: usize,
    pub index: Option<usize>,
    pub before: Option<String>,
    pub after: Option<String>,
}

/// Where a surface goes.
pub struct MovePlanView {
    pub id: Seq<char>,
    pub w: int,
    pub s: int,
    pub target: Seq<char>,
    pub tw: int,
    pub tp: int,
    pub index: Option<usize>,
    pub before: Option<Seq<char>>,
    pub after: Option<Seq<char>>,
}

impl View for MovePlan {
    type V = MovePlanView;

    open spec fn view(&self) -> MovePlanView {
        MovePlanView {
            id: self.id@,
            w: self.w as int,
            s: self.s as int,
            target: self.target@,
            tw: self.tw as int,
            tp: self.tp as int,
            index: self.index,
            before: optional_chars(self.before),
            after: optional_chars(self.after),
        }
    }
}

/// The pane of the surface that the moved one stands beside, if it stands
/// beside one.
pub open spec fn neighbour_pane(
    s: StateView,
    before: Option<Seq<char>>,
    after: Option<Seq<char>>,
) -> Option<Seq<char>> {
    let beside = match before {
        Some(id) => Some(id),
        None => after,
    };
    match beside {
        None => None,
        Some(id) => match surface_at(s, id) {
            Some((w, i)) => Some(s.workspaces[w].surfaces[i].pane_id),
            None => None,
        },
    }
}

/// The pane that a surface moves to: the one named, or that of its neighbour,
/// or its own.
pub open spec fn destination(
    s: StateView,
    params: Option<JsonView>,
    before: Option<Seq<char>>,
    after: Option<Seq<char>>,
    own: Seq<char>,
) -> Result<Seq<char>, ErrorView> {
    match destination_text(params) {
        Some(name) => pane_named(s, name),
        None => match neighbour_pane(s, before, after) {
            Some(id) => Ok(id),
            None => Ok(own),
        },
    }
}

/// The plan of a move, or why there is none.
pub open spec fn move_plan(s: StateView, params: Option<JsonView>) -> Result<MovePlanView, ErrorView> {
    match required(panel_text(params), "surface"@) {
        Err(e) => Err(e),
        Ok(name) => match surface_named(s, name) {
            Err(e) => Err(e),
            Ok(id) => match maybe_surface(s, before_text(params)) {
                Err(e) => Err(e),
                Ok(before) => match maybe_surface(s, after_text(params)) {
                    Err(e) => Err(e),
                    Ok(after) => match surface_at(s, id) {
                        None => Err(unknown_surface(id)),
                        Some((w, i)) => match destination(
                            s,
                            params,
                            before,
                            after,
                            s.workspaces[w].surfaces[i].pane_id,
                        ) {
                            Err(e) => Err(e),
                            Ok(target) => match pane_at(s, target) {
                                None => Err(unknown_pane(target)),
                                Some((tw, tp)) => Ok(
                                    MovePlanView {
                                        id,
                                        w,
                                        s: i,
                                        target,
                                        tw,
                                        tp,
                                        index: count_param(params, "index"@),
                                        before,
                                        after,
                                    },
                                ),
                            },
                        },
                    },
                },
            },
        },
    }
}

/// A pane that a surface was taken off, with what was on top still noted.
pub open spec fn pane_minus(p: PaneView, id: Seq<char>) -> PaneView {
    PaneView { surface_ids: without(p.surface_ids, id), ..p }
}

/// A workspace whose panes a surface was taken off.
pub open spec fn workspace_minus(w: WorkspaceView, id: Seq<char>) -> WorkspaceView {
    WorkspaceView { panes: w.panes.map_values(|p: PaneView| pane_minus(p, id)), ..w }
}

/// A state in whose panes a surface does not stand.
pub open spec fn state_minus(s: StateView, id: Seq<char>) -> StateView {
    StateView {
        workspaces: s.workspaces.map_values(|w: WorkspaceView| workspace_minus(w, id)),
        ..s
    }
}

/// A pane with a surface put on top at a place.
pub open spec fn pane_plus(p: PaneView, at: int, id: Seq<char>) -> PaneView {
    PaneView {
        surface_ids: p.surface_ids.insert(at, id),
        active_surface_id: Some(id),
        ..p
    }
}

/// A state in which a surface belongs to another pane: its record moves to the
/// workspace of the pane where that is another one.
pub open spec fn record_moved(s: StateView, plan: MovePlanView) -> StateView {
    if plan.w != plan.tw {
        let from = s.workspaces[plan.w];
        let gone = s.with_workspace(
            plan.w,
            WorkspaceView { surfaces: from.surfaces.remove(plan.s), ..from },
        );
        let to = gone.workspaces[plan.tw];
        gone.with_workspace(
            plan.tw,
            WorkspaceView {
                surfaces: to.surfaces.push(
                    SurfaceView {
                        workspace_id: to.id,
                        pane_id: plan.target,
                        ..from.surfaces[plan.s]
                    },
                ),
                ..to
            },
        )
    } else {
        match first_at(surface_ids(s.workspaces[plan.w].surfaces), plan.id) {
            Some(i) => s.with_surface(
                plan.w,
                i,
                SurfaceView { pane_id: plan.target, ..s.workspaces[plan.w].surfaces[i] },
            ),
            None => s,
        }
    }
}

/// A state in which a surface has moved.
pub open spec fn surface_moved_state(s: StateView, plan: MovePlanView) -> StateView {
    let cleared = state_minus(s, plan.id);
    let pane = cleared.workspaces[plan.tw].panes[plan.tp];
    let at = insertion(pane.surface_ids, plan.index, plan.before, plan.after);
    let placed = cleared.with_pane(plan.tw, plan.tp, pane_plus(pane, at, plan.id));
    let moved = record_moved(placed, plan);
    moved.focused(Some(moved.workspaces[plan.tw].id), Some(plan.target), Some(plan.id))
}

/// A surface that moves.
pub open spec fn surface_moved(app: AppView, params: Option<JsonView>) -> Turn {
    match move_plan(app.state, params) {
        Err(e) => refused(app, e),
        Ok(plan) => {
            let after = app.changed_to(surface_moved_state(app.state, plan));
            let (w, i) = surface_at(after.state, plan.id)->0;
            answered(after, surface_result(after, w, i, after.state.workspaces[w].surfaces[i]))
        },
    }
}

/// The pane of the neighbour.
fn neighbour_pane_id(state: &State, before: &Option<String>, after: &Option<String>) -> (r: Option<
    String,
>)
    ensures
        optional_chars(r) == neighbour_pane(
            state@,
            optional_chars(*before),
            optional_chars(*after),
        ),
{
    let beside = match before {
        Some(id) => Some(id),
        None => match after {
            Some(id) => Some(id),
            None => None,
        },
    };
    match beside {
        None => None,
        Some(id) => match surface_location(state, id.as_str()) {
            Some((w, i)) => Some(state.workspaces[w].surfaces[i].pane_id.clone()),
            None => None,
        },
    }
}

/// What a result says whose value is a plan.
pub open spec fn move_plan_outcome(r: Result<MovePlan, RpcError>) -> Result<MovePlanView, ErrorView> {
    match r {
        Ok(plan) => Ok(plan@),
        Err(e) => Err(e@),
    }
}

/// The plan of a move, or why there is none.
fn plan_move(state: &State, params: Option<&Json>) -> (r: Result<MovePlan, RpcError>)
    ensures
        move_plan_outcome(r) == move_plan(state@, optional_ref_view(params)),
        r matches Ok(plan) ==> plan.w < state.workspaces@.len() && plan.s
            < state.workspaces@[plan.w as int].surfaces@.len() && plan.tw < state.workspaces@.len()
            && plan.tp < state.workspaces@[plan.tw as int].panes@.len(),
{
    let name = match required_surface_param(params) {
        Ok(name) => name,
        Err(e) => {
            return Err(e);
        },
    };
    let id = match resolve_surface_identifier(state, name.as_str()) {
        Ok(id) => id,
        Err(e) => {
            return Err(e);
        },
    };
    let before_name = optional_string_any4(
        params,
        "before",
        "beforeSurface",
        "before_surface_id",
        "beforeSurfaceId",
    );
    let before = match maybe_surface_id(state, before_name) {
        Ok(b) => b,
        Err(e) => {
            return Err(e);
        },
    };
    let after_name = optional_string_any4(
        params,
        "after",
        "afterSurface",
        "after_surface_id",
        "afterSurfaceId",
    );
    let after = match maybe_surface_id(state, after_name) {
        Ok(a) => a,
        Err(e) => {
            return Err(e);
        },
    };
    match surface_location(state, id.as_str()) {
        None => Err(unknown_surface_error(id.as_str())),
        Some((w, s)) => {
            let named = match pane_param(params) {
                Some(n) => Some(n),
                None => optional_string_any3(params, "target_pane", "targetPane", "target_pane_id"),
            };
            let target = match named {
                Some(n) => match resolve_pane_identifier(state, n.as_str()) {
                    Ok(target) => target,
                    Err(e) => {
                        return Err(e);
                    },
                },
                None => match neighbour_pane_id(state, &before, &after) {
                    Some(target) => target,
                    None => state.workspaces[w].surfaces[s].pane_id.clone(),
                },
            };
            match pane_location(state, target.as_str()) {
                None => Err(unknown_pane_error(target.as_str())),
                Some((tw, tp)) => Ok(
                    MovePlan {
                        id,
                        w,
                        s,
                        target,
                        tw,
                        tp,
                        index: usize_param(params, "index"),
                        before,
                        after,
                    },
                ),
            }
        },
    }
}

/// Takes a surface off the panes of a workspace.
fn clear_from_workspace(w: &mut WorkspaceRecord, id: &str)
    ensures
        final(w)@ == workspace_minus(old(w)@, id@),
        final(w).panes@.len() == old(w).panes@.len(),
        final(w).surfaces == old(w).surfaces,
{
    broadcast use group_views;

    let ghost all = w@;
    let mut p: usize = 0;
    let length: usize = w.panes.len();
    while p < length
        invariant
            p <= length == w.panes@.len(),
            length == all.panes.len(),
            w@ == (WorkspaceView { panes: w@.panes, ..all }),
            w.surfaces == old(w).surfaces,
            forall|j: int| 0 <= j < p ==> (#[trigger] w@.panes[j]) == pane_minus(all.panes[j], id@),
            forall|j: int| p <= j < length ==> (#[trigger] w@.panes[j]) == all.panes[j],
        decreases length - p,
    {
        let ghost here = w@.panes;
        assert(here[p as int] == all.panes[p as int]);
        let rest = remove_text(&w.panes[p].surface_ids, id);
        w.panes[p].surface_ids = rest;
        assert(w@.panes =~= here.update(p as int, pane_minus(here[p as int], id@)));
        p += 1;
    }
    assert(w@.panes =~= workspace_minus(all, id@).panes);
}

/// Puts a surface on top of a pane at its place.
fn put_on_pane(w: &mut WorkspaceRecord, plan: &MovePlan)
    requires
        plan.tp < old(w).panes@.len(),
    ensures
        final(w)@ == (WorkspaceView {
            panes: old(w)@.panes.update(
                plan.tp as int,
                pane_plus(
                    old(w)@.panes[plan.tp as int],
                    insertion(
                        old(w)@.panes[plan.tp as int].surface_ids,
                        plan.index,
                        plan@.before,
                        plan@.after,
                    ),
                    plan@.id,
                ),
            ),
            ..old(w)@
        }),
        final(w).surfaces == old(w).surfaces,
{
    broadcast use group_views;

    let at: usize = surface_insert_index(
        &w.panes[plan.tp].surface_ids,
        plan.index,
        &plan.before,
        &plan.after,
    );
    w.panes[plan.tp].surface_ids.insert(at, plan.id.clone());
    w.panes[plan.tp].active_surface_id = Some(plan.id.clone());
}

impl AppState {
    /// Takes a surface off all panes.
    fn clear_from_panes(&mut self, id: &str)
        ensures
            final(self)@ == old(self)@.holding(state_minus(old(self)@.state, id@)),
            final(self).state.workspaces@.len() == old(self).state.workspaces@.len(),
            forall|j: int|
                0 <= j < old(self).state.workspaces@.len() ==> (
                #[trigger] final(self).state.workspaces@[j]).panes@.len()
                    == old(self).state.workspaces@[j].panes@.len()
                    && final(self).state.workspaces@[j].surfaces
                    == old(self).state.workspaces@[j].surfaces,
    {
        broadcast use group_views;

        let ghost all = self@;
        let ghost records = self.state.workspaces@;
        let mut w: usize = 0;
        let length: usize = self.state.workspaces.len();
        while w < length
            invariant
                w <= length == self.state.workspaces@.len(),
                length == all.state.workspaces.len(),
                length == records.len(),
                all == old(self)@,
                records == old(self).state.workspaces@,
                self@ == all.holding(
                    StateView { workspaces: self@.state.workspaces, ..all.state },
                ),
                forall|j: int|
                    0 <= j < w ==> (#[trigger] self@.state.workspaces[j]) == workspace_minus(
                        all.state.workspaces[j],
                        id@,
                    ),
                forall|j: int|
                    w <= j < length ==> (#[trigger] self@.state.workspaces[j])
                        == all.state.workspaces[j],
                forall|j: int|
                    0 <= j < length ==> (#[trigger] self.state.workspaces@[j]).panes@.len()
                        == records[j].panes@.len() && self.state.workspaces@[j].surfaces
                        == records[j].surfaces,
            decreases length - w,
        {
            let ghost here = self@.state.workspaces;
            assert(here[w as int] == all.state.workspaces[w as int]);
            clear_from_workspace(self.workspace_mut(w), id);
            assert(self@.state.workspaces =~= here.update(
                w as int,
                workspace_minus(here[w as int], id@),
            ));
            w += 1;
        }
        assert(self@.state.workspaces =~= state_minus(all.state, id@).workspaces);
    }

    /// Lets a surface belong to another pane.
    fn move_record(&mut self, plan: &MovePlan)
        requires
            plan.w < old(self).state.workspaces@.len(),
            plan.s < old(self).state.workspaces@[plan.w as int].surfaces@.len(),
            plan.tw < old(self).state.workspaces@.len(),
        ensures
            final(self)@ == old(self)@.holding(record_moved(old(self)@.state, plan@)),
            final(self).state.workspaces@.len() == old(self).state.workspaces@.len(),
    {
        broadcast use group_views;

        if plan.w != plan.tw {
            let mut surface = self.workspace_mut(plan.w).surfaces.remove(plan.s);
            let target = self.workspace_mut(plan.tw);
            surface.workspace_id = target.id.clone();
            surface.pane_id = plan.target.clone();
            target.surfaces.push(surface);
        } else {
            let found = surface_position(
                &self.state.workspaces[plan.w].surfaces,
                plan.id.as_str(),
            );
            if let Some(i) = found {
                self.surface_mut(plan.w, i).pane_id = plan.target.clone();
            }
        }
    }
}

/// Where a planned surface and pane stand.
pub proof fn lemma_move_plan(s: StateView, params: Option<JsonView>)
    ensures
        move_plan(s, params) matches Ok(plan) ==> 0 <= plan.w < s.workspaces.len() && 0 <= plan.s
            < s.workspaces[plan.w].surfaces.len() && 0 <= plan.tw < s.workspaces.len() && 0 <= plan.tp
            < s.workspaces[plan.tw].panes.len() && exists|w: int, i: int|
            0 <= w < s.workspaces.len() && 0 <= i < s.workspaces[w].surfaces.len()
                && #[trigger] s.workspaces[w].surfaces[i].id == plan.id,
{
    if let Ok(plan) = move_plan(s, params) {
        let name = panel_text(params)->0;
        lemma_surface_at(s, name);
        lemma_surface_at(s, plan.id);
        lemma_pane_at(s, plan.target);
        let (w, i) = surface_at(s, name)->0;
        assert(s.workspaces[w].surfaces[i].id == plan.id);
    }
}

/// A surface that stands somewhere stands somewhere after a move too.
proof fn lemma_record_moved_keeps(s: StateView, plan: MovePlanView, w: int, i: int)
    requires
        0 <= plan.w < s.workspaces.len(),
        0 <= plan.s < s.workspaces[plan.w].surfaces.len(),
        0 <= plan.tw < s.workspaces.len(),
        0 <= w < s.workspaces.len(),
        0 <= i < s.workspaces[w].surfaces.len(),
    ensures
        exists|v: int, j: int|
            0 <= v < s.workspaces.len() && 0 <= j < record_moved(s, plan).workspaces[v].surfaces.len()
                && #[trigger] record_moved(s, plan).workspaces[v].surfaces[j].id
                == s.workspaces[w].surfaces[i].id,
{
    let id = s.workspaces[w].surfaces[i].id;
    let after = record_moved(s, plan);
    if plan.w != plan.tw {
        let n = s.workspaces[plan.tw].surfaces.len() as int;
        if w == plan.w && i == plan.s {
            assert(after.workspaces[plan.tw].surfaces[n].id == id);
        } else if w == plan.w && i > plan.s {
            assert(after.workspaces[w].surfaces[i - 1].id == id);
        } else {
            assert(after.workspaces[w].surfaces[i].id == id);
        }
    } else {
        lemma_first_from(surface_ids(s.workspaces[plan.w].surfaces), plan.id, 0);
        assert(after.workspaces[w].surfaces[i].id == id);
    }
}

/// The surface that has moved is found by its id.
proof fn lemma_moved_surface_found(s: StateView, params: Option<JsonView>)
    requires
        move_plan(s, params) is Ok,
    ensures
        surface_at(surface_moved_state(s, move_plan(s, params)->Ok_0), move_plan(s, params)->Ok_0.id)
            is Some,
{
    let plan = move_plan(s, params)->Ok_0;
    lemma_move_plan(s, params);
    let (w, i) = choose|w: int, i: int|
        0 <= w < s.workspaces.len() && 0 <= i < s.workspaces[w].surfaces.len()
            && #[trigger] s.workspaces[w].surfaces[i].id == plan.id;
    let cleared = state_minus(s, plan.id);
    let pane = cleared.workspaces[plan.tw].panes[plan.tp];
    let at = insertion(pane.surface_ids, plan.index, plan.before, plan.after);
    let placed = cleared.with_pane(plan.tw, plan.tp, pane_plus(pane, at, plan.id));
    assert(placed.workspaces[w].surfaces == s.workspaces[w].surfaces);
    assert(placed.workspaces[plan.w].surfaces == s.workspaces[plan.w].surfaces);
    lemma_record_moved_keeps(placed, plan, w, i);
    let moved = record_moved(placed, plan);
    let (v, j) = choose|v: int, j: int|
        0 <= v < placed.workspaces.len() && 0 <= j < moved.workspaces[v].surfaces.len()
            && #[trigger] moved.workspaces[v].surfaces[j].id
            == placed.workspaces[w].surfaces[i].id;
    let after = surface_moved_state(s, plan);
    assert(after.workspaces[v].surfaces[j].id == plan.id);
    lemma_surface_by_id(after, v, j);
}

impl AppState {
    /// Moves a surface.
    pub fn move_surface(&mut self, params: Option<&Json>) -> (r: Result<Json, RpcError>)
        ensures
            turn_of(r, final(self)@) == surface_moved(old(self)@, optional_ref_view(params)),
    {
        broadcast use group_views;

        match plan_move(&self.state, params) {
            Err(e) => Err(e),
            Ok(plan) => {
                proof {
                    lemma_moved_surface_found(self@.state, optional_ref_view(params));
                }
                self.clear_from_panes(plan.id.as_str());
                let ghost cleared = self@.state;
                put_on_pane(self.workspace_mut(plan.tw), &plan);
                self.move_record(&plan);
                let workspace_id = self.state.workspaces[plan.tw].id.clone();
                self.set_focus(
                    Some(workspace_id),
                    Some(plan.target.clone()),
                    Some(plan.id.clone()),
                );
                self.mark_state_changed();
                match surface_location(&self.state, plan.id.as_str()) {
                    None => Err(unknown_surface_error(plan.id.as_str())),
                    Some((w, i)) => {
                        assert(self.state.workspaces@[w as int].surfaces.len() <= usize::MAX);
                        Ok(
                            self.surface_result_value(
                                w,
                                i,
                                &self.state.workspaces[w].surfaces[i],
                            ),
                        )
                    },
                }
            },
        }
    }
}

} // verus!
