//! Finding workspaces, panes and surfaces by what a request calls them: an id,
//! or a reference such as `pane:2` into the current workspace.

use crate::lists::{first_at, lemma_first_from, views};
use crate::model::{
    pane_ids, pane_position, surface_ids, surface_position, workspace_ids, workspace_position, State,
    StateView, WorkspaceRecord, WorkspaceView,
};
use crate::rpc::{invalid, invalid_params, text_outcome, ErrorView, RpcError};
use crate::text::{has_prefix, join2, parse_number, parsed, strip_prefix};
use vstd::prelude::*;

verus! {

/// The place, counted from zero, that a reference with a prefix names.
pub open spec fn reference_index(identifier: Seq<char>, prefix: Seq<char>) -> Option<usize> {
    let rest = identifier.skip(prefix.len() as int);
    if has_prefix(identifier, prefix) && has_prefix(rest, ":"@) {
        match parsed(rest.skip(":"@.len() as int), usize::MAX as nat) {
            Some(n) => if n > 0 {
                Some((n - 1) as usize)
            } else {
                None
            },
            None => None,
        }
    } else {
        None
    }
}

/// The place, counted from zero, that a reference with a prefix names.
pub fn ref_index(identifier: &str, prefix: &str) -> (r: Option<usize>)
    ensures
        r == reference_index(identifier@, prefix@),
{
    match strip_prefix(identifier, prefix) {
        Some(rest) => match strip_prefix(rest.as_str(), ":") {
            Some(number) => match parse_number(number.as_str()) {
                Some(n) => if n > 0 {
                    Some(n - 1)
                } else {
                    None
                },
                None => None,
            },
            None => None,
        },
        None => None,
    }
}

/// The current workspace: the active one, or the first where that is gone.
pub open spec fn current_index(s: StateView) -> Option<int> {
    let named = match s.active_workspace_id {
        Some(id) => first_at(workspace_ids(s.workspaces), id),
        None => None,
    };
    match named {
        Some(i) => Some(i),
        None => if s.workspaces.len() > 0 {
            Some(0)
        } else {
            None
        },
    }
}

/// The workspace that an identifier names.
pub open spec fn workspace_index(s: StateView, identifier: Seq<char>) -> Option<int> {
    match reference_index(identifier, "workspace"@) {
        Some(i) => if i < s.workspaces.len() {
            Some(i as int)
        } else {
            None
        },
        None => first_at(workspace_ids(s.workspaces), identifier),
    }
}

/// The workspace, from `w` on, that has a pane, and the place of the pane.
pub open spec fn pane_place(list: Seq<WorkspaceView>, id: Seq<char>, w: int) -> Option<(int, int)>
    decreases list.len() - w,
{
    if w < 0 || w >= list.len() {
        None
    } else {
        match first_at(pane_ids(list[w].panes), id) {
            Some(i) => Some((w, i)),
            None => pane_place(list, id, w + 1),
        }
    }
}

/// The workspace, from `w` on, that has a surface, and the place of the surface.
pub open spec fn surface_place(list: Seq<WorkspaceView>, id: Seq<char>, w: int) -> Option<(int, int)>
    decreases list.len() - w,
{
    if w < 0 || w >= list.len() {
        None
    } else {
        match first_at(surface_ids(list[w].surfaces), id) {
            Some(i) => Some((w, i)),
            None => surface_place(list, id, w + 1),
        }
    }
}

/// The pane that an identifier names.
pub open spec fn pane_at(s: StateView, identifier: Seq<char>) -> Option<(int, int)> {
    match (reference_index(identifier, "pane"@), current_index(s)) {
        (Some(i), Some(w)) => if i < s.workspaces[w].panes.len() {
            Some((w, i as int))
        } else {
            pane_place(s.workspaces, identifier, 0)
        },
        _ => pane_place(s.workspaces, identifier, 0),
    }
}

/// The surface that an identifier names.
pub open spec fn surface_at(s: StateView, identifier: Seq<char>) -> Option<(int, int)> {
    match (reference_index(identifier, "surface"@), current_index(s)) {
        (Some(i), Some(w)) => if i < s.workspaces[w].surfaces.len() {
            Some((w, i as int))
        } else {
            surface_place(s.workspaces, identifier, 0)
        },
        _ => surface_place(s.workspaces, identifier, 0),
    }
}

/// The current workspace stands in the list.
pub proof fn lemma_current_index(s: StateView)
    ensures
        current_index(s) is Some ==> 0 <= current_index(s)->0 < s.workspaces.len(),
        s.workspaces.len() > 0 ==> current_index(s) is Some,
{
    if s.active_workspace_id is Some {
        lemma_first_from(workspace_ids(s.workspaces), s.active_workspace_id->0, 0);
    }
}

/// A workspace that an identifier names stands in the list.
pub proof fn lemma_workspace_index(s: StateView, identifier: Seq<char>)
    ensures
        workspace_index(s, identifier) is Some ==> 0 <= workspace_index(s, identifier)->0
            < s.workspaces.len(),
{
    lemma_first_from(workspace_ids(s.workspaces), identifier, 0);
}

/// A pane that was found stands where it was found.
pub proof fn lemma_pane_place(list: Seq<WorkspaceView>, id: Seq<char>, w: int)
    requires
        0 <= w,
    ensures
        match pane_place(list, id, w) {
            Some((v, i)) => w <= v < list.len() && 0 <= i < list[v].panes.len() && list[v].panes[i].id
                == id,
            None => true,
        },
    decreases list.len() - w,
{
    if w < list.len() {
        lemma_first_from(pane_ids(list[w].panes), id, 0);
        if first_at(pane_ids(list[w].panes), id) is None {
            lemma_pane_place(list, id, w + 1);
        }
    }
}

/// A surface that was found stands where it was found.
pub proof fn lemma_surface_place(list: Seq<WorkspaceView>, id: Seq<char>, w: int)
    requires
        0 <= w,
    ensures
        match surface_place(list, id, w) {
            Some((v, i)) => w <= v < list.len() && 0 <= i < list[v].surfaces.len()
                && list[v].surfaces[i].id == id,
            None => true,
        },
    decreases list.len() - w,
{
    if w < list.len() {
        lemma_first_from(surface_ids(list[w].surfaces), id, 0);
        if first_at(surface_ids(list[w].surfaces), id) is None {
            lemma_surface_place(list, id, w + 1);
        }
    }
}

/// A surface that stands in the lists is found.
pub proof fn lemma_surface_found(list: Seq<WorkspaceView>, w: int, i: int, from: int)
    requires
        0 <= from <= w < list.len(),
        0 <= i < list[w].surfaces.len(),
    ensures
        surface_place(list, list[w].surfaces[i].id, from) is Some,
    decreases w - from,
{
    let id = list[w].surfaces[i].id;
    let ids = surface_ids(list[from].surfaces);
    lemma_first_from(ids, id, 0);
    if from == w {
        assert(ids[i] == id);
    } else if first_at(ids, id) is None {
        lemma_surface_found(list, w, i, from + 1);
    }
}

/// A surface that stands in the lists is found by its id.
pub proof fn lemma_surface_by_id(s: StateView, w: int, i: int)
    requires
        0 <= w < s.workspaces.len(),
        0 <= i < s.workspaces[w].surfaces.len(),
    ensures
        surface_at(s, s.workspaces[w].surfaces[i].id) is Some,
{
    lemma_surface_found(s.workspaces, w, i, 0);
}

/// A pane that an identifier names stands in the lists.
pub proof fn lemma_pane_at(s: StateView, identifier: Seq<char>)
    ensures
        match pane_at(s, identifier) {
            Some((w, i)) => 0 <= w < s.workspaces.len() && 0 <= i < s.workspaces[w].panes.len(),
            None => true,
        },
{
    lemma_current_index(s);
    lemma_pane_place(s.workspaces, identifier, 0);
}

/// A surface that an identifier names stands in the lists.
pub proof fn lemma_surface_at(s: StateView, identifier: Seq<char>)
    ensures
        match surface_at(s, identifier) {
            Some((w, i)) => 0 <= w < s.workspaces.len() && 0 <= i < s.workspaces[w].surfaces.len(),
            None => true,
        },
{
    lemma_current_index(s);
    lemma_surface_place(s.workspaces, identifier, 0);
}

/// The current workspace.
pub fn current_workspace_index(state: &State) -> (r: Option<usize>)
    ensures
        match r {
            Some(i) => current_index(state@) == Some(i as int) && i < state.workspaces@.len(),
            None => current_index(state@) is None,
        },
{
    if let Some(id) = &state.active_workspace_id {
        if let Some(i) = workspace_position(&state.workspaces, id.as_str()) {
            return Some(i);
        }
    }
    if state.workspaces.is_empty() {
        None
    } else {
        Some(0)
    }
}

/// The current workspace.
pub fn current_workspace_record(state: &State) -> (r: Option<&WorkspaceRecord>)
    ensures
        match r {
            Some(w) => current_index(state@) is Some && w@ == state@.workspaces[current_index(
                state@,
            )->0],
            None => current_index(state@) is None,
        },
{
    match current_workspace_index(state) {
        Some(i) => Some(&state.workspaces[i]),
        None => None,
    }
}

/// The workspace that an identifier names.
pub fn find_workspace_index(state: &State, identifier: &str) -> (r: Option<usize>)
    ensures
        match r {
            Some(i) => workspace_index(state@, identifier@) == Some(i as int) && i
                < state.workspaces@.len(),
            None => workspace_index(state@, identifier@) is None,
        },
{
    match ref_index(identifier, "workspace") {
        Some(i) => if i < state.workspaces.len() {
            Some(i)
        } else {
            None
        },
        None => workspace_position(&state.workspaces, identifier),
    }
}

/// The workspace that has a pane, and the place of the pane.
pub fn pane_by_id(list: &Vec<WorkspaceRecord>, id: &str) -> (r: Option<(usize, usize)>)
    ensures
        match r {
            Some((w, i)) => pane_place(views(list@), id@, 0) == Some((w as int, i as int)) && w
                < list@.len() && i < list@[w as int].panes@.len(),
            None => pane_place(views(list@), id@, 0) is None,
        },
{
    let mut w: usize = 0;
    while w < list.len()
        invariant
            w <= list@.len(),
            pane_place(views(list@), id@, w as int) == pane_place(views(list@), id@, 0),
        decreases list@.len() - w,
    {
        if let Some(i) = pane_position(&list[w].panes, id) {
            return Some((w, i));
        }
        w += 1;
    }
    None
}

/// The workspace that has a surface, and the place of the surface.
pub fn surface_by_id(list: &Vec<WorkspaceRecord>, id: &str) -> (r: Option<(usize, usize)>)
    ensures
        match r {
            Some((w, i)) => surface_place(views(list@), id@, 0) == Some((w as int, i as int)) && w
                < list@.len() && i < list@[w as int].surfaces@.len(),
            None => surface_place(views(list@), id@, 0) is None,
        },
{
    let mut w: usize = 0;
    while w < list.len()
        invariant
            w <= list@.len(),
            surface_place(views(list@), id@, w as int) == surface_place(views(list@), id@, 0),
        decreases list@.len() - w,
    {
        if let Some(i) = surface_position(&list[w].surfaces, id) {
            return Some((w, i));
        }
        w += 1;
    }
    None
}

/// The pane that an identifier names.
pub fn pane_location(state: &State, identifier: &str) -> (r: Option<(usize, usize)>)
    ensures
        match r {
            Some((w, i)) => pane_at(state@, identifier@) == Some((w as int, i as int)) && w
                < state.workspaces@.len() && i < state.workspaces@[w as int].panes@.len(),
            None => pane_at(state@, identifier@) is None,
        },
{
    if let Some(i) = ref_index(identifier, "pane") {
        if let Some(w) = current_workspace_index(state) {
            if i < state.workspaces[w].panes.len() {
                return Some((w, i));
            }
        }
    }
    pane_by_id(&state.workspaces, identifier)
}

/// The surface that an identifier names.
pub fn surface_location(state: &State, identifier: &str) -> (r: Option<(usize, usize)>)
    ensures
        match r {
            Some((w, i)) => surface_at(state@, identifier@) == Some((w as int, i as int)) && w
                < state.workspaces@.len() && i < state.workspaces@[w as int].surfaces@.len(),
            None => surface_at(state@, identifier@) is None,
        },
{
    if let Some(i) = ref_index(identifier, "surface") {
        if let Some(w) = current_workspace_index(state) {
            if i < state.workspaces[w].surfaces.len() {
                return Some((w, i));
            }
        }
    }
    surface_by_id(&state.workspaces, identifier)
}

// ---------------------------------------------------------------------------
// Ids

/// The refusal of a workspace that is not there.
pub open spec fn unknown_workspace(identifier: Seq<char>) -> ErrorView {
    invalid("unknown workspace: "@ + identifier)
}

/// The refusal of a pane that is not there.
pub open spec fn unknown_pane(identifier: Seq<char>) -> ErrorView {
    invalid("unknown pane: "@ + identifier)
}

/// The refusal of a surface that is not there.
pub open spec fn unknown_surface(identifier: Seq<char>) -> ErrorView {
    invalid("unknown surface: "@ + identifier)
}

/// The refusal of a workspace that is not there.
pub fn unknown_workspace_error(identifier: &str) -> (r: RpcError)
    ensures
        r@ == unknown_workspace(identifier@),
{
    invalid_params(join2("unknown workspace: ", identifier).as_str())
}

/// The refusal of a pane that is not there.
pub fn unknown_pane_error(identifier: &str) -> (r: RpcError)
    ensures
        r@ == unknown_pane(identifier@),
{
    invalid_params(join2("unknown pane: ", identifier).as_str())
}

/// The refusal of a surface that is not there.
pub fn unknown_surface_error(identifier: &str) -> (r: RpcError)
    ensures
        r@ == unknown_surface(identifier@),
{
    invalid_params(join2("unknown surface: ", identifier).as_str())
}

/// The id of the workspace that an identifier names.
pub open spec fn workspace_named(s: StateView, identifier: Seq<char>) -> Result<
    Seq<char>,
    ErrorView,
> {
    match workspace_index(s, identifier) {
        Some(i) => Ok(s.workspaces[i].id),
        None => Err(unknown_workspace(identifier)),
    }
}

/// The id of the pane that an identifier names.
pub open spec fn pane_named(s: StateView, identifier: Seq<char>) -> Result<Seq<char>, ErrorView> {
    match pane_at(s, identifier) {
        Some((w, i)) => Ok(s.workspaces[w].panes[i].id),
        None => Err(unknown_pane(identifier)),
    }
}

/// The id of the surface that an identifier names.
pub open spec fn surface_named(s: StateView, identifier: Seq<char>) -> Result<
    Seq<char>,
    ErrorView,
> {
    match surface_at(s, identifier) {
        Some((w, i)) => Ok(s.workspaces[w].surfaces[i].id),
        None => Err(unknown_surface(identifier)),
    }
}

/// The id of the workspace that an identifier names.
pub fn resolve_workspace_identifier(state: &State, identifier: &str) -> (r: Result<
    String,
    RpcError,
>)
    ensures
        text_outcome(r) == workspace_named(state@, identifier@),
{
    match find_workspace_index(state, identifier) {
        Some(i) => Ok(state.workspaces[i].id.clone()),
        None => Err(unknown_workspace_error(identifier)),
    }
}

/// The id of the pane that an identifier names.
pub fn resolve_pane_identifier(state: &State, identifier: &str) -> (r: Result<String, RpcError>)
    ensures
        text_outcome(r) == pane_named(state@, identifier@),
{
    match pane_location(state, identifier) {
        Some((w, i)) => Ok(state.workspaces[w].panes[i].id.clone()),
        None => Err(unknown_pane_error(identifier)),
    }
}

/// The id of the surface that an identifier names.
pub fn resolve_surface_identifier(state: &State, identifier: &str) -> (r: Result<String, RpcError>)
    ensures
        text_outcome(r) == surface_named(state@, identifier@),
{
    match surface_location(state, identifier) {
        Some((w, i)) => Ok(state.workspaces[w].surfaces[i].id.clone()),
        None => Err(unknown_surface_error(identifier)),
    }
}

} // verus!
