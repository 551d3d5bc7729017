//! Which pane a new one splits, and what is on the new one.

use crate::app_state::AppView;
use crate::host::StepView;
use crate::json::JsonView;
use crate::lists::lemma_first_from;
use crate::locate::{
    current_index, lemma_pane_place, lemma_workspace_index, pane_place,
    reference_index, workspace_index,
};
use crate::model::{workspace_ids, StateView, SurfaceKind};
use crate::opening::requested_kind;
use crate::page::{page_for, PageView};
use crate::panes::{pane_created, pane_plan};
use crate::placing::{is_pane_id, lemma_called_pane};
use crate::rpc::{text1, text3};
use crate::soundness::{all_whole, lemma_pane_plan};
use vstd::prelude::*;

verus! {

/// A split is of the pane of the surface that the request names, or of the pane
/// that it names, or of the active pane. It is in the workspace that the request
/// names, or in that of the pane, or in the current one.
pub proof fn law_a_split_goes_by_its_names(s: StateView, params: Option<JsonView>, w: int, i: int)
    requires
        all_whole(s.workspaces),
        pane_plan(s, params) is Ok,
    ensures
        ({
            let plan = pane_plan(s, params)->Ok_0;
            let workspace = text3(params, "workspace"@, "workspaceId"@, "workspace_id"@);
            let pane = text3(params, "pane"@, "paneId"@, "pane_id"@);
            let surface = text3(params, "surface"@, "surfaceId"@, "surface_id"@);
            &&& surface matches Some(n) ==> 0 <= w < s.workspaces.len() && 0 <= i
                < s.workspaces[w].surfaces.len() && s.workspaces[w].surfaces[i].id == n
                ==> plan.target == Some(s.workspaces[w].surfaces[i].pane_id)
            &&& surface is None ==> (pane matches Some(n) ==> is_pane_id(s, n) ==> plan.target
                == Some(n))
            &&& surface is None && pane is None ==> plan.target == s.active_pane_id
            &&& workspace matches Some(n) ==> reference_index(n, "workspace"@) is None
                ==> s.workspaces[plan.w].id == n
            &&& workspace is None ==> (plan.target matches Some(t) ==> exists|p: int|
                0 <= p < s.workspaces[plan.w].panes.len() && (
                #[trigger] s.workspaces[plan.w].panes[p]).id == t)
            &&& workspace is None && plan.target is None ==> current_index(s) == Some(plan.w)
        }),
{
    let plan = pane_plan(s, params)->Ok_0;
    let workspace = text3(params, "workspace"@, "workspaceId"@, "workspace_id"@);
    let pane = text3(params, "pane"@, "paneId"@, "pane_id"@);
    let surface = text3(params, "surface"@, "surfaceId"@, "surface_id"@);
    lemma_pane_plan(s, params);
    if let Some(n) = surface {
        if 0 <= w < s.workspaces.len() && 0 <= i < s.workspaces[w].surfaces.len()
            && s.workspaces[w].surfaces[i].id == n {
            crate::naming::law_an_id_names_its_surface(s, w, i);
        }
    }
    if let Some(n) = pane {
        if is_pane_id(s, n) {
            lemma_called_pane(s, n);
        }
    }
    let ids = workspace_ids(s.workspaces);
    if let Some(n) = workspace {
        lemma_workspace_index(s, n);
        lemma_first_from(ids, n, 0);
        if let Some(k) = workspace_index(s, n) {
            let id = s.workspaces[k].id;
            assert(ids[k] == id);
            lemma_first_from(ids, id, 0);
            assert(ids[plan.w] == s.workspaces[plan.w].id);
        }
    } else if let Some(t) = plan.target {
        lemma_pane_place(s.workspaces, t, 0);
        let (v, p) = pane_place(s.workspaces, t, 0)->0;
        assert(s.workspaces[v].panes[p].id == t);
    }
}

/// What is on a new pane is what the request asks for: a surface of its kind with
/// its address, command and directory. A browser shows the page of the address;
/// the title is that of the page, or the address, or the name of the kind.
pub proof fn law_a_new_pane_has_what_was_asked(app: AppView, nanos: u64, params: Option<JsonView>)
    requires
        pane_created(app, nanos, params).step matches StepView::Done(Ok(_)),
    ensures
        pane_plan(app.state, params) matches Ok(plan) && ({
            let now = pane_created(app, nanos, params).app.state.workspaces[plan.w];
            let surface = now.surfaces.last();
            let url = text1(params, "url"@);
            &&& requested_kind(params, "pane type must be terminal, browser, or markdown"@) == Ok::<
                SurfaceKind,
                crate::rpc::ErrorView,
            >(surface.kind)
            &&& surface.url == url
            &&& surface.initial_command == text3(
                params,
                "command"@,
                "initial_command"@,
                "initialCommand"@,
            )
            &&& surface.working_directory == text3(
                params,
                "working_directory"@,
                "workingDirectory"@,
                "cwd"@,
            )
            &&& surface.kind == SurfaceKind::Terminal ==> surface.title == "Terminal"@
            &&& surface.kind == SurfaceKind::Markdown ==> surface.title == "Markdown"@
            &&& surface.kind == SurfaceKind::Browser && url is None ==> surface.title == "Browser"@
                && surface.browser_state == PageView::blank()
            &&& surface.kind == SurfaceKind::Browser ==> (url matches Some(u) ==> {
                &&& surface.browser_state == page_for(u)
                &&& page_for(u).title.len() > 0 ==> surface.title == page_for(u).title
                &&& page_for(u).title.len() == 0 ==> surface.title == u
            })
            &&& surface.kind != SurfaceKind::Browser ==> surface.browser_state == PageView::blank()
            &&& surface.input_log.len() == 0
        }),
{
    lemma_pane_plan(app.state, params);
}

} // verus!
