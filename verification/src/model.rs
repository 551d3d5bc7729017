//! Workspaces, their panes and surfaces, and notifications.

use crate::json::optional_chars;
use crate::layout::{LayoutView, PaneNode};
use crate::lists::{copy_texts, first_at, first_from, views};
use crate::page::{copy_optional, BrowserState, PageView};
use crate::text::{same, texts};
use vstd::prelude::*;

verus! {

/// What a surface shows.
#[derive(Clone, Copy, PartialEq, Eq, Structural)]
pub enum SurfaceKind {
    Terminal,
    Browser,
    Markdown,
}

/// The name of a kind.
pub open spec fn kind_text(kind: SurfaceKind) -> Seq<char> {
    match kind {
        SurfaceKind::Terminal => "terminal"@,
        SurfaceKind::Browser => "browser"@,
        SurfaceKind::Markdown => "markdown"@,
    }
}

/// The name of a kind.
pub fn surface_kind_name(kind: SurfaceKind) -> (r: &'static str)
    ensures
        r@ == kind_text(kind),
{
    match kind {
        SurfaceKind::Terminal => "terminal",
        SurfaceKind::Browser => "browser",
        SurfaceKind::Markdown => "markdown",
    }
}

/// A surface: a terminal, a browser page or a text.
pub struct SurfaceRecord {
    pub id: String,
    pub workspace_id: String,
    pub pane_id: String,
    pub title: String,
    pub kind: SurfaceKind,
    pub initial_command: Option<String>,
    pub working_directory: Option<String>,
    pub url: Option<String>,
    pub history: Vec<String>,
    pub history_index: Option<usize>,
    pub input_log: Vec<String>,
    pub browser_state: BrowserState,
}

/// What a surface is.
#[verifier::ext_equal]
pub struct SurfaceView {
    pub id: Seq<char>,
    pub workspace_id: Seq<char>,
    pub pane_id: Seq<char>,
    pub title: Seq<char>,
    pub kind: SurfaceKind,
    pub initial_command: Option<Seq<char>>,
    pub working_directory: Option<Seq<char>>,
    pub url: Option<Seq<char>>,
    pub history: Seq<Seq<char>>,
    pub history_index: Option<usize>,
    pub input_log: Seq<Seq<char>>,
    pub browser_state: PageView,
}

impl View for SurfaceRecord {
    type V = SurfaceView;

    open spec fn view(&self) -> SurfaceView {
        SurfaceView {
            id: self.id@,
            workspace_id: self.workspace_id@,
            pane_id: self.pane_id@,
            title: self.title@,
            kind: self.kind,
            initial_command: optional_chars(self.initial_command),
            working_directory: optional_chars(self.working_directory),
            url: optional_chars(self.url),
            history: texts(self.history@),
            history_index: self.history_index,
            input_log: texts(self.input_log@),
            browser_state: self.browser_state@,
        }
    }
}

impl SurfaceRecord {
    /// A copy of the surface.
    pub fn copy(&self) -> (r: SurfaceRecord)
        ensures
            r@ == self@,
    {
        SurfaceRecord {
            id: self.id.clone(),
            workspace_id: self.workspace_id.clone(),
            pane_id: self.pane_id.clone(),
            title: self.title.clone(),
            kind: self.kind,
            initial_command: copy_optional(&self.initial_command),
            working_directory: copy_optional(&self.working_directory),
            url: copy_optional(&self.url),
            history: copy_texts(&self.history),
            history_index: self.history_index,
            input_log: copy_texts(&self.input_log),
            browser_state: self.browser_state.copy(),
        }
    }
}

/// A pane: a stack of surfaces, one of them on top.
pub struct PaneRecord {
    pub id: String,
    pub workspace_id: String,
    pub surface_ids: Vec<String>,
    pub active_surface_id: Option<String>,
}

/// What a pane is.
#[verifier::ext_equal]
pub struct PaneView {
    pub id: Seq<char>,
    pub workspace_id: Seq<char>,
    pub surface_ids: Seq<Seq<char>>,
    pub active_surface_id: Option<Seq<char>>,
}

impl View for PaneRecord {
    type V = PaneView;

    open spec fn view(&self) -> PaneView {
        PaneView {
            id: self.id@,
            workspace_id: self.workspace_id@,
            surface_ids: texts(self.surface_ids@),
            active_surface_id: optional_chars(self.active_surface_id),
        }
    }
}

impl PaneRecord {
    /// A copy of the pane.
    pub fn copy(&self) -> (r: PaneRecord)
        ensures
            r@ == self@,
    {
        PaneRecord {
            id: self.id.clone(),
            workspace_id: self.workspace_id.clone(),
            surface_ids: copy_texts(&self.surface_ids),
            active_surface_id: copy_optional(&self.active_surface_id),
        }
    }
}

/// A workspace: panes, the surfaces in them, and how the panes share the area.
pub struct WorkspaceRecord {
    pub id: String,
    pub title: String,
    pub panes: Vec<PaneRecord>,
    pub surfaces: Vec<SurfaceRecord>,
    pub layout: PaneNode,
}

/// What a workspace is.
#[verifier::ext_equal]
pub struct WorkspaceView {
    pub id: Seq<char>,
    pub title: Seq<char>,
    pub panes: Seq<PaneView>,
    pub surfaces: Seq<SurfaceView>,
    pub layout: LayoutView,
}

impl View for WorkspaceRecord {
    type V = WorkspaceView;

    open spec fn view(&self) -> WorkspaceView {
        WorkspaceView {
            id: self.id@,
            title: self.title@,
            panes: views(self.panes@),
            surfaces: views(self.surfaces@),
            layout: self.layout@,
        }
    }
}

/// Something the user is told.
pub struct NotificationRecord {
    pub id: String,
    pub title: String,
    pub subtitle: String,
    pub body: String,
    pub workspace_id: Option<String>,
    pub surface_id: Option<String>,
    pub created_at_ms: u64,
    pub read: bool,
}

/// What a notification is.
#[verifier::ext_equal]
pub struct NotificationView {
    pub id: Seq<char>,
    pub title: Seq<char>,
    pub subtitle: Seq<char>,
    pub body: Seq<char>,
    pub workspace_id: Option<Seq<char>>,
    pub surface_id: Option<Seq<char>>,
    pub created_at_ms: u64,
    pub read: bool,
}

impl View for NotificationRecord {
    type V = NotificationView;

    open spec fn view(&self) -> NotificationView {
        NotificationView {
            id: self.id@,
            title: self.title@,
            subtitle: self.subtitle@,
            body: self.body@,
            workspace_id: optional_chars(self.workspace_id),
            surface_id: optional_chars(self.surface_id),
            created_at_ms: self.created_at_ms,
            read: self.read,
        }
    }
}

/// Everything that outlives a session.
pub struct State {
    pub workspaces: Vec<WorkspaceRecord>,
    pub revision: u64,
    pub active_workspace_id: Option<String>,
    pub active_pane_id: Option<String>,
    pub active_surface_id: Option<String>,
    pub notifications: Vec<NotificationRecord>,
}

/// What the state is.
#[verifier::ext_equal]
pub struct StateView {
    pub workspaces: Seq<WorkspaceView>,
    pub revision: u64,
    pub active_workspace_id: Option<Seq<char>>,
    pub active_pane_id: Option<Seq<char>>,
    pub active_surface_id: Option<Seq<char>>,
    pub notifications: Seq<NotificationView>,
}

impl View for State {
    type V = StateView;

    open spec fn view(&self) -> StateView {
        StateView {
            workspaces: views(self.workspaces@),
            revision: self.revision,
            active_workspace_id: optional_chars(self.active_workspace_id),
            active_pane_id: optional_chars(self.active_pane_id),
            active_surface_id: optional_chars(self.active_surface_id),
            notifications: views(self.notifications@),
        }
    }
}

// ---------------------------------------------------------------------------
// Finding by id

/// The ids of workspaces.
pub open spec fn workspace_ids(list: Seq<WorkspaceView>) -> Seq<Seq<char>> {
    list.map_values(|w: WorkspaceView| w.id)
}

/// The ids of panes.
pub open spec fn pane_ids(list: Seq<PaneView>) -> Seq<Seq<char>> {
    list.map_values(|p: PaneView| p.id)
}

/// The ids of surfaces.
pub open spec fn surface_ids(list: Seq<SurfaceView>) -> Seq<Seq<char>> {
    list.map_values(|s: SurfaceView| s.id)
}

/// The first workspace with an id.
pub fn workspace_position(list: &Vec<WorkspaceRecord>, id: &str) -> (r: Option<usize>)
    ensures
        match r {
            Some(i) => first_at(workspace_ids(views(list@)), id@) == Some(i as int) && i < list@.len()
                && list@[i as int].id@ == id@,
            None => first_at(workspace_ids(views(list@)), id@) is None,
        },
{
    let mut i: usize = 0;
    let ghost ids = workspace_ids(views(list@));
    while i < list.len()
        invariant
            i <= list@.len(),
            ids == workspace_ids(views(list@)),
            first_from(ids, id@, i as int) == first_at(ids, id@),
        decreases list@.len() - i,
    {
        if same(list[i].id.as_str(), id) {
            return Some(i);
        }
        i += 1;
    }
    None
}

/// The first pane with an id.
pub fn pane_position(list: &Vec<PaneRecord>, id: &str) -> (r: Option<usize>)
    ensures
        match r {
            Some(i) => first_at(pane_ids(views(list@)), id@) == Some(i as int) && i < list@.len()
                && list@[i as int].id@ == id@,
            None => first_at(pane_ids(views(list@)), id@) is None,
        },
{
    let mut i: usize = 0;
    let ghost ids = pane_ids(views(list@));
    while i < list.len()
        invariant
            i <= list@.len(),
            ids == pane_ids(views(list@)),
            first_from(ids, id@, i as int) == first_at(ids, id@),
        decreases list@.len() - i,
    {
        if same(list[i].id.as_str(), id) {
            return Some(i);
        }
        i += 1;
    }
    None
}

/// The first surface with an id.
pub fn surface_position(list: &Vec<SurfaceRecord>, id: &str) -> (r: Option<usize>)
    ensures
        match r {
            Some(i) => first_at(surface_ids(views(list@)), id@) == Some(i as int) && i < list@.len()
                && list@[i as int].id@ == id@,
            None => first_at(surface_ids(views(list@)), id@) is None,
        },
{
    let mut i: usize = 0;
    let ghost ids = surface_ids(views(list@));
    while i < list.len()
        invariant
            i <= list@.len(),
            ids == surface_ids(views(list@)),
            first_from(ids, id@, i as int) == first_at(ids, id@),
        decreases list@.len() - i,
    {
        if same(list[i].id.as_str(), id) {
            return Some(i);
        }
        i += 1;
    }
    None
}

/// The ids of panes.
pub fn ids_of_panes(list: &Vec<PaneRecord>) -> (r: Vec<String>)
    ensures
        texts(r@) == pane_ids(views(list@)),
{
    let mut out: Vec<String> = Vec::new();
    let mut i: usize = 0;
    while i < list.len()
        invariant
            i <= list@.len(),
            out@.len() == i,
            forall|j: int| 0 <= j < i ==> (#[trigger] out@[j])@ == list@[j].id@,
        decreases list@.len() - i,
    {
        out.push(list[i].id.clone());
        i += 1;
    }
    assert(texts(out@) =~= pane_ids(views(list@)));
    out
}

/// Whether an optional id is the one named.
pub open spec fn is_id(optional: Option<Seq<char>>, id: Seq<char>) -> bool {
    optional == Some(id)
}

/// Whether an optional id is the one named.
pub fn same_id(optional: &Option<String>, id: &str) -> (r: bool)
    ensures
        r == is_id(optional_chars(*optional), id@),
{
    match optional {
        Some(s) => same(s.as_str(), id),
        None => false,
    }
}

} // verus!
