//! Operations on workspaces.

use crate::app_state::{answered, refused, told, AppState, AppView, Turn};
use crate::json::{
    items_view, lemma_array_view, optional_chars, optional_ref_view, optional_text_view, Json, JsonView, Object,
    ObjectView,
};
use crate::layout::{equalize_layout, LayoutView, PaneNode};
use crate::lists::{first_at, group_views, lemma_first_from};
use crate::locate::{
    current_index, current_workspace_index, find_workspace_index, resolve_workspace_identifier,
    unknown_workspace, unknown_workspace_error, workspace_index, workspace_named,
};
use crate::model::{
    is_id, same_id, workspace_ids, workspace_position, PaneRecord, PaneView, StateView, SurfaceKind,
    SurfaceRecord, SurfaceView, WorkspaceRecord, WorkspaceView,
};
use crate::page::{copy_optional, BrowserState, PageView};
use crate::records_json::{workspace_json, workspace_value};
use crate::rpc::{
    command_param, command_text, directory_param, directory_text, invalid, invalid_params,
    optional_string_param, outcome_view, required, required_workspace_param, text1, workspace_param,
    workspace_text, ErrorView, RpcError,
};
use crate::summary::{workspace_result, workspace_summary};
use crate::text::{join2, owned, texts};
use vstd::prelude::*;

verus! {

/// What an outcome makes of the shell.
pub open spec fn turn_of(r: Result<Json, RpcError>, app: AppView) -> Turn {
    told(app, outcome_view(r))
}

/// A text, or what stands for it where it is absent.
pub open spec fn or_text(s: Option<Seq<char>>, otherwise: Seq<char>) -> Seq<char> {
    match s {
        Some(t) => t,
        None => otherwise,
    }
}

/// A text, or what stands for it where it is absent.
pub fn text_or(s: Option<String>, otherwise: &str) -> (r: String)
    ensures
        r@ == or_text(optional_chars(s), otherwise@),
{
    match s {
        Some(t) => t,
        None => owned(otherwise),
    }
}

// ---------------------------------------------------------------------------
// Lists

/// All workspaces, and the window that shows them.
pub open spec fn workspaces_listed(app: AppView) -> JsonView {
    ObjectView::new().with("window_id"@, JsonView::Text(app.window_id)).with(
        "workspaces"@,
        JsonView::Array(
            Seq::new(
                app.state.workspaces.len(),
                |i: int| workspace_summary(app, i, app.state.workspaces[i]),
            ),
        ),
    ).done()
}

/// What has the focus.
pub open spec fn identified(app: AppView) -> JsonView {
    let focused = ObjectView::new().with("window_id"@, JsonView::Text(app.window_id)).with(
        "workspace_id"@,
        optional_text_view(app.state.active_workspace_id),
    ).with("pane_id"@, optional_text_view(app.state.active_pane_id)).with(
        "surface_id"@,
        optional_text_view(app.state.active_surface_id),
    ).done();
    ObjectView::new().with("platform"@, JsonView::Text("linux"@)).with(
        "window_id"@,
        JsonView::Text(app.window_id),
    ).with("focused"@, focused).done()
}

/// The current workspace.
pub open spec fn current_told(app: AppView) -> Result<JsonView, ErrorView> {
    match current_index(app.state) {
        Some(i) => Ok(workspace_result(app, i, app.state.workspaces[i])),
        None => Err(invalid("no workspace exists"@)),
    }
}

impl AppState {
    /// All workspaces, and the window that shows them.
    pub fn list_workspaces(&self) -> (r: Json)
        ensures
            r@ == workspaces_listed(self@),
    {
        broadcast use lemma_array_view;

        let mut items: Vec<Json> = Vec::new();
        let mut i: usize = 0;
        let length: usize = self.state.workspaces.len();
        while i < length
            invariant
                i <= length == self.state.workspaces@.len(),
                items@.len() == i,
                forall|j: int|
                    0 <= j < i ==> (#[trigger] items@[j])@ == workspace_summary(
                        self@,
                        j,
                        self@.state.workspaces[j],
                    ),
            decreases length - i,
        {
            items.push(self.workspace_summary_value(i, &self.state.workspaces[i]));
            i += 1;
        }
        assert(items_view(items@) =~= Seq::new(
            self@.state.workspaces.len(),
            |i: int| workspace_summary(self@, i, self@.state.workspaces[i]),
        ));
        Object::new().with("window_id", Json::text(self.window_id.as_str())).with(
            "workspaces",
            Json::Array(items),
        ).done()
    }

    /// What has the focus.
    pub fn identify(&self) -> (r: Json)
        ensures
            r@ == identified(self@),
    {
        let focused = Object::new().with("window_id", Json::text(self.window_id.as_str())).with(
            "workspace_id",
            Json::optional_text(&self.state.active_workspace_id),
        ).with("pane_id", Json::optional_text(&self.state.active_pane_id)).with(
            "surface_id",
            Json::optional_text(&self.state.active_surface_id),
        ).done();
        Object::new().with("platform", Json::text("linux")).with(
            "window_id",
            Json::text(self.window_id.as_str()),
        ).with("focused", focused).done()
    }

    /// The current workspace.
    pub fn current_workspace(&self) -> (r: Result<Json, RpcError>)
        ensures
            outcome_view(r) == current_told(self@),
    {
        match current_workspace_index(&self.state) {
            Some(i) => {
                assert(self.state.workspaces.len() <= usize::MAX);
                Ok(self.workspace_result_value(i, &self.state.workspaces[i]))
            },
            None => Err(invalid_params("no workspace exists")),
        }
    }
}

// ---------------------------------------------------------------------------
// New workspaces

/// A terminal that has not started yet.
pub open spec fn new_terminal(
    id: Seq<char>,
    workspace_id: Seq<char>,
    pane_id: Seq<char>,
    command: Option<Seq<char>>,
    directory: Option<Seq<char>>,
) -> SurfaceView {
    SurfaceView {
        id,
        workspace_id,
        pane_id,
        title: "Terminal"@,
        kind: SurfaceKind::Terminal,
        initial_command: command,
        working_directory: directory,
        url: None,
        history: Seq::empty(),
        history_index: None,
        input_log: Seq::empty(),
        browser_state: PageView::blank(),
    }
}

/// A workspace with one pane that has one terminal.
pub open spec fn terminal_workspace(
    id: Seq<char>,
    pane_id: Seq<char>,
    surface_id: Seq<char>,
    title: Seq<char>,
    command: Option<Seq<char>>,
    directory: Option<Seq<char>>,
) -> WorkspaceView {
    WorkspaceView {
        id,
        title,
        panes: seq![
            PaneView {
                id: pane_id,
                workspace_id: id,
                surface_ids: seq![surface_id],
                active_surface_id: Some(surface_id),
            },
        ],
        surfaces: seq![new_terminal(surface_id, id, pane_id, command, directory)],
        layout: LayoutView::Leaf { pane: pane_id },
    }
}

/// A workspace with one pane that has no surface.
pub open spec fn empty_workspace(id: Seq<char>, pane_id: Seq<char>, title: Seq<char>) -> WorkspaceView {
    WorkspaceView {
        id,
        title,
        panes: seq![
            PaneView {
                id: pane_id,
                workspace_id: id,
                surface_ids: Seq::empty(),
                active_surface_id: None,
            },
        ],
        surfaces: Seq::empty(),
        layout: LayoutView::Leaf { pane: pane_id },
    }
}

/// A terminal that has not started yet.
pub fn terminal_record(
    id: String,
    workspace_id: String,
    pane_id: String,
    command: Option<String>,
    directory: Option<String>,
) -> (r: SurfaceRecord)
    ensures
        r@ == new_terminal(
            id@,
            workspace_id@,
            pane_id@,
            optional_chars(command),
            optional_chars(directory),
        ),
{
    broadcast use group_views;

    SurfaceRecord {
        id,
        workspace_id,
        pane_id,
        title: owned("Terminal"),
        kind: SurfaceKind::Terminal,
        initial_command: command,
        working_directory: directory,
        url: None,
        history: Vec::new(),
        history_index: None,
        input_log: Vec::new(),
        browser_state: BrowserState::default(),
    }
}

/// A workspace with one pane that has one terminal.
pub fn terminal_workspace_record(
    id: &str,
    pane_id: &str,
    surface_id: &str,
    title: String,
    command: Option<String>,
    directory: Option<String>,
) -> (r: WorkspaceRecord)
    ensures
        r@ == terminal_workspace(
            id@,
            pane_id@,
            surface_id@,
            title@,
            optional_chars(command),
            optional_chars(directory),
        ),
{
    let mut stack: Vec<String> = Vec::new();
    stack.push(owned(surface_id));
    assert(texts(stack@) =~= seq![surface_id@]);
    let pane = PaneRecord {
        id: owned(pane_id),
        workspace_id: owned(id),
        surface_ids: stack,
        active_surface_id: Some(owned(surface_id)),
    };
    let surface = terminal_record(owned(surface_id), owned(id), owned(pane_id), command, directory);
    let mut panes: Vec<PaneRecord> = Vec::new();
    panes.push(pane);
    let mut surfaces: Vec<SurfaceRecord> = Vec::new();
    surfaces.push(surface);
    let r = WorkspaceRecord {
        id: owned(id),
        title,
        panes,
        surfaces,
        layout: PaneNode::Leaf { pane_id: owned(pane_id) },
    };
    assert(r@ =~= terminal_workspace(
        id@,
        pane_id@,
        surface_id@,
        title@,
        optional_chars(command),
        optional_chars(directory),
    ));
    r
}

/// A workspace with one pane that has no surface.
fn empty_workspace_record(id: &str, pane_id: &str, title: String) -> (r: WorkspaceRecord)
    ensures
        r@ == empty_workspace(id@, pane_id@, title@),
{
    let pane = PaneRecord {
        id: owned(pane_id),
        workspace_id: owned(id),
        surface_ids: Vec::new(),
        active_surface_id: None,
    };
    assert(texts(pane.surface_ids@) =~= Seq::empty());
    let mut panes: Vec<PaneRecord> = Vec::new();
    panes.push(pane);
    let r = WorkspaceRecord {
        id: owned(id),
        title,
        panes,
        surfaces: Vec::new(),
        layout: PaneNode::Leaf { pane_id: owned(pane_id) },
    };
    assert(r@ =~= empty_workspace(id@, pane_id@, title@));
    r
}

/// The shell with one more workspace, which has the focus and a terminal.
pub open spec fn with_terminal_workspace(
    app: AppView,
    nanos: u64,
    title: Seq<char>,
    command: Option<Seq<char>>,
    directory: Option<Seq<char>>,
) -> AppView {
    let id = app.next_id("workspace"@, nanos);
    let pane_id = app.counted().next_id("pane"@, nanos);
    let surface_id = app.counted().counted().next_id("surface"@, nanos);
    let after = app.counted().counted().counted();
    let added = StateView {
        workspaces: app.state.workspaces.push(
            terminal_workspace(id, pane_id, surface_id, title, command, directory),
        ),
        ..after.state
    };
    after.changed_to(added.focused(Some(id), Some(pane_id), Some(surface_id)))
}

/// The shell with one more workspace, which has the focus and nothing in it.
pub open spec fn with_empty_workspace(app: AppView, nanos: u64, title: Seq<char>) -> AppView {
    let id = app.next_id("workspace"@, nanos);
    let pane_id = app.counted().next_id("pane"@, nanos);
    let after = app.counted().counted();
    let added = StateView {
        workspaces: app.state.workspaces.push(empty_workspace(id, pane_id, title)),
        ..after.state
    };
    after.changed_to(added.focused(Some(id), Some(pane_id), None))
}

/// The shell with the workspace that a request asks for: with a terminal where
/// it says how one starts, empty otherwise.
pub open spec fn with_requested_workspace(
    app: AppView,
    nanos: u64,
    params: Option<JsonView>,
) -> AppView {
    let title = or_text(text1(params, "title"@), "Workspace"@);
    let command = command_text(params);
    let directory = directory_text(params);
    if command is Some || directory is Some {
        with_terminal_workspace(app, nanos, title, command, directory)
    } else {
        with_empty_workspace(app, nanos, title)
    }
}

/// A new workspace.
pub open spec fn workspace_created(app: AppView, nanos: u64, params: Option<JsonView>) -> Turn {
    let after = with_requested_workspace(app, nanos, params);
    let id = app.next_id("workspace"@, nanos);
    let i = first_at(workspace_ids(after.state.workspaces), id)->0;
    answered(after, workspace_result(after, i, after.state.workspaces[i]))
}

impl AppState {
    /// Adds a workspace with a terminal.
    pub fn create_workspace_with_terminal(
        &mut self,
        title: String,
        initial_command: Option<String>,
        working_directory: Option<String>,
        nanos: u64,
    ) -> (r: String)
        ensures
            r@ == old(self)@.next_id("workspace"@, nanos),
            final(self)@ == with_terminal_workspace(
                old(self)@,
                nanos,
                title@,
                optional_chars(initial_command),
                optional_chars(working_directory),
            ),
    {
        broadcast use group_views;

        let id = self.next_uuid("workspace", nanos);
        let pane_id = self.next_uuid("pane", nanos);
        let surface_id = self.next_uuid("surface", nanos);
        let workspace = terminal_workspace_record(
            id.as_str(),
            pane_id.as_str(),
            surface_id.as_str(),
            title,
            initial_command,
            working_directory,
        );
        self.state.workspaces.push(workspace);
        self.set_focus(Some(id.clone()), Some(pane_id), Some(surface_id));
        self.mark_state_changed();
        id
    }

    /// Adds a workspace with a title and a terminal.
    pub fn create_workspace_with_title(&mut self, title: String, nanos: u64) -> (r: String)
        ensures
            r@ == old(self)@.next_id("workspace"@, nanos),
            final(self)@ == with_terminal_workspace(old(self)@, nanos, title@, None, None),
    {
        self.create_workspace_with_terminal(title, None, None, nanos)
    }

    /// Adds a workspace with nothing in it.
    fn create_empty_workspace(&mut self, title: String, nanos: u64) -> (r: String)
        ensures
            r@ == old(self)@.next_id("workspace"@, nanos),
            final(self)@ == with_empty_workspace(old(self)@, nanos, title@),
    {
        broadcast use group_views;

        let id = self.next_uuid("workspace", nanos);
        let pane_id = self.next_uuid("pane", nanos);
        let workspace = empty_workspace_record(id.as_str(), pane_id.as_str(), title);
        self.state.workspaces.push(workspace);
        self.set_focus(Some(id.clone()), Some(pane_id), None);
        self.mark_state_changed();
        id
    }

    /// Adds the workspace that a request asks for.
    pub fn create_workspace(&mut self, params: Option<&Json>, nanos: u64) -> (r: Result<Json, RpcError>)
        ensures
            turn_of(r, final(self)@) == workspace_created(old(self)@, nanos, optional_ref_view(params)),
    {
        let title = text_or(optional_string_param(params, "title"), "Workspace");
        let command = command_param(params);
        let directory = directory_param(params);
        let id = if command.is_some() || directory.is_some() {
            self.create_workspace_with_terminal(title, command, directory, nanos)
        } else {
            self.create_empty_workspace(title, nanos)
        };
        assert(self.state.workspaces.len() <= usize::MAX);
        proof {
            let ids = workspace_ids(self@.state.workspaces);
            lemma_first_from(ids, id@, 0);
            assert(ids[ids.len() - 1] == id@);
        }
        match workspace_position(&self.state.workspaces, id.as_str()) {
            Some(i) => Ok(self.workspace_result_value(i, &self.state.workspaces[i])),
            None => Err(invalid_params("no workspace exists")),
        }
    }
}

// ---------------------------------------------------------------------------
// Selecting, closing and changing

/// The id of the first pane.
pub open spec fn first_pane(w: WorkspaceView) -> Option<Seq<char>> {
    if w.panes.len() > 0 {
        Some(w.panes[0].id)
    } else {
        None
    }
}

/// The id of the first surface.
pub open spec fn first_surface(w: WorkspaceView) -> Option<Seq<char>> {
    if w.surfaces.len() > 0 {
        Some(w.surfaces[0].id)
    } else {
        None
    }
}

/// The id of the first pane.
pub fn first_pane_id(w: &WorkspaceRecord) -> (r: Option<String>)
    ensures
        optional_chars(r) == first_pane(w@),
{
    if w.panes.len() > 0 {
        Some(w.panes[0].id.clone())
    } else {
        None
    }
}

/// The id of the first surface.
pub fn first_surface_id(w: &WorkspaceRecord) -> (r: Option<String>)
    ensures
        optional_chars(r) == first_surface(w@),
{
    if w.surfaces.len() > 0 {
        Some(w.surfaces[0].id.clone())
    } else {
        None
    }
}

/// The place of the workspace that a request must name.
pub open spec fn requested_workspace(app: AppView, params: Option<JsonView>) -> Result<int, ErrorView> {
    match required(workspace_text(params), "workspace"@) {
        Err(e) => Err(e),
        Ok(name) => match workspace_named(app.state, name) {
            Err(e) => Err(e),
            Ok(id) => match first_at(workspace_ids(app.state.workspaces), id) {
                Some(i) => Ok(i),
                None => Err(unknown_workspace(id)),
            },
        },
    }
}

/// The place of the workspace that a request names, or of the active one.
pub open spec fn requested_or_active_workspace(app: AppView, params: Option<JsonView>) -> Result<
    int,
    ErrorView,
> {
    let id = match workspace_text(params) {
        Some(name) => workspace_named(app.state, name),
        None => match app.state.active_workspace_id {
            Some(id) => Ok(id),
            None => Err(invalid("no workspace selected"@)),
        },
    };
    match id {
        Err(e) => Err(e),
        Ok(id) => match workspace_index(app.state, id) {
            Some(i) => Ok(i),
            None => Err(unknown_workspace(id)),
        },
    }
}

/// What a result says whose value is a place.
pub open spec fn place_outcome(r: Result<usize, RpcError>) -> Result<int, ErrorView> {
    match r {
        Ok(i) => Ok(i as int),
        Err(e) => Err(e@),
    }
}

impl AppState {
    /// The place of the workspace that a request must name.
    fn requested_workspace_place(&self, params: Option<&Json>) -> (r: Result<usize, RpcError>)
        ensures
            place_outcome(r) == requested_workspace(self@, optional_ref_view(params)),
            r matches Ok(i) ==> i < self.state.workspaces@.len(),
    {
        match required_workspace_param(params) {
            Err(e) => Err(e),
            Ok(name) => match resolve_workspace_identifier(&self.state, name.as_str()) {
                Err(e) => Err(e),
                Ok(id) => match workspace_position(&self.state.workspaces, id.as_str()) {
                    Some(i) => Ok(i),
                    None => Err(unknown_workspace_error(id.as_str())),
                },
            },
        }
    }

    /// The place of the workspace that a request names, or of the active one.
    fn requested_or_active_place(&self, params: Option<&Json>) -> (r: Result<usize, RpcError>)
        ensures
            place_outcome(r) == requested_or_active_workspace(self@, optional_ref_view(params)),
            r matches Ok(i) ==> i < self.state.workspaces@.len(),
    {
        let id = match workspace_param(params) {
            Some(name) => match resolve_workspace_identifier(&self.state, name.as_str()) {
                Ok(id) => id,
                Err(e) => {
                    return Err(e);
                },
            },
            None => match &self.state.active_workspace_id {
                Some(id) => id.clone(),
                None => {
                    return Err(invalid_params("no workspace selected"));
                },
            },
        };
        match find_workspace_index(&self.state, id.as_str()) {
            Some(i) => Ok(i),
            None => Err(unknown_workspace_error(id.as_str())),
        }
    }
}

/// A workspace selected by a request: its first pane and its first surface get
/// the focus.
pub open spec fn workspace_selected(app: AppView, params: Option<JsonView>) -> Turn {
    match requested_workspace(app, params) {
        Err(e) => refused(app, e),
        Ok(i) => {
            let w = app.state.workspaces[i];
            let after = app.changed_to(
                app.state.focused(Some(w.id), first_pane(w), first_surface(w)),
            );
            answered(after, workspace_result(after, i, w))
        },
    }
}

/// A state without one of its workspaces: where that was active, the first of
/// the others is.
pub open spec fn without_workspace(s: StateView, i: int) -> StateView {
    let rest = StateView { workspaces: s.workspaces.remove(i), ..s };
    if is_id(s.active_workspace_id, s.workspaces[i].id) {
        let first = rest.workspaces[0];
        rest.focused(Some(first.id), first_pane(first), first_surface(first))
    } else {
        rest
    }
}

/// A workspace closed by a request.
pub open spec fn workspace_closed(app: AppView, params: Option<JsonView>) -> Turn {
    match requested_workspace(app, params) {
        Err(e) => refused(app, e),
        Ok(i) => if app.state.workspaces.len() == 1 {
            refused(app, invalid("cannot close the last workspace"@))
        } else {
            let w = app.state.workspaces[i];
            answered(
                app.changed_to(without_workspace(app.state, i)),
                ObjectView::new().with("window_id"@, JsonView::Text(app.window_id)).with(
                    "workspace_id"@,
                    JsonView::Text(w.id),
                ).with("closed"@, JsonView::Bool(true)).with("workspace"@, workspace_value(w)).done(),
            )
        },
    }
}

/// A workspace renamed by a request.
pub open spec fn workspace_renamed(app: AppView, params: Option<JsonView>) -> Turn {
    match required(text1(params, "title"@), "title"@) {
        Err(e) => refused(app, e),
        Ok(title) => match requested_or_active_workspace(app, params) {
            Err(e) => refused(app, e),
            Ok(i) => {
                let w = WorkspaceView { title, ..app.state.workspaces[i] };
                let after = app.changed_to(app.state.with_workspace(i, w));
                answered(after, workspace_result(after, i, w))
            },
        },
    }
}

/// The splits of a workspace put in the middle.
pub open spec fn splits_equalized(app: AppView, params: Option<JsonView>) -> Turn {
    match requested_or_active_workspace(app, params) {
        Err(e) => refused(app, e),
        Ok(i) => {
            let w = WorkspaceView {
                layout: app.state.workspaces[i].layout.equalize(),
                ..app.state.workspaces[i]
            };
            let after = app.changed_to(app.state.with_workspace(i, w));
            answered(after, workspace_result(after, i, w))
        },
    }
}

/// A requested place stands in the list.
pub proof fn lemma_requested_workspace(app: AppView, params: Option<JsonView>)
    ensures
        requested_workspace(app, params) matches Ok(i) ==> 0 <= i < app.state.workspaces.len()
            && first_at(workspace_ids(app.state.workspaces), app.state.workspaces[i].id) == Some(i),
{
    match required(workspace_text(params), "workspace"@) {
        Err(e) => {},
        Ok(name) => match workspace_named(app.state, name) {
            Err(e) => {},
            Ok(id) => {
                lemma_first_from(workspace_ids(app.state.workspaces), id, 0);
            },
        },
    }
}

impl AppState {
    /// Selects the workspace that a request names.
    pub fn select_workspace(&mut self, params: Option<&Json>) -> (r: Result<Json, RpcError>)
        ensures
            turn_of(r, final(self)@) == workspace_selected(old(self)@, optional_ref_view(params)),
    {
        proof {
            lemma_requested_workspace(self@, optional_ref_view(params));
        }
        match self.requested_workspace_place(params) {
            Err(e) => Err(e),
            Ok(i) => {
                assert(self.state.workspaces.len() <= usize::MAX);
                let id = self.state.workspaces[i].id.clone();
                let pane = first_pane_id(&self.state.workspaces[i]);
                let surface = first_surface_id(&self.state.workspaces[i]);
                self.set_focus(Some(id), pane, surface);
                self.mark_state_changed();
                Ok(self.workspace_result_value(i, &self.state.workspaces[i]))
            },
        }
    }

    /// Closes the workspace that a request names; the last one stays.
    pub fn close_workspace(&mut self, params: Option<&Json>) -> (r: Result<Json, RpcError>)
        ensures
            turn_of(r, final(self)@) == workspace_closed(old(self)@, optional_ref_view(params)),
    {
        broadcast use group_views;

        match self.requested_workspace_place(params) {
            Err(e) => Err(e),
            Ok(i) => {
                if self.state.workspaces.len() == 1 {
                    return Err(invalid_params("cannot close the last workspace"));
                }
                let workspace = self.state.workspaces.remove(i);
                if same_id(&self.state.active_workspace_id, workspace.id.as_str()) {
                    let id = self.state.workspaces[0].id.clone();
                    let pane = first_pane_id(&self.state.workspaces[0]);
                    let surface = first_surface_id(&self.state.workspaces[0]);
                    self.set_focus(Some(id), pane, surface);
                }
                self.mark_state_changed();
                Ok(
                    Object::new().with("window_id", Json::text(self.window_id.as_str())).with(
                        "workspace_id",
                        Json::text(workspace.id.as_str()),
                    ).with("closed", Json::Bool(true)).with(
                        "workspace",
                        workspace_json(&workspace),
                    ).done(),
                )
            },
        }
    }

    /// Renames a workspace.
    pub fn rename_workspace(&mut self, params: Option<&Json>) -> (r: Result<Json, RpcError>)
        ensures
            turn_of(r, final(self)@) == workspace_renamed(old(self)@, optional_ref_view(params)),
    {
        broadcast use group_views;

        match crate::rpc::require(optional_string_param(params, "title"), "title") {
            Err(e) => Err(e),
            Ok(title) => match self.requested_or_active_place(params) {
                Err(e) => Err(e),
                Ok(i) => {
                    assert(self.state.workspaces.len() <= usize::MAX);
                    self.workspace_mut(i).title = title;
                    self.mark_state_changed();
                    Ok(self.workspace_result_value(i, &self.state.workspaces[i]))
                },
            },
        }
    }

    /// Puts the splits of a workspace in the middle.
    pub fn workspace_equalize_splits(&mut self, params: Option<&Json>) -> (r: Result<Json, RpcError>)
        ensures
            turn_of(r, final(self)@) == splits_equalized(old(self)@, optional_ref_view(params)),
    {
        broadcast use group_views;

        match self.requested_or_active_place(params) {
            Err(e) => Err(e),
            Ok(i) => {
                assert(self.state.workspaces.len() <= usize::MAX);
                equalize_layout(&mut self.workspace_mut(i).layout);
                self.mark_state_changed();
                Ok(self.workspace_result_value(i, &self.state.workspaces[i]))
            },
        }
    }
}

/// The surface that gets the focus with a workspace that the user selects: the
/// one on top of its first pane, or its first one.
pub open spec fn top_surface(w: WorkspaceView) -> Option<Seq<char>> {
    let top = if w.panes.len() > 0 {
        w.panes[0].active_surface_id
    } else {
        None
    };
    match top {
        Some(id) => Some(id),
        None => first_surface(w),
    }
}

/// The shell after the user selected a workspace, and what is said where there
/// is none.
pub open spec fn selected_by_id(app: AppView, identifier: Seq<char>) -> (Result<(), Seq<char>>, AppView) {
    match workspace_index(app.state, identifier) {
        Some(i) => {
            let w = app.state.workspaces[i];
            (
                Ok(()),
                app.changed_to(app.state.focused(Some(w.id), first_pane(w), top_surface(w))),
            )
        },
        None => (Err("unknown workspace: "@ + identifier), app),
    }
}

/// What a result says that has no value, and a text as its error.
pub open spec fn said(r: Result<(), String>) -> Result<(), Seq<char>> {
    match r {
        Ok(_) => Ok(()),
        Err(e) => Err(e@),
    }
}

impl AppState {
    /// Selects a workspace for the user.
    pub fn select_workspace_by_id(&mut self, workspace_id: &str) -> (r: Result<(), String>)
        ensures
            (said(r), final(self)@) == selected_by_id(old(self)@, workspace_id@),
    {
        match find_workspace_index(&self.state, workspace_id) {
            Some(i) => {
                let w = &self.state.workspaces[i];
                let id = w.id.clone();
                let pane = first_pane_id(w);
                let top = if w.panes.len() > 0 {
                    copy_optional(&w.panes[0].active_surface_id)
                } else {
                    None
                };
                let surface = match top {
                    Some(s) => Some(s),
                    None => first_surface_id(w),
                };
                self.set_focus(Some(id), pane, surface);
                self.mark_state_changed();
                Ok(())
            },
            None => Err(join2("unknown workspace: ", workspace_id)),
        }
    }
}

} // verus!
