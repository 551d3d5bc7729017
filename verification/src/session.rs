//! How a session starts: from nothing, or from what an earlier one left.

use crate::app_state::{next_after, next_revision, AppState, AppView};
use crate::ids::{uuid, uuid_text};
use crate::layout::{
    law_prune_keeps_the_listed_leaves, law_prune_leaves_a_fitting_layout, prune_layout, LayoutView,
    PaneNode,
};
use crate::lists::{first_at, group_views, lemma_first_at_contains, lemma_first_from, views};
use crate::locate::{
    current_index, current_workspace_index, lemma_current_index, lemma_surface_by_id, pane_at,
    pane_location, pane_place, surface_at, surface_location,
};
use crate::model::{
    ids_of_panes, pane_ids, workspace_ids, workspace_position, PaneRecord, PaneView, State, StateView,
    SurfaceKind, WorkspaceRecord, WorkspaceView,
};
use crate::page::copy_optional;
use crate::text::owned;
use crate::workspaces::{
    first_pane, first_pane_id, first_surface, first_surface_id, terminal_workspace,
    terminal_workspace_record,
};
use vstd::prelude::*;

verus! {

/// A state with one workspace, which has a terminal and the focus.
pub open spec fn default_state(
    workspace_id: Seq<char>,
    pane_id: Seq<char>,
    surface_id: Seq<char>,
) -> StateView {
    StateView {
        workspaces: seq![
            terminal_workspace(workspace_id, pane_id, surface_id, "Default"@, None, None),
        ],
        revision: 1,
        active_workspace_id: Some(workspace_id),
        active_pane_id: Some(pane_id),
        active_surface_id: Some(surface_id),
        notifications: Seq::empty(),
    }
}

/// The shell with the default state in place of its own.
pub open spec fn with_default_state(app: AppView, nanos: u64) -> AppView {
    let workspace_id = app.next_id("workspace"@, nanos);
    let pane_id = app.counted().next_id("pane"@, nanos);
    let surface_id = app.counted().counted().next_id("surface"@, nanos);
    app.counted().counted().counted().holding(default_state(workspace_id, pane_id, surface_id))
}

/// A shell without any state, in a window of its own.
pub open spec fn bare_shell(nanos: u64) -> AppView {
    AppView {
        state: StateView {
            workspaces: Seq::empty(),
            revision: 0,
            active_workspace_id: None,
            active_pane_id: None,
            active_surface_id: None,
            notifications: Seq::empty(),
        },
        next_ordinal: 2,
        window_id: uuid("window"@, 1, nanos),
        unsaved: false,
    }
}

/// A pane without surfaces.
pub open spec fn bare_pane(id: Seq<char>, workspace_id: Seq<char>) -> PaneView {
    PaneView { id, workspace_id, surface_ids: Seq::empty(), active_surface_id: None }
}

/// A workspace with at least one pane: a new one where it had none.
pub open spec fn with_some_pane(w: WorkspaceView, pane_id: Seq<char>) -> WorkspaceView {
    if w.panes.len() == 0 {
        WorkspaceView {
            panes: seq![bare_pane(pane_id, w.id)],
            layout: LayoutView::Leaf { pane: pane_id },
            ..w
        }
    } else {
        w
    }
}

/// A workspace whose layout holds nothing but panes that it has; its first pane
/// alone where nothing else is left.
pub open spec fn with_fitting_layout(w: WorkspaceView) -> WorkspaceView {
    WorkspaceView {
        layout: match w.layout.prune(pane_ids(w.panes)) {
            Some(layout) => layout,
            None => LayoutView::Leaf { pane: w.panes[0].id },
        },
        ..w
    }
}

/// The ordinal after a workspace was repaired.
pub open spec fn ordinal_after(w: WorkspaceView, ordinal: u64) -> u64 {
    if w.panes.len() == 0 {
        next_after(ordinal)
    } else {
        ordinal
    }
}

/// A workspace repaired.
pub open spec fn workspace_repaired(w: WorkspaceView, ordinal: u64, nanos: u64) -> WorkspaceView {
    with_fitting_layout(with_some_pane(w, uuid("pane"@, ordinal, nanos)))
}

/// The first `count` workspaces repaired one after another, and the ordinal
/// after that.
pub open spec fn workspaces_repaired(
    list: Seq<WorkspaceView>,
    count: int,
    ordinal: u64,
    nanos: u64,
) -> (Seq<WorkspaceView>, u64)
    decreases count,
{
    if count <= 0 {
        (Seq::empty(), ordinal)
    } else {
        let (done, next) = workspaces_repaired(list, count - 1, ordinal, nanos);
        let w = list[count - 1];
        (done.push(workspace_repaired(w, next, nanos)), ordinal_after(w, next))
    }
}

/// A state whose active workspace is one that it has.
pub open spec fn active_workspace_repaired(s: StateView) -> StateView {
    let there = match s.active_workspace_id {
        Some(id) => first_at(workspace_ids(s.workspaces), id) is Some,
        None => false,
    };
    if there {
        s
    } else {
        StateView { active_workspace_id: Some(s.workspaces[0].id), ..s }
    }
}

/// A state whose active pane is one that it has.
pub open spec fn active_pane_repaired(s: StateView) -> StateView {
    let there = match s.active_pane_id {
        Some(id) => pane_at(s, id) is Some,
        None => false,
    };
    if there {
        s
    } else {
        StateView { active_pane_id: first_pane(s.workspaces[current_index(s)->0]), ..s }
    }
}

/// The surface on top of the active pane.
pub open spec fn top_of_active_pane(s: StateView) -> Option<Seq<char>> {
    match s.active_pane_id {
        None => None,
        Some(id) => match pane_at(s, id) {
            Some((w, p)) => s.workspaces[w].panes[p].active_surface_id,
            None => None,
        },
    }
}

/// A state whose active surface is one that it has, or what its active pane
/// has on top, or the first of its current workspace.
pub open spec fn active_surface_repaired(s: StateView) -> StateView {
    let there = match s.active_surface_id {
        Some(id) => surface_at(s, id) is Some,
        None => false,
    };
    if there {
        s
    } else {
        StateView {
            active_surface_id: match top_of_active_pane(s) {
                Some(id) => Some(id),
                None => first_surface(s.workspaces[current_index(s)->0]),
            },
            ..s
        }
    }
}

/// A shell whose state holds together. A state without workspaces gives way to
/// the default one.
pub open spec fn repaired(app: AppView, nanos: u64) -> AppView {
    if app.state.workspaces.len() == 0 {
        with_default_state(app, nanos)
    } else {
        let (workspaces, ordinal) = workspaces_repaired(
            app.state.workspaces,
            app.state.workspaces.len() as int,
            app.next_ordinal,
            nanos,
        );
        let s = active_surface_repaired(
            active_pane_repaired(
                active_workspace_repaired(StateView { workspaces, ..app.state }),
            ),
        );
        AppView {
            state: StateView { revision: next_revision(s.revision), ..s },
            next_ordinal: ordinal,
            ..app
        }
    }
}

/// The shell that starts from nothing.
pub open spec fn started(nanos: u64) -> AppView {
    with_default_state(bare_shell(nanos), nanos)
}

/// The shell that starts from what an earlier session left, if it left
/// anything.
pub open spec fn resumed(left: Option<StateView>, nanos: u64) -> AppView {
    match left {
        Some(state) => repaired(bare_shell(nanos).holding(state), nanos),
        None => repaired(started(nanos), nanos),
    }
}

/// Repairs a workspace; the id is for the pane that it gets where it has none.
fn repair_workspace(w: &mut WorkspaceRecord, pane_id: String)
    ensures
        final(w)@ == with_fitting_layout(with_some_pane(old(w)@, pane_id@)),
{
    broadcast use group_views;

    let ghost before = w@;
    if w.panes.is_empty() {
        w.layout = PaneNode::Leaf { pane_id: pane_id.clone() };
        w.panes.push(
            PaneRecord {
                id: pane_id,
                workspace_id: w.id.clone(),
                surface_ids: Vec::new(),
                active_surface_id: None,
            },
        );
        assert(w@.panes =~= with_some_pane(before, pane_id@).panes);
    }
    assert(w@ == with_some_pane(before, pane_id@));
    let ids = ids_of_panes(&w.panes);
    match prune_layout(&w.layout, &ids) {
        Some(layout) => {
            w.layout = layout;
        },
        None => {
            w.layout = PaneNode::Leaf { pane_id: w.panes[0].id.clone() };
        },
    }
}

impl AppState {
    /// A shell without any state, in a window of its own.
    fn bare(nanos: u64) -> (r: AppState)
        ensures
            r@ == bare_shell(nanos),
    {
        broadcast use group_views;

        AppState {
            state: State {
                workspaces: Vec::new(),
                revision: 0,
                active_workspace_id: None,
                active_pane_id: None,
                active_surface_id: None,
                notifications: Vec::new(),
            },
            next_ordinal: 2,
            window_id: uuid_text("window", 1, nanos),
            unsaved: false,
        }
    }

    /// Puts the default state in place of the shell's own.
    fn set_default_state(&mut self, nanos: u64)
        ensures
            final(self)@ == with_default_state(old(self)@, nanos),
    {
        broadcast use group_views;

        let workspace_id = self.next_uuid("workspace", nanos);
        let pane_id = self.next_uuid("pane", nanos);
        let surface_id = self.next_uuid("surface", nanos);
        let workspace = terminal_workspace_record(
            workspace_id.as_str(),
            pane_id.as_str(),
            surface_id.as_str(),
            owned("Default"),
            None,
            None,
        );
        let mut workspaces: Vec<WorkspaceRecord> = Vec::new();
        workspaces.push(workspace);
        self.state =
        State {
            workspaces,
            revision: 1,
            active_workspace_id: Some(workspace_id),
            active_pane_id: Some(pane_id),
            active_surface_id: Some(surface_id),
            notifications: Vec::new(),
        };
        assert(self@.state =~= default_state(workspace_id@, pane_id@, surface_id@));
    }

    /// A shell that starts from nothing.
    pub fn start(nanos: u64) -> (r: AppState)
        ensures
            r@ == started(nanos),
    {
        let mut shell = AppState::bare(nanos);
        shell.set_default_state(nanos);
        shell
    }

    /// A shell that starts from what an earlier session left.
    pub fn load_or_default(left: Option<State>, nanos: u64) -> (r: AppState)
        ensures
            r@ == resumed(
                match left {
                    Some(s) => Some(s@),
                    None => None,
                },
                nanos,
            ),
    {
        let mut shell = match left {
            Some(state) => {
                let mut shell = AppState::bare(nanos);
                shell.state = state;
                shell
            },
            None => AppState::start(nanos),
        };
        shell.repair_state(nanos);
        shell
    }

    /// Repairs the workspaces.
    fn repair_workspaces(&mut self, nanos: u64)
        ensures
            final(self)@ == (AppView {
                state: StateView {
                    workspaces: workspaces_repaired(
                        old(self)@.state.workspaces,
                        old(self)@.state.workspaces.len() as int,
                        old(self)@.next_ordinal,
                        nanos,
                    ).0,
                    ..old(self)@.state
                },
                next_ordinal: workspaces_repaired(
                    old(self)@.state.workspaces,
                    old(self)@.state.workspaces.len() as int,
                    old(self)@.next_ordinal,
                    nanos,
                ).1,
                ..old(self)@
            }),
    {
        broadcast use group_views;

        let ghost all = self@;
        let ghost list = self@.state.workspaces;
        let mut w: usize = 0;
        let length: usize = self.state.workspaces.len();
        proof {
            assert(list =~= Seq::empty() + list.skip(0));
        }
        while w < length
            invariant
                w <= length == self.state.workspaces@.len(),
                length == list.len(),
                list == all.state.workspaces,
                all == old(self)@,
                self@ == (AppView {
                    state: StateView {
                        workspaces: workspaces_repaired(list, w as int, all.next_ordinal, nanos).0
                            + list.skip(w as int),
                        ..all.state
                    },
                    next_ordinal: workspaces_repaired(list, w as int, all.next_ordinal, nanos).1,
                    ..all
                }),
                workspaces_repaired(list, w as int, all.next_ordinal, nanos).0.len() == w,
            decreases length - w,
        {
            let ghost done = workspaces_repaired(list, w as int, all.next_ordinal, nanos).0;
            let ghost here = self@.state.workspaces;
            assert(here[w as int] == list[w as int]);
            let ghost ordinal = self@.next_ordinal;
            let bare = self.state.workspaces[w].panes.is_empty();
            let pane_id = if bare {
                self.next_uuid("pane", nanos)
            } else {
                String::new()
            };
            repair_workspace(self.workspace_mut(w), pane_id);
            proof {
                let now = workspace_repaired(list[w as int], ordinal, nanos);
                assert(self@.state.workspaces =~= here.update(w as int, now));
                assert(here.update(w as int, now) =~= done.push(now) + list.skip(w + 1));
            }
            w += 1;
        }
        assert(list.skip(length as int) =~= Seq::empty());
        assert(self@.state.workspaces =~= workspaces_repaired(
            list,
            length as int,
            all.next_ordinal,
            nanos,
        ).0);
    }

    /// Makes the state hold together.
    pub fn repair_state(&mut self, nanos: u64)
        ensures
            final(self)@ == repaired(old(self)@, nanos),
    {
        broadcast use group_views;

        let ghost before = self@;
        if self.state.workspaces.is_empty() {
            self.set_default_state(nanos);
            return ;
        }
        proof {
            lemma_repaired_len(
                before.state.workspaces,
                before.state.workspaces.len() as int,
                before.next_ordinal,
                nanos,
            );
        }
        self.repair_workspaces(nanos);
        assert(views(self.state.workspaces@).len() == before.state.workspaces.len());
        let there = match &self.state.active_workspace_id {
            Some(id) => workspace_position(&self.state.workspaces, id.as_str()).is_some(),
            None => false,
        };
        if !there {
            self.state.active_workspace_id = Some(self.state.workspaces[0].id.clone());
        }
        proof {
            lemma_current_index(self@.state);
        }
        let there = match &self.state.active_pane_id {
            Some(id) => pane_location(&self.state, id.as_str()).is_some(),
            None => false,
        };
        if !there {
            self.state.active_pane_id = match current_workspace_index(&self.state) {
                Some(w) => first_pane_id(&self.state.workspaces[w]),
                None => None,
            };
        }
        proof {
            lemma_current_index(self@.state);
        }
        let there = match &self.state.active_surface_id {
            Some(id) => surface_location(&self.state, id.as_str()).is_some(),
            None => false,
        };
        if !there {
            let top = match &self.state.active_pane_id {
                Some(id) => match pane_location(&self.state, id.as_str()) {
                    Some((w, p)) => copy_optional(
                        &self.state.workspaces[w].panes[p].active_surface_id,
                    ),
                    None => None,
                },
                None => None,
            };
            self.state.active_surface_id = match top {
                Some(id) => Some(id),
                None => match current_workspace_index(&self.state) {
                    Some(w) => first_surface_id(&self.state.workspaces[w]),
                    None => None,
                },
            };
        }
        if self.state.revision < u64::MAX {
            self.state.revision = self.state.revision + 1;
        }
    }
}

// ---------------------------------------------------------------------------
// Laws

/// As many workspaces as there were.
proof fn lemma_repaired_len(list: Seq<WorkspaceView>, count: int, ordinal: u64, nanos: u64)
    requires
        0 <= count <= list.len(),
    ensures
        workspaces_repaired(list, count, ordinal, nanos).0.len() == count,
    decreases count,
{
    if count > 0 {
        lemma_repaired_len(list, count - 1, ordinal, nanos);
    }
}

/// Whether a workspace has a pane, and its layout nothing but panes that it
/// has.
pub open spec fn holds_together(w: WorkspaceView) -> bool {
    &&& w.panes.len() > 0
    &&& forall|i: int|
        0 <= i < w.layout.leaves().len() ==> pane_ids(w.panes).contains(
            #[trigger] w.layout.leaves()[i],
        )
}

/// A repaired workspace holds together.
proof fn lemma_workspace_repaired(w: WorkspaceView, ordinal: u64, nanos: u64)
    ensures
        holds_together(workspace_repaired(w, ordinal, nanos)),
{
    let some = with_some_pane(w, uuid("pane"@, ordinal, nanos));
    let done = workspace_repaired(w, ordinal, nanos);
    let ids = pane_ids(some.panes);
    law_prune_keeps_the_listed_leaves(some.layout, ids);
    assert(pane_ids(done.panes) == ids);
    match some.layout.prune(ids) {
        Some(layout) => {
            let keep = |pane: Seq<char>| ids.contains(pane);
            assert forall|i: int| 0 <= i < layout.leaves().len() implies ids.contains(
                #[trigger] layout.leaves()[i],
            ) by {
                broadcast use vstd::seq_lib::group_filter_ensures;

                assert(keep(some.layout.leaves().filter(keep)[i]));
            }
        },
        None => {
            assert(ids[0] == some.panes[0].id);
            assert(done.layout.leaves() =~= seq![some.panes[0].id]);
        },
    }
}

/// Repaired workspaces hold together.
proof fn lemma_workspaces_repaired(
    list: Seq<WorkspaceView>,
    count: int,
    ordinal: u64,
    nanos: u64,
    i: int,
)
    requires
        0 <= i < count <= list.len(),
    ensures
        holds_together(workspaces_repaired(list, count, ordinal, nanos).0[i]),
    decreases count,
{
    lemma_repaired_len(list, count, ordinal, nanos);
    lemma_repaired_len(list, count - 1, ordinal, nanos);
    let (done, next) = workspaces_repaired(list, count - 1, ordinal, nanos);
    if i == count - 1 {
        lemma_workspace_repaired(list[count - 1], next, nanos);
    } else {
        lemma_workspaces_repaired(list, count - 1, ordinal, nanos, i);
    }
}

/// Whatever an earlier session left, the shell starts with at least one
/// workspace, each of which has a pane and a layout of panes that it has; the
/// active workspace is one of them, and the active pane is there.
pub proof fn law_repaired_state_holds_together(app: AppView, nanos: u64)
    ensures
        repaired(app, nanos).state.workspaces.len() > 0,
        forall|i: int|
            0 <= i < repaired(app, nanos).state.workspaces.len() ==> holds_together(
                #[trigger] repaired(app, nanos).state.workspaces[i],
            ),
        repaired(app, nanos).state.active_workspace_id is Some,
        workspace_ids(repaired(app, nanos).state.workspaces).contains(
            repaired(app, nanos).state.active_workspace_id->0,
        ),
        repaired(app, nanos).state.active_pane_id is Some,
        pane_at(
            repaired(app, nanos).state,
            repaired(app, nanos).state.active_pane_id->0,
        ) is Some,
{
    let after = repaired(app, nanos).state;
    if app.state.workspaces.len() == 0 {
        let w = after.workspaces[0];
        let ids = pane_ids(w.panes);
        assert(ids[0] == w.panes[0].id);
        assert(w.layout.leaves() =~= seq![w.panes[0].id]);
        assert(workspace_ids(after.workspaces)[0] == w.id);
        lemma_pane_exists(after, 0, 0);
    } else {
        let n = app.state.workspaces.len() as int;
        let list = workspaces_repaired(app.state.workspaces, n, app.next_ordinal, nanos).0;
        lemma_repaired_len(app.state.workspaces, n, app.next_ordinal, nanos);
        assert(after.workspaces == list);
        assert forall|i: int| 0 <= i < after.workspaces.len() implies holds_together(
            #[trigger] after.workspaces[i],
        ) by {
            lemma_workspaces_repaired(app.state.workspaces, n, app.next_ordinal, nanos, i);
        }
        let s0 = StateView { workspaces: list, ..app.state };
        let s1 = active_workspace_repaired(s0);
        assert(workspace_ids(list)[0] == list[0].id);
        lemma_first_at_contains(workspace_ids(list), s1.active_workspace_id->0);
        let s2 = active_pane_repaired(s1);
        lemma_current_index(s1);
        let there = match s1.active_pane_id {
            Some(id) => pane_at(s1, id) is Some,
            None => false,
        };
        if !there {
            let c = current_index(s1)->0;
            assert(holds_together(list[c]));
            assert(s2.active_pane_id == Some(list[c].panes[0].id));
            lemma_pane_exists(s2, c, 0);
        }
        let s3 = active_surface_repaired(s2);
        assert(current_index(s3) == current_index(s2));
        assert(pane_at(s3, s3.active_pane_id->0) == pane_at(s2, s2.active_pane_id->0));
        assert(current_index(after) == current_index(s3));
        assert(pane_at(after, after.active_pane_id->0) == pane_at(s3, s3.active_pane_id->0));
    }
}

/// A pane that stands in the lists is found.
proof fn lemma_pane_found(list: Seq<WorkspaceView>, w: int, i: int, from: int)
    requires
        0 <= from <= w < list.len(),
        0 <= i < list[w].panes.len(),
    ensures
        pane_place(list, list[w].panes[i].id, from) is Some,
    decreases w - from,
{
    let id = list[w].panes[i].id;
    let ids = pane_ids(list[from].panes);
    lemma_first_from(ids, id, 0);
    if from == w {
        assert(ids[i] == id);
    } else if first_at(ids, id) is None {
        lemma_pane_found(list, w, i, from + 1);
    }
}

/// A pane that stands in the lists is found by its id.
proof fn lemma_pane_exists(s: StateView, w: int, i: int)
    requires
        0 <= w < s.workspaces.len(),
        0 <= i < s.workspaces[w].panes.len(),
    ensures
        pane_at(s, s.workspaces[w].panes[i].id) is Some,
{
    lemma_pane_found(s.workspaces, w, i, 0);
}

/// Workspaces that hold together are left as they are.
proof fn lemma_fitting_workspaces(list: Seq<WorkspaceView>, count: int, ordinal: u64, nanos: u64)
    requires
        0 <= count <= list.len(),
        forall|i: int| 0 <= i < list.len() ==> holds_together(#[trigger] list[i]),
    ensures
        workspaces_repaired(list, count, ordinal, nanos) == (list.take(count), ordinal),
    decreases count,
{
    if count > 0 {
        lemma_fitting_workspaces(list, count - 1, ordinal, nanos);
        let w = list[count - 1];
        assert(holds_together(w));
        law_prune_leaves_a_fitting_layout(w.layout, pane_ids(w.panes));
        assert(list.take(count - 1).push(w) =~= list.take(count));
    } else {
        assert(list.take(0) =~= Seq::empty());
    }
}

/// A state that was repaired holds together: repairing it again, at any time,
/// changes nothing but its revision, which counts one more.
pub proof fn law_repairing_again_changes_nothing(app: AppView, nanos: u64, later: u64)
    ensures
        repaired(repaired(app, nanos), later) == (AppView {
            state: StateView {
                revision: next_revision(repaired(app, nanos).state.revision),
                ..repaired(app, nanos).state
            },
            ..repaired(app, nanos)
        }),
{
    let once = repaired(app, nanos);
    let s = once.state;
    law_repaired_state_holds_together(app, nanos);
    lemma_fitting_workspaces(s.workspaces, s.workspaces.len() as int, once.next_ordinal, later);
    assert(s.workspaces.take(s.workspaces.len() as int) =~= s.workspaces);
    lemma_first_at_contains(workspace_ids(s.workspaces), s.active_workspace_id->0);
    assert(active_workspace_repaired(s) == s);
    assert(active_pane_repaired(s) == s);
    if app.state.workspaces.len() > 0 {
        let (list, ordinal) = workspaces_repaired(
            app.state.workspaces,
            app.state.workspaces.len() as int,
            app.next_ordinal,
            nanos,
        );
        let s2 = active_pane_repaired(
            active_workspace_repaired(StateView { workspaces: list, ..app.state }),
        );
        let s3 = active_surface_repaired(s2);
        assert(current_index(s2) == current_index(s));
        assert(current_index(s3) == current_index(s));
        assert(top_of_active_pane(s2) == top_of_active_pane(s));
        assert(s3.active_surface_id == s.active_surface_id);
    }
    assert(active_surface_repaired(s) == s);
}

/// Whether a state has a workspace with an id.
pub open spec fn has_workspace(s: StateView, id: Seq<char>) -> bool {
    exists|w: int| 0 <= w < s.workspaces.len() && (#[trigger] s.workspaces[w]).id == id
}

/// Whether a state has a pane with an id.
pub open spec fn has_pane(s: StateView, id: Seq<char>) -> bool {
    exists|w: int, i: int|
        0 <= w < s.workspaces.len() && 0 <= i < s.workspaces[w].panes.len() && (
        #[trigger] s.workspaces[w].panes[i]).id == id
}

/// Whether a state has a surface with an id.
pub open spec fn has_surface(s: StateView, id: Seq<char>) -> bool {
    exists|w: int, i: int|
        0 <= w < s.workspaces.len() && 0 <= i < s.workspaces[w].surfaces.len() && (
        #[trigger] s.workspaces[w].surfaces[i]).id == id
}

/// Whether a state needs no repair: it has workspaces, each of them holds
/// together, and the active workspace, pane and surface are there.
pub open spec fn needs_no_repair(s: StateView) -> bool {
    &&& s.workspaces.len() > 0
    &&& forall|w: int| 0 <= w < s.workspaces.len() ==> holds_together(#[trigger] s.workspaces[w])
    &&& s.active_workspace_id matches Some(id) && has_workspace(s, id)
    &&& s.active_pane_id matches Some(id) && has_pane(s, id)
    &&& s.active_surface_id matches Some(id) && has_surface(s, id)
}

/// A session goes on as it was left: what needs no repair is all kept, with the
/// same workspaces, the same notifications, and the focus where it was. Only the
/// revision counts one more.
pub proof fn law_a_session_goes_on_as_it_was_left(left: StateView, nanos: u64)
    requires
        needs_no_repair(left),
    ensures
        ({
            let after = resumed(Some(left), nanos).state;
            &&& after.workspaces == left.workspaces
            &&& after.active_workspace_id == left.active_workspace_id
            &&& after.active_pane_id == left.active_pane_id
            &&& after.active_surface_id == left.active_surface_id
            &&& after.notifications == left.notifications
            &&& left.revision < u64::MAX ==> after.revision == left.revision + 1
            &&& left.revision == u64::MAX ==> after.revision == u64::MAX
        }),
{
    let app = bare_shell(nanos).holding(left);
    lemma_fitting_workspaces(
        left.workspaces,
        left.workspaces.len() as int,
        app.next_ordinal,
        nanos,
    );
    assert(left.workspaces.take(left.workspaces.len() as int) =~= left.workspaces);
    law_present_ids_are_kept(left, nanos);
}

/// Whether a workspace was kept: its id, title and surfaces, its panes if it had
/// any, and of its layout the panes that it has, in their order, if there are
/// any.
pub open spec fn is_kept(before: WorkspaceView, after: WorkspaceView) -> bool {
    &&& after.id == before.id
    &&& after.title == before.title
    &&& after.surfaces == before.surfaces
    &&& before.panes.len() > 0 ==> after.panes == before.panes
    &&& before.panes.len() == 0 ==> after.panes.len() == 1 && after.panes[0].surface_ids.len() == 0
        && after.panes[0].workspace_id == before.id && after.layout.leaves() == seq![
        after.panes[0].id,
    ]
    &&& ({
        let left = before.layout.leaves().filter(
            |pane: Seq<char>| pane_ids(before.panes).contains(pane),
        );
        left.len() > 0 ==> after.layout.leaves() == left
    })
}

/// Repairing keeps the workspaces.
proof fn lemma_workspaces_kept(
    list: Seq<WorkspaceView>,
    count: int,
    ordinal: u64,
    nanos: u64,
    w: int,
)
    requires
        0 <= w < count <= list.len(),
    ensures
        is_kept(list[w], workspaces_repaired(list, count, ordinal, nanos).0[w]),
    decreases count,
{
    lemma_repaired_len(list, count, ordinal, nanos);
    lemma_repaired_len(list, count - 1, ordinal, nanos);
    if w == count - 1 {
        let next = workspaces_repaired(list, count - 1, ordinal, nanos).1;
        let before = list[w];
        let id = uuid("pane"@, next, nanos);
        let some = with_some_pane(before, id);
        let ids = pane_ids(some.panes);
        let after = workspace_repaired(before, next, nanos);
        law_prune_keeps_the_listed_leaves(some.layout, ids);
        if before.panes.len() == 0 {
            assert(ids =~= seq![id]);
            assert(ids.contains(id)) by {
                assert(ids[0] == id);
            }
            assert(some.layout.prune(ids) == Some(some.layout));
            assert(after.layout.leaves() =~= seq![id]);
            let keep = |pane: Seq<char>| pane_ids(before.panes).contains(pane);
            let left = before.layout.leaves().filter(keep);
            if left.len() > 0 {
                broadcast use vstd::seq_lib::group_filter_ensures;

                assert(keep(left[0]));
            }
        }
    } else {
        lemma_workspaces_kept(list, count - 1, ordinal, nanos, w);
    }
}

/// Whatever was left, what is there is kept: the workspaces with their surfaces
/// and panes, the notifications, and each of the active workspace, pane and
/// surface that is there. Where the active workspace is not there, the first one
/// takes its place.
pub proof fn law_present_ids_are_kept(left: StateView, nanos: u64)
    requires
        left.workspaces.len() > 0,
    ensures
        ({
            let after = resumed(Some(left), nanos).state;
            &&& after.workspaces.len() == left.workspaces.len()
            &&& forall|w: int|
                0 <= w < left.workspaces.len() ==> is_kept(
                    #[trigger] left.workspaces[w],
                    after.workspaces[w],
                )
            &&& after.notifications == left.notifications
            &&& left.active_workspace_id matches Some(id) ==> has_workspace(left, id)
                ==> after.active_workspace_id == Some(id)
            &&& left.active_pane_id matches Some(id) ==> has_pane(left, id)
                ==> after.active_pane_id == Some(id)
            &&& left.active_surface_id matches Some(id) ==> has_surface(left, id)
                ==> after.active_surface_id == Some(id)
            &&& !(left.active_workspace_id matches Some(id) && has_workspace(left, id))
                ==> after.active_workspace_id == Some(left.workspaces[0].id)
        }),
{
    let app = bare_shell(nanos).holding(left);
    let n = left.workspaces.len() as int;
    let list = workspaces_repaired(left.workspaces, n, app.next_ordinal, nanos).0;
    lemma_repaired_len(left.workspaces, n, app.next_ordinal, nanos);
    assert forall|w: int| 0 <= w < n implies is_kept(#[trigger] left.workspaces[w], list[w]) by {
        lemma_workspaces_kept(left.workspaces, n, app.next_ordinal, nanos, w);
    }
    assert(is_kept(left.workspaces[0], list[0]));
    let s0 = StateView { workspaces: list, ..left };
    let s1 = active_workspace_repaired(s0);
    let s2 = active_pane_repaired(s1);
    let ids = workspace_ids(list);
    if let Some(id) = left.active_workspace_id {
        lemma_first_from(ids, id, 0);
        if has_workspace(left, id) {
            let w = choose|w: int| 0 <= w < n && (#[trigger] left.workspaces[w]).id == id;
            assert(is_kept(left.workspaces[w], list[w]));
            assert(ids[w] == id);
        } else if let Some(k) = first_at(ids, id) {
            assert(is_kept(left.workspaces[k], list[k]));
            assert(ids[k] == list[k].id);
            assert(left.workspaces[k].id == id);
        }
    }
    if let Some(id) = left.active_pane_id {
        if has_pane(left, id) {
            let (w, i) = choose|w: int, i: int|
                0 <= w < n && 0 <= i < left.workspaces[w].panes.len() && (
                #[trigger] left.workspaces[w].panes[i]).id == id;
            assert(is_kept(left.workspaces[w], list[w]));
            assert(s1.workspaces[w].panes[i].id == id);
            lemma_pane_exists(s1, w, i);
        }
    }
    if let Some(id) = left.active_surface_id {
        if has_surface(left, id) {
            let (w, i) = choose|w: int, i: int|
                0 <= w < n && 0 <= i < left.workspaces[w].surfaces.len() && (
                #[trigger] left.workspaces[w].surfaces[i]).id == id;
            assert(is_kept(left.workspaces[w], list[w]));
            assert(s2.workspaces[w].surfaces[i].id == id);
            lemma_surface_by_id(s2, w, i);
        }
    }
}

/// A session that starts from nothing has one workspace with one pane and one
/// terminal, which has the focus, and no notifications.
pub proof fn law_a_new_session_has_one_terminal(nanos: u64)
    ensures
        ({
            let s = started(nanos).state;
            let w = s.workspaces[0];
            &&& s.workspaces.len() == 1
            &&& w.title == "Default"@
            &&& w.panes.len() == 1
            &&& w.surfaces.len() == 1
            &&& w.layout.leaves() == seq![w.panes[0].id]
            &&& w.panes[0].workspace_id == w.id
            &&& w.panes[0].surface_ids == seq![w.surfaces[0].id]
            &&& w.panes[0].active_surface_id == Some(w.surfaces[0].id)
            &&& w.surfaces[0].kind == SurfaceKind::Terminal
            &&& w.surfaces[0].title == "Terminal"@
            &&& w.surfaces[0].workspace_id == w.id
            &&& w.surfaces[0].pane_id == w.panes[0].id
            &&& w.surfaces[0].initial_command is None
            &&& w.surfaces[0].working_directory is None
            &&& s.active_workspace_id == Some(w.id)
            &&& s.active_pane_id == Some(w.panes[0].id)
            &&& s.active_surface_id == Some(w.surfaces[0].id)
            &&& s.notifications.len() == 0
        }),
{
}

/// What had the focus and is not there gives way: the first workspace, the first
/// pane of the current workspace, and the surface on top of the active pane or,
/// where it has none, the first of the current workspace.
pub proof fn law_what_is_gone_gives_way(left: StateView, nanos: u64)
    requires
        left.workspaces.len() > 0,
    ensures
        ({
            let after = resumed(Some(left), nanos).state;
            let current = after.workspaces[current_index(after)->0];
            &&& left.active_workspace_id is None ==> after.active_workspace_id == Some(
                after.workspaces[0].id,
            )
            &&& left.active_pane_id is None ==> current.panes.len() > 0 && after.active_pane_id
                == Some(current.panes[0].id)
            &&& left.active_surface_id is None ==> (after.active_pane_id matches Some(id) ==> (
            pane_at(after, id) matches Some((w, p)) ==> {
                let top = after.workspaces[w].panes[p].active_surface_id;
                &&& top is Some ==> after.active_surface_id == top
                &&& top is None && current.surfaces.len() > 0 ==> after.active_surface_id == Some(
                    current.surfaces[0].id,
                )
            }))
        }),
{
    let app = bare_shell(nanos).holding(left);
    let (workspaces, ordinal) = workspaces_repaired(
        left.workspaces,
        left.workspaces.len() as int,
        app.next_ordinal,
        nanos,
    );
    let first = active_workspace_repaired(StateView { workspaces, ..left });
    let second = active_pane_repaired(first);
    let third = active_surface_repaired(second);
    let after = resumed(Some(left), nanos).state;
    lemma_all_have_panes(left.workspaces, left.workspaces.len() as int, app.next_ordinal, nanos);
    crate::locate::lemma_current_index(first);
    assert(current_index(after) == current_index(first));
    let k = current_index(first)->0;
    assert(workspaces[k].panes.len() > 0);
}

/// Every workspace that was repaired has a pane.
proof fn lemma_all_have_panes(list: Seq<WorkspaceView>, count: int, ordinal: u64, nanos: u64)
    requires
        0 <= count <= list.len(),
    ensures
        workspaces_repaired(list, count, ordinal, nanos).0.len() == count,
        forall|i: int|
            0 <= i < count ==> (#[trigger] workspaces_repaired(list, count, ordinal, nanos).0[i]).panes.len()
                > 0,
    decreases count,
{
    if count > 0 {
        lemma_all_have_panes(list, count - 1, ordinal, nanos);
    }
}

} // verus!
