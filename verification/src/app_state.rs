//! The state of the running shell, and the small changes that every operation
//! is made of.

use crate::host::StepView;
use crate::ids::{uuid, uuid_text};
use crate::json::{optional_chars, JsonView};
use crate::lists::group_views;
use crate::model::{
    PaneRecord, PaneView, State, StateView, SurfaceRecord, SurfaceView, WorkspaceRecord, WorkspaceView,
};
use crate::rpc::ErrorView;
use vstd::prelude::*;

verus! {

/// The state of the running shell. `unsaved` says that the state has changed
/// since it was last written out.
pub struct AppState {
    pub state: State,
    pub next_ordinal: u64,
    pub window_id: String,
    pub unsaved: bool,
}

/// What the state of the running shell is.
#[verifier::ext_equal]
pub struct AppView {
    pub state: StateView,
    pub next_ordinal: u64,
    pub window_id: Seq<char>,
    pub unsaved: bool,
}

impl View for AppState {
    type V = AppView;

    open spec fn view(&self) -> AppView {
        AppView {
            state: self.state@,
            next_ordinal: self.next_ordinal,
            window_id: self.window_id@,
            unsaved: self.unsaved,
        }
    }
}

/// What a turn makes of the shell.
#[verifier::ext_equal]
pub struct Turn {
    pub step: StepView,
    pub app: AppView,
}

/// A turn that refuses, and changes nothing.
pub open spec fn refused(app: AppView, error: ErrorView) -> Turn {
    Turn { step: StepView::Done(Err(error)), app }
}

/// A turn that answers.
pub open spec fn answered(app: AppView, value: JsonView) -> Turn {
    Turn { step: StepView::Done(Ok(value)), app }
}

/// A turn that comes to an outcome and changes nothing.
pub open spec fn told(app: AppView, outcome: Result<JsonView, ErrorView>) -> Turn {
    Turn { step: StepView::Done(outcome), app }
}

/// A turn that asks, and changes nothing.
pub open spec fn asked(app: AppView, call: crate::host::CallView) -> Turn {
    Turn { step: StepView::Ask(call), app }
}

/// The ordinal after another one, within 64 bits.
pub open spec fn next_after(ordinal: u64) -> u64 {
    if ordinal == u64::MAX {
        0
    } else {
        (ordinal + 1) as u64
    }
}

/// The revision after another one; the highest stays.
pub open spec fn next_revision(revision: u64) -> u64 {
    if revision == u64::MAX {
        revision
    } else {
        (revision + 1) as u64
    }
}

impl StateView {
    /// The state with another workspace in the place of one.
    pub open spec fn with_workspace(self, w: int, workspace: WorkspaceView) -> StateView {
        StateView { workspaces: self.workspaces.update(w, workspace), ..self }
    }

    /// The state with another pane in the place of one.
    pub open spec fn with_pane(self, w: int, p: int, pane: PaneView) -> StateView {
        self.with_workspace(
            w,
            WorkspaceView {
                panes: self.workspaces[w].panes.update(p, pane),
                ..self.workspaces[w]
            },
        )
    }

    /// The state with another surface in the place of one.
    pub open spec fn with_surface(self, w: int, s: int, surface: SurfaceView) -> StateView {
        self.with_workspace(
            w,
            WorkspaceView {
                surfaces: self.workspaces[w].surfaces.update(s, surface),
                ..self.workspaces[w]
            },
        )
    }

    /// The state with the focus elsewhere.
    pub open spec fn focused(
        self,
        workspace: Option<Seq<char>>,
        pane: Option<Seq<char>>,
        surface: Option<Seq<char>>,
    ) -> StateView {
        StateView {
            active_workspace_id: workspace,
            active_pane_id: pane,
            active_surface_id: surface,
            ..self
        }
    }
}

impl AppView {
    /// The shell with another state.
    pub open spec fn holding(self, state: StateView) -> AppView {
        AppView { state, ..self }
    }

    /// The shell after a change: a new revision that is not written out yet.
    pub open spec fn changed(self) -> AppView {
        AppView {
            state: StateView { revision: next_revision(self.state.revision), ..self.state },
            unsaved: true,
            ..self
        }
    }

    /// The shell with its state changed to another.
    pub open spec fn changed_to(self, state: StateView) -> AppView {
        self.holding(state).changed()
    }

    /// The identifier that the shell gives next.
    pub open spec fn next_id(self, namespace: Seq<char>, nanos: u64) -> Seq<char> {
        uuid(namespace, self.next_ordinal, nanos)
    }

    /// The shell after it gave an identifier.
    pub open spec fn counted(self) -> AppView {
        AppView { next_ordinal: next_after(self.next_ordinal), ..self }
    }
}

impl AppState {
    /// Gives an identifier.
    pub fn next_uuid(&mut self, namespace: &str, nanos: u64) -> (r: String)
        ensures
            r@ == old(self)@.next_id(namespace@, nanos),
            final(self)@ == old(self)@.counted(),
            final(self).state == old(self).state,
    {
        let ordinal: u64 = self.next_ordinal;
        self.next_ordinal = if ordinal == u64::MAX {
            0
        } else {
            ordinal + 1
        };
        uuid_text(namespace, ordinal, nanos)
    }

    /// Notes that the state has changed.
    pub fn mark_state_changed(&mut self)
        ensures
            final(self)@ == old(self)@.changed(),
            final(self).state.workspaces == old(self).state.workspaces,
    {
        if self.state.revision < u64::MAX {
            self.state.revision = self.state.revision + 1;
        }
        self.unsaved = true;
    }

    /// Moves the focus.
    pub fn set_focus(
        &mut self,
        workspace: Option<String>,
        pane: Option<String>,
        surface: Option<String>,
    )
        ensures
            final(self)@ == old(self)@.holding(
                old(self)@.state.focused(
                    optional_chars(workspace),
                    optional_chars(pane),
                    optional_chars(surface),
                ),
            ),
            final(self).state.workspaces == old(self).state.workspaces,
    {
        self.state.active_workspace_id = workspace;
        self.state.active_pane_id = pane;
        self.state.active_surface_id = surface;
    }

    /// The workspace at a place.
    pub fn workspace_mut(&mut self, w: usize) -> (r: &mut WorkspaceRecord)
        requires
            w < old(self).state.workspaces@.len(),
        ensures
            *r == old(self).state.workspaces@[w as int],
            final(self)@ == old(self)@.holding(
                old(self)@.state.with_workspace(w as int, final(r)@),
            ),
            final(self).state.workspaces@ == old(self).state.workspaces@.update(w as int, *final(r)),
    {
        broadcast use group_views;

        &mut self.state.workspaces[w]
    }

    /// The pane at a place.
    pub fn pane_mut(&mut self, w: usize, p: usize) -> (r: &mut PaneRecord)
        requires
            w < old(self).state.workspaces@.len(),
            p < old(self).state.workspaces@[w as int].panes@.len(),
        ensures
            *r == old(self).state.workspaces@[w as int].panes@[p as int],
            final(self)@ == old(self)@.holding(
                old(self)@.state.with_pane(w as int, p as int, final(r)@),
            ),
            final(self).state.workspaces@.len() == old(self).state.workspaces@.len(),
    {
        broadcast use group_views;

        &mut self.state.workspaces[w].panes[p]
    }

    /// The surface at a place.
    pub fn surface_mut(&mut self, w: usize, s: usize) -> (r: &mut SurfaceRecord)
        requires
            w < old(self).state.workspaces@.len(),
            s < old(self).state.workspaces@[w as int].surfaces@.len(),
        ensures
            *r == old(self).state.workspaces@[w as int].surfaces@[s as int],
            final(self)@ == old(self)@.holding(
                old(self)@.state.with_surface(w as int, s as int, final(r)@),
            ),
            final(self).state.workspaces@.len() == old(self).state.workspaces@.len(),
    {
        broadcast use group_views;

        &mut self.state.workspaces[w].surfaces[s]
    }
}

} // verus!
