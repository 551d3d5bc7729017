//! What the window shows: the list of workspaces, the panes of the current one,
//! and the notifications.

use crate::app_state::AppState;
use crate::json::optional_chars;
use crate::layout::{
    direction_text, split_direction_name, LayoutView, PaneNode, SplitDirection, RATIO_HALF,
};
use crate::lists::{first_at, group_views, lemma_first_from, views};
use crate::locate::{current_index, current_workspace_index};
use crate::model::{
    is_id, kind_text, pane_ids, pane_position, same_id, surface_ids, surface_kind_name, surface_position,
    workspace_ids, NotificationRecord, NotificationView, PaneRecord, PaneView, StateView, SurfaceKind,
    SurfaceRecord, SurfaceView, WorkspaceRecord, WorkspaceView,
};
use crate::page::copy_optional;
use crate::text::owned;
use vstd::prelude::*;

verus! {

/// A workspace in the list.
pub struct WorkspaceSummary {
    pub id: String,
    pub title: String,
    pub pane_count: usize,
    pub surface_count: usize,
    pub selected: bool,
}

/// A workspace in the list.
pub struct WorkspaceSummaryView {
    pub id: Seq<char>,
    pub title: Seq<char>,
    pub pane_count: int,
    pub surface_count: int,
    pub selected: bool,
}

impl View for WorkspaceSummary {
    type V = WorkspaceSummaryView;

    open spec fn view(&self) -> WorkspaceSummaryView {
        WorkspaceSummaryView {
            id: self.id@,
            title: self.title@,
            pane_count: self.pane_count as int,
            surface_count: self.surface_count as int,
            selected: self.selected,
        }
    }
}

/// A surface in a pane.
pub struct SurfaceDetail {
    pub id: String,
    pub title: String,
    pub kind: String,
    pub url: Option<String>,
    pub initial_command: Option<String>,
    pub working_directory: Option<String>,
    pub focused: bool,
}

/// A surface in a pane.
pub struct SurfaceDetailView {
    pub id: Seq<char>,
    pub title: Seq<char>,
    pub kind: Seq<char>,
    pub url: Option<Seq<char>>,
    pub initial_command: Option<Seq<char>>,
    pub working_directory: Option<Seq<char>>,
    pub focused: bool,
}

impl View for SurfaceDetail {
    type V = SurfaceDetailView;

    open spec fn view(&self) -> SurfaceDetailView {
        SurfaceDetailView {
            id: self.id@,
            title: self.title@,
            kind: self.kind@,
            url: optional_chars(self.url),
            initial_command: optional_chars(self.initial_command),
            working_directory: optional_chars(self.working_directory),
            focused: self.focused,
        }
    }
}

/// A pane and its surfaces.
pub struct PaneDetail {
    pub id: String,
    pub selected_surface_id: Option<String>,
    pub surfaces: Vec<SurfaceDetail>,
}

/// A pane and its surfaces.
#[verifier::ext_equal]
pub struct PaneDetailView {
    pub id: Seq<char>,
    pub selected_surface_id: Option<Seq<char>>,
    pub surfaces: Seq<SurfaceDetailView>,
}

impl View for PaneDetail {
    type V = PaneDetailView;

    open spec fn view(&self) -> PaneDetailView {
        PaneDetailView {
            id: self.id@,
            selected_surface_id: optional_chars(self.selected_surface_id),
            surfaces: views(self.surfaces@),
        }
    }
}

/// How the panes share the area. The ratio is that of the layout, as the bits
/// of a double.
pub enum PaneLayoutDetail {
    Leaf(PaneDetail),
    Split {
        direction: String,
        ratio: u64,
        first: Box<PaneLayoutDetail>,
        second: Box<PaneLayoutDetail>,
    },
}

/// How the panes share the area.
pub enum PaneLayoutView {
    Leaf(PaneDetailView),
    Split {
        direction: Seq<char>,
        ratio: u64,
        first: Box<PaneLayoutView>,
        second: Box<PaneLayoutView>,
    },
}

impl PaneLayoutDetail {
    /// How the panes share the area.
    pub open spec fn view(&self) -> PaneLayoutView
        decreases self,
    {
        match *self {
            PaneLayoutDetail::Leaf(pane) => PaneLayoutView::Leaf(pane@),
            PaneLayoutDetail::Split { direction, ratio, first, second } => PaneLayoutView::Split {
                direction: direction@,
                ratio,
                first: Box::new(first.view()),
                second: Box::new(second.view()),
            },
        }
    }
}

/// The current workspace.
pub struct WorkspaceDetail {
    pub id: String,
    pub title: String,
    pub layout: PaneLayoutDetail,
}

/// The current workspace.
pub struct WorkspaceDetailView {
    pub id: Seq<char>,
    pub title: Seq<char>,
    pub layout: PaneLayoutView,
}

impl View for WorkspaceDetail {
    type V = WorkspaceDetailView;

    open spec fn view(&self) -> WorkspaceDetailView {
        WorkspaceDetailView { id: self.id@, title: self.title@, layout: self.layout@ }
    }
}

/// A notification in the list.
pub struct NotificationSummary {
    pub id: String,
    pub title: String,
    pub body: String,
    pub workspace_id: Option<String>,
    pub surface_id: Option<String>,
}

/// A notification in the list.
pub struct NotificationSummaryView {
    pub id: Seq<char>,
    pub title: Seq<char>,
    pub body: Seq<char>,
    pub workspace_id: Option<Seq<char>>,
    pub surface_id: Option<Seq<char>>,
}

impl View for NotificationSummary {
    type V = NotificationSummaryView;

    open spec fn view(&self) -> NotificationSummaryView {
        NotificationSummaryView {
            id: self.id@,
            title: self.title@,
            body: self.body@,
            workspace_id: optional_chars(self.workspace_id),
            surface_id: optional_chars(self.surface_id),
        }
    }
}

// ---------------------------------------------------------------------------
// Lists

/// How a workspace stands in the list.
pub open spec fn workspace_shown(s: StateView, w: WorkspaceView) -> WorkspaceSummaryView {
    WorkspaceSummaryView {
        id: w.id,
        title: w.title,
        pane_count: w.panes.len() as int,
        surface_count: w.surfaces.len() as int,
        selected: is_id(s.active_workspace_id, w.id),
    }
}

/// How a notification stands in the list.
pub open spec fn notification_shown(n: NotificationView) -> NotificationSummaryView {
    NotificationSummaryView {
        id: n.id,
        title: n.title,
        body: n.body,
        workspace_id: n.workspace_id,
        surface_id: n.surface_id,
    }
}

/// How a notification stands in the list.
fn notification_summary(n: &NotificationRecord) -> (r: NotificationSummary)
    ensures
        r@ == notification_shown(n@),
{
    NotificationSummary {
        id: n.id.clone(),
        title: n.title.clone(),
        body: n.body.clone(),
        workspace_id: copy_optional(&n.workspace_id),
        surface_id: copy_optional(&n.surface_id),
    }
}

impl AppState {
    /// The revision of the state: another one after every change.
    pub fn revision(&self) -> (r: u64)
        ensures
            r == self@.state.revision,
    {
        self.state.revision
    }

    /// The workspaces in the list.
    pub fn workspace_summaries(&self) -> (r: Vec<WorkspaceSummary>)
        ensures
            views(r@) == self@.state.workspaces.map_values(
                |w: WorkspaceView| workspace_shown(self@.state, w),
            ),
    {
        let mut out: Vec<WorkspaceSummary> = Vec::new();
        let mut i: usize = 0;
        while i < self.state.workspaces.len()
            invariant
                i <= self.state.workspaces@.len(),
                out@.len() == i,
                forall|j: int|
                    0 <= j < i ==> (#[trigger] out@[j])@ == workspace_shown(
                        self@.state,
                        self@.state.workspaces[j],
                    ),
            decreases self.state.workspaces@.len() - i,
        {
            let w = &self.state.workspaces[i];
            out.push(
                WorkspaceSummary {
                    id: w.id.clone(),
                    title: w.title.clone(),
                    pane_count: w.panes.len(),
                    surface_count: w.surfaces.len(),
                    selected: same_id(&self.state.active_workspace_id, w.id.as_str()),
                },
            );
            i += 1;
        }
        assert(views(out@) =~= self@.state.workspaces.map_values(
            |w: WorkspaceView| workspace_shown(self@.state, w),
        ));
        out
    }

    /// How many notifications there are.
    pub fn notification_count(&self) -> (r: usize)
        ensures
            r == self@.state.notifications.len(),
    {
        self.state.notifications.len()
    }

    /// The notifications in the list.
    pub fn notification_summaries(&self) -> (r: Vec<NotificationSummary>)
        ensures
            views(r@) == self@.state.notifications.map_values(
                |n: NotificationView| notification_shown(n),
            ),
    {
        let mut out: Vec<NotificationSummary> = Vec::new();
        let mut i: usize = 0;
        while i < self.state.notifications.len()
            invariant
                i <= self.state.notifications@.len(),
                out@.len() == i,
                forall|j: int|
                    0 <= j < i ==> (#[trigger] out@[j])@ == notification_shown(
                        self@.state.notifications[j],
                    ),
            decreases self.state.notifications@.len() - i,
        {
            out.push(notification_summary(&self.state.notifications[i]));
            i += 1;
        }
        assert(views(out@) =~= self@.state.notifications.map_values(
            |n: NotificationView| notification_shown(n),
        ));
        out
    }

    /// The latest notification.
    pub fn latest_notification(&self) -> (r: Option<NotificationSummary>)
        ensures
            match r {
                Some(n) => self@.state.notifications.len() > 0 && n@ == notification_shown(
                    self@.state.notifications.last(),
                ),
                None => self@.state.notifications.len() == 0,
            },
    {
        let count: usize = self.state.notifications.len();
        if count == 0 {
            None
        } else {
            Some(notification_summary(&self.state.notifications[count - 1]))
        }
    }
}

// ---------------------------------------------------------------------------
// The current workspace

/// How a surface is shown.
pub open spec fn surface_shown(s: StateView, surface: SurfaceView) -> SurfaceDetailView {
    SurfaceDetailView {
        id: surface.id,
        title: surface.title,
        kind: kind_text(surface.kind),
        url: surface.url,
        initial_command: surface.initial_command,
        working_directory: surface.working_directory,
        focused: is_id(s.active_surface_id, surface.id),
    }
}

/// How the surfaces of a pane from `i` on are shown; one that is gone is left
/// out.
pub open spec fn surfaces_shown(
    s: StateView,
    w: WorkspaceView,
    ids: Seq<Seq<char>>,
    i: int,
) -> Seq<SurfaceDetailView>
    decreases ids.len() - i,
{
    if i < 0 || i >= ids.len() {
        Seq::empty()
    } else {
        match first_at(surface_ids(w.surfaces), ids[i]) {
            Some(k) => seq![surface_shown(s, w.surfaces[k])] + surfaces_shown(s, w, ids, i + 1),
            None => surfaces_shown(s, w, ids, i + 1),
        }
    }
}

/// How a pane is shown.
pub open spec fn pane_shown(s: StateView, w: WorkspaceView, p: PaneView) -> PaneDetailView {
    PaneDetailView {
        id: p.id,
        selected_surface_id: p.active_surface_id,
        surfaces: surfaces_shown(s, w, p.surface_ids, 0),
    }
}

/// How a layout is shown; not at all where one of its panes is gone.
pub open spec fn layout_shown(s: StateView, w: WorkspaceView, l: LayoutView) -> Option<PaneLayoutView>
    decreases l,
{
    match l {
        LayoutView::Leaf { pane } => match first_at(pane_ids(w.panes), pane) {
            Some(i) => Some(PaneLayoutView::Leaf(pane_shown(s, w, w.panes[i]))),
            None => None,
        },
        LayoutView::Split { direction, ratio, first, second } => match (
            layout_shown(s, w, *first),
            layout_shown(s, w, *second),
        ) {
            (Some(a), Some(b)) => Some(
                PaneLayoutView::Split {
                    direction: direction_text(direction),
                    ratio,
                    first: Box::new(a),
                    second: Box::new(b),
                },
            ),
            _ => None,
        },
    }
}

/// The first `count` panes side by side; an empty one where there are none.
pub open spec fn panes_side_by_side(s: StateView, w: WorkspaceView, count: int) -> PaneLayoutView
    decreases count,
{
    if count <= 0 {
        PaneLayoutView::Leaf(
            PaneDetailView {
                id: Seq::empty(),
                selected_surface_id: None,
                surfaces: Seq::empty(),
            },
        )
    } else if count == 1 {
        PaneLayoutView::Leaf(pane_shown(s, w, w.panes[0]))
    } else {
        PaneLayoutView::Split {
            direction: "horizontal"@,
            ratio: RATIO_HALF,
            first: Box::new(panes_side_by_side(s, w, count - 1)),
            second: Box::new(PaneLayoutView::Leaf(pane_shown(s, w, w.panes[count - 1]))),
        }
    }
}

/// How a workspace is shown: by its layout, or with its panes side by side
/// where the layout does not fit them.
pub open spec fn detail_shown(s: StateView, w: WorkspaceView) -> WorkspaceDetailView {
    WorkspaceDetailView {
        id: w.id,
        title: w.title,
        layout: match layout_shown(s, w, w.layout) {
            Some(layout) => layout,
            None => panes_side_by_side(s, w, w.panes.len() as int),
        },
    }
}

/// What a layout that may be absent is.
pub open spec fn optional_layout_detail(l: Option<PaneLayoutDetail>) -> Option<PaneLayoutView> {
    match l {
        Some(l) => Some(l@),
        None => None,
    }
}

impl AppState {
    /// How a surface is shown.
    fn surface_detail(&self, s: &SurfaceRecord) -> (r: SurfaceDetail)
        ensures
            r@ == surface_shown(self@.state, s@),
    {
        SurfaceDetail {
            id: s.id.clone(),
            title: s.title.clone(),
            kind: owned(surface_kind_name(s.kind)),
            url: copy_optional(&s.url),
            initial_command: copy_optional(&s.initial_command),
            working_directory: copy_optional(&s.working_directory),
            focused: same_id(&self.state.active_surface_id, s.id.as_str()),
        }
    }

    /// How a pane is shown.
    fn pane_detail(&self, w: &WorkspaceRecord, p: &PaneRecord) -> (r: PaneDetail)
        ensures
            r@ == pane_shown(self@.state, w@, p@),
    {
        broadcast use group_views;

        let mut surfaces: Vec<SurfaceDetail> = Vec::new();
        let ghost ids = p@.surface_ids;
        let ghost all = surfaces_shown(self@.state, w@, ids, 0);
        let mut i: usize = 0;
        while i < p.surface_ids.len()
            invariant
                i <= p.surface_ids@.len(),
                ids == p@.surface_ids,
                all == surfaces_shown(self@.state, w@, ids, 0),
                views(surfaces@) + surfaces_shown(self@.state, w@, ids, i as int) =~= all,
            decreases p.surface_ids@.len() - i,
        {
            if let Some(k) = surface_position(&w.surfaces, p.surface_ids[i].as_str()) {
                surfaces.push(self.surface_detail(&w.surfaces[k]));
            }
            i += 1;
        }
        assert(views(surfaces@) =~= all);
        PaneDetail {
            id: p.id.clone(),
            selected_surface_id: copy_optional(&p.active_surface_id),
            surfaces,
        }
    }

    /// How a layout is shown.
    fn pane_layout_detail(&self, w: &WorkspaceRecord, node: &PaneNode) -> (r: Option<
        PaneLayoutDetail,
    >)
        ensures
            optional_layout_detail(r) == layout_shown(self@.state, w@, node@),
        decreases node,
    {
        match node {
            PaneNode::Leaf { pane_id } => match pane_position(&w.panes, pane_id.as_str()) {
                Some(i) => Some(PaneLayoutDetail::Leaf(self.pane_detail(w, &w.panes[i]))),
                None => None,
            },
            PaneNode::Split { direction, ratio, first, second } => {
                let a = self.pane_layout_detail(w, first);
                let b = self.pane_layout_detail(w, second);
                match (a, b) {
                    (Some(a), Some(b)) => Some(
                        PaneLayoutDetail::Split {
                            direction: owned(split_direction_name(*direction)),
                            ratio: *ratio,
                            first: Box::new(a),
                            second: Box::new(b),
                        },
                    ),
                    _ => None,
                }
            },
        }
    }

    /// The panes of a workspace side by side.
    fn fallback_pane_layout_detail(&self, w: &WorkspaceRecord) -> (r: PaneLayoutDetail)
        ensures
            r@ == panes_side_by_side(self@.state, w@, w@.panes.len() as int),
    {
        broadcast use group_views;

        if w.panes.is_empty() {
            return PaneLayoutDetail::Leaf(
                PaneDetail {
                    id: String::new(),
                    selected_surface_id: None,
                    surfaces: Vec::new(),
                },
            );
        }
        let mut layout = PaneLayoutDetail::Leaf(self.pane_detail(w, &w.panes[0]));
        let mut count: usize = 1;
        while count < w.panes.len()
            invariant
                1 <= count <= w.panes@.len(),
                layout@ == panes_side_by_side(self@.state, w@, count as int),
            decreases w.panes@.len() - count,
        {
            let next = PaneLayoutDetail::Leaf(self.pane_detail(w, &w.panes[count]));
            proof {
                reveal_with_fuel(PaneLayoutDetail::view, 2);
            }
            layout =
            PaneLayoutDetail::Split {
                direction: owned("horizontal"),
                ratio: RATIO_HALF,
                first: Box::new(layout),
                second: Box::new(next),
            };
            count += 1;
        }
        layout
    }

    /// How the current workspace is shown.
    pub fn active_workspace_detail(&self) -> (r: Option<WorkspaceDetail>)
        ensures
            match r {
                Some(d) => current_index(self@.state) is Some && d@ == detail_shown(
                    self@.state,
                    self@.state.workspaces[current_index(self@.state)->0],
                ),
                None => current_index(self@.state) is None,
            },
    {
        match current_workspace_index(&self.state) {
            None => None,
            Some(i) => {
                let w = &self.state.workspaces[i];
                let layout = match self.pane_layout_detail(w, &w.layout) {
                    Some(layout) => layout,
                    None => self.fallback_pane_layout_detail(w),
                };
                Some(WorkspaceDetail { id: w.id.clone(), title: w.title.clone(), layout })
            },
        }
    }
}

// ---------------------------------------------------------------------------
// Laws

/// The panes that are shown, from first to second, which is from left to right
/// and from top to bottom.
pub open spec fn panes_shown(l: PaneLayoutView) -> Seq<PaneDetailView>
    decreases l,
{
    match l {
        PaneLayoutView::Leaf(pane) => seq![pane],
        PaneLayoutView::Split { direction, ratio, first, second } => panes_shown(*first)
            + panes_shown(*second),
    }
}

/// The ids of the panes that are shown.
pub open spec fn ids_shown(l: PaneLayoutView) -> Seq<Seq<char>> {
    panes_shown(l).map_values(|p: PaneDetailView| p.id)
}

/// Whether a layout is drawn as it is: every pane where it stands, and every
/// split with its halves, in its direction and at its ratio.
pub open spec fn is_drawn_as(l: LayoutView, shown: PaneLayoutView) -> bool
    decreases l,
{
    match (l, shown) {
        (LayoutView::Leaf { pane }, PaneLayoutView::Leaf(p)) => p.id == pane,
        (
            LayoutView::Split { direction: way, ratio: share, first: a, second: b },
            PaneLayoutView::Split { direction, ratio, first, second },
        ) => {
            &&& is_drawn_as(*a, *first)
            &&& is_drawn_as(*b, *second)
            &&& ratio == share
            &&& way == SplitDirection::Horizontal ==> direction == "horizontal"@
            &&& way == SplitDirection::Vertical ==> direction == "vertical"@
        },
        _ => false,
    }
}

/// Whether a surface is shown as it is.
pub open spec fn is_shown_as(s: StateView, surface: SurfaceView, shown: SurfaceDetailView) -> bool {
    &&& shown.id == surface.id
    &&& shown.title == surface.title
    &&& shown.url == surface.url
    &&& shown.initial_command == surface.initial_command
    &&& shown.working_directory == surface.working_directory
    &&& shown.focused <==> s.active_surface_id == Some(surface.id)
    &&& surface.kind == SurfaceKind::Terminal ==> shown.kind == "terminal"@
    &&& surface.kind == SurfaceKind::Browser ==> shown.kind == "browser"@
    &&& surface.kind == SurfaceKind::Markdown ==> shown.kind == "markdown"@
}

/// Whether a pane is shown as it is: with what is on top of it, and with its
/// surfaces that are there, in its order.
pub open spec fn pane_is_shown_as(
    s: StateView,
    w: WorkspaceView,
    p: PaneView,
    shown: PaneDetailView,
) -> bool {
    &&& shown.id == p.id
    &&& shown.selected_surface_id == p.active_surface_id
    &&& shown.surfaces.map_values(|d: SurfaceDetailView| d.id) == p.surface_ids.filter(
        |id: Seq<char>| surface_ids(w.surfaces).contains(id),
    )
    &&& forall|k: int|
        0 <= k < shown.surfaces.len() ==> exists|j: int|
            0 <= j < w.surfaces.len() && is_shown_as(
                s,
                #[trigger] w.surfaces[j],
                #[trigger] shown.surfaces[k],
            )
}

/// The surfaces of a pane from a place on, shown.
proof fn lemma_surfaces_shown(s: StateView, w: WorkspaceView, ids: Seq<Seq<char>>, i: int)
    requires
        0 <= i <= ids.len(),
    ensures
        surfaces_shown(s, w, ids, i).map_values(|d: SurfaceDetailView| d.id) == ids.skip(i).filter(
            |id: Seq<char>| surface_ids(w.surfaces).contains(id),
        ),
        forall|k: int|
            0 <= k < surfaces_shown(s, w, ids, i).len() ==> exists|j: int|
                0 <= j < w.surfaces.len() && is_shown_as(
                    s,
                    #[trigger] w.surfaces[j],
                    #[trigger] surfaces_shown(s, w, ids, i)[k],
                ),
    decreases ids.len() - i,
{
    let there = |id: Seq<char>| surface_ids(w.surfaces).contains(id);
    let told = |d: SurfaceDetailView| d.id;
    reveal(Seq::filter);
    reveal_with_fuel(Seq::filter, 3);
    if i == ids.len() {
        assert(ids.skip(i) =~= Seq::empty());
        assert(surfaces_shown(s, w, ids, i).map_values(told) =~= ids.skip(i).filter(there));
    } else {
        lemma_surfaces_shown(s, w, ids, i + 1);
        lemma_first_from(surface_ids(w.surfaces), ids[i], 0);
        let rest = surfaces_shown(s, w, ids, i + 1);
        let all = surfaces_shown(s, w, ids, i);
        let one = seq![ids[i]];
        assert(ids.skip(i) =~= one + ids.skip(i + 1));
        Seq::filter_distributes_over_add(one, ids.skip(i + 1), there);
        assert(one.drop_last() =~= Seq::<Seq<char>>::empty());
        match first_at(surface_ids(w.surfaces), ids[i]) {
            Some(k) => {
                assert(surface_ids(w.surfaces)[k] == ids[i]);
                assert(there(ids[i]));
                assert(one.filter(there) =~= one);
                assert(all.map_values(told) =~= one + rest.map_values(told));
                let shown = surface_shown(s, w.surfaces[k]);
                assert(is_shown_as(s, w.surfaces[k], shown));
                assert forall|n: int| 0 <= n < all.len() implies exists|j: int|
                    0 <= j < w.surfaces.len() && is_shown_as(
                        s,
                        #[trigger] w.surfaces[j],
                        #[trigger] all[n],
                    ) by {
                    if n == 0 {
                        assert(all[0] == shown);
                    } else {
                        assert(all[n] == rest[n - 1]);
                    }
                }
            },
            None => {
                assert(!there(ids[i])) by {
                    if there(ids[i]) {
                        let j = choose|j: int|
                            0 <= j < surface_ids(w.surfaces).len() && surface_ids(w.surfaces)[j]
                                == ids[i];
                        assert(surface_ids(w.surfaces)[j] == ids[i]);
                    }
                }
                assert(one.filter(there) =~= Seq::empty());
                assert(Seq::<Seq<char>>::empty() + ids.skip(i + 1).filter(there) =~= ids.skip(
                    i + 1,
                ).filter(there));
            },
        }
    }
}

/// A pane is shown as it is.
proof fn lemma_pane_shown(s: StateView, w: WorkspaceView, p: PaneView)
    ensures
        pane_is_shown_as(s, w, p, pane_shown(s, w, p)),
{
    lemma_surfaces_shown(s, w, p.surface_ids, 0);
    assert(p.surface_ids.skip(0) =~= p.surface_ids);
}

/// Whether the panes that are shown are panes of a workspace, each as it is.
pub open spec fn shows_panes_of(s: StateView, w: WorkspaceView, shown: PaneLayoutView) -> bool {
    forall|k: int|
        0 <= k < panes_shown(shown).len() ==> exists|i: int|
            0 <= i < w.panes.len() && pane_is_shown_as(
                s,
                w,
                #[trigger] w.panes[i],
                #[trigger] panes_shown(shown)[k],
            )
}

/// A layout of panes that are there, shown.
proof fn lemma_layout_shown(s: StateView, w: WorkspaceView, l: LayoutView)
    requires
        forall|i: int|
            0 <= i < l.leaves().len() ==> pane_ids(w.panes).contains(#[trigger] l.leaves()[i]),
    ensures
        layout_shown(s, w, l) matches Some(shown) && is_drawn_as(l, shown) && ids_shown(shown)
            == l.leaves() && shows_panes_of(s, w, shown),
    decreases l,
{
    let told = |p: PaneDetailView| p.id;
    match l {
        LayoutView::Leaf { pane } => {
            assert(pane_ids(w.panes).contains(l.leaves()[0]));
            lemma_first_from(pane_ids(w.panes), pane, 0);
            let i = first_at(pane_ids(w.panes), pane)->0;
            assert(pane_ids(w.panes)[i] == pane);
            lemma_pane_shown(s, w, w.panes[i]);
            let shown = layout_shown(s, w, l)->0;
            assert(ids_shown(shown) =~= l.leaves());
            assert(panes_shown(shown)[0] == pane_shown(s, w, w.panes[i]));
        },
        LayoutView::Split { direction, ratio, first, second } => {
            assert(l.leaves() == first.leaves() + second.leaves());
            assert forall|i: int| 0 <= i < first.leaves().len() implies pane_ids(
                w.panes,
            ).contains(#[trigger] first.leaves()[i]) by {
                assert(first.leaves()[i] == l.leaves()[i]);
            }
            assert forall|i: int| 0 <= i < second.leaves().len() implies pane_ids(
                w.panes,
            ).contains(#[trigger] second.leaves()[i]) by {
                assert(second.leaves()[i] == l.leaves()[first.leaves().len() + i]);
            }
            lemma_layout_shown(s, w, *first);
            lemma_layout_shown(s, w, *second);
            let a = layout_shown(s, w, *first)->0;
            let b = layout_shown(s, w, *second)->0;
            let shown = layout_shown(s, w, l)->0;
            assert(panes_shown(shown) == panes_shown(a) + panes_shown(b));
            assert(ids_shown(shown) =~= ids_shown(a) + ids_shown(b));
            assert forall|k: int| 0 <= k < panes_shown(shown).len() implies exists|i: int|
                0 <= i < w.panes.len() && pane_is_shown_as(
                    s,
                    w,
                    #[trigger] w.panes[i],
                    #[trigger] panes_shown(shown)[k],
                ) by {
                if k < panes_shown(a).len() {
                    assert(panes_shown(shown)[k] == panes_shown(a)[k]);
                } else {
                    assert(panes_shown(shown)[k] == panes_shown(b)[k - panes_shown(a).len()]);
                }
            }
        },
    }
}

/// The window shows the panes of a workspace as its layout says: the same panes
/// in the same order, every split with its halves where they are, in its
/// direction and at its ratio, and every pane with its own surfaces.
pub proof fn law_a_workspace_is_shown_as_laid_out(s: StateView, w: WorkspaceView)
    requires
        forall|i: int|
            0 <= i < w.layout.leaves().len() ==> pane_ids(w.panes).contains(
                #[trigger] w.layout.leaves()[i],
            ),
    ensures
        detail_shown(s, w).id == w.id,
        detail_shown(s, w).title == w.title,
        is_drawn_as(w.layout, detail_shown(s, w).layout),
        ids_shown(detail_shown(s, w).layout) == w.layout.leaves(),
        shows_panes_of(s, w, detail_shown(s, w).layout),
{
    lemma_layout_shown(s, w, w.layout);
}

/// A layout with a pane that is gone is not shown.
proof fn lemma_layout_not_shown(s: StateView, w: WorkspaceView, l: LayoutView, i: int)
    requires
        0 <= i < l.leaves().len(),
        !pane_ids(w.panes).contains(l.leaves()[i]),
    ensures
        layout_shown(s, w, l) is None,
    decreases l,
{
    match l {
        LayoutView::Leaf { pane } => {
            lemma_first_from(pane_ids(w.panes), pane, 0);
            if let Some(k) = first_at(pane_ids(w.panes), pane) {
                assert(pane_ids(w.panes)[k] == l.leaves()[i]);
            }
        },
        LayoutView::Split { direction, ratio, first, second } => {
            assert(l.leaves() == first.leaves() + second.leaves());
            if i < first.leaves().len() {
                lemma_layout_not_shown(s, w, *first, i);
            } else {
                lemma_layout_not_shown(s, w, *second, i - first.leaves().len());
            }
        },
    }
}

/// The first panes side by side.
proof fn lemma_side_by_side(s: StateView, w: WorkspaceView, count: int)
    requires
        1 <= count <= w.panes.len(),
    ensures
        ids_shown(panes_side_by_side(s, w, count)) == pane_ids(w.panes).take(count),
        shows_panes_of(s, w, panes_side_by_side(s, w, count)),
    decreases count,
{
    let shown = panes_side_by_side(s, w, count);
    let last = pane_shown(s, w, w.panes[count - 1]);
    lemma_pane_shown(s, w, w.panes[count - 1]);
    if count == 1 {
        assert(ids_shown(shown) =~= pane_ids(w.panes).take(1));
        assert(panes_shown(shown)[0] == last);
    } else {
        lemma_side_by_side(s, w, count - 1);
        let before = panes_side_by_side(s, w, count - 1);
        let one = PaneLayoutView::Leaf(last);
        assert(panes_shown(one) =~= seq![last]);
        assert(panes_shown(shown) == panes_shown(before) + panes_shown(one));
        assert(ids_shown(shown) =~= ids_shown(before).push(last.id));
        assert(pane_ids(w.panes).take(count) =~= pane_ids(w.panes).take(count - 1).push(last.id));
        assert forall|k: int| 0 <= k < panes_shown(shown).len() implies exists|i: int|
            0 <= i < w.panes.len() && pane_is_shown_as(
                s,
                w,
                #[trigger] w.panes[i],
                #[trigger] panes_shown(shown)[k],
            ) by {
            if k < panes_shown(before).len() {
                assert(panes_shown(shown)[k] == panes_shown(before)[k]);
            } else {
                assert(panes_shown(shown)[k] == last);
            }
        }
    }
}

/// Where the layout of a workspace names a pane that is gone, its panes are
/// shown all the same: all of them, in their order.
pub proof fn law_a_workspace_is_shown_without_a_fitting_layout(
    s: StateView,
    w: WorkspaceView,
    i: int,
)
    requires
        w.panes.len() > 0,
        0 <= i < w.layout.leaves().len(),
        !pane_ids(w.panes).contains(w.layout.leaves()[i]),
    ensures
        ids_shown(detail_shown(s, w).layout) == pane_ids(w.panes),
        shows_panes_of(s, w, detail_shown(s, w).layout),
{
    lemma_layout_not_shown(s, w, w.layout, i);
    lemma_side_by_side(s, w, w.panes.len() as int);
    assert(pane_ids(w.panes).take(w.panes.len() as int) =~= pane_ids(w.panes));
}

/// The window shows the workspace that is active; where none of those that are
/// there is, it shows the first.
pub proof fn law_the_active_workspace_is_shown(s: StateView, k: int)
    requires
        0 <= k < s.workspaces.len(),
    ensures
        s.active_workspace_id == Some(s.workspaces[k].id) && (forall|j: int|
            0 <= j < k ==> (#[trigger] s.workspaces[j]).id != s.workspaces[k].id)
            ==> current_index(s) == Some(k),
        (forall|j: int|
            0 <= j < s.workspaces.len() ==> s.active_workspace_id != Some(
                (#[trigger] s.workspaces[j]).id,
            )) ==> current_index(s) == Some(0int),
{
    let ids = workspace_ids(s.workspaces);
    if let Some(id) = s.active_workspace_id {
        lemma_first_from(ids, id, 0);
        assert(ids[k] == s.workspaces[k].id);
        if let Some(n) = first_at(ids, id) {
            assert(ids[n] == s.workspaces[n].id);
        }
    }
}

/// The list says of each workspace what holds of it, and marks the active one.
pub proof fn law_workspaces_are_listed_as_they_are(s: StateView, w: WorkspaceView)
    ensures
        workspace_shown(s, w).id == w.id,
        workspace_shown(s, w).title == w.title,
        workspace_shown(s, w).pane_count == w.panes.len(),
        workspace_shown(s, w).surface_count == w.surfaces.len(),
        workspace_shown(s, w).selected <==> s.active_workspace_id == Some(w.id),
{
}

/// The list says of each notification what it says.
pub proof fn law_notifications_are_listed_as_they_are(n: NotificationView)
    ensures
        notification_shown(n).id == n.id,
        notification_shown(n).title == n.title,
        notification_shown(n).body == n.body,
        notification_shown(n).workspace_id == n.workspace_id,
        notification_shown(n).surface_id == n.surface_id,
{
}

} // verus!
