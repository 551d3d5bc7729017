//! What the window shows and decides.

use crate::i18n::{tr, wording};
use crate::json::optional_chars;
use crate::lists::{group_views, views};
use crate::model::{is_id, same_id};
use crate::shown::{
    NotificationSummary, PaneDetail, PaneDetailView, SurfaceDetail, SurfaceDetailView, WorkspaceSummary,
    WorkspaceSummaryView,
};
use crate::text::{
    chars_of, decimal, decimal_of, join2, join3, lower_char, lower_of, owned, parse_number, parsed, same,
    text_between, text_of, trim, trimmed,
};
use vstd::prelude::*;

verus! {

/// The identifier of the application.
pub const APP_ID: &'static str = "com.cmuxterm.cmux";

/// How wide the sidebar is where nobody says, in pixels.
pub const DEFAULT_SIDEBAR_WIDTH: i32 = 220;

/// How wide the sidebar is at least.
pub const MIN_SIDEBAR_WIDTH: i32 = 160;

/// How wide the sidebar is at most.
pub const MAX_SIDEBAR_WIDTH: i32 = 420;

// ---------------------------------------------------------------------------
// The application

/// A character of an identifier: letters are small, and a hyphen stands for
/// what is neither letter nor digit.
pub open spec fn id_char(c: char) -> char {
    let n = c as int;
    if 48 <= n <= 57 || 65 <= n <= 90 || 97 <= n <= 122 {
        lower_char(c)
    } else {
        '-'
    }
}

/// The identifier of the application, with a suffix where one is said.
pub open spec fn app_id(suffix: Option<Seq<char>>) -> Seq<char> {
    match suffix {
        Some(s) => if trimmed(s).len() == 0 {
            APP_ID@
        } else {
            APP_ID@ + "."@ + trimmed(s).map_values(|c: char| id_char(c))
        },
        None => APP_ID@,
    }
}

/// A character of an identifier.
fn id_char_of(c: char) -> (r: char)
    ensures
        r == id_char(c),
{
    let n: u32 = c as u32;
    if (48 <= n && n <= 57) || (65 <= n && n <= 90) || (97 <= n && n <= 122) {
        lower_of(c)
    } else {
        '-'
    }
}

/// The identifier of the application.
pub fn application_id(suffix: &Option<String>) -> (r: String)
    ensures
        r@ == app_id(optional_chars(*suffix)),
{
    let given = match suffix {
        Some(s) => trim(s.as_str()),
        None => {
            return owned(APP_ID);
        },
    };
    if given.as_str().is_empty() {
        return owned(APP_ID);
    }
    let v = chars_of(given.as_str());
    let mut out: Vec<char> = Vec::new();
    let mut i: usize = 0;
    while i < v.len()
        invariant
            i <= v@.len(),
            out@ =~= v@.take(i as int).map_values(|c: char| id_char(c)),
        decreases v@.len() - i,
    {
        out.push(id_char_of(v[i]));
        i += 1;
    }
    assert(v@.take(i as int) =~= v@);
    join3(APP_ID, ".", text_of(&out).as_str())
}

// ---------------------------------------------------------------------------
// The sidebar

/// The signed 32-bit number that a text writes in decimal, if it writes one.
pub open spec fn parsed_i32(s: Seq<char>) -> Option<int> {
    if s.len() > 0 && s[0] == '-' {
        if s.len() > 1 && s[1] == '+' {
            None
        } else {
            match parsed(s.skip(1), 2147483648) {
                Some(n) => Some(-(n as int)),
                None => None,
            }
        }
    } else {
        match parsed(s, 2147483647) {
            Some(n) => Some(n as int),
            None => None,
        }
    }
}

/// The signed 32-bit number that a text writes in decimal.
fn parse_i32(s: &str) -> (r: Option<i32>)
    ensures
        match r {
            Some(n) => parsed_i32(s@) == Some(n as int),
            None => parsed_i32(s@) is None,
        },
{
    let v = chars_of(s);
    if v.len() > 0 && v[0] == '-' {
        if v.len() > 1 && v[1] == '+' {
            return None;
        }
        let rest = text_between(&v, 1, v.len());
        assert(rest@ =~= s@.skip(1));
        match parse_number(rest.as_str()) {
            Some(n) => if n <= 2147483648 {
                Some((-(n as i64)) as i32)
            } else {
                None
            },
            None => None,
        }
    } else {
        match parse_number(s) {
            Some(n) => if n <= 2147483647 {
                Some(n as i32)
            } else {
                None
            },
            None => None,
        }
    }
}

/// A width within its bounds.
pub open spec fn clamped(width: int) -> int {
    if width < MIN_SIDEBAR_WIDTH {
        MIN_SIDEBAR_WIDTH as int
    } else if width > MAX_SIDEBAR_WIDTH {
        MAX_SIDEBAR_WIDTH as int
    } else {
        width
    }
}

/// How wide the sidebar should be: as the environment says, as the settings
/// say, or as usual.
pub open spec fn wanted_width(given: Option<Seq<char>>, setting: i32) -> int {
    let said = match given {
        Some(s) => parsed_i32(trimmed(s)),
        None => None,
    };
    match said {
        Some(width) => width,
        None => if setting > 0 {
            setting as int
        } else {
            DEFAULT_SIDEBAR_WIDTH as int
        },
    }
}

/// How wide the sidebar is.
pub fn workspace_sidebar_width(given: &Option<String>, setting: i32) -> (r: i32)
    ensures
        r == clamped(wanted_width(optional_chars(*given), setting)),
{
    let said = match given {
        Some(s) => parse_i32(trim(s.as_str()).as_str()),
        None => None,
    };
    let width: i32 = match said {
        Some(width) => width,
        None => if setting > 0 {
            setting
        } else {
            DEFAULT_SIDEBAR_WIDTH
        },
    };
    if width < MIN_SIDEBAR_WIDTH {
        MIN_SIDEBAR_WIDTH
    } else if width > MAX_SIDEBAR_WIDTH {
        MAX_SIDEBAR_WIDTH
    } else {
        width
    }
}

/// The sidebar is never narrower or wider than its bounds, whatever is said; a
/// width within them that the environment says is taken.
pub proof fn law_sidebar_width_is_bounded(given: Option<Seq<char>>, setting: i32)
    ensures
        MIN_SIDEBAR_WIDTH <= clamped(wanted_width(given, setting)) <= MAX_SIDEBAR_WIDTH,
        given is Some && parsed_i32(trimmed(given->0)) is Some && MIN_SIDEBAR_WIDTH <= parsed_i32(
            trimmed(given->0),
        )->0 <= MAX_SIDEBAR_WIDTH ==> clamped(wanted_width(given, setting)) == parsed_i32(
            trimmed(given->0),
        )->0,
{
}

// ---------------------------------------------------------------------------
// Workspaces

/// The title of a workspace that is made where others are.
pub open spec fn new_title(count: nat) -> Seq<char> {
    "Workspace "@ + decimal(count + 1)
}

/// The title of a workspace that is made where others are.
pub fn new_workspace_title(count: usize) -> (r: String)
    requires
        count < usize::MAX,
    ensures
        r@ == new_title(count as nat),
{
    join2("Workspace ", decimal_of(count as u64 + 1).as_str())
}

/// What is said of a workspace in the list.
pub open spec fn row_text(w: WorkspaceSummaryView) -> Seq<char> {
    decimal(w.pane_count as nat) + " panes, "@ + decimal(w.surface_count as nat) + " panels"@
}

/// What is said of a workspace in the list.
pub fn workspace_row_text(w: &WorkspaceSummary) -> (r: String)
    ensures
        r@ == row_text(w@),
{
    let mut s = decimal_of(w.pane_count as u64);
    s.push_str(" panes, ");
    s.push_str(decimal_of(w.surface_count as u64).as_str());
    s.push_str(" panels");
    s
}

/// The place of the first workspace, from `i` on, with an id.
pub open spec fn row_from(rows: Seq<WorkspaceSummaryView>, id: Seq<char>, i: int) -> Option<int>
    decreases rows.len() - i,
{
    if i < 0 || i >= rows.len() {
        None
    } else if rows[i].id == id {
        Some(i)
    } else {
        row_from(rows, id, i + 1)
    }
}

/// The first workspace, from `i` on, that is selected.
pub open spec fn selected_from(rows: Seq<WorkspaceSummaryView>, i: int) -> Option<Seq<char>>
    decreases rows.len() - i,
{
    if i < 0 || i >= rows.len() {
        None
    } else if rows[i].selected {
        Some(rows[i].id)
    } else {
        selected_from(rows, i + 1)
    }
}

/// The id of the first workspace, or an empty one.
pub open spec fn first_row(rows: Seq<WorkspaceSummaryView>) -> Seq<char> {
    if rows.len() == 0 {
        Seq::empty()
    } else {
        rows[0].id
    }
}

/// The workspace that the list marks after one was closed: the one it marked,
/// if it is there, or the selected one, or the first.
pub open spec fn marked_after_close(rows: Seq<WorkspaceSummaryView>, marked: Seq<char>) -> Seq<char> {
    if row_from(rows, marked, 0) is Some {
        marked
    } else {
        match selected_from(rows, 0) {
            Some(id) => id,
            None => first_row(rows),
        }
    }
}

/// The workspace that the list marks when it is drawn: the one it marked, or
/// the first where it marked none.
pub open spec fn marked_when_drawn(rows: Seq<WorkspaceSummaryView>, marked: Seq<char>) -> Seq<char> {
    if marked.len() == 0 {
        first_row(rows)
    } else {
        marked
    }
}

/// The id of the first workspace.
fn first_row_id(rows: &Vec<WorkspaceSummary>) -> (r: String)
    ensures
        r@ == first_row(views(rows@)),
{
    broadcast use group_views;

    if rows.len() == 0 {
        String::new()
    } else {
        rows[0].id.clone()
    }
}

/// The workspace that the list marks after one was closed.
pub fn selection_after_close(rows: &Vec<WorkspaceSummary>, marked: &str) -> (r: String)
    ensures
        r@ == marked_after_close(views(rows@), marked@),
{
    let ghost all = views(rows@);
    let mut i: usize = 0;
    while i < rows.len()
        invariant
            i <= rows@.len(),
            all == views(rows@),
            row_from(all, marked@, i as int) == row_from(all, marked@, 0),
        decreases rows@.len() - i,
    {
        assert(all[i as int] == rows@[i as int]@);
        if same(rows[i].id.as_str(), marked) {
            return owned(marked);
        }
        i += 1;
    }
    let mut k: usize = 0;
    while k < rows.len()
        invariant
            k <= rows@.len(),
            all == views(rows@),
            row_from(all, marked@, 0) is None,
            selected_from(all, k as int) == selected_from(all, 0),
        decreases rows@.len() - k,
    {
        assert(all[k as int] == rows@[k as int]@);
        if rows[k].selected {
            return rows[k].id.clone();
        }
        k += 1;
    }
    first_row_id(rows)
}

/// The workspace that the list marks when it is drawn.
pub fn selection_when_drawn(rows: &Vec<WorkspaceSummary>, marked: &str) -> (r: String)
    ensures
        r@ == marked_when_drawn(views(rows@), marked@),
{
    if marked.is_empty() {
        first_row_id(rows)
    } else {
        owned(marked)
    }
}

/// Whether a workspace stands out in the list.
pub fn is_row_marked(row: &WorkspaceSummary, marked: &str) -> (r: bool)
    ensures
        r == (row@.selected || row@.id == marked@),
{
    row.selected || same(row.id.as_str(), marked)
}

/// Whether a workspace can be closed from the list: one has to stay.
pub fn can_close_workspaces(rows: &Vec<WorkspaceSummary>) -> (r: bool)
    ensures
        r == (views(rows@).len() > 1),
{
    rows.len() > 1
}

// ---------------------------------------------------------------------------
// Panes

/// The place of the surface with an id, from `i` on.
pub open spec fn tab_from(tabs: Seq<SurfaceDetailView>, id: Seq<char>, i: int) -> Option<int>
    decreases tabs.len() - i,
{
    if i < 0 || i >= tabs.len() {
        None
    } else if tabs[i].id == id {
        Some(i)
    } else {
        tab_from(tabs, id, i + 1)
    }
}

/// The place of the surface that a pane shows: the selected one, if it is
/// there, or the first.
pub open spec fn shown_tab(pane: PaneDetailView) -> Option<int> {
    let selected = match pane.selected_surface_id {
        Some(id) => tab_from(pane.surfaces, id, 0),
        None => None,
    };
    match selected {
        Some(i) => Some(i),
        None => if pane.surfaces.len() > 0 {
            Some(0)
        } else {
            None
        },
    }
}

/// The place of the surface that a pane shows.
pub fn active_surface(pane: &PaneDetail) -> (r: Option<usize>)
    ensures
        match r {
            Some(i) => shown_tab(pane@) == Some(i as int) && i < pane.surfaces@.len(),
            None => shown_tab(pane@) is None,
        },
{
    broadcast use group_views;

    if let Some(id) = &pane.selected_surface_id {
        let ghost all = pane@.surfaces;
        let mut i: usize = 0;
        while i < pane.surfaces.len()
            invariant
                i <= pane.surfaces@.len(),
                all == pane@.surfaces,
                all == views(pane.surfaces@),
                optional_chars(pane.selected_surface_id) == Some(id@),
                tab_from(all, id@, i as int) == tab_from(all, id@, 0),
            decreases pane.surfaces@.len() - i,
        {
            assert(all[i as int] == pane.surfaces@[i as int]@);
            if same(pane.surfaces[i].id.as_str(), id.as_str()) {
                return Some(i);
            }
            i += 1;
        }
    }
    if pane.surfaces.len() > 0 {
        Some(0)
    } else {
        None
    }
}

/// Whether the tab of a surface stands out.
pub fn is_tab_marked(pane: &PaneDetail, surface: &SurfaceDetail) -> (r: bool)
    ensures
        r == (surface@.focused || is_id(pane@.selected_surface_id, surface@.id)),
{
    surface.focused || same_id(&pane.selected_surface_id, surface.id.as_str())
}

// ---------------------------------------------------------------------------
// Notifications

/// What is said of the number of notifications.
pub open spec fn notifications_text(count: nat) -> Seq<char> {
    if count == 0 {
        wording("sidebar.notifications.none"@)
    } else if count == 1 {
        wording("sidebar.notifications.one"@)
    } else {
        decimal(count) + " notifications"@
    }
}

/// What is said of the number of notifications.
pub fn notification_status(count: usize) -> (r: String)
    ensures
        r@ == notifications_text(count as nat),
{
    if count == 0 {
        owned(tr("sidebar.notifications.none"))
    } else if count == 1 {
        owned(tr("sidebar.notifications.one"))
    } else {
        join2(decimal_of(count as u64).as_str(), " notifications")
    }
}

/// The places of the notifications that are listed: the newest first, and at
/// most five.
pub open spec fn listed(count: nat) -> Seq<int> {
    Seq::new(
        if count < 5 {
            count
        } else {
            5
        },
        |i: int| count - 1 - i,
    )
}

/// The places of the notifications that are listed.
pub fn listed_notifications(count: usize) -> (r: Vec<usize>)
    ensures
        r@.map_values(|i: usize| i as int) == listed(count as nat),
{
    let mut out: Vec<usize> = Vec::new();
    let mut left: usize = count;
    while left > 0 && out.len() < 5
        invariant
            left + out@.len() == count,
            out@.len() <= 5,
            forall|i: int| 0 <= i < out@.len() ==> #[trigger] out@[i] == count - 1 - i,
        decreases left,
    {
        left -= 1;
        out.push(left);
    }
    assert(out@.map_values(|i: usize| i as int) =~= listed(count as nat));
    out
}

/// The notification that the desktop is told of: the newest, unless it was told
/// of it last.
pub open spec fn news(latest: Option<Seq<char>>, last_seen: Seq<char>) -> Option<Seq<char>> {
    match latest {
        Some(id) => if id == last_seen {
            None
        } else {
            Some(id)
        },
        None => None,
    }
}

/// Whether the desktop is told of the newest notification.
pub fn is_news(latest: &NotificationSummary, last_seen: &str) -> (r: bool)
    ensures
        r == (news(Some(latest@.id), last_seen@) is Some),
{
    !same(latest.id.as_str(), last_seen)
}

// ---------------------------------------------------------------------------
// Surfaces

/// How a surface is drawn.
#[derive(Clone, Copy, PartialEq, Eq, Structural)]
pub enum Drawing {
    Browser,
    Markdown,
    Terminal,
}

/// How a surface of a kind is drawn: as a terminal where it is nothing else.
pub open spec fn drawing(kind: Seq<char>) -> Drawing {
    if kind == "browser"@ {
        Drawing::Browser
    } else if kind == "markdown"@ {
        Drawing::Markdown
    } else {
        Drawing::Terminal
    }
}

/// How a surface of a kind is drawn.
pub fn surface_drawing(kind: &str) -> (r: Drawing)
    ensures
        r == drawing(kind@),
{
    if same(kind, "browser") {
        Drawing::Browser
    } else if same(kind, "markdown") {
        Drawing::Markdown
    } else {
        Drawing::Terminal
    }
}

} // verus!
