//! What the window marks and says, and where the shell looks for its files.

use crate::model::{kind_text, SurfaceKind};
use crate::naming::law_written_numbers_are_read_back;
use crate::paths::{
    download_dir, name_bytes, path_join, session_path, settings_path, socket_note_path, socket_path,
};
use crate::settings::{backend_text, in_force, Settings, TerminalBackendPreference};
use crate::shown::{PaneDetailView, WorkspaceSummaryView};
use crate::terminal::{kept_bytes, login_name, wanted_backend, TerminalBackend};
use crate::text::{decimal, trimmed};
use crate::window::{
    app_id, clamped, drawing, first_row, id_char, listed, marked_after_close, marked_when_drawn,
    new_title, news, notifications_text, parsed_i32, row_from, row_text, selected_from, shown_tab,
    tab_from, wanted_width, Drawing, APP_ID,
};
use vstd::prelude::*;
use vstd::utf8::*;

verus! {

// ---------------------------------------------------------------------------
// The list of workspaces

/// Whether a list has a row of a workspace.
pub open spec fn has_row(rows: Seq<WorkspaceSummaryView>, id: Seq<char>) -> bool {
    exists|i: int| 0 <= i < rows.len() && (#[trigger] rows[i]).id == id
}

/// A row is found exactly where the list has it.
proof fn lemma_row(rows: Seq<WorkspaceSummaryView>, id: Seq<char>, from: int)
    requires
        0 <= from,
    ensures
        row_from(rows, id, from) is Some <==> exists|i: int|
            from <= i < rows.len() && (#[trigger] rows[i]).id == id,
    decreases rows.len() - from,
{
    if from < rows.len() {
        lemma_row(rows, id, from + 1);
    }
}

/// The first selected row is found.
proof fn lemma_selected(rows: Seq<WorkspaceSummaryView>, i: int, from: int)
    requires
        0 <= from <= i < rows.len(),
        rows[i].selected,
        forall|j: int| 0 <= j < i ==> !(#[trigger] rows[j]).selected,
    ensures
        selected_from(rows, from) == Some(rows[i].id),
    decreases i - from,
{
    if from < i {
        assert(!rows[from].selected);
        lemma_selected(rows, i, from + 1);
    }
}

/// No row is selected.
proof fn lemma_none_selected(rows: Seq<WorkspaceSummaryView>, from: int)
    requires
        0 <= from,
        forall|j: int| 0 <= j < rows.len() ==> !(#[trigger] rows[j]).selected,
    ensures
        selected_from(rows, from) is None,
    decreases rows.len() - from,
{
    if from < rows.len() {
        assert(!rows[from].selected);
        lemma_none_selected(rows, from + 1);
    }
}

/// A mark stays on its workspace while that is there; after it is gone it goes to
/// the selected one, or to the first where none is selected.
pub proof fn law_a_mark_goes_where_the_selection_is(
    rows: Seq<WorkspaceSummaryView>,
    marked: Seq<char>,
    i: int,
)
    requires
        0 <= i < rows.len(),
    ensures
        has_row(rows, marked) ==> marked_after_close(rows, marked) == marked,
        !has_row(rows, marked) && rows[i].selected && (forall|j: int|
            0 <= j < i ==> !(#[trigger] rows[j]).selected) ==> marked_after_close(rows, marked)
            == rows[i].id,
        !has_row(rows, marked) && i == 0 && (forall|j: int|
            0 <= j < rows.len() ==> !(#[trigger] rows[j]).selected) ==> marked_after_close(
            rows,
            marked,
        ) == rows[i].id,
        has_row(rows, marked_after_close(rows, marked)),
        marked.len() > 0 ==> marked_when_drawn(rows, marked) == marked,
        marked.len() == 0 && i == 0 ==> marked_when_drawn(rows, marked) == rows[i].id,
{
    lemma_row(rows, marked, 0);
    if forall|j: int| 0 <= j < rows.len() ==> !(#[trigger] rows[j]).selected {
        lemma_none_selected(rows, 0);
        assert(rows[0].id == first_row(rows));
    } else {
        let k = first_selected(rows, 0);
        lemma_selected(rows, k, 0);
        if rows[i].selected && (forall|j: int| 0 <= j < i ==> !(#[trigger] rows[j]).selected) {
            lemma_selected(rows, i, 0);
        }
    }
}

/// The place of the first selected row.
proof fn first_selected(rows: Seq<WorkspaceSummaryView>, from: int) -> (k: int)
    requires
        0 <= from,
        exists|j: int| 0 <= j < rows.len() && (#[trigger] rows[j]).selected,
        forall|j: int| 0 <= j < from ==> !(#[trigger] rows[j]).selected,
    ensures
        0 <= k < rows.len(),
        rows[k].selected,
        forall|j: int| 0 <= j < k ==> !(#[trigger] rows[j]).selected,
    decreases rows.len() - from,
{
    if from < rows.len() && rows[from].selected {
        from
    } else if from < rows.len() {
        first_selected(rows, from + 1)
    } else {
        0
    }
}

/// A row says how many panes and panels there are, in this order, and a new
/// workspace is named by its number.
pub proof fn law_rows_say_how_much_there_is(w: WorkspaceSummaryView, count: nat)
    ensures
        row_text(w) == decimal(w.pane_count as nat) + " panes, "@ + decimal(w.surface_count as nat)
            + " panels"@,
        new_title(count) == "Workspace "@ + decimal(count + 1),
{
}

// ---------------------------------------------------------------------------
// Panes

/// The tab with an id is found.
proof fn lemma_tab(pane: PaneDetailView, i: int, from: int)
    requires
        0 <= from <= i < pane.surfaces.len(),
        forall|j: int|
            0 <= j < i ==> (#[trigger] pane.surfaces[j]).id != pane.surfaces[i].id,
    ensures
        tab_from(pane.surfaces, pane.surfaces[i].id, from) == Some(i),
    decreases i - from,
{
    if from < i {
        assert(pane.surfaces[from].id != pane.surfaces[i].id);
        lemma_tab(pane, i, from + 1);
    }
}

/// There is no tab with an id.
proof fn lemma_no_tab(pane: PaneDetailView, id: Seq<char>, from: int)
    requires
        0 <= from,
        forall|j: int| 0 <= j < pane.surfaces.len() ==> (#[trigger] pane.surfaces[j]).id != id,
    ensures
        tab_from(pane.surfaces, id, from) is None,
    decreases pane.surfaces.len() - from,
{
    if from < pane.surfaces.len() {
        assert(pane.surfaces[from].id != id);
        lemma_no_tab(pane, id, from + 1);
    }
}

/// A pane shows its selected surface; where none of its surfaces is selected it
/// shows the first, and where it has none it shows nothing.
pub proof fn law_a_pane_shows_its_selection(pane: PaneDetailView, i: int)
    ensures
        0 <= i < pane.surfaces.len() && pane.selected_surface_id == Some(pane.surfaces[i].id) && (
        forall|j: int| 0 <= j < i ==> (#[trigger] pane.surfaces[j]).id != pane.surfaces[i].id)
            ==> shown_tab(pane) == Some(i),
        pane.surfaces.len() > 0 && (forall|j: int|
            0 <= j < pane.surfaces.len() ==> pane.selected_surface_id != Some(
                (#[trigger] pane.surfaces[j]).id,
            )) ==> shown_tab(pane) == Some(0int),
        pane.surfaces.len() == 0 ==> shown_tab(pane) is None,
{
    if 0 <= i < pane.surfaces.len() && pane.selected_surface_id == Some(pane.surfaces[i].id) && (
    forall|j: int| 0 <= j < i ==> (#[trigger] pane.surfaces[j]).id != pane.surfaces[i].id) {
        lemma_tab(pane, i, 0);
    }
    if let Some(id) = pane.selected_surface_id {
        if forall|j: int| 0 <= j < pane.surfaces.len() ==> pane.selected_surface_id != Some(
            (#[trigger] pane.surfaces[j]).id,
        ) {
            assert forall|j: int| 0 <= j < pane.surfaces.len() implies (
            #[trigger] pane.surfaces[j]).id != id by {
                assert(pane.selected_surface_id != Some(pane.surfaces[j].id));
            }
            lemma_no_tab(pane, id, 0);
        }
    }
}

/// A surface is drawn as what it is.
pub proof fn law_surfaces_are_drawn_as_what_they_are(kind: SurfaceKind)
    ensures
        drawing(kind_text(kind)) == (match kind {
            SurfaceKind::Terminal => Drawing::Terminal,
            SurfaceKind::Browser => Drawing::Browser,
            SurfaceKind::Markdown => Drawing::Markdown,
        }),
{
    reveal_strlit("terminal");
    reveal_strlit("browser");
    reveal_strlit("markdown");
    assert("terminal"@.len() == 8 && "browser"@.len() == 7 && "markdown"@.len() == 8);
    assert("terminal"@[0] == 't' && "markdown"@[0] == 'm');
}

// ---------------------------------------------------------------------------
// Notifications

/// The newest notifications are listed, the newest first and each next one before
/// it in time: all of them, but no more than five.
pub proof fn law_the_newest_notifications_are_listed(count: nat, i: int)
    ensures
        listed(count).len() <= 5 && listed(count).len() <= count,
        count <= 5 ==> listed(count).len() == count,
        count > 5 ==> listed(count).len() == 5,
        count > 0 ==> listed(count)[0] == count - 1,
        0 < i < listed(count).len() ==> listed(count)[i] == listed(count)[i - 1] - 1,
{
}

/// The number of notifications is said.
pub proof fn law_notifications_are_counted(count: nat)
    ensures
        count == 0 ==> notifications_text(count) == "No notifications"@,
        count == 1 ==> notifications_text(count) == "1 notification"@,
        count > 1 ==> notifications_text(count) == decimal(count) + " notifications"@,
{
    reveal_strlit("app.title");
    reveal_strlit("sidebar.workspaces");
    reveal_strlit("sidebar.newWorkspace");
    reveal_strlit("sidebar.socket");
    reveal_strlit("sidebar.notifications.none");
    reveal_strlit("sidebar.notifications.one");
    assert("app.title"@.len() == 9 && "sidebar.workspaces"@.len() == 18
        && "sidebar.newWorkspace"@.len()
        == 20 && "sidebar.socket"@.len() == 14 && "sidebar.notifications.none"@.len() == 26
        && "sidebar.notifications.one"@.len() == 25);
}

/// The desktop is told of a notification once: not again where it was told of it
/// last.
pub proof fn law_news_are_told_once(id: Seq<char>, last_seen: Seq<char>)
    ensures
        news(Some(id), id) is None,
        id != last_seen ==> news(Some(id), last_seen) == Some(id),
        news(None, last_seen) is None,
{
}

// ---------------------------------------------------------------------------
// The sidebar and the identifier

/// The width that is said in the environment is the one that is written there,
/// with or without a sign; without it the settings count, and without them the
/// usual width.
pub proof fn law_widths_are_read_as_written(width: nat, setting: i32)
    requires
        width <= i32::MAX,
    ensures
        parsed_i32(decimal(width)) == Some(width as int),
        parsed_i32(seq!['-'] + decimal(width)) == Some(-(width as int)),
        setting > 0 ==> wanted_width(None, setting) == setting,
        setting <= 0 ==> wanted_width(None, setting) == 220,
        160 <= width <= 420 ==> clamped(width as int) == width,
        width < 160 ==> clamped(width as int) == 160,
        width > 420 ==> clamped(width as int) == 420,
{
    law_written_numbers_are_read_back(width, 2147483647);
    law_written_numbers_are_read_back(width, 2147483648);
    crate::naming::lemma_decimal(width);
    let s = decimal(width);
    assert(crate::text::is_digit(s[0]));
    assert(s[0] != '-' && s[0] != '+');
    let t = seq!['-'] + s;
    assert(t[0] == '-' && t[1] == s[0]);
    assert(t.skip(1) =~= s);
}

/// The identifier keeps small letters and digits of a suffix, makes capitals
/// small, and puts a hyphen for each other character.
pub proof fn law_identifiers_are_plain(suffix: Seq<char>, i: int)
    requires
        0 <= i < trimmed(suffix).len(),
    ensures
        ({
            let id = app_id(Some(suffix));
            let head = APP_ID@ + "."@;
            let c = trimmed(suffix)[i];
            &&& id.len() == head.len() + trimmed(suffix).len()
            &&& id.take(head.len() as int) == head
            &&& 'a' <= c <= 'z' || '0' <= c <= '9' ==> id[head.len() + i] == c
            &&& 'A' <= c <= 'Z' ==> id[head.len() + i] as int == c as int + 32
            &&& !('a' <= c <= 'z' || '0' <= c <= '9' || 'A' <= c <= 'Z') ==> id[head.len() + i]
                == '-'
        }),
        app_id(None) == APP_ID@,
{
    let head = APP_ID@ + "."@;
    let rest = trimmed(suffix).map_values(|c: char| id_char(c));
    let id = app_id(Some(suffix));
    assert(id == head + rest);
    assert(id.take(head.len() as int) =~= head);
    assert(id[head.len() + i] == rest[i]);
}

// ---------------------------------------------------------------------------
// Terminals

/// A login shell is called by its name, behind a hyphen; the directory it stands
/// in is left out.
pub proof fn law_login_shells_are_called_by_name(directory: Seq<char>, name: Seq<char>)
    requires
        forall|i: int| 0 <= i < name.len() ==> #[trigger] name[i] != '/',
        name.len() > 0,
    ensures
        login_name(directory + seq!['/'] + name) == "-"@ + name,
        login_name(name) == "-"@ + name,
        login_name(directory + seq!['/']) == "-sh"@,
{
    let whole = directory + seq!['/'] + name;
    crate::text::lemma_last_part(whole, directory.len() as int + 1);
    assert(whole.skip(directory.len() as int + 1) =~= name);
    crate::text::lemma_last_part(name, 0);
    assert(name.skip(0) =~= name);
    let bare = directory + seq!['/'];
    assert(bare.last() == '/');
    reveal_strlit("-");
    reveal_strlit("sh");
    reveal_strlit("-sh");
    assert("-"@ + "sh"@ =~= "-sh"@);
}

/// The names of the terminals are different, and each stands for its terminal.
pub proof fn law_terminals_have_their_names(backend: TerminalBackendPreference)
    ensures
        backend == TerminalBackendPreference::Auto ==> backend_text(backend) == "auto"@,
        backend == TerminalBackendPreference::Pty ==> backend_text(backend) == "pty"@,
        backend == TerminalBackendPreference::Vte ==> backend_text(backend) == "vte"@,
        backend == TerminalBackendPreference::Ghostty ==> backend_text(backend) == "ghostty"@,
        backend == TerminalBackendPreference::Pty ==> wanted_backend(backend)
            == TerminalBackend::Pty,
        backend == TerminalBackendPreference::Vte ==> wanted_backend(backend)
            == TerminalBackend::Vte,
        backend == TerminalBackendPreference::Ghostty || backend
            == TerminalBackendPreference::Auto ==> wanted_backend(backend)
            == TerminalBackend::Ghostty,
{
}

/// Settings that were read are in force; otherwise the sidebar has its usual width,
/// terminals are on pseudoterminals, automation and notifications are on, and the
/// theme is that of the system.
pub proof fn law_settings_are_in_force(settings: Settings)
    ensures
        in_force(Some(settings)) == settings@,
        in_force(None).sidebar_width == 220,
        in_force(None).terminal_backend == TerminalBackendPreference::Pty,
        in_force(None).browser_state_automation,
        in_force(None).desktop_notifications,
        in_force(None).theme == "system"@,
{
}

/// What is kept of what a terminal printed is the end of it: all of it, or as
/// much as may be kept.
pub proof fn law_the_end_of_the_output_is_kept(bytes: Seq<u8>)
    ensures
        bytes.len() <= 262144 ==> kept_bytes(bytes) == bytes,
        bytes.len() > 262144 ==> kept_bytes(bytes).len() == 262144,
        exists|gone: Seq<u8>| bytes == #[trigger] (gone + kept_bytes(bytes)),
{
    let n = bytes.len() - kept_bytes(bytes).len();
    assert(bytes =~= bytes.take(n) + kept_bytes(bytes));
    if bytes.len() <= 262144 {
        assert(kept_bytes(bytes) =~= bytes);
    }
}

// ---------------------------------------------------------------------------
// Files

/// The bytes of plain names, one behind the other.
proof fn lemma_bytes_joined(a: Seq<char>, b: Seq<char>)
    requires
        is_ascii_chars(a),
        is_ascii_chars(b),
    ensures
        is_ascii_chars(a + b),
        name_bytes(a + b) == name_bytes(a) + name_bytes(b),
{
    assert forall|i: int| 0 <= i < (a + b).len() implies '\0' <= #[trigger] (a + b)[i] <= '\u{7f}' by {
        if i < a.len() {
            assert((a + b)[i] == a[i]);
        } else {
            assert((a + b)[i] == b[i - a.len()]);
        }
    }
    is_ascii_chars_encode_utf8(a);
    is_ascii_chars_encode_utf8(b);
    is_ascii_chars_encode_utf8(a + b);
    let whole = name_bytes(a + b);
    let parts = name_bytes(a) + name_bytes(b);
    assert forall|i: int| 0 <= i < whole.len() implies #[trigger] whole[i] == parts[i] by {
        if i < a.len() {
            assert((a + b)[i] == a[i]);
            assert(parts[i] == name_bytes(a)[i]);
        } else {
            assert((a + b)[i] == b[i - a.len()]);
            assert(parts[i] == name_bytes(b)[i - a.len()]);
        }
    }
    assert(whole =~= parts);
}

/// Whether a path is that of a directory to which a name can be put behind a
/// slash.
pub open spec fn is_directory(dir: Seq<u8>) -> bool {
    dir.len() > 0 && dir.last() != 47
}

/// Whether a name is plain and ends in no slash.
spec fn is_name(name: Seq<char>) -> bool {
    is_ascii_chars(name) && name.len() > 0 && name.last() != '/'
}

/// A plain name behind the path of a directory, and a path with a slash and the
/// name behind it.
proof fn lemma_behind(dir: Seq<u8>, so_far: Seq<char>, name: Seq<char>)
    requires
        is_directory(dir),
        so_far.len() == 0 || is_name(so_far),
        is_ascii_chars(so_far),
        is_name(name),
    ensures
        path_join(dir + name_bytes(so_far), name) == dir + name_bytes(so_far + seq!['/'] + name),
        is_name(so_far + seq!['/'] + name),
{
    let slash = seq!['/'];
    assert(is_ascii_chars(slash));
    is_ascii_chars_encode_utf8(slash);
    is_ascii_chars_encode_utf8(so_far);
    is_ascii_chars_encode_utf8(name);
    lemma_bytes_joined(so_far, slash);
    lemma_bytes_joined(so_far + slash, name);
    let path = dir + name_bytes(so_far);
    if so_far.len() == 0 {
        assert(path =~= dir);
    } else {
        assert(path.last() == name_bytes(so_far)[so_far.len() - 1]);
        assert(so_far[so_far.len() - 1] as u8 == name_bytes(so_far)[so_far.len() - 1]);
        assert(so_far[so_far.len() - 1] <= '\u{7f}');
    }
    assert(slash[0] as u8 == name_bytes(slash)[0]);
    assert(path.push(47) =~= path + name_bytes(slash));
    assert(path_join(path, name) =~= dir + name_bytes(so_far + slash + name));
    let all = so_far + slash + name;
    assert(all.last() == name.last());
}

/// The plain names of files, and the paths that they make.
proof fn lemma_names()
    ensures
        is_name(".cache"@),
        is_name(".cmux"@),
        is_name(".config"@),
        is_name(".local"@),
        is_name("/.cache"@),
        is_name("/.cache/cmux"@),
        is_name("/.cache/cmux/downloads"@),
        is_name("/.cmux"@),
        is_name("/.cmux/socket_addr"@),
        is_name("/.config"@),
        is_name("/.config/cmux"@),
        is_name("/.config/cmux/settings.json"@),
        is_name("/.local"@),
        is_name("/.local/state"@),
        is_name("/.local/state/cmux"@),
        is_name("/.local/state/cmux/session-linux.json"@),
        is_name("/cmux"@),
        is_name("/cmux/cmux.sock"@),
        is_name("/cmux/downloads"@),
        is_name("/cmux/session-linux.json"@),
        is_name("/cmux/settings.json"@),
        is_name("cmux"@),
        is_name("cmux.sock"@),
        is_name("downloads"@),
        is_name("session-linux.json"@),
        is_name("settings.json"@),
        is_name("socket_addr"@),
        is_name("state"@),
        "/cmux"@ == ""@ + seq!['/'] + "cmux"@,
        "/cmux/cmux.sock"@ == "/cmux"@ + seq!['/'] + "cmux.sock"@,
        "/cmux/session-linux.json"@ == "/cmux"@ + seq!['/'] + "session-linux.json"@,
        "/cmux/settings.json"@ == "/cmux"@ + seq!['/'] + "settings.json"@,
        "/cmux/downloads"@ == "/cmux"@ + seq!['/'] + "downloads"@,
        "/.cmux"@ == ""@ + seq!['/'] + ".cmux"@,
        "/.cmux/socket_addr"@ == "/.cmux"@ + seq!['/'] + "socket_addr"@,
        "/.local"@ == ""@ + seq!['/'] + ".local"@,
        "/.local/state"@ == "/.local"@ + seq!['/'] + "state"@,
        "/.local/state/cmux"@ == "/.local/state"@ + seq!['/'] + "cmux"@,
        "/.local/state/cmux/session-linux.json"@ == "/.local/state/cmux"@ + seq!['/'] + "session-linux.json"@,
        "/.config"@ == ""@ + seq!['/'] + ".config"@,
        "/.config/cmux"@ == "/.config"@ + seq!['/'] + "cmux"@,
        "/.config/cmux/settings.json"@ == "/.config/cmux"@ + seq!['/'] + "settings.json"@,
        "/.cache"@ == ""@ + seq!['/'] + ".cache"@,
        "/.cache/cmux"@ == "/.cache"@ + seq!['/'] + "cmux"@,
        "/.cache/cmux/downloads"@ == "/.cache/cmux"@ + seq!['/'] + "downloads"@,
        ""@ == Seq::<char>::empty(),
{
    reveal_strlit("");
    assert(""@ =~= Seq::<char>::empty());
    reveal_strlit(".cache");
    reveal_strlit(".cmux");
    reveal_strlit(".config");
    reveal_strlit(".local");
    reveal_strlit("/.cache");
    reveal_strlit("/.cache/cmux");
    reveal_strlit("/.cache/cmux/downloads");
    reveal_strlit("/.cmux");
    reveal_strlit("/.cmux/socket_addr");
    reveal_strlit("/.config");
    reveal_strlit("/.config/cmux");
    reveal_strlit("/.config/cmux/settings.json");
    reveal_strlit("/.local");
    reveal_strlit("/.local/state");
    reveal_strlit("/.local/state/cmux");
    reveal_strlit("/.local/state/cmux/session-linux.json");
    reveal_strlit("/cmux");
    reveal_strlit("/cmux/cmux.sock");
    reveal_strlit("/cmux/downloads");
    reveal_strlit("/cmux/session-linux.json");
    reveal_strlit("/cmux/settings.json");
    reveal_strlit("cmux");
    reveal_strlit("cmux.sock");
    reveal_strlit("downloads");
    reveal_strlit("session-linux.json");
    reveal_strlit("settings.json");
    reveal_strlit("socket_addr");
    reveal_strlit("state");
    assert("/cmux"@ =~= ""@ + seq!['/'] + "cmux"@);
    assert("/cmux/cmux.sock"@ =~= "/cmux"@ + seq!['/'] + "cmux.sock"@);
    assert("/cmux/session-linux.json"@ =~= "/cmux"@ + seq!['/'] + "session-linux.json"@);
    assert("/cmux/settings.json"@ =~= "/cmux"@ + seq!['/'] + "settings.json"@);
    assert("/cmux/downloads"@ =~= "/cmux"@ + seq!['/'] + "downloads"@);
    assert("/.cmux"@ =~= ""@ + seq!['/'] + ".cmux"@);
    assert("/.cmux/socket_addr"@ =~= "/.cmux"@ + seq!['/'] + "socket_addr"@);
    assert("/.local"@ =~= ""@ + seq!['/'] + ".local"@);
    assert("/.local/state"@ =~= "/.local"@ + seq!['/'] + "state"@);
    assert("/.local/state/cmux"@ =~= "/.local/state"@ + seq!['/'] + "cmux"@);
    assert("/.local/state/cmux/session-linux.json"@ =~= "/.local/state/cmux"@ + seq!['/'] + "session-linux.json"@);
    assert("/.config"@ =~= ""@ + seq!['/'] + ".config"@);
    assert("/.config/cmux"@ =~= "/.config"@ + seq!['/'] + "cmux"@);
    assert("/.config/cmux/settings.json"@ =~= "/.config/cmux"@ + seq!['/'] + "settings.json"@);
    assert("/.cache"@ =~= ""@ + seq!['/'] + ".cache"@);
    assert("/.cache/cmux"@ =~= "/.cache"@ + seq!['/'] + "cmux"@);
    assert("/.cache/cmux/downloads"@ =~= "/.cache/cmux"@ + seq!['/'] + "downloads"@);
}

/// A first name behind the path of a directory.
proof fn lemma_first_behind(dir: Seq<u8>, name: Seq<char>, whole: Seq<char>)
    requires
        is_directory(dir),
        is_name(name),
        whole == ""@ + seq!['/'] + name,
        ""@ == Seq::<char>::empty(),
    ensures
        path_join(dir, name) == dir + name_bytes(whole),
{
    let none = Seq::<char>::empty();
    is_ascii_chars_encode_utf8(none);
    assert(dir + name_bytes(none) =~= dir);
    lemma_behind(dir, none, name);
}

/// What is said in the environment is where the files are, unless it is empty.
pub proof fn law_what_is_said_of_paths_counts(
    given: Seq<u8>,
    second: Option<Seq<u8>>,
    home: Option<Seq<u8>>,
)
    requires
        given.len() > 0,
    ensures
        socket_path(Some(given), second) == given,
        session_path(Some(given), second, home) == Some(given),
        settings_path(Some(given), second, home) == Some(given),
        download_dir(Some(given), second, home) == given,
        socket_path(Some(Seq::empty()), second) == socket_path(None, second),
        session_path(Some(Seq::empty()), second, home) == session_path(None, second, home),
        settings_path(Some(Seq::empty()), second, home) == settings_path(None, second, home),
{
}

/// Below a directory that the environment names, each kind of files has its own
/// place.
pub proof fn law_files_have_their_places(dir: Seq<u8>, home: Option<Seq<u8>>)
    requires
        is_directory(dir),
    ensures
        socket_path(None, Some(dir)) == dir + name_bytes("/cmux/cmux.sock"@),
        session_path(None, Some(dir), home) == Some(
            dir + name_bytes("/cmux/session-linux.json"@),
        ),
        settings_path(None, Some(dir), home) == Some(dir + name_bytes("/cmux/settings.json"@)),
        download_dir(None, Some(dir), home) == dir + name_bytes("/cmux/downloads"@),
{
    lemma_names();
    lemma_first_behind(dir, "cmux"@, "/cmux"@);
    lemma_behind(dir, "/cmux"@, "cmux.sock"@);
    lemma_behind(dir, "/cmux"@, "session-linux.json"@);
    lemma_behind(dir, "/cmux"@, "settings.json"@);
    lemma_behind(dir, "/cmux"@, "downloads"@);
}

/// Below the home of a user, each kind of files has its own place too.
pub proof fn law_files_have_places_at_home(home: Seq<u8>)
    requires
        is_directory(home),
    ensures
        socket_note_path(Some(home)) == Some(home + name_bytes("/.cmux/socket_addr"@)),
        session_path(None, None, Some(home)) == Some(
            home + name_bytes("/.local/state/cmux/session-linux.json"@),
        ),
        settings_path(None, None, Some(home)) == Some(
            home + name_bytes("/.config/cmux/settings.json"@),
        ),
        download_dir(None, None, Some(home)) == home + name_bytes("/.cache/cmux/downloads"@),
        socket_note_path(None) is None,
        session_path(None, None, None) is None,
        settings_path(None, None, None) is None,
        socket_path(None, None) == name_bytes("/tmp/cmux.sock"@),
{
    lemma_names();
    lemma_first_behind(home, ".cmux"@, "/.cmux"@);
    lemma_behind(home, "/.cmux"@, "socket_addr"@);
    lemma_first_behind(home, ".local"@, "/.local"@);
    lemma_behind(home, "/.local"@, "state"@);
    lemma_behind(home, "/.local/state"@, "cmux"@);
    lemma_behind(home, "/.local/state/cmux"@, "session-linux.json"@);
    lemma_first_behind(home, ".config"@, "/.config"@);
    lemma_behind(home, "/.config"@, "cmux"@);
    lemma_behind(home, "/.config/cmux"@, "settings.json"@);
    lemma_first_behind(home, ".cache"@, "/.cache"@);
    lemma_behind(home, "/.cache"@, "cmux"@);
    lemma_behind(home, "/.cache/cmux"@, "downloads"@);
}

} // verus!
