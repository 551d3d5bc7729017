use cmux_gtk::app_state::AppState;
use cmux_gtk::ghostty::{
    candidates, failure_reason, probe_status, renderer_available, status, try_another, version_text,
    Attempt, Candidate, LoadFailure, Probe,
};
use cmux_gtk::i18n::tr;
use cmux_gtk::ids::uuid_text;
use cmux_gtk::layout::{
    clamp_ratio, equalize_layout, insert_pane_in_layout, layout_contains_pane, prune_layout,
    resize_split_for_pane, swap_panes_in_layout, PaneNode, SplitDirection,
};
use cmux_gtk::methods::{is_browser_automation_method, supported_methods};
use cmux_gtk::paths::{
    default_socket_path, download_directory, download_file, path, session_state_path, socket_addr_path,
};
use cmux_gtk::settings::{backend_name, get, Settings, TerminalBackendPreference};
use cmux_gtk::shown::WorkspaceSummary;
use cmux_gtk::window::{
    application_id, can_close_workspaces, listed_notifications, new_workspace_title,
    notification_status, selection_after_close, selection_when_drawn, surface_drawing,
    workspace_row_text, workspace_sidebar_width, Drawing,
};

fn bytes(s: &str) -> Option<Vec<u8>> {
    Some(s.as_bytes().to_vec())
}

#[test]
fn paths_come_from_the_environment() {
    assert_eq!(default_socket_path(bytes("/tmp/s"), bytes("/run/u")), b"/tmp/s".to_vec());
    assert_eq!(default_socket_path(bytes(""), bytes("/run/u")), b"/run/u/cmux/cmux.sock".to_vec());
    assert_eq!(default_socket_path(None, None), b"/tmp/cmux.sock".to_vec());
    assert_eq!(socket_addr_path(bytes("/home/me")), bytes("/home/me/.cmux/socket_addr"));
    assert_eq!(socket_addr_path(None), None);
    assert_eq!(
        session_state_path(None, None, bytes("/home/me")),
        bytes("/home/me/.local/state/cmux/session-linux.json")
    );
    assert_eq!(
        session_state_path(None, bytes("/st/"), bytes("/home/me")),
        bytes("/st/cmux/session-linux.json")
    );
    assert_eq!(path(None, None, bytes("/home/me")), bytes("/home/me/.config/cmux/settings.json"));
    assert_eq!(path(bytes("/s.json"), None, None), bytes("/s.json"));
    assert_eq!(download_directory(None, None, None), b"/tmp/cmux-downloads".to_vec());
    assert_eq!(download_file(b"/d".to_vec(), "a.txt"), b"/d/a.txt".to_vec());
}

#[test]
fn settings_have_defaults() {
    let settings = get(None);
    assert_eq!(settings.sidebar_width, 220);
    assert_eq!(settings.terminal_backend, TerminalBackendPreference::Pty);
    assert!(settings.browser_state_automation);
    assert!(settings.desktop_notifications);
    let read = Settings { sidebar_width: 300, ..Settings::default() };
    assert_eq!(get(Some(read)).sidebar_width, 300);
    assert_eq!(backend_name(TerminalBackendPreference::Pty), "pty");
    assert_eq!(backend_name(TerminalBackendPreference::Auto), "auto");
}

#[test]
fn the_application_has_an_id() {
    let plain = application_id(&None);
    assert_eq!(application_id(&Some(String::from("  "))), plain);
    assert_eq!(application_id(&Some(String::from(" Ci Run_1 "))), format!("{plain}.ci-run-1"));
}

#[test]
fn the_sidebar_has_a_bounded_width() {
    let default = workspace_sidebar_width(&None, 0);
    assert_eq!(workspace_sidebar_width(&Some(String::from("wide")), 0), default);
    assert_eq!(workspace_sidebar_width(&Some(String::from(" 300 ")), 0), 300);
    let least = workspace_sidebar_width(&Some(String::from("-5")), 0);
    let most = workspace_sidebar_width(&Some(String::from("99999")), 0);
    assert!(0 < least && least <= default && default <= most && most < 99999);
    assert_eq!(workspace_sidebar_width(&None, 99999), most);
}

fn row(id: &str, selected: bool) -> WorkspaceSummary {
    WorkspaceSummary {
        id: String::from(id),
        title: String::from(id),
        pane_count: 2,
        surface_count: 3,
        selected,
    }
}

#[test]
fn rows_follow_the_workspaces() {
    let rows = vec![row("a", false), row("b", true)];
    assert_eq!(workspace_row_text(&rows[0]), "2 panes, 3 panels");
    assert_eq!(selection_after_close(&rows, "a"), "a");
    assert_eq!(selection_after_close(&rows, "gone"), "b");
    assert_eq!(selection_when_drawn(&rows, ""), "a");
    assert_eq!(selection_when_drawn(&rows, "b"), "b");
    assert!(can_close_workspaces(&rows));
    assert!(!can_close_workspaces(&vec![row("a", true)]));
    assert_eq!(new_workspace_title(2), "Workspace 3");
}

#[test]
fn the_newest_notifications_are_shown_first() {
    assert_eq!(listed_notifications(2), vec![1, 0]);
    assert_eq!(listed_notifications(7), vec![6, 5, 4, 3, 2]);
    assert_eq!(notification_status(3), "3 notifications");
    assert_eq!(notification_status(0), tr("sidebar.notifications.none"));
    assert!(surface_drawing("browser") == Drawing::Browser);
    assert!(surface_drawing("terminal") == Drawing::Terminal);
}

#[test]
fn a_library_is_looked_for_in_order() {
    let usual = candidates(None);
    assert!(usual.len() >= 3);
    assert!(matches!(&usual[0], Candidate::Path(p) if p == b"/usr/lib/cmux/libghostty-gtk-embed.so"));
    let given = candidates(bytes("/opt/g.so"));
    assert!(matches!(&given[0], Candidate::Path(p) if p == b"/opt/g.so"));
    let none: Vec<Attempt> = Vec::new();
    assert!(try_another(&none, 3));
    assert!(!try_another(&none, 0));
    let absent = LoadFailure::Absent(String::from("/bad/path"));
    assert_eq!(failure_reason(&absent), "/bad/path does not exist");
    let failed = vec![Attempt::Failed(absent)];
    assert!(try_another(&failed, 3));
    assert_eq!(status(&failed).reason, Some(String::from("/bad/path does not exist")));
    assert!(!renderer_available(&status(&failed)));
    let works = Probe::Works { version: version_text(&b"1.2".to_vec()), abi_version: 1 };
    let working = probe_status("/opt/g.so", &works);
    assert!(working.available && working.library_available && working.reason.is_none());
    assert_eq!(working.version, Some(String::from("1.2")));
    let both = vec![
        Attempt::Failed(LoadFailure::BadName),
        Attempt::Opened(String::from("/opt/g.so"), works),
    ];
    assert!(!try_another(&both, 3));
    assert!(renderer_available(&status(&both)));
    let broken = vec![Attempt::Opened(String::from("/opt/g.so"), Probe::InitFailed)];
    assert!(!try_another(&broken, 3));
    let broken = status(&broken);
    assert!(broken.library_available && !broken.renderer_available && broken.reason.is_some());
}

fn lacking(path: &str) -> Attempt {
    Attempt::Opened(
        String::from(path),
        Probe::NoSymbol(String::from("ghostty_gtk_surface_health")),
    )
}

#[test]
fn a_library_without_a_symbol_is_there_but_not_used() {
    let unopened = LoadFailure::NotOpened(String::from("libghostty-gtk-embed.so"), None);
    let attempts = vec![
        Attempt::Failed(LoadFailure::Absent(String::from("/bad/path"))),
        lacking("/opt/old.so"),
        Attempt::Failed(unopened),
    ];
    assert!(try_another(&attempts, 4));
    let told = status(&attempts);
    assert!(told.library_available && !told.renderer_available && !told.available);
    assert_eq!(told.library_path, Some(String::from("/opt/old.so")));
    assert_eq!(told.reason, Some(String::from("missing symbol ghostty_gtk_surface_health")));
    assert_eq!(told.version, None);
    assert_eq!(told.abi_version, None);
}

#[test]
fn a_later_library_makes_up_for_a_missing_symbol() {
    let works = Probe::Works { version: None, abi_version: 2 };
    let attempts = vec![
        lacking("/opt/old.so"),
        Attempt::Opened(String::from("/opt/new.so"), works),
    ];
    assert!(!try_another(&attempts, 4));
    let told = status(&attempts);
    assert!(renderer_available(&told) && told.available && told.reason.is_none());
    assert_eq!(told.library_path, Some(String::from("/opt/new.so")));
    assert_eq!(told.abi_version, Some(2));
    let two = vec![lacking("/opt/old.so"), lacking("/opt/older.so")];
    assert_eq!(status(&two).library_path, Some(String::from("/opt/older.so")));
}

#[test]
fn ids_differ_by_ordinal() {
    let nanos: u64 = 1_700_000_000_000_000_000;
    let one = uuid_text("surface", 1, nanos);
    assert_eq!(one, uuid_text("surface", 1, nanos));
    assert_ne!(one, uuid_text("surface", 2, nanos));
    assert_ne!(one, uuid_text("pane", 1, nanos));
    assert_eq!(one.len(), 36);
}

fn leaf(id: &str) -> PaneNode {
    PaneNode::Leaf { pane_id: String::from(id) }
}

fn leaves(node: &PaneNode) -> Vec<String> {
    match node {
        PaneNode::Leaf { pane_id } => vec![pane_id.clone()],
        PaneNode::Split { first, second, .. } => {
            let mut all = leaves(first);
            all.extend(leaves(second));
            all
        }
    }
}

#[test]
fn layouts_gain_and_lose_panes() {
    let mut layout = leaf("a");
    insert_pane_in_layout(&mut layout, Some("a"), "b", SplitDirection::Horizontal, false);
    insert_pane_in_layout(&mut layout, Some("a"), "c", SplitDirection::Vertical, true);
    assert_eq!(leaves(&layout), vec!["c", "a", "b"]);
    assert!(layout_contains_pane(&layout, "c"));
    swap_panes_in_layout(&mut layout, "c", "b");
    assert_eq!(leaves(&layout), vec!["b", "a", "c"]);
    swap_panes_in_layout(&mut layout, "c", "b");
    assert_eq!(leaves(&layout), vec!["c", "a", "b"]);
    assert!(resize_split_for_pane(&mut layout, "b", clamp_ratio(0.95f64.to_bits())));
    match &layout {
        PaneNode::Split { ratio, .. } => assert_eq!(f64::from_bits(*ratio), 0.9),
        PaneNode::Leaf { .. } => panic!("three panes make a split"),
    }
    equalize_layout(&mut layout);
    match &layout {
        PaneNode::Split { ratio, .. } => assert_eq!(f64::from_bits(*ratio), 0.5),
        PaneNode::Leaf { .. } => panic!("three panes make a split"),
    }
    assert_eq!(f64::from_bits(clamp_ratio(0.0f64.to_bits())), 0.1);
    assert_eq!(f64::from_bits(clamp_ratio(0.25f64.to_bits())), 0.25);
    let kept = prune_layout(&layout, &vec![String::from("a"), String::from("b")]).unwrap();
    assert_eq!(leaves(&kept), vec!["a", "b"]);
    assert!(prune_layout(&layout, &Vec::new()).is_none());
}

#[test]
fn methods_are_listed_in_order() {
    let methods = supported_methods();
    assert_eq!(methods.len(), 92);
    assert_eq!(methods[0], "app.status");
    assert_eq!(methods[91], "workspace.select");
    for pair in methods.windows(2) {
        assert!(pair[0] < pair[1]);
    }
    assert!(is_browser_automation_method("browser.click"));
    assert!(!is_browser_automation_method("browser.navigate"));
}

#[test]
fn the_window_shows_the_current_workspace() {
    let app = AppState::start(1_700_000_000_000_000_000);
    let detail = app.active_workspace_detail().unwrap();
    assert_eq!(detail.title, "Default");
    assert!(app.workspace_summaries()[0].selected);
    assert_eq!(app.workspace_summaries()[0].pane_count, 1);
}
