use cmux_gtk::ghostty::GhosttyGtkSurfaceHealth;
use cmux_gtk::keys::{bytes_for_key, bytes_for_socket_key};
use cmux_gtk::settings::TerminalBackendPreference;
use cmux_gtk::terminal::{
    append_capture, can_append, ghostty_status, panel_backend, pty_status, shell_arg0, TerminalBackend,
    MAX_CAPTURE_BYTES,
};
use cmux_gtk::terminal_text::{
    apply_terminal_text, printable_text, strip_ansi_controls, terminal_text_from_bytes, Edit,
};

#[test]
fn strips_csi_escape_sequences() {
    assert_eq!(strip_ansi_controls("a\u{1b}[31mb\u{1b}[0mc"), "abc");
}

#[test]
fn strips_titles_and_leaves_plain_text() {
    assert_eq!(strip_ansi_controls("\u{1b}]0;title\u{7}prompt"), "prompt");
    assert_eq!(strip_ansi_controls("plain text"), "plain text");
    let once = strip_ansi_controls("x\u{1b}[2Jy\u{1b}]0;t\u{7}z");
    assert_eq!(strip_ansi_controls(&once), once);
    assert!(!once.contains('\u{1b}'));
}

#[test]
fn output_is_decoded_and_cleaned() {
    assert_eq!(terminal_text_from_bytes(&b"a\x1b[1mb\x1b[0m\n".to_vec()), "ab\n");
    assert_eq!(terminal_text_from_bytes(&vec![0xc3, 0xa9]), "\u{e9}");
    assert_eq!(terminal_text_from_bytes(&vec![104, 0xff, 105]), "h\u{fffd}i");
    assert_eq!(printable_text("a\tb\u{0}c"), "a\tbc");
}

#[test]
fn a_backspace_takes_back_a_character() {
    let (edits, _) = apply_terminal_text("ab\u{8}c");
    let mut shown = String::new();
    for edit in &edits {
        match edit {
            Edit::Append(s) => shown.push_str(s),
            Edit::DeleteLast => {
                shown.pop();
            }
        }
    }
    assert_eq!(shown, "ac");
}

#[test]
fn keys_have_bytes() {
    assert_eq!(bytes_for_socket_key("Enter"), Some(vec![13]));
    assert_eq!(bytes_for_socket_key(" esc "), Some(vec![27]));
    assert_eq!(bytes_for_socket_key("up"), Some(b"\x1b[A".to_vec()));
    assert_eq!(bytes_for_socket_key("delete"), Some(b"\x1b[3~".to_vec()));
    assert_eq!(bytes_for_socket_key("page-down"), Some(b"\x1b[6~".to_vec()));
    assert_eq!(bytes_for_socket_key("ctrl-c"), Some(vec![3]));
    assert_eq!(bytes_for_socket_key("ctrl-1"), None);
    assert_eq!(bytes_for_socket_key("x"), Some(vec![120]));
    assert_eq!(bytes_for_socket_key("xyzzy"), None);
    assert_eq!(bytes_for_key("Return", false, None), Some(vec![13]));
    assert_eq!(bytes_for_key("c", true, Some('C')), Some(vec![3]));
    assert_eq!(bytes_for_key("1", true, Some('1')), None);
    assert_eq!(bytes_for_key("eacute", false, Some('\u{e9}')), Some(vec![0xc3, 0xa9]));
    assert_eq!(bytes_for_key("Shift_L", false, None), None);
}

#[test]
fn a_pseudoterminal_is_the_last_resort() {
    let pty = TerminalBackendPreference::Pty;
    let auto = TerminalBackendPreference::Auto;
    assert!(panel_backend(pty, false) == TerminalBackend::Pty);
    assert!(panel_backend(auto, false) == TerminalBackend::Ghostty);
    assert!(panel_backend(auto, true) == TerminalBackend::Pty);
    assert!(panel_backend(TerminalBackendPreference::Ghostty, true) == TerminalBackend::Pty);
    assert!(panel_backend(TerminalBackendPreference::Vte, false) == TerminalBackend::Vte);
}

#[test]
fn a_login_shell_has_a_dash() {
    assert_eq!(shell_arg0("/bin/bash"), "-bash");
    assert_eq!(shell_arg0("zsh"), "-zsh");
}

#[test]
fn only_the_newest_output_is_kept() {
    let mut capture = String::new();
    append_capture(&mut capture, "old");
    let long = "x".repeat(MAX_CAPTURE_BYTES);
    assert!(can_append(&capture, &long));
    append_capture(&mut capture, &long);
    assert_eq!(capture.len(), MAX_CAPTURE_BYTES);
    assert!(!capture.contains("old"));
    assert!(can_append(&capture, "\u{e9}"));
    append_capture(&mut capture, "\u{e9}");
    assert!(capture.ends_with("x\u{e9}"));
    assert!(!can_append(&"\u{e9}".repeat(MAX_CAPTURE_BYTES / 2), "a"));
}

#[test]
fn an_exited_terminal_is_not_live() {
    let capture = String::from("bye");
    let gone = pty_status(42, true, &capture);
    assert!(!gone.live && gone.exited);
    assert_eq!(gone.pid, 42);
    assert_eq!(gone.captured_bytes, 3);
    assert_eq!(gone.backend, "pty");
    let there = pty_status(42, false, &capture);
    assert!(there.live && !there.exited);
    let health = GhosttyGtkSurfaceHealth { alive: true, child_exited: true, rows: 24, cols: 80 };
    let ghost = ghostty_status(health, &capture);
    assert_eq!(ghost.backend, "ghostty");
    assert!(ghost.exited);
    assert!(!ghost.live);
}
