//! Terminals: how they fare, the text they print, and the bytes that keys send
//! them.

use crate::ghostty::{health_json, health_value, GhosttyGtkSurfaceHealth};
use crate::json::{integer_view, Json, JsonView, Object, ObjectView};
use crate::settings::TerminalBackendPreference;
use crate::text::{join2, last_part, last_part_of, owned};
use vstd::prelude::*;
use vstd::utf8::*;

verus! {

/// How a terminal fares.
pub struct TerminalStatus {
    pub backend: String,
    pub live: bool,
    pub pid: i32,
    pub exited: bool,
    pub captured_bytes: usize,
    pub ghostty: Option<GhosttyGtkSurfaceHealth>,
}

/// What the status of a terminal is.
pub struct TerminalStatusView {
    pub backend: Seq<char>,
    pub live: bool,
    pub pid: i32,
    pub exited: bool,
    pub captured_bytes: usize,
    pub ghostty: Option<GhosttyGtkSurfaceHealth>,
}

impl View for TerminalStatus {
    type V = TerminalStatusView;

    open spec fn view(&self) -> TerminalStatusView {
        TerminalStatusView {
            backend: self.backend@,
            live: self.live,
            pid: self.pid,
            exited: self.exited,
            captured_bytes: self.captured_bytes,
            ghostty: self.ghostty,
        }
    }
}

/// The status of a terminal as an object.
pub open spec fn terminal_value(s: TerminalStatusView) -> JsonView {
    let base = ObjectView::new().with("backend"@, JsonView::Text(s.backend)).with(
        "live"@,
        JsonView::Bool(s.live),
    ).with("pid"@, integer_view(s.pid as i64)).with("exited"@, JsonView::Bool(s.exited)).with(
        "captured_bytes"@,
        JsonView::Unsigned(s.captured_bytes as u64),
    );
    match s.ghostty {
        Some(h) => base.with("ghostty"@, health_value(h)).done(),
        None => base.done(),
    }
}

/// The status of a terminal as an object.
pub fn terminal_json(s: &TerminalStatus) -> (r: Json)
    ensures
        r@ == terminal_value(s@),
{
    let base = Object::new().with("backend", Json::text(s.backend.as_str())).with(
        "live",
        Json::Bool(s.live),
    ).with("pid", Json::integer(s.pid as i64)).with("exited", Json::Bool(s.exited)).with(
        "captured_bytes",
        Json::count(s.captured_bytes),
    );
    match &s.ghostty {
        Some(h) => base.with("ghostty", health_json(h)).done(),
        None => base.done(),
    }
}

// ---------------------------------------------------------------------------
// Which terminal is made

/// A terminal that can be made.
#[derive(Clone, Copy, PartialEq, Eq, Structural)]
pub enum TerminalBackend {
    Pty,
    Vte,
    Ghostty,
}

/// The terminal that is tried first.
pub open spec fn wanted_backend(preference: TerminalBackendPreference) -> TerminalBackend {
    match preference {
        TerminalBackendPreference::Pty => TerminalBackend::Pty,
        TerminalBackendPreference::Vte => TerminalBackend::Vte,
        TerminalBackendPreference::Ghostty => TerminalBackend::Ghostty,
        TerminalBackendPreference::Auto => TerminalBackend::Ghostty,
    }
}

/// The terminal that is made: the one that is wanted, or one on a
/// pseudoterminal where that could not be made.
pub open spec fn made_backend(preference: TerminalBackendPreference, failed: bool) -> TerminalBackend {
    if failed {
        TerminalBackend::Pty
    } else {
        wanted_backend(preference)
    }
}

/// The terminal that is made, given whether the wanted one could not be.
pub fn panel_backend(preference: TerminalBackendPreference, failed: bool) -> (r: TerminalBackend)
    ensures
        r == made_backend(preference, failed),
{
    if failed {
        return TerminalBackend::Pty;
    }
    match preference {
        TerminalBackendPreference::Pty => TerminalBackend::Pty,
        TerminalBackendPreference::Vte => TerminalBackend::Vte,
        TerminalBackendPreference::Ghostty => TerminalBackend::Ghostty,
        TerminalBackendPreference::Auto => TerminalBackend::Ghostty,
    }
}

/// Who prefers a pseudoterminal never gets another terminal, and a terminal
/// that could not be made is always replaced by a pseudoterminal.
pub proof fn law_pseudoterminals_are_the_last_resort(
    preference: TerminalBackendPreference,
    failed: bool,
)
    ensures
        preference == TerminalBackendPreference::Pty ==> made_backend(preference, failed)
            == TerminalBackend::Pty,
        failed ==> made_backend(preference, failed) == TerminalBackend::Pty,
        made_backend(TerminalBackendPreference::Auto, failed) == made_backend(
            TerminalBackendPreference::Ghostty,
            failed,
        ),
{
}

/// The name that a login shell is started under.
pub open spec fn login_name(shell: Seq<char>) -> Seq<char> {
    if last_part(shell).len() == 0 {
        "-"@ + "sh"@
    } else {
        "-"@ + last_part(shell)
    }
}

/// The name that a login shell is started under.
pub fn shell_arg0(shell: &str) -> (r: String)
    ensures
        r@ == login_name(shell@),
{
    let name = last_part_of(shell);
    if name.as_str().is_empty() {
        join2("-", "sh")
    } else {
        join2("-", name.as_str())
    }
}

// ---------------------------------------------------------------------------
// What a terminal printed

/// How many bytes of what a terminal printed are kept.
pub const MAX_CAPTURE_BYTES: usize = 262144;

/// How many bytes go so that a number of them is kept.
pub open spec fn excess(bytes: Seq<u8>) -> int {
    if bytes.len() > MAX_CAPTURE_BYTES {
        bytes.len() - MAX_CAPTURE_BYTES
    } else {
        0
    }
}

/// The bytes that are kept: the last of them.
pub open spec fn kept_bytes(bytes: Seq<u8>) -> Seq<u8> {
    bytes.skip(excess(bytes))
}

/// Whether the bytes that are kept start with a whole character.
pub open spec fn cut_between_characters(text: Seq<char>) -> bool {
    is_char_boundary(encode_utf8(text), excess(encode_utf8(text)))
}

/// Whether what a terminal printed can be cut after a text was put behind it.
pub fn can_append(capture: &String, text: &str) -> (r: bool)
    ensures
        r == cut_between_characters(capture@ + text@),
{
    let whole = join2(capture.as_str(), text);
    let length: usize = whole.as_str().as_bytes().len();
    let cut: usize = if length > MAX_CAPTURE_BYTES {
        length - MAX_CAPTURE_BYTES
    } else {
        0
    };
    whole.as_str().is_char_boundary(cut)
}

/// Puts a text behind what a terminal printed. The last bytes are kept.
pub fn append_capture(capture: &mut String, text: &str)
    requires
        cut_between_characters(old(capture)@ + text@),
    ensures
        encode_utf8(final(capture)@) == kept_bytes(encode_utf8(old(capture)@ + text@)),
{
    let ghost whole = capture@ + text@;
    capture.push_str(text);
    let length: usize = capture.as_str().as_bytes().len();
    if length > MAX_CAPTURE_BYTES {
        let tail = {
            let (_, tail) = capture.as_str().split_at(length - MAX_CAPTURE_BYTES);
            assert(encode_utf8(tail@) =~= kept_bytes(encode_utf8(whole)));
            owned(tail)
        };
        *capture = tail;
    } else {
        assert(kept_bytes(encode_utf8(whole)) =~= encode_utf8(whole));
    }
}

/// No more than so many bytes of what a terminal printed are kept, and the
/// newest are among them.
pub proof fn law_the_newest_output_is_kept(bytes: Seq<u8>, i: int)
    ensures
        kept_bytes(bytes).len() <= MAX_CAPTURE_BYTES,
        0 <= i < bytes.len() && bytes.len() - i <= MAX_CAPTURE_BYTES ==> kept_bytes(bytes)[i
            - excess(bytes)] == bytes[i],
{
}

// ---------------------------------------------------------------------------
// How a terminal fares

/// How a terminal on a pseudoterminal fares.
pub open spec fn pty_status_view(pid: i32, exited: bool, captured_bytes: usize) -> TerminalStatusView {
    TerminalStatusView {
        backend: "pty"@,
        live: !exited,
        pid,
        exited,
        captured_bytes,
        ghostty: None,
    }
}

/// How a terminal of the renderer fares.
pub open spec fn ghostty_status_view(
    health: GhosttyGtkSurfaceHealth,
    captured_bytes: usize,
) -> TerminalStatusView {
    TerminalStatusView {
        backend: "ghostty"@,
        live: health.alive && !health.child_exited,
        pid: 0,
        exited: health.child_exited,
        captured_bytes,
        ghostty: Some(health),
    }
}

/// How a terminal on a pseudoterminal fares.
pub fn pty_status(pid: i32, exited: bool, capture: &String) -> (r: TerminalStatus)
    ensures
        r@ == pty_status_view(pid, exited, encode_utf8(capture@).len() as usize),
{
    TerminalStatus {
        backend: owned("pty"),
        live: !exited,
        pid,
        exited,
        captured_bytes: capture.as_str().len(),
        ghostty: None,
    }
}

/// How a terminal of the renderer fares.
pub fn ghostty_status(health: GhosttyGtkSurfaceHealth, capture: &String) -> (r: TerminalStatus)
    ensures
        r@ == ghostty_status_view(health, encode_utf8(capture@).len() as usize),
{
    TerminalStatus {
        backend: owned("ghostty"),
        live: health.alive && !health.child_exited,
        pid: 0,
        exited: health.child_exited,
        captured_bytes: capture.as_str().len(),
        ghostty: Some(health),
    }
}

/// A terminal whose program has ended is not live.
pub proof fn law_an_exited_terminal_is_not_live(
    pid: i32,
    exited: bool,
    health: GhosttyGtkSurfaceHealth,
    captured_bytes: usize,
)
    ensures
        exited ==> !pty_status_view(pid, exited, captured_bytes).live,
        health.child_exited ==> !ghostty_status_view(health, captured_bytes).live,
{
}

} // verus!
