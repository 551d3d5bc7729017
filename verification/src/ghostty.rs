//! The in-process terminal renderer: whether it can be used, and how its
//! surfaces fare.

use crate::json::{optional_chars, optional_text_view, Json, JsonView, Object, ObjectView};
use crate::lists::{group_views, views};
use crate::page::copy_optional;
use crate::percent::{text_from_utf8_lossy, utf8_lossy};
use crate::text::{join2, owned};
use vstd::prelude::*;
use vstd::utf8::*;

verus! {

/// How a surface of the renderer fares.
#[derive(Clone, Copy)]
pub struct GhosttyGtkSurfaceHealth {
    pub alive: bool,
    pub child_exited: bool,
    pub rows: u32,
    pub cols: u32,
}

/// How a surface fares, as an object.
pub open spec fn health_value(h: GhosttyGtkSurfaceHealth) -> JsonView {
    ObjectView::new().with("alive"@, JsonView::Bool(h.alive)).with(
        "childExited"@,
        JsonView::Bool(h.child_exited),
    ).with("rows"@, JsonView::Unsigned(h.rows as u64)).with(
        "cols"@,
        JsonView::Unsigned(h.cols as u64),
    ).done()
}

/// How a surface fares, as an object.
pub fn health_json(h: &GhosttyGtkSurfaceHealth) -> (r: Json)
    ensures
        r@ == health_value(*h),
{
    Object::new().with("alive", Json::Bool(h.alive)).with("childExited", Json::Bool(h.child_exited)).with(
        "rows",
        Json::Unsigned(h.rows as u64),
    ).with("cols", Json::Unsigned(h.cols as u64)).done()
}

/// Whether the renderer can be used, and why not.
pub struct GhosttyStatus {
    pub available: bool,
    pub library_available: bool,
    pub renderer_available: bool,
    pub library_path: Option<String>,
    pub version: Option<String>,
    pub abi_version: Option<u32>,
    pub reason: Option<String>,
}

/// What the status of the renderer is.
pub struct GhosttyStatusView {
    pub available: bool,
    pub library_available: bool,
    pub renderer_available: bool,
    pub library_path: Option<Seq<char>>,
    pub version: Option<Seq<char>>,
    pub abi_version: Option<u32>,
    pub reason: Option<Seq<char>>,
}

impl View for GhosttyStatus {
    type V = GhosttyStatusView;

    open spec fn view(&self) -> GhosttyStatusView {
        GhosttyStatusView {
            available: self.available,
            library_available: self.library_available,
            renderer_available: self.renderer_available,
            library_path: optional_chars(self.library_path),
            version: optional_chars(self.version),
            abi_version: self.abi_version,
            reason: optional_chars(self.reason),
        }
    }
}

/// An optional number as a value: null where it is absent.
pub open spec fn optional_number(n: Option<u32>) -> JsonView {
    match n {
        Some(n) => JsonView::Unsigned(n as u64),
        None => JsonView::Null,
    }
}

/// An optional number as a value: null where it is absent.
pub fn optional_number_json(n: Option<u32>) -> (r: Json)
    ensures
        r@ == optional_number(n),
{
    match n {
        Some(n) => Json::Unsigned(n as u64),
        None => Json::Null,
    }
}

/// The status of the renderer as an object.
pub open spec fn status_value(s: GhosttyStatusView) -> JsonView {
    ObjectView::new().with("available"@, JsonView::Bool(s.available)).with(
        "libraryAvailable"@,
        JsonView::Bool(s.library_available),
    ).with("rendererAvailable"@, JsonView::Bool(s.renderer_available)).with(
        "libraryPath"@,
        optional_text_view(s.library_path),
    ).with("version"@, optional_text_view(s.version)).with(
        "abiVersion"@,
        optional_number(s.abi_version),
    ).with("reason"@, optional_text_view(s.reason)).done()
}

/// The status of the renderer as an object.
pub fn status_json(s: &GhosttyStatus) -> (r: Json)
    ensures
        r@ == status_value(s@),
{
    Object::new().with("available", Json::Bool(s.available)).with(
        "libraryAvailable",
        Json::Bool(s.library_available),
    ).with("rendererAvailable", Json::Bool(s.renderer_available)).with(
        "libraryPath",
        Json::optional_text(&s.library_path),
    ).with("version", Json::optional_text(&s.version)).with(
        "abiVersion",
        optional_number_json(s.abi_version),
    ).with("reason", Json::optional_text(&s.reason)).done()
}

// ---------------------------------------------------------------------------
// Where the library may be

/// Something the library may be loaded by: a path, which has to be there, or a
/// name that the loader looks up.
pub enum Candidate {
    Path(Vec<u8>),
    Library(String),
}

/// Something the library may be loaded by.
pub enum CandidateView {
    Path(Seq<u8>),
    Library(Seq<char>),
}

impl View for Candidate {
    type V = CandidateView;

    open spec fn view(&self) -> CandidateView {
        match *self {
            Candidate::Path(path) => CandidateView::Path(path@),
            Candidate::Library(name) => CandidateView::Library(name@),
        }
    }
}

/// The places that are always tried.
pub open spec fn usual_candidates() -> Seq<CandidateView> {
    seq![
        CandidateView::Path(encode_utf8("/usr/lib/cmux/libghostty-gtk-embed.so"@)),
        CandidateView::Path(encode_utf8("/usr/local/lib/libghostty-gtk-embed.so"@)),
        CandidateView::Library("libghostty-gtk-embed.so"@),
    ]
}

/// What is tried, in this order: what the environment says, unless it is empty,
/// and the usual places.
pub open spec fn candidate_views(given: Option<Seq<u8>>) -> Seq<CandidateView> {
    match given {
        Some(path) => if path.len() == 0 {
            usual_candidates()
        } else {
            seq![CandidateView::Path(path)] + usual_candidates()
        },
        None => usual_candidates(),
    }
}

/// What is tried.
pub fn candidates(given: Option<Vec<u8>>) -> (r: Vec<Candidate>)
    ensures
        views(r@) == candidate_views(
            match given {
                Some(path) => Some(path@),
                None => None,
            },
        ),
{
    broadcast use group_views;

    let mut list: Vec<Candidate> = Vec::new();
    if let Some(path) = given {
        if path.len() > 0 {
            list.push(Candidate::Path(path));
        }
    }
    let ghost before = list@;
    list.push(Candidate::Path("/usr/lib/cmux/libghostty-gtk-embed.so".as_bytes_vec()));
    list.push(Candidate::Path("/usr/local/lib/libghostty-gtk-embed.so".as_bytes_vec()));
    list.push(Candidate::Library(owned("libghostty-gtk-embed.so")));
    assert(views(list@) =~= views(before) + usual_candidates());
    assert(views(list@) =~= candidate_views(
        match given {
            Some(path) => Some(path@),
            None => None,
        },
    ));
    list
}

/// Why a candidate could not be opened.
pub enum LoadFailure {
    Absent(String),
    NulInPath(String),
    BadName,
    NotOpened(String, Option<String>),
}

/// The words for why a candidate could not be opened.
pub open spec fn failure_words(f: LoadFailure) -> Seq<char> {
    match f {
        LoadFailure::Absent(path) => path@ + " does not exist"@,
        LoadFailure::NulInPath(path) => path@ + " contains an interior NUL byte"@,
        LoadFailure::BadName => "invalid library name"@,
        LoadFailure::NotOpened(name, message) => match message {
            Some(m) => m@,
            None => "failed to open "@ + name@,
        },
    }
}

/// The words for why a candidate could not be opened.
pub fn failure_reason(f: &LoadFailure) -> (r: String)
    ensures
        r@ == failure_words(*f),
{
    match f {
        LoadFailure::Absent(path) => join2(path.as_str(), " does not exist"),
        LoadFailure::NulInPath(path) => join2(path.as_str(), " contains an interior NUL byte"),
        LoadFailure::BadName => owned("invalid library name"),
        LoadFailure::NotOpened(name, message) => match message {
            Some(m) => m.clone(),
            None => join2("failed to open ", name.as_str()),
        },
    }
}

// ---------------------------------------------------------------------------
// Whether it works

/// What a library that was opened did when it was tried. One that lacks a
/// symbol cannot be used at all.
pub enum Probe {
    NoSymbol(String),
    InitFailed,
    NoSurface { version: Option<String>, abi_version: u32 },
    Works { version: Option<String>, abi_version: u32 },
}

/// The status of the renderer after its library was tried.
pub open spec fn probed(library_path: Seq<char>, probe: Probe) -> GhosttyStatusView {
    match probe {
        Probe::NoSymbol(name) => GhosttyStatusView {
            available: false,
            library_available: true,
            renderer_available: false,
            library_path: Some(library_path),
            version: None,
            abi_version: None,
            reason: Some("missing symbol "@ + name@),
        },
        Probe::InitFailed => GhosttyStatusView {
            available: false,
            library_available: true,
            renderer_available: false,
            library_path: Some(library_path),
            version: None,
            abi_version: None,
            reason: Some("libghostty-gtk-embed initialized with an error"@),
        },
        Probe::NoSurface { version, abi_version } => GhosttyStatusView {
            available: false,
            library_available: true,
            renderer_available: false,
            library_path: Some(library_path),
            version: optional_chars(version),
            abi_version: Some(abi_version),
            reason: Some("libghostty-gtk-embed could not create a probe surface"@),
        },
        Probe::Works { version, abi_version } => GhosttyStatusView {
            available: true,
            library_available: true,
            renderer_available: true,
            library_path: Some(library_path),
            version: optional_chars(version),
            abi_version: Some(abi_version),
            reason: None,
        },
    }
}

/// The status of the renderer after its library was tried.
pub fn probe_status(library_path: &str, probe: &Probe) -> (r: GhosttyStatus)
    ensures
        r@ == probed(library_path@, *probe),
{
    match probe {
        Probe::NoSymbol(name) => GhosttyStatus {
            available: false,
            library_available: true,
            renderer_available: false,
            library_path: Some(owned(library_path)),
            version: None,
            abi_version: None,
            reason: Some(join2("missing symbol ", name.as_str())),
        },
        Probe::InitFailed => GhosttyStatus {
            available: false,
            library_available: true,
            renderer_available: false,
            library_path: Some(owned(library_path)),
            version: None,
            abi_version: None,
            reason: Some(owned("libghostty-gtk-embed initialized with an error")),
        },
        Probe::NoSurface { version, abi_version } => GhosttyStatus {
            available: false,
            library_available: true,
            renderer_available: false,
            library_path: Some(owned(library_path)),
            version: copy_optional(version),
            abi_version: Some(*abi_version),
            reason: Some(owned("libghostty-gtk-embed could not create a probe surface")),
        },
        Probe::Works { version, abi_version } => GhosttyStatus {
            available: true,
            library_available: true,
            renderer_available: true,
            library_path: Some(owned(library_path)),
            version: copy_optional(version),
            abi_version: Some(*abi_version),
            reason: None,
        },
    }
}

/// The version that a library says, if it says one.
pub fn version_text(bytes: &Vec<u8>) -> (r: Option<String>)
    ensures
        optional_chars(r) == (if bytes@.len() == 0 {
            None
        } else {
            Some(utf8_lossy(bytes@))
        }),
{
    if bytes.len() == 0 {
        None
    } else {
        Some(text_from_utf8_lossy(bytes))
    }
}

/// The status of a renderer whose library could not be opened.
pub open spec fn unavailable(reason: Seq<char>) -> GhosttyStatusView {
    GhosttyStatusView {
        available: false,
        library_available: false,
        renderer_available: false,
        library_path: None,
        version: None,
        abi_version: None,
        reason: Some(reason),
    }
}

/// What is said where nothing was tried.
pub const NOT_FOUND: &'static str = "libghostty-gtk-embed was not found; using the Linux PTY fallback";

/// What came of a candidate: it was opened, by this name, and tried, or it
/// could not be opened.
pub enum Attempt {
    Opened(String, Probe),
    Failed(LoadFailure),
}

/// Whether no other candidate is tried after this: it was opened and has all
/// that is needed.
pub open spec fn settles(attempt: Attempt) -> bool {
    attempt is Opened && !(attempt->Opened_1 is NoSymbol)
}

/// Whether one of the attempts ended the search.
pub open spec fn settled(attempts: Seq<Attempt>) -> bool {
    exists|i: int| 0 <= i < attempts.len() && settles(#[trigger] attempts[i])
}

/// The status after one more attempt, given that before.
pub open spec fn told(before: GhosttyStatusView, attempt: Attempt) -> GhosttyStatusView {
    match attempt {
        Attempt::Opened(name, probe) => probed(name@, probe),
        Attempt::Failed(failure) => if before.library_available {
            before
        } else {
            unavailable(failure_words(failure))
        },
    }
}

/// The status of the renderer: that of the first candidate with all that is
/// needed; where there is none, that of the last one that was opened; where
/// none was, that there is none, with the last reason.
pub open spec fn loaded(attempts: Seq<Attempt>) -> GhosttyStatusView
    decreases attempts.len(),
{
    if attempts.len() == 0 {
        unavailable(NOT_FOUND@)
    } else if settled(attempts.drop_last()) {
        loaded(attempts.drop_last())
    } else {
        told(loaded(attempts.drop_last()), attempts.last())
    }
}

/// Whether another candidate is tried: none has all that is needed yet, and one
/// is left.
pub open spec fn tries_more(attempts: Seq<Attempt>, candidates: nat) -> bool {
    attempts.len() < candidates && !settled(attempts)
}

/// Whether no other candidate is tried after this.
fn attempt_settles(attempt: &Attempt) -> (r: bool)
    ensures
        r == settles(*attempt),
{
    match attempt {
        Attempt::Opened(_, Probe::NoSymbol(_)) => false,
        Attempt::Opened(_, _) => true,
        Attempt::Failed(_) => false,
    }
}

/// Whether another candidate is tried.
pub fn try_another(attempts: &Vec<Attempt>, candidates: usize) -> (r: bool)
    ensures
        r == tries_more(attempts@, candidates as nat),
{
    if attempts.len() >= candidates {
        return false;
    }
    let mut i: usize = 0;
    while i < attempts.len()
        invariant
            i <= attempts@.len(),
            forall|j: int| 0 <= j < i ==> !settles(#[trigger] attempts@[j]),
        decreases attempts@.len() - i,
    {
        if attempt_settles(&attempts[i]) {
            assert(settles(attempts@[i as int]));
            return false;
        }
        i += 1;
    }
    true
}

/// The status of a renderer whose library could not be opened.
fn unavailable_status(reason: &str) -> (r: GhosttyStatus)
    ensures
        r@ == unavailable(reason@),
{
    GhosttyStatus {
        available: false,
        library_available: false,
        renderer_available: false,
        library_path: None,
        version: None,
        abi_version: None,
        reason: Some(owned(reason)),
    }
}

/// The status of the renderer, given what came of the candidates.
pub fn status(attempts: &Vec<Attempt>) -> (r: GhosttyStatus)
    ensures
        r@ == loaded(attempts@),
{
    let mut told = unavailable_status(NOT_FOUND);
    let mut i: usize = 0;
    assert(attempts@.take(0) =~= Seq::empty());
    while i < attempts.len()
        invariant
            i <= attempts@.len(),
            told@ == loaded(attempts@.take(i as int)),
            forall|j: int| 0 <= j < i ==> !settles(#[trigger] attempts@[j]),
        decreases attempts@.len() - i,
    {
        assert(attempts@.take(i + 1).drop_last() =~= attempts@.take(i as int));
        match &attempts[i] {
            Attempt::Opened(name, probe) => {
                told = probe_status(name.as_str(), probe);
            },
            Attempt::Failed(failure) => {
                if !told.library_available {
                    told = unavailable_status(failure_reason(failure).as_str());
                }
            },
        }
        if attempt_settles(&attempts[i]) {
            proof {
                lemma_first_settles(attempts@, i as int, attempts@.len() as int);
            }
            assert(attempts@.take(attempts@.len() as int) =~= attempts@);
            return told;
        }
        i += 1;
    }
    assert(attempts@.take(i as int) =~= attempts@);
    told
}

/// What comes after the first candidate with all that is needed changes
/// nothing.
proof fn lemma_first_settles(attempts: Seq<Attempt>, n: int, count: int)
    requires
        0 <= n < count <= attempts.len(),
        settles(attempts[n]),
        forall|i: int| 0 <= i < n ==> !settles(#[trigger] attempts[i]),
    ensures
        loaded(attempts.take(count)) == probed(attempts[n]->Opened_0@, attempts[n]->Opened_1),
    decreases count,
{
    let these = attempts.take(count);
    assert(these.drop_last() =~= attempts.take(count - 1));
    if n < count - 1 {
        assert(these.drop_last()[n] == attempts[n]);
        lemma_first_settles(attempts, n, count - 1);
    }
}

/// Whether the renderer can be used.
pub fn renderer_available(status: &GhosttyStatus) -> (r: bool)
    ensures
        r == status@.renderer_available,
{
    status.renderer_available
}

/// Whether a status makes sense: the renderer is there just where everything
/// is, it needs its library, and there is a reason just where it is not there.
pub open spec fn is_sound(s: GhosttyStatusView) -> bool {
    &&& s.available == s.renderer_available
    &&& s.renderer_available ==> s.library_available
    &&& s.library_available == (s.library_path is Some)
    &&& s.available == (s.reason is None)
}

/// Every status of a library that was tried makes sense.
pub proof fn law_probed_status_is_sound(library_path: Seq<char>, probe: Probe)
    ensures
        is_sound(probed(library_path, probe)),
{
}

/// The status of the renderer is that of the first candidate with all that is
/// needed, whatever else was tried.
pub proof fn law_loaded_status_is_the_first(attempts: Seq<Attempt>, n: int)
    requires
        0 <= n < attempts.len(),
        settles(attempts[n]),
        forall|i: int| 0 <= i < n ==> !settles(#[trigger] attempts[i]),
    ensures
        loaded(attempts) == probed(attempts[n]->Opened_0@, attempts[n]->Opened_1),
{
    lemma_first_settles(attempts, n, attempts.len() as int);
    assert(attempts.take(attempts.len() as int) =~= attempts);
}

/// Where no candidate has all that is needed, the status of the renderer is
/// that of the last one that was opened.
pub proof fn law_opened_status_is_the_last(attempts: Seq<Attempt>, n: int)
    requires
        0 <= n < attempts.len(),
        !settled(attempts),
        attempts[n] is Opened,
        forall|i: int| n < i < attempts.len() ==> (#[trigger] attempts[i]) is Failed,
    ensures
        loaded(attempts) == probed(attempts[n]->Opened_0@, attempts[n]->Opened_1),
    decreases attempts.len(),
{
    let before = attempts.drop_last();
    assert forall|i: int| 0 <= i < before.len() implies !settles(#[trigger] before[i]) by {
        assert(before[i] == attempts[i]);
    }
    if n < attempts.len() - 1 {
        assert(before[n] == attempts[n]);
        assert forall|i: int| n < i < before.len() implies (#[trigger] before[i]) is Failed by {
            assert(before[i] == attempts[i]);
        }
        law_opened_status_is_the_last(before, n);
    }
}

/// Where no candidate was opened, the status of the renderer says why the last
/// one was not.
pub proof fn law_unopened_status_says_why(attempts: Seq<Attempt>)
    requires
        forall|i: int| 0 <= i < attempts.len() ==> (#[trigger] attempts[i]) is Failed,
    ensures
        loaded(attempts) == (if attempts.len() == 0 {
            unavailable(NOT_FOUND@)
        } else {
            unavailable(failure_words(attempts.last()->Failed_0))
        }),
    decreases attempts.len(),
{
    if attempts.len() > 0 {
        let before = attempts.drop_last();
        assert forall|i: int| 0 <= i < before.len() implies (#[trigger] before[i]) is Failed by {
            assert(before[i] == attempts[i]);
        }
        law_unopened_status_says_why(before);
    }
}

/// Whatever was tried, the status of the renderer makes sense. It says that the
/// library is there just where a candidate was opened, and that the renderer is
/// there only where a candidate has all that is needed.
pub proof fn law_status_tells_what_was_opened(attempts: Seq<Attempt>)
    ensures
        is_sound(loaded(attempts)),
        loaded(attempts).library_available == (exists|i: int|
            0 <= i < attempts.len() && (#[trigger] attempts[i]) is Opened),
        loaded(attempts).renderer_available ==> settled(attempts),
    decreases attempts.len(),
{
    if attempts.len() > 0 {
        let before = attempts.drop_last();
        let last = attempts.last();
        law_status_tells_what_was_opened(before);
        assert(last == attempts[attempts.len() - 1]);
        assert(forall|i: int| 0 <= i < before.len() ==> #[trigger] before[i] == attempts[i]);
        assert(forall|i: int|
            0 <= i < attempts.len() - 1 ==> #[trigger] attempts[i] == before[i]);
    }
}

} // verus!
