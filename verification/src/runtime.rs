//! What is known of a live browser view: the frame that scripts run in, what
//! its page reported, its dialogs and its downloads.

use crate::host::{ScriptReply, ScriptView};
use crate::json::{
    items_view, json_from_str, lemma_array_view, optional_chars, optional_view, parsed_json, Json,
    JsonView,
};
use crate::lists::{group_views, views};
use crate::markup::{char_position, find_char};
use crate::page::copy_optional;
use crate::script::{around, around_text};
use crate::text::{
    chars_of, decimal, decimal_of, has_prefix, join2, join3, last_part, last_part_of, owned, same,
    signed_decimal, signed_decimal_of, strip_prefix, text_between, text_of,
};
use crate::webview::{
    BrowserEvent, DialogInfo, DialogView, DownloadInfo, DownloadView, EventView, NOT_LIVE,
};
use crate::workspaces::or_text;
use vstd::prelude::*;

verus! {

/// How many events of a page are kept.
pub const MAX_EVENTS: usize = 200;

/// How many dialogs of a page are kept.
pub const MAX_DIALOGS: usize = 20;

/// How many downloads of a page are kept.
pub const MAX_DOWNLOADS: usize = 50;

/// A dialog, and the number by which the view knows it.
pub struct DialogRecord {
    pub info: DialogInfo,
    pub dialog: usize,
}

/// A dialog, and the number by which the view knows it.
pub struct DialogRecordView {
    pub info: DialogView,
    pub dialog: usize,
}

impl View for DialogRecord {
    type V = DialogRecordView;

    open spec fn view(&self) -> DialogRecordView {
        DialogRecordView { info: self.info@, dialog: self.dialog }
    }
}

/// What is known of a live browser view.
pub struct RuntimeRecord {
    pub active_frame_selector: Option<String>,
    pub console: Vec<BrowserEvent>,
    pub errors: Vec<BrowserEvent>,
    pub dialogs: Vec<DialogRecord>,
    pub downloads: Vec<DownloadInfo>,
}

/// What is known of a live browser view.
#[verifier::ext_equal]
pub struct RuntimeView {
    pub active_frame_selector: Option<Seq<char>>,
    pub console: Seq<EventView>,
    pub errors: Seq<EventView>,
    pub dialogs: Seq<DialogRecordView>,
    pub downloads: Seq<DownloadView>,
}

impl View for RuntimeRecord {
    type V = RuntimeView;

    open spec fn view(&self) -> RuntimeView {
        RuntimeView {
            active_frame_selector: optional_chars(self.active_frame_selector),
            console: views(self.console@),
            errors: views(self.errors@),
            dialogs: views(self.dialogs@),
            downloads: views(self.downloads@),
        }
    }
}

/// The newest items of a list.
pub open spec fn newest<T>(s: Seq<T>, max: int) -> Seq<T> {
    if s.len() > max {
        s.skip(s.len() - max)
    } else {
        s
    }
}

/// Keeps the newest items of a list.
fn trim_vec<T: View>(items: &mut Vec<T>, max: usize)
    ensures
        views(final(items)@) == newest(views(old(items)@), max as int),
{
    broadcast use group_views;

    let length: usize = items.len();
    if length > max {
        let tail = items.split_off(length - max);
        *items = tail;
        assert(views(items@) =~= newest(views(old(items)@), max as int));
    }
}

impl RuntimeView {
    /// What is known of a view that was just made.
    pub open spec fn fresh() -> RuntimeView {
        RuntimeView {
            active_frame_selector: None,
            console: Seq::empty(),
            errors: Seq::empty(),
            dialogs: Seq::empty(),
            downloads: Seq::empty(),
        }
    }

    /// After an event of the console.
    pub open spec fn logged(self, event: EventView) -> RuntimeView {
        RuntimeView { console: newest(self.console.push(event), MAX_EVENTS as int), ..self }
    }

    /// After an error.
    pub open spec fn failed(self, event: EventView) -> RuntimeView {
        RuntimeView { errors: newest(self.errors.push(event), MAX_EVENTS as int), ..self }
    }

    /// After a dialog was opened.
    pub open spec fn asked(self, dialog: DialogRecordView) -> RuntimeView {
        RuntimeView { dialogs: newest(self.dialogs.push(dialog), MAX_DIALOGS as int), ..self }
    }

    /// After a download was started.
    pub open spec fn started(self, download: DownloadView) -> RuntimeView {
        RuntimeView { downloads: newest(self.downloads.push(download), MAX_DOWNLOADS as int), ..self }
    }

    /// Whether no list is longer than it may be.
    pub open spec fn is_bounded(self) -> bool {
        &&& self.console.len() <= MAX_EVENTS
        &&& self.errors.len() <= MAX_EVENTS
        &&& self.dialogs.len() <= MAX_DIALOGS
        &&& self.downloads.len() <= MAX_DOWNLOADS
    }
}

// ---------------------------------------------------------------------------
// Downloads

/// A text without the marks of a file URL before it.
pub open spec fn without_scheme(s: Seq<char>) -> Seq<char>
    decreases s.len(),
{
    if has_prefix(s, "file://"@) && "file://"@.len() > 0 {
        without_scheme(s.skip("file://"@.len() as int))
    } else {
        s
    }
}

/// A change of a download.
pub enum DownloadChange {
    Created { destination: String, received_bytes: u64 },
    Receiving { received_bytes: u64 },
    Failed { received_bytes: u64, error: String },
    Finished { received_bytes: u64, destination: String },
}

/// A download after a change.
pub open spec fn download_after(d: DownloadView, change: DownloadChange) -> DownloadView {
    match change {
        DownloadChange::Created { destination, received_bytes } => DownloadView {
            path: without_scheme(destination@),
            status: "created"@,
            received_bytes,
            ..d
        },
        DownloadChange::Receiving { received_bytes } => DownloadView {
            status: "receiving"@,
            received_bytes,
            ..d
        },
        DownloadChange::Failed { received_bytes, error } => DownloadView {
            status: "failed"@,
            received_bytes,
            error: Some(error@),
            ..d
        },
        DownloadChange::Finished { received_bytes, destination } => DownloadView {
            status: if d.status == "failed"@ {
                d.status
            } else {
                "finished"@
            },
            received_bytes,
            path: if destination@.len() == 0 {
                d.path
            } else {
                without_scheme(destination@)
            },
            ..d
        },
    }
}

/// The place of the first download, from `i` on, with an id.
pub open spec fn download_from(downloads: Seq<DownloadView>, id: Seq<char>, i: int) -> Option<int>
    decreases downloads.len() - i,
{
    if i < 0 || i >= downloads.len() {
        None
    } else if downloads[i].id == id {
        Some(i)
    } else {
        download_from(downloads, id, i + 1)
    }
}

/// A download that was found stands in the list.
pub proof fn lemma_download_from(downloads: Seq<DownloadView>, id: Seq<char>, i: int)
    requires
        0 <= i,
    ensures
        download_from(downloads, id, i) matches Some(j) ==> i <= j < downloads.len()
            && downloads[j].id == id,
    decreases downloads.len() - i,
{
    if i < downloads.len() {
        lemma_download_from(downloads, id, i + 1);
    }
}

/// The downloads after a change of the one with an id, if there is one.
pub open spec fn downloads_after(
    downloads: Seq<DownloadView>,
    id: Seq<char>,
    change: DownloadChange,
) -> Seq<DownloadView> {
    match download_from(downloads, id, 0) {
        Some(i) => downloads.update(i, download_after(downloads[i], change)),
        None => downloads,
    }
}

/// Whether a download is over.
pub open spec fn is_over(d: DownloadView) -> bool {
    d.status == "finished"@ || d.status == "failed"@
}

/// The newest download that is over.
pub open spec fn newest_over(downloads: Seq<DownloadView>) -> Option<DownloadView>
    decreases downloads.len(),
{
    if downloads.len() == 0 {
        None
    } else if is_over(downloads.last()) {
        Some(downloads.last())
    } else {
        newest_over(downloads.drop_last())
    }
}

/// What a wait for a download comes to, given whether the time is up; nothing
/// yet where it goes on.
pub open spec fn download_wait(
    runtime: Option<RuntimeView>,
    time_is_up: bool,
) -> Option<Result<DownloadView, Seq<char>>> {
    match runtime {
        None => Some(Err(NOT_LIVE@)),
        Some(r) => match newest_over(r.downloads) {
            Some(d) => Some(Ok(d)),
            None => if time_is_up {
                Some(Err("download timed out"@))
            } else {
                None
            },
        },
    }
}

/// The name of a download: the last part of its address, up to a question mark.
pub open spec fn download_name(url: Seq<char>) -> Seq<char> {
    let last = last_part(url);
    let name = match find_char(last, '?', 0) {
        Some(i) => last.take(i),
        None => last,
    };
    if name.len() == 0 {
        "download.bin"@
    } else {
        name
    }
}

/// Whether a character may stand in the name of a file.
pub open spec fn is_plain(c: char) -> bool {
    let n = c as int;
    48 <= n <= 57 || 65 <= n <= 90 || 97 <= n <= 122 || c == '.' || c == '-' || c == '_'
}

/// A character of the name of a file; an underscore stands for those that may
/// not.
pub open spec fn plain_char(c: char) -> char {
    if is_plain(c) {
        c
    } else {
        '_'
    }
}

/// The name of the file that a download goes to.
pub open spec fn download_file_name(url: Seq<char>, id: Seq<char>) -> Seq<char> {
    id + "-"@ + download_name(url).map_values(|c: char| plain_char(c))
}

/// A text without the marks of a file URL before it.
pub fn strip_scheme(s: &str) -> (r: String)
    ensures
        r@ == without_scheme(s@),
{
    let mut rest = owned(s);
    proof {
        reveal_strlit("file://");
    }
    assert("file://"@.len() == 7);
    loop
        invariant
            without_scheme(rest@) == without_scheme(s@),
            "file://"@.len() == 7,
        decreases rest@.len(),
    {
        match strip_prefix(rest.as_str(), "file://") {
            Some(next) => {
                rest = next;
            },
            None => {
                return rest;
            },
        }
    }
}

/// Changes a download.
fn change_download(d: &mut DownloadInfo, change: &DownloadChange)
    ensures
        final(d)@ == download_after(old(d)@, *change),
{
    match change {
        DownloadChange::Created { destination, received_bytes } => {
            d.path = strip_scheme(destination.as_str());
            d.status = owned("created");
            d.received_bytes = *received_bytes;
        },
        DownloadChange::Receiving { received_bytes } => {
            d.status = owned("receiving");
            d.received_bytes = *received_bytes;
        },
        DownloadChange::Failed { received_bytes, error } => {
            d.status = owned("failed");
            d.received_bytes = *received_bytes;
            d.error = Some(error.clone());
        },
        DownloadChange::Finished { received_bytes, destination } => {
            if !same(d.status.as_str(), "failed") {
                d.status = owned("finished");
            }
            d.received_bytes = *received_bytes;
            if !destination.as_str().is_empty() {
                d.path = strip_scheme(destination.as_str());
            }
        },
    }
}

/// A copy of a download.
fn copy_download(d: &DownloadInfo) -> (r: DownloadInfo)
    ensures
        r@ == d@,
{
    DownloadInfo {
        id: d.id.clone(),
        url: d.url.clone(),
        path: d.path.clone(),
        status: d.status.clone(),
        received_bytes: d.received_bytes,
        error: copy_optional(&d.error),
    }
}

/// A character of the name of a file.
fn plain_of(c: char) -> (r: char)
    ensures
        r == plain_char(c),
{
    let n: u32 = c as u32;
    if (48 <= n && n <= 57) || (65 <= n && n <= 90) || (97 <= n && n <= 122) || c == '.' || c == '-'
        || c == '_' {
        c
    } else {
        '_'
    }
}

/// The name of a download.
fn name_of_download(url: &str) -> (r: String)
    ensures
        r@ == download_name(url@),
{
    let last = last_part_of(url);
    let v = chars_of(last.as_str());
    let end: usize = match char_position(&v, '?', 0) {
        Some(i) => i,
        None => v.len(),
    };
    let name = text_between(&v, 0, end);
    assert(name@ =~= v@.take(end as int));
    assert(v@.take(v@.len() as int) =~= v@);
    if name.as_str().is_empty() {
        owned("download.bin")
    } else {
        name
    }
}

/// The name of the file that a download goes to.
pub fn file_name_of_download(url: &str, id: &str) -> (r: String)
    ensures
        r@ == download_file_name(url@, id@),
{
    let name = name_of_download(url);
    let v = chars_of(name.as_str());
    let mut safe: Vec<char> = Vec::new();
    let mut i: usize = 0;
    while i < v.len()
        invariant
            i <= v@.len(),
            safe@ =~= v@.take(i as int).map_values(|c: char| plain_char(c)),
        decreases v@.len() - i,
    {
        safe.push(plain_of(v[i]));
        i += 1;
    }
    assert(v@.take(i as int) =~= v@);
    join3(id, "-", text_of(&safe).as_str())
}

// ---------------------------------------------------------------------------
// Dialogs

/// What kind of dialog a number stands for.
pub open spec fn dialog_kind_text(kind: i32) -> Seq<char> {
    if kind == 0 {
        "alert"@
    } else if kind == 1 {
        "confirm"@
    } else if kind == 2 {
        "prompt"@
    } else if kind == 3 {
        "before_unload_confirm"@
    } else {
        "unknown"@
    }
}

/// What kind of dialog a number stands for.
pub fn dialog_kind(kind: i32) -> (r: String)
    ensures
        r@ == dialog_kind_text(kind),
{
    if kind == 0 {
        owned("alert")
    } else if kind == 1 {
        owned("confirm")
    } else if kind == 2 {
        owned("prompt")
    } else if kind == 3 {
        owned("before_unload_confirm")
    } else {
        owned("unknown")
    }
}

/// What a dialog is told before it is closed.
pub enum DialogAnswer {
    Confirm(bool),
    Prompt(String),
    Nothing,
}

/// What a dialog is told before it is closed.
pub enum DialogAnswerView {
    Confirm(bool),
    Prompt(Seq<char>),
    Nothing,
}

impl View for DialogAnswer {
    type V = DialogAnswerView;

    open spec fn view(&self) -> DialogAnswerView {
        match *self {
            DialogAnswer::Confirm(b) => DialogAnswerView::Confirm(b),
            DialogAnswer::Prompt(s) => DialogAnswerView::Prompt(s@),
            DialogAnswer::Nothing => DialogAnswerView::Nothing,
        }
    }
}

/// What a dialog of a kind is told: a question is answered, a prompt gets a
/// text where it is accepted, and any other dialog is only closed.
pub open spec fn dialog_answer(
    kind: Seq<char>,
    accept: bool,
    prompt_text: Option<Seq<char>>,
) -> DialogAnswerView {
    if kind == "confirm"@ || kind == "before_unload_confirm"@ {
        DialogAnswerView::Confirm(accept)
    } else if kind == "prompt"@ && accept {
        DialogAnswerView::Prompt(or_text(prompt_text, ""@))
    } else {
        DialogAnswerView::Nothing
    }
}

/// What a dialog of a kind is told.
pub fn answer_to_dialog(kind: &str, accept: bool, prompt_text: Option<String>) -> (r: DialogAnswer)
    ensures
        r@ == dialog_answer(kind@, accept, optional_chars(prompt_text)),
{
    if same(kind, "confirm") || same(kind, "before_unload_confirm") {
        DialogAnswer::Confirm(accept)
    } else if same(kind, "prompt") && accept {
        match prompt_text {
            Some(text) => DialogAnswer::Prompt(text),
            None => DialogAnswer::Prompt(owned("")),
        }
    } else {
        DialogAnswer::Nothing
    }
}

/// The oldest dialog that waits, and the refusal where there is none.
pub open spec fn next_dialog(runtime: RuntimeView) -> Result<DialogRecordView, Seq<char>> {
    if runtime.dialogs.len() == 0 {
        Err("no pending dialog"@)
    } else {
        Ok(runtime.dialogs[0])
    }
}

/// What a result says whose value is a dialog.
pub open spec fn dialog_outcome(r: Result<DialogRecord, String>) -> Result<
    DialogRecordView,
    Seq<char>,
> {
    match r {
        Ok(d) => Ok(d@),
        Err(e) => Err(e@),
    }
}

// ---------------------------------------------------------------------------
// Numbers

/// The name of the dialog with a number.
pub fn next_dialog_id(next: &mut u64) -> (r: String)
    requires
        *old(next) < u64::MAX,
    ensures
        r@ == "dialog-"@ + decimal(*old(next) as nat),
        *final(next) == *old(next) + 1,
{
    let id = join2("dialog-", decimal_of(*next).as_str());
    *next = *next + 1;
    id
}

/// The name of the download with a number.
pub fn next_download_id(next: &mut u64) -> (r: String)
    requires
        *old(next) < u64::MAX,
    ensures
        r@ == "download-"@ + decimal(*old(next) as nat),
        *final(next) == *old(next) + 1,
{
    let id = join2("download-", decimal_of(*next).as_str());
    *next = *next + 1;
    id
}

// ---------------------------------------------------------------------------
// Frames and scripts

/// How a script is meant.
#[derive(Clone, Copy, PartialEq, Eq, Structural)]
pub enum ScriptMode {
    Expression,
    Statement,
}

/// How a script finds the frame it runs in.
pub const FRAME_HEAD: &'static str = "const __cmuxFrame = globalThis.document.querySelector(";

/// How a script uses the frame it runs in.
pub const FRAME_BODY: &'static str = "); if (!__cmuxFrame || !__cmuxFrame.contentDocument) throw new Error('frame is not accessible'); const document = __cmuxFrame.contentDocument; const window = __cmuxFrame.contentWindow;";

/// What comes before a script: the frame it runs in.
pub open spec fn frame_prefix(frame: Option<Seq<char>>) -> Seq<char> {
    match frame {
        Some(selector) => around(FRAME_HEAD@, selector, FRAME_BODY@),
        None => Seq::empty(),
    }
}

/// What a script does, in its frame.
pub open spec fn script_body(frame: Option<Seq<char>>, script: Seq<char>, mode: ScriptMode) -> Seq<char> {
    match mode {
        ScriptMode::Expression => frame_prefix(frame) + " const __cmuxValue = ("@ + script
            + "); return typeof __cmuxValue === 'function' ? __cmuxValue() : __cmuxValue;"@,
        ScriptMode::Statement => frame_prefix(frame) + " "@ + script,
    }
}

/// The script that a view is given: it comes to the value as JSON.
pub open spec fn wrapped(frame: Option<Seq<char>>, script: Seq<char>, mode: ScriptMode) -> Seq<char> {
    "JSON.stringify((() => { "@ + script_body(frame, script, mode) + " })())"@
}

/// The script that tells whether a frame can be used.
pub open spec fn frame_script(selector: Seq<char>) -> Seq<char> {
    around(
        "(() => { const frame = document.querySelector("@,
        selector,
        "); return !!(frame && frame.contentDocument); })()"@,
    )
}

/// Whether a frame was selected, given what the script that asks for it came to
/// and what its text was parsed as.
pub open spec fn frame_selected(reply: ScriptView, parsed: Option<JsonView>) -> Result<(), Seq<char>> {
    match reply {
        ScriptView::Text(_) => if parsed == Some(JsonView::Bool(true)) {
            Ok(())
        } else {
            Err("frame is not accessible"@)
        },
        ScriptView::Failed(e) => Err(e),
        ScriptView::NotLive => Err(NOT_LIVE@),
    }
}

/// What the text of a reply is parsed as.
pub open spec fn reply_parsed(reply: ScriptView) -> Option<JsonView> {
    match reply {
        ScriptView::Text(text) => parsed_json(text),
        _ => None,
    }
}

/// What a result says that has no value.
pub open spec fn told_outcome(r: Result<(), String>) -> Result<(), Seq<char>> {
    match r {
        Ok(_) => Ok(()),
        Err(e) => Err(e@),
    }
}

/// The script that a view is given.
pub fn wrap_script(frame: &Option<String>, script: &str, mode: ScriptMode) -> (r: String)
    ensures
        r@ == wrapped(optional_chars(*frame), script@, mode),
{
    let mut body = match frame {
        Some(selector) => around_text(FRAME_HEAD, selector.as_str(), FRAME_BODY),
        None => String::new(),
    };
    match mode {
        ScriptMode::Expression => {
            body.push_str(" const __cmuxValue = (");
            body.push_str(script);
            body.push_str(
                "); return typeof __cmuxValue === 'function' ? __cmuxValue() : __cmuxValue;",
            );
        },
        ScriptMode::Statement => {
            body.push_str(" ");
            body.push_str(script);
        },
    }
    join3("JSON.stringify((() => { ", body.as_str(), " })())")
}

/// The script that tells whether a frame can be used.
pub fn select_frame_script(selector: &str) -> (r: String)
    ensures
        r@ == frame_script(selector@),
{
    around_text(
        "(() => { const frame = document.querySelector(",
        selector,
        "); return !!(frame && frame.contentDocument); })()",
    )
}

// ---------------------------------------------------------------------------
// Events

/// The script that starts to watch a page.
pub const OBSERVER_SCRIPT: &'static str = "
if (!window.__cmuxObserversInstalled) {
  window.__cmuxObserversInstalled = true;
  window.__cmuxConsoleEvents = [];
  window.__cmuxErrorEvents = [];
  const trim = (items) => { if (items.length > 200) items.splice(0, items.length - 200); };
  const stringify = (value) => {
    try {
      if (typeof value === 'string') return value;
      if (value instanceof Error) return value.stack || value.message || String(value);
      return JSON.stringify(value);
    } catch (_) {
      return String(value);
    }
  };
  ['log', 'info', 'warn', 'error', 'debug'].forEach((level) => {
    const original = console[level]?.bind(console);
    console[level] = (...args) => {
      window.__cmuxConsoleEvents.push({ level, text: args.map(stringify).join(' '), source: 'console' });
      trim(window.__cmuxConsoleEvents);
      if (original) original(...args);
    };
  });
  window.addEventListener('error', (event) => {
    window.__cmuxErrorEvents.push({
      level: 'error',
      text: event.message || String(event.error || ''),
      source: event.filename || 'javascript',
      line: event.lineno || null
    });
    trim(window.__cmuxErrorEvents);
  });
  window.addEventListener('unhandledrejection', (event) => {
    window.__cmuxErrorEvents.push({
      level: 'error',
      text: stringify(event.reason),
      source: 'unhandledrejection',
      line: null
    });
    trim(window.__cmuxErrorEvents);
  });
  window.__cmuxGetEvents = () => {
    const payload = { console: window.__cmuxConsoleEvents || [], errors: window.__cmuxErrorEvents || [] };
    window.__cmuxConsoleEvents = [];
    window.__cmuxErrorEvents = [];
    return payload;
  };
}
return true;
";

/// The script that takes the events of a page.
pub const EVENTS_SCRIPT: &'static str = "window.__cmuxGetEvents ? window.__cmuxGetEvents() : { console: [], errors: [] }";

/// The text under a key of an object, or another where there is none.
pub open spec fn text_under(value: JsonView, key: Seq<char>, otherwise: Seq<char>) -> Seq<char> {
    match value.get(key) {
        Some(JsonView::Text(s)) => s,
        _ => otherwise,
    }
}

/// The line that an event names: the low 32 bits of it.
pub open spec fn line_in(value: JsonView) -> Option<u32> {
    match value.get("line"@) {
        Some(JsonView::Unsigned(n)) => Some((n % 0x1_0000_0000) as u32),
        _ => None,
    }
}

/// The event that a value of a page is.
pub open spec fn event_in(value: JsonView, source: Seq<char>) -> EventView {
    EventView {
        level: text_under(value, "level"@, "info"@),
        text: text_under(value, "text"@, ""@),
        source: text_under(value, "source"@, source),
        line: line_in(value),
    }
}

/// The values under a key of what a page says.
pub open spec fn values_under(value: JsonView, key: Seq<char>) -> Seq<JsonView> {
    match value.get(key) {
        Some(JsonView::Array(items)) => items,
        _ => Seq::empty(),
    }
}

impl RuntimeView {
    /// After the console events among values.
    pub open spec fn logged_all(self, values: Seq<JsonView>) -> RuntimeView
        decreases values.len(),
    {
        if values.len() == 0 {
            self
        } else {
            self.logged_all(values.drop_last()).logged(event_in(values.last(), "console"@))
        }
    }

    /// After the errors among values.
    pub open spec fn failed_all(self, values: Seq<JsonView>) -> RuntimeView
        decreases values.len(),
    {
        if values.len() == 0 {
            self
        } else {
            self.failed_all(values.drop_last()).failed(event_in(values.last(), "javascript"@))
        }
    }

    /// After what a page says, if it was parsed.
    pub open spec fn told(self, value: Option<JsonView>) -> RuntimeView {
        match value {
            Some(v) => self.logged_all(values_under(v, "console"@)).failed_all(
                values_under(v, "errors"@),
            ),
            None => self,
        }
    }
}

/// The text under a key of an object.
fn text_under_key(value: &Json, key: &str, otherwise: &str) -> (r: String)
    ensures
        r@ == text_under(value@, key@, otherwise@),
{
    match value.get(key) {
        Some(found) => match found {
            Json::Text(s) => s.clone(),
            _ => owned(otherwise),
        },
        None => owned(otherwise),
    }
}

/// The low 32 bits of a number.
fn low_bits(n: u64) -> (r: u32)
    ensures
        r == (n % 0x1_0000_0000) as u32,
{
    (n % 0x1_0000_0000) as u32
}

/// The event that a value of a page is.
pub fn event_from_value(value: &Json, source: &str) -> (r: BrowserEvent)
    ensures
        r@ == event_in(value@, source@),
{
    let line = match value.get("line") {
        Some(found) => match found {
            Json::Unsigned(n) => Some(low_bits(*n)),
            _ => None,
        },
        None => None,
    };
    BrowserEvent {
        level: text_under_key(value, "level", "info"),
        text: text_under_key(value, "text", ""),
        source: text_under_key(value, "source", source),
        line,
    }
}

/// The event of a page that could not be loaded.
pub fn load_failed_event(uri: &str, message: &str) -> (r: BrowserEvent)
    ensures
        r@ == (EventView {
            level: "error"@,
            text: uri@ + ": "@ + message@,
            source: "load"@,
            line: None,
        }),
{
    BrowserEvent {
        level: owned("error"),
        text: join3(uri, ": ", message),
        source: owned("load"),
        line: None,
    }
}

/// The event of a page whose process ended.
pub fn process_ended_event(reason: i32) -> (r: BrowserEvent)
    ensures
        r@ == (EventView {
            level: "error"@,
            text: "web process terminated: "@ + signed_decimal(reason as int),
            source: "web-process"@,
            line: None,
        }),
{
    BrowserEvent {
        level: owned("error"),
        text: join2("web process terminated: ", signed_decimal_of(reason as i64).as_str()),
        source: owned("web-process"),
        line: None,
    }
}

// ---------------------------------------------------------------------------
// Changes

impl RuntimeRecord {
    /// What is known of a view that was just made.
    pub fn new() -> (r: Self)
        ensures
            r@ == RuntimeView::fresh(),
    {
        broadcast use group_views;

        RuntimeRecord {
            active_frame_selector: None,
            console: Vec::new(),
            errors: Vec::new(),
            dialogs: Vec::new(),
            downloads: Vec::new(),
        }
    }

    /// Notes an event of the console.
    pub fn push_console(&mut self, event: BrowserEvent)
        ensures
            final(self)@ == old(self)@.logged(event@),
    {
        broadcast use group_views;

        self.console.push(event);
        trim_vec(&mut self.console, MAX_EVENTS);
    }

    /// Notes an error.
    pub fn push_error(&mut self, event: BrowserEvent)
        ensures
            final(self)@ == old(self)@.failed(event@),
    {
        broadcast use group_views;

        self.errors.push(event);
        trim_vec(&mut self.errors, MAX_EVENTS);
    }

    /// Notes a dialog.
    pub fn push_dialog(&mut self, info: DialogInfo, dialog: usize)
        ensures
            final(self)@ == old(self)@.asked(DialogRecordView { info: info@, dialog }),
    {
        broadcast use group_views;

        self.dialogs.push(DialogRecord { info, dialog });
        trim_vec(&mut self.dialogs, MAX_DIALOGS);
    }

    /// Takes the oldest dialog.
    pub fn take_dialog(&mut self) -> (r: Result<DialogRecord, String>)
        ensures
            dialog_outcome(r) == next_dialog(old(self)@),
            final(self)@ == (match next_dialog(old(self)@) {
                Ok(_) => (RuntimeView { dialogs: old(self)@.dialogs.skip(1), ..old(self)@ }),
                Err(_) => old(self)@,
            }),
    {
        broadcast use group_views;

        if self.dialogs.len() == 0 {
            return Err(owned("no pending dialog"));
        }
        let first = self.dialogs.remove(0);
        assert(views(self.dialogs@) =~= old(self)@.dialogs.skip(1));
        Ok(first)
    }

    /// Notes a download that was started.
    pub fn push_download(&mut self, id: String, url: String, path: String)
        ensures
            final(self)@ == old(self)@.started(
                DownloadView {
                    id: id@,
                    url: url@,
                    path: path@,
                    status: "started"@,
                    received_bytes: 0,
                    error: None,
                },
            ),
    {
        broadcast use group_views;

        self.downloads.push(
            DownloadInfo {
                id,
                url,
                path,
                status: owned("started"),
                received_bytes: 0,
                error: None,
            },
        );
        trim_vec(&mut self.downloads, MAX_DOWNLOADS);
    }

    /// Notes a change of a download.
    pub fn update_download(&mut self, id: &str, change: DownloadChange)
        ensures
            final(self)@ == (RuntimeView {
                downloads: downloads_after(old(self)@.downloads, id@, change),
                ..old(self)@
            }),
    {
        broadcast use group_views;

        let mut i: usize = 0;
        let length: usize = self.downloads.len();
        let ghost all = self@.downloads;
        while i < length
            invariant
                i <= length == self.downloads@.len(),
                self@ == old(self)@,
                all == self@.downloads,
                download_from(all, id@, i as int) == download_from(all, id@, 0),
            decreases length - i,
        {
            assert(all[i as int] == self.downloads@[i as int]@);
            if same(self.downloads[i].id.as_str(), id) {
                change_download(&mut self.downloads[i], &change);
                return;
            }
            i += 1;
        }
    }

    /// The newest download that is over.
    pub fn finished_download(&self) -> (r: Option<DownloadInfo>)
        ensures
            match r {
                Some(d) => newest_over(self@.downloads) == Some(d@),
                None => newest_over(self@.downloads) is None,
            },
    {
        let ghost all = self@.downloads;
        let mut i: usize = self.downloads.len();
        assert(all.take(i as int) =~= all);
        while i > 0
            invariant
                i <= self.downloads@.len(),
                all == self@.downloads,
                newest_over(all.take(i as int)) == newest_over(all),
            decreases i,
        {
            assert(all.take(i as int).drop_last() =~= all.take(i - 1));
            assert(all.take(i as int).last() == self.downloads@[i - 1]@);
            let d = &self.downloads[i - 1];
            if same(d.status.as_str(), "finished") || same(d.status.as_str(), "failed") {
                return Some(copy_download(d));
            }
            i -= 1;
        }
        None
    }

    /// Lets scripts run in the main frame.
    pub fn select_main_frame(&mut self)
        ensures
            final(self)@ == (RuntimeView { active_frame_selector: None, ..old(self)@ }),
    {
        self.active_frame_selector = None;
    }

    /// Lets scripts run in a frame, given what the script that asks for it came
    /// to and what its text was parsed as.
    pub fn frame_replied(&mut self, selector: &str, reply: &ScriptReply, parsed: Option<Json>) -> (r:
        Result<(), String>)
        ensures
            told_outcome(r) == frame_selected(reply@, optional_view(parsed)),
            final(self)@ == (if r is Ok {
                RuntimeView { active_frame_selector: Some(selector@), ..old(self)@ }
            } else {
                old(self)@
            }),
    {
        match reply {
            ScriptReply::Text(_) => match parsed {
                Some(Json::Bool(true)) => {
                    self.active_frame_selector = Some(owned(selector));
                    Ok(())
                },
                _ => Err(owned("frame is not accessible")),
            },
            ScriptReply::Failed(e) => Err(e.clone()),
            ScriptReply::NotLive => Err(owned(NOT_LIVE)),
        }
    }

    /// Lets scripts run in a frame, given what the script that asks for it came
    /// to.
    pub fn select_frame(&mut self, selector: &str, reply: &ScriptReply) -> (r: Result<(), String>)
        ensures
            told_outcome(r) == frame_selected(reply@, reply_parsed(reply@)),
            final(self)@ == (if r is Ok {
                RuntimeView { active_frame_selector: Some(selector@), ..old(self)@ }
            } else {
                old(self)@
            }),
    {
        let parsed = match reply {
            ScriptReply::Text(text) => json_from_str(text.as_str()),
            _ => None,
        };
        self.frame_replied(selector, reply, parsed)
    }

    /// Notes what a page says, given what it was parsed as.
    pub fn hear_events(&mut self, value: Option<Json>)
        ensures
            final(self)@ == old(self)@.told(optional_view(value)),
    {
        broadcast use lemma_array_view;

        if let Some(v) = value {
            if let Some(Json::Array(items)) = v.get("console") {
                self.hear_console(items);
            } else {
                assert(values_under(v@, "console"@) =~= Seq::<JsonView>::empty());
            }
            if let Some(Json::Array(items)) = v.get("errors") {
                self.hear_errors(items);
            } else {
                assert(values_under(v@, "errors"@) =~= Seq::<JsonView>::empty());
            }
        }
    }

    /// Notes the console events among values.
    fn hear_console(&mut self, items: &Vec<Json>)
        ensures
            final(self)@ == old(self)@.logged_all(items_view(items@)),
    {
        let ghost all = items_view(items@);
        let mut i: usize = 0;
        assert(all.take(0) =~= Seq::<JsonView>::empty());
        while i < items.len()
            invariant
                i <= items@.len(),
                all == items_view(items@),
                self@ == old(self)@.logged_all(all.take(i as int)),
            decreases items@.len() - i,
        {
            assert(all.take(i + 1).drop_last() =~= all.take(i as int));
            assert(all.take(i + 1).last() == items@[i as int]@);
            self.push_console(event_from_value(&items[i], "console"));
            i += 1;
        }
        assert(all.take(i as int) =~= all);
    }

    /// Notes the errors among values.
    fn hear_errors(&mut self, items: &Vec<Json>)
        ensures
            final(self)@ == old(self)@.failed_all(items_view(items@)),
    {
        let ghost all = items_view(items@);
        let mut i: usize = 0;
        assert(all.take(0) =~= Seq::<JsonView>::empty());
        while i < items.len()
            invariant
                i <= items@.len(),
                all == items_view(items@),
                self@ == old(self)@.failed_all(all.take(i as int)),
            decreases items@.len() - i,
        {
            assert(all.take(i + 1).drop_last() =~= all.take(i as int));
            assert(all.take(i + 1).last() == items@[i as int]@);
            self.push_error(event_from_value(&items[i], "javascript"));
            i += 1;
        }
        assert(all.take(i as int) =~= all);
    }

    /// Notes what a page says, given what the script that asks for it came to.
    pub fn refresh_script_events(&mut self, reply: &ScriptReply)
        ensures
            final(self)@ == old(self)@.told(reply_parsed(reply@)),
    {
        if let ScriptReply::Text(text) = reply {
            let value = json_from_str(text.as_str());
            self.hear_events(value);
        }
    }
}

/// What a result says whose value is a download.
pub open spec fn wait_outcome(r: Option<Result<DownloadInfo, String>>) -> Option<
    Result<DownloadView, Seq<char>>,
> {
    match r {
        Some(Ok(d)) => Some(Ok(d@)),
        Some(Err(e)) => Some(Err(e@)),
        None => None,
    }
}

/// What a wait for a download comes to, given whether the time is up; nothing
/// yet where it goes on.
pub fn wait_for_download(runtime: Option<&RuntimeRecord>, time_is_up: bool) -> (r: Option<
    Result<DownloadInfo, String>,
>)
    ensures
        wait_outcome(r) == download_wait(
            match runtime {
                Some(record) => Some(record@),
                None => None,
            },
            time_is_up,
        ),
{
    match runtime {
        None => Some(Err(owned(NOT_LIVE))),
        Some(record) => match record.finished_download() {
            Some(d) => Some(Ok(d)),
            None => if time_is_up {
                Some(Err(owned("download timed out")))
            } else {
                None
            },
        },
    }
}

// ---------------------------------------------------------------------------
// Laws

/// No list grows beyond its bound, and what came last is there.
pub proof fn law_runtime_lists_stay_bounded(
    r: RuntimeView,
    event: EventView,
    dialog: DialogRecordView,
    download: DownloadView,
    value: Option<JsonView>,
)
    requires
        r.is_bounded(),
    ensures
        RuntimeView::fresh().is_bounded(),
        r.logged(event).is_bounded() && r.logged(event).console.last() == event,
        r.failed(event).is_bounded() && r.failed(event).errors.last() == event,
        r.asked(dialog).is_bounded() && r.asked(dialog).dialogs.last() == dialog,
        r.started(download).is_bounded() && r.started(download).downloads.last() == download,
        r.told(value).is_bounded(),
{
    if let Some(v) = value {
        lemma_logged_all_bounded(r, values_under(v, "console"@));
        lemma_failed_all_bounded(
            r.logged_all(values_under(v, "console"@)),
            values_under(v, "errors"@),
        );
    }
}

/// Console events keep the lists bounded.
proof fn lemma_logged_all_bounded(r: RuntimeView, values: Seq<JsonView>)
    requires
        r.is_bounded(),
    ensures
        r.logged_all(values).is_bounded(),
    decreases values.len(),
{
    if values.len() > 0 {
        lemma_logged_all_bounded(r, values.drop_last());
    }
}

/// Errors keep the lists bounded.
proof fn lemma_failed_all_bounded(r: RuntimeView, values: Seq<JsonView>)
    requires
        r.is_bounded(),
    ensures
        r.failed_all(values).is_bounded(),
    decreases values.len(),
{
    if values.len() > 0 {
        lemma_failed_all_bounded(r, values.drop_last());
    }
}

/// A change of a download touches no other download, and keeps its id and its
/// address.
pub proof fn law_download_change_is_local(
    downloads: Seq<DownloadView>,
    id: Seq<char>,
    change: DownloadChange,
    i: int,
)
    requires
        0 <= i < downloads.len(),
    ensures
        downloads_after(downloads, id, change).len() == downloads.len(),
        downloads_after(downloads, id, change)[i].id == downloads[i].id,
        downloads_after(downloads, id, change)[i].url == downloads[i].url,
        downloads[i].id != id ==> downloads_after(downloads, id, change)[i] == downloads[i],
{
    lemma_download_from(downloads, id, 0);
}

/// A download that failed stays failed when it ends.
pub proof fn law_a_failed_download_stays_failed(
    d: DownloadView,
    received_bytes: u64,
    destination: String,
)
    requires
        d.status == "failed"@,
    ensures
        download_after(d, DownloadChange::Finished { received_bytes, destination }).status
            == "failed"@,
        is_over(download_after(d, DownloadChange::Finished { received_bytes, destination })),
{
}

/// The name of the file of a download holds no slash where its number holds
/// none: the file stays in its directory.
pub proof fn law_download_files_stay_in_their_directory(url: Seq<char>, id: Seq<char>)
    requires
        !id.contains('/'),
    ensures
        !download_file_name(url, id).contains('/'),
{
    reveal_strlit("-");
    let name = download_name(url).map_values(|c: char| plain_char(c));
    let whole = download_file_name(url, id);
    assert forall|i: int| 0 <= i < whole.len() implies #[trigger] whole[i] != '/' by {
        if i < id.len() {
            assert(whole[i] == id[i]);
            assert(id.contains(id[i]));
        } else if i == id.len() {
            assert(whole[i] == "-"@[0]);
        } else {
            assert(whole[i] == name[i - id.len() - 1]);
        }
    }
}

} // verus!
