//! What is heard of a live page: its events, its dialogs and its downloads.

use crate::host::ScriptView;
use crate::json::{lemma_with_get, quoted, JsonView, ObjectView};
use crate::patience::is_part;
use crate::runtime::{
    dialog_answer, dialog_kind_text, download_from, download_name, download_wait, downloads_after,
    event_in, frame_prefix, frame_selected, newest_over, next_dialog, without_scheme, wrapped,
    DialogAnswerView, DialogRecordView, DownloadChange, RuntimeView, ScriptMode, FRAME_BODY, FRAME_HEAD,
    MAX_EVENTS,
};
use crate::text::has_prefix;
use crate::webview::{dialog_value, download_value, event_value, DialogView, DownloadView, EventView};
use vstd::prelude::*;

verus! {

// ---------------------------------------------------------------------------
// Events

/// What tells the keys of events apart.
proof fn lemma_event_keys()
    ensures
        "level"@.len() == 5,
        "text"@.len() == 4 && "text"@[0] == 't',
        "source"@.len() == 6,
        "line"@.len() == 4 && "line"@[0] == 'l',
{
    reveal_strlit("level");
    reveal_strlit("text");
    reveal_strlit("source");
    reveal_strlit("line");
}

/// An event that is told as an object is heard as the event that it is.
pub proof fn law_events_are_heard_as_told(e: EventView, source: Seq<char>)
    ensures
        event_in(event_value(e), source) == e,
{
    broadcast use lemma_with_get;

    lemma_event_keys();
    if let Some(n) = e.line {
        assert((n as u64 % 0x1_0000_0000) as u32 == n);
    }
    assert(event_in(event_value(e), source).level == e.level);
    assert(event_in(event_value(e), source).text == e.text);
    assert(event_in(event_value(e), source).source == e.source);
    assert(event_in(event_value(e), source).line == e.line);
}

/// An event that says nothing of itself is an empty piece of information from
/// where it was heard.
pub proof fn law_silent_events_say_where_they_are_from(source: Seq<char>)
    ensures
        event_in(JsonView::Object(Seq::empty()), source) == (EventView {
            level: "info"@,
            text: ""@,
            source,
            line: None,
        }),
{
    let silent = JsonView::Object(Seq::empty());
    assert(silent.get("level"@) is None && silent.get("text"@) is None
        && silent.get("source"@) is None
        && silent.get("line"@) is None);
}

/// While there is room, the events of the console stand in the order in which
/// they were heard, behind the earlier ones; errors do not come among them.
pub proof fn law_events_are_kept_in_order(r: RuntimeView, values: Seq<JsonView>, i: int)
    requires
        r.console.len() + values.len() <= MAX_EVENTS,
        r.errors.len() + values.len() <= MAX_EVENTS,
        0 <= i < values.len(),
    ensures
        ({
            let after = r.logged_all(values);
            &&& after.console.len() == r.console.len() + values.len()
            &&& after.console.take(r.console.len() as int) == r.console
            &&& after.console[r.console.len() + i] == event_in(values[i], "console"@)
            &&& after.errors == r.errors
        }),
        ({
            let after = r.failed_all(values);
            &&& after.errors.len() == r.errors.len() + values.len()
            &&& after.errors.take(r.errors.len() as int) == r.errors
            &&& after.errors[r.errors.len() + i] == event_in(values[i], "javascript"@)
            &&& after.console == r.console
        }),
{
    lemma_logged_in_order(r, values);
    lemma_failed_in_order(r, values);
}

/// The events of the console, one by one.
proof fn lemma_logged_in_order(r: RuntimeView, values: Seq<JsonView>)
    requires
        r.console.len() + values.len() <= MAX_EVENTS,
    ensures
        ({
            let after = r.logged_all(values);
            &&& after.console.len() == r.console.len() + values.len()
            &&& after.console.take(r.console.len() as int) == r.console
            &&& forall|i: int|
                0 <= i < values.len() ==> after.console[r.console.len() + i] == event_in(
                    #[trigger] values[i],
                    "console"@,
                )
            &&& after.errors == r.errors
        }),
    decreases values.len(),
{
    if values.len() > 0 {
        let fewer = values.drop_last();
        lemma_logged_in_order(r, fewer);
        let before = r.logged_all(fewer);
        let after = r.logged_all(values);
        assert(after.console == before.console.push(event_in(values.last(), "console"@)));
        assert(after.console.take(r.console.len() as int) =~= before.console.take(
            r.console.len() as int,
        ));
        assert forall|i: int| 0 <= i < values.len() implies after.console[r.console.len() + i]
            == event_in(#[trigger] values[i], "console"@) by {
            if i < fewer.len() {
                assert(fewer[i] == values[i]);
            }
        }
    } else {
        assert(r.console.take(r.console.len() as int) =~= r.console);
    }
}

/// The errors, one by one.
proof fn lemma_failed_in_order(r: RuntimeView, values: Seq<JsonView>)
    requires
        r.errors.len() + values.len() <= MAX_EVENTS,
    ensures
        ({
            let after = r.failed_all(values);
            &&& after.errors.len() == r.errors.len() + values.len()
            &&& after.errors.take(r.errors.len() as int) == r.errors
            &&& forall|i: int|
                0 <= i < values.len() ==> after.errors[r.errors.len() + i] == event_in(
                    #[trigger] values[i],
                    "javascript"@,
                )
            &&& after.console == r.console
        }),
    decreases values.len(),
{
    if values.len() > 0 {
        let fewer = values.drop_last();
        lemma_failed_in_order(r, fewer);
        let before = r.failed_all(fewer);
        let after = r.failed_all(values);
        assert(after.errors == before.errors.push(event_in(values.last(), "javascript"@)));
        assert(after.errors.take(r.errors.len() as int) =~= before.errors.take(
            r.errors.len() as int,
        ));
        assert forall|i: int| 0 <= i < values.len() implies after.errors[r.errors.len() + i]
            == event_in(#[trigger] values[i], "javascript"@) by {
            if i < fewer.len() {
                assert(fewer[i] == values[i]);
            }
        }
    } else {
        assert(r.errors.take(r.errors.len() as int) =~= r.errors);
    }
}

/// Where there is no room, the oldest events go, and no others.
pub proof fn law_the_oldest_go_first(r: RuntimeView, event: EventView, i: int)
    requires
        r.console.len() == 200,
        r.errors.len() == 200,
        1 <= i < 200,
    ensures
        r.logged(event).console[i - 1] == r.console[i],
        r.logged(event).console[199] == event,
        r.failed(event).errors[i - 1] == r.errors[i],
        r.failed(event).errors[199] == event,
{
}

// ---------------------------------------------------------------------------
// Dialogs

/// Dialogs are answered in the order in which they were opened.
pub proof fn law_dialogs_wait_their_turn(
    r: RuntimeView,
    first: DialogRecordView,
    second: DialogRecordView,
)
    requires
        r.dialogs.len() == 0,
    ensures
        next_dialog(r) is Err,
        next_dialog(r.asked(first)) == Ok::<DialogRecordView, Seq<char>>(first),
        next_dialog(r.asked(first).asked(second)) == Ok::<DialogRecordView, Seq<char>>(first),
        r.asked(first).asked(second).dialogs == seq![first, second],
{
    assert(r.asked(first).asked(second).dialogs =~= seq![first, second]);
}

/// Questions are answered with yes or no, a prompt that is accepted with a text,
/// and an alert and a prompt that is dismissed with nothing.
pub proof fn law_dialogs_are_answered_by_kind(accept: bool, text: Seq<char>)
    ensures
        dialog_answer(dialog_kind_text(0), accept, Some(text)) is Nothing,
        dialog_answer(dialog_kind_text(1), accept, Some(text)) == DialogAnswerView::Confirm(accept),
        dialog_answer(dialog_kind_text(2), true, Some(text)) == DialogAnswerView::Prompt(text),
        dialog_answer(dialog_kind_text(2), true, None) == DialogAnswerView::Prompt(Seq::empty()),
        dialog_answer(dialog_kind_text(2), false, Some(text)) is Nothing,
        dialog_answer(dialog_kind_text(3), accept, Some(text)) == DialogAnswerView::Confirm(accept),
{
    reveal_strlit("alert");
    reveal_strlit("confirm");
    reveal_strlit("prompt");
    reveal_strlit("before_unload_confirm");
    reveal_strlit("");
    assert("alert"@.len() == 5 && "confirm"@.len() == 7 && "prompt"@.len() == 6
        && "before_unload_confirm"@.len() == 21);
    assert(""@ =~= Seq::<char>::empty());
}

/// The kinds of dialogs are called by their names.
pub proof fn law_kinds_of_dialogs_have_names(kind: i32)
    ensures
        kind == 0 ==> dialog_kind_text(kind) == "alert"@,
        kind == 1 ==> dialog_kind_text(kind) == "confirm"@,
        kind == 2 ==> dialog_kind_text(kind) == "prompt"@,
        kind == 3 ==> dialog_kind_text(kind) == "before_unload_confirm"@,
        kind < 0 || kind > 3 ==> dialog_kind_text(kind) == "unknown"@,
{
}

/// What is told of a dialog is what it is.
pub proof fn law_dialogs_are_told_as_they_are(d: DialogView)
    ensures
        dialog_value(d).get("id"@) == Some(JsonView::Text(d.id)),
        dialog_value(d).get("kind"@) == Some(JsonView::Text(d.kind)),
        dialog_value(d).get("message"@) == Some(JsonView::Text(d.message)),
        dialog_value(d).get("default_text"@) == Some(JsonView::Text(d.default_text)),
{
    broadcast use lemma_with_get;

    reveal_strlit("id");
    reveal_strlit("kind");
    reveal_strlit("message");
    reveal_strlit("default_text");
    assert("id"@.len() == 2 && "kind"@.len() == 4 && "message"@.len() == 7 && "default_text"@.len()
        == 12);
}

// ---------------------------------------------------------------------------
// Downloads

/// Whether a download has come to its end.
pub open spec fn has_ended(d: DownloadView) -> bool {
    d.status == "finished"@ || d.status == "failed"@
}

/// A wait for a download gives the newest that has ended; it goes on while none
/// has, until the time is up.
pub proof fn law_a_wait_gives_the_newest_download(r: RuntimeView, time_is_up: bool, i: int)
    ensures
        0 <= i < r.downloads.len() && has_ended(r.downloads[i]) && (forall|j: int|
            i < j < r.downloads.len() ==> !has_ended(#[trigger] r.downloads[j])) ==> download_wait(
            Some(r),
            time_is_up,
        ) == Some(Ok::<DownloadView, Seq<char>>(r.downloads[i])),
        (forall|j: int| 0 <= j < r.downloads.len() ==> !has_ended(#[trigger] r.downloads[j])) ==> {
            &&& time_is_up ==> download_wait(Some(r), time_is_up) == Some(
                Err::<DownloadView, Seq<char>>("download timed out"@),
            )
            &&& !time_is_up ==> download_wait(Some(r), time_is_up) is None
        },
        download_wait(None, time_is_up) matches Some(Err(_)),
{
    if 0 <= i < r.downloads.len() && has_ended(r.downloads[i]) && (forall|j: int|
        i < j < r.downloads.len() ==> !has_ended(#[trigger] r.downloads[j])) {
        lemma_newest(r.downloads, i);
    }
    if forall|j: int| 0 <= j < r.downloads.len() ==> !has_ended(#[trigger] r.downloads[j]) {
        lemma_none_over(r.downloads);
    }
}

/// The newest download that is over.
proof fn lemma_newest(downloads: Seq<DownloadView>, i: int)
    requires
        0 <= i < downloads.len(),
        has_ended(downloads[i]),
        forall|j: int| i < j < downloads.len() ==> !has_ended(#[trigger] downloads[j]),
    ensures
        newest_over(downloads) == Some(downloads[i]),
    decreases downloads.len(),
{
    if i < downloads.len() - 1 {
        assert(!has_ended(downloads[downloads.len() - 1]));
        let fewer = downloads.drop_last();
        assert forall|j: int| i < j < fewer.len() implies !has_ended(#[trigger] fewer[j]) by {
            assert(fewer[j] == downloads[j]);
        }
        lemma_newest(fewer, i);
    }
}

/// No download is over.
proof fn lemma_none_over(downloads: Seq<DownloadView>)
    requires
        forall|j: int| 0 <= j < downloads.len() ==> !has_ended(#[trigger] downloads[j]),
    ensures
        newest_over(downloads) is None,
    decreases downloads.len(),
{
    if downloads.len() > 0 {
        assert(!has_ended(downloads[downloads.len() - 1]));
        let fewer = downloads.drop_last();
        assert forall|j: int| 0 <= j < fewer.len() implies !has_ended(#[trigger] fewer[j]) by {
            assert(fewer[j] == downloads[j]);
        }
        lemma_none_over(fewer);
    }
}

/// The first download with an id is found.
proof fn lemma_first_download(downloads: Seq<DownloadView>, i: int, from: int)
    requires
        0 <= from <= i < downloads.len(),
        forall|j: int| 0 <= j < i ==> (#[trigger] downloads[j]).id != downloads[i].id,
    ensures
        download_from(downloads, downloads[i].id, from) == Some(i),
    decreases i - from,
{
    if from < i {
        assert(downloads[from].id != downloads[i].id);
        lemma_first_download(downloads, i, from + 1);
    }
}

/// A change is noted at the download that it is of: how far it is, where it goes
/// and what went wrong; a download that ends well is finished.
pub proof fn law_downloads_are_followed(
    downloads: Seq<DownloadView>,
    i: int,
    received_bytes: u64,
    destination: String,
    error: String,
)
    requires
        0 <= i < downloads.len(),
        forall|j: int| 0 <= j < i ==> (#[trigger] downloads[j]).id != downloads[i].id,
        !has_prefix(destination@, "file://"@),
        destination@.len() > 0,
    ensures
        ({
            let d = downloads[i];
            let id = d.id;
            let created = downloads_after(
                downloads,
                id,
                DownloadChange::Created { destination, received_bytes },
            )[i];
            let receiving = downloads_after(
                downloads,
                id,
                DownloadChange::Receiving { received_bytes },
            )[i];
            let failed = downloads_after(
                downloads,
                id,
                DownloadChange::Failed { received_bytes, error },
            )[i];
            let finished = downloads_after(
                downloads,
                id,
                DownloadChange::Finished { received_bytes, destination },
            )[i];
            &&& created == (DownloadView {
                path: destination@,
                status: "created"@,
                received_bytes,
                ..d
            })
            &&& receiving == (DownloadView { status: "receiving"@, received_bytes, ..d })
            &&& failed == (DownloadView {
                status: "failed"@,
                received_bytes,
                error: Some(error@),
                ..d
            })
            &&& has_ended(failed) && has_ended(finished)
            &&& finished.path == destination@ && finished.received_bytes == received_bytes
                && finished.error == d.error
            &&& d.status != "failed"@ ==> finished.status == "finished"@
        }),
{
    lemma_first_download(downloads, i, 0);
}

/// A path that is written as the address of a file is the path without the mark.
pub proof fn law_file_addresses_are_paths(path: Seq<char>)
    requires
        !has_prefix(path, "file://"@),
    ensures
        without_scheme(path) == path,
        without_scheme("file://"@ + path) == path,
{
    reveal_strlit("file://");
    reveal_with_fuel(without_scheme, 3);
    let whole = "file://"@ + path;
    assert(whole.take("file://"@.len() as int) =~= "file://"@);
    assert(whole.skip("file://"@.len() as int) =~= path);
}

/// What is told of a download is what it is.
pub proof fn law_downloads_are_told_as_they_are(d: DownloadView)
    ensures
        download_value(d).get("id"@) == Some(JsonView::Text(d.id)),
        download_value(d).get("url"@) == Some(JsonView::Text(d.url)),
        download_value(d).get("path"@) == Some(JsonView::Text(d.path)),
        download_value(d).get("status"@) == Some(JsonView::Text(d.status)),
        download_value(d).get("received_bytes"@) == Some(JsonView::Unsigned(d.received_bytes)),
        d.error matches Some(e) ==> download_value(d).get("error"@) == Some(JsonView::Text(e)),
        d.error is None ==> download_value(d).get("error"@) == Some(JsonView::Null),
{
    broadcast use lemma_with_get;

    reveal_strlit("id");
    reveal_strlit("url");
    reveal_strlit("path");
    reveal_strlit("status");
    reveal_strlit("received_bytes");
    reveal_strlit("error");
    assert("id"@.len() == 2 && "url"@.len() == 3 && "path"@.len() == 4 && "status"@.len() == 6
        && "received_bytes"@.len() == 14 && "error"@.len() == 5);
}

// ---------------------------------------------------------------------------
// Frames

/// A frame is selected where the page says that it can be used, and only there.
pub proof fn law_frames_are_selected_where_they_can_be_used(
    text: Seq<char>,
    parsed: Option<JsonView>,
    error: Seq<char>,
)
    ensures
        frame_selected(ScriptView::Text(text), parsed) is Ok <==> parsed == Some(
            JsonView::Bool(true),
        ),
        frame_selected(ScriptView::Failed(error), parsed) == Err::<(), Seq<char>>(error),
        frame_selected(ScriptView::NotLive, parsed) is Err,
{
}

// ---------------------------------------------------------------------------
// Reports and scripts

/// What a page reports as console events goes to the console, and what it reports
/// as errors to the errors; what could not be read changes nothing.
pub proof fn law_reports_go_where_they_belong(
    r: RuntimeView,
    console: Seq<JsonView>,
    errors: Seq<JsonView>,
)
    ensures
        ({
            let report = ObjectView::new().with("console"@, JsonView::Array(console)).with(
                "errors"@,
                JsonView::Array(errors),
            ).done();
            r.told(Some(report)) == r.logged_all(console).failed_all(errors)
        }),
        r.told(None) == r,
{
    broadcast use lemma_with_get;

    reveal_strlit("console");
    reveal_strlit("errors");
    assert("console"@.len() == 7 && "errors"@.len() == 6);
    let report = ObjectView::new().with("console"@, JsonView::Array(console)).with(
        "errors"@,
        JsonView::Array(errors),
    ).done();
    assert(report.get("console"@) == Some(JsonView::Array(console)));
    assert(report.get("errors"@) == Some(JsonView::Array(errors)));
}

/// An expression is given to the view in brackets, so that its value comes back,
/// and statements as they are; both run in the frame that was selected.
pub proof fn law_scripts_run_in_their_frame(
    frame: Option<Seq<char>>,
    selector: Seq<char>,
    script: Seq<char>,
)
    ensures
        is_part(
            wrapped(frame, script, ScriptMode::Expression),
            "const __cmuxValue = ("@ + script + ")"@,
        ),
        is_part(wrapped(frame, script, ScriptMode::Statement), " "@ + script + " })())"@),
        frame == Some(selector) ==> is_part(
            wrapped(frame, script, ScriptMode::Expression),
            "globalThis.document.querySelector("@ + quoted(selector) + ")"@,
        ) && is_part(
            wrapped(frame, script, ScriptMode::Statement),
            "globalThis.document.querySelector("@ + quoted(selector) + ")"@,
        ),
{
    let open = "JSON.stringify((() => { "@;
    let close = " })())"@;
    let prefix = frame_prefix(frame);
    let middle = " const __cmuxValue = ("@;
    let value = "); return typeof __cmuxValue === 'function' ? __cmuxValue() : __cmuxValue;"@;
    let rest = "; return typeof __cmuxValue === 'function' ? __cmuxValue() : __cmuxValue;"@;
    assert(middle =~= " "@ + "const __cmuxValue = ("@) by {
        reveal_strlit(" const __cmuxValue = (");
        reveal_strlit(" ");
        reveal_strlit("const __cmuxValue = (");
    }
    assert(value =~= ")"@ + rest) by {
        reveal_strlit("); return typeof __cmuxValue === 'function' ? __cmuxValue() : __cmuxValue;");
        reveal_strlit(")");
        reveal_strlit("; return typeof __cmuxValue === 'function' ? __cmuxValue() : __cmuxValue;");
    }
    let expression = wrapped(frame, script, ScriptMode::Expression);
    let statement = wrapped(frame, script, ScriptMode::Statement);
    crate::serving::lemma_part(
        open + prefix + " "@,
        "const __cmuxValue = ("@ + script + ")"@,
        rest + close,
        expression,
    );
    crate::serving::lemma_part(
        open + prefix,
        " "@ + script + close,
        Seq::empty(),
        statement,
    );
    if frame == Some(selector) {
        let head = "const __cmuxFrame = "@;
        let query = "globalThis.document.querySelector("@;
        assert(FRAME_HEAD@ =~= head + query) by {
            reveal_strlit("const __cmuxFrame = globalThis.document.querySelector(");
            reveal_strlit("const __cmuxFrame = ");
            reveal_strlit("globalThis.document.querySelector(");
        }
        assert(FRAME_BODY@[0] == ')') by {
            reveal_strlit(
                "); if (!__cmuxFrame || !__cmuxFrame.contentDocument) throw new Error('frame is not accessible'); const document = __cmuxFrame.contentDocument; const window = __cmuxFrame.contentWindow;",
            );
        }
        assert(FRAME_BODY@.len() > 0) by {
            reveal_strlit(
                "); if (!__cmuxFrame || !__cmuxFrame.contentDocument) throw new Error('frame is not accessible'); const document = __cmuxFrame.contentDocument; const window = __cmuxFrame.contentWindow;",
            );
        }
        let body = FRAME_BODY@.skip(1);
        reveal_strlit(")");
        assert(FRAME_BODY@ =~= ")"@ + body);
        let part = query + quoted(selector) + ")"@;
        assert(prefix =~= head + part + body);
        crate::serving::lemma_part(
            open + head,
            part,
            body + middle + script + value + close,
            expression,
        );
        crate::serving::lemma_part(
            open + head,
            part,
            body + " "@ + script + close,
            statement,
        );
    }
}

/// A download is named by the last part of its address, up to a question mark;
/// where that is nothing it has a name of its own.
pub proof fn law_downloads_are_named_by_their_address(
    directory: Seq<char>,
    name: Seq<char>,
    query: Seq<char>,
)
    requires
        forall|i: int| 0 <= i < name.len() ==> #[trigger] name[i] != '/' && name[i] != '?',
        forall|i: int| 0 <= i < query.len() ==> #[trigger] query[i] != '/',
        name.len() > 0,
    ensures
        download_name(directory + seq!['/'] + name) == name,
        download_name(directory + seq!['/'] + (name + seq!['?'] + query)) == name,
        download_name(directory + seq!['/']) == "download.bin"@,
{
    let start = directory.len() as int + 1;
    let plain = directory + seq!['/'] + name;
    crate::text::lemma_last_part(plain, start);
    assert(plain.skip(start) =~= name);
    crate::parsing::lemma_char_missing(name, '?', 0);
    let tail = name + seq!['?'] + query;
    let asked = directory + seq!['/'] + tail;
    assert forall|i: int| start <= i < asked.len() implies #[trigger] asked[i] != '/' by {
        let k = i - start;
        assert(asked[i] == tail[k]);
        if k < name.len() {
            assert(tail[k] == name[k]);
        } else if k > name.len() {
            assert(tail[k] == query[k - name.len() - 1]);
        }
    }
    crate::text::lemma_last_part(asked, start);
    assert(asked.skip(start) =~= tail);
    assert forall|i: int| 0 <= i < name.len() implies #[trigger] tail[i] != '?' by {
        assert(tail[i] == name[i]);
    }
    crate::parsing::lemma_char_found(tail, '?', 0, name.len() as int);
    assert(tail.take(name.len() as int) =~= name);
    let bare = directory + seq!['/'];
    crate::text::lemma_last_part(bare, start);
    let none = Seq::<char>::empty();
    assert(bare.skip(start) =~= none);
    crate::parsing::lemma_char_missing(none, '?', 0);
}

} // verus!
