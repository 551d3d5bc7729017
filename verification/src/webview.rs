//! What a live browser view reports: screenshots, console and error events,
//! dialogs and downloads.

use crate::ghostty::{optional_number, optional_number_json};
use crate::json::{lemma_array_view, optional_chars, optional_text_view, Json, JsonView, Object, ObjectView};
use crate::lists::views;
use vstd::prelude::*;

verus! {

/// Why nothing can be done with a surface that has no live view.
pub const NOT_LIVE: &'static str = "surface does not have a live WebView";

/// A screenshot.
pub struct ScreenshotResult {
    pub png_base64: String,
    pub width: i32,
    pub height: i32,
    pub full_page: bool,
}

/// What a screenshot is.
pub struct ScreenshotView {
    pub png_base64: Seq<char>,
    pub width: i32,
    pub height: i32,
    pub full_page: bool,
}

impl View for ScreenshotResult {
    type V = ScreenshotView;

    open spec fn view(&self) -> ScreenshotView {
        ScreenshotView {
            png_base64: self.png_base64@,
            width: self.width,
            height: self.height,
            full_page: self.full_page,
        }
    }
}

/// Something a page wrote to its console, or an error of it.
pub struct BrowserEvent {
    pub level: String,
    pub text: String,
    pub source: String,
    pub line: Option<u32>,
}

/// What an event is.
pub struct EventView {
    pub level: Seq<char>,
    pub text: Seq<char>,
    pub source: Seq<char>,
    pub line: Option<u32>,
}

impl View for BrowserEvent {
    type V = EventView;

    open spec fn view(&self) -> EventView {
        EventView {
            level: self.level@,
            text: self.text@,
            source: self.source@,
            line: self.line,
        }
    }
}

/// A dialog that a page opened.
pub struct DialogInfo {
    pub id: String,
    pub kind: String,
    pub message: String,
    pub default_text: String,
}

/// What a dialog is.
pub struct DialogView {
    pub id: Seq<char>,
    pub kind: Seq<char>,
    pub message: Seq<char>,
    pub default_text: Seq<char>,
}

impl View for DialogInfo {
    type V = DialogView;

    open spec fn view(&self) -> DialogView {
        DialogView {
            id: self.id@,
            kind: self.kind@,
            message: self.message@,
            default_text: self.default_text@,
        }
    }
}

/// A download that a page started.
pub struct DownloadInfo {
    pub id: String,
    pub url: String,
    pub path: String,
    pub status: String,
    pub received_bytes: u64,
    pub error: Option<String>,
}

/// What a download is.
pub struct DownloadView {
    pub id: Seq<char>,
    pub url: Seq<char>,
    pub path: Seq<char>,
    pub status: Seq<char>,
    pub received_bytes: u64,
    pub error: Option<Seq<char>>,
}

impl View for DownloadInfo {
    type V = DownloadView;

    open spec fn view(&self) -> DownloadView {
        DownloadView {
            id: self.id@,
            url: self.url@,
            path: self.path@,
            status: self.status@,
            received_bytes: self.received_bytes,
            error: optional_chars(self.error),
        }
    }
}

/// An event as an object.
pub open spec fn event_value(e: EventView) -> JsonView {
    ObjectView::new().with("level"@, JsonView::Text(e.level)).with(
        "text"@,
        JsonView::Text(e.text),
    ).with("source"@, JsonView::Text(e.source)).with("line"@, optional_number(e.line)).done()
}

/// Events as an array.
pub open spec fn events_value(events: Seq<EventView>) -> JsonView {
    JsonView::Array(events.map_values(|e: EventView| event_value(e)))
}

/// A dialog as an object.
pub open spec fn dialog_value(d: DialogView) -> JsonView {
    ObjectView::new().with("id"@, JsonView::Text(d.id)).with("kind"@, JsonView::Text(d.kind)).with(
        "message"@,
        JsonView::Text(d.message),
    ).with("default_text"@, JsonView::Text(d.default_text)).done()
}

/// A download as an object.
pub open spec fn download_value(d: DownloadView) -> JsonView {
    ObjectView::new().with("id"@, JsonView::Text(d.id)).with("url"@, JsonView::Text(d.url)).with(
        "path"@,
        JsonView::Text(d.path),
    ).with("status"@, JsonView::Text(d.status)).with(
        "received_bytes"@,
        JsonView::Unsigned(d.received_bytes),
    ).with("error"@, optional_text_view(d.error)).done()
}

/// Events as an array.
pub fn events_json(events: &Vec<BrowserEvent>) -> (r: Json)
    ensures
        r@ == events_value(views(events@)),
{
    broadcast use lemma_array_view;

    let mut items: Vec<Json> = Vec::new();
    let mut i: usize = 0;
    while i < events.len()
        invariant
            i <= events@.len(),
            items@.len() == i,
            forall|j: int| 0 <= j < i ==> (#[trigger] items@[j])@ == event_value(events@[j]@),
        decreases events@.len() - i,
    {
        let e = &events[i];
        items.push(
            Object::new().with("level", Json::text(e.level.as_str())).with(
                "text",
                Json::text(e.text.as_str()),
            ).with("source", Json::text(e.source.as_str())).with(
                "line",
                optional_number_json(e.line),
            ).done(),
        );
        i += 1;
    }
    let r = Json::Array(items);
    assert(r@->Array_0 =~= events_value(views(events@))->Array_0);
    r
}

/// A dialog as an object.
pub fn dialog_json(d: &DialogInfo) -> (r: Json)
    ensures
        r@ == dialog_value(d@),
{
    Object::new().with("id", Json::text(d.id.as_str())).with("kind", Json::text(d.kind.as_str())).with(
        "message",
        Json::text(d.message.as_str()),
    ).with("default_text", Json::text(d.default_text.as_str())).done()
}

/// A download as an object.
pub fn download_json(d: &DownloadInfo) -> (r: Json)
    ensures
        r@ == download_value(d@),
{
    Object::new().with("id", Json::text(d.id.as_str())).with("url", Json::text(d.url.as_str())).with(
        "path",
        Json::text(d.path.as_str()),
    ).with("status", Json::text(d.status.as_str())).with(
        "received_bytes",
        Json::Unsigned(d.received_bytes),
    ).with("error", Json::optional_text(&d.error)).done()
}

} // verus!
