//! What a request says of a surface to be opened, and the surface that it
//! becomes.

use crate::json::{lemma_object_view, optional_chars, optional_ref_view, Json, JsonView};
use crate::layout::SplitDirection;
use crate::model::{SurfaceKind, SurfaceRecord, SurfaceView};
use crate::page::{browser_state_for_url, copy_optional, page_for, readable, BrowserState, PageView};
use crate::rpc::{
    command_param, command_text, directory_param, directory_text, invalid, invalid_params,
    optional_string_param, param, param_value, raw_text, raw_text_param, text1, ErrorView, RpcError,
};
use crate::text::{join2, owned, same, texts, trim, trimmed};
use vstd::prelude::*;

verus! {

/// The kind with a name.
pub open spec fn kind_named(name: Seq<char>) -> Option<SurfaceKind> {
    if name == "terminal"@ {
        Some(SurfaceKind::Terminal)
    } else if name == "browser"@ {
        Some(SurfaceKind::Browser)
    } else if name == "markdown"@ {
        Some(SurfaceKind::Markdown)
    } else {
        None
    }
}

/// The kind that a value is: its name, or an object with nothing but null
/// under its name.
pub open spec fn kind_in(value: JsonView) -> Option<SurfaceKind> {
    match value {
        JsonView::Text(name) => kind_named(name),
        JsonView::Object(entries) => if entries.len() == 1 && entries[0].1 == JsonView::Null {
            kind_named(entries[0].0)
        } else {
            None
        },
        _ => None,
    }
}

/// What a request says of the kind.
pub open spec fn kind_param(params: Option<JsonView>) -> Option<JsonView> {
    match param(params, "type"@) {
        Some(v) => Some(v),
        None => param(params, "kind"@),
    }
}

/// The kind that a request asks for: a terminal where it does not say.
pub open spec fn requested_kind(params: Option<JsonView>, refusal: Seq<char>) -> Result<
    SurfaceKind,
    ErrorView,
> {
    match kind_param(params) {
        None => Ok(SurfaceKind::Terminal),
        Some(value) => match kind_in(value) {
            Some(kind) => Ok(kind),
            None => Err(invalid(refusal)),
        },
    }
}

/// What a result says whose value is a kind.
pub open spec fn kind_outcome(r: Result<SurfaceKind, RpcError>) -> Result<SurfaceKind, ErrorView> {
    match r {
        Ok(k) => Ok(k),
        Err(e) => Err(e@),
    }
}

/// The kind with a name.
fn kind_from_name(name: &str) -> (r: Option<SurfaceKind>)
    ensures
        r == kind_named(name@),
{
    if same(name, "terminal") {
        Some(SurfaceKind::Terminal)
    } else if same(name, "browser") {
        Some(SurfaceKind::Browser)
    } else if same(name, "markdown") {
        Some(SurfaceKind::Markdown)
    } else {
        None
    }
}

/// The kind that a value is.
fn kind_from_value(value: &Json) -> (r: Option<SurfaceKind>)
    ensures
        r == kind_in(value@),
{
    broadcast use lemma_object_view;

    match value {
        Json::Text(name) => kind_from_name(name.as_str()),
        Json::Object(entries) => {
            if entries.len() == 1 && entries[0].1.is_null() {
                kind_from_name(entries[0].0.as_str())
            } else {
                None
            }
        },
        _ => None,
    }
}

/// The kind that a request asks for.
pub fn surface_kind_param(params: Option<&Json>, refusal: &str) -> (r: Result<
    SurfaceKind,
    RpcError,
>)
    ensures
        kind_outcome(r) == requested_kind(optional_ref_view(params), refusal@),
{
    let given = match param_value(params, "type") {
        Some(v) => Some(v),
        None => param_value(params, "kind"),
    };
    match given {
        None => Ok(SurfaceKind::Terminal),
        Some(value) => match kind_from_value(value) {
            Some(kind) => Ok(kind),
            None => Err(invalid_params(refusal)),
        },
    }
}

/// What is said of a direction; right where nothing is.
pub open spec fn direction_word(params: Option<JsonView>) -> Seq<char> {
    match text1(params, "direction"@) {
        Some(word) => word,
        None => "right"@,
    }
}

/// The direction of a split that a request asks for.
pub open spec fn requested_direction(params: Option<JsonView>) -> Result<SplitDirection, ErrorView> {
    let word = direction_word(params);
    if word == "left"@ || word == "right"@ || word == "horizontal"@ {
        Ok(SplitDirection::Horizontal)
    } else if word == "up"@ || word == "down"@ || word == "top"@ || word == "bottom"@ || word
        == "vertical"@ {
        Ok(SplitDirection::Vertical)
    } else {
        Err(invalid("unknown split direction: "@ + word))
    }
}

/// Whether a request asks for the place before the pane that is split.
pub open spec fn asks_before(params: Option<JsonView>) -> bool {
    match raw_text(params, "direction"@) {
        Some(s) => trimmed(s) == "left"@ || trimmed(s) == "up"@ || trimmed(s) == "top"@,
        None => false,
    }
}

/// What a result says whose value is a direction.
pub open spec fn direction_outcome(r: Result<SplitDirection, RpcError>) -> Result<
    SplitDirection,
    ErrorView,
> {
    match r {
        Ok(d) => Ok(d),
        Err(e) => Err(e@),
    }
}

/// The direction of a split that a request asks for.
pub fn split_direction_from_params(params: Option<&Json>) -> (r: Result<SplitDirection, RpcError>)
    ensures
        direction_outcome(r) == requested_direction(optional_ref_view(params)),
{
    let word = match optional_string_param(params, "direction") {
        Some(word) => word,
        None => owned("right"),
    };
    let w = word.as_str();
    if same(w, "left") || same(w, "right") || same(w, "horizontal") {
        Ok(SplitDirection::Horizontal)
    } else if same(w, "up") || same(w, "down") || same(w, "top") || same(w, "bottom") || same(
        w,
        "vertical",
    ) {
        Ok(SplitDirection::Vertical)
    } else {
        Err(invalid_params(join2("unknown split direction: ", w).as_str()))
    }
}

/// Whether a request asks for the place before the pane that is split.
pub fn split_insert_before(params: Option<&Json>) -> (r: bool)
    ensures
        r == asks_before(optional_ref_view(params)),
{
    match raw_text_param(params, "direction") {
        Some(s) => {
            let word = trim(s.as_str());
            same(word.as_str(), "left") || same(word.as_str(), "up") || same(word.as_str(), "top")
        },
        None => false,
    }
}

/// The title of a surface that has none of its own.
pub open spec fn default_title(kind: SurfaceKind, url: Option<Seq<char>>) -> Seq<char> {
    match kind {
        SurfaceKind::Browser => match url {
            Some(u) => u,
            None => "Browser"@,
        },
        SurfaceKind::Markdown => "Markdown"@,
        SurfaceKind::Terminal => "Terminal"@,
    }
}

/// The title of a surface that has none of its own.
pub fn default_surface_title(kind: SurfaceKind, url: &Option<String>) -> (r: String)
    ensures
        r@ == default_title(kind, optional_chars(*url)),
{
    match kind {
        SurfaceKind::Browser => match url {
            Some(u) => u.clone(),
            None => owned("Browser"),
        },
        SurfaceKind::Markdown => owned("Markdown"),
        SurfaceKind::Terminal => owned("Terminal"),
    }
}

/// What a new surface starts with.
pub struct Opening {
    pub title: String,
    pub kind: SurfaceKind,
    pub command: Option<String>,
    pub directory: Option<String>,
    pub url: Option<String>,
}

/// What a new surface starts with.
pub struct OpeningView {
    pub title: Seq<char>,
    pub kind: SurfaceKind,
    pub command: Option<Seq<char>>,
    pub directory: Option<Seq<char>>,
    pub url: Option<Seq<char>>,
}

impl View for Opening {
    type V = OpeningView;

    open spec fn view(&self) -> OpeningView {
        OpeningView {
            title: self.title@,
            kind: self.kind,
            command: optional_chars(self.command),
            directory: optional_chars(self.directory),
            url: optional_chars(self.url),
        }
    }
}

impl OpeningView {
    /// The URL whose page is read when the surface opens.
    pub open spec fn page_url(self) -> Option<Seq<char>> {
        if self.kind == SurfaceKind::Browser {
            self.url
        } else {
            None
        }
    }

    /// Whether the page that is read, if any, can be.
    pub open spec fn can_open(self) -> bool {
        match self.page_url() {
            Some(url) => readable(url),
            None => true,
        }
    }

    /// The surface that it becomes: a browser with a URL shows the page of that
    /// URL, under the title of the page where it has one.
    pub open spec fn surface(
        self,
        id: Seq<char>,
        workspace_id: Seq<char>,
        pane_id: Seq<char>,
    ) -> SurfaceView {
        let page = match self.page_url() {
            Some(url) => page_for(url),
            None => PageView::blank(),
        };
        SurfaceView {
            id,
            workspace_id,
            pane_id,
            title: if self.page_url() is Some && page.title.len() > 0 {
                page.title
            } else {
                self.title
            },
            kind: self.kind,
            initial_command: self.command,
            working_directory: self.directory,
            url: self.url,
            history: match self.url {
                Some(url) => seq![url],
                None => Seq::empty(),
            },
            history_index: match self.url {
                Some(_) => Some(0),
                None => None,
            },
            input_log: Seq::empty(),
            browser_state: page,
        }
    }
}

impl Opening {
    /// The URL whose page is read when the surface opens.
    pub fn page_url(&self) -> (r: Option<String>)
        ensures
            optional_chars(r) == self@.page_url(),
    {
        match self.kind {
            SurfaceKind::Browser => copy_optional(&self.url),
            _ => None,
        }
    }

    /// The surface that it becomes.
    pub fn open(self, id: &str, workspace_id: &str, pane_id: &str) -> (r: SurfaceRecord)
        requires
            self@.can_open(),
        ensures
            r@ == self@.surface(id@, workspace_id@, pane_id@),
    {
        let mut history: Vec<String> = Vec::new();
        assert(texts(history@) =~= Seq::empty());
        let mut history_index: Option<usize> = None;
        if let Some(u) = &self.url {
            history.push(u.clone());
            history_index = Some(0);
            assert(texts(history@) =~= seq![u@]);
        }
        let mut title = self.title;
        let mut browser_state = BrowserState::default();
        if let SurfaceKind::Browser = self.kind {
            if let Some(u) = &self.url {
                browser_state = browser_state_for_url(u.as_str());
                if !browser_state.title.as_str().is_empty() {
                    title = browser_state.title.clone();
                }
            }
        }
        let input_log: Vec<String> = Vec::new();
        assert(texts(input_log@) =~= Seq::empty());
        SurfaceRecord {
            id: owned(id),
            workspace_id: owned(workspace_id),
            pane_id: owned(pane_id),
            title,
            kind: self.kind,
            initial_command: self.command,
            working_directory: self.directory,
            url: self.url,
            history,
            history_index,
            input_log,
            browser_state,
        }
    }
}

/// What a request says of a surface of a kind.
pub open spec fn opening_of(params: Option<JsonView>, kind: SurfaceKind, titled: bool) -> OpeningView {
    let url = text1(params, "url"@);
    OpeningView {
        title: match text1(params, "title"@) {
            Some(title) => if titled {
                title
            } else {
                default_title(kind, url)
            },
            None => default_title(kind, url),
        },
        kind,
        command: command_text(params),
        directory: directory_text(params),
        url,
    }
}

/// What a request says of a surface of a kind. A title is heeded where
/// `titled` says so.
pub fn opening_from_params(params: Option<&Json>, kind: SurfaceKind, titled: bool) -> (r: Opening)
    ensures
        r@ == opening_of(optional_ref_view(params), kind, titled),
{
    let url = optional_string_param(params, "url");
    let title = match optional_string_param(params, "title") {
        Some(title) => if titled {
            title
        } else {
            default_surface_title(kind, &url)
        },
        None => default_surface_title(kind, &url),
    };
    Opening {
        title,
        kind,
        command: command_param(params),
        directory: directory_param(params),
        url,
    }
}

} // verus!
