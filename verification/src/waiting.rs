//! How a request waits until a page meets its conditions.
//!
//! A round looks at the conditions in turn. Where one does not hold, a pause is
//! asked for, which says whether the time is up; where it is not, the next round
//! starts with the replies that follow.

use crate::host::{
    ask, asking, evaluated, eval_live_browser_script, flag_at, flag_reply, is_true, ActionView, Heard,
    HeardValue, HostAction, HostCall, HostReply, ReplyView, Step, StepView,
};
use crate::json::{optional_chars, optional_ref_view, Json, JsonView, Object, ObjectView};
use crate::lists::{group_views, views};
use crate::page::{copy_optional, or_empty, text_or_empty, BrowserState, PageView};
use crate::query::{
    browser_element_id, browser_inner_text, element_id, eval_browser_script, page_text, script_answer,
};
use crate::rpc::{
    browser_timeout, browser_timeout_duration, optional_string_any2, optional_string_any3,
    optional_string_param, text1, text2, text3, timed_out, timeout_of, Readings,
};
use crate::script::{around, around_text};
use crate::text::{contains, holds, join2, owned, same};
use vstd::prelude::*;

verus! {

/// A condition of a wait: the script by which a live page tells that it holds,
/// and why it does not hold without one, if it does not. Without a script it
/// cannot hold.
pub struct Condition {
    pub script: Option<String>,
    pub refusal: Option<String>,
}

/// What a condition is.
pub struct ConditionView {
    pub script: Option<Seq<char>>,
    pub refusal: Option<Seq<char>>,
}

impl View for Condition {
    type V = ConditionView;

    open spec fn view(&self) -> ConditionView {
        ConditionView {
            script: optional_chars(self.script),
            refusal: optional_chars(self.refusal),
        }
    }
}

/// What a round comes to: whether a live page took part, or why a condition
/// does not hold.
pub enum HeardRound {
    Ask(HostCall),
    Got(Result<bool, String>, usize),
}

impl View for HeardRound {
    type V = Heard<Result<bool, Seq<char>>>;

    open spec fn view(&self) -> Heard<Result<bool, Seq<char>>> {
        match *self {
            HeardRound::Ask(call) => Heard::Ask(call@),
            HeardRound::Got(Ok(live), next) => Heard::Got(Ok(live), next as int),
            HeardRound::Got(Err(e), next) => Heard::Got(Err(e@), next as int),
        }
    }
}

// ---------------------------------------------------------------------------
// Conditions

/// A condition, or none.
pub open spec fn maybe(c: Option<ConditionView>) -> Seq<ConditionView> {
    match c {
        Some(condition) => seq![condition],
        None => Seq::empty(),
    }
}

/// A refusal, unless something holds.
pub open spec fn unless(met: bool, message: Seq<char>) -> Option<Seq<char>> {
    if met {
        None
    } else {
        Some(message)
    }
}

/// That an element is there.
pub open spec fn selector_condition(page: PageView, selector: Seq<char>) -> ConditionView {
    ConditionView {
        script: Some(around("document.querySelector("@, selector, ") !== null"@)),
        refusal: unless(element_id(page, selector) is Ok, "selector not found: "@ + selector),
    }
}

/// That the page says something.
pub open spec fn text_condition(page: PageView, text: Seq<char>) -> ConditionView {
    ConditionView {
        script: Some(around("document.body && document.body.innerText.includes("@, text, ")"@)),
        refusal: unless(holds(page_text(page), text), "text not found: "@ + text),
    }
}

/// That a script comes to `true`.
pub open spec fn function_condition(page: PageView, script: Seq<char>) -> ConditionView {
    ConditionView {
        script: Some(script),
        refusal: unless(
            script_answer(page, script) == JsonView::Bool(true),
            "function did not become true"@,
        ),
    }
}

/// That the page is loaded. A page that is not live counts as loaded.
pub open spec fn load_condition(load_state: Seq<char>) -> ConditionView {
    if load_state == "complete"@ || load_state == "load"@ {
        ConditionView { script: Some("document.readyState === 'complete'"@), refusal: None }
    } else if load_state == "domcontentloaded"@ {
        ConditionView {
            script: Some(
                "document.readyState === 'interactive' || document.readyState === 'complete'"@,
            ),
            refusal: None,
        }
    } else {
        ConditionView { script: None, refusal: Some("unsupported load state: "@ + load_state) }
    }
}

/// That the address holds something.
pub open spec fn url_condition(url: Option<Seq<char>>, part: Seq<char>) -> ConditionView {
    ConditionView {
        script: Some(around("location.href.includes("@, part, ")"@)),
        refusal: unless(holds(or_empty(url), part), "url does not contain: "@ + part),
    }
}

/// The condition on an element that a request names, if it names one.
pub open spec fn selector_wanted(page: PageView, params: Option<JsonView>) -> Option<ConditionView> {
    match text1(params, "selector"@) {
        Some(s) => Some(selector_condition(page, s)),
        None => None,
    }
}

/// The condition on the text that a request names, if it names one.
pub open spec fn text_wanted(page: PageView, params: Option<JsonView>) -> Option<ConditionView> {
    match text3(params, "text_contains"@, "textContains"@, "text"@) {
        Some(s) => Some(text_condition(page, s)),
        None => None,
    }
}

/// The condition by the script that a request names, if it names one.
pub open spec fn function_wanted(page: PageView, params: Option<JsonView>) -> Option<ConditionView> {
    match text2(params, "function"@, "script"@) {
        Some(s) => Some(function_condition(page, s)),
        None => None,
    }
}

/// The condition on loading that a request names, if it names one.
pub open spec fn load_wanted(params: Option<JsonView>) -> Option<ConditionView> {
    match text2(params, "load_state"@, "loadState"@) {
        Some(s) => Some(load_condition(s)),
        None => None,
    }
}

/// The condition on the address that a request names, if it names one.
pub open spec fn url_wanted(url: Option<Seq<char>>, params: Option<JsonView>) -> Option<ConditionView> {
    match text2(params, "url_contains"@, "urlContains"@) {
        Some(s) => Some(url_condition(url, s)),
        None => None,
    }
}

/// The conditions of a wait, in the order in which they are looked at.
pub open spec fn conditions(
    page: PageView,
    url: Option<Seq<char>>,
    params: Option<JsonView>,
) -> Seq<ConditionView> {
    maybe(selector_wanted(page, params)) + maybe(text_wanted(page, params)) + maybe(
        function_wanted(page, params),
    ) + maybe(load_wanted(params)) + maybe(url_wanted(url, params))
}

/// A refusal, unless something holds.
fn refusal_unless(met: bool, message: String) -> (r: Option<String>)
    ensures
        optional_chars(r) == unless(met, message@),
{
    if met {
        None
    } else {
        Some(message)
    }
}

/// That the page is loaded.
fn load_condition_of(load_state: &str) -> (r: Condition)
    ensures
        r@ == load_condition(load_state@),
{
    if same(load_state, "complete") || same(load_state, "load") {
        Condition { script: Some(owned("document.readyState === 'complete'")), refusal: None }
    } else if same(load_state, "domcontentloaded") {
        Condition {
            script: Some(
                owned("document.readyState === 'interactive' || document.readyState === 'complete'"),
            ),
            refusal: None,
        }
    } else {
        Condition { script: None, refusal: Some(join2("unsupported load state: ", load_state)) }
    }
}

/// Puts a condition behind the others.
fn push_condition(list: &mut Vec<Condition>, c: Condition)
    ensures
        views(final(list)@) == views(old(list)@) + seq![c@],
{
    broadcast use group_views;

    let ghost before = list@;
    list.push(c);
    assert(views(list@) =~= views(before) + seq![c@]);
}

/// The conditions of a wait.
pub fn wait_conditions(page: &BrowserState, url: &Option<String>, params: Option<&Json>) -> (r: Vec<
    Condition,
>)
    ensures
        views(r@) == conditions(page@, optional_chars(*url), optional_ref_view(params)),
{
    broadcast use group_views;

    let mut list: Vec<Condition> = Vec::new();
    let ghost p = optional_ref_view(params);
    let ghost u = optional_chars(*url);
    assert(views(list@) =~= Seq::<ConditionView>::empty());
    if let Some(s) = optional_string_param(params, "selector") {
        let script = around_text("document.querySelector(", s.as_str(), ") !== null");
        let refusal = refusal_unless(
            browser_element_id(page, s.as_str()).is_ok(),
            join2("selector not found: ", s.as_str()),
        );
        push_condition(&mut list, Condition { script: Some(script), refusal });
    }
    assert(views(list@) =~= maybe(selector_wanted(page@, p)));
    if let Some(s) = optional_string_any3(params, "text_contains", "textContains", "text") {
        let script = around_text(
            "document.body && document.body.innerText.includes(",
            s.as_str(),
            ")",
        );
        let refusal = refusal_unless(
            contains(browser_inner_text(page).as_str(), s.as_str()),
            join2("text not found: ", s.as_str()),
        );
        push_condition(&mut list, Condition { script: Some(script), refusal });
    }
    assert(views(list@) =~= maybe(selector_wanted(page@, p)) + maybe(text_wanted(page@, p)));
    if let Some(s) = optional_string_any2(params, "function", "script") {
        let met = is_true(Some(eval_browser_script(page, s.as_str())));
        let refusal = refusal_unless(met, owned("function did not become true"));
        push_condition(&mut list, Condition { script: Some(s), refusal });
    }
    assert(views(list@) =~= maybe(selector_wanted(page@, p)) + maybe(text_wanted(page@, p)) + maybe(
        function_wanted(page@, p),
    ));
    if let Some(s) = optional_string_any2(params, "load_state", "loadState") {
        push_condition(&mut list, load_condition_of(s.as_str()));
    }
    assert(views(list@) =~= maybe(selector_wanted(page@, p)) + maybe(text_wanted(page@, p)) + maybe(
        function_wanted(page@, p),
    ) + maybe(load_wanted(p)));
    if let Some(s) = optional_string_any2(params, "url_contains", "urlContains") {
        let script = around_text("location.href.includes(", s.as_str(), ")");
        let refusal = refusal_unless(
            contains(text_or_empty(copy_optional(url)).as_str(), s.as_str()),
            join2("url does not contain: ", s.as_str()),
        );
        push_condition(&mut list, Condition { script: Some(script), refusal });
    }
    assert(views(list@) =~= conditions(page@, u, p));
    list
}

// ---------------------------------------------------------------------------
// Rounds

/// What the conditions from `k` on come to, with the replies from `i` on.
pub open spec fn checked_from(
    surface_id: Seq<char>,
    list: Seq<ConditionView>,
    k: int,
    live: bool,
    replies: Seq<ReplyView>,
    i: int,
) -> Heard<Result<bool, Seq<char>>>
    decreases list.len() - k,
{
    if k < 0 || k >= list.len() {
        Heard::Got(Ok(live), i)
    } else {
        match list[k].script {
            None => Heard::Got(Err(or_empty(list[k].refusal)), i),
            Some(script) => match evaluated(replies, i, surface_id, script) {
                Heard::Ask(call) => Heard::Ask(call),
                Heard::Got(value, n) => if value == Some(JsonView::Bool(true)) {
                    checked_from(surface_id, list, k + 1, true, replies, n)
                } else {
                    match list[k].refusal {
                        Some(message) => Heard::Got(Err(message), n),
                        None => checked_from(surface_id, list, k + 1, live, replies, n),
                    }
                },
            },
        }
    }
}

/// What a round comes to, with the replies from `i` on. Without conditions it
/// asks only whether there is a live page.
pub open spec fn round(
    surface_id: Seq<char>,
    list: Seq<ConditionView>,
    replies: Seq<ReplyView>,
    i: int,
) -> Heard<Result<bool, Seq<char>>> {
    if list.len() == 0 {
        match flag_at(replies, i) {
            None => Heard::Ask(asking(surface_id, ActionView::BrowserRegistered)),
            Some(live) => Heard::Got(Ok(live), i + 1),
        }
    } else {
        checked_from(surface_id, list, 0, false, replies, i)
    }
}

/// The replies never go back.
pub proof fn lemma_checked_advances(
    surface_id: Seq<char>,
    list: Seq<ConditionView>,
    k: int,
    live: bool,
    replies: Seq<ReplyView>,
    i: int,
)
    ensures
        checked_from(surface_id, list, k, live, replies, i) matches Heard::Got(_, n) ==> n >= i,
    decreases list.len() - k,
{
    if 0 <= k < list.len() {
        if let Some(script) = list[k].script {
            if let Heard::Got(value, n) = evaluated(replies, i, surface_id, script) {
                lemma_checked_advances(surface_id, list, k + 1, true, replies, n);
                lemma_checked_advances(surface_id, list, k + 1, live, replies, n);
            }
        }
    }
}

/// What the conditions come to.
fn check_conditions(
    surface_id: &str,
    list: &Vec<Condition>,
    replies: &Vec<HostReply>,
    start: usize,
) -> (r: HeardRound)
    requires
        start <= replies@.len(),
    ensures
        r@ == checked_from(surface_id@, views(list@), 0, false, views(replies@), start as int),
        r matches HeardRound::Got(_, n) ==> start <= n <= replies@.len(),
{
    let mut k: usize = 0;
    let mut i: usize = start;
    let mut live = false;
    while k < list.len()
        invariant
            k <= list@.len(),
            start <= i <= replies@.len(),
            checked_from(surface_id@, views(list@), k as int, live, views(replies@), i as int)
                == checked_from(surface_id@, views(list@), 0, false, views(replies@), start as int),
        decreases list@.len() - k,
    {
        assert(views(list@)[k as int] == list@[k as int]@);
        match &list[k].script {
            None => {
                return HeardRound::Got(Err(text_or_empty(copy_optional(&list[k].refusal))), i);
            },
            Some(script) => {
                match eval_live_browser_script(replies, i, surface_id, script.as_str()) {
                    HeardValue::Ask(call) => {
                        return HeardRound::Ask(call);
                    },
                    HeardValue::Got(value, n) => {
                        if is_true(value) {
                            live = true;
                        } else if let Some(message) = &list[k].refusal {
                            return HeardRound::Got(Err(message.clone()), n);
                        }
                        i = n;
                    },
                }
            },
        }
        k += 1;
    }
    HeardRound::Got(Ok(live), i)
}

/// What a round comes to.
pub fn browser_wait_once(
    surface_id: &str,
    list: &Vec<Condition>,
    replies: &Vec<HostReply>,
    i: usize,
) -> (r: HeardRound)
    requires
        i <= replies@.len(),
    ensures
        r@ == round(surface_id@, views(list@), views(replies@), i as int),
        r matches HeardRound::Got(_, n) ==> i <= n <= replies@.len(),
{
    assert(replies.len() <= usize::MAX);
    if list.len() == 0 {
        match flag_reply(replies, i) {
            None => HeardRound::Ask(ask(surface_id, HostAction::BrowserRegistered)),
            Some(live) => HeardRound::Got(Ok(live), i + 1),
        }
    } else {
        check_conditions(surface_id, list, replies, i)
    }
}

// ---------------------------------------------------------------------------
// The wait

/// The answer to a wait whose conditions hold.
pub open spec fn waited(surface_id: Seq<char>, live: bool) -> JsonView {
    ObjectView::new().with("surface_id"@, JsonView::Text(surface_id)).with(
        "ok"@,
        JsonView::Bool(true),
    ).with("live_webview"@, JsonView::Bool(live)).done()
}

/// What a wait comes to, with the replies from `i` on: rounds, with a pause
/// between them, until the conditions hold or a pause says that the time is up.
pub open spec fn wait_from(
    surface_id: Seq<char>,
    list: Seq<ConditionView>,
    timeout_ms: u64,
    replies: Seq<ReplyView>,
    i: int,
) -> StepView
    decreases replies.len() - i,
{
    match round(surface_id, list, replies, i) {
        Heard::Ask(call) => StepView::Ask(call),
        Heard::Got(Ok(live), _) => StepView::Done(Ok(waited(surface_id, live))),
        Heard::Got(Err(message), n) => match flag_at(replies, n) {
            None => StepView::Ask(asking(surface_id, ActionView::Pause { timeout_ms })),
            Some(up) => {
                proof {
                    lemma_checked_advances(surface_id, list, 0, false, replies, i);
                }
                if up {
                    StepView::Done(Err(timed_out(message)))
                } else {
                    wait_from(surface_id, list, timeout_ms, replies, n + 1)
                }
            },
        },
    }
}

/// How long a wait takes at most, where the request does not say.
pub const WAIT_MS: u64 = 5000;

/// What a request to wait comes to.
pub open spec fn wait_step(
    surface_id: Seq<char>,
    page: PageView,
    url: Option<Seq<char>>,
    params: Option<JsonView>,
    readings: Readings,
    replies: Seq<ReplyView>,
) -> StepView {
    wait_from(
        surface_id,
        conditions(page, url, params),
        timeout_of(params, readings, WAIT_MS),
        replies,
        0,
    )
}

/// What a request to wait comes to.
pub fn browser_wait(
    surface_id: &str,
    page: &BrowserState,
    url: &Option<String>,
    params: Option<&Json>,
    readings: &Readings,
    replies: &Vec<HostReply>,
) -> (r: Step)
    ensures
        r@ == wait_step(
            surface_id@,
            page@,
            optional_chars(*url),
            optional_ref_view(params),
            *readings,
            views(replies@),
        ),
{
    let timeout_ms: u64 = browser_timeout_duration(params, readings, WAIT_MS);
    let list = wait_conditions(page, url, params);
    let mut i: usize = 0;
    let length: usize = replies.len();
    let ghost all = views(replies@);
    let ghost wanted = views(list@);
    loop
        invariant
            i <= length == replies@.len(),
            all == views(replies@),
            wanted == views(list@),
            wait_from(surface_id@, wanted, timeout_ms, all, i as int) == wait_step(
                surface_id@,
                page@,
                optional_chars(*url),
                optional_ref_view(params),
                *readings,
                all,
            ),
        decreases replies@.len() - i,
    {
        match browser_wait_once(surface_id, &list, replies, i) {
            HeardRound::Ask(call) => {
                return Step::Ask(call);
            },
            HeardRound::Got(Ok(live), _) => {
                return Step::Done(
                    Ok(
                        Object::new().with("surface_id", Json::text(surface_id)).with(
                            "ok",
                            Json::Bool(true),
                        ).with("live_webview", Json::Bool(live)).done(),
                    ),
                );
            },
            HeardRound::Got(Err(message), n) => {
                match flag_reply(replies, n) {
                    None => {
                        return Step::Ask(ask(surface_id, HostAction::Pause { timeout_ms }));
                    },
                    Some(up) => {
                        if up {
                            return Step::Done(Err(browser_timeout(message.as_str())));
                        }
                        i = n + 1;
                    },
                }
            },
        }
    }
}

// ---------------------------------------------------------------------------
// Laws

/// What is heard, with the place in the replies moved back.
pub open spec fn moved_back(
    heard: Heard<Result<bool, Seq<char>>>,
    by: int,
) -> Heard<Result<bool, Seq<char>>> {
    match heard {
        Heard::Ask(call) => Heard::Ask(call),
        Heard::Got(value, n) => Heard::Got(value, n - by),
    }
}

/// The conditions come to the same with the replies that are left alone.
proof fn lemma_checked_moves(
    surface_id: Seq<char>,
    list: Seq<ConditionView>,
    k: int,
    live: bool,
    replies: Seq<ReplyView>,
    i: int,
    by: int,
)
    requires
        0 <= by <= i,
        by <= replies.len(),
    ensures
        checked_from(surface_id, list, k, live, replies.skip(by), i - by) == moved_back(
            checked_from(surface_id, list, k, live, replies, i),
            by,
        ),
    decreases list.len() - k,
{
    if 0 <= k < list.len() {
        if let Some(script) = list[k].script {
            let rest = replies.skip(by);
            assert(i < replies.len() ==> rest[i - by] == replies[i]);
            assert(i + 1 < replies.len() ==> rest[i + 1 - by] == replies[i + 1]);
            if let Heard::Got(value, n) = evaluated(replies, i, surface_id, script) {
                lemma_checked_moves(surface_id, list, k + 1, true, replies, n, by);
                lemma_checked_moves(surface_id, list, k + 1, live, replies, n, by);
            }
        }
    }
}

/// A wait that goes on depends only on the replies that come after: those of
/// the rounds that failed can be forgotten.
pub proof fn law_wait_forgets_failed_rounds(
    surface_id: Seq<char>,
    list: Seq<ConditionView>,
    timeout_ms: u64,
    replies: Seq<ReplyView>,
    i: int,
    by: int,
)
    requires
        0 <= by <= i <= replies.len(),
    ensures
        wait_from(surface_id, list, timeout_ms, replies.skip(by), i - by) == wait_from(
            surface_id,
            list,
            timeout_ms,
            replies,
            i,
        ),
    decreases replies.len() - i,
{
    let rest = replies.skip(by);
    lemma_checked_moves(surface_id, list, 0, false, replies, i, by);
    lemma_checked_advances(surface_id, list, 0, false, replies, i);
    assert(i < replies.len() ==> rest[i - by] == replies[i]);
    if let Heard::Got(Err(message), n) = round(surface_id, list, replies, i) {
        assert(n < replies.len() ==> rest[n - by] == replies[n]);
        if flag_at(replies, n) == Some(false) {
            law_wait_forgets_failed_rounds(surface_id, list, timeout_ms, replies, n + 1, by);
        }
    }
}

/// Without conditions a wait holds at once: it asks whether there is a live
/// page, and answers with that.
pub proof fn law_wait_for_nothing_holds(
    surface_id: Seq<char>,
    timeout_ms: u64,
    replies: Seq<ReplyView>,
)
    requires
        replies.len() > 0,
    ensures
        wait_from(surface_id, Seq::empty(), timeout_ms, replies, 0) == StepView::Done(
            Ok(waited(surface_id, flag_at(replies, 0)->0)),
        ),
{
}

} // verus!
