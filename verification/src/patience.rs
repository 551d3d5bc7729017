//! What a request waits for, and when it stops waiting.

use crate::host::{evaluated, script_value, ActionView, Heard, ReplyView, ScriptView, StepView};
use crate::json::{lemma_with_get, quoted, JsonView};
use crate::keyed::lookup;
use crate::page::{or_empty, ElementView, PageView};
use crate::query::{element_id, line, lines_from, page_text, script_answer, tagged_from};
use crate::rpc::{text1, text2, text3, Readings};
use crate::text::{has_prefix, holds, law_holds_is_an_occurrence, occurs_at};
use crate::waiting::{
    checked_from, conditions, function_wanted, lemma_checked_advances, load_wanted, maybe, round,
    selector_wanted, text_wanted, url_wanted, wait_from, wait_step, waited, ConditionView,
};
use vstd::prelude::*;

verus! {

// ---------------------------------------------------------------------------
// What a page shows

/// Whether a text can be cut out of another.
pub open spec fn is_part(s: Seq<char>, part: Seq<char>) -> bool {
    exists|a: Seq<char>, b: Seq<char>| s == #[trigger] (a + part + b)
}

/// A text holds the parts of it.
pub proof fn law_a_text_holds_its_parts(s: Seq<char>, part: Seq<char>)
    ensures
        holds(s, part) <==> is_part(s, part),
{
    law_holds_is_an_occurrence(s, part);
    if holds(s, part) {
        let i = choose|i: int| occurs_at(s, part, i);
        let a = s.take(i);
        let b = s.skip(i + part.len());
        assert(s =~= a + part + b) by {
            assert forall|k: int| 0 <= k < s.len() implies #[trigger] s[k] == (a + part + b)[k] by {
                if i <= k < i + part.len() {
                    assert(s.subrange(i, i + part.len())[k - i] == part[k - i]);
                }
            }
        }
    }
    if is_part(s, part) {
        let (a, b) = choose|a: Seq<char>, b: Seq<char>| s == #[trigger] (a + part + b);
        assert(s.subrange(a.len() as int, (a.len() + part.len()) as int) =~= part);
        assert(occurs_at(s, part, a.len() as int));
    }
}

/// Whether a text is on one line.
pub open spec fn is_one_line(s: Seq<char>) -> bool {
    s.len() > 0 && forall|i: int| 0 <= i < s.len() ==> #[trigger] s[i] != '\n'
}

/// A line of a text that starts with a line is part of that line, or of the
/// rest.
proof fn lemma_in_lines(first: Seq<char>, rest: Seq<char>, part: Seq<char>)
    requires
        is_one_line(part),
    ensures
        is_part(line(first) + rest, part) <==> is_part(first, part) || is_part(rest, part),
{
    let s = line(first) + rest;
    if is_part(first, part) {
        let (a, b) = choose|a: Seq<char>, b: Seq<char>| first == #[trigger] (a + part + b);
        assert(s =~= a + part + (b + seq!['\n'] + rest));
    }
    if is_part(rest, part) {
        let (a, b) = choose|a: Seq<char>, b: Seq<char>| rest == #[trigger] (a + part + b);
        assert(s =~= (line(first) + a) + part + b);
    }
    if is_part(s, part) {
        let (a, b) = choose|a: Seq<char>, b: Seq<char>| s == #[trigger] (a + part + b);
        let n = line(first).len() as int;
        if n == 0 {
            assert(s =~= rest);
        } else if a.len() + part.len() < n {
            let c = first.skip((a.len() + part.len()) as int);
            assert(first =~= a + part + c) by {
                assert forall|k: int| 0 <= k < first.len() implies #[trigger] first[k] == (a + part
                    + c)[k] by {
                    assert(s[k] == first[k]);
                }
            }
        } else if a.len() >= n {
            let c = a.skip(n);
            assert(rest =~= s.skip(n));
            assert((a + part + b).skip(n) =~= c + part + b);
        } else {
            assert(s[n - 1] == '\n');
            assert(s[n - 1] == part[n - 1 - a.len()]);
        }
    }
}

/// Whether an element shows a text.
pub open spec fn element_shows(e: ElementView, part: Seq<char>) -> bool {
    is_part(e.text, part) || is_part(e.value, part)
}

/// What stands in the lines of the elements.
proof fn lemma_elements_show(elements: Seq<(Seq<char>, ElementView)>, i: int, part: Seq<char>)
    requires
        0 <= i <= elements.len(),
        is_one_line(part),
    ensures
        is_part(lines_from(elements, i), part) <==> exists|k: int|
            i <= k < elements.len() && element_shows((#[trigger] elements[k]).1, part),
    decreases elements.len() - i,
{
    if i < elements.len() {
        let rest = lines_from(elements, i + 1);
        let e = elements[i].1;
        lemma_elements_show(elements, i + 1, part);
        lemma_in_lines(e.value, rest, part);
        lemma_in_lines(e.text, line(e.value) + rest, part);
        assert(lines_from(elements, i) =~= line(e.text) + (line(e.value) + rest));
        if element_shows(e, part) {
            assert(element_shows(elements[i].1, part));
        }
    } else {
        if is_part(lines_from(elements, i), part) {
            let (a, b) = choose|a: Seq<char>, b: Seq<char>|
                lines_from(elements, i) == #[trigger] (a + part + b);
            assert((a + part + b).len() == 0);
        }
    }
}

/// The text of a page holds what its title and the texts and values of its
/// elements hold, line by line, and nothing else.
pub proof fn law_the_text_of_a_page_is_what_it_shows(page: PageView, part: Seq<char>)
    requires
        is_one_line(part),
    ensures
        is_part(page_text(page), part) <==> is_part(page.title, part) || exists|k: int|
            0 <= k < page.elements.len() && element_shows((#[trigger] page.elements[k]).1, part),
{
    lemma_elements_show(page.elements, 0, part);
    lemma_in_lines(page.title, lines_from(page.elements, 0), part);
}

/// Whether a page has an element that a selector names: by a number sign and its
/// id, or by its tag.
pub open spec fn has_element(page: PageView, selector: Seq<char>) -> bool {
    exists|k: int|
        0 <= k < page.elements.len() && ((#[trigger] page.elements[k]).1.tag == selector || selector
            == seq!['#'] + page.elements[k].0)
}

/// An entry is found exactly where its key stands.
proof fn lemma_lookup<V>(s: Seq<(Seq<char>, V)>, key: Seq<char>)
    ensures
        lookup(s, key) is Some <==> exists|k: int| 0 <= k < s.len() && (#[trigger] s[k]).0 == key,
    decreases s.len(),
{
    if s.len() > 0 {
        let rest = s.skip(1);
        lemma_lookup(rest, key);
        if s[0].0 != key {
            if lookup(rest, key) is Some {
                let k = choose|k: int| 0 <= k < rest.len() && (#[trigger] rest[k]).0 == key;
                assert(s[k + 1].0 == key);
            }
            if exists|k: int| 0 <= k < s.len() && (#[trigger] s[k]).0 == key {
                let k = choose|k: int| 0 <= k < s.len() && (#[trigger] s[k]).0 == key;
                assert(rest[k - 1].0 == key);
            }
        }
    }
}

/// An element with a tag is found exactly where there is one.
proof fn lemma_tagged(elements: Seq<(Seq<char>, ElementView)>, tag: Seq<char>, i: int)
    requires
        0 <= i,
    ensures
        tagged_from(elements, tag, i) is Some <==> exists|k: int|
            i <= k < elements.len() && (#[trigger] elements[k]).1.tag == tag,
    decreases elements.len() - i,
{
    if i < elements.len() {
        lemma_tagged(elements, tag, i + 1);
    }
}

/// A selector names an element exactly where the page has one for it.
pub proof fn law_a_selector_names_what_is_there(page: PageView, selector: Seq<char>)
    ensures
        element_id(page, selector) is Ok <==> has_element(page, selector),
{
    reveal_strlit("#");
    let hash = seq!['#'];
    assert("#"@ =~= hash);
    let id = selector.skip(1);
    lemma_lookup(page.elements, id);
    lemma_tagged(page.elements, selector, 0);
    if has_prefix(selector, "#"@) {
        assert(selector =~= hash + id);
    }
    if has_element(page, selector) {
        let k = choose|k: int|
            0 <= k < page.elements.len() && ((#[trigger] page.elements[k]).1.tag == selector
                || selector == hash + page.elements[k].0);
        if selector == hash + page.elements[k].0 {
            assert(selector.take(1) =~= "#"@);
            assert(id =~= page.elements[k].0);
        }
    }
}

// ---------------------------------------------------------------------------
// Waits

/// Whether a reply is a live page that says `true`.
pub open spec fn confirms(reply: ReplyView) -> bool {
    reply matches ReplyView::Script(ScriptView::Text(text)) && script_value(text) == JsonView::Bool(
        true,
    )
}

/// Whether no live page says `true`.
pub open spec fn none_confirms(replies: Seq<ReplyView>) -> bool {
    forall|i: int| 0 <= i < replies.len() ==> !confirms(#[trigger] replies[i])
}

/// Whether there is an element for the selector that a request names.
pub open spec fn selector_met(page: PageView, params: Option<JsonView>) -> bool {
    text1(params, "selector"@) matches Some(s) ==> has_element(page, s)
}

/// Whether the page shows the text that a request names.
pub open spec fn text_met(page: PageView, params: Option<JsonView>) -> bool {
    text3(params, "text_contains"@, "textContains"@, "text"@) matches Some(t) ==> is_part(
        page_text(page),
        t,
    )
}

/// Whether the page answers the script that a request names with `true`.
pub open spec fn script_met(page: PageView, params: Option<JsonView>) -> bool {
    text2(params, "function"@, "script"@) matches Some(f) ==> script_answer(page, f)
        == JsonView::Bool(true)
}

/// Whether a request names a state of loading that there is.
pub open spec fn load_met(params: Option<JsonView>) -> bool {
    text2(params, "load_state"@, "loadState"@) matches Some(l) ==> l == "complete"@ || l == "load"@
        || l == "domcontentloaded"@
}

/// Whether the address holds the part that a request names.
pub open spec fn url_met(url: Option<Seq<char>>, params: Option<JsonView>) -> bool {
    text2(params, "url_contains"@, "urlContains"@) matches Some(u) ==> match url {
        Some(address) => is_part(address, u),
        None => u.len() == 0,
    }
}

/// Whether all that a request waits for holds of the page as it is known.
pub open spec fn all_met(page: PageView, url: Option<Seq<char>>, params: Option<JsonView>) -> bool {
    &&& selector_met(page, params)
    &&& text_met(page, params)
    &&& script_met(page, params)
    &&& load_met(params)
    &&& url_met(url, params)
}

/// What does not hold, in words: of what a request waits for, the first.
pub open spec fn missed(page: PageView, url: Option<Seq<char>>, params: Option<JsonView>) -> Seq<char> {
    if !selector_met(page, params) {
        "selector not found: "@ + text1(params, "selector"@)->0
    } else if !text_met(page, params) {
        "text not found: "@ + text3(params, "text_contains"@, "textContains"@, "text"@)->0
    } else if !script_met(page, params) {
        "function did not become true"@
    } else if !load_met(params) {
        "unsupported load state: "@ + text2(params, "load_state"@, "loadState"@)->0
    } else {
        "url does not contain: "@ + text2(params, "url_contains"@, "urlContains"@)->0
    }
}

/// The first refusal of some conditions.
spec fn first_refusal(list: Seq<ConditionView>, k: int) -> Option<Seq<char>>
    decreases list.len() - k,
{
    if k < 0 || k >= list.len() {
        None
    } else if list[k].refusal is Some {
        list[k].refusal
    } else {
        first_refusal(list, k + 1)
    }
}

/// Without a live page that confirms a round comes to the first refusal.
proof fn lemma_round_refuses(
    surface_id: Seq<char>,
    list: Seq<ConditionView>,
    k: int,
    live: bool,
    replies: Seq<ReplyView>,
    i: int,
)
    requires
        none_confirms(replies),
        0 <= k,
        forall|j: int| 0 <= j < list.len() ==> (#[trigger] list[j]).script is None
            ==> list[j].refusal is Some,
    ensures
        match checked_from(surface_id, list, k, live, replies, i) {
            Heard::Ask(call) => call.action is Expression || call.action is Statement,
            Heard::Got(Ok(b), _) => first_refusal(list, k) is None && b == live,
            Heard::Got(Err(message), _) => first_refusal(list, k) == Some(message),
        },
    decreases list.len() - k,
{
    if k < list.len() {
        if let Some(script) = list[k].script {
            if let Heard::Got(value, n) = evaluated(replies, i, surface_id, script) {
                assert(value != Some(JsonView::Bool(true))) by {
                    assert(0 <= i < replies.len() ==> !confirms(replies[i]));
                    assert(0 <= i + 1 < replies.len() ==> !confirms(replies[i + 1]));
                }
                lemma_round_refuses(surface_id, list, k + 1, live, replies, n);
            }
        }
    }
}

/// The first refusal of one condition behind others.
proof fn lemma_refusals(a: Seq<ConditionView>, c: Option<ConditionView>, k: int)
    requires
        0 <= k <= a.len(),
    ensures
        first_refusal(a + maybe(c), k) == (if first_refusal(a, k) is Some {
            first_refusal(a, k)
        } else if c is Some {
            c->0.refusal
        } else {
            None
        }),
    decreases a.len() - k,
{
    let all = a + maybe(c);
    if k < a.len() {
        assert(all[k] == a[k]);
        lemma_refusals(a, c, k + 1);
    } else {
        if c is Some {
            assert(all[k] == c->0);
            assert(first_refusal(all, k + 1) is None);
        } else {
            assert(all =~= a);
        }
    }
}

/// The conditions of a request refuse exactly where something does not hold.
proof fn lemma_conditions_refuse(page: PageView, url: Option<Seq<char>>, params: Option<JsonView>)
    ensures
        first_refusal(conditions(page, url, params), 0) == (if all_met(page, url, params) {
            None
        } else {
            Some(missed(page, url, params))
        }),
        forall|j: int|
            0 <= j < conditions(page, url, params).len() ==> (#[trigger] conditions(
                page,
                url,
                params,
            )[j]).script is None ==> conditions(page, url, params)[j].refusal is Some,
{
    let a = selector_wanted(page, params);
    let b = text_wanted(page, params);
    let c = function_wanted(page, params);
    let d = load_wanted(params);
    let e = url_wanted(url, params);
    let none = Seq::<ConditionView>::empty();
    lemma_refusals(none, a, 0);
    assert(none + maybe(a) =~= maybe(a));
    lemma_refusals(maybe(a), b, 0);
    lemma_refusals(maybe(a) + maybe(b), c, 0);
    lemma_refusals(maybe(a) + maybe(b) + maybe(c), d, 0);
    lemma_refusals(maybe(a) + maybe(b) + maybe(c) + maybe(d), e, 0);
    if let Some(s) = text1(params, "selector"@) {
        law_a_selector_names_what_is_there(page, s);
    }
    if let Some(t) = text3(params, "text_contains"@, "textContains"@, "text"@) {
        law_a_text_holds_its_parts(page_text(page), t);
    }
    if let Some(u) = text2(params, "url_contains"@, "urlContains"@) {
        law_a_text_holds_its_parts(or_empty(url), u);
        if url is None {
            let empty = Seq::<char>::empty();
            if is_part(empty, u) {
                let (x, y) = choose|x: Seq<char>, y: Seq<char>| empty == #[trigger] (x + u + y);
                assert((x + u + y).len() == 0);
            }
            if u.len() == 0 {
                assert(empty =~= empty + u + empty);
            }
        }
    }
}

/// Without a live page that confirms, every round of a wait comes to the same.
proof fn lemma_wait_rounds(
    surface_id: Seq<char>,
    list: Seq<ConditionView>,
    timeout_ms: u64,
    replies: Seq<ReplyView>,
    i: int,
)
    requires
        none_confirms(replies),
        list.len() > 0,
        forall|j: int| 0 <= j < list.len() ==> (#[trigger] list[j]).script is None
            ==> list[j].refusal is Some,
    ensures
        match wait_from(surface_id, list, timeout_ms, replies, i) {
            StepView::Done(Ok(v)) => first_refusal(list, 0) is None && v == waited(
                surface_id,
                false,
            ),
            StepView::Done(Err(e)) => first_refusal(list, 0) is Some && e.code == -32002
                && e.message
                == "timeout: "@ + first_refusal(list, 0)->0,
            StepView::Ask(call) => call.action is Pause ==> first_refusal(list, 0) is Some,
        },
    decreases replies.len() - i,
{
    lemma_round_refuses(surface_id, list, 0, false, replies, i);
    lemma_checked_advances(surface_id, list, 0, false, replies, i);
    if let Heard::Got(Err(message), n) = round(surface_id, list, replies, i) {
        if 0 <= n < replies.len() {
            lemma_wait_rounds(surface_id, list, timeout_ms, replies, n + 1);
        }
    }
}

/// A wait that no live page confirms is answered exactly where all that it waits
/// for holds of the page as it is known: an element for the selector, the text
/// among what the page shows, the part in the address. Where something does not
/// hold it goes on, round after round, and when the time is up it is refused with
/// the first thing that does not.
pub proof fn law_a_wait_ends_when_its_conditions_hold(
    surface_id: Seq<char>,
    page: PageView,
    url: Option<Seq<char>>,
    params: Option<JsonView>,
    readings: Readings,
    replies: Seq<ReplyView>,
)
    requires
        none_confirms(replies),
    ensures
        match wait_step(surface_id, page, url, params, readings, replies) {
            StepView::Done(Ok(_)) => all_met(page, url, params),
            StepView::Done(Err(e)) => !all_met(page, url, params) && e.code == -32002 && e.message
                == "timeout: "@ + missed(page, url, params),
            StepView::Ask(call) => call.action is Pause ==> !all_met(page, url, params),
        },
{
    let list = conditions(page, url, params);
    lemma_conditions_refuse(page, url, params);
    if list.len() > 0 {
        lemma_wait_rounds(
            surface_id,
            list,
            crate::rpc::timeout_of(params, readings, crate::waiting::WAIT_MS),
            replies,
            0,
        );
    } else {
        assert(first_refusal(list, 0) is None);
    }
}

/// A request that waits for a text alone.
pub open spec fn waits_for_text_alone(params: Option<JsonView>) -> bool {
    &&& text3(params, "text_contains"@, "textContains"@, "text"@) is Some
    &&& text1(params, "selector"@) is None
    &&& text2(params, "function"@, "script"@) is None
    &&& text2(params, "load_state"@, "loadState"@) is None
    &&& text2(params, "url_contains"@, "urlContains"@) is None
}

/// A wait for a text asks the live page whether its body shows it. Where the
/// page says `true` the wait is answered at once, and the answer says that the
/// page is live; where it does not, and there is no time left, the wait is
/// answered if the page as it is known shows the text, and refused if not.
pub proof fn law_a_wait_for_a_text_asks_for_it(
    surface_id: Seq<char>,
    page: PageView,
    url: Option<Seq<char>>,
    params: Option<JsonView>,
    readings: Readings,
    reply: ReplyView,
)
    requires
        waits_for_text_alone(params),
        !(reply matches ReplyView::Script(ScriptView::Failed(_))),
    ensures
        ({
            let text = text3(params, "text_contains"@, "textContains"@, "text"@)->0;
            let up = ReplyView::Flag(true);
            &&& wait_step(surface_id, page, url, params, readings, Seq::empty()) matches StepView::Ask(
                call,
            ) && call.surface_id == surface_id && call.action == ActionView::Expression(
                "document.body && document.body.innerText.includes("@ + quoted(text) + ")"@,
            )
            &&& confirms(reply) ==> (wait_step(
                surface_id,
                page,
                url,
                params,
                readings,
                seq![reply],
            ) matches StepView::Done(Ok(v)) && v.get("ok"@) == Some(JsonView::Bool(true)) && v.get(
                "live_webview"@,
            ) == Some(JsonView::Bool(true)))
            &&& !confirms(reply) && is_part(page_text(page), text) ==> (wait_step(
                surface_id,
                page,
                url,
                params,
                readings,
                seq![reply],
            ) matches StepView::Done(Ok(v))
                && v.get("live_webview"@) == Some(JsonView::Bool(false)))
            &&& !confirms(reply) && !is_part(page_text(page), text) ==> (wait_step(
                surface_id,
                page,
                url,
                params,
                readings,
                seq![reply, up],
            ) matches StepView::Done(Err(e)) && e.message == "timeout: "@ + ("text not found: "@
                + text))
        }),
{
    broadcast use lemma_with_get;

    let text = text3(params, "text_contains"@, "textContains"@, "text"@)->0;
    let list = conditions(page, url, params);
    assert(list =~= maybe(text_wanted(page, params)));
    law_a_text_holds_its_parts(page_text(page), text);
    let one = seq![reply];
    let two = seq![reply, ReplyView::Flag(true)];
    reveal_with_fuel(checked_from, 3);
    reveal_strlit("surface_id");
    reveal_strlit("ok");
    reveal_strlit("live_webview");
    assert("surface_id"@.len() == 10 && "ok"@.len() == 2 && "live_webview"@.len() == 12);
    assert(list.len() == 1);
    assert(one[0] == reply && two[0] == reply && two[1] == ReplyView::Flag(true));
}

} // verus!
