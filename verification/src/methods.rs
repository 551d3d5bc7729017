//! The methods that requests can name.

use crate::lists::{group_views, views};
use crate::text::{before, lemma_before_total, lemma_before_transitive, same, stands_before};
use vstd::prelude::*;
use vstd::relations::*;
use vstd::seq_lib::*;

verus! {

/// The methods of the shell.
pub open spec fn shell_methods() -> Seq<Seq<char>> {
    seq![
        "system.ping"@,
        "system.capabilities"@,
        "system.identify"@,
        "app.status"@,
        "workspace.list"@,
        "workspace.create"@,
        "workspace.current"@,
        "workspace.select"@,
        "workspace.close"@,
        "workspace.rename"@,
        "workspace.equalize_splits"@,
        "surface.list"@,
        "surface.create"@,
        "surface.focus"@,
        "surface.close"@,
        "surface.split"@,
        "surface.move"@,
        "surface.reorder"@,
        "surface.drag_to_split"@,
        "surface.send_text"@,
        "surface.send_key"@,
        "surface.read_text"@,
        "surface.clear_history"@,
        "surface.health"@,
        "surface.refresh"@,
        "pane.list"@,
        "pane.surfaces"@,
        "pane.create"@,
        "pane.focus"@,
        "pane.swap"@,
        "pane.resize"@,
        "pane.last"@,
        "browser.open_split"@,
        "browser.navigate"@,
        "browser.back"@,
        "browser.forward"@,
        "browser.reload"@,
        "browser.url.get"@,
        "browser.focus_webview"@,
        "browser.is_webview_focused"@,
        "notification.create"@,
        "notification.create_for_surface"@,
        "notification.list"@,
        "notification.clear"@,
    ]
}

/// The methods that read, change or watch the page of a browser surface.
pub open spec fn automation_methods() -> Seq<Seq<char>> {
    seq![
        "browser.snapshot"@,
        "browser.eval"@,
        "browser.wait"@,
        "browser.click"@,
        "browser.dblclick"@,
        "browser.type"@,
        "browser.fill"@,
        "browser.press"@,
        "browser.keydown"@,
        "browser.keyup"@,
        "browser.hover"@,
        "browser.focus"@,
        "browser.check"@,
        "browser.uncheck"@,
        "browser.select"@,
        "browser.scroll"@,
        "browser.scroll_into_view"@,
        "browser.screenshot"@,
        "browser.get.title"@,
        "browser.get.text"@,
        "browser.get.html"@,
        "browser.get.value"@,
        "browser.get.attr"@,
        "browser.get.count"@,
        "browser.get.box"@,
        "browser.get.styles"@,
        "browser.is.visible"@,
        "browser.is.enabled"@,
        "browser.is.checked"@,
        "browser.find.role"@,
        "browser.find.text"@,
        "browser.find.label"@,
        "browser.find.placeholder"@,
        "browser.find.alt"@,
        "browser.find.title"@,
        "browser.find.testid"@,
        "browser.find.nth"@,
        "browser.find.first"@,
        "browser.find.last"@,
        "browser.frame.select"@,
        "browser.frame.main"@,
        "browser.dialog.respond"@,
        "browser.download.wait"@,
        "browser.console.list"@,
        "browser.errors.list"@,
        "browser.highlight"@,
        "browser.state.save"@,
        "browser.state.load"@,
    ]
}

/// Whether a text stands before another, or is it.
pub open spec fn text_order() -> spec_fn(Seq<char>, Seq<char>) -> bool {
    |a: Seq<char>, b: Seq<char>| !before(b, a)
}

/// All methods, in the order of their names.
pub open spec fn all_methods() -> Seq<Seq<char>> {
    (shell_methods() + automation_methods()).sort_by(text_order())
}

/// The methods of the shell.
fn shell_method_names() -> (r: Vec<&'static str>)
    ensures
        views(r@) == shell_methods(),
{
    let r: Vec<&'static str> = vec![
        "system.ping",
        "system.capabilities",
        "system.identify",
        "app.status",
        "workspace.list",
        "workspace.create",
        "workspace.current",
        "workspace.select",
        "workspace.close",
        "workspace.rename",
        "workspace.equalize_splits",
        "surface.list",
        "surface.create",
        "surface.focus",
        "surface.close",
        "surface.split",
        "surface.move",
        "surface.reorder",
        "surface.drag_to_split",
        "surface.send_text",
        "surface.send_key",
        "surface.read_text",
        "surface.clear_history",
        "surface.health",
        "surface.refresh",
        "pane.list",
        "pane.surfaces",
        "pane.create",
        "pane.focus",
        "pane.swap",
        "pane.resize",
        "pane.last",
        "browser.open_split",
        "browser.navigate",
        "browser.back",
        "browser.forward",
        "browser.reload",
        "browser.url.get",
        "browser.focus_webview",
        "browser.is_webview_focused",
        "notification.create",
        "notification.create_for_surface",
        "notification.list",
        "notification.clear",
    ];
    assert(views(r@) =~= shell_methods());
    r
}

/// The methods that read, change or watch the page of a browser surface.
fn automation_method_names() -> (r: Vec<&'static str>)
    ensures
        views(r@) == automation_methods(),
{
    let r: Vec<&'static str> = vec![
        "browser.snapshot",
        "browser.eval",
        "browser.wait",
        "browser.click",
        "browser.dblclick",
        "browser.type",
        "browser.fill",
        "browser.press",
        "browser.keydown",
        "browser.keyup",
        "browser.hover",
        "browser.focus",
        "browser.check",
        "browser.uncheck",
        "browser.select",
        "browser.scroll",
        "browser.scroll_into_view",
        "browser.screenshot",
        "browser.get.title",
        "browser.get.text",
        "browser.get.html",
        "browser.get.value",
        "browser.get.attr",
        "browser.get.count",
        "browser.get.box",
        "browser.get.styles",
        "browser.is.visible",
        "browser.is.enabled",
        "browser.is.checked",
        "browser.find.role",
        "browser.find.text",
        "browser.find.label",
        "browser.find.placeholder",
        "browser.find.alt",
        "browser.find.title",
        "browser.find.testid",
        "browser.find.nth",
        "browser.find.first",
        "browser.find.last",
        "browser.frame.select",
        "browser.frame.main",
        "browser.dialog.respond",
        "browser.download.wait",
        "browser.console.list",
        "browser.errors.list",
        "browser.highlight",
        "browser.state.save",
        "browser.state.load",
    ];
    assert(views(r@) =~= automation_methods());
    r
}

/// Whether a method reads, changes or watches the page of a browser surface.
pub fn is_browser_automation_method(method: &str) -> (r: bool)
    ensures
        r == automation_methods().contains(method@),
{
    let names = automation_method_names();
    let ghost all = automation_methods();
    let mut i: usize = 0;
    while i < names.len()
        invariant
            i <= names@.len(),
            views(names@) == all,
            all == automation_methods(),
            forall|j: int| 0 <= j < i ==> #[trigger] all[j] != method@,
        decreases names@.len() - i,
    {
        assert(all[i as int] == names@[i as int]@);
        if same(names[i], method) {
            return true;
        }
        i += 1;
    }
    assert(all.len() == names@.len());
    false
}

// ---------------------------------------------------------------------------
// The order of names

/// Texts are in a total order.
pub proof fn lemma_text_order()
    ensures
        total_ordering(text_order()),
{
    let leq = text_order();
    assert forall|a: Seq<char>| #[trigger] leq(a, a) by {
        lemma_before_total(a, a);
    }
    assert forall|a: Seq<char>, b: Seq<char>| #[trigger] leq(a, b) && #[trigger] leq(b, a) implies a
        == b by {
        lemma_before_total(a, b);
    }
    assert forall|a: Seq<char>, b: Seq<char>, c: Seq<char>| #[trigger]
        leq(a, b) && #[trigger] leq(b, c) implies leq(a, c) by {
        lemma_before_total(a, b);
        lemma_before_total(b, c);
        lemma_before_total(a, c);
        if before(c, a) {
            if a == b || b == c {
            } else {
                lemma_before_transitive(a, b, c);
            }
        }
    }
    assert forall|a: Seq<char>, b: Seq<char>| #[trigger] leq(a, b) || #[trigger] leq(b, a) by {
        lemma_before_total(a, b);
    }
}

/// One text more makes one more of it.
proof fn lemma_insert_multiset(s: Seq<Seq<char>>, k: int, a: Seq<char>)
    requires
        0 <= k <= s.len(),
    ensures
        s.insert(k, a).to_multiset() =~= s.to_multiset().insert(a),
{
    broadcast use group_to_multiset_ensures;

    let t = s.insert(k, a);
    assert(t.remove(k) =~= s);
    assert(t[k] == a);
    assert(t.contains(a));
    assert(t.to_multiset().remove(a).insert(a) =~= t.to_multiset());
}

/// A text that is put before those that it stands before, and behind the
/// others, keeps the order.
proof fn lemma_insert_sorted(s: Seq<Seq<char>>, k: int, a: Seq<char>)
    requires
        0 <= k <= s.len(),
        sorted_by(s, text_order()),
        forall|i: int| 0 <= i < k ==> !before(a, #[trigger] s[i]),
        k < s.len() ==> before(a, s[k]),
    ensures
        sorted_by(s.insert(k, a), text_order()),
{
    let leq = text_order();
    let t = s.insert(k, a);
    lemma_text_order();
    assert forall|i: int, j: int| 0 <= i < j < t.len() implies #[trigger] leq(t[i], t[j]) by {
        if i < k && j < k {
            assert(leq(s[i], s[j]));
        } else if i < k && j == k {
            assert(t[i] == s[i]);
        } else if i < k {
            assert(leq(s[i], s[j - 1]));
        } else if i == k {
            lemma_before_total(a, s[k]);
            if j - 1 > k {
                assert(leq(s[k], s[j - 1]));
                assert(leq(a, s[k]));
            }
        } else {
            assert(leq(s[i - 1], s[j - 1]));
        }
    }
}

/// Puts names in order among others.
fn sort_names(sorted: &mut Vec<&'static str>, names: &Vec<&'static str>)
    requires
        sorted_by(views(old(sorted)@), text_order()),
    ensures
        sorted_by(views(final(sorted)@), text_order()),
        views(final(sorted)@).to_multiset() == (views(old(sorted)@) + views(names@)).to_multiset(),
{
    broadcast use group_views;

    let ghost first = views(sorted@);
    let ghost all = views(names@);
    let mut i: usize = 0;
    assert(first + all.take(0) =~= first);
    while i < names.len()
        invariant
            i <= names@.len(),
            all == views(names@),
            sorted_by(views(sorted@), text_order()),
            views(sorted@).to_multiset() == (first + all.take(i as int)).to_multiset(),
        decreases names@.len() - i,
    {
        let mut k: usize = 0;
        let ghost s = views(sorted@);
        while k < sorted.len() && !stands_before(names[i], sorted[k])
            invariant
                k <= sorted@.len(),
                i < names@.len(),
                s == views(sorted@),
                forall|j: int| 0 <= j < k ==> !before(names@[i as int]@, #[trigger] s[j]),
            decreases sorted@.len() - k,
        {
            assert(s[k as int] == sorted@[k as int]@);
            k += 1;
        }
        let ghost a = names@[i as int]@;
        proof {
            broadcast use group_to_multiset_ensures;

            if k < sorted@.len() {
                assert(s[k as int] == sorted@[k as int]@);
            }
            lemma_insert_sorted(s, k as int, a);
            lemma_insert_multiset(s, k as int, a);
            let more = first + all.take(i as int);
            assert(first + all.take(i + 1) =~= more.push(a));
        }
        sorted.insert(k, names[i]);
        assert(views(sorted@) =~= s.insert(k as int, a));
        i += 1;
    }
    assert(all.take(i as int) =~= all);
}

/// All methods, in the order of their names.
pub fn supported_methods() -> (r: Vec<&'static str>)
    ensures
        views(r@) == all_methods(),
{
    broadcast use group_views;

    let mut sorted: Vec<&'static str> = Vec::new();
    sort_names(&mut sorted, &shell_method_names());
    let ghost base = views(sorted@);
    sort_names(&mut sorted, &automation_method_names());
    proof {
        let empty = Seq::<Seq<char>>::empty();
        assert(empty + shell_methods() =~= shell_methods());
        lemma_multiset_commutative(base, automation_methods());
        lemma_multiset_commutative(shell_methods(), automation_methods());
        lemma_text_order();
        let whole = shell_methods() + automation_methods();
        whole.lemma_sort_by_ensures(text_order());
        lemma_sorted_unique(views(sorted@), all_methods(), text_order());
    }
    sorted
}

} // verus!
