//! The order of the methods that requests can name.

use crate::methods::{
    all_methods, automation_methods, lemma_text_order, shell_methods, text_order,
};
use crate::text::{before, lemma_before_total, lemma_before_transitive};
use vstd::prelude::*;
use vstd::seq_lib::*;
use vstd::set_lib::*;

verus! {

/// The methods written down in the order of their names.
pub open spec fn sorted_methods() -> Seq<Seq<char>> {
    seq![
        "app.status"@,
        "browser.back"@,
        "browser.check"@,
        "browser.click"@,
        "browser.console.list"@,
        "browser.dblclick"@,
        "browser.dialog.respond"@,
        "browser.download.wait"@,
        "browser.errors.list"@,
        "browser.eval"@,
        "browser.fill"@,
        "browser.find.alt"@,
        "browser.find.first"@,
        "browser.find.label"@,
        "browser.find.last"@,
        "browser.find.nth"@,
        "browser.find.placeholder"@,
        "browser.find.role"@,
        "browser.find.testid"@,
        "browser.find.text"@,
        "browser.find.title"@,
        "browser.focus"@,
        "browser.focus_webview"@,
        "browser.forward"@,
        "browser.frame.main"@,
        "browser.frame.select"@,
        "browser.get.attr"@,
        "browser.get.box"@,
        "browser.get.count"@,
        "browser.get.html"@,
        "browser.get.styles"@,
        "browser.get.text"@,
        "browser.get.title"@,
        "browser.get.value"@,
        "browser.highlight"@,
        "browser.hover"@,
        "browser.is.checked"@,
        "browser.is.enabled"@,
        "browser.is.visible"@,
        "browser.is_webview_focused"@,
        "browser.keydown"@,
        "browser.keyup"@,
        "browser.navigate"@,
        "browser.open_split"@,
        "browser.press"@,
        "browser.reload"@,
        "browser.screenshot"@,
        "browser.scroll"@,
        "browser.scroll_into_view"@,
        "browser.select"@,
        "browser.snapshot"@,
        "browser.state.load"@,
        "browser.state.save"@,
        "browser.type"@,
        "browser.uncheck"@,
        "browser.url.get"@,
        "browser.wait"@,
        "notification.clear"@,
        "notification.create"@,
        "notification.create_for_surface"@,
        "notification.list"@,
        "pane.create"@,
        "pane.focus"@,
        "pane.last"@,
        "pane.list"@,
        "pane.resize"@,
        "pane.surfaces"@,
        "pane.swap"@,
        "surface.clear_history"@,
        "surface.close"@,
        "surface.create"@,
        "surface.drag_to_split"@,
        "surface.focus"@,
        "surface.health"@,
        "surface.list"@,
        "surface.move"@,
        "surface.read_text"@,
        "surface.refresh"@,
        "surface.reorder"@,
        "surface.send_key"@,
        "surface.send_text"@,
        "surface.split"@,
        "system.capabilities"@,
        "system.identify"@,
        "system.ping"@,
        "workspace.close"@,
        "workspace.create"@,
        "workspace.current"@,
        "workspace.equalize_splits"@,
        "workspace.list"@,
        "workspace.rename"@,
        "workspace.select"@,
    ]
}

/// A text stands before another where it is smaller at the first place at which
/// they differ, or ends there.
proof fn lemma_before_at(a: Seq<char>, b: Seq<char>, k: int)
    requires
        0 <= k <= a.len(),
        k < b.len(),
        forall|i: int| 0 <= i < k ==> #[trigger] a[i] == b[i],
        k == a.len() || a[k] < b[k],
    ensures
        before(a, b),
    decreases k,
{
    if k > 0 {
        let x = a.skip(1);
        let y = b.skip(1);
        assert(a[0] == b[0]);
        assert forall|i: int| 0 <= i < k - 1 implies #[trigger] x[i] == y[i] by {
            assert(x[i] == a[i + 1] && y[i] == b[i + 1]);
        }
        assert(k < a.len() ==> x[k - 1] == a[k] && y[k - 1] == b[k]);
        lemma_before_at(x, y, k - 1);
    }
}

/// Whether the method at a place is one of all methods, and stands before the
/// next one.
spec fn is_placed(i: int) -> bool {
    &&& (shell_methods() + automation_methods()).contains(sorted_methods()[i])
    &&& i + 1 < sorted_methods().len() ==> before(sorted_methods()[i], sorted_methods()[i + 1])
}

/// Where some of the methods stand.
proof fn lemma_placed_from_0()
    ensures
        forall|i: int| 0 <= i < 10 ==> #[trigger] is_placed(i),
{
    let whole = shell_methods() + automation_methods();
    let sorted = sorted_methods();
    reveal_strlit("app.status");
    reveal_strlit("browser.back");
    reveal_strlit("browser.check");
    reveal_strlit("browser.click");
    reveal_strlit("browser.console.list");
    reveal_strlit("browser.dblclick");
    reveal_strlit("browser.dialog.respond");
    reveal_strlit("browser.download.wait");
    reveal_strlit("browser.errors.list");
    reveal_strlit("browser.eval");
    reveal_strlit("browser.fill");
    assert(whole[3] == "app.status"@ && sorted[0] == whole[3]);
    lemma_before_at("app.status"@, "browser.back"@, 0);
    assert(is_placed(0));
    assert(whole[34] == "browser.back"@ && sorted[1] == whole[34]);
    lemma_before_at("browser.back"@, "browser.check"@, 8);
    assert(is_placed(1));
    assert(whole[56] == "browser.check"@ && sorted[2] == whole[56]);
    lemma_before_at("browser.check"@, "browser.click"@, 9);
    assert(is_placed(2));
    assert(whole[47] == "browser.click"@ && sorted[3] == whole[47]);
    lemma_before_at("browser.click"@, "browser.console.list"@, 9);
    assert(is_placed(3));
    assert(whole[87] == "browser.console.list"@ && sorted[4] == whole[87]);
    lemma_before_at("browser.console.list"@, "browser.dblclick"@, 8);
    assert(is_placed(4));
    assert(whole[48] == "browser.dblclick"@ && sorted[5] == whole[48]);
    lemma_before_at("browser.dblclick"@, "browser.dialog.respond"@, 9);
    assert(is_placed(5));
    assert(whole[85] == "browser.dialog.respond"@ && sorted[6] == whole[85]);
    lemma_before_at("browser.dialog.respond"@, "browser.download.wait"@, 9);
    assert(is_placed(6));
    assert(whole[86] == "browser.download.wait"@ && sorted[7] == whole[86]);
    lemma_before_at("browser.download.wait"@, "browser.errors.list"@, 8);
    assert(is_placed(7));
    assert(whole[88] == "browser.errors.list"@ && sorted[8] == whole[88]);
    lemma_before_at("browser.errors.list"@, "browser.eval"@, 9);
    assert(is_placed(8));
    assert(whole[45] == "browser.eval"@ && sorted[9] == whole[45]);
    lemma_before_at("browser.eval"@, "browser.fill"@, 8);
    assert(sorted[10] == "browser.fill"@);
    assert(is_placed(9));
}

/// Where some of the methods stand.
proof fn lemma_placed_from_10()
    ensures
        forall|i: int| 10 <= i < 20 ==> #[trigger] is_placed(i),
{
    let whole = shell_methods() + automation_methods();
    let sorted = sorted_methods();
    reveal_strlit("browser.fill");
    reveal_strlit("browser.find.alt");
    reveal_strlit("browser.find.first");
    reveal_strlit("browser.find.label");
    reveal_strlit("browser.find.last");
    reveal_strlit("browser.find.nth");
    reveal_strlit("browser.find.placeholder");
    reveal_strlit("browser.find.role");
    reveal_strlit("browser.find.testid");
    reveal_strlit("browser.find.text");
    reveal_strlit("browser.find.title");
    assert(whole[50] == "browser.fill"@ && sorted[10] == whole[50]);
    lemma_before_at("browser.fill"@, "browser.find.alt"@, 10);
    assert(is_placed(10));
    assert(whole[77] == "browser.find.alt"@ && sorted[11] == whole[77]);
    lemma_before_at("browser.find.alt"@, "browser.find.first"@, 13);
    assert(is_placed(11));
    assert(whole[81] == "browser.find.first"@ && sorted[12] == whole[81]);
    lemma_before_at("browser.find.first"@, "browser.find.label"@, 13);
    assert(is_placed(12));
    assert(whole[75] == "browser.find.label"@ && sorted[13] == whole[75]);
    lemma_before_at("browser.find.label"@, "browser.find.last"@, 15);
    assert(is_placed(13));
    assert(whole[82] == "browser.find.last"@ && sorted[14] == whole[82]);
    lemma_before_at("browser.find.last"@, "browser.find.nth"@, 13);
    assert(is_placed(14));
    assert(whole[80] == "browser.find.nth"@ && sorted[15] == whole[80]);
    lemma_before_at("browser.find.nth"@, "browser.find.placeholder"@, 13);
    assert(is_placed(15));
    assert(whole[76] == "browser.find.placeholder"@ && sorted[16] == whole[76]);
    lemma_before_at("browser.find.placeholder"@, "browser.find.role"@, 13);
    assert(is_placed(16));
    assert(whole[73] == "browser.find.role"@ && sorted[17] == whole[73]);
    lemma_before_at("browser.find.role"@, "browser.find.testid"@, 13);
    assert(is_placed(17));
    assert(whole[79] == "browser.find.testid"@ && sorted[18] == whole[79]);
    lemma_before_at("browser.find.testid"@, "browser.find.text"@, 15);
    assert(is_placed(18));
    assert(whole[74] == "browser.find.text"@ && sorted[19] == whole[74]);
    lemma_before_at("browser.find.text"@, "browser.find.title"@, 14);
    assert(sorted[20] == "browser.find.title"@);
    assert(is_placed(19));
}

/// Where some of the methods stand.
proof fn lemma_placed_from_20()
    ensures
        forall|i: int| 20 <= i < 30 ==> #[trigger] is_placed(i),
{
    let whole = shell_methods() + automation_methods();
    let sorted = sorted_methods();
    reveal_strlit("browser.find.title");
    reveal_strlit("browser.focus");
    reveal_strlit("browser.focus_webview");
    reveal_strlit("browser.forward");
    reveal_strlit("browser.frame.main");
    reveal_strlit("browser.frame.select");
    reveal_strlit("browser.get.attr");
    reveal_strlit("browser.get.box");
    reveal_strlit("browser.get.count");
    reveal_strlit("browser.get.html");
    reveal_strlit("browser.get.styles");
    assert(whole[78] == "browser.find.title"@ && sorted[20] == whole[78]);
    lemma_before_at("browser.find.title"@, "browser.focus"@, 9);
    assert(is_placed(20));
    assert(whole[55] == "browser.focus"@ && sorted[21] == whole[55]);
    lemma_before_at("browser.focus"@, "browser.focus_webview"@, 13);
    assert(is_placed(21));
    assert(whole[38] == "browser.focus_webview"@ && sorted[22] == whole[38]);
    lemma_before_at("browser.focus_webview"@, "browser.forward"@, 10);
    assert(is_placed(22));
    assert(whole[35] == "browser.forward"@ && sorted[23] == whole[35]);
    lemma_before_at("browser.forward"@, "browser.frame.main"@, 9);
    assert(is_placed(23));
    assert(whole[84] == "browser.frame.main"@ && sorted[24] == whole[84]);
    lemma_before_at("browser.frame.main"@, "browser.frame.select"@, 14);
    assert(is_placed(24));
    assert(whole[83] == "browser.frame.select"@ && sorted[25] == whole[83]);
    lemma_before_at("browser.frame.select"@, "browser.get.attr"@, 8);
    assert(is_placed(25));
    assert(whole[66] == "browser.get.attr"@ && sorted[26] == whole[66]);
    lemma_before_at("browser.get.attr"@, "browser.get.box"@, 12);
    assert(is_placed(26));
    assert(whole[68] == "browser.get.box"@ && sorted[27] == whole[68]);
    lemma_before_at("browser.get.box"@, "browser.get.count"@, 12);
    assert(is_placed(27));
    assert(whole[67] == "browser.get.count"@ && sorted[28] == whole[67]);
    lemma_before_at("browser.get.count"@, "browser.get.html"@, 12);
    assert(is_placed(28));
    assert(whole[64] == "browser.get.html"@ && sorted[29] == whole[64]);
    lemma_before_at("browser.get.html"@, "browser.get.styles"@, 12);
    assert(sorted[30] == "browser.get.styles"@);
    assert(is_placed(29));
}

/// Where some of the methods stand.
proof fn lemma_placed_from_30()
    ensures
        forall|i: int| 30 <= i < 40 ==> #[trigger] is_placed(i),
{
    let whole = shell_methods() + automation_methods();
    let sorted = sorted_methods();
    reveal_strlit("browser.get.styles");
    reveal_strlit("browser.get.text");
    reveal_strlit("browser.get.title");
    reveal_strlit("browser.get.value");
    reveal_strlit("browser.highlight");
    reveal_strlit("browser.hover");
    reveal_strlit("browser.is.checked");
    reveal_strlit("browser.is.enabled");
    reveal_strlit("browser.is.visible");
    reveal_strlit("browser.is_webview_focused");
    reveal_strlit("browser.keydown");
    assert(whole[69] == "browser.get.styles"@ && sorted[30] == whole[69]);
    lemma_before_at("browser.get.styles"@, "browser.get.text"@, 12);
    assert(is_placed(30));
    assert(whole[63] == "browser.get.text"@ && sorted[31] == whole[63]);
    lemma_before_at("browser.get.text"@, "browser.get.title"@, 13);
    assert(is_placed(31));
    assert(whole[62] == "browser.get.title"@ && sorted[32] == whole[62]);
    lemma_before_at("browser.get.title"@, "browser.get.value"@, 12);
    assert(is_placed(32));
    assert(whole[65] == "browser.get.value"@ && sorted[33] == whole[65]);
    lemma_before_at("browser.get.value"@, "browser.highlight"@, 8);
    assert(is_placed(33));
    assert(whole[89] == "browser.highlight"@ && sorted[34] == whole[89]);
    lemma_before_at("browser.highlight"@, "browser.hover"@, 9);
    assert(is_placed(34));
    assert(whole[54] == "browser.hover"@ && sorted[35] == whole[54]);
    lemma_before_at("browser.hover"@, "browser.is.checked"@, 8);
    assert(is_placed(35));
    assert(whole[72] == "browser.is.checked"@ && sorted[36] == whole[72]);
    lemma_before_at("browser.is.checked"@, "browser.is.enabled"@, 11);
    assert(is_placed(36));
    assert(whole[71] == "browser.is.enabled"@ && sorted[37] == whole[71]);
    lemma_before_at("browser.is.enabled"@, "browser.is.visible"@, 11);
    assert(is_placed(37));
    assert(whole[70] == "browser.is.visible"@ && sorted[38] == whole[70]);
    lemma_before_at("browser.is.visible"@, "browser.is_webview_focused"@, 10);
    assert(is_placed(38));
    assert(whole[39] == "browser.is_webview_focused"@ && sorted[39] == whole[39]);
    lemma_before_at("browser.is_webview_focused"@, "browser.keydown"@, 8);
    assert(sorted[40] == "browser.keydown"@);
    assert(is_placed(39));
}

/// Where some of the methods stand.
proof fn lemma_placed_from_40()
    ensures
        forall|i: int| 40 <= i < 50 ==> #[trigger] is_placed(i),
{
    let whole = shell_methods() + automation_methods();
    let sorted = sorted_methods();
    reveal_strlit("browser.keydown");
    reveal_strlit("browser.keyup");
    reveal_strlit("browser.navigate");
    reveal_strlit("browser.open_split");
    reveal_strlit("browser.press");
    reveal_strlit("browser.reload");
    reveal_strlit("browser.screenshot");
    reveal_strlit("browser.scroll");
    reveal_strlit("browser.scroll_into_view");
    reveal_strlit("browser.select");
    reveal_strlit("browser.snapshot");
    assert(whole[52] == "browser.keydown"@ && sorted[40] == whole[52]);
    lemma_before_at("browser.keydown"@, "browser.keyup"@, 11);
    assert(is_placed(40));
    assert(whole[53] == "browser.keyup"@ && sorted[41] == whole[53]);
    lemma_before_at("browser.keyup"@, "browser.navigate"@, 8);
    assert(is_placed(41));
    assert(whole[33] == "browser.navigate"@ && sorted[42] == whole[33]);
    lemma_before_at("browser.navigate"@, "browser.open_split"@, 8);
    assert(is_placed(42));
    assert(whole[32] == "browser.open_split"@ && sorted[43] == whole[32]);
    lemma_before_at("browser.open_split"@, "browser.press"@, 8);
    assert(is_placed(43));
    assert(whole[51] == "browser.press"@ && sorted[44] == whole[51]);
    lemma_before_at("browser.press"@, "browser.reload"@, 8);
    assert(is_placed(44));
    assert(whole[36] == "browser.reload"@ && sorted[45] == whole[36]);
    lemma_before_at("browser.reload"@, "browser.screenshot"@, 8);
    assert(is_placed(45));
    assert(whole[61] == "browser.screenshot"@ && sorted[46] == whole[61]);
    lemma_before_at("browser.screenshot"@, "browser.scroll"@, 11);
    assert(is_placed(46));
    assert(whole[59] == "browser.scroll"@ && sorted[47] == whole[59]);
    lemma_before_at("browser.scroll"@, "browser.scroll_into_view"@, 14);
    assert(is_placed(47));
    assert(whole[60] == "browser.scroll_into_view"@ && sorted[48] == whole[60]);
    lemma_before_at("browser.scroll_into_view"@, "browser.select"@, 9);
    assert(is_placed(48));
    assert(whole[58] == "browser.select"@ && sorted[49] == whole[58]);
    lemma_before_at("browser.select"@, "browser.snapshot"@, 9);
    assert(sorted[50] == "browser.snapshot"@);
    assert(is_placed(49));
}

/// Where some of the methods stand.
proof fn lemma_placed_from_50()
    ensures
        forall|i: int| 50 <= i < 60 ==> #[trigger] is_placed(i),
{
    let whole = shell_methods() + automation_methods();
    let sorted = sorted_methods();
    reveal_strlit("browser.snapshot");
    reveal_strlit("browser.state.load");
    reveal_strlit("browser.state.save");
    reveal_strlit("browser.type");
    reveal_strlit("browser.uncheck");
    reveal_strlit("browser.url.get");
    reveal_strlit("browser.wait");
    reveal_strlit("notification.clear");
    reveal_strlit("notification.create");
    reveal_strlit("notification.create_for_surface");
    reveal_strlit("notification.list");
    assert(whole[44] == "browser.snapshot"@ && sorted[50] == whole[44]);
    lemma_before_at("browser.snapshot"@, "browser.state.load"@, 9);
    assert(is_placed(50));
    assert(whole[91] == "browser.state.load"@ && sorted[51] == whole[91]);
    lemma_before_at("browser.state.load"@, "browser.state.save"@, 14);
    assert(is_placed(51));
    assert(whole[90] == "browser.state.save"@ && sorted[52] == whole[90]);
    lemma_before_at("browser.state.save"@, "browser.type"@, 8);
    assert(is_placed(52));
    assert(whole[49] == "browser.type"@ && sorted[53] == whole[49]);
    lemma_before_at("browser.type"@, "browser.uncheck"@, 8);
    assert(is_placed(53));
    assert(whole[57] == "browser.uncheck"@ && sorted[54] == whole[57]);
    lemma_before_at("browser.uncheck"@, "browser.url.get"@, 9);
    assert(is_placed(54));
    assert(whole[37] == "browser.url.get"@ && sorted[55] == whole[37]);
    lemma_before_at("browser.url.get"@, "browser.wait"@, 8);
    assert(is_placed(55));
    assert(whole[46] == "browser.wait"@ && sorted[56] == whole[46]);
    lemma_before_at("browser.wait"@, "notification.clear"@, 0);
    assert(is_placed(56));
    assert(whole[43] == "notification.clear"@ && sorted[57] == whole[43]);
    lemma_before_at("notification.clear"@, "notification.create"@, 14);
    assert(is_placed(57));
    assert(whole[40] == "notification.create"@ && sorted[58] == whole[40]);
    lemma_before_at("notification.create"@, "notification.create_for_surface"@, 19);
    assert(is_placed(58));
    assert(whole[41] == "notification.create_for_surface"@ && sorted[59] == whole[41]);
    lemma_before_at("notification.create_for_surface"@, "notification.list"@, 13);
    assert(sorted[60] == "notification.list"@);
    assert(is_placed(59));
}

/// Where some of the methods stand.
proof fn lemma_placed_from_60()
    ensures
        forall|i: int| 60 <= i < 70 ==> #[trigger] is_placed(i),
{
    let whole = shell_methods() + automation_methods();
    let sorted = sorted_methods();
    reveal_strlit("notification.list");
    reveal_strlit("pane.create");
    reveal_strlit("pane.focus");
    reveal_strlit("pane.last");
    reveal_strlit("pane.list");
    reveal_strlit("pane.resize");
    reveal_strlit("pane.surfaces");
    reveal_strlit("pane.swap");
    reveal_strlit("surface.clear_history");
    reveal_strlit("surface.close");
    reveal_strlit("surface.create");
    assert(whole[42] == "notification.list"@ && sorted[60] == whole[42]);
    lemma_before_at("notification.list"@, "pane.create"@, 0);
    assert(is_placed(60));
    assert(whole[27] == "pane.create"@ && sorted[61] == whole[27]);
    lemma_before_at("pane.create"@, "pane.focus"@, 5);
    assert(is_placed(61));
    assert(whole[28] == "pane.focus"@ && sorted[62] == whole[28]);
    lemma_before_at("pane.focus"@, "pane.last"@, 5);
    assert(is_placed(62));
    assert(whole[31] == "pane.last"@ && sorted[63] == whole[31]);
    lemma_before_at("pane.last"@, "pane.list"@, 6);
    assert(is_placed(63));
    assert(whole[25] == "pane.list"@ && sorted[64] == whole[25]);
    lemma_before_at("pane.list"@, "pane.resize"@, 5);
    assert(is_placed(64));
    assert(whole[30] == "pane.resize"@ && sorted[65] == whole[30]);
    lemma_before_at("pane.resize"@, "pane.surfaces"@, 5);
    assert(is_placed(65));
    assert(whole[26] == "pane.surfaces"@ && sorted[66] == whole[26]);
    lemma_before_at("pane.surfaces"@, "pane.swap"@, 6);
    assert(is_placed(66));
    assert(whole[29] == "pane.swap"@ && sorted[67] == whole[29]);
    lemma_before_at("pane.swap"@, "surface.clear_history"@, 0);
    assert(is_placed(67));
    assert(whole[22] == "surface.clear_history"@ && sorted[68] == whole[22]);
    lemma_before_at("surface.clear_history"@, "surface.close"@, 10);
    assert(is_placed(68));
    assert(whole[14] == "surface.close"@ && sorted[69] == whole[14]);
    lemma_before_at("surface.close"@, "surface.create"@, 9);
    assert(sorted[70] == "surface.create"@);
    assert(is_placed(69));
}

/// Where some of the methods stand.
proof fn lemma_placed_from_70()
    ensures
        forall|i: int| 70 <= i < 80 ==> #[trigger] is_placed(i),
{
    let whole = shell_methods() + automation_methods();
    let sorted = sorted_methods();
    reveal_strlit("surface.create");
    reveal_strlit("surface.drag_to_split");
    reveal_strlit("surface.focus");
    reveal_strlit("surface.health");
    reveal_strlit("surface.list");
    reveal_strlit("surface.move");
    reveal_strlit("surface.read_text");
    reveal_strlit("surface.refresh");
    reveal_strlit("surface.reorder");
    reveal_strlit("surface.send_key");
    reveal_strlit("surface.send_text");
    assert(whole[12] == "surface.create"@ && sorted[70] == whole[12]);
    lemma_before_at("surface.create"@, "surface.drag_to_split"@, 8);
    assert(is_placed(70));
    assert(whole[18] == "surface.drag_to_split"@ && sorted[71] == whole[18]);
    lemma_before_at("surface.drag_to_split"@, "surface.focus"@, 8);
    assert(is_placed(71));
    assert(whole[13] == "surface.focus"@ && sorted[72] == whole[13]);
    lemma_before_at("surface.focus"@, "surface.health"@, 8);
    assert(is_placed(72));
    assert(whole[23] == "surface.health"@ && sorted[73] == whole[23]);
    lemma_before_at("surface.health"@, "surface.list"@, 8);
    assert(is_placed(73));
    assert(whole[11] == "surface.list"@ && sorted[74] == whole[11]);
    lemma_before_at("surface.list"@, "surface.move"@, 8);
    assert(is_placed(74));
    assert(whole[16] == "surface.move"@ && sorted[75] == whole[16]);
    lemma_before_at("surface.move"@, "surface.read_text"@, 8);
    assert(is_placed(75));
    assert(whole[21] == "surface.read_text"@ && sorted[76] == whole[21]);
    lemma_before_at("surface.read_text"@, "surface.refresh"@, 10);
    assert(is_placed(76));
    assert(whole[24] == "surface.refresh"@ && sorted[77] == whole[24]);
    lemma_before_at("surface.refresh"@, "surface.reorder"@, 10);
    assert(is_placed(77));
    assert(whole[17] == "surface.reorder"@ && sorted[78] == whole[17]);
    lemma_before_at("surface.reorder"@, "surface.send_key"@, 8);
    assert(is_placed(78));
    assert(whole[20] == "surface.send_key"@ && sorted[79] == whole[20]);
    lemma_before_at("surface.send_key"@, "surface.send_text"@, 13);
    assert(sorted[80] == "surface.send_text"@);
    assert(is_placed(79));
}

/// Where some of the methods stand.
proof fn lemma_placed_from_80()
    ensures
        forall|i: int| 80 <= i < 90 ==> #[trigger] is_placed(i),
{
    let whole = shell_methods() + automation_methods();
    let sorted = sorted_methods();
    reveal_strlit("surface.send_text");
    reveal_strlit("surface.split");
    reveal_strlit("system.capabilities");
    reveal_strlit("system.identify");
    reveal_strlit("system.ping");
    reveal_strlit("workspace.close");
    reveal_strlit("workspace.create");
    reveal_strlit("workspace.current");
    reveal_strlit("workspace.equalize_splits");
    reveal_strlit("workspace.list");
    reveal_strlit("workspace.rename");
    assert(whole[19] == "surface.send_text"@ && sorted[80] == whole[19]);
    lemma_before_at("surface.send_text"@, "surface.split"@, 9);
    assert(is_placed(80));
    assert(whole[15] == "surface.split"@ && sorted[81] == whole[15]);
    lemma_before_at("surface.split"@, "system.capabilities"@, 1);
    assert(is_placed(81));
    assert(whole[1] == "system.capabilities"@ && sorted[82] == whole[1]);
    lemma_before_at("system.capabilities"@, "system.identify"@, 7);
    assert(is_placed(82));
    assert(whole[2] == "system.identify"@ && sorted[83] == whole[2]);
    lemma_before_at("system.identify"@, "system.ping"@, 7);
    assert(is_placed(83));
    assert(whole[0] == "system.ping"@ && sorted[84] == whole[0]);
    lemma_before_at("system.ping"@, "workspace.close"@, 0);
    assert(is_placed(84));
    assert(whole[8] == "workspace.close"@ && sorted[85] == whole[8]);
    lemma_before_at("workspace.close"@, "workspace.create"@, 11);
    assert(is_placed(85));
    assert(whole[5] == "workspace.create"@ && sorted[86] == whole[5]);
    lemma_before_at("workspace.create"@, "workspace.current"@, 11);
    assert(is_placed(86));
    assert(whole[6] == "workspace.current"@ && sorted[87] == whole[6]);
    lemma_before_at("workspace.current"@, "workspace.equalize_splits"@, 10);
    assert(is_placed(87));
    assert(whole[10] == "workspace.equalize_splits"@ && sorted[88] == whole[10]);
    lemma_before_at("workspace.equalize_splits"@, "workspace.list"@, 10);
    assert(is_placed(88));
    assert(whole[4] == "workspace.list"@ && sorted[89] == whole[4]);
    lemma_before_at("workspace.list"@, "workspace.rename"@, 10);
    assert(sorted[90] == "workspace.rename"@);
    assert(is_placed(89));
}

/// Where some of the methods stand.
proof fn lemma_placed_from_90()
    ensures
        forall|i: int| 90 <= i < 92 ==> #[trigger] is_placed(i),
{
    let whole = shell_methods() + automation_methods();
    let sorted = sorted_methods();
    reveal_strlit("workspace.rename");
    reveal_strlit("workspace.select");
    assert(whole[9] == "workspace.rename"@ && sorted[90] == whole[9]);
    lemma_before_at("workspace.rename"@, "workspace.select"@, 10);
    assert(is_placed(90));
    assert(whole[7] == "workspace.select"@ && sorted[91] == whole[7]);
    assert(is_placed(91));
}

/// Where the methods stand.
proof fn lemma_placed(i: int)
    requires
        0 <= i < sorted_methods().len(),
    ensures
        is_placed(i),
{
    lemma_placed_from_0();
    lemma_placed_from_10();
    lemma_placed_from_20();
    lemma_placed_from_30();
    lemma_placed_from_40();
    lemma_placed_from_50();
    lemma_placed_from_60();
    lemma_placed_from_70();
    lemma_placed_from_80();
    lemma_placed_from_90();
}

/// The methods as they are written down stand in strict order.
proof fn lemma_sorted_strictly(i: int, j: int)
    requires
        0 <= i < j < sorted_methods().len(),
    ensures
        before(sorted_methods()[i], sorted_methods()[j]),
    decreases j - i,
{
    lemma_placed(i);
    if i + 1 < j {
        lemma_sorted_strictly(i + 1, j);
        lemma_before_transitive(
            sorted_methods()[i],
            sorted_methods()[i + 1],
            sorted_methods()[j],
        );
    }
}

/// No method is named twice, and those that are written down are all.
proof fn lemma_methods_once()
    ensures
        (shell_methods() + automation_methods()).no_duplicates(),
        sorted_methods().no_duplicates(),
        forall|method: Seq<char>|
            sorted_methods().contains(method) <==> (shell_methods()
                + automation_methods()).contains(method),
{
    broadcast use seq_to_set_is_finite;

    let whole = shell_methods() + automation_methods();
    let sorted = sorted_methods();
    assert forall|i: int, j: int| 0 <= i < sorted.len() && 0 <= j < sorted.len() && i
        != j implies sorted[i] != sorted[j] by {
        lemma_before_total(sorted[i], sorted[j]);
        if i < j {
            lemma_sorted_strictly(i, j);
        } else {
            lemma_sorted_strictly(j, i);
        }
    }
    assert forall|method: Seq<char>| sorted.contains(method) implies whole.contains(method) by {
        lemma_placed(sorted.index_of(method));
    }
    sorted.unique_seq_to_set();
    assert(sorted.to_set().subset_of(whole.to_set()));
    lemma_len_subset(sorted.to_set(), whole.to_set());
    whole.lemma_cardinality_of_set();
    assert(sorted.len() == whole.len());
    whole.lemma_no_dup_set_cardinality();
    lemma_subset_equality(sorted.to_set(), whole.to_set());
    assert forall|method: Seq<char>| whole.contains(method) implies sorted.contains(method) by {
        assert(whole.to_set().contains(method));
    }
}

/// The methods are listed just as they are written down.
pub proof fn law_methods_are_these()
    ensures
        all_methods() == sorted_methods(),
{
    broadcast use group_to_multiset_ensures;

    let whole = shell_methods() + automation_methods();
    let sorted = sorted_methods();
    let leq = text_order();
    lemma_text_order();
    whole.lemma_sort_by_ensures(leq);
    lemma_methods_once();
    whole.lemma_multiset_has_no_duplicates();
    sorted.lemma_multiset_has_no_duplicates();
    assert(sorted.to_multiset() =~= whole.to_multiset()) by {
        assert forall|method: Seq<char>|
            sorted.to_multiset().count(method) == whole.to_multiset().count(method) by {
            assert(sorted.contains(method) <==> sorted.to_multiset().count(method) > 0);
            assert(whole.contains(method) <==> whole.to_multiset().count(method) > 0);
        }
    }
    assert forall|i: int, j: int| 0 <= i < j < sorted.len() implies #[trigger] leq(
        sorted[i],
        sorted[j],
    ) by {
        lemma_sorted_strictly(i, j);
        lemma_before_total(sorted[i], sorted[j]);
    }
    lemma_sorted_unique(all_methods(), sorted, leq);
}

/// The list of methods is in strict order, so that it names none twice, and
/// holds just the methods of the shell and those for pages.
pub proof fn law_methods_are_listed_in_order(method: Seq<char>, i: int, j: int)
    ensures
        all_methods().contains(method) == (shell_methods().contains(method)
            || automation_methods().contains(method)),
        0 <= i < j < all_methods().len() ==> before(all_methods()[i], all_methods()[j]),
{
    let shell = shell_methods();
    let automation = automation_methods();
    let whole = shell + automation;
    law_methods_are_these();
    lemma_methods_once();
    if 0 <= i < j < all_methods().len() {
        lemma_sorted_strictly(i, j);
    }
    if shell.contains(method) {
        assert(whole[shell.index_of(method)] == method);
    }
    if automation.contains(method) {
        assert(whole[shell.len() + automation.index_of(method)] == method);
    }
    if whole.contains(method) {
        let k = whole.index_of(method);
        if k < shell.len() {
            assert(shell[k] == method);
        } else {
            assert(automation[k - shell.len()] == method);
        }
    }
}

} // verus!
