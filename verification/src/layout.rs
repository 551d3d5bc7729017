//! How the panes of a workspace share its area: a tree of splits with panes
//! at the leaves.

use crate::text::{owned, same, texts};
use vstd::prelude::*;

verus! {

/// Which way a split divides its area.
#[derive(Clone, Copy, PartialEq, Eq, Structural)]
pub enum SplitDirection {
    Horizontal,
    Vertical,
}

/// A pane, or two layouts side by side. The ratio is the share of the first
/// one, as the bits of an IEEE 754 double.
pub enum PaneNode {
    Leaf { pane_id: String },
    Split { direction: SplitDirection, ratio: u64, first: Box<PaneNode>, second: Box<PaneNode> },
}

/// What a layout is.
pub enum LayoutView {
    Leaf { pane: Seq<char> },
    Split {
        direction: SplitDirection,
        ratio: u64,
        first: Box<LayoutView>,
        second: Box<LayoutView>,
    },
}

/// The bits of the double 0.5.
pub const RATIO_HALF: u64 = 0x3FE0_0000_0000_0000;

/// The bits of the double 0.1.
pub const RATIO_LEAST: u64 = 0x3FB9_9999_9999_999A;

/// The bits of the double 0.9.
pub const RATIO_MOST: u64 = 0x3FEC_CCCC_CCCC_CCCD;

/// The bits of a double are those of a value at or below minus zero from here.
pub const RATIO_SIGN: u64 = 0x8000_0000_0000_0000;

/// The bits of the double that is infinite.
pub const RATIO_INFINITE: u64 = 0x7FF0_0000_0000_0000;

impl PaneNode {
    /// What the layout is.
    pub open spec fn view(&self) -> LayoutView
        decreases self,
    {
        match *self {
            PaneNode::Leaf { pane_id } => LayoutView::Leaf { pane: pane_id@ },
            PaneNode::Split { direction, ratio, first, second } => LayoutView::Split {
                direction,
                ratio,
                first: Box::new(first.view()),
                second: Box::new(second.view()),
            },
        }
    }

    /// A copy of the layout.
    pub fn copy(&self) -> (r: PaneNode)
        ensures
            r@ == self@,
        decreases self,
    {
        match self {
            PaneNode::Leaf { pane_id } => PaneNode::Leaf { pane_id: pane_id.clone() },
            PaneNode::Split { direction, ratio, first, second } => {
                let a = first.copy();
                let b = second.copy();
                PaneNode::Split {
                    direction: *direction,
                    ratio: *ratio,
                    first: Box::new(a),
                    second: Box::new(b),
                }
            },
        }
    }
}

impl LayoutView {
    /// The panes of the layout, from the first to the last.
    pub open spec fn leaves(self) -> Seq<Seq<char>>
        decreases self,
    {
        match self {
            LayoutView::Leaf { pane } => seq![pane],
            LayoutView::Split { direction, ratio, first, second } => first.leaves()
                + second.leaves(),
        }
    }

    /// Whether a pane stands in the layout.
    pub open spec fn has(self, pane: Seq<char>) -> bool
        decreases self,
    {
        match self {
            LayoutView::Leaf { pane: candidate } => candidate == pane,
            LayoutView::Split { direction, ratio, first, second } => first.has(pane)
                || second.has(pane),
        }
    }

    /// The layout with the first leaf of `target` split between it and `added`.
    pub open spec fn split_at(
        self,
        target: Seq<char>,
        added: Seq<char>,
        way: SplitDirection,
        ahead: bool,
    ) -> LayoutView
        decreases self,
    {
        match self {
            LayoutView::Leaf { pane } => if pane == target {
                let leaf = LayoutView::Leaf { pane: added };
                if ahead {
                    half_split(way, leaf, self)
                } else {
                    half_split(way, self, leaf)
                }
            } else {
                self
            },
            LayoutView::Split { direction, ratio, first, second } => if first.has(target) {
                LayoutView::Split {
                    direction,
                    ratio,
                    first: Box::new(first.split_at(target, added, way, ahead)),
                    second,
                }
            } else {
                LayoutView::Split {
                    direction,
                    ratio,
                    first,
                    second: Box::new(second.split_at(target, added, way, ahead)),
                }
            },
        }
    }

    /// The layout with a pane added: beside `target` where the layout has it,
    /// and after everything otherwise.
    pub open spec fn insert(
        self,
        target: Option<Seq<char>>,
        added: Seq<char>,
        way: SplitDirection,
        ahead: bool,
    ) -> LayoutView {
        if target is Some && self.has(target->0) {
            self.split_at(target->0, added, way, ahead)
        } else {
            half_split(way, self, LayoutView::Leaf { pane: added })
        }
    }

    /// What is left of the layout when only some panes stay.
    pub open spec fn prune(self, panes: Seq<Seq<char>>) -> Option<LayoutView>
        decreases self,
    {
        match self {
            LayoutView::Leaf { pane } => if panes.contains(pane) {
                Some(self)
            } else {
                None
            },
            LayoutView::Split { direction, ratio, first, second } => match (
                first.prune(panes),
                second.prune(panes),
            ) {
                (Some(a), Some(b)) => Some(
                    LayoutView::Split {
                        direction,
                        ratio,
                        first: Box::new(a),
                        second: Box::new(b),
                    },
                ),
                (Some(only), None) => Some(only),
                (None, Some(only)) => Some(only),
                (None, None) => None,
            },
        }
    }

    /// The layout with two panes in each other's places.
    pub open spec fn swap(self, a: Seq<char>, b: Seq<char>) -> LayoutView
        decreases self,
    {
        match self {
            LayoutView::Leaf { pane } => LayoutView::Leaf { pane: swapped(pane, a, b) },
            LayoutView::Split { direction, ratio, first, second } => LayoutView::Split {
                direction,
                ratio,
                first: Box::new(first.swap(a, b)),
                second: Box::new(second.swap(a, b)),
            },
        }
    }

    /// Whether the outermost split holds the pane, so that it can be resized.
    pub open spec fn resizable(self, pane: Seq<char>) -> bool {
        self is Split && self.has(pane)
    }

    /// The layout with the outermost split, which holds the pane, at another
    /// ratio.
    pub open spec fn resize(self, pane: Seq<char>, to: u64) -> LayoutView {
        match self {
            LayoutView::Leaf { .. } => self,
            LayoutView::Split { direction, ratio, first, second } => if self.has(pane) {
                LayoutView::Split { direction, ratio: to, first, second }
            } else {
                self
            },
        }
    }

    /// The layout with every split in the middle.
    pub open spec fn equalize(self) -> LayoutView
        decreases self,
    {
        match self {
            LayoutView::Leaf { pane } => self,
            LayoutView::Split { direction, ratio, first, second } => LayoutView::Split {
                direction,
                ratio: RATIO_HALF,
                first: Box::new(first.equalize()),
                second: Box::new(second.equalize()),
            },
        }
    }

    /// Whether every split stands in the middle.
    pub open spec fn even(self) -> bool
        decreases self,
    {
        match self {
            LayoutView::Leaf { pane } => true,
            LayoutView::Split { direction, ratio, first, second } => ratio == RATIO_HALF
                && first.even() && second.even(),
        }
    }
}

/// Two layouts side by side, divided in the middle.
pub open spec fn half_split(
    direction: SplitDirection,
    first: LayoutView,
    second: LayoutView,
) -> LayoutView {
    LayoutView::Split {
        direction,
        ratio: RATIO_HALF,
        first: Box::new(first),
        second: Box::new(second),
    }
}

/// A pane after `a` and `b` changed places.
pub open spec fn swapped(pane: Seq<char>, a: Seq<char>, b: Seq<char>) -> Seq<char> {
    if pane == a {
        b
    } else if pane == b {
        a
    } else {
        pane
    }
}

/// The name of a direction.
pub open spec fn direction_text(direction: SplitDirection) -> Seq<char> {
    match direction {
        SplitDirection::Horizontal => "horizontal"@,
        SplitDirection::Vertical => "vertical"@,
    }
}

/// The name of a direction.
pub fn split_direction_name(direction: SplitDirection) -> (r: &'static str)
    ensures
        r@ == direction_text(direction),
{
    match direction {
        SplitDirection::Horizontal => "horizontal",
        SplitDirection::Vertical => "vertical",
    }
}

/// Whether a pane stands in a layout.
pub fn layout_contains_pane(node: &PaneNode, pane_id: &str) -> (r: bool)
    ensures
        r == node@.has(pane_id@),
    decreases node,
{
    match node {
        PaneNode::Leaf { pane_id: candidate } => same(candidate.as_str(), pane_id),
        PaneNode::Split { direction, ratio, first, second } => {
            layout_contains_pane(first, pane_id) || layout_contains_pane(second, pane_id)
        },
    }
}

/// Splits the first leaf of a pane between it and a new one. Says whether the
/// pane was there.
pub fn split_layout_at_pane(
    node: &mut PaneNode,
    target_pane_id: &str,
    new_pane_id: &str,
    direction: SplitDirection,
    insert_before: bool,
) -> (r: bool)
    ensures
        r == old(node)@.has(target_pane_id@),
        r ==> final(node)@ == old(node)@.split_at(
            target_pane_id@,
            new_pane_id@,
            direction,
            insert_before,
        ),
        !r ==> final(node)@ == old(node)@,
    decreases *old(node),
{
    proof {
        reveal_with_fuel(PaneNode::view, 2);
    }
    if let PaneNode::Leaf { pane_id } = &*node {
        if !same(pane_id.as_str(), target_pane_id) {
            return false;
        }
        let kept = PaneNode::Leaf { pane_id: pane_id.clone() };
        let added = PaneNode::Leaf { pane_id: owned(new_pane_id) };
        *node =
        if insert_before {
            PaneNode::Split {
                direction,
                ratio: RATIO_HALF,
                first: Box::new(added),
                second: Box::new(kept),
            }
        } else {
            PaneNode::Split {
                direction,
                ratio: RATIO_HALF,
                first: Box::new(kept),
                second: Box::new(added),
            }
        };
        return true;
    }
    match node {
        PaneNode::Leaf { .. } => false,
        PaneNode::Split { direction: _, ratio: _, first, second } => {
            if split_layout_at_pane(first, target_pane_id, new_pane_id, direction, insert_before) {
                true
            } else {
                split_layout_at_pane(second, target_pane_id, new_pane_id, direction, insert_before)
            }
        },
    }
}

/// Adds a pane to a layout: beside the target where the layout has it, and
/// after everything otherwise.
pub fn insert_pane_in_layout(
    layout: &mut PaneNode,
    target_pane_id: Option<&str>,
    new_pane_id: &str,
    direction: SplitDirection,
    insert_before: bool,
)
    ensures
        final(layout)@ == old(layout)@.insert(
            match target_pane_id {
                Some(t) => Some(t@),
                None => None,
            },
            new_pane_id@,
            direction,
            insert_before,
        ),
{
    if let Some(target) = target_pane_id {
        if split_layout_at_pane(layout, target, new_pane_id, direction, insert_before) {
            return;
        }
    }
    proof {
        reveal_with_fuel(PaneNode::view, 2);
    }
    let previous = layout.copy();
    *layout =
    PaneNode::Split {
        direction,
        ratio: RATIO_HALF,
        first: Box::new(previous),
        second: Box::new(PaneNode::Leaf { pane_id: owned(new_pane_id) }),
    };
}

/// Whether a text is one of a list.
pub fn listed(list: &Vec<String>, id: &str) -> (r: bool)
    ensures
        r == texts(list@).contains(id@),
{
    let mut i: usize = 0;
    while i < list.len()
        invariant
            i <= list@.len(),
            forall|j: int| 0 <= j < i ==> #[trigger] texts(list@)[j] != id@,
        decreases list@.len() - i,
    {
        if same(list[i].as_str(), id) {
            assert(texts(list@)[i as int] == id@);
            return true;
        }
        i += 1;
    }
    false
}

/// What a pruned layout is.
pub open spec fn optional_layout(node: Option<PaneNode>) -> Option<LayoutView> {
    match node {
        Some(n) => Some(n@),
        None => None,
    }
}

/// What is left of a layout when only some panes stay.
pub fn prune_layout(node: &PaneNode, pane_ids: &Vec<String>) -> (r: Option<PaneNode>)
    ensures
        optional_layout(r) == node@.prune(texts(pane_ids@)),
    decreases node,
{
    match node {
        PaneNode::Leaf { pane_id } => {
            if listed(pane_ids, pane_id.as_str()) {
                Some(PaneNode::Leaf { pane_id: pane_id.clone() })
            } else {
                None
            }
        },
        PaneNode::Split { direction, ratio, first, second } => {
            let a = prune_layout(first, pane_ids);
            let b = prune_layout(second, pane_ids);
            match (a, b) {
                (Some(first), Some(second)) => Some(
                    PaneNode::Split {
                        direction: *direction,
                        ratio: *ratio,
                        first: Box::new(first),
                        second: Box::new(second),
                    },
                ),
                (Some(only), None) => Some(only),
                (None, Some(only)) => Some(only),
                (None, None) => None,
            }
        },
    }
}

/// Puts two panes in each other's places.
pub fn swap_panes_in_layout(node: &mut PaneNode, first_id: &str, second_id: &str)
    ensures
        final(node)@ == old(node)@.swap(first_id@, second_id@),
    decreases *old(node),
{
    match node {
        PaneNode::Leaf { pane_id } => {
            if same(pane_id.as_str(), first_id) {
                *pane_id = owned(second_id);
            } else if same(pane_id.as_str(), second_id) {
                *pane_id = owned(first_id);
            }
        },
        PaneNode::Split { direction: _, ratio: _, first, second } => {
            swap_panes_in_layout(first, first_id, second_id);
            swap_panes_in_layout(second, first_id, second_id);
        },
    }
}

/// Moves the outermost split that holds a pane to another ratio. Says whether
/// there is one.
pub fn resize_split_for_pane(node: &mut PaneNode, pane_id: &str, to: u64) -> (r: bool)
    ensures
        r == old(node)@.resizable(pane_id@),
        final(node)@ == old(node)@.resize(pane_id@, to),
{
    let held = layout_contains_pane(&*node, pane_id);
    match node {
        PaneNode::Leaf { .. } => false,
        PaneNode::Split { direction: _, ratio, first: _, second: _ } => {
            if held {
                *ratio = to;
            }
            held
        },
    }
}

/// Puts every split in the middle.
pub fn equalize_layout(node: &mut PaneNode)
    ensures
        final(node)@ == old(node)@.equalize(),
    decreases *old(node),
{
    match node {
        PaneNode::Leaf { .. } => {},
        PaneNode::Split { direction: _, ratio, first, second } => {
            *ratio = RATIO_HALF;
            equalize_layout(first);
            equalize_layout(second);
        },
    }
}

/// Whether the bits of a double are those of no number.
pub open spec fn is_nan(bits: u64) -> bool {
    bits % RATIO_SIGN > RATIO_INFINITE
}

/// A ratio brought between 0.1 and 0.9. Doubles that are not negative are
/// ordered as their bits are; what is no number stays as it is.
pub open spec fn clamped(bits: u64) -> u64 {
    if is_nan(bits) {
        bits
    } else if bits >= RATIO_SIGN || bits < RATIO_LEAST {
        RATIO_LEAST
    } else if bits > RATIO_MOST {
        RATIO_MOST
    } else {
        bits
    }
}

/// A ratio brought between 0.1 and 0.9.
pub fn clamp_ratio(bits: u64) -> (r: u64)
    ensures
        r == clamped(bits),
{
    if bits % RATIO_SIGN > RATIO_INFINITE {
        bits
    } else if bits >= RATIO_SIGN || bits < RATIO_LEAST {
        RATIO_LEAST
    } else if bits > RATIO_MOST {
        RATIO_MOST
    } else {
        bits
    }
}

// ---------------------------------------------------------------------------
// Laws

/// A layout has exactly the panes at its leaves.
pub proof fn law_has_is_a_leaf(l: LayoutView, pane: Seq<char>)
    ensures
        l.has(pane) <==> l.leaves().contains(pane),
    decreases l,
{
    match l {
        LayoutView::Leaf { pane: candidate } => {
            assert(l.leaves()[0] == candidate);
        },
        LayoutView::Split { direction, ratio, first, second } => {
            law_has_is_a_leaf(*first, pane);
            law_has_is_a_leaf(*second, pane);
            let a = first.leaves();
            let b = second.leaves();
            if a.contains(pane) {
                let i = choose|i: int| 0 <= i < a.len() && a[i] == pane;
                assert((a + b)[i] == pane);
            }
            if b.contains(pane) {
                let i = choose|i: int| 0 <= i < b.len() && b[i] == pane;
                assert((a + b)[a.len() + i] == pane);
            }
        },
    }
}

/// Adding a pane adds one leaf and takes none away: with that leaf removed the
/// others stand as they stood.
pub proof fn law_insert_adds_one_leaf(
    l: LayoutView,
    target: Option<Seq<char>>,
    added: Seq<char>,
    way: SplitDirection,
    ahead: bool,
)
    ensures
        exists|i: int|
            0 <= i <= l.leaves().len() && l.insert(target, added, way, ahead).leaves()
                == #[trigger] l.leaves().insert(i, added),
{
    if target is Some && l.has(target->0) {
        lemma_split_at_leaves(l, target->0, added, way, ahead);
    } else {
        reveal_with_fuel(LayoutView::leaves, 2);
        let n = l.leaves().len() as int;
        assert(half_split(way, l, LayoutView::Leaf { pane: added }).leaves()
            =~= l.leaves().insert(n, added));
    }
}

proof fn lemma_split_at_leaves(
    l: LayoutView,
    target: Seq<char>,
    added: Seq<char>,
    way: SplitDirection,
    ahead: bool,
)
    requires
        l.has(target),
    ensures
        exists|i: int|
            0 <= i <= l.leaves().len() && l.split_at(target, added, way, ahead).leaves()
                == #[trigger] l.leaves().insert(i, added),
    decreases l,
{
    match l {
        LayoutView::Leaf { pane } => {
            reveal_with_fuel(LayoutView::leaves, 2);
            let i: int = if ahead {
                0
            } else {
                1
            };
            assert(l.split_at(target, added, way, ahead).leaves() =~= l.leaves().insert(i, added));
        },
        LayoutView::Split { direction, ratio, first, second } => {
            let a = first.leaves();
            let b = second.leaves();
            if first.has(target) {
                lemma_split_at_leaves(*first, target, added, way, ahead);
                let i = choose|i: int|
                    0 <= i <= a.len() && first.split_at(target, added, way, ahead).leaves()
                        == #[trigger] a.insert(i, added);
                assert(a.insert(i, added) + b =~= (a + b).insert(i, added));
                assert(l.leaves().insert(i, added) == l.split_at(target, added, way, ahead).leaves());
            } else {
                lemma_split_at_leaves(*second, target, added, way, ahead);
                let i = choose|i: int|
                    0 <= i <= b.len() && second.split_at(target, added, way, ahead).leaves()
                        == #[trigger] b.insert(i, added);
                let k = a.len() + i;
                assert(a + b.insert(i, added) =~= (a + b).insert(k, added));
                assert(l.leaves().insert(k, added) == l.split_at(target, added, way, ahead).leaves());
            }
        },
    }
}

/// The leaves of a pruned layout.
pub open spec fn pruned_leaves(l: LayoutView, panes: Seq<Seq<char>>) -> Seq<Seq<char>> {
    l.leaves().filter(|pane: Seq<char>| panes.contains(pane))
}

/// Pruning keeps exactly the leaves that stay, in their order; nothing is left
/// where none stays.
pub proof fn law_prune_keeps_the_listed_leaves(l: LayoutView, panes: Seq<Seq<char>>)
    ensures
        match l.prune(panes) {
            Some(p) => p.leaves() == pruned_leaves(l, panes),
            None => pruned_leaves(l, panes).len() == 0,
        },
    decreases l,
{
    let keep = |pane: Seq<char>| panes.contains(pane);
    match l {
        LayoutView::Leaf { pane } => {
            reveal(Seq::filter);
            reveal_with_fuel(Seq::filter, 3);
            assert(l.leaves().drop_last() =~= Seq::<Seq<char>>::empty());
            assert(l.leaves().filter(keep) =~= if keep(pane) {
                l.leaves()
            } else {
                Seq::empty()
            });
        },
        LayoutView::Split { direction, ratio, first, second } => {
            law_prune_keeps_the_listed_leaves(*first, panes);
            law_prune_keeps_the_listed_leaves(*second, panes);
            Seq::filter_distributes_over_add(first.leaves(), second.leaves(), keep);
            assert(l.leaves() == first.leaves() + second.leaves());
            if first.prune(panes) is None {
                assert(first.leaves().filter(keep) =~= Seq::<Seq<char>>::empty());
                assert(l.leaves().filter(keep) =~= second.leaves().filter(keep));
            } else if second.prune(panes) is None {
                assert(second.leaves().filter(keep) =~= Seq::<Seq<char>>::empty());
                assert(l.leaves().filter(keep) =~= first.leaves().filter(keep));
            }
        },
    }
}

/// A layout of panes that all stay is left as it is.
pub proof fn law_prune_leaves_a_fitting_layout(l: LayoutView, panes: Seq<Seq<char>>)
    requires
        forall|i: int| 0 <= i < l.leaves().len() ==> panes.contains(#[trigger] l.leaves()[i]),
    ensures
        l.prune(panes) == Some(l),
    decreases l,
{
    match l {
        LayoutView::Leaf { pane } => {
            assert(l.leaves()[0] == pane);
        },
        LayoutView::Split { direction, ratio, first, second } => {
            assert(l.leaves() == first.leaves() + second.leaves());
            assert forall|i: int| 0 <= i < first.leaves().len() implies panes.contains(
                #[trigger] first.leaves()[i],
            ) by {
                assert(first.leaves()[i] == l.leaves()[i]);
            }
            assert forall|i: int| 0 <= i < second.leaves().len() implies panes.contains(
                #[trigger] second.leaves()[i],
            ) by {
                assert(second.leaves()[i] == l.leaves()[first.leaves().len() + i]);
            }
            law_prune_leaves_a_fitting_layout(*first, panes);
            law_prune_leaves_a_fitting_layout(*second, panes);
        },
    }
}

/// Two panes that change places twice stand where they stood.
pub proof fn law_swap_undoes_itself(l: LayoutView, a: Seq<char>, b: Seq<char>)
    ensures
        l.swap(a, b).swap(a, b) == l,
    decreases l,
{
    match l {
        LayoutView::Leaf { pane } => {},
        LayoutView::Split { direction, ratio, first, second } => {
            law_swap_undoes_itself(*first, a, b);
            law_swap_undoes_itself(*second, a, b);
        },
    }
}

/// Changing places changes the leaves one by one and nothing else.
pub proof fn law_swap_exchanges_leaves(l: LayoutView, a: Seq<char>, b: Seq<char>)
    ensures
        l.swap(a, b).leaves() == l.leaves().map_values(|pane: Seq<char>| swapped(pane, a, b)),
    decreases l,
{
    let f = |pane: Seq<char>| swapped(pane, a, b);
    match l {
        LayoutView::Leaf { pane } => {
            assert(l.swap(a, b).leaves() =~= l.leaves().map_values(f));
        },
        LayoutView::Split { direction, ratio, first, second } => {
            law_swap_exchanges_leaves(*first, a, b);
            law_swap_exchanges_leaves(*second, a, b);
            assert(l.swap(a, b).leaves() =~= l.leaves().map_values(f));
        },
    }
}

/// Equalizing puts every split in the middle, keeps the panes where they are,
/// and changes nothing when it is done again.
pub proof fn law_equalize(l: LayoutView)
    ensures
        l.equalize().even(),
        l.equalize().leaves() == l.leaves(),
        l.equalize().equalize() == l.equalize(),
    decreases l,
{
    match l {
        LayoutView::Leaf { pane } => {},
        LayoutView::Split { direction, ratio, first, second } => {
            law_equalize(*first);
            law_equalize(*second);
        },
    }
}

/// Resizing keeps the panes where they are.
pub proof fn law_resize_keeps_leaves(l: LayoutView, pane: Seq<char>, to: u64)
    ensures
        l.resize(pane, to).leaves() == l.leaves(),
{
}

/// A clamped ratio lies between 0.1 and 0.9 unless it is no number, and a
/// ratio that lies there is kept.
pub proof fn law_clamped_ratio(bits: u64)
    ensures
        !is_nan(bits) ==> RATIO_LEAST <= clamped(bits) <= RATIO_MOST,
        RATIO_LEAST <= bits <= RATIO_MOST ==> clamped(bits) == bits,
        clamped(clamped(bits)) == clamped(bits),
{
}

} // verus!
