//! The reorder engine: which tracked layer is promoted to the top of its
//! group, and what that does to the stacking orders.
//!
//! The host resolves the group and the tracked layer names and hands in what
//! it found: one slot per tracked name, in the order of the names, empty
//! where a name resolved to nothing. The engine picks the layer that belongs
//! to the focused window and the layer that is on top, and exchanges their
//! stacking orders. All other layers keep theirs.

use crate::active_window_manager::{FocusedWindow, FocusedWindowView};
use crate::source::{window_matched, FocusedWindowSource, MatchMethod};
use vstd::prelude::*;

verus! {

/// A layer as the host resolved it.
pub struct SceneItem {
    /// Identity of the layer in the host. Two slots with the same identity
    /// stand for the same layer.
    pub id: u64,
    /// Stacking order; the greatest is on top.
    pub order: i32,
    /// The text that is compared with the focused window.
    pub descriptor: String,
}

impl Clone for SceneItem {
    fn clone(&self) -> (copy: Self)
        ensures
            copy == *self,
    {
        SceneItem { id: self.id, order: self.order, descriptor: self.descriptor.clone() }
    }
}

/// An exchange of stacking orders between two resolved layers, each named by
/// the index of a slot that holds it.
#[derive(Debug, Clone, Copy, PartialEq, Eq, Structural)]
pub struct OrderSwap {
    /// Slot of the layer that belongs to the focused window.
    pub promoted: usize,
    /// Slot of the layer that was on top.
    pub demoted: usize,
    /// New stacking order of the promoted layer: the one the top layer had.
    pub promoted_order: i32,
    /// New stacking order of the demoted layer: the one the promoted had.
    pub demoted_order: i32,
}

/// The slots of a group; a group that did not resolve has none.
pub open spec fn slots(scene: Option<Vec<Option<SceneItem>>>) -> Seq<Option<SceneItem>> {
    match scene {
        Some(items) => items@,
        None => Seq::empty(),
    }
}

/// Slot `i` exists and holds a layer.
pub open spec fn resolved_at(items: Seq<Option<SceneItem>>, i: int) -> bool {
    0 <= i < items.len() && items[i] is Some
}

/// Slot `t` holds the top candidate: no resolved layer has a greater
/// stacking order, and no later slot holds one that is as great.
pub open spec fn is_top_candidate(items: Seq<Option<SceneItem>>, t: int) -> bool {
    &&& resolved_at(items, t)
    &&& forall|j: int| #[trigger]
        resolved_at(items, j) ==> items[j]->0.order <= items[t]->0.order
    &&& forall|j: int|
        t < j && #[trigger] resolved_at(items, j) ==> items[j]->0.order < items[t]->0.order
}

/// Slot `f` holds the focus match: the first resolved layer whose
/// descriptor matches the focused window.
pub open spec fn is_focus_match(
    items: Seq<Option<SceneItem>>,
    method: MatchMethod,
    window: FocusedWindowView,
    f: int,
) -> bool {
    &&& resolved_at(items, f)
    &&& window_matched(method, window, items[f]->0.descriptor@)
    &&& forall|j: int|
        j < f && #[trigger] resolved_at(items, j) ==> !window_matched(
            method,
            window,
            items[j]->0.descriptor@,
        )
}

/// The slot of the top candidate, if any layer resolved.
pub open spec fn top_candidate(items: Seq<Option<SceneItem>>) -> Option<int> {
    if exists|t: int| is_top_candidate(items, t) {
        Some(choose|t: int| is_top_candidate(items, t))
    } else {
        None
    }
}

/// The slot of the focus match, if any resolved layer matches.
pub open spec fn focus_match(
    items: Seq<Option<SceneItem>>,
    method: MatchMethod,
    window: FocusedWindowView,
) -> Option<int> {
    if exists|f: int| is_focus_match(items, method, window, f) {
        Some(choose|f: int| is_focus_match(items, method, window, f))
    } else {
        None
    }
}

/// At most one slot holds the top candidate.
pub proof fn top_candidate_is_unique(items: Seq<Option<SceneItem>>, t: int)
    requires
        is_top_candidate(items, t),
    ensures
        top_candidate(items) == Some(t),
{
    let chosen = choose|c: int| is_top_candidate(items, c);
    assert(resolved_at(items, chosen));
    assert(resolved_at(items, t));
}

/// Finds the slot of the top candidate by going through the slots.
proof fn find_top_candidate(items: Seq<Option<SceneItem>>) -> (top: Option<int>)
    ensures
        match top {
            Some(t) => is_top_candidate(items, t),
            None => forall|j: int| !resolved_at(items, j),
        },
    decreases items.len(),
{
    if items.len() == 0 {
        None
    } else {
        let before = items.drop_last();
        let last = items.len() - 1;
        let earlier = find_top_candidate(before);
        assert forall|j: int| resolved_at(before, j) == (resolved_at(items, j) && j != last) by {}
        assert forall|j: int| resolved_at(before, j) implies before[j] == items[j] by {}
        if earlier is Some {
            assert(resolved_at(before, earlier->0));
        }
        match items.last() {
            None => earlier,
            Some(item) => {
                if earlier is Some && items[earlier->0]->0.order > item.order {
                    earlier
                } else {
                    assert(resolved_at(items, last));
                    Some(last)
                }
            },
        }
    }
}

/// Where any layer resolved, there is a top candidate.
pub proof fn resolved_layer_gives_top_candidate(items: Seq<Option<SceneItem>>, i: int)
    requires
        resolved_at(items, i),
    ensures
        top_candidate(items) is Some,
{
    let top = find_top_candidate(items);
    top_candidate_is_unique(items, top->0);
}

/// At most one slot holds the focus match.
pub proof fn focus_match_is_unique(
    items: Seq<Option<SceneItem>>,
    method: MatchMethod,
    window: FocusedWindowView,
    f: int,
)
    requires
        is_focus_match(items, method, window, f),
    ensures
        focus_match(items, method, window) == Some(f),
{
    let chosen = choose|c: int| is_focus_match(items, method, window, c);
    assert(resolved_at(items, chosen));
    assert(resolved_at(items, f));
}

/// The exchange that one run of the engine calls for, if any. None is due
/// while the instance is disabled, while no focused window is known, when no
/// resolved layer matches it, or when the matching layer is the top
/// candidate itself.
pub open spec fn planned_swap(
    enable: bool,
    method: MatchMethod,
    focused: Option<FocusedWindow>,
    items: Seq<Option<SceneItem>>,
) -> Option<OrderSwap> {
    if !enable || focused is None {
        None
    } else {
        match (focus_match(items, method, focused->0@), top_candidate(items)) {
            (Some(f), Some(t)) => {
                if items[f]->0.id != items[t]->0.id {
                    Some(
                        OrderSwap {
                            promoted: f as usize,
                            demoted: t as usize,
                            promoted_order: items[t]->0.order,
                            demoted_order: items[f]->0.order,
                        },
                    )
                } else {
                    None
                }
            },
            _ => None,
        }
    }
}

/// The slots after an exchange: every slot of the promoted layer carries
/// `promoted_order`, every slot of the demoted layer `demoted_order`, and
/// nothing else changes.
pub open spec fn with_orders_swapped(
    items: Seq<Option<SceneItem>>,
    swap: OrderSwap,
) -> Seq<Option<SceneItem>> {
    let promoted = items[swap.promoted as int]->0.id;
    let demoted = items[swap.demoted as int]->0.id;
    items.map_values(
        |slot: Option<SceneItem>|
            match slot {
                Some(item) => {
                    if item.id == promoted {
                        Some(SceneItem { order: swap.promoted_order, ..item })
                    } else if item.id == demoted {
                        Some(SceneItem { order: swap.demoted_order, ..item })
                    } else {
                        slot
                    }
                },
                None => None,
            },
    )
}

/// The slots after one run of the engine.
pub open spec fn reordered(
    enable: bool,
    method: MatchMethod,
    focused: Option<FocusedWindow>,
    items: Seq<Option<SceneItem>>,
) -> Seq<Option<SceneItem>> {
    match planned_swap(enable, method, focused, items) {
        Some(swap) => with_orders_swapped(items, swap),
        None => items,
    }
}

/// Slots that stand for the same layer agree on everything.
pub open spec fn consistent(items: Seq<Option<SceneItem>>) -> bool {
    forall|i: int, j: int|
        #[trigger] resolved_at(items, i) && #[trigger] resolved_at(items, j) && items[i]->0.id
            == items[j]->0.id ==> items[i] == items[j]
}

/// Carries out an exchange on the slots: every slot of the promoted layer
/// gets `promoted_order`, every slot of the demoted layer `demoted_order`.
pub fn apply_swap(items: &mut Vec<Option<SceneItem>>, swap: OrderSwap)
    requires
        resolved_at(old(items)@, swap.promoted as int),
        resolved_at(old(items)@, swap.demoted as int),
    ensures
        final(items)@ == with_orders_swapped(old(items)@, swap),
{
    let promoted = match &items[swap.promoted] {
        Some(item) => item.id,
        None => 0,
    };
    let demoted = match &items[swap.demoted] {
        Some(item) => item.id,
        None => 0,
    };
    let ghost target = with_orders_swapped(items@, swap);
    let mut i: usize = 0;
    while i < items.len()
        invariant
            i <= items.len(),
            items.len() == target.len(),
            forall|k: int| 0 <= k < i ==> items@[k] == target[k],
            forall|k: int| i <= k < items.len() ==> items@[k] == old(items)@[k],
            target == with_orders_swapped(old(items)@, swap),
            promoted == old(items)@[swap.promoted as int]->0.id,
            demoted == old(items)@[swap.demoted as int]->0.id,
        decreases items.len() - i,
    {
        match &mut items[i] {
            Some(item) => {
                if item.id == promoted {
                    item.order = swap.promoted_order;
                } else if item.id == demoted {
                    item.order = swap.demoted_order;
                }
            },
            None => {},
        }
        i += 1;
    }
    assert(items@ =~= target);
}

impl FocusedWindowSource {
    /// Decides the exchange for one run of the engine, without changing
    /// anything. `scene` is `None` where the group did not resolve.
    pub fn plan_reorder(
        &self,
        focused: &Option<FocusedWindow>,
        scene: &Option<Vec<Option<SceneItem>>>,
    ) -> (plan: Option<OrderSwap>)
        ensures
            plan == planned_swap(self.enable, self.match_method, *focused, slots(*scene)),
            plan matches Some(swap) ==> {
                &&& is_focus_match(
                    slots(*scene),
                    self.match_method,
                    focused->0@,
                    swap.promoted as int,
                )
                &&& is_top_candidate(slots(*scene), swap.demoted as int)
            },
    {
        if !self.enable {
            return None;
        }
        let window = match focused {
            Some(window) => window,
            None => {
                return None;
            },
        };
        let items = match scene {
            Some(items) => items,
            None => {
                assert forall|t: int| !is_top_candidate(slots(*scene), t) by {}
                return None;
            },
        };
        let mut top: Option<usize> = None;
        let mut found: Option<usize> = None;
        let mut i: usize = 0;
        while i < items.len()
            invariant
                i <= items.len(),
                match top {
                    Some(t) => is_top_candidate(items@.take(i as int), t as int),
                    None => forall|j: int| !resolved_at(items@.take(i as int), j),
                },
                match found {
                    Some(f) => is_focus_match(
                        items@.take(i as int),
                        self.match_method,
                        window@,
                        f as int,
                    ),
                    None => forall|j: int| #[trigger]
                        resolved_at(items@.take(i as int), j) ==> !window_matched(
                            self.match_method,
                            window@,
                            items@[j]->0.descriptor@,
                        ),
                },
            decreases items.len() - i,
        {
            let ghost before = items@.take(i as int);
            let ghost after = items@.take(i + 1);
            proof {
                assert forall|j: int| resolved_at(before, j) == (resolved_at(after, j) && j
                    != i) by {}
                assert forall|j: int| resolved_at(after, j) implies after[j] == items@[j] by {}
                assert forall|j: int| resolved_at(before, j) implies before[j] == items@[j] by {}
            }
            match &items[i] {
                Some(item) => {
                    assert(resolved_at(after, i as int));
                    let on_top = match top {
                        Some(t) => {
                            assert(resolved_at(before, t as int));
                            match &items[t] {
                                Some(best) => item.order >= best.order,
                                None => true,
                            }
                        },
                        None => true,
                    };
                    if on_top {
                        top = Some(i);
                    }
                    if found.is_none() {
                        if self.is_window_matched_with_method(window, item.descriptor.as_str()) {
                            found = Some(i);
                        }
                    } else {
                        assert(resolved_at(before, found->0 as int));
                    }
                },
                None => {
                    proof {
                        if top is Some {
                            assert(resolved_at(before, top->0 as int));
                        }
                        if found is Some {
                            assert(resolved_at(before, found->0 as int));
                        }
                    }
                },
            }
            i += 1;
        }
        assert(items@.take(i as int) =~= items@);
        proof {
            match top {
                Some(t) => {
                    top_candidate_is_unique(items@, t as int);
                },
                None => {
                    assert forall|t: int| !is_top_candidate(items@, t) by {}
                },
            }
            match found {
                Some(f) => {
                    focus_match_is_unique(items@, self.match_method, window@, f as int);
                },
                None => {
                    assert forall|f: int| !is_focus_match(
                        items@,
                        self.match_method,
                        window@,
                        f,
                    ) by {}
                },
            }
        }
        match (found, top) {
            (Some(f), Some(t)) => {
                assert(resolved_at(items@, f as int));
                assert(resolved_at(items@, t as int));
                match (&items[f], &items[t]) {
                    (Some(matching), Some(best)) => {
                        if matching.id != best.id {
                            Some(
                                OrderSwap {
                                    promoted: f,
                                    demoted: t,
                                    promoted_order: best.order,
                                    demoted_order: matching.order,
                                },
                            )
                        } else {
                            None
                        }
                    },
                    _ => None,
                }
            },
            _ => None,
        }
    }

    /// Runs the engine once on the slots that the host resolved: decides
    /// the exchange and carries it out. Returns the exchange made, if any.
    pub fn reorder(
        &self,
        focused: &Option<FocusedWindow>,
        scene: &mut Option<Vec<Option<SceneItem>>>,
    ) -> (done: Option<OrderSwap>)
        ensures
            done == planned_swap(self.enable, self.match_method, *focused, slots(*old(scene))),
            slots(*final(scene)) == reordered(
                self.enable,
                self.match_method,
                *focused,
                slots(*old(scene)),
            ),
            *final(scene) is Some == *old(scene) is Some,
    {
        let plan = self.plan_reorder(focused, scene);
        match plan {
            Some(swap) => {
                match scene {
                    Some(items) => {
                        apply_swap(items, swap);
                    },
                    None => {},
                }
            },
            None => {},
        }
        plan
    }
}

/// Without a focused window the engine changes nothing, whatever the
/// instance tracks.
pub proof fn no_focus_no_change(
    enable: bool,
    method: MatchMethod,
    items: Seq<Option<SceneItem>>,
)
    ensures
        reordered(enable, method, None, items) == items,
{
}

/// A disabled instance changes nothing.
pub proof fn disabled_no_change(
    method: MatchMethod,
    focused: Option<FocusedWindow>,
    items: Seq<Option<SceneItem>>,
)
    ensures
        reordered(false, method, focused, items) == items,
{
}

/// An exchange touches stacking orders only, and only those of the two
/// layers it names: which slots are resolved, the identities and the
/// descriptors stay, and so does the order of every other layer.
pub proof fn swap_touches_two_layers(items: Seq<Option<SceneItem>>, swap: OrderSwap, k: int)
    requires
        resolved_at(items, swap.promoted as int),
        resolved_at(items, swap.demoted as int),
        0 <= k < items.len(),
    ensures
        with_orders_swapped(items, swap).len() == items.len(),
        with_orders_swapped(items, swap)[k] is Some == items[k] is Some,
        items[k] matches Some(item) ==> {
            let after = with_orders_swapped(items, swap)[k]->0;
            &&& after.id == item.id
            &&& after.descriptor == item.descriptor
            &&& after.order == if item.id == items[swap.promoted as int]->0.id {
                swap.promoted_order
            } else if item.id == items[swap.demoted as int]->0.id {
                swap.demoted_order
            } else {
                item.order
            }
        },
{
}

/// An exchange keeps the slots of one layer in agreement.
pub proof fn swap_keeps_consistency(items: Seq<Option<SceneItem>>, swap: OrderSwap)
    requires
        consistent(items),
        resolved_at(items, swap.promoted as int),
        resolved_at(items, swap.demoted as int),
    ensures
        consistent(with_orders_swapped(items, swap)),
{
    let after = with_orders_swapped(items, swap);
    assert forall|i: int, j: int|
        #[trigger] resolved_at(after, i) && #[trigger] resolved_at(after, j) && after[i]->0.id
            == after[j]->0.id implies after[i] == after[j] by {
        swap_touches_two_layers(items, swap, i);
        swap_touches_two_layers(items, swap, j);
        assert(resolved_at(items, i));
        assert(resolved_at(items, j));
    }
}

/// One run of the engine keeps the slots of one layer in agreement.
pub proof fn reorder_keeps_consistency(
    enable: bool,
    method: MatchMethod,
    focused: Option<FocusedWindow>,
    items: Seq<Option<SceneItem>>,
)
    requires
        consistent(items),
        items.len() <= usize::MAX,
    ensures
        consistent(reordered(enable, method, focused, items)),
{
    match planned_swap(enable, method, focused, items) {
        Some(swap) => {
            let f = focus_match(items, method, focused->0@)->0;
            let t = top_candidate(items)->0;
            assert(is_focus_match(items, method, focused->0@, f));
            assert(is_top_candidate(items, t));
            swap_keeps_consistency(items, swap);
        },
        None => {},
    }
}

/// Where the layer of the focused window already has the greatest stacking
/// order, the engine changes no stacking order.
pub proof fn top_match_changes_nothing(
    enable: bool,
    method: MatchMethod,
    focused: Option<FocusedWindow>,
    items: Seq<Option<SceneItem>>,
    f: int,
)
    requires
        consistent(items),
        items.len() <= usize::MAX,
        focused is Some,
        is_focus_match(items, method, focused->0@, f),
        forall|j: int| #[trigger] resolved_at(items, j) ==> items[j]->0.order <= items[f]->0.order,
    ensures
        reordered(enable, method, focused, items) == items,
{
    match planned_swap(enable, method, focused, items) {
        Some(swap) => {
            focus_match_is_unique(items, method, focused->0@, f);
            let t = top_candidate(items)->0;
            assert(is_top_candidate(items, t));
            assert(items[t]->0.order == items[f]->0.order);
            let after = with_orders_swapped(items, swap);
            assert forall|k: int| 0 <= k < items.len() implies after[k] == items[k] by {
                swap_touches_two_layers(items, swap, k);
                if items[k] is Some {
                    assert(resolved_at(items, k));
                }
            }
            assert(after =~= items);
        },
        None => {},
    }
}

/// Running the engine a second time, with the same focused window and the
/// same tracked layers, changes nothing more.
pub proof fn reorder_is_idempotent(
    enable: bool,
    method: MatchMethod,
    focused: Option<FocusedWindow>,
    items: Seq<Option<SceneItem>>,
)
    requires
        consistent(items),
        items.len() <= usize::MAX,
    ensures
        reordered(enable, method, focused, reordered(enable, method, focused, items))
            == reordered(enable, method, focused, items),
{
    match planned_swap(enable, method, focused, items) {
        Some(swap) => {
            let window = focused->0@;
            let f = focus_match(items, method, window)->0;
            let t = top_candidate(items)->0;
            assert(is_focus_match(items, method, window, f));
            assert(is_top_candidate(items, t));
            let once = with_orders_swapped(items, swap);
            assert forall|k: int| resolved_at(once, k) == resolved_at(items, k) by {
                if 0 <= k < items.len() {
                    swap_touches_two_layers(items, swap, k);
                }
            }
            assert forall|k: int| #[trigger] resolved_at(once, k) implies once[k]->0.descriptor
                == items[k]->0.descriptor && once[k]->0.order <= once[f]->0.order by {
                swap_touches_two_layers(items, swap, k);
                swap_touches_two_layers(items, swap, f);
                assert(resolved_at(items, k));
            }
            assert(is_focus_match(once, method, window, f)) by {
                assert(resolved_at(once, f));
                assert forall|j: int| j < f && #[trigger] resolved_at(once, j)
                    implies !window_matched(method, window, once[j]->0.descriptor@) by {
                    assert(resolved_at(items, j));
                }
            }
            swap_keeps_consistency(items, swap);
            top_match_changes_nothing(enable, method, focused, once, f);
        },
        None => {},
    }
}

} // verus!
