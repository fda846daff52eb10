//! The list of rectangles that wait for a refresh of the panel.
//!
//! A new rectangle is merged into the list in one pass from the front. The
//! first tracked rectangle that it meets decides what happens: the list stays
//! as it is, the tracked rectangle is replaced, or it grows. A rectangle that
//! meets none is appended. The order of the list is never changed.
//!
//! The pass costs one look at each entry and stops at the first that is met,
//! so the list may hold more rectangles than needed, and one of them may come
//! to lie inside another that was replaced or grown later. What the list
//! keeps is coverage: every rectangle merged into it lies inside one of its
//! entries, and no entry covers a position that no merged rectangle covers.

use vstd::prelude::*;
use crate::geom::{
    Rectangle,
    lemma_contains_order,
    lemma_union_is_least,
    lemma_union_of_extension_is_exact,
};

verus! {

/// The new rectangle `rect` meets the tracked rectangle `dr`: one of them
/// contains the other, or `rect` continues `dr` along one axis.
pub open spec fn meets(dr: Rectangle, rect: Rectangle) -> bool {
    dr.spec_contains(&rect) || rect.spec_contains(&dr) || rect.spec_extends(&dr)
}

/// What the tracked rectangle `dr` becomes once `rect` has met it.
pub open spec fn merged(dr: Rectangle, rect: Rectangle) -> Rectangle {
    if dr.spec_contains(&rect) {
        dr
    } else if rect.spec_contains(&dr) {
        rect
    } else {
        dr.spec_union(&rect)
    }
}

/// `k` is the position of the first tracked rectangle that `rect` meets.
pub open spec fn is_first_met(list: Seq<Rectangle>, rect: Rectangle, k: int) -> bool {
    &&& 0 <= k < list.len()
    &&& meets(list[k], rect)
    &&& forall|i: int| 0 <= i < k ==> !meets(#[trigger] list[i], rect)
}

/// `rect` meets none of the tracked rectangles.
pub open spec fn meets_none(list: Seq<Rectangle>, rect: Rectangle) -> bool {
    forall|i: int| 0 <= i < list.len() ==> !meets(#[trigger] list[i], rect)
}

/// The list after `rect` has been merged into it.
pub open spec fn absorbed(list: Seq<Rectangle>, rect: Rectangle) -> Seq<Rectangle> {
    if exists|k: int| is_first_met(list, rect, k) {
        let k = choose|k: int| is_first_met(list, rect, k);
        list.update(k, merged(list[k], rect))
    } else {
        list.push(rect)
    }
}

/// The list after each rectangle of `rects` has been merged into `acc`, in
/// the order of `rects`.
pub open spec fn absorbed_all(acc: Seq<Rectangle>, rects: Seq<Rectangle>) -> Seq<Rectangle>
    decreases rects.len(),
{
    if rects.len() == 0 {
        acc
    } else {
        absorbed(absorbed_all(acc, rects.drop_last()), rects.last())
    }
}

/// Some tracked rectangle contains `rect`.
pub open spec fn covered_by(list: Seq<Rectangle>, rect: Rectangle) -> bool {
    exists|k: int| 0 <= k < list.len() && (#[trigger] list[k]).spec_contains(&rect)
}

/// Every tracked rectangle has its bounds the right way round.
pub open spec fn all_wf(list: Seq<Rectangle>) -> bool {
    forall|i: int| 0 <= i < list.len() ==> (#[trigger] list[i]).wf()
}

/// The first tracked rectangle that `rect` meets decides the merged list.
pub proof fn lemma_absorbed_at_first_met(list: Seq<Rectangle>, rect: Rectangle, k: int)
    requires
        is_first_met(list, rect, k),
    ensures
        absorbed(list, rect) == list.update(k, merged(list[k], rect)),
{
    let c = choose|c: int| is_first_met(list, rect, c);
    lemma_first_met_unique(list, rect, c, k);
}

/// A rectangle that meets no tracked rectangle is appended.
pub proof fn lemma_absorbed_when_none_met(list: Seq<Rectangle>, rect: Rectangle)
    requires
        meets_none(list, rect),
    ensures
        absorbed(list, rect) == list.push(rect),
{
    if exists|k: int| is_first_met(list, rect, k) {
        let c = choose|c: int| is_first_met(list, rect, c);
        assert(!meets(list[c], rect));
    }
}

/// The merged list, by what `rect` meets.
pub proof fn lemma_absorbed_cases(list: Seq<Rectangle>, rect: Rectangle)
    ensures
        forall|k: int|
            is_first_met(list, rect, k) ==> absorbed(list, rect) == list.update(
                k,
                merged(list[k], rect),
            ),
        meets_none(list, rect) ==> absorbed(list, rect) == list.push(rect),
{
    assert forall|k: int| is_first_met(list, rect, k) implies absorbed(list, rect) == list.update(
        k,
        merged(list[k], rect),
    ) by {
        lemma_absorbed_at_first_met(list, rect, k);
    }
    if meets_none(list, rect) {
        lemma_absorbed_when_none_met(list, rect);
    }
}

/// Either some tracked rectangle is the first that `rect` meets, or `rect`
/// meets none.
pub proof fn lemma_first_met_or_none(list: Seq<Rectangle>, rect: Rectangle) -> (k: int)
    ensures
        0 <= k <= list.len(),
        k < list.len() ==> is_first_met(list, rect, k),
        k == list.len() ==> meets_none(list, rect),
    decreases list.len(),
{
    if list.len() == 0 {
        0
    } else {
        let front = list.drop_last();
        let k = lemma_first_met_or_none(front, rect);
        if k < front.len() {
            assert(forall|i: int| 0 <= i < k ==> front[i] == list[i]);
            assert(front[k] == list[k]);
            k
        } else {
            assert forall|i: int| 0 <= i < front.len() implies !meets(#[trigger] list[i], rect) by {
                assert(front[i] == list[i]);
            }
            if meets(list.last(), rect) {
                front.len() as int
            } else {
                list.len() as int
            }
        }
    }
}

/// Merges `rect` into the list of tracked rectangles.
///
/// The first tracked rectangle that contains `rect`, lies inside `rect` or is
/// continued by `rect` decides: it stays as it is, is replaced by `rect`, or
/// grows to the union of the two. Where there is none, `rect` is appended.
pub fn push_to_dirty_rect_list(list: &mut Vec<Rectangle>, rect: Rectangle)
    ensures
        final(list)@ == absorbed(old(list)@, rect),
        forall|k: int|
            is_first_met(old(list)@, rect, k) ==> final(list)@ == old(list)@.update(
                k,
                merged(old(list)@[k], rect),
            ),
        meets_none(old(list)@, rect) ==> final(list)@ == old(list)@.push(rect),
{
    proof {
        lemma_absorbed_cases(old(list)@, rect);
    }
    let n = list.len();
    let mut i: usize = 0;
    while i < n
        invariant
            list@ == old(list)@,
            n == list.len(),
            i <= n,
            forall|j: int| 0 <= j < i ==> !meets(#[trigger] list@[j], rect),
        decreases n - i,
    {
        let dr = list[i];
        if dr.contains(&rect) {
            proof {
                lemma_absorbed_at_first_met(old(list)@, rect, i as int);
                assert(list@ =~= old(list)@.update(i as int, dr));
            }
            return ;
        }
        if rect.contains(&dr) {
            list[i] = rect;
            proof {
                lemma_absorbed_at_first_met(old(list)@, rect, i as int);
            }
            return ;
        }
        if rect.extends(&dr) {
            let mut grown = dr;
            grown.absorb(&rect);
            list[i] = grown;
            proof {
                lemma_absorbed_at_first_met(old(list)@, rect, i as int);
            }
            return ;
        }
        i += 1;
    }
    list.push(rect);
    proof {
        lemma_absorbed_when_none_met(old(list)@, rect);
    }
}

/// Merging the same rectangle a second time changes nothing.
pub proof fn lemma_absorb_idempotent(list: Seq<Rectangle>, rect: Rectangle)
    ensures
        absorbed(absorbed(list, rect), rect) == absorbed(list, rect),
{
    let once = absorbed(list, rect);
    let k = lemma_first_met_or_none(list, rect);
    if k < list.len() {
        lemma_absorbed_at_first_met(list, rect, k);
    } else {
        lemma_absorbed_when_none_met(list, rect);
    }
    assert(once.len() > k);
    assert(once[k].spec_contains(&rect));
    assert forall|i: int| 0 <= i < k implies !meets(#[trigger] once[i], rect) by {
        assert(once[i] == list[i]);
    }
    assert(is_first_met(once, rect, k));
    lemma_absorbed_at_first_met(once, rect, k);
    assert(once.update(k, merged(once[k], rect)) =~= once);
}

/// The first tracked rectangle that `rect` meets contains `rect`.
pub open spec fn first_met_contains(list: Seq<Rectangle>, rect: Rectangle) -> bool {
    exists|k: int| is_first_met(list, rect, k) && (#[trigger] list[k]).spec_contains(&rect)
}

/// `rect` takes the place of the tracked rectangle at `j`: that one is the
/// first that `rect` meets, or it equals `rect` already and the first that
/// `rect` meets contains `rect`.
pub open spec fn takes_place_of(list: Seq<Rectangle>, rect: Rectangle, j: int) -> bool {
    is_first_met(list, rect, j) || (list[j] == rect && first_met_contains(list, rect))
}

/// At most one tracked rectangle is the first that `rect` meets.
pub proof fn lemma_first_met_unique(list: Seq<Rectangle>, rect: Rectangle, a: int, b: int)
    requires
        is_first_met(list, rect, a),
        is_first_met(list, rect, b),
    ensures
        a == b,
{
    if a < b {
        assert(!meets(list[a], rect));
    }
    if b < a {
        assert(!meets(list[b], rect));
    }
}

/// A tracked rectangle that `rect` meets is left as it is only where it
/// contains `rect`.
pub proof fn lemma_merged_unchanged(dr: Rectangle, rect: Rectangle)
    requires
        meets(dr, rect),
    ensures
        merged(dr, rect) == dr <==> dr.spec_contains(&rect),
{
    lemma_contains_order(dr, rect, rect);
    lemma_union_is_least(dr, rect, rect);
}

/// A rectangle that lies inside a tracked rectangle leaves the list as it
/// is, if and only if the first tracked rectangle that it meets contains it.
/// That holds where each tracked rectangle in front of the one at `j` either
/// contains it too or is not met.
pub proof fn lemma_absorb_inside_tracked(list: Seq<Rectangle>, rect: Rectangle, j: int)
    requires
        0 <= j < list.len(),
        list[j].spec_contains(&rect),
    ensures
        absorbed(list, rect) == list <==> first_met_contains(list, rect),
        (forall|i: int|
            0 <= i < j ==> (#[trigger] list[i]).spec_contains(&rect) || !meets(list[i], rect))
            ==> absorbed(list, rect) == list,
{
    let k = lemma_first_met_or_none(list, rect);
    if k == list.len() {
        assert(!meets(list[j], rect));
    }
    if k > j {
        assert(!meets(list[j], rect));
    }
    lemma_absorbed_at_first_met(list, rect, k);
    lemma_merged_unchanged(list[k], rect);
    let after = list.update(k, merged(list[k], rect));
    if list[k].spec_contains(&rect) {
        assert(after =~= list);
        assert(first_met_contains(list, rect));
    } else {
        assert(after[k] != list[k]);
        if first_met_contains(list, rect) {
            let c = choose|c: int| is_first_met(list, rect, c) && (#[trigger] list[c]).spec_contains(&rect);
            lemma_first_met_unique(list, rect, c, k);
        }
    }
}

/// A rectangle that contains the tracked rectangle at `j` leaves the list at
/// its length. It takes the place of that tracked rectangle if and only if
/// that one is the first that it meets, or equals it already while the first
/// that it meets contains it.
pub proof fn lemma_absorb_around_tracked(list: Seq<Rectangle>, rect: Rectangle, j: int)
    requires
        0 <= j < list.len(),
        rect.spec_contains(&list[j]),
    ensures
        absorbed(list, rect).len() == list.len(),
        absorbed(list, rect) == list.update(j, rect) <==> takes_place_of(list, rect, j),
        (forall|i: int| 0 <= i < j ==> !meets(#[trigger] list[i], rect)) ==> absorbed(list, rect)
            == list.update(j, rect),
{
    let k = lemma_first_met_or_none(list, rect);
    if k == list.len() {
        assert(!meets(list[j], rect));
    }
    if k > j {
        assert(!meets(list[j], rect));
    }
    lemma_absorbed_at_first_met(list, rect, k);
    lemma_merged_unchanged(list[k], rect);
    let after = list.update(k, merged(list[k], rect));
    if is_first_met(list, rect, j) {
        lemma_first_met_unique(list, rect, j, k);
        lemma_contains_order(list[j], rect, rect);
    }
    if first_met_contains(list, rect) {
        let c = choose|c: int| is_first_met(list, rect, c) && (#[trigger] list[c]).spec_contains(&rect);
        lemma_first_met_unique(list, rect, c, k);
        if list[j] == rect {
            assert(after =~= list.update(j, rect));
        }
    }
    if after == list.update(j, rect) {
        if k < j {
            assert(after[j] == list[j]);
            assert(list.update(j, rect)[j] == rect);
            assert(list.update(j, rect)[k] == list[k]);
            assert(after[k] == merged(list[k], rect));
            assert(first_met_contains(list, rect));
        }
    }
    if forall|i: int| 0 <= i < j ==> !meets(#[trigger] list[i], rect) {
        assert(is_first_met(list, rect, j));
    }
}

/// After a merge the list has grown by at most one entry, each rectangle that
/// was tracked lies inside the one that now stands in its place, and the new
/// rectangle lies inside one of the tracked rectangles.
pub proof fn lemma_absorb_keeps_coverage(list: Seq<Rectangle>, rect: Rectangle)
    ensures
        list.len() <= absorbed(list, rect).len() <= list.len() + 1,
        forall|i: int|
            0 <= i < list.len() ==> (#[trigger] absorbed(list, rect)[i]).spec_contains(&list[i]),
        covered_by(absorbed(list, rect), rect),
{
    let k = lemma_first_met_or_none(list, rect);
    if k < list.len() {
        lemma_absorbed_at_first_met(list, rect, k);
    } else {
        lemma_absorbed_when_none_met(list, rect);
    }
    assert(absorbed(list, rect)[k].spec_contains(&rect));
}

/// After the rectangles of `rects` have been merged into `acc` one after the
/// other, each rectangle that stood in `acc` lies inside the one that now
/// stands in its place, and each rectangle of `rects` lies inside one of the
/// tracked rectangles.
pub proof fn lemma_absorbed_all_keeps_coverage(acc: Seq<Rectangle>, rects: Seq<Rectangle>)
    ensures
        acc.len() <= absorbed_all(acc, rects).len() <= acc.len() + rects.len(),
        forall|i: int|
            0 <= i < acc.len() ==> (#[trigger] absorbed_all(acc, rects)[i]).spec_contains(&acc[i]),
        forall|i: int|
            0 <= i < rects.len() ==> covered_by(absorbed_all(acc, rects), #[trigger] rects[i]),
    decreases rects.len(),
{
    if rects.len() > 0 {
        let front = rects.drop_last();
        let before = absorbed_all(acc, front);
        let after = absorbed(before, rects.last());
        lemma_absorbed_all_keeps_coverage(acc, front);
        lemma_absorb_keeps_coverage(before, rects.last());
        assert forall|i: int| 0 <= i < acc.len() implies (#[trigger] after[i]).spec_contains(
            &acc[i],
        ) by {
            lemma_contains_order(after[i], before[i], acc[i]);
        }
        assert forall|i: int| 0 <= i < rects.len() implies covered_by(
            after,
            #[trigger] rects[i],
        ) by {
            if i < front.len() {
                assert(front[i] == rects[i]);
                assert(covered_by(before, front[i]));
                let k = choose|k: int|
                    0 <= k < before.len() && (#[trigger] before[k]).spec_contains(&rects[i]);
                lemma_contains_order(after[k], before[k], rects[i]);
                assert(after[k].spec_contains(&rects[i]));
            }
        }
    }
}

/// A merge marks no position dirty that was not dirty before and that the
/// new rectangle does not cover, where all bounds are the right way round.
pub proof fn lemma_absorb_adds_nothing_else(
    list: Seq<Rectangle>,
    rect: Rectangle,
    i: int,
    x: int,
    y: int,
)
    requires
        all_wf(list),
        rect.wf(),
        0 <= i < absorbed(list, rect).len(),
        absorbed(list, rect)[i].covers(x, y),
    ensures
        rect.covers(x, y) || (i < list.len() && list[i].covers(x, y)),
{
    let k = lemma_first_met_or_none(list, rect);
    if k < list.len() {
        lemma_absorbed_at_first_met(list, rect, k);
        assert(list[k].wf());
        if i == k && rect.spec_extends(&list[k]) {
            lemma_union_of_extension_is_exact(rect, list[k], x, y);
        }
    } else {
        lemma_absorbed_when_none_met(list, rect);
    }
}

/// A merge keeps all bounds the right way round.
pub proof fn lemma_absorb_keeps_wf(list: Seq<Rectangle>, rect: Rectangle)
    requires
        all_wf(list),
        rect.wf(),
    ensures
        all_wf(absorbed(list, rect)),
{
    let k = lemma_first_met_or_none(list, rect);
    if k < list.len() {
        lemma_absorbed_at_first_met(list, rect, k);
        assert(list[k].wf());
        lemma_union_is_least(list[k], rect, rect);
        assert forall|i: int| 0 <= i < absorbed(list, rect).len() implies (#[trigger] absorbed(
            list,
            rect,
        )[i]).wf() by {
            assert(list[i].wf());
        }
    } else {
        lemma_absorbed_when_none_met(list, rect);
        assert forall|i: int| 0 <= i < absorbed(list, rect).len() implies (#[trigger] absorbed(
            list,
            rect,
        )[i]).wf() by {
            if i < list.len() {
                assert(list[i].wf());
            }
        }
    }
}

/// Some rectangle of `rects` covers the position `(x, y)`.
pub open spec fn covers_position(rects: Seq<Rectangle>, x: int, y: int) -> bool {
    exists|j: int| 0 <= j < rects.len() && (#[trigger] rects[j]).covers(x, y)
}

/// Merging one rectangle after the other keeps all bounds the right way
/// round.
pub proof fn lemma_absorbed_all_keeps_wf(acc: Seq<Rectangle>, rects: Seq<Rectangle>)
    requires
        all_wf(acc),
        all_wf(rects),
    ensures
        all_wf(absorbed_all(acc, rects)),
    decreases rects.len(),
{
    if rects.len() > 0 {
        let front = rects.drop_last();
        assert forall|i: int| 0 <= i < front.len() implies (#[trigger] front[i]).wf() by {
            assert(front[i] == rects[i]);
        }
        lemma_absorbed_all_keeps_wf(acc, front);
        assert(rects.last().wf());
        lemma_absorb_keeps_wf(absorbed_all(acc, front), rects.last());
    }
}

/// After the rectangles of `rects` have been merged into `acc` one after the
/// other, a tracked rectangle covers only positions that the rectangle in
/// its place in `acc` covered, or that one of `rects` covers, where all
/// bounds are the right way round.
pub proof fn lemma_absorbed_all_adds_nothing_else(
    acc: Seq<Rectangle>,
    rects: Seq<Rectangle>,
    i: int,
    x: int,
    y: int,
)
    requires
        all_wf(acc),
        all_wf(rects),
        0 <= i < absorbed_all(acc, rects).len(),
        absorbed_all(acc, rects)[i].covers(x, y),
    ensures
        covers_position(rects, x, y) || (i < acc.len() && acc[i].covers(x, y)),
    decreases rects.len(),
{
    if rects.len() > 0 {
        let front = rects.drop_last();
        let before = absorbed_all(acc, front);
        assert forall|j: int| 0 <= j < front.len() implies (#[trigger] front[j]).wf() by {
            assert(front[j] == rects[j]);
        }
        assert(rects.last().wf());
        lemma_absorbed_all_keeps_wf(acc, front);
        lemma_absorb_adds_nothing_else(before, rects.last(), i, x, y);
        if rects.last().covers(x, y) {
            assert(rects[rects.len() - 1].covers(x, y));
        } else {
            lemma_absorbed_all_adds_nothing_else(acc, front, i, x, y);
            if covers_position(front, x, y) {
                let j = choose|j: int| 0 <= j < front.len() && (#[trigger] front[j]).covers(x, y);
                assert(rects[j].covers(x, y));
            }
        }
    }
}

} // verus!
