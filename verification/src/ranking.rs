//! Ranking of the posts of the insights window by views, and the top and
//! bottom performers that the LLM is shown.
use vstd::prelude::*;

verus! {

/// How many top and bottom posts the insights context lists.
pub const HIGHLIGHTS: usize = 5;

/// `order` lists indices into `views` from the most viewed to the least,
/// posts with equal views keeping their order: the order that a stable sort
/// by descending views gives.
pub open spec fn ranked_by_views(views: Seq<i32>, order: Seq<usize>) -> bool {
    &&& order.len() == views.len()
    &&& forall|a: int| 0 <= a < order.len() ==> (#[trigger] order[a]) < views.len()
    &&& forall|a: int, b: int| 0 <= a < b < order.len() ==> order[a] != order[b]
    &&& forall|a: int, b: int|
        0 <= a < b < order.len() ==> views[order[a] as int] >= views[order[b] as int]
    &&& forall|a: int, b: int|
        0 <= a < b < order.len() && views[order[a] as int] == views[order[b] as int] ==> order[a] < order[b]
}

/// The indices of the posts from the most viewed to the least, ties kept in
/// the order they came in.
pub fn rank_by_views(views: &Vec<i32>) -> (order: Vec<usize>)
    ensures
        ranked_by_views(views@, order@),
{
    let mut order: Vec<usize> = Vec::new();
    let mut i: usize = 0;
    while i < views.len()
        invariant
            i <= views@.len(),
            ranked_by_views(views@.take(i as int), order@),
            forall|a: int| 0 <= a < order@.len() ==> (#[trigger] order@[a]) < i,
        decreases views.len() - i,
    {
        let v = views[i];
        let mut p: usize = 0;
        while p < order.len() && views[order[p]] >= v
            invariant
                p <= order@.len(),
                i < views@.len(),
                forall|a: int| 0 <= a < order@.len() ==> (#[trigger] order@[a]) < i,
                forall|a: int| 0 <= a < p ==> views@[(#[trigger] order@[a]) as int] >= v,
            decreases order.len() - p,
        {
            p = p + 1;
        }
        let ghost before = order@;
        let ghost vs = views@.take(i as int);
        let ghost ws = views@.take(i + 1);
        assert forall|a: int| 0 <= a < before.len() implies #[trigger] vs[before[a] as int] == ws[before[a] as int] && vs[before[a] as int] == views@[before[a] as int] by {}
        order.insert(p, i);
        assert forall|a: int| 0 <= a < order@.len() implies #[trigger] order@[a] == if a < p {
            before[a]
        } else if a == p {
            i
        } else {
            before[a - 1]
        } by {}
        assert forall|a: int, b: int| 0 <= a < b < order@.len() implies ws[order@[a] as int] >= ws[order@[b] as int] by {
            if b < p {
            } else if a > p {
            } else if a == p {
                assert(views@[before[b - 1] as int] < v) by {
                    if b - 1 > p {
                        assert(views@[before[p as int] as int] >= views@[before[b - 1] as int]);
                    }
                }
            } else {
                if b > p {
                    if b - 1 > p {
                        assert(views@[before[p as int] as int] >= views@[before[b - 1] as int]);
                    }
                }
            }
        }
        assert forall|a: int, b: int|
            0 <= a < b < order@.len() && ws[order@[a] as int] == ws[order@[b] as int] implies order@[a] < order@[b] by {
            if b < p {
            } else if a > p {
            } else if a == p {
                assert(views@[before[b - 1] as int] < v) by {
                    if b - 1 > p {
                        assert(views@[before[p as int] as int] >= views@[before[b - 1] as int]);
                    }
                }
            } else {
            }
        }
        assert forall|a: int, b: int| 0 <= a < b < order@.len() implies order@[a] != order@[b] by {}
        i = i + 1;
    }
    assert(views@.take(views@.len() as int) =~= views@);
    order
}

/// The first `HIGHLIGHTS` entries of `order`, and its last `HIGHLIGHTS`
/// entries from the last one backwards (all of them where there are fewer).
pub fn highlights(order: &Vec<usize>) -> (r: (Vec<usize>, Vec<usize>))
    ensures
        r.0@ == order@.take(if order@.len() < 5 { order@.len() as int } else { 5 }),
        r.1@.len() == if order@.len() < 5 { order@.len() as int } else { 5 },
        forall|k: int| 0 <= k < r.1@.len() ==> #[trigger] r.1@[k] == order@[order@.len() - 1 - k],
{
    let n = order.len();
    let m: usize = if n < HIGHLIGHTS { n } else { HIGHLIGHTS };
    let mut top: Vec<usize> = Vec::new();
    let mut bottom: Vec<usize> = Vec::new();
    let mut k: usize = 0;
    while k < m
        invariant
            n == order@.len(),
            m == (if n < 5 { n } else { 5 }),
            k <= m,
            top@ == order@.take(k as int),
            bottom@.len() == k,
            forall|j: int| 0 <= j < k ==> #[trigger] bottom@[j] == order@[n - 1 - j],
        decreases m - k,
    {
        top.push(order[k]);
        bottom.push(order[n - 1 - k]);
        assert(top@ =~= order@.take(k + 1));
        k = k + 1;
    }
    (top, bottom)
}

} // verus!
