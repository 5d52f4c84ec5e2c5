//! The subject graph: two subjects are linked when their posts share at
//! least two intents; the link's weight is the number of shared intents over
//! the number of intents there are.
use vstd::prelude::*;

verus! {

/// How many shared intents link two subjects.
pub const MIN_SHARED_INTENTS: u64 = 2;

/// A link between the subjects at positions `source < target`.
#[derive(Debug)]
pub struct SubjectLink {
    pub source: usize,
    pub target: usize,
    pub shared_intents: u64,
}

/// Position `k` of `a` holds the first occurrence of its value.
pub open spec fn first_occurrence(a: Seq<u128>, k: int) -> bool {
    forall|j: int| 0 <= j < k ==> a[j] != a[k]
}

/// The number of distinct values of the first `n` entries of `a` that occur in `b`.
pub open spec fn shared_prefix(a: Seq<u128>, b: Seq<u128>, n: int) -> nat
    decreases n,
{
    if n <= 0 {
        0
    } else {
        shared_prefix(a, b, n - 1) + if first_occurrence(a, n - 1) && b.contains(a[n - 1]) {
            1nat
        } else {
            0
        }
    }
}

/// The number of distinct values that `a` and `b` have in common.
pub open spec fn shared(a: Seq<u128>, b: Seq<u128>) -> nat {
    shared_prefix(a, b, a.len() as int)
}

/// `(i, j)` comes before `(k, l)` in row-major order.
pub open spec fn pair_before(i: int, j: int, k: int, l: int) -> bool {
    i < k || (i == k && j < l)
}

fn count_shared(a: &Vec<u128>, b: &Vec<u128>) -> (c: u64)
    ensures
        c == shared(a@, b@),
{
    let mut c: u64 = 0;
    let mut k: usize = 0;
    while k < a.len()
        invariant
            k <= a@.len(),
            c == shared_prefix(a@, b@, k as int),
            c <= k,
        decreases a.len() - k,
    {
        let x = a[k];
        let mut first = true;
        let mut j: usize = 0;
        while j < k
            invariant
                j <= k < a@.len(),
                x == a@[k as int],
                first == forall|t: int| 0 <= t < j ==> a@[t] != x,
            decreases k - j,
        {
            if a[j] == x {
                first = false;
            }
            j = j + 1;
        }
        let mut found = false;
        let mut t: usize = 0;
        while t < b.len()
            invariant
                t <= b@.len(),
                found == exists|u: int| 0 <= u < t && b@[u] == x,
            decreases b.len() - t,
        {
            if b[t] == x {
                found = true;
            }
            t = t + 1;
        }
        assert(found == b@.contains(x));
        if first && found {
            c = c + 1;
        }
        k = k + 1;
    }
    c
}

/// The links of the subject graph, given each subject's intents: every pair
/// `source < target` of subjects that share at least two intents, in
/// row-major order, with the number of intents they share. No links where
/// there are no intents at all.
pub fn subject_links(intents: &Vec<Vec<u128>>, total_intents: usize) -> (links: Vec<SubjectLink>)
    ensures
        total_intents == 0 ==> links@.len() == 0,
        forall|e: int|
            0 <= e < links@.len() ==> {
                let l = #[trigger] links@[e];
                &&& l.source < l.target < intents@.len()
                &&& l.shared_intents == shared(intents@[l.source as int]@, intents@[l.target as int]@)
                &&& l.shared_intents >= MIN_SHARED_INTENTS
            },
        forall|e: int, f: int|
            0 <= e < f < links@.len() ==> pair_before(
                links@[e].source as int,
                links@[e].target as int,
                links@[f].source as int,
                links@[f].target as int,
            ),
        total_intents > 0 ==> forall|i: int, j: int|
            0 <= i < j < intents@.len() && shared(intents@[i]@, intents@[j]@) >= MIN_SHARED_INTENTS ==> exists|e: int|
                0 <= e < links@.len() && (#[trigger] links@[e]).source == i && links@[e].target == j,
{
    let mut links: Vec<SubjectLink> = Vec::new();
    if total_intents == 0 {
        return links;
    }
    let n = intents.len();
    let mut i: usize = 0;
    while i < n
        invariant
            n == intents@.len(),
            i <= n,
            forall|e: int|
                0 <= e < links@.len() ==> {
                    let l = #[trigger] links@[e];
                    &&& l.source < i
                    &&& l.source < l.target < n
                    &&& l.shared_intents == shared(intents@[l.source as int]@, intents@[l.target as int]@)
                    &&& l.shared_intents >= MIN_SHARED_INTENTS
                },
            forall|e: int, f: int|
                0 <= e < f < links@.len() ==> pair_before(
                    links@[e].source as int,
                    links@[e].target as int,
                    links@[f].source as int,
                    links@[f].target as int,
                ),
            forall|a: int, b: int|
                0 <= a < i && a < b < n && shared(intents@[a]@, intents@[b]@) >= MIN_SHARED_INTENTS ==> exists|e: int|
                    0 <= e < links@.len() && (#[trigger] links@[e]).source == a && links@[e].target == b,
        decreases n - i,
    {
        let mut j: usize = i + 1;
        while j < n
            invariant
                n == intents@.len(),
                i < n,
                i + 1 <= j <= n,
                forall|e: int|
                    0 <= e < links@.len() ==> {
                        let l = #[trigger] links@[e];
                        &&& pair_before(l.source as int, l.target as int, i as int, j as int)
                        &&& l.source <= i
                        &&& l.source < l.target < n
                        &&& l.shared_intents == shared(intents@[l.source as int]@, intents@[l.target as int]@)
                        &&& l.shared_intents >= MIN_SHARED_INTENTS
                    },
                forall|e: int, f: int|
                    0 <= e < f < links@.len() ==> pair_before(
                        links@[e].source as int,
                        links@[e].target as int,
                        links@[f].source as int,
                        links@[f].target as int,
                    ),
                forall|a: int, b: int|
                    0 <= a < i && a < b < n && shared(intents@[a]@, intents@[b]@) >= MIN_SHARED_INTENTS ==> exists|e: int|
                        0 <= e < links@.len() && (#[trigger] links@[e]).source == a && links@[e].target == b,
                forall|b: int|
                    i < b < j && shared(intents@[i as int]@, intents@[b]@) >= MIN_SHARED_INTENTS ==> exists|e: int|
                        0 <= e < links@.len() && (#[trigger] links@[e]).source == i && links@[e].target == b,
            decreases n - j,
        {
            let c = count_shared(&intents[i], &intents[j]);
            if c >= MIN_SHARED_INTENTS {
                let ghost before = links@;
                links.push(SubjectLink { source: i, target: j, shared_intents: c });
                assert(links@[before.len() as int].source == i && links@[before.len() as int].target == j);
                assert forall|a: int, b: int|
                    0 <= a < i && a < b < n && shared(intents@[a]@, intents@[b]@) >= MIN_SHARED_INTENTS implies exists|e: int|
                        0 <= e < links@.len() && (#[trigger] links@[e]).source == a && links@[e].target == b by {
                    let e = choose|e: int| 0 <= e < before.len() && (#[trigger] before[e]).source == a && before[e].target == b;
                    assert(links@[e] == before[e]);
                }
                assert forall|b: int|
                    i < b < j + 1 && shared(intents@[i as int]@, intents@[b]@) >= MIN_SHARED_INTENTS implies exists|e: int|
                        0 <= e < links@.len() && (#[trigger] links@[e]).source == i && links@[e].target == b by {
                    if b < j {
                        let e = choose|e: int| 0 <= e < before.len() && (#[trigger] before[e]).source == i && before[e].target == b;
                        assert(links@[e] == before[e]);
                    }
                }
            }
            j = j + 1;
        }
        i = i + 1;
    }
    links
}

/// The intents that two subjects' lists have in common, as a set.
pub open spec fn common(a: Seq<u128>, b: Seq<u128>) -> Set<u128> {
    a.to_set().intersect(b.to_set())
}

proof fn lemma_shared_prefix_counts_common(a: Seq<u128>, b: Seq<u128>, n: int)
    requires
        0 <= n <= a.len(),
    ensures
        shared_prefix(a, b, n) == common(a.take(n), b).len(),
    decreases n,
{
    broadcast use vstd::set::group_set_axioms, vstd::seq_lib::seq_to_set_is_finite;

    if n == 0 {
        assert(common(a.take(0), b) =~= Set::empty());
    } else {
        lemma_shared_prefix_counts_common(a, b, n - 1);
        let x = a[n - 1];
        let before = a.take(n - 1);
        assert(a.take(n) =~= before.push(x));
        before.lemma_push_to_set_commute(x);
        let prev = common(before, b);
        if !first_occurrence(a, n - 1) {
            let j = choose|j: int| 0 <= j < n - 1 && #[trigger] a[j] == a[n - 1];
            assert(before[j] == x);
            assert(before.to_set().contains(x));
            assert(common(a.take(n), b) =~= prev);
        } else if b.contains(x) {
            assert(!before.contains(x)) by {
                if before.contains(x) {
                    let j = choose|j: int| 0 <= j < before.len() && before[j] == x;
                    assert(a[j] == a[n - 1]);
                }
            }
            assert(!prev.contains(x));
            assert(common(a.take(n), b) =~= prev.insert(x));
        } else {
            assert(common(a.take(n), b) =~= prev);
        }
    }
}

/// How many intents two subjects share does not depend on which of the two
/// comes first: it is the number of distinct intents they have in common.
pub proof fn law_sharing_is_symmetric(a: Seq<u128>, b: Seq<u128>)
    ensures
        shared(a, b) == common(a, b).len(),
        shared(a, b) == shared(b, a),
{
    lemma_shared_prefix_counts_common(a, b, a.len() as int);
    lemma_shared_prefix_counts_common(b, a, b.len() as int);
    assert(a.take(a.len() as int) =~= a);
    assert(b.take(b.len() as int) =~= b);
    assert(common(a, b) =~= common(b, a));
}

} // verus!
