//! Distribution of posts over engagement and view buckets.
use vstd::prelude::*;
use crate::text::{decimal_digits, decimal_text, lemma_digit_chars};

verus! {

/// A post's counts, as the histogram query reads them; `timestamp` is the
/// publish time in microseconds since the epoch.
#[derive(Debug)]
pub struct PostCounts {
    pub timestamp: i64,
    pub views: i32,
    pub likes: i32,
    pub replies: i32,
    pub reposts: i32,
    pub quotes: i32,
}

/// One bar of a histogram: the posts whose value lies in `bucket_min..=bucket_max`.
#[derive(Debug)]
pub struct HistogramBucket {
    pub bucket_min: i64,
    pub bucket_max: i64,
    pub label: String,
    pub count: i64,
}

/// The engagement and the views histograms.
#[derive(Debug)]
pub struct HistogramResponse {
    pub engagement: Vec<HistogramBucket>,
    pub views: Vec<HistogramBucket>,
}

/// Query parameters of the histograms.
#[derive(Debug)]
pub struct HistogramQuery {
    pub since: Option<String>,
}

/// The buckets of the engagement histogram: minimum, maximum, label.
pub open spec fn engagement_bucket(k: int) -> (int, int, Seq<char>) {
    if k == 0 {
        (0, 0, "0"@)
    } else if k == 1 {
        (1, 5, "1-5"@)
    } else if k == 2 {
        (6, 10, "6-10"@)
    } else if k == 3 {
        (11, 25, "11-25"@)
    } else if k == 4 {
        (26, 50, "26-50"@)
    } else if k == 5 {
        (51, 100, "51-100"@)
    } else if k == 6 {
        (101, 250, "101-250"@)
    } else if k == 7 {
        (251, 500, "251-500"@)
    } else if k == 8 {
        (501, 1000, "501-1k"@)
    } else {
        (1001, 2147483647, "1k+"@)
    }
}

/// The buckets of the views histogram: minimum, maximum, label.
pub open spec fn views_bucket(k: int) -> (int, int, Seq<char>) {
    if k == 0 {
        (0, 0, "0"@)
    } else if k == 1 {
        (1, 100, "1-100"@)
    } else if k == 2 {
        (101, 500, "101-500"@)
    } else if k == 3 {
        (501, 1000, "501-1k"@)
    } else if k == 4 {
        (1001, 5000, "1k-5k"@)
    } else if k == 5 {
        (5001, 10000, "5k-10k"@)
    } else if k == 6 {
        (10001, 50000, "10k-50k"@)
    } else if k == 7 {
        (50001, 100000, "50k-100k"@)
    } else {
        (100001, 2147483647, "100k+"@)
    }
}

/// A post was published at or after `since` (`None`: no bound).
pub open spec fn published_since(p: PostCounts, since: Option<i64>) -> bool {
    match since {
        None => true,
        Some(s) => p.timestamp >= s,
    }
}

/// A post's engagement: likes, replies, reposts and quotes.
pub open spec fn engagement_of(p: PostCounts) -> int {
    p.likes + p.replies + p.reposts + p.quotes
}

/// The values of the posts in the window: engagement (`views == false`) or views.
pub open spec fn window_values(posts: Seq<PostCounts>, since: Option<i64>, views: bool) -> Seq<int>
    decreases posts.len(),
{
    if posts.len() == 0 {
        Seq::empty()
    } else {
        let before = window_values(posts.drop_last(), since, views);
        if published_since(posts.last(), since) {
            before.push(if views { posts.last().views as int } else { engagement_of(posts.last()) })
        } else {
            before
        }
    }
}

/// How many values lie in `lo..=hi`.
pub open spec fn count_between(vals: Seq<int>, lo: int, hi: int) -> int
    decreases vals.len(),
{
    if vals.len() == 0 {
        0
    } else {
        count_between(vals.drop_last(), lo, hi) + if lo <= vals.last() <= hi { 1int } else { 0 }
    }
}

/// Every post in the window has an engagement that fits in an `i32`, as the
/// database's integer arithmetic demands.
pub open spec fn engagement_fits(posts: Seq<PostCounts>, since: Option<i64>) -> bool {
    forall|i: int|
        0 <= i < posts.len() && published_since(posts[i], since) ==> i32::MIN <= engagement_of(
            #[trigger] posts[i],
        ) <= i32::MAX
}

fn window_list(posts: &Vec<PostCounts>, since: Option<i64>, views: bool) -> (r: Option<Vec<i64>>)
    ensures
        r is Some <==> views || engagement_fits(posts@, since),
        r matches Some(vals) ==> vals@.len() == window_values(posts@, since, views).len() && forall|k: int|
            0 <= k < vals@.len() ==> #[trigger] vals@[k] as int == window_values(posts@, since, views)[k],
{
    let mut vals: Vec<i64> = Vec::new();
    let mut i: usize = 0;
    while i < posts.len()
        invariant
            i <= posts@.len(),
            views || forall|j: int|
                0 <= j < i && published_since(posts@[j], since) ==> i32::MIN <= engagement_of(
                    #[trigger] posts@[j],
                ) <= i32::MAX,
            vals@.len() == window_values(posts@.take(i as int), since, views).len(),
            forall|k: int|
                0 <= k < vals@.len() ==> #[trigger] vals@[k] as int == window_values(
                    posts@.take(i as int),
                    since,
                    views,
                )[k],
        decreases posts.len() - i,
    {
        assert(posts@.take(i + 1).drop_last() =~= posts@.take(i as int));
        let p = &posts[i];
        let keep = match since {
            None => true,
            Some(s) => p.timestamp >= s,
        };
        if keep {
            if views {
                vals.push(p.views as i64);
            } else {
                let total: i64 = p.likes as i64 + p.replies as i64 + p.reposts as i64 + p.quotes as i64;
                if total < i32::MIN as i64 || total > i32::MAX as i64 {
                    return None;
                }
                vals.push(total);
            }
        }
        i = i + 1;
    }
    assert(posts@.take(posts@.len() as int) =~= posts@);
    Some(vals)
}

fn count_in(vals: &Vec<i64>, lo: i64, hi: i64, Ghost(spec_vals): Ghost<Seq<int>>) -> (c: i64)
    requires
        vals@.len() <= i64::MAX,
        spec_vals.len() == vals@.len(),
        forall|k: int| 0 <= k < vals@.len() ==> #[trigger] vals@[k] as int == spec_vals[k],
    ensures
        c as int == count_between(spec_vals, lo as int, hi as int),
{
    let mut c: i64 = 0;
    let mut i: usize = 0;
    while i < vals.len()
        invariant
            vals@.len() <= i64::MAX,
            spec_vals.len() == vals@.len(),
            forall|k: int| 0 <= k < vals@.len() ==> #[trigger] vals@[k] as int == spec_vals[k],
            i <= vals@.len(),
            0 <= c <= i,
            c as int == count_between(spec_vals.take(i as int), lo as int, hi as int),
        decreases vals.len() - i,
    {
        assert(spec_vals.take(i + 1).drop_last() =~= spec_vals.take(i as int));
        if lo <= vals[i] && vals[i] <= hi {
            c = c + 1;
        }
        i = i + 1;
    }
    assert(spec_vals.take(vals@.len() as int) =~= spec_vals);
    c
}

/// The engagement and views histograms of the posts published at or after
/// `since`. `None` where a post's engagement overflows the database's
/// integer arithmetic.
pub fn histograms(posts: &Vec<PostCounts>, since: Option<i64>) -> (r: Option<HistogramResponse>)
    requires
        posts@.len() <= i64::MAX,
    ensures
        r is Some <==> engagement_fits(posts@, since),
        r matches Some(h) ==> {
            &&& h.engagement@.len() == 10
            &&& forall|k: int|
                0 <= k < 10 ==> {
                    &&& (#[trigger] h.engagement@[k]).bucket_min == engagement_bucket(k).0
                    &&& h.engagement@[k].bucket_max == engagement_bucket(k).1
                    &&& h.engagement@[k].label@ == engagement_bucket(k).2
                    &&& h.engagement@[k].count == count_between(
                        window_values(posts@, since, false),
                        engagement_bucket(k).0,
                        engagement_bucket(k).1,
                    )
                }
            &&& h.views@.len() == 9
            &&& forall|k: int|
                0 <= k < 9 ==> {
                    &&& (#[trigger] h.views@[k]).bucket_min == views_bucket(k).0
                    &&& h.views@[k].bucket_max == views_bucket(k).1
                    &&& h.views@[k].label@ == views_bucket(k).2
                    &&& h.views@[k].count == count_between(
                        window_values(posts@, since, true),
                        views_bucket(k).0,
                        views_bucket(k).1,
                    )
                }
        },
{
    proof {
        lemma_window_len(posts@, since, false);
        lemma_window_len(posts@, since, true);
    }
    let eng = match window_list(posts, since, false) {
        None => { return None; },
        Some(v) => v,
    };
    let vws = match window_list(posts, since, true) {
        None => { return None; },
        Some(v) => v,
    };
    proof {
        reveal_strlit("0");
        reveal_strlit("1-5");
        reveal_strlit("6-10");
        reveal_strlit("11-25");
        reveal_strlit("26-50");
        reveal_strlit("51-100");
        reveal_strlit("101-250");
        reveal_strlit("251-500");
        reveal_strlit("501-1k");
        reveal_strlit("1k+");
        reveal_strlit("1-100");
        reveal_strlit("101-500");
        reveal_strlit("1k-5k");
        reveal_strlit("5k-10k");
        reveal_strlit("10k-50k");
        reveal_strlit("50k-100k");
        reveal_strlit("100k+");
    }
    let eng_table: [(i64, i64, &'static str); 10] = [
        (0, 0, "0"),
        (1, 5, "1-5"),
        (6, 10, "6-10"),
        (11, 25, "11-25"),
        (26, 50, "26-50"),
        (51, 100, "51-100"),
        (101, 250, "101-250"),
        (251, 500, "251-500"),
        (501, 1000, "501-1k"),
        (1001, 2147483647, "1k+"),
    ];
    let views_table: [(i64, i64, &'static str); 9] = [
        (0, 0, "0"),
        (1, 100, "1-100"),
        (101, 500, "101-500"),
        (501, 1000, "501-1k"),
        (1001, 5000, "1k-5k"),
        (5001, 10000, "5k-10k"),
        (10001, 50000, "10k-50k"),
        (50001, 100000, "50k-100k"),
        (100001, 2147483647, "100k+"),
    ];
    let ghost ev = window_values(posts@, since, false);
    let ghost vv = window_values(posts@, since, true);
    let mut engagement: Vec<HistogramBucket> = Vec::new();
    let mut k: usize = 0;
    while k < 10
        invariant
            k <= 10,
            eng@.len() <= i64::MAX,
            ev.len() == eng@.len(),
            forall|j: int| 0 <= j < eng@.len() ==> #[trigger] eng@[j] as int == ev[j],
            forall|j: int|
                0 <= j < 10 ==> (#[trigger] eng_table@[j]).0 == engagement_bucket(j).0 && eng_table@[j].1
                    == engagement_bucket(j).1 && eng_table@[j].2@ == engagement_bucket(j).2,
            engagement@.len() == k,
            forall|j: int|
                0 <= j < k ==> {
                    &&& (#[trigger] engagement@[j]).bucket_min == engagement_bucket(j).0
                    &&& engagement@[j].bucket_max == engagement_bucket(j).1
                    &&& engagement@[j].label@ == engagement_bucket(j).2
                    &&& engagement@[j].count == count_between(ev, engagement_bucket(j).0, engagement_bucket(j).1)
                },
        decreases 10 - k,
    {
        let (lo, hi, label) = eng_table[k];
        let c = count_in(&eng, lo, hi, Ghost(ev));
        engagement.push(HistogramBucket { bucket_min: lo, bucket_max: hi, label: String::from_str(label), count: c });
        k = k + 1;
    }
    let mut views: Vec<HistogramBucket> = Vec::new();
    let mut k: usize = 0;
    while k < 9
        invariant
            k <= 9,
            vws@.len() <= i64::MAX,
            vv.len() == vws@.len(),
            forall|j: int| 0 <= j < vws@.len() ==> #[trigger] vws@[j] as int == vv[j],
            forall|j: int|
                0 <= j < 9 ==> (#[trigger] views_table@[j]).0 == views_bucket(j).0 && views_table@[j].1
                    == views_bucket(j).1 && views_table@[j].2@ == views_bucket(j).2,
            views@.len() == k,
            forall|j: int|
                0 <= j < k ==> {
                    &&& (#[trigger] views@[j]).bucket_min == views_bucket(j).0
                    &&& views@[j].bucket_max == views_bucket(j).1
                    &&& views@[j].label@ == views_bucket(j).2
                    &&& views@[j].count == count_between(vv, views_bucket(j).0, views_bucket(j).1)
                },
        decreases 9 - k,
    {
        let (lo, hi, label) = views_table[k];
        let c = count_in(&vws, lo, hi, Ghost(vv));
        views.push(HistogramBucket { bucket_min: lo, bucket_max: hi, label: String::from_str(label), count: c });
        k = k + 1;
    }
    Some(HistogramResponse { engagement, views })
}

/// The sum of the counts of the first `k` buckets of a table.
pub open spec fn counted_in_buckets(vals: Seq<int>, k: int, views: bool) -> int
    decreases k,
{
    if k <= 0 {
        0
    } else {
        let b = if views { views_bucket(k - 1) } else { engagement_bucket(k - 1) };
        counted_in_buckets(vals, k - 1, views) + count_between(vals, b.0, b.1)
    }
}

/// How many of the first `k` buckets of a table hold the value `v`.
pub open spec fn buckets_holding(v: int, k: int, views: bool) -> int
    decreases k,
{
    if k <= 0 {
        0
    } else {
        let b = if views { views_bucket(k - 1) } else { engagement_bucket(k - 1) };
        buckets_holding(v, k - 1, views) + if b.0 <= v <= b.1 { 1int } else { 0 }
    }
}

proof fn lemma_buckets_step(vals: Seq<int>, k: int, views: bool)
    requires
        vals.len() > 0,
    ensures
        counted_in_buckets(vals, k, views) == counted_in_buckets(vals.drop_last(), k, views)
            + buckets_holding(vals.last(), k, views),
    decreases k,
{
    if k > 0 {
        lemma_buckets_step(vals, k - 1, views);
    }
}

proof fn lemma_one_bucket(v: int, views: bool)
    ensures
        buckets_holding(v, if views { 9 } else { 10 }, views) == if 0 <= v <= 2147483647 { 1int } else { 0 },
{
    reveal_with_fuel(buckets_holding, 11);
}

/// The buckets of each histogram do not overlap and together span
/// `0..=i32::MAX`: their counts add up to the number of values in that span.
pub proof fn law_buckets_partition(vals: Seq<int>, views: bool)
    ensures
        counted_in_buckets(vals, if views { 9 } else { 10 }, views) == count_between(vals, 0, 2147483647),
    decreases vals.len(),
{
    let k = if views { 9int } else { 10int };
    if vals.len() > 0 {
        law_buckets_partition(vals.drop_last(), views);
        lemma_buckets_step(vals, k, views);
        lemma_one_bucket(vals.last(), views);
    } else {
        lemma_empty_counted(vals, k, views);
    }
}

proof fn lemma_empty_counted(vals: Seq<int>, k: int, views: bool)
    requires
        vals.len() == 0,
    ensures
        counted_in_buckets(vals, k, views) == 0,
    decreases k,
{
    if k > 0 {
        lemma_empty_counted(vals, k - 1, views);
    }
}

proof fn lemma_window_len(posts: Seq<PostCounts>, since: Option<i64>, views: bool)
    ensures
        window_values(posts, since, views).len() <= posts.len(),
    decreases posts.len(),
{
    if posts.len() > 0 {
        lemma_window_len(posts.drop_last(), since, views);
    }
}

/// Adding a post to the histograms' input raises the count of bucket `k`
/// by one exactly when the post was published at or after `since` and its
/// value lies in the bucket's range: for the engagement histogram its
/// likes + replies + reposts + quotes, for the views histogram its views.
/// Every other bucket keeps its count.
pub proof fn law_a_post_lands_in_the_bucket_of_its_counts(posts: Seq<PostCounts>, p: PostCounts, since: Option<i64>, k: int)
    ensures
        ({
            let b = engagement_bucket(k);
            let v = p.likes + p.replies + p.reposts + p.quotes;
            count_between(window_values(posts.push(p), since, false), b.0, b.1) == count_between(
                window_values(posts, since, false),
                b.0,
                b.1,
            ) + if (match since { None => true, Some(s) => p.timestamp >= s }) && b.0 <= v <= b.1 { 1int } else { 0 }
        }),
        ({
            let b = views_bucket(k);
            count_between(window_values(posts.push(p), since, true), b.0, b.1) == count_between(
                window_values(posts, since, true),
                b.0,
                b.1,
            ) + if (match since { None => true, Some(s) => p.timestamp >= s }) && b.0 <= p.views <= b.1 { 1int } else { 0 }
        }),
{
    assert(posts.push(p).drop_last() =~= posts);
    assert(posts.push(p).last() == p);
    let e = window_values(posts, since, false);
    let w = window_values(posts, since, true);
    if published_since(p, since) {
        assert(e.push(engagement_of(p)).drop_last() =~= e);
        assert(w.push(p.views as int).drop_last() =~= w);
    }
}

/// How a bucket bound is written in a label: a whole number of thousands
/// as that number followed by "k", any other number in decimal.
pub open spec fn bound_text(n: int) -> Seq<char> {
    if n >= 1000 && n % 1000 == 0 {
        decimal_text(n / 1000) + "k"@
    } else {
        decimal_text(n)
    }
}

/// Whether `s` ends with `t`.
pub open spec fn ends_with(s: Seq<char>, t: Seq<char>) -> bool {
    t.len() <= s.len() && s.subrange(s.len() - t.len(), s.len() as int) == t
}

proof fn lemma_bound_texts()
    ensures
        bound_text(5) == seq!['5'],
        bound_text(10) == seq!['1', '0'],
        bound_text(25) == seq!['2', '5'],
        bound_text(50) == seq!['5', '0'],
        bound_text(100) == seq!['1', '0', '0'],
        bound_text(250) == seq!['2', '5', '0'],
        bound_text(500) == seq!['5', '0', '0'],
        bound_text(1000) == seq!['1', 'k'],
        bound_text(5000) == seq!['5', 'k'],
        bound_text(10000) == seq!['1', '0', 'k'],
        bound_text(50000) == seq!['5', '0', 'k'],
        bound_text(100000) == seq!['1', '0', '0', 'k'],
{
    reveal_strlit("k");
    lemma_digit_chars();
    assert(decimal_digits(1) =~= seq!['1']);
    assert(decimal_digits(2) =~= seq!['2']);
    assert(decimal_digits(5) =~= seq!['5']);
    assert(decimal_digits(10) =~= seq!['1', '0']);
    assert(decimal_digits(25) =~= seq!['2', '5']);
    assert(decimal_digits(50) =~= seq!['5', '0']);
    assert(decimal_digits(100) =~= seq!['1', '0', '0']);
    assert(decimal_digits(250) =~= seq!['2', '5', '0']);
    assert(decimal_digits(500) =~= seq!['5', '0', '0']);
    assert(bound_text(1000) =~= seq!['1', 'k']);
    assert(bound_text(5000) =~= seq!['5', 'k']);
    assert(bound_text(10000) =~= seq!['1', '0', 'k']);
    assert(bound_text(50000) =~= seq!['5', '0', 'k']);
    assert(bound_text(100000) =~= seq!['1', '0', '0', 'k']);
}

/// Each histogram label names its bucket's range: the first bucket holds
/// only 0 and is labelled "0", every middle bucket's label ends with "-" and
/// its maximum, and the last bucket's label is the bound just below its
/// minimum followed by "+".
pub proof fn law_bucket_labels_name_their_ranges()
    ensures
        engagement_bucket(0) == (0int, 0int, "0"@),
        views_bucket(0) == (0int, 0int, "0"@),
        forall|k: int|
            1 <= k < 9 ==> ends_with((#[trigger] engagement_bucket(k)).2, "-"@ + bound_text(engagement_bucket(k).1)),
        forall|k: int| 1 <= k < 8 ==> ends_with((#[trigger] views_bucket(k)).2, "-"@ + bound_text(views_bucket(k).1)),
        engagement_bucket(9).2 == bound_text(engagement_bucket(9).0 - 1) + "+"@,
        views_bucket(8).2 == bound_text(views_bucket(8).0 - 1) + "+"@,
{
    lemma_bound_texts();
    reveal_strlit("-");
    reveal_strlit("+");
    reveal_strlit("1-5");
    reveal_strlit("6-10");
    reveal_strlit("11-25");
    reveal_strlit("26-50");
    reveal_strlit("51-100");
    reveal_strlit("101-250");
    reveal_strlit("251-500");
    reveal_strlit("501-1k");
    reveal_strlit("1k+");
    reveal_strlit("1-100");
    reveal_strlit("101-500");
    reveal_strlit("1k-5k");
    reveal_strlit("5k-10k");
    reveal_strlit("10k-50k");
    reveal_strlit("50k-100k");
    reveal_strlit("100k+");
    assert forall|k: int|
        1 <= k < 9 implies ends_with((#[trigger] engagement_bucket(k)).2, "-"@ + bound_text(engagement_bucket(k).1)) by {
        let l = engagement_bucket(k).2;
        let t = "-"@ + bound_text(engagement_bucket(k).1);
        assert(l.subrange(l.len() - t.len(), l.len() as int) =~= t);
    }
    assert forall|k: int| 1 <= k < 8 implies ends_with((#[trigger] views_bucket(k)).2, "-"@ + bound_text(views_bucket(k).1)) by {
        let l = views_bucket(k).2;
        let t = "-"@ + bound_text(views_bucket(k).1);
        assert(l.subrange(l.len() - t.len(), l.len() as int) =~= t);
    }
    assert(engagement_bucket(9).2 =~= bound_text(1000) + "+"@);
    assert(views_bucket(8).2 =~= bound_text(100000) + "+"@);
}

} // verus!
