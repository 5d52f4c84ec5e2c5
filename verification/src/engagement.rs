//! Engagement over time with capture-time attribution: each snapshot of a
//! post contributes the growth of its counts over the highest counts seen in
//! the post's earlier snapshots, and that growth is booked on the day (or
//! hour) at which the snapshot was captured.
use vstd::prelude::*;
use crate::threads::Timestamp;
use crate::dates::{utc_second_of, utc_second_text};

verus! {

/// One engagement snapshot, as the analytics query reads it: rows come
/// ordered by post and then by capture time. `captured_at` is in
/// microseconds since the epoch; `bucket` numbers the day (or hour) of the
/// capture and `label` is that day's (or hour's) text.
#[derive(Debug)]
pub struct SnapshotRow {
    pub post_id: String,
    pub captured_at: i64,
    pub bucket: i64,
    pub label: String,
    pub likes: i32,
    pub replies: i32,
    pub reposts: i32,
}

/// The engagement gained in one day (or hour).
#[derive(Debug)]
pub struct EngagementPoint {
    pub date: String,
    pub likes: i64,
    pub replies: i64,
    pub reposts: i64,
}

/// An engagement point with the number of its day (or hour).
#[derive(Debug)]
pub struct EngagementBucket {
    pub bucket: i64,
    pub point: EngagementPoint,
}

/// Likes (`m == 0`), replies (`m == 1`) or reposts (any other `m`) of a snapshot.
pub open spec fn metric(r: SnapshotRow, m: int) -> int {
    if m == 0 {
        r.likes as int
    } else if m == 1 {
        r.replies as int
    } else {
        r.reposts as int
    }
}

/// Snapshot `i` belongs to the same post as the snapshot before it.
pub open spec fn continues_run(rows: Seq<SnapshotRow>, i: int) -> bool {
    0 < i < rows.len() && rows[i - 1].post_id@ == rows[i].post_id@
}

/// The highest count among snapshot `i` and the earlier snapshots of its post.
pub open spec fn max_through(rows: Seq<SnapshotRow>, i: int, m: int) -> int
    decreases i,
{
    if i > 0 && continues_run(rows, i) {
        let before = max_through(rows, i - 1, m);
        if metric(rows[i], m) > before { metric(rows[i], m) } else { before }
    } else {
        metric(rows[i], m)
    }
}

/// The highest count among the earlier snapshots of the post, 0 where there is none.
pub open spec fn prior_max(rows: Seq<SnapshotRow>, i: int, m: int) -> int {
    if continues_run(rows, i) {
        max_through(rows, i - 1, m)
    } else {
        0
    }
}

/// The count of snapshot `i` less the highest earlier count of its post.
pub open spec fn raw_delta(rows: Seq<SnapshotRow>, i: int, m: int) -> int {
    metric(rows[i], m) - prior_max(rows, i, m)
}

/// The growth booked for snapshot `i`: its raw delta, or 0 where that is negative.
pub open spec fn delta(rows: Seq<SnapshotRow>, i: int, m: int) -> int {
    if raw_delta(rows, i, m) > 0 {
        raw_delta(rows, i, m)
    } else {
        0
    }
}

/// Snapshot `i` was captured at or after `since` (`None`: no bound).
pub open spec fn counted(rows: Seq<SnapshotRow>, i: int, since: Option<i64>) -> bool {
    match since {
        None => true,
        Some(s) => rows[i].captured_at >= s,
    }
}

/// The growth booked on bucket `key` by the counted snapshots among the first `n`.
pub open spec fn bucket_total(rows: Seq<SnapshotRow>, n: int, key: i64, since: Option<i64>, m: int) -> int
    decreases n,
{
    if n <= 0 {
        0
    } else {
        bucket_total(rows, n - 1, key, since, m) + if counted(rows, n - 1, since) && rows[n - 1].bucket
            == key {
            delta(rows, n - 1, m)
        } else {
            0
        }
    }
}

/// The label of the first counted snapshot among the first `n` that falls in
/// bucket `key`, `None` where there is none.
pub open spec fn bucket_label(rows: Seq<SnapshotRow>, n: int, key: i64, since: Option<i64>) -> Option<Seq<char>>
    decreases n,
{
    if n <= 0 {
        None
    } else {
        let before = bucket_label(rows, n - 1, key, since);
        if before is Some {
            before
        } else if counted(rows, n - 1, since) && rows[n - 1].bucket == key {
            Some(rows[n - 1].label@)
        } else {
            None
        }
    }
}

/// Each counted snapshot's raw delta fits in an `i32`, as the database's
/// integer arithmetic demands.
pub open spec fn deltas_fit(rows: Seq<SnapshotRow>, since: Option<i64>) -> bool {
    forall|i: int, m: int|
        0 <= i < rows.len() && 0 <= m < 3 && counted(rows, i, since) ==> i32::MIN <= #[trigger] raw_delta(
            rows,
            i,
            m,
        ) <= i32::MAX
}

/// Every bucket's totals fit in an `i64`.
pub open spec fn totals_fit(rows: Seq<SnapshotRow>, since: Option<i64>) -> bool {
    forall|key: i64, m: int|
        bucket_label(rows, rows.len() as int, key, since) is Some && 0 <= m < 3 ==> #[trigger] bucket_total(
            rows,
            rows.len() as int,
            key,
            since,
            m,
        ) <= i64::MAX
}

#[derive(Debug)]
struct BucketAcc {
    bucket: i64,
    label: String,
    likes: i128,
    replies: i128,
    reposts: i128,
}

spec fn acc_metric(a: BucketAcc, m: int) -> int {
    if m == 0 {
        a.likes as int
    } else if m == 1 {
        a.replies as int
    } else {
        a.reposts as int
    }
}

spec fn accs_match(accs: Seq<BucketAcc>, rows: Seq<SnapshotRow>, n: int, since: Option<i64>) -> bool {
    &&& forall|b1: int, b2: int|
        0 <= b1 < b2 < accs.len() ==> (#[trigger] accs[b1]).bucket < (#[trigger] accs[b2]).bucket
    &&& forall|b: int|
        0 <= b < accs.len() ==> bucket_label(rows, n, (#[trigger] accs[b]).bucket, since) == Some(
            accs[b].label@,
        )
    &&& forall|b: int, m: int|
        0 <= b < accs.len() && 0 <= m < 3 ==> #[trigger] acc_metric(accs[b], m) == bucket_total(
            rows,
            n,
            accs[b].bucket,
            since,
            m,
        )
    &&& forall|b: int, m: int|
        0 <= b < accs.len() && 0 <= m < 3 ==> 0 <= #[trigger] acc_metric(accs[b], m) <= n
            * 0x2_0000_0000
    &&& forall|key: i64|
        #[trigger] bucket_label(rows, n, key, since) is Some ==> exists|b: int|
            0 <= b < accs.len() && (#[trigger] accs[b]).bucket == key
}

proof fn lemma_step_uncounted(accs: Seq<BucketAcc>, rows: Seq<SnapshotRow>, n: int, since: Option<i64>)
    requires
        0 <= n < rows.len(),
        !counted(rows, n, since),
        accs_match(accs, rows, n, since),
    ensures
        accs_match(accs, rows, n + 1, since),
{
    assert forall|key: i64, m: int|
        #[trigger] bucket_total(rows, n + 1, key, since, m) == bucket_total(rows, n, key, since, m) by {}
    assert forall|key: i64|
        #[trigger] bucket_label(rows, n + 1, key, since) == bucket_label(rows, n, key, since) by {}
    assert forall|key: i64|
        #[trigger] bucket_label(rows, n + 1, key, since) is Some implies exists|b: int|
            0 <= b < accs.len() && (#[trigger] accs[b]).bucket == key by {
        assert(bucket_label(rows, n, key, since) is Some);
    }
    assert forall|b: int, m: int|
        0 <= b < accs.len() && 0 <= m < 3 implies 0 <= #[trigger] acc_metric(accs[b], m) <= (n + 1)
        * 0x2_0000_0000 by {
        assert(n * 0x2_0000_0000 <= (n + 1) * 0x2_0000_0000);
    }
}

/// Books the growth `d` of snapshot `n` on its bucket.
fn book_snapshot(accs: &mut Vec<BucketAcc>, rows: &Vec<SnapshotRow>, n: usize, since: Option<i64>, d: (i64, i64, i64))
    requires
        n < rows@.len(),
        counted(rows@, n as int, since),
        accs_match(old(accs)@, rows@, n as int, since),
        d.0 == delta(rows@, n as int, 0),
        d.1 == delta(rows@, n as int, 1),
        d.2 == delta(rows@, n as int, 2),
        0 <= d.0 < 0x2_0000_0000,
        0 <= d.1 < 0x2_0000_0000,
        0 <= d.2 < 0x2_0000_0000,
    ensures
        accs_match(final(accs)@, rows@, n + 1, since),
{
    let ghost old_accs = accs@;
    let ghost rs = rows@;
    let key = rows[n].bucket;
    let ghost ni = n as int;
    assert forall|key2: i64, m: int|
        bucket_total(rs, ni + 1, key2, since, m) == bucket_total(rs, ni, key2, since, m) + if key2
            == key {
            delta(rs, ni, m)
        } else {
            0
        } by {}
    assert forall|key2: i64|
        bucket_label(rs, ni + 1, key2, since) == if bucket_label(rs, ni, key2, since) is Some {
            bucket_label(rs, ni, key2, since)
        } else if key2 == key {
            Some(rs[ni].label@)
        } else {
            None
        } by {}
    let mut pos: usize = 0;
    while pos < accs.len() && accs[pos].bucket < key
        invariant
            accs@ == old_accs,
            pos <= accs@.len(),
            forall|b: int| 0 <= b < pos ==> (#[trigger] accs@[b]).bucket < key,
        decreases accs.len() - pos,
    {
        pos = pos + 1;
    }
    assert(n * 0x2_0000_0000 + 0x2_0000_0000 == (n + 1) * 0x2_0000_0000);
    if pos < accs.len() && accs[pos].bucket == key {
        assert(0 <= acc_metric(old_accs[pos as int], 0) <= ni * 0x2_0000_0000);
        assert(0 <= acc_metric(old_accs[pos as int], 1) <= ni * 0x2_0000_0000);
        assert(0 <= acc_metric(old_accs[pos as int], 2) <= ni * 0x2_0000_0000);
        let upd = BucketAcc {
            bucket: key,
            label: accs[pos].label.clone(),
            likes: accs[pos].likes + d.0 as i128,
            replies: accs[pos].replies + d.1 as i128,
            reposts: accs[pos].reposts + d.2 as i128,
        };
        accs.set(pos, upd);
        assert forall|b: int, m: int|
            0 <= b < accs@.len() && 0 <= m < 3 implies #[trigger] acc_metric(accs@[b], m)
            == bucket_total(rs, ni + 1, accs@[b].bucket, since, m) by {
            if b != pos {
                assert(accs@[b] == old_accs[b]);
                assert(old_accs[b].bucket != key) by {
                    if b < pos {
                    } else {
                        assert(old_accs[pos as int].bucket < old_accs[b].bucket);
                    }
                }
            }
        }
        assert forall|b: int, m: int|
            0 <= b < accs@.len() && 0 <= m < 3 implies 0 <= #[trigger] acc_metric(accs@[b], m) <= (ni
            + 1) * 0x2_0000_0000 by {
            if b != pos {
                assert(accs@[b] == old_accs[b]);
            } else {
                assert(0 <= acc_metric(old_accs[b], m) <= ni * 0x2_0000_0000);
            }
        }
        assert forall|key2: i64|
            #[trigger] bucket_label(rs, ni + 1, key2, since) is Some implies exists|b: int|
                0 <= b < accs@.len() && (#[trigger] accs@[b]).bucket == key2 by {
            if key2 == key {
                assert(accs@[pos as int].bucket == key2);
            } else {
                assert(bucket_label(rs, ni, key2, since) is Some);
                let b0 = choose|b: int| 0 <= b < old_accs.len() && (#[trigger] old_accs[b]).bucket == key2;
                assert(accs@[b0].bucket == key2);
            }
        }
        assert forall|b: int|
            0 <= b < accs@.len() implies bucket_label(rs, ni + 1, (#[trigger] accs@[b]).bucket, since)
            == Some(accs@[b].label@) by {
            if b != pos {
                assert(accs@[b] == old_accs[b]);
            }
        }
        assert forall|b1: int, b2: int|
            0 <= b1 < b2 < accs@.len() implies (#[trigger] accs@[b1]).bucket < (#[trigger] accs@[b2]).bucket by {
            assert(old_accs[b1].bucket < old_accs[b2].bucket);
        }
    } else {
        assert(bucket_label(rs, ni, key, since) is None) by {
            if bucket_label(rs, ni, key, since) is Some {
                let b0 = choose|b: int| 0 <= b < old_accs.len() && (#[trigger] old_accs[b]).bucket == key;
                if b0 < pos {
                } else {
                    assert(old_accs[pos as int].bucket <= old_accs[b0].bucket);
                }
            }
        }
        let fresh = BucketAcc {
            bucket: key,
            label: rows[n].label.clone(),
            likes: d.0 as i128,
            replies: d.1 as i128,
            reposts: d.2 as i128,
        };
        accs.insert(pos, fresh);
        assert forall|b: int|
            0 <= b < accs@.len() implies #[trigger] accs@[b] == if b < pos {
                old_accs[b]
            } else if b == pos {
                accs@[pos as int]
            } else {
                old_accs[b - 1]
            } by {}
        assert forall|b: int, m: int|
            0 <= b < accs@.len() && 0 <= m < 3 implies #[trigger] acc_metric(accs@[b], m)
            == bucket_total(rs, ni + 1, accs@[b].bucket, since, m) by {
            if b < pos {
                assert(accs@[b] == old_accs[b]);
            } else if b > pos {
                assert(accs@[b] == old_accs[b - 1]);
                assert(old_accs[b - 1].bucket != key);
            } else {
                assert(bucket_total(rs, ni, key, since, m) == 0) by {
                    lemma_absent_bucket_total_zero(rs, ni, key, since, m);
                }
            }
        }
        assert forall|b: int, m: int|
            0 <= b < accs@.len() && 0 <= m < 3 implies 0 <= #[trigger] acc_metric(accs@[b], m) <= (ni
            + 1) * 0x2_0000_0000 by {
            if b < pos {
                assert(accs@[b] == old_accs[b]);
            } else if b > pos {
                assert(accs@[b] == old_accs[b - 1]);
            }
        }
        assert forall|key2: i64|
            #[trigger] bucket_label(rs, ni + 1, key2, since) is Some implies exists|b: int|
                0 <= b < accs@.len() && (#[trigger] accs@[b]).bucket == key2 by {
            if key2 == key {
                assert(accs@[pos as int].bucket == key2);
            } else {
                assert(bucket_label(rs, ni, key2, since) is Some);
                let b0 = choose|b: int| 0 <= b < old_accs.len() && (#[trigger] old_accs[b]).bucket == key2;
                if b0 < pos {
                    assert(accs@[b0].bucket == key2);
                } else {
                    assert(accs@[b0 + 1].bucket == key2);
                }
            }
        }
        assert forall|b: int|
            0 <= b < accs@.len() implies bucket_label(rs, ni + 1, (#[trigger] accs@[b]).bucket, since)
            == Some(accs@[b].label@) by {
            if b < pos {
                assert(accs@[b] == old_accs[b]);
            } else if b > pos {
                assert(accs@[b] == old_accs[b - 1]);
                assert(old_accs[b - 1].bucket != key);
            }
        }
        assert forall|b1: int, b2: int|
            0 <= b1 < b2 < accs@.len() implies (#[trigger] accs@[b1]).bucket < (#[trigger] accs@[b2]).bucket by {
            if b2 < pos {
                assert(old_accs[b1].bucket < old_accs[b2].bucket);
            } else if b1 > pos {
                assert(old_accs[b1 - 1].bucket < old_accs[b2 - 1].bucket);
            } else if b1 == pos {
                assert(accs@[b2] == old_accs[b2 - 1]);
                assert(key < old_accs[b2 - 1].bucket) by {
                    if b2 - 1 > pos {
                        assert(old_accs[pos as int].bucket < old_accs[b2 - 1].bucket);
                    }
                }
            } else if b2 == pos {
                assert(accs@[b1] == old_accs[b1]);
            } else {
                assert(accs@[b1] == old_accs[b1]);
                assert(accs@[b2] == old_accs[b2 - 1]);
                assert(old_accs[b1].bucket < key);
                assert(key < old_accs[b2 - 1].bucket) by {
                    if b2 - 1 > pos {
                        assert(old_accs[pos as int].bucket < old_accs[b2 - 1].bucket);
                    }
                }
            }
        }
    }
}

/// Engagement over time: for each day (or hour) in which some snapshot at or
/// after `since` was captured, in increasing order, the likes, replies and
/// reposts gained by those snapshots. `None` where the database's integer
/// arithmetic would overflow.
pub fn engagement_series(rows: &Vec<SnapshotRow>, since: Option<i64>) -> (r: Option<Vec<EngagementBucket>>)
    ensures
        r is Some <==> deltas_fit(rows@, since) && totals_fit(rows@, since),
        r matches Some(out) ==> {
            &&& forall|b1: int, b2: int|
                0 <= b1 < b2 < out@.len() ==> (#[trigger] out@[b1]).bucket < (#[trigger] out@[b2]).bucket
            &&& forall|b: int|
                0 <= b < out@.len() ==> {
                    &&& bucket_label(rows@, rows@.len() as int, (#[trigger] out@[b]).bucket, since) == Some(
                        out@[b].point.date@,
                    )
                    &&& out@[b].point.likes == bucket_total(rows@, rows@.len() as int, out@[b].bucket, since, 0)
                    &&& out@[b].point.replies == bucket_total(rows@, rows@.len() as int, out@[b].bucket, since, 1)
                    &&& out@[b].point.reposts == bucket_total(rows@, rows@.len() as int, out@[b].bucket, since, 2)
                }
            &&& forall|key: i64|
                #[trigger] bucket_label(rows@, rows@.len() as int, key, since) is Some ==> exists|b: int|
                    0 <= b < out@.len() && (#[trigger] out@[b]).bucket == key
        },
{
    let ghost rs = rows@;
    let mut accs: Vec<BucketAcc> = Vec::new();
    let mut through: (i32, i32, i32) = (0, 0, 0);
    let mut i: usize = 0;
    while i < rows.len()
        invariant
            rs == rows@,
            i <= rs.len(),
            accs_match(accs@, rs, i as int, since),
            i > 0 ==> through.0 == max_through(rs, i - 1, 0) && through.1 == max_through(rs, i - 1, 1)
                && through.2 == max_through(rs, i - 1, 2),
            forall|j: int, m: int|
                0 <= j < i && 0 <= m < 3 && counted(rs, j, since) ==> i32::MIN <= #[trigger] raw_delta(rs, j, m)
                    <= i32::MAX,
        decreases rs.len() - i,
    {
        let cont = i > 0 && rows[i - 1].post_id == rows[i].post_id;
        assert(cont == continues_run(rs, i as int));
        let p0: i64 = if cont { through.0 as i64 } else { 0 };
        let p1: i64 = if cont { through.1 as i64 } else { 0 };
        let p2: i64 = if cont { through.2 as i64 } else { 0 };
        let r0: i64 = rows[i].likes as i64 - p0;
        let r1: i64 = rows[i].replies as i64 - p1;
        let r2: i64 = rows[i].reposts as i64 - p2;
        assert(r0 == raw_delta(rs, i as int, 0));
        assert(r1 == raw_delta(rs, i as int, 1));
        assert(r2 == raw_delta(rs, i as int, 2));
        let is_counted = match since {
            None => true,
            Some(s) => rows[i].captured_at >= s,
        };
        if is_counted {
            if r0 < i32::MIN as i64 || r0 > i32::MAX as i64 || r1 < i32::MIN as i64 || r1 > i32::MAX as i64
                || r2 < i32::MIN as i64 || r2 > i32::MAX as i64 {
                assert(!deltas_fit(rs, since)) by {
                    if r0 < i32::MIN as i64 || r0 > i32::MAX as i64 {
                        assert(raw_delta(rs, i as int, 0) == r0);
                    } else if r1 < i32::MIN as i64 || r1 > i32::MAX as i64 {
                        assert(raw_delta(rs, i as int, 1) == r1);
                    } else {
                        assert(raw_delta(rs, i as int, 2) == r2);
                    }
                }
                return None;
            }
            let d0: i64 = if r0 > 0 { r0 } else { 0 };
            let d1: i64 = if r1 > 0 { r1 } else { 0 };
            let d2: i64 = if r2 > 0 { r2 } else { 0 };
            book_snapshot(&mut accs, rows, i, since, (d0, d1, d2));
        } else {
            proof {
                lemma_step_uncounted(accs@, rs, i as int, since);
            }
        }
        if cont {
            if rows[i].likes > through.0 {
                through.0 = rows[i].likes;
            }
            if rows[i].replies > through.1 {
                through.1 = rows[i].replies;
            }
            if rows[i].reposts > through.2 {
                through.2 = rows[i].reposts;
            }
        } else {
            through = (rows[i].likes, rows[i].replies, rows[i].reposts);
        }
        i = i + 1;
    }
    let ghost n = rs.len() as int;
    let mut out: Vec<EngagementBucket> = Vec::new();
    let mut k: usize = 0;
    while k < accs.len()
        invariant
            rs == rows@,
            n == rs.len(),
            accs_match(accs@, rs, n, since),
            k <= accs@.len(),
            out@.len() == k,
            forall|b: int|
                0 <= b < k ==> {
                    &&& (#[trigger] out@[b]).bucket == accs@[b].bucket
                    &&& out@[b].point.date@ == accs@[b].label@
                    &&& out@[b].point.likes == accs@[b].likes
                    &&& out@[b].point.replies == accs@[b].replies
                    &&& out@[b].point.reposts == accs@[b].reposts
                },
        decreases accs.len() - k,
    {
        let a = &accs[k];
        if a.likes > i64::MAX as i128 || a.replies > i64::MAX as i128 || a.reposts > i64::MAX as i128 {
            assert(!totals_fit(rs, since)) by {
                let key = accs@[k as int].bucket;
                assert(bucket_label(rs, n, key, since) is Some);
                if a.likes > i64::MAX as i128 {
                    assert(acc_metric(accs@[k as int], 0) == bucket_total(rs, n, key, since, 0));
                } else if a.replies > i64::MAX as i128 {
                    assert(acc_metric(accs@[k as int], 1) == bucket_total(rs, n, key, since, 1));
                } else {
                    assert(acc_metric(accs@[k as int], 2) == bucket_total(rs, n, key, since, 2));
                }
            }
            return None;
        }
        assert(0 <= acc_metric(accs@[k as int], 0) && 0 <= acc_metric(accs@[k as int], 1) && 0 <= acc_metric(accs@[k as int], 2));
        out.push(
            EngagementBucket {
                bucket: a.bucket,
                point: EngagementPoint {
                    date: a.label.clone(),
                    likes: a.likes as i64,
                    replies: a.replies as i64,
                    reposts: a.reposts as i64,
                },
            },
        );
        k = k + 1;
    }
    assert forall|b: int| 0 <= b < out@.len() implies {
        &&& out@[b].point.likes == bucket_total(rs, n, (#[trigger] out@[b]).bucket, since, 0)
        &&& out@[b].point.replies == bucket_total(rs, n, out@[b].bucket, since, 1)
        &&& out@[b].point.reposts == bucket_total(rs, n, out@[b].bucket, since, 2)
    } by {
        assert(acc_metric(accs@[b], 0) == bucket_total(rs, n, accs@[b].bucket, since, 0));
        assert(acc_metric(accs@[b], 1) == bucket_total(rs, n, accs@[b].bucket, since, 1));
        assert(acc_metric(accs@[b], 2) == bucket_total(rs, n, accs@[b].bucket, since, 2));
    }
    assert(totals_fit(rs, since)) by {
        assert forall|key: i64, m: int|
            bucket_label(rs, n, key, since) is Some && 0 <= m < 3 implies #[trigger] bucket_total(rs, n, key, since, m)
            <= i64::MAX by {
            let b = choose|b: int| 0 <= b < accs@.len() && (#[trigger] accs@[b]).bucket == key;
            assert(acc_metric(accs@[b], m) == bucket_total(rs, n, key, since, m));
            assert(out@[b].bucket == key);
        }
    }
    assert forall|key: i64|
        #[trigger] bucket_label(rs, n, key, since) is Some implies exists|b: int|
            0 <= b < out@.len() && (#[trigger] out@[b]).bucket == key by {
        let b = choose|b: int| 0 <= b < accs@.len() && (#[trigger] accs@[b]).bucket == key;
        assert(out@[b].bucket == key);
    }
    assert forall|b1: int, b2: int|
        0 <= b1 < b2 < out@.len() implies (#[trigger] out@[b1]).bucket < (#[trigger] out@[b2]).bucket by {
        assert(accs@[b1].bucket < accs@[b2].bucket);
    }
    assert forall|b: int| 0 <= b < out@.len() implies bucket_label(rs, n, (#[trigger] out@[b]).bucket, since)
        == Some(out@[b].point.date@) by {
        assert(bucket_label(rs, n, accs@[b].bucket, since) == Some(accs@[b].label@));
    }
    Some(out)
}

/// The growth booked for the first `n` snapshots.
pub open spec fn growth_sum(rows: Seq<SnapshotRow>, n: int, m: int) -> int
    decreases n,
{
    if n <= 0 {
        0
    } else {
        growth_sum(rows, n - 1, m) + delta(rows, n - 1, m)
    }
}

/// All snapshots belong to one post.
pub open spec fn one_post(rows: Seq<SnapshotRow>) -> bool {
    forall|i: int| 0 <= i < rows.len() ==> (#[trigger] rows[i]).post_id@ == rows[0].post_id@
}

/// The growth booked over a post's snapshots adds up to the highest count the
/// post ever showed, however its counts went down in between, provided no
/// count is negative. Each snapshot's growth is zero or more.
pub proof fn law_growth_adds_up_to_peak(rows: Seq<SnapshotRow>, n: int, m: int)
    requires
        1 <= n <= rows.len(),
        one_post(rows),
        forall|i: int| 0 <= i < rows.len() ==> metric(#[trigger] rows[i], m) >= 0,
    ensures
        growth_sum(rows, n, m) == max_through(rows, n - 1, m),
        forall|i: int| 0 <= i < rows.len() ==> #[trigger] delta(rows, i, m) >= 0,
    decreases n,
{
    if n == 1 {
        assert(!continues_run(rows, 0));
        assert(metric(rows[0], m) >= 0);
        assert(growth_sum(rows, 0, m) == 0);
    } else {
        law_growth_adds_up_to_peak(rows, n - 1, m);
        assert(rows[n - 2].post_id@ == rows[0].post_id@);
        assert(rows[n - 1].post_id@ == rows[0].post_id@);
        assert(continues_run(rows, n - 1));
    }
}

/// The totals of the buckets `keys`.
pub open spec fn total_over(rows: Seq<SnapshotRow>, n: int, keys: Seq<i64>, since: Option<i64>, m: int) -> int
    decreases keys.len(),
{
    if keys.len() == 0 {
        0
    } else {
        total_over(rows, n, keys.drop_last(), since, m) + bucket_total(rows, n, keys.last(), since, m)
    }
}

/// The growth booked for the counted snapshots among the first `n`.
pub open spec fn counted_growth(rows: Seq<SnapshotRow>, n: int, since: Option<i64>, m: int) -> int
    decreases n,
{
    if n <= 0 {
        0
    } else {
        counted_growth(rows, n - 1, since, m) + if counted(rows, n - 1, since) {
            delta(rows, n - 1, m)
        } else {
            0
        }
    }
}

/// How many times `key` occurs in `keys`.
pub open spec fn occurrences(keys: Seq<i64>, key: i64) -> int
    decreases keys.len(),
{
    if keys.len() == 0 {
        0
    } else {
        occurrences(keys.drop_last(), key) + if keys.last() == key { 1int } else { 0 }
    }
}

proof fn lemma_total_over_start(rows: Seq<SnapshotRow>, keys: Seq<i64>, since: Option<i64>, m: int)
    ensures
        total_over(rows, 0, keys, since, m) == 0,
    decreases keys.len(),
{
    if keys.len() > 0 {
        lemma_total_over_start(rows, keys.drop_last(), since, m);
    }
}

proof fn lemma_total_over_step(rows: Seq<SnapshotRow>, n: int, keys: Seq<i64>, since: Option<i64>, m: int)
    requires
        n > 0,
    ensures
        total_over(rows, n, keys, since, m) == total_over(rows, n - 1, keys, since, m) + if counted(
            rows,
            n - 1,
            since,
        ) {
            delta(rows, n - 1, m) * occurrences(keys, rows[n - 1].bucket)
        } else {
            0
        },
    decreases keys.len(),
{
    if keys.len() > 0 {
        lemma_total_over_step(rows, n, keys.drop_last(), since, m);
        let d = delta(rows, n - 1, m);
        let o = occurrences(keys.drop_last(), rows[n - 1].bucket);
        assert(d * (o + 1) == d * o + d) by (nonlinear_arith);
    }
}

pub(crate) proof fn lemma_occurs_once(keys: Seq<i64>, key: i64)
    requires
        forall|a: int, b: int| 0 <= a < b < keys.len() ==> keys[a] != keys[b],
        keys.contains(key),
    ensures
        occurrences(keys, key) == 1,
    decreases keys.len(),
{
    let rest = keys.drop_last();
    if keys.last() == key {
        assert(!rest.contains(key)) by {
            if rest.contains(key) {
                let a = choose|a: int| 0 <= a < rest.len() && rest[a] == key;
                assert(keys[a] == keys[keys.len() - 1]);
            }
        }
        lemma_never_occurs(rest, key);
    } else {
        let a = choose|a: int| 0 <= a < keys.len() && keys[a] == key;
        assert(rest[a] == key);
        lemma_occurs_once(rest, key);
    }
}

proof fn lemma_never_occurs(keys: Seq<i64>, key: i64)
    requires
        !keys.contains(key),
    ensures
        occurrences(keys, key) == 0,
    decreases keys.len(),
{
    if keys.len() > 0 {
        assert(keys.last() == keys[keys.len() - 1]);
        assert(!keys.drop_last().contains(key)) by {
            if keys.drop_last().contains(key) {
                let a = choose|a: int| 0 <= a < keys.drop_last().len() && keys.drop_last()[a] == key;
                assert(keys[a] == key);
            }
        }
        lemma_never_occurs(keys.drop_last(), key);
    }
}

proof fn lemma_counted_bucket_labelled(rows: Seq<SnapshotRow>, n: int, i: int, since: Option<i64>)
    requires
        0 <= i < n <= rows.len(),
        counted(rows, i, since),
    ensures
        bucket_label(rows, n, rows[i].bucket, since) is Some,
    decreases n,
{
    if i < n - 1 {
        lemma_counted_bucket_labelled(rows, n - 1, i, since);
    }
}

proof fn lemma_totals_add_up(rows: Seq<SnapshotRow>, n: int, keys: Seq<i64>, since: Option<i64>, m: int)
    requires
        0 <= n <= rows.len(),
        forall|a: int, b: int| 0 <= a < b < keys.len() ==> keys[a] != keys[b],
        forall|i: int| 0 <= i < n && counted(rows, i, since) ==> keys.contains(#[trigger] rows[i].bucket),
    ensures
        total_over(rows, n, keys, since, m) == counted_growth(rows, n, since, m),
    decreases n,
{
    if n == 0 {
        lemma_total_over_start(rows, keys, since, m);
    } else {
        lemma_totals_add_up(rows, n - 1, keys, since, m);
        lemma_total_over_step(rows, n, keys, since, m);
        if counted(rows, n - 1, since) {
            assert(keys.contains(rows[n - 1].bucket));
            lemma_occurs_once(keys, rows[n - 1].bucket);
        }
    }
}

proof fn lemma_all_counted_growth(rows: Seq<SnapshotRow>, n: int, m: int)
    ensures
        counted_growth(rows, n, None, m) == growth_sum(rows, n, m),
    decreases n,
{
    if n > 0 {
        lemma_all_counted_growth(rows, n - 1, m);
    }
}

/// Over a post's snapshots with no negative count, the growth in the
/// buckets of the engagement series adds up to the highest count the post
/// ever showed, whatever glitches lowered its counts in between: `keys` are
/// the series' buckets, each once, and every bucket with a snapshot is
/// among them.
pub proof fn law_bucket_totals_add_up_to_peak(rows: Seq<SnapshotRow>, keys: Seq<i64>, m: int)
    requires
        rows.len() >= 1,
        one_post(rows),
        forall|i: int| 0 <= i < rows.len() ==> metric(#[trigger] rows[i], m) >= 0,
        forall|a: int, b: int| 0 <= a < b < keys.len() ==> keys[a] != keys[b],
        forall|key: i64| #[trigger] bucket_label(rows, rows.len() as int, key, None) is Some ==> keys.contains(key),
    ensures
        total_over(rows, rows.len() as int, keys, None, m) == max_through(rows, rows.len() - 1, m),
{
    assert forall|i: int| 0 <= i < rows.len() && counted(rows, i, None) implies keys.contains(#[trigger] rows[i].bucket) by {
        lemma_counted_bucket_labelled(rows, rows.len() as int, i, None);
    }
    lemma_totals_add_up(rows, rows.len() as int, keys, None, m);
    lemma_all_counted_growth(rows, rows.len() as int, m);
    law_growth_adds_up_to_peak(rows, rows.len() as int, m);
}

/// The highest counts of the runs of snapshots (the posts, as the rows come
/// ordered by post) that end before snapshot `n - 1`.
pub open spec fn finished_peaks(rows: Seq<SnapshotRow>, n: int, m: int) -> int
    decreases n,
{
    if n <= 1 {
        0
    } else {
        finished_peaks(rows, n - 1, m) + if continues_run(rows, n - 1) {
            0
        } else {
            max_through(rows, n - 2, m)
        }
    }
}

/// The sum, over the posts of the first `n` snapshots, of each post's
/// highest count.
pub open spec fn peaks_total(rows: Seq<SnapshotRow>, n: int, m: int) -> int {
    if n <= 0 {
        0
    } else {
        finished_peaks(rows, n, m) + max_through(rows, n - 1, m)
    }
}

proof fn lemma_growth_is_peaks(rows: Seq<SnapshotRow>, n: int, m: int)
    requires
        0 <= n <= rows.len(),
        forall|i: int| 0 <= i < rows.len() ==> metric(#[trigger] rows[i], m) >= 0,
    ensures
        growth_sum(rows, n, m) == peaks_total(rows, n, m),
    decreases n,
{
    if n == 1 {
        assert(!continues_run(rows, 0));
        assert(metric(rows[0], m) >= 0);
        assert(growth_sum(rows, 0, m) == 0);
    } else if n > 1 {
        lemma_growth_is_peaks(rows, n - 1, m);
        assert(metric(rows[n - 1], m) >= 0);
    }
}

/// Over all snapshots (ordered by post, then by capture time) with no
/// negative count, the growth in the buckets of the engagement series adds
/// up to the sum over the posts of each post's highest count, whatever
/// glitches lowered the counts in between: `keys` are the series' buckets,
/// each once, and every bucket with a snapshot is among them.
pub proof fn law_bucket_totals_add_up_to_posts_peaks(rows: Seq<SnapshotRow>, keys: Seq<i64>, m: int)
    requires
        forall|i: int| 0 <= i < rows.len() ==> metric(#[trigger] rows[i], m) >= 0,
        forall|a: int, b: int| 0 <= a < b < keys.len() ==> keys[a] != keys[b],
        forall|key: i64| #[trigger] bucket_label(rows, rows.len() as int, key, None) is Some ==> keys.contains(key),
    ensures
        total_over(rows, rows.len() as int, keys, None, m) == peaks_total(rows, rows.len() as int, m),
{
    assert forall|i: int| 0 <= i < rows.len() && counted(rows, i, None) implies keys.contains(#[trigger] rows[i].bucket) by {
        lemma_counted_bucket_labelled(rows, rows.len() as int, i, None);
    }
    lemma_totals_add_up(rows, rows.len() as int, keys, None, m);
    lemma_all_counted_growth(rows, rows.len() as int, m);
    lemma_growth_is_peaks(rows, rows.len() as int, m);
}

proof fn lemma_max_through_attained(rows: Seq<SnapshotRow>, n: int, m: int) -> (w: int)
    requires
        0 <= n < rows.len(),
        one_post(rows),
    ensures
        0 <= w <= n,
        metric(rows[w], m) == max_through(rows, n, m),
        forall|i: int| 0 <= i <= n ==> metric(#[trigger] rows[i], m) <= max_through(rows, n, m),
    decreases n,
{
    if n == 0 {
        0
    } else {
        assert(rows[n - 1].post_id@ == rows[0].post_id@);
        assert(rows[n].post_id@ == rows[0].post_id@);
        assert(continues_run(rows, n));
        let w0 = lemma_max_through_attained(rows, n - 1, m);
        if metric(rows[n], m) > max_through(rows, n - 1, m) {
            n
        } else {
            w0
        }
    }
}

/// Over the snapshots of one post with no negative count, the engagement
/// series books on its days, in all, exactly the post's highest likes, its
/// highest replies and its highest reposts: each total is at least every
/// snapshot's own count of that kind and equals one of them. `keys` are the
/// series' buckets, each once, and every bucket with a snapshot is among
/// them. A post seen once thus books its likes, replies and reposts as they are.
pub proof fn law_series_books_each_count_of_its_kind(rows: Seq<SnapshotRow>, keys: Seq<i64>)
    requires
        rows.len() >= 1,
        one_post(rows),
        forall|i: int|
            0 <= i < rows.len() ==> (#[trigger] rows[i]).likes >= 0 && rows[i].replies >= 0 && rows[i].reposts >= 0,
        forall|a: int, b: int| 0 <= a < b < keys.len() ==> keys[a] != keys[b],
        forall|key: i64| #[trigger] bucket_label(rows, rows.len() as int, key, None) is Some ==> keys.contains(key),
    ensures
        forall|i: int| 0 <= i < rows.len() ==> (#[trigger] rows[i]).likes <= total_over(rows, rows.len() as int, keys, None, 0),
        exists|i: int| 0 <= i < rows.len() && (#[trigger] rows[i]).likes == total_over(rows, rows.len() as int, keys, None, 0),
        forall|i: int| 0 <= i < rows.len() ==> (#[trigger] rows[i]).replies <= total_over(rows, rows.len() as int, keys, None, 1),
        exists|i: int| 0 <= i < rows.len() && (#[trigger] rows[i]).replies == total_over(rows, rows.len() as int, keys, None, 1),
        forall|i: int| 0 <= i < rows.len() ==> (#[trigger] rows[i]).reposts <= total_over(rows, rows.len() as int, keys, None, 2),
        exists|i: int| 0 <= i < rows.len() && (#[trigger] rows[i]).reposts == total_over(rows, rows.len() as int, keys, None, 2),
{
    let n = rows.len() as int;
    assert forall|i: int| 0 <= i < rows.len() implies metric(#[trigger] rows[i], 0) >= 0 by {}
    assert forall|i: int| 0 <= i < rows.len() implies metric(#[trigger] rows[i], 1) >= 0 by {}
    assert forall|i: int| 0 <= i < rows.len() implies metric(#[trigger] rows[i], 2) >= 0 by {}
    law_bucket_totals_add_up_to_peak(rows, keys, 0);
    law_bucket_totals_add_up_to_peak(rows, keys, 1);
    law_bucket_totals_add_up_to_peak(rows, keys, 2);
    let w0 = lemma_max_through_attained(rows, n - 1, 0);
    let w1 = lemma_max_through_attained(rows, n - 1, 1);
    let w2 = lemma_max_through_attained(rows, n - 1, 2);
    assert(rows[w0].likes == total_over(rows, n, keys, None, 0));
    assert(rows[w1].replies == total_over(rows, n, keys, None, 1));
    assert(rows[w2].reposts == total_over(rows, n, keys, None, 2));
    assert forall|i: int| 0 <= i < rows.len() implies (#[trigger] rows[i]).likes <= total_over(rows, n, keys, None, 0)
        && rows[i].replies <= total_over(rows, n, keys, None, 1) && rows[i].reposts <= total_over(rows, n, keys, None, 2) by {
        assert(metric(rows[i], 0) <= max_through(rows, n - 1, 0));
        assert(metric(rows[i], 1) <= max_through(rows, n - 1, 1));
        assert(metric(rows[i], 2) <= max_through(rows, n - 1, 2));
    }
}

/// Counting starts at `since` itself: snapshot `n` adds its growth to its
/// own bucket's total exactly when it was captured at `since` or later, and
/// adds nothing to any other bucket.
pub proof fn law_counting_starts_at_since(rows: Seq<SnapshotRow>, n: int, key: i64, s: i64, m: int)
    requires
        0 <= n < rows.len(),
    ensures
        bucket_total(rows, n + 1, key, Some(s), m) == bucket_total(rows, n, key, Some(s), m) + if rows[n].captured_at
            >= s && rows[n].bucket == key {
            delta(rows, n, m)
        } else {
            0
        },
{
}

/// The growth booked in any bucket is zero or more.
pub proof fn law_bucket_totals_never_negative(rows: Seq<SnapshotRow>, n: int, key: i64, since: Option<i64>, m: int)
    ensures
        bucket_total(rows, n, key, since, m) >= 0,
    decreases n,
{
    if n > 0 {
        law_bucket_totals_never_negative(rows, n - 1, key, since, m);
    }
}

proof fn lemma_absent_bucket_total_zero(rows: Seq<SnapshotRow>, n: int, key: i64, since: Option<i64>, m: int)
    requires
        bucket_label(rows, n, key, since) is None,
    ensures
        bucket_total(rows, n, key, since, m) == 0,
    decreases n,
{
    if n > 0 {
        lemma_absent_bucket_total_zero(rows, n - 1, key, since, m);
    }
}

// ── One post's history ───────────────────────────────────────────────

/// The counts of one post at one capture.
#[derive(Debug)]
pub struct PostSnapshot {
    pub captured_at: Timestamp,
    pub views: i32,
    pub likes: i32,
    pub replies_count: i32,
    pub reposts: i32,
    pub quotes: i32,
}

/// One capture of a post's counts as its history lists it.
#[derive(Debug)]
pub struct PostEngagementPoint {
    pub date: String,
    pub views: i32,
    pub likes: i32,
    pub replies: i32,
    pub reposts: i32,
    pub quotes: i32,
}

/// Whether `p` lists the snapshot `s`: its capture time to the second, in
/// UTC, and its counts.
pub open spec fn lists_snapshot(p: PostEngagementPoint, s: PostSnapshot) -> bool {
    &&& utc_second_of(s.captured_at.secs as int, s.captured_at.nanos as int) == Some(p.date@)
    &&& p.views == s.views
    &&& p.likes == s.likes
    &&& p.replies == s.replies_count
    &&& p.reposts == s.reposts
    &&& p.quotes == s.quotes
}

/// The engagement history of a post, one point per snapshot in order;
/// `None` where chrono cannot write the capture time of one of them.
pub fn engagement_history(snapshots: &Vec<PostSnapshot>) -> (r: Option<Vec<PostEngagementPoint>>)
    ensures
        match r {
            Some(points) => {
                &&& points@.len() == snapshots@.len()
                &&& forall|k: int| 0 <= k < points@.len() ==> lists_snapshot(#[trigger] points@[k], snapshots@[k])
                &&& forall|k: int|
                    0 <= k < points@.len() ==> {
                        &&& (#[trigger] points@[k]).views == snapshots@[k].views
                        &&& points@[k].likes == snapshots@[k].likes
                        &&& points@[k].replies == snapshots@[k].replies_count
                        &&& points@[k].reposts == snapshots@[k].reposts
                        &&& points@[k].quotes == snapshots@[k].quotes
                    }
            },
            None => exists|k: int| 0 <= k < snapshots@.len()
                && utc_second_of((#[trigger] snapshots@[k]).captured_at.secs as int, snapshots@[k].captured_at.nanos as int) is None,
        },
{
    let mut points: Vec<PostEngagementPoint> = Vec::new();
    let mut k: usize = 0;
    while k < snapshots.len()
        invariant
            k <= snapshots@.len(),
            points@.len() == k,
            forall|j: int| 0 <= j < k ==> lists_snapshot(#[trigger] points@[j], snapshots@[j]),
        decreases snapshots.len() - k,
    {
        let s = &snapshots[k];
        let date = match utc_second_text(&s.captured_at) {
            Some(d) => d,
            None => {
                return None;
            },
        };
        points.push(PostEngagementPoint {
            date,
            views: s.views,
            likes: s.likes,
            replies: s.replies_count,
            reposts: s.reposts,
            quotes: s.quotes,
        });
        k = k + 1;
    }
    Some(points)
}

/// The interactions of a post (likes, replies, reposts and quotes), or 0
/// where they add up to less; the post detail reports it as its engagement
/// rate.
pub fn interaction_total(likes: i32, replies: i32, reposts: i32, quotes: i32) -> (t: i32)
    requires
        i32::MIN <= likes + replies <= i32::MAX,
        i32::MIN <= likes + replies + reposts <= i32::MAX,
        i32::MIN <= likes + replies + reposts + quotes <= i32::MAX,
    ensures
        t == if likes + replies + reposts + quotes > 0 { likes + replies + reposts + quotes } else { 0 },
{
    let sum = likes + replies + reposts + quotes;
    if sum > 0 { sum } else { 0 }
}

} // verus!
