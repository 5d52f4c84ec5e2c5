//! The calendar heatmaps: daily reach, and posting activity by publish day.
use vstd::prelude::*;
use crate::text::{str_eq, decimal_digits, lemma_digit_chars};
use crate::views::{DailyViews, rows_in_window, views_series};
use crate::engagement::{occurrences, lemma_occurs_once};

verus! {

/// Query parameters of the heatmaps.
#[derive(Debug)]
pub struct HeatmapQuery {
    pub range: Option<String>,
}

/// One day of a heatmap.
#[derive(Debug)]
pub struct HeatmapDay {
    pub date: String,
    pub posts: i64,
    pub likes: i64,
    pub replies: i64,
    pub reposts: i64,
    pub views: i64,
    pub media_types: Vec<(String, i64)>,
}

/// The days of a heatmap.
#[derive(Debug)]
pub struct HeatmapResponse {
    pub days: Vec<HeatmapDay>,
}

/// One group of the activity query: the posts of one media type published on
/// one day (`date` as text, `day` as days since 1970-01-01), with their counts.
#[derive(Debug)]
pub struct ActivityRow {
    pub date: String,
    pub day: i64,
    pub posts: i64,
    pub likes: i64,
    pub replies: i64,
    pub reposts: i64,
    pub media_type: Option<String>,
}

/// How many days back a heatmap reaches: "3m" 90, "6m" 180, "all" no bound,
/// anything else 365.
pub open spec fn range_days(range: Option<Seq<char>>) -> Option<int> {
    match range {
        Some(r) => if r == "3m"@ {
            Some(90)
        } else if r == "6m"@ {
            Some(180)
        } else if r == "all"@ {
            None
        } else {
            Some(365)
        },
        None => Some(365),
    }
}

/// How many days back a heatmap reaches, `None` for no bound.
pub fn heatmap_range_days(range: Option<&str>) -> (r: Option<i64>)
    ensures
        r == (match range_days(match range { Some(s) => Some(s@), None => None }) {
            Some(d) => Some(d as i64),
            None => None,
        }),
{
    proof {
        reveal_strlit("3m");
        reveal_strlit("6m");
        reveal_strlit("all");
    }
    match range {
        None => Some(365),
        Some(r) => {
            if str_eq(r, "3m") {
                Some(90)
            } else if str_eq(r, "6m") {
                Some(180)
            } else if str_eq(r, "all") {
                None
            } else {
                Some(365)
            }
        },
    }
}

/// The reach heatmap: the days on or after `since`, each with its views and
/// no activity.
pub fn views_heatmap(rows: &Vec<DailyViews>, since: Option<i64>) -> (r: HeatmapResponse)
    ensures
        r.days@.len() == rows_in_window(rows@, since).len(),
        forall|k: int|
            0 <= k < r.days@.len() ==> {
                &&& (#[trigger] r.days@[k]).date@ == rows_in_window(rows@, since)[k].date@
                &&& r.days@[k].views == rows_in_window(rows@, since)[k].views
                &&& r.days@[k].posts == 0 && r.days@[k].likes == 0 && r.days@[k].replies == 0
                &&& r.days@[k].reposts == 0 && r.days@[k].media_types@.len() == 0
            },
{
    let points = views_series(rows, since);
    let mut days: Vec<HeatmapDay> = Vec::new();
    let mut k: usize = 0;
    while k < points.len()
        invariant
            k <= points@.len(),
            points@.len() == rows_in_window(rows@, since).len(),
            forall|j: int|
                0 <= j < points@.len() ==> {
                    &&& (#[trigger] points@[j]).date@ == rows_in_window(rows@, since)[j].date@
                    &&& points@[j].views == rows_in_window(rows@, since)[j].views
                },
            days@.len() == k,
            forall|j: int|
                0 <= j < k ==> {
                    &&& (#[trigger] days@[j]).date@ == rows_in_window(rows@, since)[j].date@
                    &&& days@[j].views == rows_in_window(rows@, since)[j].views
                    &&& days@[j].posts == 0 && days@[j].likes == 0 && days@[j].replies == 0
                    &&& days@[j].reposts == 0 && days@[j].media_types@.len() == 0
                },
        decreases points.len() - k,
    {
        days.push(HeatmapDay {
            date: points[k].date.clone(),
            posts: 0,
            likes: 0,
            replies: 0,
            reposts: 0,
            views: points[k].views,
            media_types: Vec::new(),
        });
        k = k + 1;
    }
    HeatmapResponse { days }
}

/// Posts (`f == 0`), likes (1), replies (2) or reposts (other `f`) of a group.
pub open spec fn field(r: ActivityRow, f: int) -> int {
    if f == 0 {
        r.posts as int
    } else if f == 1 {
        r.likes as int
    } else if f == 2 {
        r.replies as int
    } else {
        r.reposts as int
    }
}

/// The sum of a count over the groups of day `day`.
pub open spec fn day_total(rows: Seq<ActivityRow>, day: i64, f: int) -> int
    decreases rows.len(),
{
    if rows.len() == 0 {
        0
    } else {
        day_total(rows.drop_last(), day, f) + if rows.last().day == day { field(rows.last(), f) } else { 0 }
    }
}

/// The posts of day `day` whose media type is `mt`.
pub open spec fn media_total(rows: Seq<ActivityRow>, day: i64, mt: Seq<char>) -> int
    decreases rows.len(),
{
    if rows.len() == 0 {
        0
    } else {
        media_total(rows.drop_last(), day, mt) + if rows.last().day == day && rows.last().media_type
            is Some && rows.last().media_type->0@ == mt {
            rows.last().posts as int
        } else {
            0
        }
    }
}

/// Some group of day `day` has media type `mt`.
pub open spec fn has_media(rows: Seq<ActivityRow>, day: i64, mt: Seq<char>) -> bool {
    exists|i: int|
        0 <= i < rows.len() && (#[trigger] rows[i]).day == day && rows[i].media_type is Some
            && rows[i].media_type->0@ == mt
}

/// Some group falls on day `day`.
pub open spec fn has_day(rows: Seq<ActivityRow>, day: i64) -> bool {
    exists|i: int| 0 <= i < rows.len() && (#[trigger] rows[i]).day == day
}

/// The text of day `day`: that of its first group.
pub open spec fn day_label(rows: Seq<ActivityRow>, day: i64) -> Seq<char>
    decreases rows.len(),
{
    if rows.len() == 0 {
        Seq::empty()
    } else if rows[0].day == day {
        rows[0].date@
    } else {
        day_label(rows.drop_first(), day)
    }
}

/// Every total of the heatmap fits in an `i64`.
pub open spec fn activity_fits(rows: Seq<ActivityRow>) -> bool {
    &&& forall|day: i64, f: int|
        has_day(rows, day) && 0 <= f < 4 ==> i64::MIN <= #[trigger] day_total(rows, day, f) <= i64::MAX
    &&& forall|day: i64, mt: Seq<char>|
        has_media(rows, day, mt) ==> i64::MIN <= #[trigger] media_total(rows, day, mt) <= i64::MAX
}

fn distinct_days(rows: &Vec<ActivityRow>) -> (days: Vec<i64>)
    ensures
        forall|a: int, b: int| 0 <= a < b < days@.len() ==> days@[a] < days@[b],
        forall|a: int| 0 <= a < days@.len() ==> has_day(rows@, #[trigger] days@[a]),
        forall|i: int| 0 <= i < rows@.len() ==> days@.contains(#[trigger] rows@[i].day),
{
    let mut days: Vec<i64> = Vec::new();
    let mut i: usize = 0;
    while i < rows.len()
        invariant
            i <= rows@.len(),
            forall|a: int, b: int| 0 <= a < b < days@.len() ==> days@[a] < days@[b],
            forall|a: int| 0 <= a < days@.len() ==> has_day(rows@, #[trigger] days@[a]),
            forall|j: int| 0 <= j < i ==> days@.contains(#[trigger] rows@[j].day),
        decreases rows.len() - i,
    {
        let d = rows[i].day;
        let mut pos: usize = 0;
        while pos < days.len() && days[pos] < d
            invariant
                pos <= days@.len(),
                forall|a: int| 0 <= a < pos ==> days@[a] < d,
            decreases days.len() - pos,
        {
            pos = pos + 1;
        }
        if pos < days.len() && days[pos] == d {
            assert(days@[pos as int] == rows@[i as int].day);
        } else {
            let ghost before = days@;
            days.insert(pos, d);
            assert(days@[pos as int] == d);
            assert forall|a: int, b: int| 0 <= a < b < days@.len() implies days@[a] < days@[b] by {
                if b < pos {
                    assert(days@[a] == before[a] && days@[b] == before[b]);
                } else if a > pos {
                    assert(days@[a] == before[a - 1] && days@[b] == before[b - 1]);
                } else if a == pos {
                    assert(days@[b] == before[b - 1]);
                    if b - 1 > pos {
                        assert(before[pos as int] < before[b - 1]);
                    }
                } else {
                    assert(days@[a] == before[a]);
                    if b > pos {
                        assert(days@[b] == before[b - 1]);
                        if b - 1 > pos {
                            assert(before[pos as int] < before[b - 1]);
                        }
                    }
                }
            }
            assert forall|a: int| 0 <= a < days@.len() implies has_day(rows@, #[trigger] days@[a]) by {
                if a < pos {
                    assert(days@[a] == before[a]);
                } else if a > pos {
                    assert(days@[a] == before[a - 1]);
                } else {
                    assert(rows@[i as int].day == d);
                }
            }
            assert forall|j: int| 0 <= j < i + 1 implies days@.contains(#[trigger] rows@[j].day) by {
                if j < i {
                    let a = choose|a: int| 0 <= a < before.len() && before[a] == rows@[j].day;
                    if a < pos {
                        assert(days@[a] == before[a]);
                    } else {
                        assert(days@[a + 1] == before[a]);
                    }
                } else {
                    assert(days@[pos as int] == rows@[j].day);
                }
            }
        }
        i = i + 1;
    }
    days
}

fn sum_day(rows: &Vec<ActivityRow>, day: i64, f: u8) -> (r: Option<i64>)
    requires
        f < 4,
    ensures
        r is Some <==> i64::MIN <= day_total(rows@, day, f as int) <= i64::MAX,
        r matches Some(v) ==> v == day_total(rows@, day, f as int),
{
    let mut acc: i128 = 0;
    let mut i: usize = 0;
    while i < rows.len()
        invariant
            f < 4,
            i <= rows@.len(),
            acc as int == day_total(rows@.take(i as int), day, f as int),
            -(i as int) * 0x8000_0000_0000_0000 <= acc <= (i as int) * 0x8000_0000_0000_0000,
        decreases rows.len() - i,
    {
        assert(rows@.take(i + 1).drop_last() =~= rows@.take(i as int));
        if rows[i].day == day {
            let v = if f == 0 {
                rows[i].posts
            } else if f == 1 {
                rows[i].likes
            } else if f == 2 {
                rows[i].replies
            } else {
                rows[i].reposts
            };
            acc = acc + v as i128;
        }
        i = i + 1;
    }
    assert(rows@.take(rows@.len() as int) =~= rows@);
    if acc < i64::MIN as i128 || acc > i64::MAX as i128 {
        None
    } else {
        Some(acc as i64)
    }
}

fn sum_media(rows: &Vec<ActivityRow>, day: i64, mt: &String) -> (r: Option<i64>)
    ensures
        r is Some <==> i64::MIN <= media_total(rows@, day, mt@) <= i64::MAX,
        r matches Some(v) ==> v == media_total(rows@, day, mt@),
{
    let mut acc: i128 = 0;
    let mut i: usize = 0;
    while i < rows.len()
        invariant
            i <= rows@.len(),
            acc as int == media_total(rows@.take(i as int), day, mt@),
            -(i as int) * 0x8000_0000_0000_0000 <= acc <= (i as int) * 0x8000_0000_0000_0000,
        decreases rows.len() - i,
    {
        assert(rows@.take(i + 1).drop_last() =~= rows@.take(i as int));
        if rows[i].day == day {
            match &rows[i].media_type {
                Some(m) => {
                    if *m == *mt {
                        acc = acc + rows[i].posts as i128;
                    }
                },
                None => {},
            }
        }
        i = i + 1;
    }
    assert(rows@.take(rows@.len() as int) =~= rows@);
    if acc < i64::MIN as i128 || acc > i64::MAX as i128 {
        None
    } else {
        Some(acc as i64)
    }
}

fn media_of_day(rows: &Vec<ActivityRow>, day: i64) -> (mts: Vec<String>)
    ensures
        forall|a: int, b: int| 0 <= a < b < mts@.len() ==> mts@[a]@ != mts@[b]@,
        forall|a: int| 0 <= a < mts@.len() ==> has_media(rows@, day, (#[trigger] mts@[a])@),
        forall|mt: Seq<char>|
            #[trigger] has_media(rows@, day, mt) ==> exists|a: int| 0 <= a < mts@.len() && (#[trigger] mts@[a])@ == mt,
{
    let mut mts: Vec<String> = Vec::new();
    let mut i: usize = 0;
    while i < rows.len()
        invariant
            i <= rows@.len(),
            forall|a: int, b: int| 0 <= a < b < mts@.len() ==> mts@[a]@ != mts@[b]@,
            forall|a: int| 0 <= a < mts@.len() ==> has_media(rows@, day, (#[trigger] mts@[a])@),
            forall|j: int|
                0 <= j < i && (#[trigger] rows@[j]).day == day && rows@[j].media_type is Some ==> exists|a: int|
                    0 <= a < mts@.len() && (#[trigger] mts@[a])@ == rows@[j].media_type->0@,
        decreases rows.len() - i,
    {
        if rows[i].day == day {
            match &rows[i].media_type {
                Some(m) => {
                    let mut k: usize = 0;
                    let mut found = false;
                    while k < mts.len()
                        invariant
                            k <= mts@.len(),
                            found ==> exists|a: int| 0 <= a < mts@.len() && (#[trigger] mts@[a])@ == m@,
                            !found ==> forall|a: int| 0 <= a < k ==> (#[trigger] mts@[a])@ != m@,
                        decreases mts.len() - k,
                    {
                        if mts[k] == *m {
                            found = true;
                        }
                        k = k + 1;
                    }
                    if !found {
                        let ghost before = mts@;
                        mts.push(m.clone());
                        assert(has_media(rows@, day, m@)) by {
                            assert(rows@[i as int].day == day);
                        }
                        assert forall|j: int|
                            0 <= j < i + 1 && (#[trigger] rows@[j]).day == day && rows@[j].media_type is Some implies exists|a: int|
                                0 <= a < mts@.len() && (#[trigger] mts@[a])@ == rows@[j].media_type->0@ by {
                            if j < i {
                                let a = choose|a: int| 0 <= a < before.len() && (#[trigger] before[a])@ == rows@[j].media_type->0@;
                                assert(mts@[a] == before[a]);
                            } else {
                                assert(mts@[before.len() as int]@ == m@);
                            }
                        }
                    }
                },
                None => {},
            }
        }
        i = i + 1;
    }
    assert forall|mt: Seq<char>|
        #[trigger] has_media(rows@, day, mt) implies exists|a: int| 0 <= a < mts@.len() && (#[trigger] mts@[a])@ == mt by {
        let j = choose|j: int|
            0 <= j < rows@.len() && (#[trigger] rows@[j]).day == day && rows@[j].media_type is Some
                && rows@[j].media_type->0@ == mt;
    }
    mts
}

fn label_of_day(rows: &Vec<ActivityRow>, day: i64) -> (s: String)
    ensures
        s@ == day_label(rows@, day),
{
    let mut i: usize = 0;
    assert(rows@.skip(0) =~= rows@);
    while i < rows.len()
        invariant
            i <= rows@.len(),
            day_label(rows@, day) == day_label(rows@.skip(i as int), day),
        decreases rows.len() - i,
    {
        assert(rows@.skip(i as int).drop_first() =~= rows@.skip(i + 1));
        if rows[i].day == day {
            return rows[i].date.clone();
        }
        i = i + 1;
    }
    String::new()
}

/// The activity heatmap: the groups merged by day, in increasing day order,
/// each day with its post, like, reply and repost totals and the posts of
/// each media type. `None` where a total does not fit in an `i64`.
pub fn activity_heatmap(rows: &Vec<ActivityRow>) -> (r: Option<(Vec<i64>, HeatmapResponse)>)
    ensures
        r is Some <==> activity_fits(rows@),
        r matches Some((keys, h)) ==> {
            &&& keys@.len() == h.days@.len()
            &&& forall|a: int, b: int| 0 <= a < b < keys@.len() ==> keys@[a] < keys@[b]
            &&& forall|a: int| 0 <= a < keys@.len() ==> has_day(rows@, #[trigger] keys@[a])
            &&& forall|i: int| 0 <= i < rows@.len() ==> keys@.contains(#[trigger] rows@[i].day)
            &&& forall|a: int|
                0 <= a < keys@.len() ==> {
                    let d = #[trigger] h.days@[a];
                    &&& d.date@ == day_label(rows@, keys@[a])
                    &&& d.posts == day_total(rows@, keys@[a], 0)
                    &&& d.likes == day_total(rows@, keys@[a], 1)
                    &&& d.replies == day_total(rows@, keys@[a], 2)
                    &&& d.reposts == day_total(rows@, keys@[a], 3)
                    &&& d.views == 0
                    &&& forall|x: int, y: int|
                        0 <= x < y < d.media_types@.len() ==> d.media_types@[x].0@ != d.media_types@[y].0@
                    &&& forall|x: int|
                        0 <= x < d.media_types@.len() ==> has_media(rows@, keys@[a], (#[trigger] d.media_types@[x]).0@)
                            && d.media_types@[x].1 == media_total(rows@, keys@[a], d.media_types@[x].0@)
                    &&& forall|mt: Seq<char>|
                        #[trigger] has_media(rows@, keys@[a], mt) ==> exists|x: int|
                            0 <= x < d.media_types@.len() && (#[trigger] d.media_types@[x]).0@ == mt
                }
        },
{
    let keys = distinct_days(rows);
    let mut days: Vec<HeatmapDay> = Vec::new();
    let mut a: usize = 0;
    while a < keys.len()
        invariant
            a <= keys@.len(),
            forall|x: int| 0 <= x < keys@.len() ==> has_day(rows@, #[trigger] keys@[x]),
            forall|i: int| 0 <= i < rows@.len() ==> keys@.contains(#[trigger] rows@[i].day),
            forall|x: int, y: int| 0 <= x < y < keys@.len() ==> keys@[x] < keys@[y],
            days@.len() == a,
            forall|b: int, f: int|
                0 <= b < a && 0 <= f < 4 ==> i64::MIN <= #[trigger] day_total(rows@, keys@[b], f) <= i64::MAX,
            forall|b: int, mt: Seq<char>|
                0 <= b < a && has_media(rows@, keys@[b], mt) ==> i64::MIN <= #[trigger] media_total(rows@, keys@[b], mt) <= i64::MAX,
            forall|b: int|
                0 <= b < a ==> {
                    let d = #[trigger] days@[b];
                    &&& d.date@ == day_label(rows@, keys@[b])
                    &&& d.posts == day_total(rows@, keys@[b], 0)
                    &&& d.likes == day_total(rows@, keys@[b], 1)
                    &&& d.replies == day_total(rows@, keys@[b], 2)
                    &&& d.reposts == day_total(rows@, keys@[b], 3)
                    &&& d.views == 0
                    &&& forall|x: int, y: int|
                        0 <= x < y < d.media_types@.len() ==> d.media_types@[x].0@ != d.media_types@[y].0@
                    &&& forall|x: int|
                        0 <= x < d.media_types@.len() ==> has_media(rows@, keys@[b], (#[trigger] d.media_types@[x]).0@)
                            && d.media_types@[x].1 == media_total(rows@, keys@[b], d.media_types@[x].0@)
                    &&& forall|mt: Seq<char>|
                        #[trigger] has_media(rows@, keys@[b], mt) ==> exists|x: int|
                            0 <= x < d.media_types@.len() && (#[trigger] d.media_types@[x]).0@ == mt
                },
        decreases keys.len() - a,
    {
        let day = keys[a];
        let posts = sum_day(rows, day, 0);
        let likes = sum_day(rows, day, 1);
        let replies = sum_day(rows, day, 2);
        let reposts = sum_day(rows, day, 3);
        if posts.is_none() || likes.is_none() || replies.is_none() || reposts.is_none() {
            assert(!activity_fits(rows@)) by {
                assert(has_day(rows@, keys@[a as int]));
                if posts.is_none() {
                    assert(!(i64::MIN <= day_total(rows@, day, 0) <= i64::MAX));
                } else if likes.is_none() {
                    assert(!(i64::MIN <= day_total(rows@, day, 1) <= i64::MAX));
                } else if replies.is_none() {
                    assert(!(i64::MIN <= day_total(rows@, day, 2) <= i64::MAX));
                } else {
                    assert(!(i64::MIN <= day_total(rows@, day, 3) <= i64::MAX));
                }
            }
            return None;
        }
        let mts = media_of_day(rows, day);
        let mut media_types: Vec<(String, i64)> = Vec::new();
        let mut x: usize = 0;
        while x < mts.len()
            invariant
                x <= mts@.len(),
                forall|p: int| 0 <= p < mts@.len() ==> has_media(rows@, day, (#[trigger] mts@[p])@),
                media_types@.len() == x,
                forall|p: int| 0 <= p < x ==> (#[trigger] media_types@[p]).0@ == mts@[p]@
                    && media_types@[p].1 == media_total(rows@, day, mts@[p]@),
            decreases mts.len() - x,
        {
            match sum_media(rows, day, &mts[x]) {
                None => {
                    assert(has_media(rows@, day, mts@[x as int]@));
                    assert(!activity_fits(rows@));
                    return None;
                },
                Some(v) => {
                    media_types.push((mts[x].clone(), v));
                },
            }
            x = x + 1;
        }
        assert forall|mt: Seq<char>| has_media(rows@, day, mt) implies i64::MIN <= #[trigger] media_total(rows@, day, mt) <= i64::MAX by {
            let p = choose|p: int| 0 <= p < mts@.len() && (#[trigger] mts@[p])@ == mt;
            assert(media_types@[p].0@ == mt);
        }
        assert forall|mt: Seq<char>|
            #[trigger] has_media(rows@, day, mt) implies exists|p: int|
                0 <= p < media_types@.len() && (#[trigger] media_types@[p]).0@ == mt by {
            let p = choose|p: int| 0 <= p < mts@.len() && (#[trigger] mts@[p])@ == mt;
            assert(media_types@[p].0@ == mt);
        }
        assert forall|p: int, q: int| 0 <= p < q < media_types@.len() implies media_types@[p].0@ != media_types@[q].0@ by {
            assert(media_types@[p].0@ == mts@[p]@);
            assert(media_types@[q].0@ == mts@[q]@);
        }
        assert forall|p: int| 0 <= p < media_types@.len() implies has_media(rows@, day, (#[trigger] media_types@[p]).0@)
            && media_types@[p].1 == media_total(rows@, day, media_types@[p].0@) by {
            assert(media_types@[p].0@ == mts@[p]@);
        }
        days.push(HeatmapDay {
            date: label_of_day(rows, day),
            posts: posts.unwrap(),
            likes: likes.unwrap(),
            replies: replies.unwrap(),
            reposts: reposts.unwrap(),
            views: 0,
            media_types,
        });
        a = a + 1;
    }
    assert(activity_fits(rows@)) by {
        assert forall|day: i64, f: int| has_day(rows@, day) && 0 <= f < 4 implies i64::MIN <= #[trigger] day_total(rows@, day, f) <= i64::MAX by {
            let i = choose|i: int| 0 <= i < rows@.len() && (#[trigger] rows@[i]).day == day;
            assert(keys@.contains(rows@[i].day));
            let b = choose|b: int| 0 <= b < keys@.len() && keys@[b] == day;
        }
        assert forall|day: i64, mt: Seq<char>| has_media(rows@, day, mt) implies i64::MIN <= #[trigger] media_total(rows@, day, mt) <= i64::MAX by {
            let i = choose|i: int| 0 <= i < rows@.len() && (#[trigger] rows@[i]).day == day && rows@[i].media_type is Some && rows@[i].media_type->0@ == mt;
            assert(keys@.contains(rows@[i].day));
            let b = choose|b: int| 0 <= b < keys@.len() && keys@[b] == day;
        }
    }
    Some((keys, HeatmapResponse { days }))
}

/// The totals of a count over the days `keys`.
pub open spec fn days_total(rows: Seq<ActivityRow>, keys: Seq<i64>, f: int) -> int
    decreases keys.len(),
{
    if keys.len() == 0 {
        0
    } else {
        days_total(rows, keys.drop_last(), f) + day_total(rows, keys.last(), f)
    }
}

/// The sum of a count over all groups.
pub open spec fn groups_total(rows: Seq<ActivityRow>, f: int) -> int
    decreases rows.len(),
{
    if rows.len() == 0 {
        0
    } else {
        groups_total(rows.drop_last(), f) + field(rows.last(), f)
    }
}

proof fn lemma_days_total_step(rows: Seq<ActivityRow>, keys: Seq<i64>, f: int)
    requires
        rows.len() > 0,
    ensures
        days_total(rows, keys, f) == days_total(rows.drop_last(), keys, f) + field(rows.last(), f) * occurrences(
            keys,
            rows.last().day,
        ),
    decreases keys.len(),
{
    if keys.len() == 0 {
        assert(days_total(rows, keys, f) == 0);
    } else {
        lemma_days_total_step(rows, keys.drop_last(), f);
        let v = field(rows.last(), f);
        let o = occurrences(keys.drop_last(), rows.last().day);
        assert(v * (o + 1) == v * o + v) by (nonlinear_arith);
    }
}

proof fn lemma_days_total_empty(rows: Seq<ActivityRow>, keys: Seq<i64>, f: int)
    requires
        rows.len() == 0,
    ensures
        days_total(rows, keys, f) == 0,
    decreases keys.len(),
{
    if keys.len() > 0 {
        lemma_days_total_empty(rows, keys.drop_last(), f);
    }
}

/// Each group counts on exactly one day of the activity heatmap: over days
/// `keys` that hold every group's day once, the days' totals add up to
/// those of all groups.
pub proof fn law_days_add_up_to_all_groups(rows: Seq<ActivityRow>, keys: Seq<i64>, f: int)
    requires
        forall|a: int, b: int| 0 <= a < b < keys.len() ==> keys[a] != keys[b],
        forall|i: int| 0 <= i < rows.len() ==> keys.contains(#[trigger] rows[i].day),
    ensures
        days_total(rows, keys, f) == groups_total(rows, f),
    decreases rows.len(),
{
    if rows.len() == 0 {
        lemma_days_total_empty(rows, keys, f);
    } else {
        let rest = rows.drop_last();
        assert forall|i: int| 0 <= i < rest.len() implies keys.contains(#[trigger] rest[i].day) by {
            assert(rest[i] == rows[i]);
        }
        law_days_add_up_to_all_groups(rest, keys, f);
        lemma_days_total_step(rows, keys, f);
        assert(rows.last() == rows[rows.len() - 1]);
        lemma_occurs_once(keys, rows.last().day);
    }
}

/// Adding one group to the activity rows adds its posts, likes, replies and
/// reposts to the totals of its own day, and its posts to that day's count
/// of its media type, leaving every other day and media type as it was.
pub proof fn law_a_group_counts_on_its_own_day(rows: Seq<ActivityRow>, g: ActivityRow, day: i64, mt: Seq<char>)
    ensures
        day_total(rows.push(g), day, 0) == day_total(rows, day, 0) + if g.day == day { g.posts as int } else { 0 },
        day_total(rows.push(g), day, 1) == day_total(rows, day, 1) + if g.day == day { g.likes as int } else { 0 },
        day_total(rows.push(g), day, 2) == day_total(rows, day, 2) + if g.day == day { g.replies as int } else { 0 },
        day_total(rows.push(g), day, 3) == day_total(rows, day, 3) + if g.day == day { g.reposts as int } else { 0 },
        media_total(rows.push(g), day, mt) == media_total(rows, day, mt) + if g.day == day && (g.media_type matches Some(m) && m@ == mt) {
            g.posts as int
        } else {
            0
        },
{
    assert(rows.push(g).drop_last() =~= rows);
    assert(rows.push(g).last() == g);
}

/// A heatmap range named by a number of months and "m" ("3m", "6m") reaches
/// back that many months of 30 days; with no range it reaches back a year,
/// and "all" has no bound.
pub proof fn law_month_ranges_reach_back_thirty_days_a_month()
    ensures
        forall|n: nat| n == 3 || n == 6 ==> #[trigger] range_days(Some(decimal_digits(n) + "m"@)) == Some(30 * n as int),
        range_days(None) == Some(365int),
        range_days(Some("all"@)) is None,
{
    reveal_strlit("3m");
    reveal_strlit("6m");
    reveal_strlit("m");
    reveal_strlit("all");
    lemma_digit_chars();
    assert(decimal_digits(3) + "m"@ =~= "3m"@);
    assert(decimal_digits(6) + "m"@ =~= "6m"@);
    assert("3m"@ != "6m"@) by {
        assert("3m"@[0] != "6m"@[0]);
    }
    assert("3m"@ != "all"@ && "6m"@ != "all"@) by {
        assert("3m"@.len() != "all"@.len());
    }
}

} // verus!
