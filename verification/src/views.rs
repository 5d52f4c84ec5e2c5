//! Account-level daily views: the reach chart, the growth curve, the total,
//! and the sums over the trailing windows that the range buttons show.
use vstd::prelude::*;
use crate::text::{decimal_digits, decimal_text, lemma_digit_chars};

verus! {

/// One row of the `daily_views` table: the day as text (`YYYY-MM-DD`), the
/// same day as a number of days since 1970-01-01, and the views of that day.
#[derive(Debug)]
pub struct DailyViews {
    pub date: String,
    pub day: i64,
    pub views: i64,
}

/// A point of the daily reach chart.
#[derive(Debug)]
pub struct ViewsPoint {
    pub date: String,
    pub views: i64,
}

/// A point of the growth chart: the views up to and including the date.
#[derive(Debug)]
pub struct CumulativeViewsPoint {
    pub date: String,
    pub cumulative_views: i64,
}

/// Query parameters of the views and engagement charts.
#[derive(Debug)]
pub struct ViewsQuery {
    pub since: Option<String>,
    pub grouping: Option<String>,
}

/// The view totals of the trailing windows, each under its label.
#[derive(Debug)]
pub struct ViewsRangeSums {
    pub sums: Vec<(String, i64)>,
}

/// A day of the insights context's view series.
#[derive(Debug)]
pub struct DailyViewPoint {
    pub date: String,
    pub views: i64,
}

/// Whether a row falls on or after the first day of a window (`None`: no bound).
pub open spec fn on_or_after(row: DailyViews, since: Option<i64>) -> bool {
    match since {
        None => true,
        Some(first) => row.day >= first,
    }
}

/// The rows of a window, in their order.
pub open spec fn rows_in_window(rows: Seq<DailyViews>, since: Option<i64>) -> Seq<DailyViews>
    decreases rows.len(),
{
    if rows.len() == 0 {
        Seq::empty()
    } else {
        let before = rows_in_window(rows.drop_last(), since);
        if on_or_after(rows.last(), since) {
            before.push(rows.last())
        } else {
            before
        }
    }
}

/// The sum of the views of the rows in a window.
pub open spec fn views_in_window(rows: Seq<DailyViews>, since: Option<i64>) -> int
    decreases rows.len(),
{
    if rows.len() == 0 {
        0
    } else {
        views_in_window(rows.drop_last(), since) + if on_or_after(rows.last(), since) {
            rows.last().views as int
        } else {
            0
        }
    }
}

/// The sum of the views of the first `k` rows.
pub open spec fn prefix_views(rows: Seq<DailyViews>, k: int) -> int {
    views_in_window(rows.take(k), None)
}

/// Whether an integer fits in an `i64`.
pub open spec fn fits_i64(x: int) -> bool {
    i64::MIN <= x <= i64::MAX
}

/// The windows of the range buttons: label and length in days.
pub open spec fn range_window(k: int) -> (Seq<char>, int) {
    if k == 0 {
        ("365d"@, 365)
    } else if k == 1 {
        ("270d"@, 270)
    } else if k == 2 {
        ("180d"@, 180)
    } else if k == 3 {
        ("90d"@, 90)
    } else if k == 4 {
        ("60d"@, 60)
    } else if k == 5 {
        ("30d"@, 30)
    } else if k == 6 {
        ("14d"@, 14)
    } else if k == 7 {
        ("7d"@, 7)
    } else {
        ("24h"@, 1)
    }
}

/// The sum of the views in a window, or `None` where it does not fit in an
/// `i64` (the database's `::bigint` cast fails there).
pub fn sum_views(rows: &Vec<DailyViews>, since: Option<i64>) -> (r: Option<i64>)
    ensures
        r is Some <==> fits_i64(views_in_window(rows@, since)),
        r matches Some(v) ==> v as int == views_in_window(rows@, since),
{
    let mut acc: i128 = 0;
    let mut i: usize = 0;
    while i < rows.len()
        invariant
            i <= rows@.len(),
            acc as int == views_in_window(rows@.take(i as int), since),
            -(i as int) * 0x8000_0000_0000_0000 <= acc as int <= (i as int) * 0x8000_0000_0000_0000,
        decreases rows.len() - i,
    {
        assert(rows@.take(i + 1).drop_last() =~= rows@.take(i as int));
        let keep = match since {
            None => true,
            Some(first) => rows[i].day >= first,
        };
        if keep {
            acc = acc + rows[i].views as i128;
        }
        i = i + 1;
    }
    assert(rows@.take(rows@.len() as int) =~= rows@);
    if acc < i64::MIN as i128 || acc > i64::MAX as i128 {
        None
    } else {
        Some(acc as i64)
    }
}

/// The daily reach chart: the days on or after `since`, in their order.
pub fn views_series(rows: &Vec<DailyViews>, since: Option<i64>) -> (points: Vec<ViewsPoint>)
    ensures
        points@.len() == rows_in_window(rows@, since).len(),
        forall|k: int|
            0 <= k < points@.len() ==> {
                &&& (#[trigger] points@[k]).date@ == rows_in_window(rows@, since)[k].date@
                &&& points@[k].views == rows_in_window(rows@, since)[k].views
            },
{
    let mut points: Vec<ViewsPoint> = Vec::new();
    let mut i: usize = 0;
    while i < rows.len()
        invariant
            i <= rows@.len(),
            points@.len() == rows_in_window(rows@.take(i as int), since).len(),
            forall|k: int|
                0 <= k < points@.len() ==> {
                    &&& (#[trigger] points@[k]).date@ == rows_in_window(rows@.take(i as int), since)[k].date@
                    &&& points@[k].views == rows_in_window(rows@.take(i as int), since)[k].views
                },
        decreases rows.len() - i,
    {
        assert(rows@.take(i + 1).drop_last() =~= rows@.take(i as int));
        let keep = match since {
            None => true,
            Some(first) => rows[i].day >= first,
        };
        if keep {
            points.push(ViewsPoint { date: rows[i].date.clone(), views: rows[i].views });
        }
        i = i + 1;
    }
    assert(rows@.take(rows@.len() as int) =~= rows@);
    points
}

/// The growth chart: for each day on or after `since`, the views of the
/// window's days up to and including it. `None` where one of these running
/// totals does not fit in an `i64`.
pub fn cumulative_series(rows: &Vec<DailyViews>, since: Option<i64>) -> (r: Option<Vec<CumulativeViewsPoint>>)
    ensures
        r is Some <==> (forall|k: int|
            1 <= k <= rows_in_window(rows@, since).len() ==> fits_i64(
                #[trigger] prefix_views(rows_in_window(rows@, since), k),
            )),
        r matches Some(points) ==> {
            &&& points@.len() == rows_in_window(rows@, since).len()
            &&& forall|k: int|
                0 <= k < points@.len() ==> {
                    &&& (#[trigger] points@[k]).date@ == rows_in_window(rows@, since)[k].date@
                    &&& points@[k].cumulative_views as int == prefix_views(rows_in_window(rows@, since), k + 1)
                }
        },
{
    let series = views_series(rows, since);
    let ghost window = rows_in_window(rows@, since);
    let mut points: Vec<CumulativeViewsPoint> = Vec::new();
    let mut acc: i64 = 0;
    let mut i: usize = 0;
    while i < series.len()
        invariant
            window == rows_in_window(rows@, since),
            series@.len() == window.len(),
            forall|k: int|
                0 <= k < series@.len() ==> {
                    &&& (#[trigger] series@[k]).date@ == window[k].date@
                    &&& series@[k].views == window[k].views
                },
            i <= series@.len(),
            acc as int == prefix_views(window, i as int),
            points@.len() == i,
            forall|k: int| 1 <= k <= i ==> fits_i64(#[trigger] prefix_views(window, k)),
            forall|k: int|
                0 <= k < i ==> {
                    &&& (#[trigger] points@[k]).date@ == window[k].date@
                    &&& points@[k].cumulative_views as int == prefix_views(window, k + 1)
                },
        decreases series.len() - i,
    {
        assert(window.take(i + 1).drop_last() =~= window.take(i as int));
        let next = acc as i128 + series[i].views as i128;
        if next < i64::MIN as i128 || next > i64::MAX as i128 {
            assert(!fits_i64(prefix_views(window, i + 1)));
            assert(!(forall|k: int| 1 <= k <= window.len() ==> fits_i64(#[trigger] prefix_views(window, k))));
            return None;
        }
        acc = next as i64;
        points.push(CumulativeViewsPoint { date: series[i].date.clone(), cumulative_views: acc });
        i = i + 1;
    }
    Some(points)
}

/// The view totals of the range buttons on day `today`: all time, then each
/// trailing window, whose first day is `today` minus its length. `None` where
/// one of these totals does not fit in an `i64`.
pub fn range_sums(rows: &Vec<DailyViews>, today: i64) -> (r: Option<ViewsRangeSums>)
    requires
        today >= i64::MIN + 365,
    ensures
        r is Some <==> fits_i64(views_in_window(rows@, None)) && (forall|k: int|
            0 <= k < 9 ==> fits_i64(
                views_in_window(rows@, Some((today - (#[trigger] range_window(k)).1) as i64)),
            )),
        r matches Some(s) ==> {
            &&& s.sums@.len() == 10
            &&& s.sums@[0].0@ == "all"@
            &&& s.sums@[0].1 as int == views_in_window(rows@, None)
            &&& forall|k: int|
                0 <= k < 9 ==> {
                    &&& (#[trigger] s.sums@[k + 1]).0@ == range_window(k).0
                    &&& s.sums@[k + 1].1 as int == views_in_window(
                        rows@,
                        Some((today - range_window(k).1) as i64),
                    )
                }
        },
{
    proof {
        reveal_strlit("all");
        reveal_strlit("365d");
        reveal_strlit("270d");
        reveal_strlit("180d");
        reveal_strlit("90d");
        reveal_strlit("60d");
        reveal_strlit("30d");
        reveal_strlit("14d");
        reveal_strlit("7d");
        reveal_strlit("24h");
    }
    let mut sums: Vec<(String, i64)> = Vec::new();
    let all = sum_views(rows, None);
    match all {
        None => { return None; },
        Some(v) => { sums.push((String::from_str("all"), v)); },
    }
    let windows: [(&'static str, i64); 9] = [
        ("365d", 365),
        ("270d", 270),
        ("180d", 180),
        ("90d", 90),
        ("60d", 60),
        ("30d", 30),
        ("14d", 14),
        ("7d", 7),
        ("24h", 1),
    ];
    let mut k: usize = 0;
    while k < 9
        invariant
            today >= i64::MIN + 365,
            k <= 9,
            windows@.len() == 9,
            forall|j: int| 0 <= j < 9 ==> (#[trigger] windows@[j]).0@ == range_window(j).0 && windows@[j].1 == range_window(j).1,
            sums@.len() == k + 1,
            sums@[0].0@ == "all"@,
            sums@[0].1 as int == views_in_window(rows@, None),
            forall|j: int|
                0 <= j < k ==> fits_i64(views_in_window(rows@, Some((today - (#[trigger] range_window(j)).1) as i64))),
            forall|j: int|
                0 <= j < k ==> {
                    &&& (#[trigger] sums@[j + 1]).0@ == range_window(j).0
                    &&& sums@[j + 1].1 as int == views_in_window(rows@, Some((today - range_window(j).1) as i64))
                },
        decreases 9 - k,
    {
        let (label, days) = windows[k];
        assert(label@ == range_window(k as int).0 && days == range_window(k as int).1);
        match sum_views(rows, Some(today - days)) {
            None => { return None; },
            Some(v) => {
                sums.push((String::from_str(label), v));
                assert(fits_i64(views_in_window(rows@, Some((today - range_window(k as int).1) as i64))));
                assert(sums@[k + 1].1 as int == views_in_window(rows@, Some((today - range_window(k as int).1) as i64)));
            },
        }
        k = k + 1;
    }
    assert(forall|j: int| 0 <= j < 9 ==> fits_i64(views_in_window(rows@, Some((today - (#[trigger] range_window(j)).1) as i64))));
    Some(ViewsRangeSums { sums })
}

/// Every row's views are zero or more.
pub open spec fn no_negative_views(rows: Seq<DailyViews>) -> bool {
    forall|i: int| 0 <= i < rows.len() ==> (#[trigger] rows[i]).views >= 0
}

/// A window that starts later holds no more views than one that starts
/// earlier (or has no start), where no day has negative views.
pub proof fn law_later_window_holds_fewer_views(rows: Seq<DailyViews>, earlier: Option<i64>, later: i64)
    requires
        no_negative_views(rows),
        earlier matches Some(e) ==> e <= later,
    ensures
        views_in_window(rows, Some(later)) <= views_in_window(rows, earlier),
    decreases rows.len(),
{
    if rows.len() > 0 {
        assert(no_negative_views(rows.drop_last())) by {
            assert forall|i: int| 0 <= i < rows.drop_last().len() implies (#[trigger] rows.drop_last()[i]).views >= 0 by {
                assert(rows.drop_last()[i] == rows[i]);
            }
        }
        assert(rows.last() == rows[rows.len() - 1]);
        law_later_window_holds_fewer_views(rows.drop_last(), earlier, later);
    }
}

/// A window includes its first day: a row joins the window starting on day
/// `first` (and adds its views to the window's total) exactly when its day is
/// `first` or later.
pub proof fn law_window_starts_on_its_first_day(rows: Seq<DailyViews>, r: DailyViews, first: i64)
    ensures
        rows_in_window(rows.push(r), Some(first)) == if r.day >= first {
            rows_in_window(rows, Some(first)).push(r)
        } else {
            rows_in_window(rows, Some(first))
        },
        views_in_window(rows.push(r), Some(first)) == views_in_window(rows, Some(first)) + if r.day >= first {
            r.views as int
        } else {
            0
        },
{
    assert(rows.push(r).drop_last() =~= rows);
    assert(rows.push(r).last() == r);
}

/// The range buttons' totals never grow from one button to the next:
/// all time, 365 days, 270 days, ..., 7 days, 24 hours, where no day has
/// negative views.
pub proof fn law_range_sums_non_increasing(rows: Seq<DailyViews>, today: i64)
    requires
        no_negative_views(rows),
        today >= i64::MIN + 365,
    ensures
        views_in_window(rows, Some((today - range_window(0).1) as i64)) <= views_in_window(rows, None),
        forall|k: int|
            0 <= k < 8 ==> views_in_window(rows, Some((today - range_window(k + 1).1) as i64))
                <= views_in_window(rows, Some((today - (#[trigger] range_window(k)).1) as i64)),
{
    law_later_window_holds_fewer_views(rows, None, (today - 365) as i64);
    assert forall|k: int|
        0 <= k < 8 implies views_in_window(rows, Some((today - range_window(k + 1).1) as i64))
            <= views_in_window(rows, Some((today - (#[trigger] range_window(k)).1) as i64)) by {
        law_later_window_holds_fewer_views(
            rows,
            Some((today - range_window(k).1) as i64),
            (today - range_window(k + 1).1) as i64,
        );
    }
}

/// Each range button's window is as long as its label says: "365d" to
/// "7d" name their lengths in days, and "24h" is one day. So the "60d" total
/// is the views of the days from `today - 60` on.
pub proof fn law_range_labels_name_their_lengths()
    ensures
        forall|k: int| 0 <= k < 8 ==> (#[trigger] range_window(k)).0 == decimal_text(range_window(k).1) + "d"@,
        range_window(8) == ("24h"@, 1int),
{
    reveal_strlit("365d");
    reveal_strlit("270d");
    reveal_strlit("180d");
    reveal_strlit("90d");
    reveal_strlit("60d");
    reveal_strlit("30d");
    reveal_strlit("14d");
    reveal_strlit("7d");
    reveal_strlit("d");
    lemma_digit_chars();
    assert(decimal_digits(3) =~= seq!['3']);
    assert(decimal_digits(36) =~= seq!['3', '6']);
    assert(decimal_text(365) =~= seq!['3', '6', '5']);
    assert(decimal_digits(2) =~= seq!['2']);
    assert(decimal_digits(27) =~= seq!['2', '7']);
    assert(decimal_text(270) =~= seq!['2', '7', '0']);
    assert(decimal_digits(1) =~= seq!['1']);
    assert(decimal_digits(18) =~= seq!['1', '8']);
    assert(decimal_text(180) =~= seq!['1', '8', '0']);
    assert(decimal_digits(9) =~= seq!['9']);
    assert(decimal_text(90) =~= seq!['9', '0']);
    assert(decimal_digits(6) =~= seq!['6']);
    assert(decimal_text(60) =~= seq!['6', '0']);
    assert(decimal_digits(3) =~= seq!['3']);
    assert(decimal_text(30) =~= seq!['3', '0']);
    assert(decimal_digits(1) =~= seq!['1']);
    assert(decimal_text(14) =~= seq!['1', '4']);
    assert(decimal_text(7) =~= seq!['7']);
    assert forall|k: int| 0 <= k < 8 implies (#[trigger] range_window(k)).0 == decimal_text(range_window(k).1) + "d"@ by {
        if k == 0 {
            assert(range_window(k).0 =~= decimal_text(365) + "d"@);
        } else if k == 1 {
            assert(range_window(k).0 =~= decimal_text(270) + "d"@);
        } else if k == 2 {
            assert(range_window(k).0 =~= decimal_text(180) + "d"@);
        } else if k == 3 {
            assert(range_window(k).0 =~= decimal_text(90) + "d"@);
        } else if k == 4 {
            assert(range_window(k).0 =~= decimal_text(60) + "d"@);
        } else if k == 5 {
            assert(range_window(k).0 =~= decimal_text(30) + "d"@);
        } else if k == 6 {
            assert(range_window(k).0 =~= decimal_text(14) + "d"@);
        } else {
            assert(range_window(k).0 =~= decimal_text(7) + "d"@);
        }
    }
}

} // verus!
