use postgraph_server::engagement::{engagement_series, EngagementBucket, SnapshotRow};
use postgraph_server::views::{range_sums, sum_views, DailyViews};

const TODAY: i64 = 20_000;
const DAY_MICROS: i64 = 86_400_000_000;

fn day_text(day: i64) -> String {
    format!("day-{day}")
}

fn daily(day: i64, views: i64) -> DailyViews {
    DailyViews { date: day_text(day), day, views }
}

/// A snapshot of post `post_id` captured `days_ago` days before today,
/// bucketed by its capture day.
fn snapshot(post_id: &str, days_ago: i64, likes: i32) -> SnapshotRow {
    let day = TODAY - days_ago;
    SnapshotRow {
        post_id: post_id.to_string(),
        captured_at: day * DAY_MICROS + 3_600_000_000,
        bucket: day,
        label: day_text(day),
        likes,
        replies: 0,
        reposts: 0,
    }
}

fn range_value(sums: &[(String, i64)], label: &str) -> i64 {
    sums.iter().find(|(l, _)| l == label).map(|(_, v)| *v).unwrap()
}

fn total_likes(buckets: &[EngagementBucket]) -> i64 {
    buckets.iter().map(|b| b.point.likes).sum()
}

#[test]
fn daily_views_empty_table_returns_zero() {
    let total = sum_views(&vec![], None);
    assert_eq!(total, Some(0), "empty table should return 0 total views");
}

#[test]
fn daily_views_total_sums_all_rows() {
    let rows = vec![daily(TODAY - 2, 1_000), daily(TODAY - 1, 2_000), daily(TODAY, 3_000)];
    assert_eq!(
        sum_views(&rows, None),
        Some(6_000),
        "total should be the sum of all daily_views rows"
    );
}

#[test]
fn range_sums_are_monotonically_decreasing() {
    let rows: Vec<DailyViews> = [0i64, 1, 5, 10, 20, 40, 60, 100, 180, 270, 365, 390]
        .iter()
        .map(|offset| daily(TODAY - offset, 100))
        .collect();
    let sums = range_sums(&rows, TODAY).unwrap().sums;
    let all_time = sum_views(&rows, None).unwrap();
    assert_eq!(range_value(&sums, "all"), all_time);

    let labels = ["365d", "270d", "180d", "90d", "60d", "30d", "14d", "7d", "24h"];
    let mut prev_value = all_time;
    let mut prev_label = "all";
    for label in labels {
        let value = range_value(&sums, label);
        assert!(
            value <= prev_value,
            "{label} ({value}) should be <= {prev_label} ({prev_value})"
        );
        prev_value = value;
        prev_label = label;
    }

    let d1 = range_value(&sums, "24h");
    assert!(
        all_time > d1,
        "all-time ({all_time}) must be strictly greater than 24h ({d1})"
    );
}

#[test]
fn range_sum_excludes_data_outside_window() {
    let rows = vec![daily(TODAY - 60, 500), daily(TODAY - 45, 500)];
    let sums = range_sums(&rows, TODAY).unwrap().sums;
    assert_eq!(
        range_value(&sums, "30d"),
        0,
        "data older than 30d should not appear in 30d range sum"
    );
}

#[test]
fn range_sum_includes_data_on_boundary_date() {
    let rows = vec![daily(TODAY - 30, 999), daily(TODAY, 1)];
    let sums = range_sums(&rows, TODAY).unwrap().sums;
    assert_eq!(
        range_value(&sums, "30d"),
        1_000,
        "boundary date row should be included (>= comparison)"
    );
}

#[test]
fn range_sums_production_query_returns_all_columns() {
    let rows: Vec<DailyViews> = [0i64, 10, 30, 60, 90, 180, 270, 365]
        .iter()
        .map(|offset| daily(TODAY - offset, 50))
        .collect();
    let sums = range_sums(&rows, TODAY).unwrap().sums;
    let values: Vec<i64> = sums.iter().map(|(_, v)| *v).collect();
    assert_eq!(values.len(), 10, "production query must return 10 range columns");
    for v in &values {
        assert!(*v >= 0, "no range sum should be negative");
    }
    for i in 0..values.len() - 1 {
        assert!(
            values[i] >= values[i + 1],
            "values[{i}]={} should be >= values[{}]={}",
            values[i],
            i + 1,
            values[i + 1]
        );
    }
}

#[test]
fn engagement_deltas_attributed_to_captured_at() {
    let rows = vec![snapshot("p1", 10, 100), snapshot("p1", 5, 300), snapshot("p1", 1, 500)];
    let buckets = engagement_series(&rows, None).unwrap();
    assert_eq!(total_likes(&buckets), 500, "total likes should equal final snapshot value");
    let post_publish_date = day_text(TODAY - 60);
    for b in &buckets {
        assert_ne!(
            b.point.date, post_publish_date,
            "no engagement delta should be attributed to the post's publish date"
        );
    }
    let likes: Vec<i64> = buckets.iter().map(|b| b.point.likes).collect();
    assert_eq!(likes, vec![100, 200, 200]);
}

#[test]
fn engagement_first_snapshot_attributed_to_captured_at_not_post_date() {
    let rows = vec![snapshot("p1", 5, 400)];
    let buckets = engagement_series(&rows, None).unwrap();
    assert_eq!(buckets.len(), 1, "should produce exactly one date bucket");
    assert_eq!(buckets[0].point.date, day_text(TODAY - 5));
    assert_eq!(buckets[0].point.likes, 400, "first snapshot delta should equal the full likes count");
}

#[test]
fn engagement_api_glitch_does_not_produce_negative_delta() {
    let rows = vec![snapshot("p1", 9, 100), snapshot("p1", 5, 80), snapshot("p1", 1, 150)];
    let buckets = engagement_series(&rows, None).unwrap();
    assert_eq!(
        total_likes(&buckets),
        150,
        "MAX-based deltas should handle API glitches; total = final value"
    );
    for b in &buckets {
        assert!(b.point.likes >= 0, "no delta should be negative");
    }
}

#[test]
fn engagement_empty_snapshots_returns_no_rows() {
    let buckets = engagement_series(&vec![], None).unwrap();
    assert!(buckets.is_empty(), "post with no snapshots should produce no engagement rows");
}

#[test]
fn engagement_buckets_merge_posts_on_one_day() {
    let rows = vec![
        snapshot("p1", 3, 10),
        snapshot("p1", 1, 15),
        snapshot("p2", 3, 7),
        snapshot("p2", 1, 7),
    ];
    let buckets = engagement_series(&rows, None).unwrap();
    let pairs: Vec<(i64, i64)> = buckets.iter().map(|b| (b.bucket, b.point.likes)).collect();
    assert_eq!(pairs, vec![(TODAY - 3, 17), (TODAY - 1, 5)]);
}

#[test]
fn engagement_since_drops_earlier_captures_but_keeps_their_peak() {
    let rows = vec![snapshot("p1", 10, 100), snapshot("p1", 2, 130)];
    let since = Some((TODAY - 5) * DAY_MICROS);
    let buckets = engagement_series(&rows, since).unwrap();
    assert_eq!(buckets.len(), 1);
    assert_eq!(buckets[0].point.likes, 30);
}

#[test]
fn range_sum_overflow_is_reported() {
    let rows = vec![daily(TODAY, i64::MAX), daily(TODAY - 1, 1)];
    assert_eq!(sum_views(&rows, None), None);
    assert!(range_sums(&rows, TODAY).is_none());
}

#[test]
fn engagement_totals_add_up_to_each_posts_peak() {
    let rows = vec![
        snapshot("p1", 9, 100),
        snapshot("p1", 5, 80),
        snapshot("p1", 1, 150),
        snapshot("p2", 8, 40),
        snapshot("p2", 2, 90),
        snapshot("p3", 3, 5),
    ];
    let buckets = engagement_series(&rows, None).unwrap();
    assert_eq!(total_likes(&buckets), 150 + 90 + 5);
}
