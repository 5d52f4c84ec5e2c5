use postgraph_server::jobs::{plan_analysis, AnalysisPlan};
use postgraph_server::threads::{api_failure, history_window_step, post_insights_failure, token_refresh_failed, WindowStep};
use postgraph_server::dates::{debug_since, graph_cutoff, report_window, since_day, since_micros};
use postgraph_server::engagement::{engagement_history, interaction_total, PostSnapshot};
use postgraph_server::errors::{unparsable_reply, AppError};
use postgraph_server::health::{health_response, service_status, ServiceStatus};
use postgraph_server::heatmap::{activity_heatmap, heatmap_range_days, views_heatmap, ActivityRow};
use postgraph_server::histogram::{histograms, PostCounts};
use postgraph_server::jobs::{
    analysis_batch_size, category_colors, interactive_policy, log_metrics_progress, next_color,
    next_metrics_step, posts_for_analysis, scheduled_policy, should_auto_categorize,
    should_refresh_token, views_history_days, BatchLoop, CategoryGroup, LoopAction, MetricsAction,
    MetricsOutcome, MetricsRefresh,
};
use postgraph_server::llm::{
    analysis_messages, analysis_prompt, emotion_messages, first_choice_content, format_tag_list,
    insights_messages, join, strip_code_fences, INSIGHTS_CONTEXT_INTRO,
};
use postgraph_server::ranking::{highlights, rank_by_views};
use postgraph_server::reports::{
    check_insights_data, check_narrative_data, emotions_error, insights_response,
    narrative_response, no_narrative_yet, no_report_yet, EmotionNarrative, EmotionObservation,
    InsightsReport,
};
use postgraph_server::requests::{
    check_publishable, compose_gateway_error, inbox_status, still_claimed, validate_create,
    validate_reply, validate_update,
};
use postgraph_server::schedule::{next_run_at, schedule_zone, sleep_until};
use postgraph_server::subject_graph::subject_links;
use postgraph_server::subjects::{
    find_tag_by_name, node_query, subject_posts, NodeQuery, SubjectPostRow, Tag,
};
use postgraph_server::tasks::{
    analysis_busy, analysis_queued, categorize_blocked, categorize_count_failed,
    categorize_queued, progress_total, reanalysis_queued, reset_done, reset_refused,
    sync_failed, sync_report, truncate_statement, RESET_TABLES,
};
use postgraph_server::text::{format_i64, parse_i64, trim};
use postgraph_server::threads::{
    classify_status, daily_views_points, discovered_post, parse_end_time, parse_threads_timestamp, plan_page,
    post_insights, post_insights_url, post_timestamp, user_threads_url, views_history_windows,
    InsightData, InsightValue, InsightsResponse, Json, ThreadsCursors, ThreadsListResponse,
    ThreadsPaging, ThreadsPost, ThreadsStatus, Timestamp,
};
use postgraph_server::views::{cumulative_series, views_series, DailyViews};

/// 2024-01-15T10:30:00Z.
const JAN_15_1030: i64 = 1_705_314_600;

fn ts(secs: i64) -> Timestamp {
    Timestamp { secs, nanos: 0 }
}

fn strings(items: &[&str]) -> Vec<String> {
    items.iter().map(|s| s.to_string()).collect()
}

// ── text ─────────────────────────────────────────────────────────────

#[test]
fn integers_are_written_and_read_back() {
    assert_eq!(format_i64(-42), "-42");
    assert_eq!(format_i64(i64::MIN), "-9223372036854775808");
    assert_eq!(parse_i64("+17"), Some(17));
    assert_eq!(parse_i64("-9223372036854775808"), Some(i64::MIN));
    assert_eq!(parse_i64("9223372036854775808"), None);
    assert_eq!(parse_i64(""), None);
    assert_eq!(parse_i64(" 5"), None);
    for x in [0i64, 7, -7, 1234567, i64::MAX, i64::MIN] {
        assert_eq!(parse_i64(&format_i64(x)), Some(x));
    }
}

#[test]
fn trimming_drops_unicode_white_space() {
    assert_eq!(trim("  a b\u{3000}\n"), "a b");
    assert_eq!(trim(" \t "), "");
}

// ── llm ──────────────────────────────────────────────────────────────

#[test]
fn tag_lists_read_none_yet_when_empty() {
    assert_eq!(format_tag_list(&vec![]), "None yet");
    assert_eq!(format_tag_list(&strings(&["Humor", "Tip"])), "Humor, Tip");
    assert_eq!(join(&strings(&["a"]), "-"), "a");
}

#[test]
fn analysis_prompt_lists_tags_and_posts() {
    let posts = vec![("p1".to_string(), "hello".to_string())];
    let prompt = analysis_prompt(&posts, &vec![], &strings(&["Gaming"]));
    assert!(prompt.contains("Existing intents: None yet\nExisting subjects: Gaming\n\nPosts: ["));
    assert!(prompt.contains("\"id\": \"p1\""));
    assert!(prompt.contains("\"text\": \"hello\""));
    assert!(prompt.ends_with("\"emotion\": \"curious\"}]}"));
    let messages = analysis_messages(prompt.clone());
    assert_eq!(messages.len(), 1);
    assert_eq!(messages[0].role, "user");
    assert_eq!(messages[0].content, prompt);
}

#[test]
fn report_requests_carry_the_context() {
    let ms = insights_messages("{\"a\":1}");
    assert_eq!(ms[0].role, "system");
    assert_eq!(ms[1].role, "user");
    assert_eq!(ms[1].content, format!("{INSIGHTS_CONTEXT_INTRO}{{\"a\":1}}"));
    let ms = emotion_messages("[]");
    assert_eq!(ms[1].content, "Here is the emotion breakdown for the last 30 days:\n\n[]");
}

#[test]
fn replies_lose_their_code_fences() {
    assert_eq!(strip_code_fences("  ```json\n{\"a\":1}\n```  "), "{\"a\":1}");
    assert_eq!(strip_code_fences("```\n[1]\n```"), "[1]");
    assert_eq!(strip_code_fences(" {\"b\":2} "), "{\"b\":2}");
    assert_eq!(strip_code_fences("```json {\"c\":3}"), "{\"c\":3}");
    assert_eq!(strip_code_fences("```json\n{\"posts\":[]}"), "{\"posts\":[]}");
    assert_eq!(strip_code_fences("```\n[2]"), "[2]");
    assert_eq!(strip_code_fences("[3]\n```"), "[3]");
    assert_eq!(first_choice_content(&vec![]), "");
    assert_eq!(first_choice_content(&strings(&["x", "y"])), "x");
}

// ── threads ──────────────────────────────────────────────────────────

#[test]
fn threads_statuses_are_classified() {
    assert_eq!(classify_status(429), ThreadsStatus::RateLimited);
    assert_eq!(classify_status(204), ThreadsStatus::Success);
    assert_eq!(classify_status(500), ThreadsStatus::Failed);
}

#[test]
fn threads_urls_are_built() {
    assert_eq!(
        user_threads_url("tok", Some("abc")),
        "https://graph.threads.net/v1.0/me/threads?fields=id,text,media_type,media_url,timestamp,permalink&access_token=tok&after=abc"
    );
    assert_eq!(
        post_insights_url("42", "tok"),
        "https://graph.threads.net/v1.0/42/insights?metric=views,likes,replies,reposts,quotes,shares&access_token=tok"
    );
}

fn post(id: &str, media_type: Option<&str>) -> ThreadsPost {
    ThreadsPost {
        id: id.to_string(),
        text: None,
        media_type: media_type.map(|m| m.to_string()),
        media_url: None,
        timestamp: None,
        permalink: None,
    }
}

#[test]
fn discovery_skips_reposts_and_follows_cursors() {
    let page = ThreadsListResponse {
        data: vec![post("a", Some("TEXT_POST")), post("b", Some("REPOST_FACADE")), post("c", None)],
        paging: Some(ThreadsPaging {
            cursors: Some(ThreadsCursors { after: Some("cur".to_string()) }),
            next: Some("https://next".to_string()),
        }),
    };
    let plan = plan_page(&page);
    assert_eq!(plan.keep, vec![0, 2]);
    assert_eq!(plan.next_cursor.as_deref(), Some("cur"));
    assert!(plan.has_next);
    let last = ThreadsListResponse { data: vec![], paging: None };
    let plan = plan_page(&last);
    assert!(plan.keep.is_empty() && plan.next_cursor.is_none() && !plan.has_next);
}

fn metric(name: &str, total: Option<Json>, first: Option<Json>) -> InsightData {
    InsightData {
        name: name.to_string(),
        values: first.map(|v| vec![InsightValue { value: Some(v), end_time: None }]),
        total_value: total,
    }
}

#[test]
fn post_metrics_prefer_total_values() {
    let resp = InsightsResponse {
        data: vec![
            metric("views", None, Some(Json::Int(120))),
            metric("likes", Some(Json::Int(7)), Some(Json::Int(99))),
            metric(
                "replies",
                Some(Json::Object(vec![("value".to_string(), Json::Int(3))])),
                None,
            ),
            metric("reposts", Some(Json::Str("x".to_string())), None),
            metric("quotes", None, None),
            metric("likes", Some(Json::Int(8)), None),
        ],
    };
    let p = post_insights(&resp);
    assert_eq!((p.views, p.likes, p.replies, p.reposts, p.quotes, p.shares), (120, 8, 3, 0, 0, 0));
}

#[test]
fn threads_timestamps_parse_in_three_formats() {
    for text in ["2024-01-15T10:30:00Z", "2024-01-15T10:30:00+0000", "2024-01-15T10:30:00", "2024-01-15T12:30:00+02:00"] {
        let t = parse_threads_timestamp(text).unwrap();
        assert_eq!(t, ts(JAN_15_1030), "{text}");
    }
    assert_eq!(parse_threads_timestamp("2024-01-15T10:30:00.250Z").unwrap().nanos, 250_000_000);
    assert!(parse_threads_timestamp("yesterday").is_none());
    assert_eq!(post_timestamp(Some("nonsense"), ts(5)), ts(5));
    assert_eq!(post_timestamp(None, ts(6)), ts(6));
    assert_eq!(post_timestamp(Some("2024-01-15T10:30:00Z"), ts(6)), ts(JAN_15_1030));
}

#[test]
fn end_times_count_for_the_day_before() {
    // 2024-01-16 is day 19738 since 1970-01-01.
    assert_eq!(parse_end_time("2024-01-16T08:00:00+0000"), Some(19_737));
    assert_eq!(parse_end_time("2024-01-16T00:30:00+01:00"), Some(19_737));
    assert_eq!(parse_end_time("2024-01-16T23:30:00-08:00"), Some(19_737));
    assert_eq!(parse_end_time("2024-01-16"), None);
}

#[test]
fn daily_views_skip_zero_and_unparsable_values() {
    let values = vec![
        InsightValue { value: Some(Json::Int(10)), end_time: Some("2024-01-16T08:00:00+0000".to_string()) },
        InsightValue { value: Some(Json::Int(0)), end_time: Some("2024-01-17T08:00:00+0000".to_string()) },
        InsightValue { value: Some(Json::Int(5)), end_time: Some("bad".to_string()) },
        InsightValue { value: Some(Json::Int(3)), end_time: Some("2024-01-18T08:00:00+0000".to_string()) },
    ];
    let resp = InsightsResponse {
        data: vec![
            InsightData { name: "likes".to_string(), values: Some(vec![]), total_value: None },
            InsightData { name: "views".to_string(), values: Some(values), total_value: None },
        ],
    };
    assert_eq!(daily_views_points(&resp), vec![(19_737, 10), (19_739, 3)]);
}

#[test]
fn views_history_windows_cover_the_days_in_chunks() {
    let now = 1_000 * 86_400;
    let w = views_history_windows(now, Some(200));
    assert_eq!(
        w,
        vec![
            (now - 89 * 86_400, now),
            (now - 179 * 86_400, now - 90 * 86_400),
            (now - 200 * 86_400, now - 180 * 86_400),
        ]
    );
    assert_eq!(views_history_windows(now, Some(0)), vec![]);
    assert_eq!(views_history_windows(now, None).len(), 9);
}

// ── views, heatmaps, histograms ──────────────────────────────────────

fn daily(day: i64, views: i64) -> DailyViews {
    DailyViews { date: format!("d{day}"), day, views }
}

#[test]
fn views_series_and_growth_follow_the_window() {
    let rows = vec![daily(1, 5), daily(2, 7), daily(3, 11)];
    let points = views_series(&rows, Some(2));
    let got: Vec<(String, i64)> = points.into_iter().map(|p| (p.date, p.views)).collect();
    assert_eq!(got, vec![("d2".to_string(), 7), ("d3".to_string(), 11)]);
    let growth = cumulative_series(&rows, None).unwrap();
    let got: Vec<i64> = growth.iter().map(|p| p.cumulative_views).collect();
    assert_eq!(got, vec![5, 12, 23]);
    let reach = views_heatmap(&rows, Some(3));
    assert_eq!(reach.days.len(), 1);
    assert_eq!((reach.days[0].views, reach.days[0].posts), (11, 0));
}

#[test]
fn heatmap_ranges_are_named() {
    assert_eq!(heatmap_range_days(Some("3m")), Some(90));
    assert_eq!(heatmap_range_days(Some("6m")), Some(180));
    assert_eq!(heatmap_range_days(Some("all")), None);
    assert_eq!(heatmap_range_days(Some("1y")), Some(365));
    assert_eq!(heatmap_range_days(None), Some(365));
}

fn activity(day: i64, posts: i64, likes: i64, media: Option<&str>) -> ActivityRow {
    ActivityRow {
        date: format!("d{day}"),
        day,
        posts,
        likes,
        replies: 1,
        reposts: 0,
        media_type: media.map(|m| m.to_string()),
    }
}

#[test]
fn activity_heatmap_merges_media_types_per_day() {
    let rows = vec![
        activity(5, 2, 10, Some("TEXT_POST")),
        activity(3, 1, 4, None),
        activity(5, 1, 6, Some("IMAGE")),
    ];
    let (keys, h) = activity_heatmap(&rows).unwrap();
    assert_eq!(keys, vec![3, 5]);
    assert_eq!(h.days[1].date, "d5");
    assert_eq!((h.days[1].posts, h.days[1].likes, h.days[1].replies), (3, 16, 2));
    let mut media = h.days[1].media_types.clone();
    media.sort();
    assert_eq!(media, vec![("IMAGE".to_string(), 1), ("TEXT_POST".to_string(), 2)]);
    assert!(h.days[0].media_types.is_empty());
    let too_big = vec![activity(1, i64::MAX, 0, None), activity(1, 1, 0, None)];
    assert!(activity_heatmap(&too_big).is_none());
}

fn counts(timestamp: i64, views: i32, likes: i32) -> PostCounts {
    PostCounts { timestamp, views, likes, replies: 0, reposts: 0, quotes: 0 }
}

#[test]
fn histograms_count_each_post_once() {
    let posts = vec![counts(10, 0, 0), counts(20, 150, 3), counts(30, 2_000_000, 1_200), counts(1, 50, 50)];
    let h = histograms(&posts, Some(5)).unwrap();
    let engagement: Vec<i64> = h.engagement.iter().map(|b| b.count).collect();
    assert_eq!(engagement, vec![1, 1, 0, 0, 0, 0, 0, 0, 0, 1]);
    let views: Vec<i64> = h.views.iter().map(|b| b.count).collect();
    assert_eq!(views, vec![1, 0, 1, 0, 0, 0, 0, 0, 1]);
    assert_eq!(h.engagement[8].label, "501-1k");
    assert_eq!(h.views[8].label, "100k+");
    assert_eq!(engagement.iter().sum::<i64>(), 3);
}

// ── ranking and the subject graph ────────────────────────────────────

#[test]
fn posts_rank_by_views_stably() {
    let order = rank_by_views(&vec![5, 9, 5, 1, 9, 3, 2, 8]);
    assert_eq!(order, vec![1, 4, 7, 0, 2, 5, 6, 3]);
    let (top, bottom) = highlights(&order);
    assert_eq!(top, vec![1, 4, 7, 0, 2]);
    assert_eq!(bottom, vec![3, 6, 5, 2, 0]);
    let (top, bottom) = highlights(&vec![2, 0]);
    assert_eq!((top, bottom), (vec![2, 0], vec![0, 2]));
}

#[test]
fn subjects_link_on_two_shared_intents() {
    let intents = vec![vec![1u128, 2, 3], vec![2u128, 3, 3], vec![3u128], vec![1u128, 2]];
    let links = subject_links(&intents, 3);
    let got: Vec<(usize, usize, u64)> = links.iter().map(|l| (l.source, l.target, l.shared_intents)).collect();
    assert_eq!(got, vec![(0, 1, 2), (0, 3, 2)]);
    assert!(subject_links(&intents, 0).is_empty());
}

#[test]
fn graph_nodes_follow_the_intent_filter() {
    assert_eq!(node_query(false, None), NodeQuery::AllSubjects);
    assert_eq!(node_query(true, Some(7)), NodeQuery::ForIntent(7));
    assert_eq!(node_query(true, None), NodeQuery::NoNodes);
}

fn tag(id: u128, name: &str) -> Tag {
    Tag { id, name: name.to_string() }
}

#[test]
fn subject_posts_name_their_intents() {
    let intents = vec![tag(1, "Humor"), tag(2, "Tip"), tag(2, "Shadowed")];
    assert_eq!(find_tag_by_name(&intents, "Tip"), Some(2));
    assert_eq!(find_tag_by_name(&intents, "Rant"), None);
    let row = |id: &str, intent: Option<u128>| SubjectPostRow {
        id: id.to_string(),
        text: Some("t".to_string()),
        intent_id: intent,
        likes: 1,
        replies_count: 2,
        reposts: 3,
        quotes: 4,
        views: 50,
        timestamp: ts(JAN_15_1030),
    };
    let rows = vec![row("a", Some(2)), row("b", None), row("c", Some(9))];
    let resp = subject_posts("Gaming".to_string(), &rows, &intents).unwrap();
    assert_eq!(resp.subject, "Gaming");
    let got: Vec<(&str, &str, i64)> = resp.posts.iter().map(|p| (p.id.as_str(), p.intent.as_str(), p.engagement)).collect();
    assert_eq!(got, vec![("a", "Tip", 10), ("b", "", 10), ("c", "", 10)]);
    assert_eq!(resp.posts[0].timestamp, "2024-01-15T10:30:00+00:00");
}

// ── requests ─────────────────────────────────────────────────────────

#[test]
fn compose_requests_are_checked() {
    assert_eq!(validate_create("hi", None, false).unwrap(), "draft");
    assert_eq!(validate_create("hi", Some("scheduled"), true).unwrap(), "scheduled");
    assert_eq!(validate_create("", None, false).unwrap_err().error, "Text cannot be empty");
    let long = "x".repeat(501);
    assert_eq!(validate_create(&long, None, false).unwrap_err().error, "Text exceeds 500 character limit");
    assert!(validate_create(&"é".repeat(500), None, false).is_ok());
    assert_eq!(
        validate_create("hi", Some("published"), false).unwrap_err().error,
        "Status must be 'draft' or 'scheduled'"
    );
    assert_eq!(
        validate_create("hi", Some("scheduled"), false).unwrap_err().error,
        "scheduled_at is required when status is 'scheduled'"
    );
    assert_eq!(validate_update(None, Some("failed")).unwrap_err().error, "Invalid status");
    assert!(validate_update(Some("ok"), Some("cancelled")).is_ok());
    assert_eq!(validate_update(Some(""), Some("bogus")).unwrap_err().error, "Text cannot be empty");
}

#[test]
fn publishing_is_refused_by_status() {
    assert_eq!(check_publishable("published").unwrap_err().error, "Post is already published");
    assert_eq!(check_publishable("publishing").unwrap_err().error, "Post is currently being published");
    assert_eq!(check_publishable("cancelled").unwrap_err().error, "Cannot publish a cancelled post");
    assert!(check_publishable("draft").is_ok());
    assert!(still_claimed(Some("publishing")));
    assert!(!still_claimed(Some("cancelled")));
    assert!(still_claimed(None));
    let e = compose_gateway_error(&AppError::ThreadsApi("boom".to_string()));
    assert_eq!(e.error, "Threads API error: Threads API error: boom");
}

#[test]
fn replies_are_checked() {
    assert_eq!(validate_reply(" \n ").unwrap_err().error, "Reply text cannot be empty");
    assert_eq!(validate_reply(&"y".repeat(501)).unwrap_err().error, "Reply exceeds 500 character limit");
    assert!(validate_reply("thanks").is_ok());
    assert_eq!(inbox_status(None), "unreplied");
    assert_eq!(inbox_status(Some("replied")), "replied");
}

// ── tasks and jobs ───────────────────────────────────────────────────

#[test]
fn task_answers_name_their_counts() {
    assert!(!analysis_busy().started);
    assert_eq!(analysis_busy().message, "Analysis already in progress");
    assert_eq!(analysis_queued(12).message, "12 posts queued for analysis");
    assert_eq!(reanalysis_queued(3).message, "3 posts queued for reanalysis");
    assert_eq!(categorize_queued(-1).message, "-1 topics queued for categorization");
    assert_eq!(categorize_blocked().message, "Analysis in progress...");
    assert_eq!(categorize_count_failed("db down").message, "Failed to count topics: db down");
    assert_eq!(progress_total(4_294_967_297), 1);
    assert_eq!(progress_total(-1), u32::MAX);
    assert_eq!(sync_failed("oops"), "Sync failed: oops");
    assert!(!reset_refused().success);
    assert_eq!(reset_done().message, "Database reset. Trigger a sync to re-fetch all data.");
    assert_eq!(truncate_statement(RESET_TABLES[0]), "TRUNCATE engagement_snapshots CASCADE");
}

#[test]
fn sync_report_lists_each_phase() {
    assert_eq!(
        sync_report(4, &Ok(10), &Ok(7)),
        "Done! 4 discovered, 10 metrics refreshed, 7 days synced"
    );
    assert_eq!(
        sync_report(0, &Err("x".to_string()), &Err("y".to_string())),
        "Done! 0 discovered, metrics failed: x, daily views failed: y"
    );
}

#[test]
fn batch_size_reads_the_setting() {
    assert_eq!(analysis_batch_size(None), 16);
    assert_eq!(analysis_batch_size(Some("40")), 40);
    assert_eq!(analysis_batch_size(Some("forty")), 16);
}

#[test]
fn only_posts_with_text_go_to_the_llm() {
    let posts = vec![
        ("a".to_string(), Some("one".to_string())),
        ("b".to_string(), None),
        ("c".to_string(), Some("".to_string())),
    ];
    let picked = posts_for_analysis(&posts);
    assert_eq!(picked, vec![("a".to_string(), "one".to_string()), ("c".to_string(), String::new())]);
}

#[test]
fn interactive_analysis_backs_off_and_stops_after_ten_failures() {
    let mut l = BatchLoop::new(interactive_policy());
    assert_eq!(l.on_batch(4), LoopAction::Pause(500));
    assert_eq!(l.total, 4);
    let mut pauses = Vec::new();
    let mut last = LoopAction::Stop;
    for _ in 0..10 {
        last = l.on_failure();
        if let LoopAction::Pause(ms) = last {
            pauses.push(ms);
        }
    }
    assert_eq!(pauses, vec![2_000, 4_000, 8_000, 16_000, 32_000, 64_000, 64_000, 64_000, 64_000]);
    assert_eq!(last, LoopAction::Stop);
    assert_eq!(l.on_batch(0), LoopAction::Stop);
}

#[test]
fn scheduled_analysis_stops_after_three_failures() {
    let mut l = BatchLoop::new(scheduled_policy());
    assert_eq!(l.on_failure(), LoopAction::Pause(2_000));
    assert_eq!(l.on_batch(1), LoopAction::Pause(0));
    assert_eq!(l.on_failure(), LoopAction::Pause(2_000));
    assert_eq!(l.on_failure(), LoopAction::Pause(2_000));
    assert_eq!(l.on_failure(), LoopAction::Stop);
    assert!(should_auto_categorize(0, 3));
    assert!(!should_auto_categorize(2, 3));
    assert!(!should_auto_categorize(0, 0));
}

#[test]
fn metrics_refresh_retries_rate_limits_three_times() {
    assert_eq!(next_metrics_step(0, MetricsOutcome::RateLimited(60)), (MetricsAction::Wait(60), 1));
    assert_eq!(next_metrics_step(3, MetricsOutcome::RateLimited(60)), (MetricsAction::Skip, 4));
    let mut r = MetricsRefresh::new(2);
    for _ in 0..3 {
        let s = r.on_outcome(MetricsOutcome::RateLimited(5));
        assert_eq!(s.action, MetricsAction::Wait(5));
        assert_eq!(s.finished, None);
    }
    let s = r.on_outcome(MetricsOutcome::RateLimited(5));
    assert_eq!((s.action, s.finished), (MetricsAction::Skip, Some((1, false))));
    let s = r.on_outcome(MetricsOutcome::Fetched);
    assert_eq!((s.action, s.finished), (MetricsAction::Store, Some((2, false))));
    assert!(r.is_finished());
    assert_eq!((r.done, r.updated, r.retries), (2, 1, 0));
    assert!(log_metrics_progress(50));
    assert!(!log_metrics_progress(51));
}

#[test]
fn history_depth_and_token_refresh() {
    assert_eq!(views_history_days(true), 7);
    assert_eq!(views_history_days(false), 730);
    let now = 1_000_000;
    assert!(should_refresh_token(Some(now + 6 * 86_400), now));
    assert!(!should_refresh_token(Some(now + 7 * 86_400), now));
    assert!(!should_refresh_token(None, now));
}

#[test]
fn new_categories_take_the_next_colours() {
    assert_eq!(next_color(0), "#e6194b");
    assert_eq!(next_color(16), "#3cb44b");
    let existing = vec![
        ("Tech".to_string(), Some("#111111".to_string())),
        ("Life".to_string(), None),
    ];
    let group = |name: &str| CategoryGroup { name: name.to_string(), description: String::new(), topics: vec![] };
    let groups = vec![group("Art"), group("Tech"), group("Life")];
    assert_eq!(category_colors(&existing, &groups), strings(&["#4363d8", "#111111", "#f58231"]));
}

// ── reports, errors and dates ────────────────────────────────────────

#[test]
fn reports_need_five_posts() {
    assert!(check_insights_data(5).is_ok());
    match check_insights_data(3) {
        Err(AppError::MercuryApi(m)) => {
            assert_eq!(m, "Insufficient data: need at least 5 posts in the last 30 days, found 3")
        }
        _ => panic!("expected an error"),
    }
    assert!(check_narrative_data(9).is_ok());
    let e = check_narrative_data(0).unwrap_err();
    assert_eq!(
        e.message(),
        "Mercury API error: Insufficient data: need at least 5 posts with emotions in the last 30 days, found 0"
    );
    assert_eq!(emotions_error(&e).error, e.message());
    assert_eq!(no_narrative_yet().error, "No emotion narrative generated yet");
    assert_eq!(no_report_yet().error, "No insights report generated yet");
}

#[test]
fn errors_show_their_kind() {
    assert_eq!(AppError::RateLimited(60).message(), "Rate limited, retry after 60s");
    assert_eq!(AppError::Database("gone".to_string()).message(), "Database error: gone");
    assert_eq!(AppError::Http("t".to_string()).message(), "HTTP error: t");
    assert_eq!(AppError::Json("j".to_string()).message(), "JSON error: j");
    let e = unparsable_reply("response", "EOF", "{");
    assert_eq!(e.message(), "Mercury API error: Failed to parse response: EOF. Raw: {");
}

#[test]
fn stored_reports_show_their_time() {
    let narrative = EmotionNarrative {
        headline: "h".to_string(),
        observations: vec![EmotionObservation {
            text: "t".to_string(),
            cited_posts: strings(&["p"]),
            emotion: "curious".to_string(),
        }],
    };
    let r = narrative_response("id1".to_string(), &ts(JAN_15_1030), "manual".to_string(), narrative).unwrap();
    assert_eq!(r.generated_at, "2024-01-15T10:30:00+00:00");
    assert_eq!((r.id.as_str(), r.trigger_type.as_str()), ("id1", "manual"));
    assert_eq!(r.narrative.observations.len(), 1);
    let report = InsightsReport { headline: "x".to_string(), sections: vec![] };
    assert!(insights_response("i".to_string(), &ts(i64::MAX / 2), "nightly".to_string(), report).is_none());
}

#[test]
fn report_windows_and_cutoffs() {
    let (start, end) = report_window(&ts(JAN_15_1030)).unwrap();
    assert_eq!((start.as_str(), end.as_str()), ("2023-12-16", "2024-01-15"));
    assert_eq!(graph_cutoff(Some(2), &ts(JAN_15_1030)), Some(ts(JAN_15_1030 - 2 * 86_400)));
    assert_eq!(graph_cutoff(None, &ts(JAN_15_1030)), None);
    assert_eq!(debug_since(Some("2024-01-01T00:00:00+01:00"), &ts(0)), ts(1_704_063_600));
    assert_eq!(debug_since(Some("junk"), &ts(JAN_15_1030)), ts(JAN_15_1030 - 86_400));
    assert_eq!(debug_since(None, &ts(86_400)), ts(0));
}

#[test]
fn post_history_is_written_to_the_second() {
    let snaps = vec![PostSnapshot {
        captured_at: Timestamp { secs: JAN_15_1030 + 5, nanos: 900_000_000 },
        views: 1,
        likes: 2,
        replies_count: 3,
        reposts: 4,
        quotes: 5,
    }];
    let points = engagement_history(&snaps).unwrap();
    assert_eq!(points[0].date, "2024-01-15T10:30:05Z");
    assert_eq!((points[0].views, points[0].replies, points[0].quotes), (1, 3, 5));
}

#[test]
fn health_is_degraded_when_a_service_fails() {
    let all_ok = health_response(ServiceStatus::ok(), ServiceStatus::ok(), ServiceStatus::ok());
    assert_eq!(all_ok.status, "ok");
    let one_down = health_response(
        ServiceStatus::ok(),
        ServiceStatus::err("timeout".to_string()),
        ServiceStatus::ok(),
    );
    assert_eq!(one_down.status, "degraded");
    assert_eq!(one_down.threads_api.status, "error");
    assert_eq!(one_down.threads_api.error.as_deref(), Some("timeout"));
}

// ── schedule ─────────────────────────────────────────────────────────

#[test]
fn nightly_run_is_at_the_next_2am() {
    assert_eq!(schedule_zone(None), "UTC");
    assert_eq!(schedule_zone(Some("Europe/Berlin")), "Europe/Berlin");
    assert_eq!(schedule_zone(Some("Mars/Olympus")), "UTC");
    // 10:30 UTC: the next 2am is tomorrow's.
    assert_eq!(next_run_at("UTC", &ts(JAN_15_1030)), Some(1_705_370_400));
    // 01:00 UTC: today's 2am is still ahead.
    assert_eq!(next_run_at("UTC", &ts(1_705_280_400)), Some(1_705_284_000));
    // Berlin is an hour ahead in January: 2am there is 01:00 UTC.
    assert_eq!(next_run_at("Europe/Berlin", &ts(JAN_15_1030)), Some(1_705_366_800));
}

#[test]
fn nightly_run_moves_to_3am_when_clocks_skip_2am() {
    // 2024-03-09 12:00 in New York; 2am of 2024-03-10 does not exist there.
    assert_eq!(next_run_at("America/New_York", &ts(1_710_003_600)), Some(1_710_054_000));
}

#[test]
fn sleep_until_the_run_or_a_minute() {
    assert_eq!(sleep_until(100, &Timestamp { secs: 40, nanos: 500_000_000 }), (59, 500_000_000));
    assert_eq!(sleep_until(100, &ts(100)), (0, 0));
    assert_eq!(sleep_until(100, &Timestamp { secs: 100, nanos: 1 }), (60, 0));
    assert_eq!(sleep_until(100, &ts(200)), (60, 0));
}

#[test]
fn sharing_does_not_depend_on_subject_order() {
    let a = vec![4u128, 4, 9, 2];
    let b = vec![2u128, 9, 7];
    let forward = subject_links(&vec![a.clone(), b.clone()], 5);
    let backward = subject_links(&vec![b, a], 5);
    assert_eq!(forward.len(), 1);
    assert_eq!(backward.len(), 1);
    assert_eq!(forward[0].shared_intents, 2);
    assert_eq!(backward[0].shared_intents, 2);
}

#[test]
fn metrics_refresh_ends_within_four_attempts_a_post() {
    let mut r = MetricsRefresh::new(3);
    let mut attempts = 0;
    while !r.is_finished() {
        r.on_outcome(MetricsOutcome::RateLimited(1));
        attempts += 1;
    }
    assert_eq!(attempts, 12);
    assert_eq!((r.done, r.updated), (3, 0));
}

#[test]
fn discovered_posts_keep_their_fields_and_time() {
    let mut tp = post("p9", Some("IMAGE"));
    tp.text = Some("hi".to_string());
    tp.timestamp = Some("2024-01-15T10:30:00+0000".to_string());
    let found = discovered_post(&tp, ts(1));
    assert_eq!((found.id.as_str(), found.text.as_deref(), found.media_type.as_deref()), ("p9", Some("hi"), Some("IMAGE")));
    assert_eq!(found.timestamp, ts(JAN_15_1030));
    tp.timestamp = Some("soon".to_string());
    assert_eq!(discovered_post(&tp, ts(1)).timestamp, ts(1));
}

#[test]
fn interaction_totals_are_never_negative() {
    assert_eq!(interaction_total(1, 2, 3, 4), 10);
    assert_eq!(interaction_total(0, 0, 0, 0), 0);
    assert_eq!(interaction_total(-5, 1, 1, 1), 0);
}

#[test]
fn activity_days_add_up_to_all_groups() {
    let rows = vec![
        activity(9, 4, 1, Some("IMAGE")),
        activity(2, 3, 2, None),
        activity(9, 5, 3, Some("VIDEO")),
        activity(4, 1, 4, Some("IMAGE")),
    ];
    let (_, h) = activity_heatmap(&rows).unwrap();
    assert_eq!(h.days.iter().map(|d| d.posts).sum::<i64>(), 13);
    assert_eq!(h.days.iter().map(|d| d.likes).sum::<i64>(), 10);
    assert_eq!(h.days.iter().map(|d| d.replies).sum::<i64>(), 4);
}

#[test]
fn chart_windows_read_their_since_parameter() {
    assert_eq!(since_day(Some("2024-01-16T00:30:00+01:00")), Some(19_738));
    assert_eq!(since_day(Some("2024-01-15T23:30:00-01:00")), Some(19_737));
    assert_eq!(since_day(Some("16 Jan")), None);
    assert_eq!(since_day(None), None);
    assert_eq!(since_micros(Some("2024-01-15T10:30:00.000250Z")), Some(JAN_15_1030 * 1_000_000 + 250));
    assert_eq!(since_micros(None), None);
}

#[test]
fn probes_become_service_statuses() {
    let up = service_status(Ok(()));
    assert_eq!((up.status, up.error), ("ok", None));
    let down = service_status(Err("refused".to_string()));
    assert_eq!((down.status, down.error.as_deref()), ("error", Some("refused")));
}

#[test]
fn analysis_batches_are_planned() {
    assert!(matches!(plan_analysis(&vec![]), AnalysisPlan::Nothing));
    let textless = vec![("a".to_string(), None), ("b".to_string(), None)];
    assert!(matches!(plan_analysis(&textless), AnalysisPlan::MarkNeutral(2)));
    let mixed = vec![("a".to_string(), None), ("b".to_string(), Some("hi".to_string()))];
    match plan_analysis(&mixed) {
        AnalysisPlan::Ask(posts) => assert_eq!(posts, vec![("b".to_string(), "hi".to_string())]),
        other => panic!("unexpected plan {other:?}"),
    }
}

#[test]
fn threads_failures_become_errors() {
    assert!(api_failure(200, String::new()).is_none());
    assert!(matches!(api_failure(429, String::new()), Some(AppError::RateLimited(60))));
    assert!(matches!(api_failure(500, "down".to_string()), Some(AppError::ThreadsApi(m)) if m == "down"));
    assert!(post_insights_failure(201, "201 Created").is_none());
    assert!(matches!(post_insights_failure(429, "429 Too Many Requests"), Some(AppError::RateLimited(60))));
    assert!(matches!(post_insights_failure(404, "404 Not Found"),
        Some(AppError::ThreadsApi(m)) if m == "Insights unavailable (HTTP 404 Not Found)"));
    assert_eq!(token_refresh_failed("expired").message(), "Threads API error: Token refresh failed: expired");
    assert!(matches!(history_window_step(200), WindowStep::Read));
    assert!(matches!(history_window_step(429), WindowStep::Fail(AppError::RateLimited(60))));
    assert!(matches!(history_window_step(400), WindowStep::Stop));
}
