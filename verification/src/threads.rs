//! The Threads API as the sync jobs read it: the requests' URLs, how a
//! response status is taken, paging through the user's posts, reading the
//! metrics of a post, the time windows of the daily-views history and the
//! days its values belong to, and the timestamps of posts.
use vstd::prelude::*;
use crate::text::{str_eq, format_i64, decimal_text};
use crate::errors::AppError;

verus! {

/// Where the Threads Graph API lives.
pub const BASE_URL: &'static str = "https://graph.threads.net/v1.0";

/// A post as the Threads API lists it.
#[derive(Debug)]
pub struct ThreadsPost {
    pub id: String,
    pub text: Option<String>,
    pub media_type: Option<String>,
    pub media_url: Option<String>,
    pub timestamp: Option<String>,
    pub permalink: Option<String>,
}

/// Cursors of a page of posts.
#[derive(Debug)]
pub struct ThreadsCursors {
    pub after: Option<String>,
}

/// Paging information of a page of posts.
#[derive(Debug)]
pub struct ThreadsPaging {
    pub cursors: Option<ThreadsCursors>,
    pub next: Option<String>,
}

/// A page of the user's posts.
#[derive(Debug)]
pub struct ThreadsListResponse {
    pub data: Vec<ThreadsPost>,
    pub paging: Option<ThreadsPaging>,
}

/// A JSON value, as far as the insights endpoints need one: integers that
/// fit in an `i64` are kept, other numbers are only known to be numbers.
#[derive(Debug)]
pub enum Json {
    Null,
    Bool(bool),
    Int(i64),
    OtherNumber,
    Str(String),
    Array(Vec<Json>),
    Object(Vec<(String, Json)>),
}

/// One value of an insights metric.
#[derive(Debug)]
pub struct InsightValue {
    pub value: Option<Json>,
    pub end_time: Option<String>,
}

/// One metric of an insights response; some metrics give `total_value`
/// instead of `values`.
#[derive(Debug)]
pub struct InsightData {
    pub name: String,
    pub values: Option<Vec<InsightValue>>,
    pub total_value: Option<Json>,
}

/// An insights response.
#[derive(Debug)]
pub struct InsightsResponse {
    pub data: Vec<InsightData>,
}

/// The metrics of one post.
#[derive(Debug)]
pub struct PostInsights {
    pub views: i32,
    pub likes: i32,
    pub replies: i32,
    pub reposts: i32,
    pub quotes: i32,
    pub shares: i32,
}

/// How a Threads API response status is taken.
#[derive(Debug, Clone, Copy, PartialEq, Eq, Structural)]
pub enum ThreadsStatus {
    Success,
    RateLimited,
    Failed,
}

/// Seconds to wait after a 429 from the Threads API.
pub const RATE_LIMIT_WAIT_SECS: u64 = 60;

/// 429 is a rate limit, 2xx a success, anything else a failure.
pub fn classify_status(code: u16) -> (s: ThreadsStatus)
    ensures
        code == 429 ==> s is RateLimited,
        200 <= code <= 299 ==> s is Success,
        code != 429 && !(200 <= code <= 299) ==> s is Failed,
{
    if code == 429 {
        ThreadsStatus::RateLimited
    } else if 200 <= code && code <= 299 {
        ThreadsStatus::Success
    } else {
        ThreadsStatus::Failed
    }
}

/// The error of a Threads API response with status `code` and body `body`:
/// none for a success, a rate limit of 60 seconds for 429, else the body as
/// a Threads API error.
pub fn api_failure(code: u16, body: String) -> (r: Option<AppError>)
    ensures
        200 <= code <= 299 ==> r is None,
        code == 429 ==> r == Some(AppError::RateLimited(RATE_LIMIT_WAIT_SECS)),
        code != 429 && !(200 <= code <= 299) ==> r == Some(AppError::ThreadsApi(body)),
{
    match classify_status(code) {
        ThreadsStatus::Success => None,
        ThreadsStatus::RateLimited => Some(AppError::RateLimited(RATE_LIMIT_WAIT_SECS)),
        ThreadsStatus::Failed => Some(AppError::ThreadsApi(body)),
    }
}

/// The error of a post's metrics response with status `code`, written
/// `status_text` (such as "404 Not Found"): none for a success, a rate
/// limit for 429, else "Insights unavailable (HTTP ..)".
pub fn post_insights_failure(code: u16, status_text: &str) -> (r: Option<AppError>)
    ensures
        200 <= code <= 299 ==> r is None,
        code == 429 ==> r == Some(AppError::RateLimited(RATE_LIMIT_WAIT_SECS)),
        code != 429 && !(200 <= code <= 299) ==> (r matches Some(AppError::ThreadsApi(m))
            && m@ == "Insights unavailable (HTTP "@ + status_text@ + ")"@),
{
    match classify_status(code) {
        ThreadsStatus::Success => None,
        ThreadsStatus::RateLimited => Some(AppError::RateLimited(RATE_LIMIT_WAIT_SECS)),
        ThreadsStatus::Failed => {
            let mut m = String::from_str("Insights unavailable (HTTP ");
            m.append(status_text);
            m.append(")");
            Some(AppError::ThreadsApi(m))
        },
    }
}

/// The error of a failed token refresh, with the response's body.
pub fn token_refresh_failed(body: &str) -> (e: AppError)
    ensures
        e matches AppError::ThreadsApi(m) && m@ == "Token refresh failed: "@ + body@,
{
    let mut m = String::from_str("Token refresh failed: ");
    m.append(body);
    AppError::ThreadsApi(m)
}

/// What the walk through the views-history windows does with a response.
#[derive(Debug)]
pub enum WindowStep {
    /// Read the window's values and go on to the next window.
    Read,
    /// Stop the walk, keeping the values read so far.
    Stop,
    /// End the walk with this error.
    Fail(AppError),
}

/// A success is read, a 429 ends the walk with a rate limit of 60 seconds,
/// any other status stops it with the values read so far.
pub fn history_window_step(code: u16) -> (w: WindowStep)
    ensures
        200 <= code <= 299 ==> w is Read,
        code == 429 ==> w == WindowStep::Fail(AppError::RateLimited(RATE_LIMIT_WAIT_SECS)),
        code != 429 && !(200 <= code <= 299) ==> w is Stop,
{
    match classify_status(code) {
        ThreadsStatus::Success => WindowStep::Read,
        ThreadsStatus::RateLimited => WindowStep::Fail(AppError::RateLimited(RATE_LIMIT_WAIT_SECS)),
        ThreadsStatus::Failed => WindowStep::Stop,
    }
}

// ── URLs ─────────────────────────────────────────────────────────────

/// The URL that lists the user's posts, after `cursor` where given.
pub fn user_threads_url(token: &str, cursor: Option<&str>) -> (u: String)
    ensures
        u@ == BASE_URL@ + "/me/threads?fields=id,text,media_type,media_url,timestamp,permalink&access_token="@
            + token@ + match cursor {
            Some(c) => "&after="@ + c@,
            None => Seq::empty(),
        },
{
    let mut u = String::from_str(BASE_URL);
    u.append("/me/threads?fields=id,text,media_type,media_url,timestamp,permalink&access_token=");
    u.append(token);
    match cursor {
        Some(c) => {
            u.append("&after=");
            u.append(c);
        },
        None => {},
    }
    u
}

/// The URL of a post's metrics.
pub fn post_insights_url(post_id: &str, token: &str) -> (u: String)
    ensures
        u@ == BASE_URL@ + "/"@ + post_id@ + "/insights?metric=views,likes,replies,reposts,quotes,shares&access_token="@
            + token@,
{
    let mut u = String::from_str(BASE_URL);
    u.append("/");
    u.append(post_id);
    u.append("/insights?metric=views,likes,replies,reposts,quotes,shares&access_token=");
    u.append(token);
    u
}

/// The URL of the user's daily views between two instants (seconds).
pub fn user_insights_url(since: i64, until: i64, token: &str) -> (u: String)
    ensures
        u@ == BASE_URL@ + "/me/threads_insights?metric=views&since="@ + decimal_text(since as int)
            + "&until="@ + decimal_text(until as int) + "&access_token="@ + token@,
{
    let mut u = String::from_str(BASE_URL);
    u.append("/me/threads_insights?metric=views&since=");
    let s = format_i64(since);
    u.append(s.as_str());
    u.append("&until=");
    let t = format_i64(until);
    u.append(t.as_str());
    u.append("&access_token=");
    u.append(token);
    u
}

/// The URL that exchanges the long-lived token for a fresh one.
pub fn refresh_token_url(token: &str) -> (u: String)
    ensures
        u@ == BASE_URL@ + "/refresh_access_token?grant_type=th_refresh_token&access_token="@ + token@,
{
    let mut u = String::from_str(BASE_URL);
    u.append("/refresh_access_token?grant_type=th_refresh_token&access_token=");
    u.append(token);
    u
}

/// The URL of the connectivity check.
pub fn health_url(token: &str) -> (u: String)
    ensures
        u@ == BASE_URL@ + "/me?fields=id&access_token="@ + token@,
{
    let mut u = String::from_str(BASE_URL);
    u.append("/me?fields=id&access_token=");
    u.append(token);
    u
}

// ── Paging ───────────────────────────────────────────────────────────

/// A post is a repost facade, which discovery skips.
pub open spec fn is_repost(p: ThreadsPost) -> bool {
    p.media_type matches Some(m) && m@ == "REPOST_FACADE"@
}

/// What discovery does with a page: the positions of the posts to store,
/// the cursor to store, and whether another page follows.
#[derive(Debug)]
pub struct PagePlan {
    pub keep: Vec<usize>,
    pub next_cursor: Option<String>,
    pub has_next: bool,
}

/// The positions of the posts of `data` that are not reposts, in order.
pub open spec fn kept_positions(data: Seq<ThreadsPost>, n: int) -> Seq<usize>
    decreases n,
{
    if n <= 0 {
        Seq::empty()
    } else if is_repost(data[n - 1]) {
        kept_positions(data, n - 1)
    } else {
        kept_positions(data, n - 1).push((n - 1) as usize)
    }
}

/// The cursor after a page, where it gives one.
pub open spec fn next_cursor_of(resp: ThreadsListResponse) -> Option<Seq<char>> {
    match resp.paging {
        Some(p) => match p.cursors {
            Some(c) => match c.after {
                Some(a) => Some(a@),
                None => None,
            },
            None => None,
        },
        None => None,
    }
}

/// Plans the storing of a page: every post but the reposts; the page's
/// `after` cursor; another page follows where the page has a `next` link.
pub fn plan_page(resp: &ThreadsListResponse) -> (p: PagePlan)
    ensures
        p.keep@ == kept_positions(resp.data@, resp.data@.len() as int),
        match p.next_cursor {
            Some(c) => next_cursor_of(*resp) == Some(c@),
            None => next_cursor_of(*resp) is None,
        },
        p.has_next == (resp.paging matches Some(pg) && pg.next is Some),
{
    proof { reveal_strlit("REPOST_FACADE"); }
    let mut keep: Vec<usize> = Vec::new();
    let mut i: usize = 0;
    while i < resp.data.len()
        invariant
            i <= resp.data@.len(),
            keep@ == kept_positions(resp.data@, i as int),
        decreases resp.data.len() - i,
    {
        let repost = match &resp.data[i].media_type {
            Some(m) => str_eq(m.as_str(), "REPOST_FACADE"),
            None => false,
        };
        if !repost {
            keep.push(i);
        }
        i = i + 1;
    }
    let next_cursor = match &resp.paging {
        Some(pg) => match &pg.cursors {
            Some(c) => match &c.after {
                Some(a) => Some(a.clone()),
                None => None,
            },
            None => None,
        },
        None => None,
    };
    let has_next = match &resp.paging {
        Some(pg) => pg.next.is_some(),
        None => false,
    };
    PagePlan { keep, next_cursor, has_next }
}

// ── Metrics ──────────────────────────────────────────────────────────

/// The value of a JSON integer.
pub open spec fn json_int(v: Json) -> Option<i64> {
    match v {
        Json::Int(i) => Some(i),
        _ => None,
    }
}

/// The value under `key` in the first `n` entries of an object.
pub open spec fn lookup(entries: Seq<(String, Json)>, key: Seq<char>, n: int) -> Option<Json>
    decreases n,
{
    if n <= 0 {
        None
    } else if entries[n - 1].0@ == key {
        Some(entries[n - 1].1)
    } else {
        lookup(entries, key, n - 1)
    }
}

/// The integer at `"value"` of a JSON object.
pub open spec fn wrapped_int(v: Json) -> Option<i64> {
    match v {
        Json::Object(entries) => match lookup(entries@, "value"@, entries@.len() as int) {
            Some(inner) => json_int(inner),
            None => None,
        },
        _ => None,
    }
}

/// The reading of a metric: its total value (a bare integer or one wrapped
/// as `{"value": n}`), else its first value, else 0.
pub open spec fn metric_reading(d: InsightData) -> i64 {
    let from_total = match d.total_value {
        Some(v) => match json_int(v) {
            Some(i) => Some(i),
            None => wrapped_int(v),
        },
        None => None,
    };
    let from_values = match d.values {
        Some(vals) => if vals@.len() > 0 {
            match vals@[0].value {
                Some(v) => json_int(v),
                None => None,
            }
        } else {
            None
        },
        None => None,
    };
    match from_total {
        Some(i) => i,
        None => match from_values {
            Some(i) => i,
            None => 0,
        },
    }
}

/// The reading of the last of the first `n` metrics named `name`, 0 where there is none.
pub open spec fn last_reading(data: Seq<InsightData>, name: Seq<char>, n: int) -> i64
    decreases n,
{
    if n <= 0 {
        0
    } else if data[n - 1].name@ == name {
        metric_reading(data[n - 1])
    } else {
        last_reading(data, name, n - 1)
    }
}

fn json_as_int(v: &Json) -> (r: Option<i64>)
    ensures
        r == json_int(*v),
{
    match v {
        Json::Int(i) => Some(*i),
        _ => None,
    }
}

fn json_wrapped_int(v: &Json) -> (r: Option<i64>)
    ensures
        r == wrapped_int(*v),
{
    proof { reveal_strlit("value"); }
    match v {
        Json::Object(entries) => {
            let mut k: usize = entries.len();
            while k > 0
                invariant
                    *v matches Json::Object(e) && e@ == entries@,
                    k <= entries@.len(),
                    lookup(entries@, "value"@, entries@.len() as int) == lookup(entries@, "value"@, k as int),
                decreases k,
            {
                if str_eq(entries[k - 1].0.as_str(), "value") {
                    assert(entries@[k - 1].0@ == "value"@);
                    assert(lookup(entries@, "value"@, k as int) == Some(entries@[k - 1].1));
                    return json_as_int(&entries[k - 1].1);
                }
                k = k - 1;
            }
            None
        },
        _ => None,
    }
}

/// The reading of one metric.
pub fn read_metric(d: &InsightData) -> (r: i64)
    ensures
        r == metric_reading(*d),
{
    let from_total = match &d.total_value {
        Some(v) => match json_as_int(v) {
            Some(i) => Some(i),
            None => json_wrapped_int(v),
        },
        None => None,
    };
    let from_values = match &d.values {
        Some(vals) => if vals.len() > 0 {
            match &vals[0].value {
                Some(v) => json_as_int(v),
                None => None,
            }
        } else {
            None
        },
        None => None,
    };
    match from_total {
        Some(i) => i,
        None => match from_values {
            Some(i) => i,
            None => 0,
        },
    }
}

proof fn lemma_metric_names_differ()
    ensures
        "views"@ != "likes"@,
        "views"@ != "replies"@,
        "views"@ != "reposts"@,
        "views"@ != "quotes"@,
        "views"@ != "shares"@,
        "likes"@ != "replies"@,
        "likes"@ != "reposts"@,
        "likes"@ != "quotes"@,
        "likes"@ != "shares"@,
        "replies"@ != "reposts"@,
        "replies"@ != "quotes"@,
        "replies"@ != "shares"@,
        "reposts"@ != "quotes"@,
        "reposts"@ != "shares"@,
        "quotes"@ != "shares"@,
{
    reveal_strlit("views");
    reveal_strlit("likes");
    reveal_strlit("replies");
    reveal_strlit("reposts");
    reveal_strlit("quotes");
    reveal_strlit("shares");
    assert("views"@[0] != "likes"@[0]);
    assert("views"@[0] != "replies"@[0]);
    assert("views"@[0] != "reposts"@[0]);
    assert("views"@[0] != "quotes"@[0]);
    assert("views"@[0] != "shares"@[0]);
    assert("likes"@[0] != "replies"@[0]);
    assert("likes"@[0] != "reposts"@[0]);
    assert("likes"@[0] != "quotes"@[0]);
    assert("likes"@[0] != "shares"@[0]);
    assert("replies"@[3] != "reposts"@[3]);
    assert("replies"@[0] != "quotes"@[0]);
    assert("replies"@[0] != "shares"@[0]);
    assert("reposts"@[0] != "quotes"@[0]);
    assert("reposts"@[0] != "shares"@[0]);
    assert("quotes"@[0] != "shares"@[0]);
}

/// The metrics of a post: for each of views, likes, replies, reposts, quotes
/// and shares, the reading of the last metric of that name, cut to an `i32`
/// as `as i32` does; 0 where the response has no such metric.
pub fn post_insights(resp: &InsightsResponse) -> (p: PostInsights)
    ensures
        p.views == last_reading(resp.data@, "views"@, resp.data@.len() as int) as i32,
        p.likes == last_reading(resp.data@, "likes"@, resp.data@.len() as int) as i32,
        p.replies == last_reading(resp.data@, "replies"@, resp.data@.len() as int) as i32,
        p.reposts == last_reading(resp.data@, "reposts"@, resp.data@.len() as int) as i32,
        p.quotes == last_reading(resp.data@, "quotes"@, resp.data@.len() as int) as i32,
        p.shares == last_reading(resp.data@, "shares"@, resp.data@.len() as int) as i32,
{
    proof {
        reveal_strlit("views");
        reveal_strlit("likes");
        reveal_strlit("replies");
        reveal_strlit("reposts");
        reveal_strlit("quotes");
        reveal_strlit("shares");
    }
    let mut p = PostInsights { views: 0, likes: 0, replies: 0, reposts: 0, quotes: 0, shares: 0 };
    let mut i: usize = 0;
    while i < resp.data.len()
        invariant
            i <= resp.data@.len(),
            p.views == last_reading(resp.data@, "views"@, i as int) as i32,
            p.likes == last_reading(resp.data@, "likes"@, i as int) as i32,
            p.replies == last_reading(resp.data@, "replies"@, i as int) as i32,
            p.reposts == last_reading(resp.data@, "reposts"@, i as int) as i32,
            p.quotes == last_reading(resp.data@, "quotes"@, i as int) as i32,
            p.shares == last_reading(resp.data@, "shares"@, i as int) as i32,
        decreases resp.data.len() - i,
    {
        proof { lemma_metric_names_differ(); }
        let d = &resp.data[i];
        let value = read_metric(d) as i32;
        let name = d.name.as_str();
        if str_eq(name, "views") {
            p.views = value;
        } else if str_eq(name, "likes") {
            p.likes = value;
        } else if str_eq(name, "replies") {
            p.replies = value;
        } else if str_eq(name, "reposts") {
            p.reposts = value;
        } else if str_eq(name, "quotes") {
            p.quotes = value;
        } else if str_eq(name, "shares") {
            p.shares = value;
        }
        i = i + 1;
    }
    p
}

// ── Time ─────────────────────────────────────────────────────────────

/// A parsed date and time: seconds since the epoch (UTC), nanoseconds within
/// the second, and the offset from UTC in seconds that the text named.
#[derive(Debug, Clone, Copy, PartialEq, Eq, Structural)]
pub struct TimeFields {
    pub secs: i64,
    pub nanos: u32,
    pub offset: i32,
}

/// An instant in UTC: seconds since the epoch and nanoseconds within the second.
#[derive(Debug, Clone, Copy, PartialEq, Eq, Structural)]
pub struct Timestamp {
    pub secs: i64,
    pub nanos: u32,
}

/// What `chrono::DateTime::parse_from_rfc3339` makes of a text: UTC seconds,
/// nanoseconds and offset seconds, `None` where it fails.
pub uninterp spec fn rfc3339_fields(s: Seq<char>) -> Option<(int, int, int)>;

/// What `chrono::DateTime::parse_from_str` makes of a text in the format
/// `%Y-%m-%dT%H:%M:%S%z`.
pub uninterp spec fn offset_format_fields(s: Seq<char>) -> Option<(int, int, int)>;

/// What `chrono::NaiveDateTime::parse_from_str` makes of a text in the format
/// `%Y-%m-%dT%H:%M:%S`, read as UTC: seconds and nanoseconds.
pub uninterp spec fn naive_format_fields(s: Seq<char>) -> Option<(int, int)>;

/// Parses RFC 3339 text with `chrono::DateTime::parse_from_rfc3339`.
/// Trusted: the result is `rfc3339_fields` of the text; nothing else is
/// claimed of chrono's parser.
#[verifier::external_body]
pub(crate) fn parse_rfc3339(s: &str) -> (r: Option<TimeFields>)
    ensures
        match r {
            Some(t) => rfc3339_fields(s@) == Some((t.secs as int, t.nanos as int, t.offset as int)),
            None => rfc3339_fields(s@) is None,
        },
{
    chrono::DateTime::parse_from_rfc3339(s).ok().map(|dt| TimeFields {
        secs: dt.timestamp(),
        nanos: dt.timestamp_subsec_nanos(),
        offset: dt.offset().local_minus_utc(),
    })
}

/// Parses `%Y-%m-%dT%H:%M:%S%z` text with `chrono::DateTime::parse_from_str`.
/// Trusted: the result is `offset_format_fields` of the text.
#[verifier::external_body]
fn parse_offset_format(s: &str) -> (r: Option<TimeFields>)
    ensures
        match r {
            Some(t) => offset_format_fields(s@) == Some((t.secs as int, t.nanos as int, t.offset as int)),
            None => offset_format_fields(s@) is None,
        },
{
    chrono::DateTime::parse_from_str(s, "%Y-%m-%dT%H:%M:%S%z").ok().map(|dt| TimeFields {
        secs: dt.timestamp(),
        nanos: dt.timestamp_subsec_nanos(),
        offset: dt.offset().local_minus_utc(),
    })
}

/// Parses `%Y-%m-%dT%H:%M:%S` text with `chrono::NaiveDateTime::parse_from_str`
/// and reads it as UTC. Trusted: the result is `naive_format_fields` of the text.
#[verifier::external_body]
fn parse_naive_format(s: &str) -> (r: Option<Timestamp>)
    ensures
        match r {
            Some(t) => naive_format_fields(s@) == Some((t.secs as int, t.nanos as int)),
            None => naive_format_fields(s@) is None,
        },
{
    chrono::NaiveDateTime::parse_from_str(s, "%Y-%m-%dT%H:%M:%S").ok().map(|dt| Timestamp {
        secs: dt.and_utc().timestamp(),
        nanos: dt.and_utc().timestamp_subsec_nanos(),
    })
}

/// The instant of a Threads timestamp: RFC 3339 first, then
/// `%Y-%m-%dT%H:%M:%S%z`, then `%Y-%m-%dT%H:%M:%S` in UTC; `None` where none fits.
pub open spec fn threads_instant(s: Seq<char>) -> Option<(int, int)> {
    match rfc3339_fields(s) {
        Some(f) => Some((f.0, f.1)),
        None => match offset_format_fields(s) {
            Some(f) => Some((f.0, f.1)),
            None => naive_format_fields(s),
        },
    }
}

/// Parses a timestamp of the Threads API.
pub fn parse_threads_timestamp(s: &str) -> (r: Option<Timestamp>)
    ensures
        match r {
            Some(t) => threads_instant(s@) == Some((t.secs as int, t.nanos as int)),
            None => threads_instant(s@) is None,
        },
{
    match parse_rfc3339(s) {
        Some(t) => { return Some(Timestamp { secs: t.secs, nanos: t.nanos }); },
        None => {},
    }
    match parse_offset_format(s) {
        Some(t) => { return Some(Timestamp { secs: t.secs, nanos: t.nanos }); },
        None => {},
    }
    parse_naive_format(s)
}

/// The timestamp a discovered post is stored with: the parsed timestamp of
/// the API, or `now` where it has none or it does not parse.
pub fn post_timestamp(ts: Option<&str>, now: Timestamp) -> (r: Timestamp)
    ensures
        match ts {
            Some(s) => match threads_instant(s@) {
                Some(p) => r.secs as int == p.0 && r.nanos as int == p.1,
                None => r == now,
            },
            None => r == now,
        },
{
    match ts {
        Some(s) => match parse_threads_timestamp(s) {
            Some(t) => t,
            None => now,
        },
        None => now,
    }
}

/// A discovered post as it is stored: the API's fields, and its timestamp
/// (that of the API where it parses, else the time of discovery).
#[derive(Debug)]
pub struct DiscoveredPost {
    pub id: String,
    pub text: Option<String>,
    pub media_type: Option<String>,
    pub media_url: Option<String>,
    pub timestamp: Timestamp,
    pub permalink: Option<String>,
}

/// The stored form of a post of the API, discovered at `now`.
pub fn discovered_post(tp: &ThreadsPost, now: Timestamp) -> (p: DiscoveredPost)
    ensures
        p.id == tp.id,
        p.text == tp.text,
        p.media_type == tp.media_type,
        p.media_url == tp.media_url,
        p.permalink == tp.permalink,
        match tp.timestamp {
            Some(s) => match threads_instant(s@) {
                Some(t) => p.timestamp.secs as int == t.0 && p.timestamp.nanos as int == t.1,
                None => p.timestamp == now,
            },
            None => p.timestamp == now,
        },
{
    let ts: Option<&str> = match &tp.timestamp {
        Some(s) => Some(s.as_str()),
        None => None,
    };
    DiscoveredPost {
        id: tp.id.clone(),
        text: tp.text.clone(),
        media_type: tp.media_type.clone(),
        media_url: tp.media_url.clone(),
        timestamp: post_timestamp(ts, now),
        permalink: tp.permalink.clone(),
    }
}

/// Seconds in a day.
pub const DAY_SECS: i64 = 86400;

/// The day (days since 1970-01-01) of an instant given in seconds, at the
/// given offset from UTC.
pub open spec fn local_day(secs: int, offset: int) -> int {
    (secs + offset) / 86400
}

pub(crate) fn floor_day(secs: i64, offset: i32) -> (d: i64)
    ensures
        d as int == local_day(secs as int, offset as int),
{
    let t: i128 = secs as i128 + offset as i128;
    if t >= 0 {
        (t / 86400) as i64
    } else {
        let m: i128 = -t;
        let q: i128 = (m + 86399) / 86400;
        assert(-q == t / 86400) by (nonlinear_arith)
            requires
                m == -t,
                t < 0,
                q == (m + 86399) / 86400;
        (-q) as i64
    }
}

/// The day a value of the views history belongs to: the day before the
/// local date of its `end_time` (RFC 3339, else `%Y-%m-%dT%H:%M:%S%z`).
pub open spec fn end_time_day(s: Seq<char>) -> Option<int> {
    match rfc3339_fields(s) {
        Some(f) => Some(local_day(f.0, f.2) - 1),
        None => match offset_format_fields(s) {
            Some(f) => Some(local_day(f.0, f.2) - 1),
            None => None,
        },
    }
}

/// Parses the `end_time` of a daily value into the day it counts for.
pub fn parse_end_time(s: &str) -> (r: Option<i64>)
    ensures
        match r {
            Some(d) => end_time_day(s@) == Some(d as int),
            None => end_time_day(s@) is None,
        },
{
    match parse_rfc3339(s) {
        Some(t) => {
            let d = floor_day(t.secs, t.offset);
            return Some(d - 1);
        },
        None => {},
    }
    match parse_offset_format(s) {
        Some(t) => {
            let d = floor_day(t.secs, t.offset);
            Some(d - 1)
        },
        None => None,
    }
}

/// The (day, views) pairs of a views history response: each non-zero
/// integer value of a metric named "views" whose `end_time` parses, in order.
pub open spec fn views_points(data: Seq<InsightData>, n: int) -> Seq<(int, int)>
    decreases n,
{
    if n <= 0 {
        Seq::empty()
    } else {
        let before = views_points(data, n - 1);
        let d = data[n - 1];
        if d.name@ == "views"@ && d.values is Some {
            before + value_points(d.values->0@, d.values->0@.len() as int)
        } else {
            before
        }
    }
}

/// The (day, views) pairs of the first `n` values of a metric.
pub open spec fn value_points(vals: Seq<InsightValue>, n: int) -> Seq<(int, int)>
    decreases n,
{
    if n <= 0 {
        Seq::empty()
    } else {
        let before = value_points(vals, n - 1);
        let v = vals[n - 1];
        let count: int = match v.value {
            Some(j) => match json_int(j) {
                Some(i) => i as int,
                None => 0,
            },
            None => 0,
        };
        if count != 0 && v.end_time is Some && end_time_day(v.end_time->0@) is Some {
            before.push((end_time_day(v.end_time->0@)->0, count))
        } else {
            before
        }
    }
}

/// Reads the daily views out of a views history response.
pub fn daily_views_points(resp: &InsightsResponse) -> (r: Vec<(i64, i64)>)
    ensures
        r@.len() == views_points(resp.data@, resp.data@.len() as int).len(),
        forall|k: int|
            0 <= k < r@.len() ==> (#[trigger] r@[k]).0 as int == views_points(resp.data@, resp.data@.len() as int)[k].0
                && r@[k].1 as int == views_points(resp.data@, resp.data@.len() as int)[k].1,
{
    proof { reveal_strlit("views"); }
    let mut r: Vec<(i64, i64)> = Vec::new();
    let mut i: usize = 0;
    while i < resp.data.len()
        invariant
            i <= resp.data@.len(),
            r@.len() == views_points(resp.data@, i as int).len(),
            forall|k: int|
                0 <= k < r@.len() ==> (#[trigger] r@[k]).0 as int == views_points(resp.data@, i as int)[k].0
                    && r@[k].1 as int == views_points(resp.data@, i as int)[k].1,
        decreases resp.data.len() - i,
    {
        let d = &resp.data[i];
        if str_eq(d.name.as_str(), "views") {
            match &d.values {
                Some(vals) => {
                    let ghost base = r@;
                    let ghost before = views_points(resp.data@, i as int);
                    let mut k: usize = 0;
                    while k < vals.len()
                        invariant
                            k <= vals@.len(),
                            base.len() == before.len(),
                            r@.len() == base.len() + value_points(vals@, k as int).len(),
                            forall|x: int| 0 <= x < base.len() ==> #[trigger] r@[x] == base[x],
                            forall|x: int|
                                0 <= x < base.len() ==> (#[trigger] base[x]).0 as int == before[x].0 && base[x].1 as int == before[x].1,
                            forall|x: int|
                                0 <= x < value_points(vals@, k as int).len() ==> (#[trigger] r@[base.len() + x]).0 as int
                                    == value_points(vals@, k as int)[x].0 && r@[base.len() + x].1 as int
                                    == value_points(vals@, k as int)[x].1,
                        decreases vals.len() - k,
                    {
                        let v = &vals[k];
                        let count: i64 = match &v.value {
                            Some(j) => match json_as_int(j) {
                                Some(c) => c,
                                None => 0,
                            },
                            None => 0,
                        };
                        if count != 0 {
                            match &v.end_time {
                                Some(e) => match parse_end_time(e.as_str()) {
                                    Some(day) => {
                                        r.push((day, count));
                                    },
                                    None => {},
                                },
                                None => {},
                            }
                        }
                        k = k + 1;
                    }
                    assert(views_points(resp.data@, i + 1) =~= before + value_points(vals@, vals@.len() as int));
                    assert forall|x: int| 0 <= x < r@.len() implies (#[trigger] r@[x]).0 as int == views_points(resp.data@, i + 1)[x].0
                        && r@[x].1 as int == views_points(resp.data@, i + 1)[x].1 by {
                        if x < base.len() {
                            assert(r@[x] == base[x]);
                        } else {
                            assert(r@[base.len() + (x - base.len())] == r@[x]);
                        }
                    }
                },
                None => {
                    assert(views_points(resp.data@, i + 1) == views_points(resp.data@, i as int));
                },
            }
        } else {
            assert(views_points(resp.data@, i + 1) == views_points(resp.data@, i as int));
        }
        i = i + 1;
    }
    r
}

/// The windows of the views history, newest first: each reaches 89 days back
/// from its end (not past `earliest`), and the next ends a day before it starts.
pub open spec fn insight_windows(end: int, earliest: int) -> Seq<(int, int)>
    decreases (if end > earliest { end - earliest } else { 0 }),
{
    if end <= earliest {
        Seq::empty()
    } else {
        let start = if end - 89 * 86400 > earliest { end - 89 * 86400 } else { earliest };
        seq![(start, end)] + insight_windows(start - 86400, earliest)
    }
}

/// How many days of views history to fetch: `max_days`, 730 where not given.
pub open spec fn history_days(max_days: Option<u32>) -> int {
    match max_days {
        Some(d) => d as int,
        None => 730,
    }
}

/// The windows (start, end, in seconds) in which the views history of the
/// `max_days` days before `now` is fetched.
pub fn views_history_windows(now: i64, max_days: Option<u32>) -> (r: Vec<(i64, i64)>)
    requires
        now >= i64::MIN + 0x2_0000_0000 * 86400,
    ensures
        r@.len() == insight_windows(now as int, now - history_days(max_days) * 86400).len(),
        forall|k: int|
            0 <= k < r@.len() ==> (#[trigger] r@[k]).0 as int == insight_windows(
                now as int,
                now - history_days(max_days) * 86400,
            )[k].0 && r@[k].1 as int == insight_windows(now as int, now - history_days(max_days) * 86400)[k].1,
{
    let days: i64 = match max_days {
        Some(d) => d as i64,
        None => 730,
    };
    let earliest: i64 = now - days * 86400;
    let ghost all = insight_windows(now as int, earliest as int);
    let mut r: Vec<(i64, i64)> = Vec::new();
    let mut end: i64 = now;
    while end > earliest
        invariant
            earliest <= now,
            earliest >= i64::MIN + 0x1_0000_0000 * 86400,
            earliest as int == now - history_days(max_days) * 86400,
            all == insight_windows(now as int, earliest as int),
            end <= now,
            end >= earliest - 86400,
            all == r@.map_values(|w: (i64, i64)| (w.0 as int, w.1 as int)) + insight_windows(end as int, earliest as int),
        decreases end - earliest + 86400,
    {
        let start: i64 = if end - 89 * 86400 > earliest { end - 89 * 86400 } else { earliest };
        let ghost pre = r@;
        r.push((start, end));
        assert(r@.map_values(|w: (i64, i64)| (w.0 as int, w.1 as int)) =~= pre.map_values(
            |w: (i64, i64)| (w.0 as int, w.1 as int),
        ).push((start as int, end as int)));
        assert(insight_windows(end as int, earliest as int) == seq![(start as int, end as int)]
            + insight_windows(start - 86400, earliest as int));
        end = start - 86400;
    }
    assert(all =~= r@.map_values(|w: (i64, i64)| (w.0 as int, w.1 as int)));
    assert forall|k: int| 0 <= k < r@.len() implies (#[trigger] r@[k]).0 as int == all[k].0 && r@[k].1 as int == all[k].1 by {
        assert(all[k] == (r@[k].0 as int, r@[k].1 as int));
    }
    r
}

/// The views history is fetched in windows that stay between `earliest`
/// and `end`, each reaching at most 89 days back from its end (within the
/// API's limit of 90 days), newest first, each next one ending a day before
/// the previous one starts.
pub proof fn law_history_windows_bounded(end: int, earliest: int)
    ensures
        forall|k: int| 0 <= k < insight_windows(end, earliest).len() ==> {
            let w = #[trigger] insight_windows(end, earliest)[k];
            &&& earliest <= w.0 <= w.1 <= end
            &&& w.1 - w.0 <= 89 * 86400
        },
        forall|k: int| 0 <= k < insight_windows(end, earliest).len() - 1 ==>
            #[trigger] insight_windows(end, earliest)[k + 1].1 == insight_windows(end, earliest)[k].0 - 86400,
    decreases (if end > earliest { end - earliest } else { 0 }),
{
    if end > earliest {
        let start = if end - 89 * 86400 > earliest { end - 89 * 86400 } else { earliest };
        law_history_windows_bounded(start - 86400, earliest);
        let rest = insight_windows(start - 86400, earliest);
        let all = insight_windows(end, earliest);
        assert(all == seq![(start, end)] + rest);
        assert forall|k: int| 0 <= k < all.len() implies {
            let w = #[trigger] all[k];
            &&& earliest <= w.0 <= w.1 <= end
            &&& w.1 - w.0 <= 89 * 86400
        } by {
            if k > 0 {
                assert(all[k] == rest[k - 1]);
            }
        }
        assert forall|k: int| 0 <= k < all.len() - 1 implies #[trigger] all[k + 1].1 == all[k].0 - 86400 by {
            assert(all[k + 1] == rest[k]);
            if k > 0 {
                assert(all[k] == rest[k - 1]);
                assert(rest[(k - 1) + 1].1 == rest[k - 1].0 - 86400);
            } else {
                if rest.len() > 0 {
                    lemma_first_window_end(start - 86400, earliest);
                }
            }
        }
    }
}

proof fn lemma_first_window_end(end: int, earliest: int)
    requires
        insight_windows(end, earliest).len() > 0,
    ensures
        insight_windows(end, earliest)[0].1 == end,
{
}

} // verus!
