//! The decisions of the background jobs: how analysis batches are retried,
//! how a post's metrics are fetched under rate limits, what the sync,
//! analysis and categorisation tasks report, and the small rules around
//! them (batch size, history depth, token refresh, tag colours).
use vstd::prelude::*;
use crate::text::{parse_i64, parse_i64_spec, format_i64, format_u64, decimal_text, str_eq};
use crate::llm::{join, joined, texts};

verus! {

// ── Analysis batches ─────────────────────────────────────────────────

/// How many posts one analysis batch takes when the environment does not say.
pub const DEFAULT_BATCH_SIZE: i64 = 16;

/// The batch size: the `ANALYSIS_BATCH_SIZE` setting where it parses as an
/// `i64`, else 16.
pub fn analysis_batch_size(setting: Option<&str>) -> (n: i64)
    ensures
        n == match setting {
            Some(s) => match parse_i64_spec(s@) {
                Some(v) => v,
                None => DEFAULT_BATCH_SIZE,
            },
            None => DEFAULT_BATCH_SIZE,
        },
{
    match setting {
        Some(s) => match parse_i64(s) {
            Some(v) => v,
            None => DEFAULT_BATCH_SIZE,
        },
        None => DEFAULT_BATCH_SIZE,
    }
}

/// The emotion recorded for a post that has no text to analyse.
pub const NEUTRAL_EMOTION: &'static str = "reflective";

/// The posts that go to the LLM: those with text, as (id, text), in order.
pub open spec fn texts_for_analysis(posts: Seq<(String, Option<String>)>) -> Seq<(Seq<char>, Seq<char>)>
    decreases posts.len(),
{
    if posts.len() == 0 {
        Seq::empty()
    } else {
        let before = texts_for_analysis(posts.drop_last());
        match posts.last().1 {
            Some(t) => before.push((posts.last().0@, t@)),
            None => before,
        }
    }
}

/// Picks the posts (id, text) that have text to analyse.
pub fn posts_for_analysis(posts: &Vec<(String, Option<String>)>) -> (r: Vec<(String, String)>)
    ensures
        r@.map_values(|p: (String, String)| (p.0@, p.1@)) == texts_for_analysis(posts@),
{
    let mut r: Vec<(String, String)> = Vec::new();
    let mut i: usize = 0;
    while i < posts.len()
        invariant
            i <= posts@.len(),
            r@.map_values(|p: (String, String)| (p.0@, p.1@)) == texts_for_analysis(posts@.take(i as int)),
        decreases posts.len() - i,
    {
        assert(posts@.take(i + 1).drop_last() =~= posts@.take(i as int));
        let ghost before = r@;
        match &posts[i].1 {
            Some(t) => {
                r.push((posts[i].0.clone(), t.clone()));
                assert(r@.map_values(|p: (String, String)| (p.0@, p.1@)) =~= before.map_values(
                    |p: (String, String)| (p.0@, p.1@),
                ).push((posts@[i as int].0@, t@)));
            },
            None => {},
        }
        i = i + 1;
    }
    assert(posts@.take(posts@.len() as int) =~= posts@);
    r
}

/// What one analysis batch does with the unanalysed posts it read.
#[derive(Debug)]
pub enum AnalysisPlan {
    /// Nothing is left to analyse: the batch reports 0.
    Nothing,
    /// No post has text: each is marked analysed with the neutral emotion,
    /// and the batch reports this count.
    MarkNeutral(u32),
    /// The LLM is asked about these (id, text) pairs.
    Ask(Vec<(String, String)>),
}

/// Plans a batch: nothing where no post is left; where none has text, mark
/// them all neutral (their number cut to 32 bits, as `as u32` does);
/// otherwise ask the LLM about the posts with text.
pub fn plan_analysis(unanalyzed: &Vec<(String, Option<String>)>) -> (p: AnalysisPlan)
    ensures
        unanalyzed@.len() == 0 ==> p is Nothing,
        unanalyzed@.len() > 0 && texts_for_analysis(unanalyzed@).len() == 0 ==> (p matches AnalysisPlan::MarkNeutral(
            c,
        ) && c == unanalyzed@.len() as u32),
        texts_for_analysis(unanalyzed@).len() > 0 ==> (p matches AnalysisPlan::Ask(v) && v@.map_values(
            |q: (String, String)| (q.0@, q.1@),
        ) == texts_for_analysis(unanalyzed@)),
{
    if unanalyzed.len() == 0 {
        return AnalysisPlan::Nothing;
    }
    let posts = posts_for_analysis(unanalyzed);
    if posts.len() == 0 {
        AnalysisPlan::MarkNeutral(unanalyzed.len() as u32)
    } else {
        AnalysisPlan::Ask(posts)
    }
}

/// How a loop of analysis batches reacts to failures.
#[derive(Debug)]
pub struct RetryPolicy {
    /// The loop stops after this many failures in a row.
    pub max_failures: u32,
    /// Pause after a failure: `2^min(failures, 6)` seconds where true, else two seconds.
    pub exponential: bool,
    /// Pause after a successful batch, in milliseconds.
    pub pause_after_batch_ms: u64,
}

/// The policy of the analysis started from the dashboard: ten failures in a
/// row stop it, failures back off exponentially, batches are half a second apart.
pub fn interactive_policy() -> (p: RetryPolicy)
    ensures
        p.max_failures == 10,
        p.exponential,
        p.pause_after_batch_ms == 500,
{
    RetryPolicy { max_failures: 10, exponential: true, pause_after_batch_ms: 500 }
}

/// The policy of the scheduled analysis: three failures in a row stop it,
/// failures pause two seconds, batches follow each other at once.
pub fn scheduled_policy() -> (p: RetryPolicy)
    ensures
        p.max_failures == 3,
        !p.exponential,
        p.pause_after_batch_ms == 0,
{
    RetryPolicy { max_failures: 3, exponential: false, pause_after_batch_ms: 0 }
}

/// The state of a loop of analysis batches.
#[derive(Debug)]
pub struct BatchLoop {
    pub policy: RetryPolicy,
    /// Posts analysed so far.
    pub total: u32,
    /// Failures since the last successful batch.
    pub failures: u32,
}

/// What the loop does next.
#[derive(Debug, Clone, Copy, PartialEq, Eq, Structural)]
pub enum LoopAction {
    /// The loop is over.
    Stop,
    /// Wait this many milliseconds, then run the next batch.
    Pause(u64),
}

/// The pause after the `failures`-th failure in a row, in milliseconds.
pub open spec fn failure_pause_ms(exponential: bool, failures: nat) -> nat {
    if exponential {
        let e: nat = if failures < 6 { failures } else { 6 };
        vstd::arithmetic::power2::pow2(e) * 1000
    } else {
        2000
    }
}

impl BatchLoop {
    /// A loop that has run nothing yet.
    pub fn new(policy: RetryPolicy) -> (l: Self)
        ensures
            l.policy == policy,
            l.total == 0,
            l.failures == 0,
    {
        BatchLoop { policy, total: 0, failures: 0 }
    }

    /// After a batch that analysed `n` posts: stop when `n` is 0 (nothing was
    /// left), else count them, clear the failures and pause.
    pub fn on_batch(&mut self, n: u32) -> (a: LoopAction)
        requires
            old(self).total + n <= u32::MAX,
        ensures
            final(self).policy == old(self).policy,
            n == 0 ==> a is Stop && final(self).total == old(self).total && final(self).failures == old(self).failures,
            n > 0 ==> {
                &&& a == LoopAction::Pause(old(self).policy.pause_after_batch_ms)
                &&& final(self).total == old(self).total + n
                &&& final(self).failures == 0
            },
    {
        if n == 0 {
            return LoopAction::Stop;
        }
        self.total = self.total + n;
        self.failures = 0;
        LoopAction::Pause(self.policy.pause_after_batch_ms)
    }

    /// After a failed batch: count the failure; stop once `max_failures`
    /// failures came in a row, else pause before retrying.
    pub fn on_failure(&mut self) -> (a: LoopAction)
        requires
            old(self).failures < old(self).policy.max_failures,
        ensures
            final(self).policy == old(self).policy,
            final(self).total == old(self).total,
            final(self).failures == old(self).failures + 1,
            final(self).failures >= final(self).policy.max_failures ==> a is Stop,
            final(self).failures < final(self).policy.max_failures ==> a == LoopAction::Pause(
                failure_pause_ms(final(self).policy.exponential, final(self).failures as nat) as u64,
            ),
    {
        self.failures = self.failures + 1;
        if self.failures >= self.policy.max_failures {
            return LoopAction::Stop;
        }
        if self.policy.exponential {
            let e: u32 = if self.failures < 6 { self.failures } else { 6 };
            proof { vstd::arithmetic::power2::lemma2_to64(); }
            let secs: u64 = match e {
                0 => 1,
                1 => 2,
                2 => 4,
                3 => 8,
                4 => 16,
                5 => 32,
                _ => 64,
            };
            LoopAction::Pause(secs * 1000)
        } else {
            LoopAction::Pause(2000)
        }
    }
}

/// A pause after a failure never exceeds 64 seconds, and the loop never
/// sees more failures in a row than its policy allows.
pub proof fn law_failure_pause_bounded(exponential: bool, failures: nat)
    ensures
        failure_pause_ms(exponential, failures) <= 64000,
{
    let e: nat = if failures < 6 { failures } else { 6 };
    if e < 6 {
        vstd::arithmetic::power2::lemma_pow2_strictly_increases(e, 6);
    }
    vstd::arithmetic::power2::lemma2_to64();
}

/// Whether the analysis task should categorise topics on its own: it
/// analysed something and no category exists yet.
pub fn should_auto_categorize(category_count: i64, analyzed: u32) -> (b: bool)
    ensures
        b == (category_count == 0 && analyzed > 0),
{
    category_count == 0 && analyzed > 0
}

// ── Per-post metrics under rate limits ───────────────────────────────

/// How many times a post's metrics are retried after rate limits.
pub const MAX_RATE_LIMIT_RETRIES: u32 = 3;

/// How one attempt to read a post's metrics went.
#[derive(Debug, Clone, Copy, PartialEq, Eq, Structural)]
pub enum MetricsOutcome {
    Fetched,
    RateLimited(u64),
    Failed,
}

/// What to do next with a post's metrics.
#[derive(Debug, Clone, Copy, PartialEq, Eq, Structural)]
pub enum MetricsAction {
    /// Store the metrics and move to the next post.
    Store,
    /// Wait this many seconds, then ask again.
    Wait(u64),
    /// Give up on this post.
    Skip,
}

/// The next step for a post whose metrics were asked `retries` times after
/// rate limits so far, and the new retry count.
pub fn next_metrics_step(retries: u32, outcome: MetricsOutcome) -> (r: (MetricsAction, u32))
    requires
        retries <= MAX_RATE_LIMIT_RETRIES,
    ensures
        match outcome {
            MetricsOutcome::Fetched => r.0 is Store && r.1 == retries,
            MetricsOutcome::Failed => r.0 is Skip && r.1 == retries,
            MetricsOutcome::RateLimited(secs) => {
                &&& r.1 == retries + 1
                &&& r.1 > MAX_RATE_LIMIT_RETRIES ==> r.0 is Skip
                &&& r.1 <= MAX_RATE_LIMIT_RETRIES ==> r.0 == MetricsAction::Wait(secs)
            },
        },
{
    match outcome {
        MetricsOutcome::Fetched => (MetricsAction::Store, retries),
        MetricsOutcome::Failed => (MetricsAction::Skip, retries),
        MetricsOutcome::RateLimited(secs) => {
            let r = retries + 1;
            if r > MAX_RATE_LIMIT_RETRIES {
                (MetricsAction::Skip, r)
            } else {
                (MetricsAction::Wait(secs), r)
            }
        },
    }
}

/// Milliseconds between two posts of a metrics refresh.
pub const METRICS_PAUSE_MS: u64 = 200;

/// Whether the refresh logs its progress after `done` posts: every 25 posts.
pub fn log_metrics_progress(done: usize) -> (b: bool)
    ensures
        b == (done % 25 == 0),
{
    done % 25 == 0
}

/// The state of a refresh of every post's metrics: how many posts there
/// are, how many are done, the rate-limit retries of the current post, and
/// how many posts got fresh metrics.
#[derive(Debug)]
pub struct MetricsRefresh {
    pub total: usize,
    pub done: usize,
    pub retries: u32,
    pub updated: u32,
}

/// What the refresh does after one attempt on the current post.
#[derive(Debug)]
pub struct RefreshStep {
    /// Store the metrics, wait and ask again, or give up on the post.
    pub action: MetricsAction,
    /// Where the post is finished: the progress to show (posts done, cut to
    /// 32 bits) and whether to log it (every 25 posts).
    pub finished: Option<(u32, bool)>,
}

impl MetricsRefresh {
    /// The refresh's own invariant: no more updated than done, no more done
    /// than there are, and at most three retries of the current post.
    pub open spec fn wf(&self) -> bool {
        &&& self.updated <= self.done <= self.total
        &&& self.retries <= MAX_RATE_LIMIT_RETRIES
    }

    /// How many more attempts the refresh can make at most: four for each
    /// post not yet done, less the retries already spent on the current one.
    /// Every attempt lowers it, so the refresh ends.
    pub open spec fn attempts_left(&self) -> int {
        4 * (self.total - self.done) + (MAX_RATE_LIMIT_RETRIES - self.retries)
    }

    /// A refresh of `total` posts that has done nothing yet.
    pub fn new(total: usize) -> (r: Self)
        ensures
            r.wf(),
            r.total == total,
            r.done == 0,
            r.retries == 0,
            r.updated == 0,
    {
        MetricsRefresh { total, done: 0, retries: 0, updated: 0 }
    }

    /// Whether every post is done.
    pub fn is_finished(&self) -> (b: bool)
        ensures
            b == (self.done >= self.total),
    {
        self.done >= self.total
    }

    /// After one attempt on the current post: a fetch stores the metrics and
    /// finishes the post; a failure finishes it; a rate limit waits the time
    /// the API asked for, until the fourth in a row finishes the post.
    pub fn on_outcome(&mut self, outcome: MetricsOutcome) -> (step: RefreshStep)
        requires
            old(self).wf(),
            old(self).done < old(self).total,
            old(self).updated < u32::MAX,
        ensures
            final(self).wf(),
            final(self).total == old(self).total,
            0 <= final(self).attempts_left() < old(self).attempts_left(),
            ({
                let (action, retries) = (step.action, match outcome {
                    MetricsOutcome::RateLimited(_) => old(self).retries + 1,
                    _ => old(self).retries as int,
                });
                &&& match outcome {
                    MetricsOutcome::Fetched => action is Store,
                    MetricsOutcome::Failed => action is Skip,
                    MetricsOutcome::RateLimited(secs) => if retries > MAX_RATE_LIMIT_RETRIES {
                        action is Skip
                    } else {
                        action == MetricsAction::Wait(secs)
                    },
                }
                &&& action is Wait ==> {
                    &&& step.finished is None
                    &&& final(self).done == old(self).done
                    &&& final(self).updated == old(self).updated
                    &&& final(self).retries == retries
                }
                &&& !(action is Wait) ==> {
                    &&& final(self).done == old(self).done + 1
                    &&& final(self).retries == 0
                    &&& final(self).updated == old(self).updated + if action is Store { 1int } else { 0 }
                    &&& step.finished == Some((
                        final(self).done as u32,
                        final(self).done % 25 == 0,
                    ))
                }
            }),
    {
        let (action, retries) = next_metrics_step(self.retries, outcome);
        match action {
            MetricsAction::Wait(secs) => {
                self.retries = retries;
                RefreshStep { action: MetricsAction::Wait(secs), finished: None }
            },
            MetricsAction::Store => {
                self.updated = self.updated + 1;
                self.done = self.done + 1;
                self.retries = 0;
                let shown = self.done as u32;
                let log = log_metrics_progress(self.done);
                RefreshStep { action: MetricsAction::Store, finished: Some((shown, log)) }
            },
            MetricsAction::Skip => {
                self.done = self.done + 1;
                self.retries = 0;
                let shown = self.done as u32;
                let log = log_metrics_progress(self.done);
                RefreshStep { action: MetricsAction::Skip, finished: Some((shown, log)) }
            },
        }
    }
}

// ── Daily views and tokens ───────────────────────────────────────────

/// Days of views history to fetch: a week where some are stored already,
/// else two years.
pub fn views_history_days(has_stored_days: bool) -> (d: u32)
    ensures
        d == if has_stored_days { 7u32 } else { 730u32 },
{
    if has_stored_days { 7 } else { 730 }
}

/// Seconds in a week.
pub const WEEK_SECS: i64 = 7 * 86400;

/// Whether to refresh the Threads token: it has an expiry, and that is less
/// than a week after `now` (seconds).
pub fn should_refresh_token(expires_at: Option<i64>, now: i64) -> (b: bool)
    ensures
        b == match expires_at {
            Some(e) => e - now < WEEK_SECS,
            None => false,
        },
{
    match expires_at {
        Some(e) => (e as i128 - now as i128) < WEEK_SECS as i128,
        None => false,
    }
}

/// How long a token from the environment is assumed to last, in seconds.
pub const SEEDED_TOKEN_LIFETIME_SECS: i64 = 60 * 86400;

// ── Colours ──────────────────────────────────────────────────────────

/// The colours that new categories, intents and subjects take in turn.
pub const CATEGORY_COLORS: [&'static str; 15] = [
    "#e6194b",
    "#3cb44b",
    "#4363d8",
    "#f58231",
    "#911eb4",
    "#42d4f4",
    "#f032e6",
    "#bfef45",
    "#fabed4",
    "#469990",
    "#dcbeff",
    "#9A6324",
    "#800000",
    "#aaffc3",
    "#808000",
];

/// The colour that the `count`-th tag of a kind takes.
pub fn next_color(count: usize) -> (c: &'static str)
    ensures
        c@ == CATEGORY_COLORS@[(count % 15) as int]@,
{
    CATEGORY_COLORS[count % 15]
}

/// A category named by the LLM's grouping of topics.
#[derive(Debug)]
pub struct CategoryGroup {
    pub name: String,
    pub description: String,
    pub topics: Vec<String>,
}

/// The colour of an existing category named `name`, where it has one.
pub open spec fn existing_color(existing: Seq<(String, Option<String>)>, name: Seq<char>) -> Option<Seq<char>>
    decreases existing.len(),
{
    if existing.len() == 0 {
        None
    } else if existing[0].0@ == name {
        match existing[0].1 {
            Some(c) => Some(c@),
            None => None,
        }
    } else {
        existing_color(existing.drop_first(), name)
    }
}

/// How many of the first `k` groups take a new colour.
pub open spec fn fresh_before(existing: Seq<(String, Option<String>)>, groups: Seq<CategoryGroup>, k: int) -> int
    decreases k,
{
    if k <= 0 {
        0
    } else {
        fresh_before(existing, groups, k - 1) + if existing_color(existing, groups[k - 1].name@) is Some {
            0int
        } else {
            1
        }
    }
}

/// The colour of group `k`: that of the existing category of its name, else
/// the next of the palette, counting from the number of existing categories.
pub open spec fn group_color(existing: Seq<(String, Option<String>)>, groups: Seq<CategoryGroup>, k: int) -> Seq<char> {
    match existing_color(existing, groups[k].name@) {
        Some(c) => c,
        None => CATEGORY_COLORS@[((existing.len() + fresh_before(existing, groups, k)) % 15) as int]@,
    }
}

fn find_existing_color(existing: &Vec<(String, Option<String>)>, name: &String) -> (r: Option<String>)
    ensures
        match r {
            Some(c) => existing_color(existing@, name@) == Some(c@),
            None => existing_color(existing@, name@) is None,
        },
{
    let mut i: usize = 0;
    assert(existing@.skip(0) =~= existing@);
    while i < existing.len()
        invariant
            i <= existing@.len(),
            existing_color(existing@, name@) == existing_color(existing@.skip(i as int), name@),
        decreases existing.len() - i,
    {
        assert(existing@.skip(i as int).drop_first() =~= existing@.skip(i + 1));
        if existing[i].0 == *name {
            return match &existing[i].1 {
                Some(c) => Some(c.clone()),
                None => None,
            };
        }
        i = i + 1;
    }
    None
}

/// The colour of each category group: an existing category keeps its colour,
/// a new one takes the next colour of the palette.
pub fn category_colors(existing: &Vec<(String, Option<String>)>, groups: &Vec<CategoryGroup>) -> (r: Vec<String>)
    ensures
        r@.len() == groups@.len(),
        forall|k: int| 0 <= k < r@.len() ==> (#[trigger] r@[k])@ == group_color(existing@, groups@, k),
{
    let mut r: Vec<String> = Vec::new();
    let mut color_index: usize = existing.len() % 15;
    let mut k: usize = 0;
    while k < groups.len()
        invariant
            k <= groups@.len(),
            r@.len() == k,
            color_index == (existing@.len() + fresh_before(existing@, groups@, k as int)) % 15,
            fresh_before(existing@, groups@, k as int) <= k,
            forall|j: int| 0 <= j < k ==> (#[trigger] r@[j])@ == group_color(existing@, groups@, j),
        decreases groups.len() - k,
    {
        match find_existing_color(existing, &groups[k].name) {
            Some(c) => {
                r.push(c);
            },
            None => {
                r.push(String::from_str(CATEGORY_COLORS[color_index]));
                color_index = (color_index + 1) % 15;
            },
        }
        k = k + 1;
    }
    r
}

} // verus!
