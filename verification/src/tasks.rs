//! What the endpoints that start and watch the background tasks (sync,
//! analysis, reanalysis, categorisation, reset) answer, and the messages
//! the tasks leave behind.
use vstd::prelude::*;
use crate::text::{format_i64, format_u64, decimal_text};
use crate::llm::{join, joined, texts};

verus! {

/// The answer to a request to start the analysis.
#[derive(Debug)]
pub struct AnalyzeStartResult {
    pub started: bool,
    pub message: String,
}

/// The progress of the analysis.
#[derive(Debug)]
pub struct AnalyzeStatus {
    pub running: bool,
    pub analyzed: u32,
    pub total: u32,
}

/// The answer to a request to start the categorisation.
#[derive(Debug)]
pub struct CategorizeStartResult {
    pub started: bool,
    pub message: String,
}

/// The progress of the categorisation.
#[derive(Debug)]
pub struct CategorizeStatus {
    pub running: bool,
    pub progress: u32,
    pub total: u32,
}

/// The answer to a request to analyse every post again.
#[derive(Debug)]
pub struct ReanalyzeResult {
    pub started: bool,
    pub message: String,
}

/// The answer to a request to start a sync.
#[derive(Debug)]
pub struct SyncStartResult {
    pub started: bool,
    pub message: String,
}

/// The progress of a sync.
#[derive(Debug)]
pub struct SyncStatus {
    pub running: bool,
    pub message: String,
    pub synced: u32,
    pub total: u32,
}

/// The answer to a request to wipe the database.
#[derive(Debug)]
pub struct ResetResult {
    pub success: bool,
    pub message: String,
}

// ── Analysis ─────────────────────────────────────────────────────────

/// The message of a refused start while an analysis runs.
pub const ANALYSIS_BUSY: &'static str = "Analysis already in progress";

/// The refusal of an analysis or reanalysis while one runs.
pub fn analysis_busy() -> (r: AnalyzeStartResult)
    ensures
        !r.started,
        r.message@ == ANALYSIS_BUSY@,
{
    AnalyzeStartResult { started: false, message: String::from_str(ANALYSIS_BUSY) }
}

/// The text `n` followed by `suffix`.
pub open spec fn count_message(n: int, suffix: Seq<char>) -> Seq<char> {
    decimal_text(n) + suffix
}

fn signed_count_message(n: i64, suffix: &str) -> (s: String)
    ensures
        s@ == count_message(n as int, suffix@),
{
    let mut s = format_i64(n);
    s.append(suffix);
    s
}

fn unsigned_count_message(n: u64, suffix: &str) -> (s: String)
    ensures
        s@ == count_message(n as int, suffix@),
{
    let mut s = format_u64(n);
    s.append(suffix);
    s
}

/// The answer once `count` unanalysed posts were queued.
pub fn analysis_queued(count: i64) -> (r: AnalyzeStartResult)
    ensures
        r.started,
        r.message@ == count_message(count as int, " posts queued for analysis"@),
{
    AnalyzeStartResult { started: true, message: signed_count_message(count, " posts queued for analysis") }
}

/// The total that the progress counter shows for `count` queued items: the
/// count cut to 32 bits, as a cast to `u32` does.
pub fn progress_total(count: i64) -> (t: u32)
    ensures
        t == count as u32,
{
    count as u32
}

/// The refusal of a reanalysis while an analysis runs.
pub fn reanalysis_busy() -> (r: ReanalyzeResult)
    ensures
        !r.started,
        r.message@ == ANALYSIS_BUSY@,
{
    ReanalyzeResult { started: false, message: String::from_str(ANALYSIS_BUSY) }
}

/// The answer once the analysis of `reset` posts was cleared and queued again.
pub fn reanalysis_queued(reset: u64) -> (r: ReanalyzeResult)
    ensures
        r.started,
        r.message@ == count_message(reset as int, " posts queued for reanalysis"@),
{
    ReanalyzeResult { started: true, message: unsigned_count_message(reset, " posts queued for reanalysis") }
}

/// The total of a reanalysis for `reset` cleared posts, cut to 32 bits.
pub fn reanalysis_total(reset: u64) -> (t: u32)
    ensures
        t == reset as u32,
{
    reset as u32
}

// ── Categorisation ───────────────────────────────────────────────────

/// The refusal of a categorisation while an analysis runs.
pub fn categorize_blocked() -> (r: CategorizeStartResult)
    ensures
        !r.started,
        r.message@ == "Analysis in progress..."@,
{
    CategorizeStartResult { started: false, message: String::from_str("Analysis in progress...") }
}

/// The refusal of a categorisation while one runs.
pub fn categorize_busy() -> (r: CategorizeStartResult)
    ensures
        !r.started,
        r.message@ == "Categorization already in progress"@,
{
    CategorizeStartResult { started: false, message: String::from_str("Categorization already in progress") }
}

/// The answer where the topics could not be counted.
pub fn categorize_count_failed(error: &str) -> (r: CategorizeStartResult)
    ensures
        !r.started,
        r.message@ == "Failed to count topics: "@ + error@,
{
    let mut m = String::from_str("Failed to count topics: ");
    m.append(error);
    CategorizeStartResult { started: false, message: m }
}

/// The answer once `count` topics were queued.
pub fn categorize_queued(count: i64) -> (r: CategorizeStartResult)
    ensures
        r.started,
        r.message@ == count_message(count as int, " topics queued for categorization"@),
{
    CategorizeStartResult { started: true, message: signed_count_message(count, " topics queued for categorization") }
}

// ── Sync ─────────────────────────────────────────────────────────────

/// The refusal of a sync while one runs.
pub fn sync_busy() -> (r: SyncStartResult)
    ensures
        !r.started,
        r.message@ == "Sync already in progress"@,
{
    SyncStartResult { started: false, message: String::from_str("Sync already in progress") }
}

/// The answer once a sync was started.
pub fn sync_started() -> (r: SyncStartResult)
    ensures
        r.started,
        r.message@ == "Sync started"@,
{
    SyncStartResult { started: true, message: String::from_str("Sync started") }
}

/// The status message while a sync starts.
pub const SYNC_STARTING: &'static str = "Starting sync...";

/// The status message while posts are discovered.
pub const SYNC_DISCOVERING: &'static str = "Discovering posts from Threads...";

/// The status message while per-post metrics are refreshed.
pub const SYNC_REFRESHING: &'static str = "Refreshing per-post metrics...";

/// The status message while daily views are fetched.
pub const SYNC_DAILY_VIEWS: &'static str = "Syncing daily views...";

/// The message of a sync whose discovery of posts failed with `error`.
pub fn sync_failed(error: &str) -> (m: String)
    ensures
        m@ == "Sync failed: "@ + error@,
{
    let mut m = String::from_str("Sync failed: ");
    m.append(error);
    m
}

/// The part of the final report on a phase: the count followed by
/// `done`, or `failed` followed by the error.
pub open spec fn phase_part(outcome: Result<u32, String>, done: Seq<char>, failed: Seq<char>) -> Seq<char> {
    match outcome {
        Ok(n) => count_message(n as int, done),
        Err(e) => failed + e@,
    }
}

/// The message a finished sync leaves: "Done! " and the parts on its three
/// phases, separated by ", ".
pub open spec fn sync_report_text(discovered: u32, metrics: Result<u32, String>, days: Result<u32, String>) -> Seq<char> {
    "Done! "@ + joined(
        seq![
            count_message(discovered as int, " discovered"@),
            phase_part(metrics, " metrics refreshed"@, "metrics failed: "@),
            phase_part(days, " days synced"@, "daily views failed: "@),
        ],
        ", "@,
    )
}

fn phase_message(outcome: &Result<u32, String>, done: &str, failed: &str) -> (m: String)
    ensures
        m@ == phase_part(*outcome, done@, failed@),
{
    match outcome {
        Ok(n) => unsigned_count_message(*n as u64, done),
        Err(e) => {
            let mut m = String::from_str(failed);
            m.append(e.as_str());
            m
        },
    }
}

/// The report of a sync whose discovery found `discovered` posts, and whose
/// metrics and daily-views phases ended as given.
pub fn sync_report(discovered: u32, metrics: &Result<u32, String>, days: &Result<u32, String>) -> (m: String)
    ensures
        m@ == sync_report_text(discovered, *metrics, *days),
{
    let mut parts: Vec<String> = Vec::new();
    parts.push(unsigned_count_message(discovered as u64, " discovered"));
    parts.push(phase_message(metrics, " metrics refreshed", "metrics failed: "));
    parts.push(phase_message(days, " days synced", "daily views failed: "));
    let body = join(&parts, ", ");
    assert(texts(parts@) =~= seq![
        count_message(discovered as int, " discovered"@),
        phase_part(*metrics, " metrics refreshed"@, "metrics failed: "@),
        phase_part(*days, " days synced"@, "daily views failed: "@),
    ]);
    let mut m = String::from_str("Done! ");
    m.append(body.as_str());
    m
}

// ── Reset ────────────────────────────────────────────────────────────

/// The tables a reset empties, children before parents.
pub const RESET_TABLES: [&'static str; 9] = [
    "engagement_snapshots",
    "post_edges",
    "subject_edges",
    "post_topics",
    "topics",
    "categories",
    "posts",
    "intents",
    "subjects",
];

/// The statement that empties `table` and what refers to it.
pub fn truncate_statement(table: &str) -> (s: String)
    ensures
        s@ == "TRUNCATE "@ + table@ + " CASCADE"@,
{
    let mut s = String::from_str("TRUNCATE ");
    s.append(table);
    s.append(" CASCADE");
    s
}

/// The refusal of a reset while a sync runs.
pub fn reset_refused() -> (r: ResetResult)
    ensures
        !r.success,
        r.message@ == "Cannot reset while sync is running"@,
{
    ResetResult { success: false, message: String::from_str("Cannot reset while sync is running") }
}

/// The answer once the database was wiped.
pub fn reset_done() -> (r: ResetResult)
    ensures
        r.success,
        r.message@ == "Database reset. Trigger a sync to re-fetch all data."@,
{
    ResetResult { success: true, message: String::from_str("Database reset. Trigger a sync to re-fetch all data.") }
}

} // verus!
