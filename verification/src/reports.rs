//! The LLM-written reports (the insights report and the emotion narrative):
//! their shape, when there is enough data to write one, and how the
//! endpoints answer with them.
use vstd::prelude::*;
use crate::errors::AppError;
use crate::text::{format_i64, format_u64, decimal_text};
use crate::threads::Timestamp;
use crate::dates::{rfc3339_of, rfc3339_text};

verus! {

/// One observation of the emotion narrative.
#[derive(Debug)]
pub struct EmotionObservation {
    pub text: String,
    pub cited_posts: Vec<String>,
    pub emotion: String,
}

/// The emotion narrative: a headline and its observations.
#[derive(Debug)]
pub struct EmotionNarrative {
    pub headline: String,
    pub observations: Vec<EmotionObservation>,
}

/// One item of a section of the insights report.
#[derive(Debug)]
pub struct InsightsItem {
    pub observation: String,
    pub cited_posts: Vec<String>,
    pub tone: String,
}

/// One section of the insights report.
#[derive(Debug)]
pub struct InsightsSection {
    pub key: String,
    pub title: String,
    pub summary: String,
    pub items: Vec<InsightsItem>,
}

/// The insights report: a headline and its sections.
#[derive(Debug)]
pub struct InsightsReport {
    pub headline: String,
    pub sections: Vec<InsightsSection>,
}

/// A stored emotion narrative as the endpoint returns it.
#[derive(Debug)]
pub struct NarrativeResponse {
    pub id: String,
    pub generated_at: String,
    pub trigger_type: String,
    pub narrative: EmotionNarrative,
}

/// A stored insights report as the endpoint returns it.
#[derive(Debug)]
pub struct InsightsResponse {
    pub id: String,
    pub generated_at: String,
    pub trigger_type: String,
    pub report: InsightsReport,
}

/// The error body of the emotion endpoints.
#[derive(Debug)]
pub struct EmotionsError {
    pub error: String,
}

/// The error body of the insights endpoints.
#[derive(Debug)]
pub struct InsightsError {
    pub error: String,
}

/// How many posts the emotion backfill classified.
#[derive(Debug)]
pub struct BackfillResponse {
    pub classified: u32,
}

/// The emotions a post can be classified with.
pub const EMOTIONS: [&'static str; 7] = [
    "vulnerable",
    "curious",
    "playful",
    "confident",
    "reflective",
    "frustrated",
    "provocative",
];

/// The fewest posts in the window that a report is written from.
pub const MIN_POSTS_THRESHOLD: usize = 5;

/// Whether an insights report can be written from `posts` posts of the
/// window: an error naming the count where they are fewer than five.
pub fn check_insights_data(posts: usize) -> (r: Result<(), AppError>)
    ensures
        posts >= MIN_POSTS_THRESHOLD <==> r is Ok,
        r matches Err(e) ==> e is MercuryApi
            && e->MercuryApi_0@ == "Insufficient data: need at least 5 posts in the last 30 days, found "@
            + decimal_text(posts as int),
{
    if posts >= MIN_POSTS_THRESHOLD {
        Ok(())
    } else {
        let mut m = String::from_str("Insufficient data: need at least 5 posts in the last 30 days, found ");
        let n = format_u64(posts as u64);
        m.append(n.as_str());
        Err(AppError::MercuryApi(m))
    }
}

/// Whether an emotion narrative can be written from `total` classified
/// posts of the window: an error naming the count where they are fewer
/// than five.
pub fn check_narrative_data(total: i64) -> (r: Result<(), AppError>)
    ensures
        total >= 5 <==> r is Ok,
        r matches Err(e) ==> e is MercuryApi
            && e->MercuryApi_0@ == "Insufficient data: need at least 5 posts with emotions in the last 30 days, found "@
            + decimal_text(total as int),
{
    if total >= 5 {
        Ok(())
    } else {
        let mut m = String::from_str("Insufficient data: need at least 5 posts with emotions in the last 30 days, found ");
        let n = format_i64(total);
        m.append(n.as_str());
        Err(AppError::MercuryApi(m))
    }
}

/// The error body of an emotion endpoint for an error of the server.
pub fn emotions_error(e: &AppError) -> (r: EmotionsError)
    ensures
        r.error@ == crate::errors::error_text(*e),
{
    EmotionsError { error: e.message() }
}

/// The error body of an insights endpoint for an error of the server.
pub fn insights_error(e: &AppError) -> (r: InsightsError)
    ensures
        r.error@ == crate::errors::error_text(*e),
{
    InsightsError { error: e.message() }
}

/// The answer where no narrative was stored yet.
pub fn no_narrative_yet() -> (r: EmotionsError)
    ensures
        r.error@ == "No emotion narrative generated yet"@,
{
    EmotionsError { error: String::from_str("No emotion narrative generated yet") }
}

/// The answer where no report was stored yet.
pub fn no_report_yet() -> (r: InsightsError)
    ensures
        r.error@ == "No insights report generated yet"@,
{
    InsightsError { error: String::from_str("No insights report generated yet") }
}

/// A stored narrative as the endpoint returns it, its time written as
/// RFC 3339; `None` where chrono cannot write that time.
pub fn narrative_response(id: String, generated_at: &Timestamp, trigger_type: String, narrative: EmotionNarrative) -> (r: Option<NarrativeResponse>)
    ensures
        match r {
            Some(n) => {
                &&& rfc3339_of(generated_at.secs as int, generated_at.nanos as int) == Some(n.generated_at@)
                &&& n.id == id
                &&& n.trigger_type == trigger_type
                &&& n.narrative == narrative
            },
            None => rfc3339_of(generated_at.secs as int, generated_at.nanos as int) is None,
        },
{
    match rfc3339_text(generated_at) {
        Some(g) => Some(NarrativeResponse { id, generated_at: g, trigger_type, narrative }),
        None => None,
    }
}

/// A stored insights report as the endpoint returns it, its time written as
/// RFC 3339; `None` where chrono cannot write that time.
pub fn insights_response(id: String, generated_at: &Timestamp, trigger_type: String, report: InsightsReport) -> (r: Option<InsightsResponse>)
    ensures
        match r {
            Some(n) => {
                &&& rfc3339_of(generated_at.secs as int, generated_at.nanos as int) == Some(n.generated_at@)
                &&& n.id == id
                &&& n.trigger_type == trigger_type
                &&& n.report == report
            },
            None => rfc3339_of(generated_at.secs as int, generated_at.nanos as int) is None,
        },
{
    match rfc3339_text(generated_at) {
        Some(g) => Some(InsightsResponse { id, generated_at: g, trigger_type, report }),
        None => None,
    }
}

} // verus!
