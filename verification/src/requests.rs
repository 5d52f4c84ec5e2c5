//! The rules that the compose and reply endpoints enforce on their input,
//! and the bodies they answer with.
use vstd::prelude::*;
use vstd::string::*;
use crate::text::{str_eq, is_blank, blank};
use crate::errors::{AppError, error_text};

verus! {

/// The longest post or reply, in characters.
pub const MAX_TEXT_LENGTH: usize = 500;

/// The body of a refused compose request.
#[derive(Debug)]
pub struct ComposeError {
    pub error: String,
}

/// The answer to a delete request.
#[derive(Debug)]
pub struct DeleteResponse {
    pub deleted: bool,
}

/// The answer to a publish-now request.
#[derive(Debug)]
pub struct PublishNowResponse {
    pub threads_post_id: String,
}

/// The body of a refused reply request.
#[derive(Debug)]
pub struct RepliesError {
    pub error: String,
}

/// The number of replies still awaiting an answer.
#[derive(Debug)]
pub struct CountResponse {
    pub count: i64,
}

/// A reply to send.
#[derive(Debug)]
pub struct ReplyRequest {
    pub text: String,
}

/// The id of the reply that was sent.
#[derive(Debug)]
pub struct ReplyResponse {
    pub our_reply_id: String,
}

/// Whether a reply was dismissed.
#[derive(Debug)]
pub struct DismissResponse {
    pub dismissed: bool,
}

/// How many replies were found answered outside the app.
#[derive(Debug)]
pub struct DetectResponse {
    pub detected: u64,
}

fn compose_error(msg: &str) -> (e: ComposeError)
    ensures
        e.error@ == msg@,
{
    ComposeError { error: String::from_str(msg) }
}

/// Why a post's text is refused, if it is: empty, or longer than 500 characters.
pub open spec fn text_problem(text: Seq<char>) -> Option<Seq<char>> {
    if text.len() == 0 {
        Some("Text cannot be empty"@)
    } else if text.len() > 500 {
        Some("Text exceeds 500 character limit"@)
    } else {
        None
    }
}

fn check_text(text: &str) -> (r: Result<(), ComposeError>)
    ensures
        match text_problem(text@) {
            Some(msg) => r matches Err(e) && e.error@ == msg,
            None => r is Ok,
        },
{
    let n = text.unicode_len();
    if n == 0 {
        return Err(compose_error("Text cannot be empty"));
    }
    if n > MAX_TEXT_LENGTH {
        return Err(compose_error("Text exceeds 500 character limit"));
    }
    Ok(())
}

/// The outcome of a create request: its text must pass, its status
/// (default "draft") must be "draft" or "scheduled", and a scheduled post
/// needs a time. The accepted status otherwise.
pub open spec fn create_outcome(text: Seq<char>, status: Option<Seq<char>>, has_time: bool) -> Result<Seq<char>, Seq<char>> {
    let st = match status {
        Some(s) => s,
        None => "draft"@,
    };
    match text_problem(text) {
        Some(msg) => Err(msg),
        None => if st != "draft"@ && st != "scheduled"@ {
            Err("Status must be 'draft' or 'scheduled'"@)
        } else if st == "scheduled"@ && !has_time {
            Err("scheduled_at is required when status is 'scheduled'"@)
        } else {
            Ok(st)
        },
    }
}

/// Checks a create request; gives the status to store.
pub fn validate_create(text: &str, status: Option<&str>, has_scheduled_at: bool) -> (r: Result<String, ComposeError>)
    ensures
        match create_outcome(text@, match status { Some(s) => Some(s@), None => None }, has_scheduled_at) {
            Ok(st) => r matches Ok(s) && s@ == st,
            Err(msg) => r matches Err(e) && e.error@ == msg,
        },
{
    check_text(text)?;
    let st: &str = match status {
        Some(s) => s,
        None => "draft",
    };
    let is_draft = str_eq(st, "draft");
    let is_scheduled = str_eq(st, "scheduled");
    if !is_draft && !is_scheduled {
        return Err(compose_error("Status must be 'draft' or 'scheduled'"));
    }
    if is_scheduled && !has_scheduled_at {
        return Err(compose_error("scheduled_at is required when status is 'scheduled'"));
    }
    Ok(String::from_str(st))
}

/// The outcome of an update request: a new text must pass, a new status
/// must be "draft", "scheduled" or "cancelled".
pub open spec fn update_problem(text: Option<Seq<char>>, status: Option<Seq<char>>) -> Option<Seq<char>> {
    match text {
        Some(t) if text_problem(t) is Some => text_problem(t),
        _ => match status {
            Some(s) => if s != "draft"@ && s != "scheduled"@ && s != "cancelled"@ {
                Some("Invalid status"@)
            } else {
                None
            },
            None => None,
        },
    }
}

/// Checks an update request.
pub fn validate_update(text: Option<&str>, status: Option<&str>) -> (r: Result<(), ComposeError>)
    ensures
        match update_problem(match text { Some(t) => Some(t@), None => None }, match status { Some(s) => Some(s@), None => None }) {
            Some(msg) => r matches Err(e) && e.error@ == msg,
            None => r is Ok,
        },
{
    match text {
        Some(t) => { check_text(t)?; },
        None => {},
    }
    match status {
        Some(s) => {
            if !str_eq(s, "draft") && !str_eq(s, "scheduled") && !str_eq(s, "cancelled") {
                return Err(compose_error("Invalid status"));
            }
        },
        None => {},
    }
    Ok(())
}

/// Why a post of the given status cannot be published now, if it cannot.
pub open spec fn publish_problem(status: Seq<char>) -> Option<Seq<char>> {
    if status == "published"@ {
        Some("Post is already published"@)
    } else if status == "publishing"@ {
        Some("Post is currently being published"@)
    } else if status == "cancelled"@ {
        Some("Cannot publish a cancelled post"@)
    } else {
        None
    }
}

/// Checks that a post of the given status may be published now.
pub fn check_publishable(status: &str) -> (r: Result<(), ComposeError>)
    ensures
        match publish_problem(status@) {
            Some(msg) => r matches Err(e) && e.error@ == msg,
            None => r is Ok,
        },
{
    if str_eq(status, "published") {
        Err(compose_error("Post is already published"))
    } else if str_eq(status, "publishing") {
        Err(compose_error("Post is currently being published"))
    } else if str_eq(status, "cancelled") {
        Err(compose_error("Cannot publish a cancelled post"))
    } else {
        Ok(())
    }
}

/// Why a reply's text is refused, if it is: blank, or longer than 500 characters.
pub open spec fn reply_problem(text: Seq<char>) -> Option<Seq<char>> {
    if blank(text) {
        Some("Reply text cannot be empty"@)
    } else if text.len() > 500 {
        Some("Reply exceeds 500 character limit"@)
    } else {
        None
    }
}

/// Checks the text of a reply.
pub fn validate_reply(text: &str) -> (r: Result<(), RepliesError>)
    ensures
        match reply_problem(text@) {
            Some(msg) => r matches Err(e) && e.error@ == msg,
            None => r is Ok,
        },
{
    if is_blank(text) {
        return Err(RepliesError { error: String::from_str("Reply text cannot be empty") });
    }
    if text.unicode_len() > MAX_TEXT_LENGTH {
        return Err(RepliesError { error: String::from_str("Reply exceeds 500 character limit") });
    }
    Ok(())
}

/// The status the reply inbox lists: the one asked for, else "unreplied".
pub fn inbox_status(status: Option<&str>) -> (s: String)
    ensures
        s@ == match status {
            Some(x) => x@,
            None => "unreplied"@,
        },
{
    match status {
        Some(x) => String::from_str(x),
        None => String::from_str("unreplied"),
    }
}

/// Whether the scheduler still publishes a post it claimed: not where a
/// fresh read of the post shows a status other than "publishing" (where the
/// read gave nothing, it goes ahead).
pub fn still_claimed(current_status: Option<&str>) -> (b: bool)
    ensures
        b == match current_status {
            Some(s) => s@ == "publishing"@,
            None => true,
        },
{
    match current_status {
        Some(s) => str_eq(s, "publishing"),
        None => true,
    }
}

/// The text of a failed call to the Threads API as the compose and reply
/// endpoints report it.
pub open spec fn gateway_text(e: AppError) -> Seq<char> {
    "Threads API error: "@ + error_text(e)
}

/// The body of a compose request that the Threads API failed.
pub fn compose_gateway_error(e: &AppError) -> (r: ComposeError)
    ensures
        r.error@ == gateway_text(*e),
{
    let mut m = String::from_str("Threads API error: ");
    let t = e.message();
    m.append(t.as_str());
    ComposeError { error: m }
}

/// The body of a reply request that the Threads API failed.
pub fn reply_gateway_error(e: &AppError) -> (r: RepliesError)
    ensures
        r.error@ == gateway_text(*e),
{
    let mut m = String::from_str("Threads API error: ");
    let t = e.message();
    m.append(t.as_str());
    RepliesError { error: m }
}

/// The position of the first reply written by `owner` among the authors of
/// a reply's replies, where there is one.
pub open spec fn owner_answer_of(authors: Seq<Option<String>>, owner: Seq<char>) -> Option<int>
    decreases authors.len(),
{
    if authors.len() == 0 {
        None
    } else if authors[0] matches Some(a) && a@ == owner {
        Some(0)
    } else {
        match owner_answer_of(authors.drop_first(), owner) {
            Some(k) => Some(k + 1),
            None => None,
        }
    }
}

/// Finds the owner's answer among the replies to a reply: a reply counts as
/// answered outside the app where one of its replies is the owner's.
pub fn owner_answer(authors: &Vec<Option<String>>, owner: &str) -> (r: Option<usize>)
    ensures
        match r {
            Some(k) => owner_answer_of(authors@, owner@) == Some(k as int) && k < authors@.len(),
            None => owner_answer_of(authors@, owner@) is None,
        },
{
    let mut k: usize = 0;
    assert(authors@.skip(0) =~= authors@);
    while k < authors.len()
        invariant
            k <= authors@.len(),
            owner_answer_of(authors@, owner@) == match owner_answer_of(authors@.skip(k as int), owner@) {
                Some(j) => Some(j + k),
                None => None,
            },
        decreases authors.len() - k,
    {
        assert(authors@.skip(k as int).drop_first() =~= authors@.skip(k + 1));
        match &authors[k] {
            Some(a) => {
                if str_eq(a.as_str(), owner) {
                    return Some(k);
                }
            },
            None => {},
        }
        k = k + 1;
    }
    None
}

} // verus!
