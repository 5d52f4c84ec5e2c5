//! The errors of the server and the text each one shows.
use vstd::prelude::*;
use crate::text::{format_u64, decimal_text};

verus! {

/// An error of the server. Errors of the database, the HTTP client and the
/// JSON codec carry the text those libraries gave them.
#[derive(Debug)]
pub enum AppError {
    ThreadsApi(String),
    MercuryApi(String),
    Database(String),
    Http(String),
    Json(String),
    RateLimited(u64),
}

/// The text an error shows.
pub open spec fn error_text(e: AppError) -> Seq<char> {
    match e {
        AppError::ThreadsApi(m) => "Threads API error: "@ + m@,
        AppError::MercuryApi(m) => "Mercury API error: "@ + m@,
        AppError::Database(m) => "Database error: "@ + m@,
        AppError::Http(m) => "HTTP error: "@ + m@,
        AppError::Json(m) => "JSON error: "@ + m@,
        AppError::RateLimited(secs) => "Rate limited, retry after "@ + decimal_text(secs as int) + "s"@,
    }
}

fn prefixed(prefix: &str, m: &String) -> (s: String)
    ensures
        s@ == prefix@ + m@,
{
    let mut s = String::from_str(prefix);
    s.append(m.as_str());
    s
}

impl AppError {
    /// The text this error shows.
    pub fn message(&self) -> (s: String)
        ensures
            s@ == error_text(*self),
    {
        match self {
            AppError::ThreadsApi(m) => prefixed("Threads API error: ", m),
            AppError::MercuryApi(m) => prefixed("Mercury API error: ", m),
            AppError::Database(m) => prefixed("Database error: ", m),
            AppError::Http(m) => prefixed("HTTP error: ", m),
            AppError::Json(m) => prefixed("JSON error: ", m),
            AppError::RateLimited(secs) => {
                let mut s = String::from_str("Rate limited, retry after ");
                let n = format_u64(*secs);
                s.append(n.as_str());
                s.append("s");
                s
            },
        }
    }
}

/// The error of an LLM reply that did not parse as `what`: the parser's
/// message and the text it was given.
pub fn unparsable_reply(what: &str, parser_error: &str, raw: &str) -> (e: AppError)
    ensures
        e is MercuryApi,
        e->MercuryApi_0@ == "Failed to parse "@ + what@ + ": "@ + parser_error@ + ". Raw: "@ + raw@,
{
    let mut m = String::from_str("Failed to parse ");
    m.append(what);
    m.append(": ");
    m.append(parser_error);
    m.append(". Raw: ");
    m.append(raw);
    AppError::MercuryApi(m)
}

} // verus!
