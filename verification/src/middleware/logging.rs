//! The line that the log gets for each response.

use crate::utils::strings::str_eq;
use vstd::prelude::*;
use vstd::string::*;

verus! {

/// How much a line matters.
#[derive(Debug, PartialEq, Eq, Structural, Clone, Copy)]
pub enum LogLevel {
    Trace,
    Debug,
}

/// A line for the log.
#[derive(Debug)]
pub struct LogLine {
    pub level: LogLevel,
    pub text: String,
}

/// The address that the log names for a response: the one that was
/// requested, or `unknown` where it was not recorded.
pub open spec fn logged_url(url: Option<Seq<char>>) -> Seq<char> {
    match url {
        Some(url) => url,
        None => "unknown"@,
    }
}

/// The line for a response: address, status and latency with a blank
/// between them. Health checks are logged at the lowest level, so that they
/// do not drown the rest.
pub open spec fn log_line(url: Option<Seq<char>>, status: Seq<char>, latency: Seq<char>) -> (
    LogLevel,
    Seq<char>,
) {
    (
        if logged_url(url) == "/healthcheck"@ {
            LogLevel::Trace
        } else {
            LogLevel::Debug
        },
        logged_url(url) + " "@ + status + " "@ + latency,
    )
}

/// See [`log_line`]. `url` is the address that was requested, as far as it
/// was recorded; `status` and `latency` are the status of the response and
/// the time it took, as text.
pub fn logging_middleware(url: Option<&str>, status: &str, latency: &str) -> (line: LogLine)
    ensures
        (line.level, line.text@) == log_line(
            match url {
                Some(url) => Some(url@),
                None => None,
            },
            status@,
            latency@,
        ),
{
    let url = match url {
        Some(url) => url,
        None => "unknown",
    };
    let level = if str_eq(url, "/healthcheck") {
        LogLevel::Trace
    } else {
        LogLevel::Debug
    };
    let mut text = String::from_str(url);
    text.append(" ");
    text.append(status);
    text.append(" ");
    text.append(latency);
    LogLine { level, text }
}

} // verus!
