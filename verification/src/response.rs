use crate::envelope::{
    error_summary_of, limits_summary_of, limits_view, parse_error_summary, parse_limits_summary,
    summary_view, DbxRequestErrorSummary, DbxRequestLimitsErrorSummary, ErrorSummaryView,
    LimitsSummaryView,
};
use crate::error::{DropboxError, DropboxResult, ErrorKind, Failure};
use crate::text::{
    after_segment, body_text, decimal, leading_segment, lossy_text, push_decimal,
    split_first_segment,
};
use vstd::prelude::*;

verus! {

/// What a transport hands back once a response has arrived and its body has
/// been read to the end.
#[derive(Debug)]
pub struct Response {
    pub status: u16,
    pub body: Vec<u8>,
}

/// The failure that a conflict summary stands for. The part before the
/// first `/` selects the kind and the rest, kept as it is, becomes the
/// message; a summary with another first part is a plain conflict and is
/// kept whole.
pub open spec fn conflict_failure(error_summary: Seq<char>) -> Failure {
    let prefix = leading_segment(error_summary);
    let remainder = after_segment(error_summary);
    if prefix == "path"@ {
        Failure::plain(ErrorKind::Path, remainder)
    } else if prefix == "from_lookup"@ {
        Failure::plain(ErrorKind::FromLookUp, remainder)
    } else if prefix == "to"@ {
        Failure::plain(ErrorKind::Existed, remainder)
    } else {
        Failure::plain(ErrorKind::Conflict, error_summary)
    }
}

/// The message of a rate limit that names its delay.
pub open spec fn limits_message(error_summary: Seq<char>, retry_after: u32) -> Seq<char> {
    error_summary + " , retry after "@ + decimal(retry_after as nat)
}

/// The summary of the envelope where there is one, the body text otherwise.
pub open spec fn summary_or_text(text: Seq<char>, summary: Option<ErrorSummaryView>) -> Seq<char> {
    match summary {
        Some(s) => s.error_summary,
        None => text,
    }
}

/// The failure that a status other than 200 stands for, given the body
/// text and the envelopes that were read out of it.
pub open spec fn failure_of(
    status: u16,
    text: Seq<char>,
    summary: Option<ErrorSummaryView>,
    limits: Option<LimitsSummaryView>,
) -> Failure {
    if status == 400 {
        Failure::plain(ErrorKind::Path, text)
    } else if status == 401 {
        Failure::plain(ErrorKind::InvalidToken, summary_or_text(text, summary))
    } else if status == 403 {
        Failure::plain(ErrorKind::Access, summary_or_text(text, summary))
    } else if status == 409 {
        match summary {
            Some(s) => conflict_failure(s.error_summary),
            None => Failure::plain(ErrorKind::Conflict, text),
        }
    } else if status == 429 {
        match limits {
            Some(l) => Failure {
                kind: ErrorKind::RequestLimits,
                message: limits_message(l.error_summary, l.retry_after),
                retry_after: Some(l.retry_after),
            },
            None => Failure::plain(ErrorKind::RequestLimits, text),
        }
    } else if status == 500 || status == 503 {
        Failure::plain(ErrorKind::Server, text)
    } else {
        Failure::plain(ErrorKind::Other, summary_or_text(text, summary))
    }
}

/// The failure that a status other than 200 and a body text stand for.
pub open spec fn classified(status: u16, text: Seq<char>) -> Failure {
    failure_of(status, text, error_summary_of(text), limits_summary_of(text))
}

/// What a response comes to: its body on status 200, a failure otherwise.
pub open spec fn outcome_of(status: u16, body: Seq<u8>) -> Result<Seq<u8>, Failure> {
    if status == 200 {
        Ok(body)
    } else {
        Err(classified(status, body_text(body)))
    }
}

/// Sorts a conflict by the first part of its summary.
pub fn dispatch_conflict(error_summary: String) -> (e: DropboxError)
    ensures
        e@ == conflict_failure(error_summary@),
{
    let (prefix, remainder) = split_first_segment(error_summary.as_str());
    if prefix == String::from_str("path") {
        DropboxError::DbxPathError(remainder)
    } else if prefix == String::from_str("from_lookup") {
        DropboxError::DbxFromLookUpError(remainder)
    } else if prefix == String::from_str("to") {
        DropboxError::DbxExistedError(remainder)
    } else {
        DropboxError::DbxConflictError(error_summary)
    }
}

/// The rate-limit error that names its delay in message and field.
pub fn limits_error(limits: DbxRequestLimitsErrorSummary) -> (e: DropboxError)
    ensures
        e@ == (Failure {
            kind: ErrorKind::RequestLimits,
            message: limits_message(limits@.error_summary, limits@.retry_after),
            retry_after: Some(limits@.retry_after),
        }),
{
    let retry_after = limits.error.retry_after;
    let mut message = limits.error_summary;
    message.append(" , retry after ");
    push_decimal(&mut message, retry_after);
    DropboxError::DbxRequestLimitsError(message, Some(retry_after))
}

fn message_from(text: String, summary: Option<DbxRequestErrorSummary>) -> (message: String)
    ensures
        message@ == summary_or_text(text@, summary_view(summary)),
{
    match summary {
        Some(s) => s.error_summary,
        None => text,
    }
}

/// Classifies a status other than 200 from the body text and the envelopes
/// that were read out of it.
pub fn failure_from_parts(
    status: u16,
    text: String,
    summary: Option<DbxRequestErrorSummary>,
    limits: Option<DbxRequestLimitsErrorSummary>,
) -> (e: DropboxError)
    requires
        status != 200,
    ensures
        e@ == failure_of(status, text@, summary_view(summary), limits_view(limits)),
{
    if status == 400 {
        DropboxError::DbxPathError(text)
    } else if status == 401 {
        DropboxError::DbxInvalidTokenError(message_from(text, summary))
    } else if status == 403 {
        DropboxError::DbxAccessError(message_from(text, summary))
    } else if status == 409 {
        match summary {
            Some(s) => dispatch_conflict(s.error_summary),
            None => DropboxError::DbxConflictError(text),
        }
    } else if status == 429 {
        match limits {
            Some(l) => limits_error(l),
            None => DropboxError::DbxRequestLimitsError(text, None),
        }
    } else if status == 500 || status == 503 {
        DropboxError::DbxServerError(text)
    } else {
        DropboxError::OtherError(message_from(text, summary))
    }
}

/// Whether the classification of the status looks for the error envelope
/// in the body.
pub open spec fn reads_summary(status: u16) -> bool {
    status != 400 && status != 429 && status != 500 && status != 503
}

/// Whether the classification of the status looks for the rate-limit
/// envelope in the body.
pub open spec fn reads_limits(status: u16) -> bool {
    status == 429
}

/// Classifies a status other than 200 and the text of its body. The text
/// is parsed at most once, and only for a status that reads an envelope.
pub fn classify_failure(status: u16, text: String) -> (e: DropboxError)
    requires
        status != 200,
    ensures
        e@ == classified(status, text@),
{
    if status == 429 {
        let limits = parse_limits_summary(text.as_str());
        failure_from_parts(status, text, None, limits)
    } else if status == 400 || status == 500 || status == 503 {
        failure_from_parts(status, text, None, None)
    } else {
        let summary = parse_error_summary(text.as_str());
        failure_from_parts(status, text, summary, None)
    }
}

/// Classifies a response: the body on status 200, and on any other status
/// the failure that the status and the body stand for.
pub fn classify(response: Response) -> (r: DropboxResult<Vec<u8>>)
    ensures
        response.status == 200 <==> r is Ok,
        match outcome_of(response.status, response.body@) {
            Ok(body) => r is Ok && r->Ok_0@ == body,
            Err(failure) => r is Err && r->Err_0@ == failure,
        },
{
    if response.status == 200 {
        Ok(response.body)
    } else {
        let text = lossy_text(response.body.as_slice());
        Err(classify_failure(response.status, text))
    }
}

} // verus!
