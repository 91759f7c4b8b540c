use crate::json::{json_document, json_member, json_string, json_unsigned, member, parse_document};
use vstd::prelude::*;

verus! {

/// The tag of a tagged union in an error body.
#[derive(Debug)]
pub struct DbxRequestErrorTag {
    pub tag: String,
}

/// The error envelope that the service sends with most failures.
#[derive(Debug)]
pub struct DbxRequestErrorSummary {
    pub error_summary: String,
    pub error: DbxRequestErrorTag,
}

/// The `error` member of a rate-limit envelope.
#[derive(Debug)]
pub struct DbxRequestErrorReason {
    pub reason: DbxRequestErrorTag,
    pub retry_after: u32,
}

/// The envelope that the service sends when it limits the rate of requests.
#[derive(Debug)]
pub struct DbxRequestLimitsErrorSummary {
    pub error_summary: String,
    pub error: DbxRequestErrorReason,
}

pub struct ErrorSummaryView {
    pub error_summary: Seq<char>,
    pub tag: Seq<char>,
}

pub struct LimitsSummaryView {
    pub error_summary: Seq<char>,
    pub reason: Seq<char>,
    pub retry_after: u32,
}

impl View for DbxRequestErrorTag {
    type V = Seq<char>;

    open spec fn view(&self) -> Seq<char> {
        self.tag@
    }
}

impl View for DbxRequestErrorSummary {
    type V = ErrorSummaryView;

    open spec fn view(&self) -> ErrorSummaryView {
        ErrorSummaryView { error_summary: self.error_summary@, tag: self.error@ }
    }
}

impl View for DbxRequestLimitsErrorSummary {
    type V = LimitsSummaryView;

    open spec fn view(&self) -> LimitsSummaryView {
        LimitsSummaryView {
            error_summary: self.error_summary@,
            reason: self.error.reason@,
            retry_after: self.error.retry_after,
        }
    }
}

/// The view of an envelope that may be absent.
pub open spec fn summary_view(summary: Option<DbxRequestErrorSummary>) -> Option<ErrorSummaryView> {
    match summary {
        Some(s) => Some(s@),
        None => None,
    }
}

/// The view of a rate-limit envelope that may be absent.
pub open spec fn limits_view(limits: Option<DbxRequestLimitsErrorSummary>) -> Option<
    LimitsSummaryView,
> {
    match limits {
        Some(l) => Some(l@),
        None => None,
    }
}

/// The member `key` of `value` where it is a string.
pub open spec fn string_member(value: serde_json::Value, key: Seq<char>) -> Option<Seq<char>> {
    match json_member(value, key) {
        Some(m) => json_string(m),
        None => None,
    }
}

/// The tag of `value`: its string member `.tag`, also accepted under the
/// name `tag`. A value that has a member under both names has no tag.
pub open spec fn tag_in(value: serde_json::Value) -> Option<Seq<char>> {
    match (json_member(value, ".tag"@), json_member(value, "tag"@)) {
        (Some(t), None) => json_string(t),
        (None, Some(t)) => json_string(t),
        _ => None,
    }
}

/// The error envelope in a document: a string `error_summary` beside an
/// `error` that has a tag. Other members are ignored.
pub open spec fn error_summary_in(doc: serde_json::Value) -> Option<ErrorSummaryView> {
    match (string_member(doc, "error_summary"@), json_member(doc, "error"@)) {
        (Some(error_summary), Some(error)) => match tag_in(error) {
            Some(tag) => Some(ErrorSummaryView { error_summary, tag }),
            None => None,
        },
        _ => None,
    }
}

/// The delay in a rate-limit `error`: its member `retry_after` where that
/// is an integer from zero to `u32::MAX`.
pub open spec fn retry_after_in(error: serde_json::Value) -> Option<u32> {
    match json_member(error, "retry_after"@) {
        Some(m) => match json_unsigned(m) {
            Some(n) => if n <= u32::MAX {
                Some(n as u32)
            } else {
                None
            },
            None => None,
        },
        None => None,
    }
}

/// The rate-limit envelope in a document: a string `error_summary` beside
/// an `error` that holds a `reason` with a tag and a delay `retry_after`.
pub open spec fn limits_summary_in(doc: serde_json::Value) -> Option<LimitsSummaryView> {
    match (string_member(doc, "error_summary"@), json_member(doc, "error"@)) {
        (Some(error_summary), Some(error)) => match json_member(error, "reason"@) {
            Some(reason_value) => match (tag_in(reason_value), retry_after_in(error)) {
                (Some(reason), Some(retry_after)) => Some(
                    LimitsSummaryView { error_summary, reason, retry_after },
                ),
                _ => None,
            },
            None => None,
        },
        _ => None,
    }
}

/// The error envelope that a body text holds, if it holds one.
pub open spec fn error_summary_of(text: Seq<char>) -> Option<ErrorSummaryView> {
    match json_document(text) {
        Some(doc) => error_summary_in(doc),
        None => None,
    }
}

/// The rate-limit envelope that a body text holds, if it holds one.
pub open spec fn limits_summary_of(text: Seq<char>) -> Option<LimitsSummaryView> {
    match json_document(text) {
        Some(doc) => limits_summary_in(doc),
        None => None,
    }
}

fn read_string(value: &serde_json::Value, key: &str) -> (found: Option<String>)
    ensures
        found is Some <==> string_member(*value, key@) is Some,
        found is Some ==> Some(found->Some_0@) == string_member(*value, key@),
{
    match member(value, key) {
        Some(m) => match m.as_str() {
            Some(s) => Some(String::from_str(s)),
            None => None,
        },
        None => None,
    }
}

fn read_tag(value: &serde_json::Value) -> (found: Option<DbxRequestErrorTag>)
    ensures
        found is Some <==> tag_in(*value) is Some,
        found is Some ==> Some(found->Some_0@) == tag_in(*value),
{
    let dotted = member(value, ".tag");
    let plain = member(value, "tag");
    let holder = match (dotted, plain) {
        (Some(t), None) => t,
        (None, Some(t)) => t,
        _ => {
            return None;
        },
    };
    match holder.as_str() {
        Some(s) => Some(DbxRequestErrorTag { tag: String::from_str(s) }),
        None => None,
    }
}

fn read_retry_after(error: &serde_json::Value) -> (found: Option<u32>)
    ensures
        found == retry_after_in(*error),
{
    match member(error, "retry_after") {
        Some(m) => match m.as_u64() {
            Some(n) => if n <= u32::MAX as u64 {
                Some(n as u32)
            } else {
                None
            },
            None => None,
        },
        None => None,
    }
}

fn read_error_summary(doc: &serde_json::Value) -> (found: Option<DbxRequestErrorSummary>)
    ensures
        summary_view(found) == error_summary_in(*doc),
{
    let error_summary = match read_string(doc, "error_summary") {
        Some(s) => s,
        None => {
            return None;
        },
    };
    let error = match member(doc, "error") {
        Some(e) => e,
        None => {
            return None;
        },
    };
    match read_tag(error) {
        Some(tag) => Some(DbxRequestErrorSummary { error_summary, error: tag }),
        None => None,
    }
}

fn read_limits_summary(doc: &serde_json::Value) -> (found: Option<DbxRequestLimitsErrorSummary>)
    ensures
        limits_view(found) == limits_summary_in(*doc),
{
    let error_summary = match read_string(doc, "error_summary") {
        Some(s) => s,
        None => {
            return None;
        },
    };
    let error = match member(doc, "error") {
        Some(e) => e,
        None => {
            return None;
        },
    };
    let reason_value = match member(error, "reason") {
        Some(r) => r,
        None => {
            return None;
        },
    };
    let reason = match read_tag(reason_value) {
        Some(t) => t,
        None => {
            return None;
        },
    };
    match read_retry_after(error) {
        Some(retry_after) => Some(
            DbxRequestLimitsErrorSummary {
                error_summary,
                error: DbxRequestErrorReason { reason, retry_after },
            },
        ),
        None => None,
    }
}

/// Reads the error envelope out of a body text. `None` where the text is
/// not JSON or has another shape.
pub fn parse_error_summary(text: &str) -> (found: Option<DbxRequestErrorSummary>)
    ensures
        summary_view(found) == error_summary_of(text@),
{
    match parse_document(text) {
        Ok(doc) => read_error_summary(&doc),
        Err(_) => None,
    }
}

/// Reads the rate-limit envelope out of a body text. `None` where the text
/// is not JSON or has another shape.
pub fn parse_limits_summary(text: &str) -> (found: Option<DbxRequestLimitsErrorSummary>)
    ensures
        limits_view(found) == limits_summary_of(text@),
{
    match parse_document(text) {
        Ok(doc) => read_limits_summary(&doc),
        Err(_) => None,
    }
}

} // verus!
