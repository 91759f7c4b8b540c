use dropbox_client::envelope::{
    parse_error_summary, parse_limits_summary, DbxRequestErrorReason, DbxRequestErrorSummary,
    DbxRequestErrorTag, DbxRequestLimitsErrorSummary,
};
use dropbox_client::response::{
    classify_failure, dispatch_conflict, failure_from_parts, limits_error,
};
use dropbox_client::{classify, DropboxError, ErrorKind, Response};

fn reply(status: u16, body: &str) -> Response {
    Response { status, body: body.as_bytes().to_vec() }
}

fn envelope(summary: &str, tag: &str) -> String {
    format!("{{\"error_summary\":\"{}\",\"error\":{{\".tag\":\"{}\"}}}}", summary, tag)
}

fn kind_of(status: u16, body: &str) -> ErrorKind {
    classify(reply(status, body)).unwrap_err().kind()
}

#[test]
fn status_200_is_ok_whatever_the_body() {
    assert_eq!(classify(reply(200, "")), Ok(Vec::new()));
    assert_eq!(classify(reply(200, "hello")), Ok(b"hello".to_vec()));
    let looks_like_an_error = envelope("path/not_found/.", "path");
    assert_eq!(
        classify(reply(200, &looks_like_an_error)),
        Ok(looks_like_an_error.as_bytes().to_vec())
    );
    assert_eq!(
        classify(Response { status: 200, body: vec![0xff, 0x00, 0x80] }),
        Ok(vec![0xff, 0x00, 0x80])
    );
}

#[test]
fn every_other_status_is_an_error_of_its_kind() {
    let body = envelope("other/thing", "other");
    assert_eq!(kind_of(400, &body), ErrorKind::Path);
    assert_eq!(kind_of(401, &body), ErrorKind::InvalidToken);
    assert_eq!(kind_of(403, &body), ErrorKind::Access);
    assert_eq!(kind_of(409, &body), ErrorKind::Conflict);
    assert_eq!(kind_of(429, &body), ErrorKind::RequestLimits);
    assert_eq!(kind_of(500, &body), ErrorKind::Server);
    assert_eq!(kind_of(503, &body), ErrorKind::Server);
    for status in [0u16, 100, 199, 201, 204, 206, 301, 404, 408, 418, 502, 504, 599, 65535] {
        assert_eq!(kind_of(status, &body), ErrorKind::Other, "status {}", status);
        assert_eq!(kind_of(status, "plain"), ErrorKind::Other, "status {}", status);
    }
}

#[test]
fn no_status_but_200_is_ok() {
    for status in 0u16..=1000 {
        let r = classify(reply(status, "x"));
        assert_eq!(r.is_ok(), status == 200, "status {}", status);
    }
}

#[test]
fn status_400_keeps_the_raw_text() {
    let body = envelope("path/not_found/.", "path");
    assert_eq!(classify(reply(400, &body)), Err(DropboxError::DbxPathError(body.clone())));
    assert_eq!(
        classify(reply(400, "Error in call to API function")),
        Err(DropboxError::DbxPathError("Error in call to API function".to_string()))
    );
}

#[test]
fn status_401_takes_the_summary_of_an_envelope() {
    let body = envelope("invalid_access_token/..", "invalid_access_token");
    assert_eq!(
        classify(reply(401, &body)),
        Err(DropboxError::DbxInvalidTokenError("invalid_access_token/..".to_string()))
    );
}

#[test]
fn status_401_falls_back_to_the_raw_text() {
    assert_eq!(
        classify(reply(401, "token expired")),
        Err(DropboxError::DbxInvalidTokenError("token expired".to_string()))
    );
    assert_eq!(
        classify(reply(401, "{\"error_summary\":\"no error member\"}")),
        Err(DropboxError::DbxInvalidTokenError(
            "{\"error_summary\":\"no error member\"}".to_string()
        ))
    );
}

#[test]
fn status_403_takes_the_summary_or_the_raw_text() {
    let body = envelope("no_permission/.", "no_permission");
    assert_eq!(
        classify(reply(403, &body)),
        Err(DropboxError::DbxAccessError("no_permission/.".to_string()))
    );
    assert_eq!(
        classify(reply(403, "<html>forbidden</html>")),
        Err(DropboxError::DbxAccessError("<html>forbidden</html>".to_string()))
    );
}

#[test]
fn conflict_with_path_prefix() {
    let body = envelope("path/not_found/.", "path");
    assert_eq!(
        classify(reply(409, &body)),
        Err(DropboxError::DbxPathError("not_found/.".to_string()))
    );
}

#[test]
fn conflict_with_from_lookup_prefix() {
    let body = envelope("from_lookup/not_found", "from_lookup");
    assert_eq!(
        classify(reply(409, &body)),
        Err(DropboxError::DbxFromLookUpError("not_found".to_string()))
    );
}

#[test]
fn conflict_with_to_prefix() {
    let body = envelope("to/conflict", "to");
    assert_eq!(
        classify(reply(409, &body)),
        Err(DropboxError::DbxExistedError("conflict".to_string()))
    );
}

#[test]
fn conflict_with_unknown_prefix_is_kept_whole() {
    let body = envelope("to_do/nothing", "to_do");
    assert_eq!(
        classify(reply(409, &body)),
        Err(DropboxError::DbxConflictError("to_do/nothing".to_string()))
    );
}

#[test]
fn conflict_dispatch_reads_the_first_part_only() {
    assert_eq!(
        dispatch_conflict("path/a/b/c//d/".to_string()),
        DropboxError::DbxPathError("a/b/c//d/".to_string())
    );
    assert_eq!(
        dispatch_conflict("to/path/from_lookup".to_string()),
        DropboxError::DbxExistedError("path/from_lookup".to_string())
    );
    assert_eq!(
        dispatch_conflict("other/path/x".to_string()),
        DropboxError::DbxConflictError("other/path/x".to_string())
    );
    assert_eq!(
        dispatch_conflict("/path/x".to_string()),
        DropboxError::DbxConflictError("/path/x".to_string())
    );
    assert_eq!(
        dispatch_conflict("Path/x".to_string()),
        DropboxError::DbxConflictError("Path/x".to_string())
    );
    assert_eq!(
        dispatch_conflict("paths/x".to_string()),
        DropboxError::DbxConflictError("paths/x".to_string())
    );
    assert_eq!(
        dispatch_conflict("pat/h".to_string()),
        DropboxError::DbxConflictError("pat/h".to_string())
    );
}

#[test]
fn conflict_dispatch_without_a_slash() {
    assert_eq!(dispatch_conflict("path".to_string()), DropboxError::DbxPathError(String::new()));
    assert_eq!(
        dispatch_conflict("from_lookup".to_string()),
        DropboxError::DbxFromLookUpError(String::new())
    );
    assert_eq!(dispatch_conflict("to".to_string()), DropboxError::DbxExistedError(String::new()));
    assert_eq!(dispatch_conflict("path/".to_string()), DropboxError::DbxPathError(String::new()));
    assert_eq!(
        dispatch_conflict("too_many_write_operations".to_string()),
        DropboxError::DbxConflictError("too_many_write_operations".to_string())
    );
    assert_eq!(dispatch_conflict(String::new()), DropboxError::DbxConflictError(String::new()));
}

#[test]
fn conflict_dispatch_keeps_text_beyond_ascii() {
    assert_eq!(
        dispatch_conflict("path/caf\u{e9}/\u{1f600}".to_string()),
        DropboxError::DbxPathError("caf\u{e9}/\u{1f600}".to_string())
    );
    assert_eq!(
        dispatch_conflict("\u{e9}t\u{e9}/path".to_string()),
        DropboxError::DbxConflictError("\u{e9}t\u{e9}/path".to_string())
    );
}

#[test]
fn conflict_without_an_envelope_keeps_the_raw_text() {
    assert_eq!(
        classify(reply(409, "path/not_found")),
        Err(DropboxError::DbxConflictError("path/not_found".to_string()))
    );
    assert_eq!(classify(reply(409, "")), Err(DropboxError::DbxConflictError(String::new())));
}

#[test]
fn rate_limit_with_an_envelope() {
    let body = "{\"error_summary\":\"too_many_requests/...\",\"error\":{\"reason\":{\".tag\":\"too_many_requests\"},\"retry_after\":30}}";
    let e = classify(reply(429, body)).unwrap_err();
    assert_eq!(e.kind(), ErrorKind::RequestLimits);
    assert!(e.message().contains("30"));
    assert_eq!(e.message(), "too_many_requests/... , retry after 30");
    assert_eq!(e.retry_after(), Some(30));
    assert_eq!(
        e,
        DropboxError::DbxRequestLimitsError(
            "too_many_requests/... , retry after 30".to_string(),
            Some(30)
        )
    );
}

#[test]
fn rate_limit_with_plain_text() {
    let e = classify(reply(429, "rate limited")).unwrap_err();
    assert_eq!(e.kind(), ErrorKind::RequestLimits);
    assert_eq!(e.message(), "rate limited");
    assert_eq!(e.retry_after(), None);
    assert_eq!(e, DropboxError::DbxRequestLimitsError("rate limited".to_string(), None));
}

#[test]
fn rate_limit_with_the_ordinary_envelope_keeps_the_raw_text() {
    let body = envelope("too_many_requests/..", "too_many_requests");
    assert_eq!(
        classify(reply(429, &body)),
        Err(DropboxError::DbxRequestLimitsError(body.clone(), None))
    );
}

#[test]
fn rate_limit_delay_at_the_edges() {
    let with = |delay: &str| {
        format!(
            "{{\"error_summary\":\"s\",\"error\":{{\"reason\":{{\".tag\":\"t\"}},\"retry_after\":{}}}}}",
            delay
        )
    };
    assert_eq!(
        classify(reply(429, &with("0"))),
        Err(DropboxError::DbxRequestLimitsError("s , retry after 0".to_string(), Some(0)))
    );
    assert_eq!(
        classify(reply(429, &with("4294967295"))),
        Err(DropboxError::DbxRequestLimitsError(
            "s , retry after 4294967295".to_string(),
            Some(u32::MAX)
        ))
    );
    for bad in ["4294967296", "-1", "30.0", "3e1", "\"30\"", "null", "true", "[30]", "18446744073709551616"] {
        let body = with(bad);
        assert_eq!(
            classify(reply(429, &body)),
            Err(DropboxError::DbxRequestLimitsError(body.clone(), None)),
            "delay {}",
            bad
        );
    }
}

#[test]
fn server_errors_never_read_an_envelope() {
    let body = envelope("internal/oops", "internal");
    assert_eq!(classify(reply(500, &body)), Err(DropboxError::DbxServerError(body.clone())));
    assert_eq!(classify(reply(503, &body)), Err(DropboxError::DbxServerError(body.clone())));
    assert_eq!(
        classify(reply(503, "Service Unavailable")),
        Err(DropboxError::DbxServerError("Service Unavailable".to_string()))
    );
}

#[test]
fn other_status_takes_the_summary_or_the_raw_text() {
    let body = envelope("not_found/", "not_found");
    assert_eq!(classify(reply(404, &body)), Err(DropboxError::OtherError("not_found/".to_string())));
    assert_eq!(
        classify(reply(404, "Not Found")),
        Err(DropboxError::OtherError("Not Found".to_string()))
    );
    assert_eq!(classify(reply(201, "")), Err(DropboxError::OtherError(String::new())));
}

#[test]
fn body_that_is_not_utf8_is_read_with_replacements() {
    let r = classify(Response { status: 400, body: vec![b'a', 0xff, b'b'] });
    assert_eq!(r, Err(DropboxError::DbxPathError("a\u{fffd}b".to_string())));
    let r = classify(Response { status: 500, body: "gr\u{fc}n".as_bytes().to_vec() });
    assert_eq!(r, Err(DropboxError::DbxServerError("gr\u{fc}n".to_string())));
}

#[test]
fn envelope_accepts_both_spellings_of_the_tag() {
    let dotted = parse_error_summary("{\"error_summary\":\"s\",\"error\":{\".tag\":\"a\"}}").unwrap();
    assert_eq!(dotted.error_summary, "s");
    assert_eq!(dotted.error.tag, "a");
    let plain = parse_error_summary("{\"error_summary\":\"s\",\"error\":{\"tag\":\"b\"}}").unwrap();
    assert_eq!(plain.error.tag, "b");
    assert!(
        parse_error_summary("{\"error_summary\":\"s\",\"error\":{\".tag\":\"a\",\"tag\":\"b\"}}")
            .is_none()
    );
}

#[test]
fn envelope_ignores_further_members() {
    let e = parse_error_summary(
        " {\"user_message\":null,\"error\":{\"path\":{\".tag\":\"not_found\"},\".tag\":\"path\"},\"error_summary\":\"path/not_found/..\"} ",
    )
    .unwrap();
    assert_eq!(e.error_summary, "path/not_found/..");
    assert_eq!(e.error.tag, "path");
}

#[test]
fn envelope_unescapes_its_strings() {
    let e = parse_error_summary(
        "{\"error_summary\":\"a\\/b\\\"c\\u00e9\\n\",\"error\":{\".tag\":\"t\"}}",
    )
    .unwrap();
    assert_eq!(e.error_summary, "a/b\"c\u{e9}\n");
}

#[test]
fn envelope_of_another_shape_is_none() {
    for text in [
        "",
        "rate limited",
        "null",
        "42",
        "\"error_summary\"",
        "[]",
        "{}",
        "{\"error_summary\":\"s\"}",
        "{\"error\":{\".tag\":\"t\"}}",
        "{\"error_summary\":1,\"error\":{\".tag\":\"t\"}}",
        "{\"error_summary\":\"s\",\"error\":\"t\"}",
        "{\"error_summary\":\"s\",\"error\":{}}",
        "{\"error_summary\":\"s\",\"error\":{\".tag\":1}}",
        "{\"error_summary\":\"s\",\"error\":{\".tag\":null}}",
        "{\"error_summary\":\"s\",\"error\":[\"t\"]}",
        "[\"s\",[\"t\"]]",
        "{\"error_summary\":\"s\",\"error\":{\".tag\":\"t\"}} trailing",
        "{\"error_summary\":\"s\",\"error\":{\".tag\":\"t\"}",
    ] {
        assert!(parse_error_summary(text).is_none(), "text {:?}", text);
        assert!(parse_limits_summary(text).is_none(), "text {:?}", text);
    }
}

#[test]
fn limits_envelope_is_read_field_by_field() {
    let l = parse_limits_summary(
        "{\"error_summary\":\"too_many_requests/..\",\"error\":{\"reason\":{\"tag\":\"too_many_requests\"},\"retry_after\":7}}",
    )
    .unwrap();
    assert_eq!(l.error_summary, "too_many_requests/..");
    assert_eq!(l.error.reason.tag, "too_many_requests");
    assert_eq!(l.error.retry_after, 7);
    for text in [
        "{\"error_summary\":\"s\",\"error\":{\"retry_after\":7}}",
        "{\"error_summary\":\"s\",\"error\":{\"reason\":{\".tag\":\"t\"}}}",
        "{\"error_summary\":\"s\",\"error\":{\"reason\":\"t\",\"retry_after\":7}}",
        "{\"error_summary\":\"s\",\"error\":{\"reason\":{\".tag\":7},\"retry_after\":7}}",
        "{\"error\":{\"reason\":{\".tag\":\"t\"},\"retry_after\":7}}",
        "{\"error_summary\":\"s\",\"reason\":{\".tag\":\"t\"},\"retry_after\":7}",
    ] {
        assert!(parse_limits_summary(text).is_none(), "text {:?}", text);
    }
}

fn summary(text: &str) -> Option<DbxRequestErrorSummary> {
    Some(DbxRequestErrorSummary {
        error_summary: text.to_string(),
        error: DbxRequestErrorTag { tag: "t".to_string() },
    })
}

fn limits(text: &str, retry_after: u32) -> Option<DbxRequestLimitsErrorSummary> {
    Some(DbxRequestLimitsErrorSummary {
        error_summary: text.to_string(),
        error: DbxRequestErrorReason {
            reason: DbxRequestErrorTag { tag: "t".to_string() },
            retry_after,
        },
    })
}

#[test]
fn failure_from_parts_follows_the_table() {
    let raw = || "raw".to_string();
    assert_eq!(
        failure_from_parts(400, raw(), summary("path/x"), limits("l", 1)),
        DropboxError::DbxPathError(raw())
    );
    assert_eq!(
        failure_from_parts(401, raw(), summary("sum"), limits("l", 1)),
        DropboxError::DbxInvalidTokenError("sum".to_string())
    );
    assert_eq!(
        failure_from_parts(401, raw(), None, limits("l", 1)),
        DropboxError::DbxInvalidTokenError(raw())
    );
    assert_eq!(
        failure_from_parts(403, raw(), summary("sum"), None),
        DropboxError::DbxAccessError("sum".to_string())
    );
    assert_eq!(
        failure_from_parts(403, raw(), None, None),
        DropboxError::DbxAccessError(raw())
    );
    assert_eq!(
        failure_from_parts(409, raw(), summary("from_lookup/a/b"), None),
        DropboxError::DbxFromLookUpError("a/b".to_string())
    );
    assert_eq!(
        failure_from_parts(409, raw(), None, limits("path/x", 1)),
        DropboxError::DbxConflictError(raw())
    );
    assert_eq!(
        failure_from_parts(429, raw(), summary("sum"), limits("lim", 12)),
        DropboxError::DbxRequestLimitsError("lim , retry after 12".to_string(), Some(12))
    );
    assert_eq!(
        failure_from_parts(429, raw(), summary("sum"), None),
        DropboxError::DbxRequestLimitsError(raw(), None)
    );
    assert_eq!(
        failure_from_parts(500, raw(), summary("sum"), limits("lim", 12)),
        DropboxError::DbxServerError(raw())
    );
    assert_eq!(
        failure_from_parts(503, raw(), summary("sum"), limits("lim", 12)),
        DropboxError::DbxServerError(raw())
    );
    assert_eq!(
        failure_from_parts(404, raw(), summary("sum"), limits("lim", 12)),
        DropboxError::OtherError("sum".to_string())
    );
    assert_eq!(
        failure_from_parts(404, raw(), None, limits("lim", 12)),
        DropboxError::OtherError(raw())
    );
}

#[test]
fn classify_failure_agrees_with_classify() {
    let body = envelope("to/conflict/file", "to");
    for status in [400u16, 401, 403, 404, 409, 429, 500, 503] {
        assert_eq!(
            Err(classify_failure(status, body.clone())),
            classify(reply(status, &body)),
            "status {}",
            status
        );
    }
}

#[test]
fn limits_error_writes_the_delay_in_decimal() {
    let e = limits_error(limits("slow down", 4294967295).unwrap());
    assert_eq!(e.message(), "slow down , retry after 4294967295");
    assert_eq!(e.retry_after(), Some(4294967295));
    let e = limits_error(limits("", 0).unwrap());
    assert_eq!(e.message(), " , retry after 0");
    assert_eq!(e.retry_after(), Some(0));
}

#[test]
fn only_a_rate_limit_carries_a_delay() {
    let body = "{\"error_summary\":\"s\",\"error\":{\".tag\":\"t\",\"reason\":{\".tag\":\"t\"},\"retry_after\":30}}";
    for status in [400u16, 401, 403, 404, 409, 500, 503] {
        assert_eq!(classify(reply(status, body)).unwrap_err().retry_after(), None);
    }
    assert_eq!(classify(reply(429, body)).unwrap_err().retry_after(), Some(30));
}

#[test]
fn error_accessors() {
    let with = |make: fn(String) -> DropboxError, kind: ErrorKind| {
        let e = make("m".to_string());
        assert_eq!(e.kind(), kind);
        assert_eq!(e.message(), "m");
        assert_eq!(e.retry_after(), None);
    };
    with(DropboxError::TransportError, ErrorKind::Transport);
    with(DropboxError::BodyParseError, ErrorKind::BodyParse);
    with(DropboxError::DbxPathError, ErrorKind::Path);
    with(DropboxError::DbxExistedError, ErrorKind::Existed);
    with(DropboxError::DbxInvalidTokenError, ErrorKind::InvalidToken);
    with(DropboxError::DbxFromLookUpError, ErrorKind::FromLookUp);
    with(DropboxError::DbxAccessError, ErrorKind::Access);
    with(DropboxError::DbxConflictError, ErrorKind::Conflict);
    with(DropboxError::DbxServerError, ErrorKind::Server);
    with(DropboxError::OtherError, ErrorKind::Other);
    let e = DropboxError::DbxRequestLimitsError("slow".to_string(), Some(5));
    assert_eq!(e.kind(), ErrorKind::RequestLimits);
    assert_eq!(e.message(), "slow");
    assert_eq!(e.retry_after(), Some(5));
    let e = DropboxError::DbxRequestLimitsError("slow".to_string(), None);
    assert_eq!(e.retry_after(), None);
}
