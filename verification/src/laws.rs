use crate::call::{call_outcome, PayloadView, ReplyView};
use crate::envelope::{ErrorSummaryView, LimitsSummaryView};
use crate::error::{ErrorKind, Failure};
use crate::json::json_quoted;
use crate::options::{MoveCopyOptionView, UploadModeView, UploadOptionView};
use crate::response::{
    conflict_failure, failure_of, outcome_of, reads_limits, reads_summary,
};
use crate::text::{decimal, lemma_split_of_joined, lemma_split_of_single};
use crate::wire::{relocation_body, upload_arg, Operation};
use vstd::prelude::*;

verus! {

/// The kinds that a status other than 200 can be classified as.
pub open spec fn kind_fits(status: u16, kind: ErrorKind) -> bool {
    if status == 400 {
        kind == ErrorKind::Path
    } else if status == 401 {
        kind == ErrorKind::InvalidToken
    } else if status == 403 {
        kind == ErrorKind::Access
    } else if status == 409 {
        kind == ErrorKind::Path || kind == ErrorKind::FromLookUp || kind == ErrorKind::Existed
            || kind == ErrorKind::Conflict
    } else if status == 429 {
        kind == ErrorKind::RequestLimits
    } else if status == 500 || status == 503 {
        kind == ErrorKind::Server
    } else {
        kind == ErrorKind::Other
    }
}

/// Whatever the body holds and whatever was read out of it, the failure
/// of a status is of a kind that the status allows, and it is well formed.
pub proof fn lemma_failure_kind(
    status: u16,
    text: Seq<char>,
    summary: Option<ErrorSummaryView>,
    limits: Option<LimitsSummaryView>,
)
    ensures
        kind_fits(status, failure_of(status, text, summary, limits).kind),
        failure_of(status, text, summary, limits).wf(),
{
}

/// The status decides between success and failure: a response with status
/// 200 comes to its body and never to a failure; a response with any other
/// status comes to a failure of a kind that the status allows, never to a
/// success, and never to a failure of the transport.
pub proof fn lemma_status_decides(status: u16, body: Seq<u8>)
    ensures
        status == 200 <==> outcome_of(status, body) is Ok,
        status == 200 ==> outcome_of(status, body) == Ok::<Seq<u8>, Failure>(body),
        status != 200 ==> kind_fits(status, outcome_of(status, body)->Err_0.kind),
        status != 200 ==> outcome_of(status, body)->Err_0.kind != ErrorKind::Transport
            && outcome_of(status, body)->Err_0.kind != ErrorKind::BodyParse,
{
}

/// An envelope plays no part for a status that does not read it: 400, 500
/// and 503 take the body text as it is, 429 looks for the rate-limit
/// envelope only, and no other status looks for that one.
pub proof fn lemma_unread_envelopes(
    status: u16,
    text: Seq<char>,
    summary: Option<ErrorSummaryView>,
    limits: Option<LimitsSummaryView>,
)
    ensures
        !reads_summary(status) ==> failure_of(status, text, summary, limits) == failure_of(
            status,
            text,
            None,
            limits,
        ),
        !reads_limits(status) ==> failure_of(status, text, summary, limits) == failure_of(
            status,
            text,
            summary,
            None,
        ),
{
}

/// A body that holds no envelope degrades to its text: the failure then
/// carries the text as it is, and no delay.
pub proof fn lemma_plain_text_fallback(status: u16, text: Seq<char>)
    ensures
        failure_of(status, text, None, None).message == text,
        failure_of(status, text, None, None).retry_after is None,
{
}

/// A rate limit carries a delay exactly where the rate-limit envelope was
/// read; the delay is the one of the envelope, and the message ends with
/// its decimal writing.
pub proof fn lemma_rate_limit_delay(
    status: u16,
    text: Seq<char>,
    summary: Option<ErrorSummaryView>,
    limits: Option<LimitsSummaryView>,
)
    ensures
        failure_of(status, text, summary, limits).retry_after is Some <==> status == 429
            && limits is Some,
        status == 429 && limits is Some ==> {
            let l = limits->Some_0;
            &&& failure_of(status, text, summary, limits).retry_after == Some(l.retry_after)
            &&& failure_of(status, text, summary, limits).message == l.error_summary
                + " , retry after "@ + decimal(l.retry_after as nat)
        },
{
}

/// The table of conflicts. A summary that starts with `path/`,
/// `from_lookup/` or `to/` is sorted by that first part, and all that
/// follows the first `/` is the message, further `/` included. A summary
/// that is one of the three words alone is sorted alike, with an empty
/// message.
pub proof fn lemma_conflict_table(rest: Seq<char>)
    ensures
        conflict_failure("path"@ + seq!['/'] + rest) == Failure::plain(ErrorKind::Path, rest),
        conflict_failure("from_lookup"@ + seq!['/'] + rest) == Failure::plain(
            ErrorKind::FromLookUp,
            rest,
        ),
        conflict_failure("to"@ + seq!['/'] + rest) == Failure::plain(ErrorKind::Existed, rest),
        conflict_failure("path"@) == Failure::plain(ErrorKind::Path, Seq::empty()),
        conflict_failure("from_lookup"@) == Failure::plain(ErrorKind::FromLookUp, Seq::empty()),
        conflict_failure("to"@) == Failure::plain(ErrorKind::Existed, Seq::empty()),
{
    reveal_strlit("path");
    reveal_strlit("from_lookup");
    reveal_strlit("to");
    lemma_split_of_joined("path"@, rest);
    lemma_split_of_joined("from_lookup"@, rest);
    lemma_split_of_joined("to"@, rest);
    lemma_split_of_single("path"@);
    lemma_split_of_single("from_lookup"@);
    lemma_split_of_single("to"@);
}

/// A summary whose first part is none of the three words is a plain
/// conflict, and its message is the whole summary, unsplit.
pub proof fn lemma_conflict_unsplit(head: Seq<char>, rest: Seq<char>)
    requires
        forall|j: int| 0 <= j < head.len() ==> head[j] != '/',
        head != "path"@,
        head != "from_lookup"@,
        head != "to"@,
    ensures
        conflict_failure(head + seq!['/'] + rest) == Failure::plain(
            ErrorKind::Conflict,
            head + seq!['/'] + rest,
        ),
        conflict_failure(head) == Failure::plain(ErrorKind::Conflict, head),
{
    lemma_split_of_joined(head, rest);
    lemma_split_of_single(head);
}

/// A fresh upload option is written with mode `"add"`, renaming on, muting
/// off and strict conflict off, and `disallow_auto_rename` changes the
/// writing of that one flag and of nothing else.
pub proof fn lemma_upload_defaults(path: Seq<char>)
    ensures
        upload_arg(path, UploadOptionView::initial()) == "{\"path\":"@ + json_quoted(path)
            + ",\"mode\":"@ + "\"add\""@ + ",\"autorename\":"@ + "true"@ + ",\"mute\":"@
            + "false"@ + ",\"strict_conflict\":"@ + "false"@ + "}"@,
        upload_arg(path, UploadOptionView::initial().disallow_auto_rename()) == "{\"path\":"@
            + json_quoted(path) + ",\"mode\":"@ + "\"add\""@ + ",\"autorename\":"@ + "false"@
            + ",\"mute\":"@ + "false"@ + ",\"strict_conflict\":"@ + "false"@ + "}"@,
        UploadOptionView::initial().disallow_auto_rename() == (UploadOptionView {
            allow_auto_rename: false,
            ..UploadOptionView::initial()
        }),
{
}

/// Each method of an upload option changes its own field and no other.
pub proof fn lemma_upload_fields_independent(option: UploadOptionView, mode: UploadModeView)
    ensures
        option.disallow_auto_rename() == (UploadOptionView { allow_auto_rename: false, ..option }),
        option.mute_notification() == (UploadOptionView { mute_notification: true, ..option }),
        option.allow_strict_conflict() == (UploadOptionView {
            allow_strict_conflict: true,
            ..option
        }),
        option.set_upload_mode(mode) == (UploadOptionView { mode, ..option }),
        option.wf() ==> option.disallow_auto_rename().wf() && option.mute_notification().wf()
            && option.allow_strict_conflict().wf(),
        option.set_upload_mode(mode).wf() <==> mode.wf(),
{
}

/// A fresh move or copy option is written with its three flags `false`.
pub proof fn lemma_move_copy_defaults(from_path: Seq<char>, to_path: Seq<char>)
    ensures
        relocation_body(from_path, to_path, MoveCopyOptionView::initial()) == "{\"from_path\":"@
            + json_quoted(from_path) + ",\"to_path\":"@ + json_quoted(to_path)
            + ",\"allow_shared_folder\":"@ + "false"@ + ",\"autorename\":"@ + "false"@
            + ",\"allow_ownership_transfer\":"@ + "false"@ + "}"@,
{
}

/// The three flags of a move or copy option are set one by one: each
/// method sets its own flag and leaves the two others as they were, so the
/// order of the calls does not matter and every one of the eight
/// combinations is reached.
pub proof fn lemma_move_copy_flags_independent(option: MoveCopyOptionView)
    ensures
        option.allow_shared_folder() == (MoveCopyOptionView { allow_shared_folder: true, ..option }),
        option.allow_auto_rename() == (MoveCopyOptionView { auto_rename: true, ..option }),
        option.allow_ownership_transfer() == (MoveCopyOptionView {
            allow_ownership_transfer: true,
            ..option
        }),
        option.allow_shared_folder().allow_auto_rename()
            == option.allow_auto_rename().allow_shared_folder(),
        option.allow_shared_folder().allow_ownership_transfer()
            == option.allow_ownership_transfer().allow_shared_folder(),
        option.allow_auto_rename().allow_ownership_transfer()
            == option.allow_ownership_transfer().allow_auto_rename(),
{
}

/// Setting a flag of an upload option twice is setting it once: the option
/// is the same, and so is the argument written for it.
pub proof fn lemma_upload_flags_idempotent(
    path: Seq<char>,
    option: UploadOptionView,
    mode: UploadModeView,
)
    ensures
        option.disallow_auto_rename().disallow_auto_rename() == option.disallow_auto_rename(),
        option.mute_notification().mute_notification() == option.mute_notification(),
        option.allow_strict_conflict().allow_strict_conflict() == option.allow_strict_conflict(),
        option.set_upload_mode(mode).set_upload_mode(mode) == option.set_upload_mode(mode),
        upload_arg(path, option.disallow_auto_rename().disallow_auto_rename()) == upload_arg(
            path,
            option.disallow_auto_rename(),
        ),
        upload_arg(path, option.mute_notification().mute_notification()) == upload_arg(
            path,
            option.mute_notification(),
        ),
        upload_arg(path, option.allow_strict_conflict().allow_strict_conflict()) == upload_arg(
            path,
            option.allow_strict_conflict(),
        ),
        upload_arg(path, option.set_upload_mode(mode).set_upload_mode(mode)) == upload_arg(
            path,
            option.set_upload_mode(mode),
        ),
{
}

/// Setting a flag of a move or copy option twice is setting it once: the
/// option is the same, and so is the body written for it.
pub proof fn lemma_move_copy_flags_idempotent(
    from_path: Seq<char>,
    to_path: Seq<char>,
    option: MoveCopyOptionView,
)
    ensures
        option.allow_shared_folder().allow_shared_folder() == option.allow_shared_folder(),
        option.allow_auto_rename().allow_auto_rename() == option.allow_auto_rename(),
        option.allow_ownership_transfer().allow_ownership_transfer()
            == option.allow_ownership_transfer(),
        relocation_body(from_path, to_path, option.allow_shared_folder().allow_shared_folder())
            == relocation_body(from_path, to_path, option.allow_shared_folder()),
        relocation_body(from_path, to_path, option.allow_auto_rename().allow_auto_rename())
            == relocation_body(from_path, to_path, option.allow_auto_rename()),
        relocation_body(
            from_path,
            to_path,
            option.allow_ownership_transfer().allow_ownership_transfer(),
        ) == relocation_body(from_path, to_path, option.allow_ownership_transfer()),
{
}

/// A download that is answered with status 200 hands back the body of the
/// response, byte for byte; any other operation that is answered with
/// status 200 succeeds and hands back nothing.
pub proof fn lemma_success_round_trip(operation: Operation, body: Seq<u8>)
    ensures
        call_outcome(Operation::Download, ReplyView::Answered { status: 200, body }) == Ok::<
            PayloadView,
            Failure,
        >(PayloadView::Content(body)),
        operation != Operation::Download ==> call_outcome(
            operation,
            ReplyView::Answered { status: 200, body },
        ) == Ok::<PayloadView, Failure>(PayloadView::Unit),
{
}

/// A failure of the transport is never taken for an answer of the service
/// and an answer is never taken for a failure of the transport: the kinds
/// `Transport` and `BodyParse` come from the transport alone.
pub proof fn lemma_transport_failures_apart(operation: Operation, reply: ReplyView)
    ensures
        reply is Failed ==> call_outcome(operation, reply) == Err::<PayloadView, Failure>(
            Failure::plain(ErrorKind::Transport, reply->Failed_0),
        ),
        reply is BodyFailed ==> call_outcome(operation, reply) == Err::<PayloadView, Failure>(
            Failure::plain(ErrorKind::BodyParse, reply->BodyFailed_0),
        ),
        reply is Answered && call_outcome(operation, reply) is Err ==> {
            let kind = call_outcome(operation, reply)->Err_0.kind;
            kind != ErrorKind::Transport && kind != ErrorKind::BodyParse
        },
{
    if let ReplyView::Answered { status, body } = reply {
        lemma_status_decides(status, body);
    }
}

} // verus!
