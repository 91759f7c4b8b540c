use vstd::prelude::*;

verus! {

/// The closed set of ways in which a call can fail.
#[derive(Clone, Copy, Debug, PartialEq, Eq, Structural)]
pub enum ErrorKind {
    /// No response arrived: connection, timeout or another transport failure.
    Transport,
    /// A response arrived but its body could not be read to the end.
    BodyParse,
    /// Status 400, or status 409 whose summary starts with `path/`.
    Path,
    /// Status 409 whose summary starts with `to/`.
    Existed,
    /// Status 401.
    InvalidToken,
    /// Status 409 whose summary starts with `from_lookup/`.
    FromLookUp,
    /// Status 429.
    RequestLimits,
    /// Status 403.
    Access,
    /// Status 409 with any other summary.
    Conflict,
    /// Status 500 or 503.
    Server,
    /// Any other status but 200.
    Other,
}

/// A failed call: its kind, a message for people, and for a rate limit the
/// number of seconds the service asked the caller to wait, where it gave one.
#[derive(Debug, PartialEq, Eq)]
pub enum DropboxError {
    TransportError(String),
    BodyParseError(String),
    DbxPathError(String),
    DbxExistedError(String),
    DbxInvalidTokenError(String),
    DbxFromLookUpError(String),
    DbxRequestLimitsError(String, Option<u32>),
    DbxAccessError(String),
    DbxConflictError(String),
    DbxServerError(String),
    OtherError(String),
}

pub type DropboxResult<T> = Result<T, DropboxError>;

/// The mathematical content of a `DropboxError`.
pub struct Failure {
    pub kind: ErrorKind,
    pub message: Seq<char>,
    pub retry_after: Option<u32>,
}

impl Failure {
    /// A failure of the given kind that carries only a message.
    pub open spec fn plain(kind: ErrorKind, message: Seq<char>) -> Failure {
        Failure { kind, message, retry_after: None }
    }

    /// Only a rate limit carries a delay.
    pub open spec fn wf(self) -> bool {
        self.retry_after is Some ==> self.kind == ErrorKind::RequestLimits
    }
}

impl View for DropboxError {
    type V = Failure;

    open spec fn view(&self) -> Failure {
        match self {
            DropboxError::TransportError(m) => Failure::plain(ErrorKind::Transport, m@),
            DropboxError::BodyParseError(m) => Failure::plain(ErrorKind::BodyParse, m@),
            DropboxError::DbxPathError(m) => Failure::plain(ErrorKind::Path, m@),
            DropboxError::DbxExistedError(m) => Failure::plain(ErrorKind::Existed, m@),
            DropboxError::DbxInvalidTokenError(m) => Failure::plain(ErrorKind::InvalidToken, m@),
            DropboxError::DbxFromLookUpError(m) => Failure::plain(ErrorKind::FromLookUp, m@),
            DropboxError::DbxRequestLimitsError(m, delay) => Failure {
                kind: ErrorKind::RequestLimits,
                message: m@,
                retry_after: *delay,
            },
            DropboxError::DbxAccessError(m) => Failure::plain(ErrorKind::Access, m@),
            DropboxError::DbxConflictError(m) => Failure::plain(ErrorKind::Conflict, m@),
            DropboxError::DbxServerError(m) => Failure::plain(ErrorKind::Server, m@),
            DropboxError::OtherError(m) => Failure::plain(ErrorKind::Other, m@),
        }
    }
}

impl DropboxError {
    pub fn kind(&self) -> (k: ErrorKind)
        ensures
            k == self@.kind,
    {
        match self {
            DropboxError::TransportError(_) => ErrorKind::Transport,
            DropboxError::BodyParseError(_) => ErrorKind::BodyParse,
            DropboxError::DbxPathError(_) => ErrorKind::Path,
            DropboxError::DbxExistedError(_) => ErrorKind::Existed,
            DropboxError::DbxInvalidTokenError(_) => ErrorKind::InvalidToken,
            DropboxError::DbxFromLookUpError(_) => ErrorKind::FromLookUp,
            DropboxError::DbxRequestLimitsError(_, _) => ErrorKind::RequestLimits,
            DropboxError::DbxAccessError(_) => ErrorKind::Access,
            DropboxError::DbxConflictError(_) => ErrorKind::Conflict,
            DropboxError::DbxServerError(_) => ErrorKind::Server,
            DropboxError::OtherError(_) => ErrorKind::Other,
        }
    }

    pub fn message(&self) -> (m: &str)
        ensures
            m@ == self@.message,
    {
        match self {
            DropboxError::TransportError(m) => m.as_str(),
            DropboxError::BodyParseError(m) => m.as_str(),
            DropboxError::DbxPathError(m) => m.as_str(),
            DropboxError::DbxExistedError(m) => m.as_str(),
            DropboxError::DbxInvalidTokenError(m) => m.as_str(),
            DropboxError::DbxFromLookUpError(m) => m.as_str(),
            DropboxError::DbxRequestLimitsError(m, _) => m.as_str(),
            DropboxError::DbxAccessError(m) => m.as_str(),
            DropboxError::DbxConflictError(m) => m.as_str(),
            DropboxError::DbxServerError(m) => m.as_str(),
            DropboxError::OtherError(m) => m.as_str(),
        }
    }

    /// The seconds to wait before a retry, where the service named them.
    pub fn retry_after(&self) -> (delay: Option<u32>)
        ensures
            delay == self@.retry_after,
    {
        match self {
            DropboxError::DbxRequestLimitsError(_, delay) => *delay,
            _ => None,
        }
    }
}

/// Every error value is well formed: a delay occurs on a rate limit only.
pub proof fn lemma_error_wf(e: DropboxError)
    ensures
        e@.wf(),
{
}

} // verus!
