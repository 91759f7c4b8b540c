use crate::error::{DropboxError, DropboxResult, ErrorKind, Failure};
use crate::response::{classify, outcome_of, Response};
use crate::wire::{Operation, Request, RequestView};
use vstd::prelude::*;

verus! {

/// What a transport reports of the one send of a call.
#[derive(Debug)]
pub enum Reply {
    /// A response arrived and its body was read to the end.
    Answered(Response),
    /// No response arrived: the connection or the transport failed.
    Failed(String),
    /// A response arrived, but its body could not be read to the end.
    BodyFailed(String),
}

pub enum ReplyView {
    Answered { status: u16, body: Seq<u8> },
    Failed(Seq<char>),
    BodyFailed(Seq<char>),
}

impl View for Reply {
    type V = ReplyView;

    open spec fn view(&self) -> ReplyView {
        match self {
            Reply::Answered(response) => ReplyView::Answered {
                status: response.status,
                body: response.body@,
            },
            Reply::Failed(message) => ReplyView::Failed(message@),
            Reply::BodyFailed(message) => ReplyView::BodyFailed(message@),
        }
    }
}

/// What a successful call hands to its caller.
#[derive(Debug, PartialEq, Eq)]
pub enum Payload {
    /// The call has nothing to hand back.
    Unit,
    /// The content of the file that was asked for.
    Content(Vec<u8>),
}

pub enum PayloadView {
    Unit,
    Content(Seq<u8>),
}

impl View for Payload {
    type V = PayloadView;

    open spec fn view(&self) -> PayloadView {
        match self {
            Payload::Unit => PayloadView::Unit,
            Payload::Content(bytes) => PayloadView::Content(bytes@),
        }
    }
}

impl Payload {
    /// The content, where the call handed one back.
    pub fn into_content(self) -> (content: Option<Vec<u8>>)
        ensures
            match self@ {
                PayloadView::Unit => content is None,
                PayloadView::Content(bytes) => content is Some && content->Some_0@ == bytes,
            },
    {
        match self {
            Payload::Unit => None,
            Payload::Content(bytes) => Some(bytes),
        }
    }
}

/// The result of a reply before the operation has looked at the body: the
/// body of a response with status 200, or the failure.
pub open spec fn reply_outcome(reply: ReplyView) -> Result<Seq<u8>, Failure> {
    match reply {
        ReplyView::Answered { status, body } => outcome_of(status, body),
        ReplyView::Failed(message) => Err(Failure::plain(ErrorKind::Transport, message)),
        ReplyView::BodyFailed(message) => Err(Failure::plain(ErrorKind::BodyParse, message)),
    }
}

/// What the operation makes of the body of a successful response: a
/// download hands it back, every other operation drops it.
pub open spec fn decoded(operation: Operation, body: Seq<u8>) -> PayloadView {
    if operation.yields_content() {
        PayloadView::Content(body)
    } else {
        PayloadView::Unit
    }
}

/// What a call of the operation comes to when the transport reports
/// `reply`.
pub open spec fn call_outcome(operation: Operation, reply: ReplyView) -> Result<
    PayloadView,
    Failure,
> {
    match reply_outcome(reply) {
        Ok(body) => Ok(decoded(operation, body)),
        Err(failure) => Err(failure),
    }
}

/// The content of a result of a call.
pub open spec fn result_view(result: DropboxResult<Payload>) -> Result<PayloadView, Failure> {
    match result {
        Ok(payload) => Ok(payload@),
        Err(e) => Err(e@),
    }
}

/// Classifies what the transport reported. A transport failure and a
/// failed read of the body pass through as they are; a response is
/// classified by status and body.
pub fn classify_reply(reply: Reply) -> (r: DropboxResult<Vec<u8>>)
    ensures
        match reply_outcome(reply@) {
            Ok(body) => r is Ok && r->Ok_0@ == body,
            Err(failure) => r is Err && r->Err_0@ == failure,
        },
{
    match reply {
        Reply::Answered(response) => classify(response),
        Reply::Failed(message) => Err(DropboxError::TransportError(message)),
        Reply::BodyFailed(message) => Err(DropboxError::BodyParseError(message)),
    }
}

/// A call that has been built and not yet sent.
pub struct Built {
    request: Request,
}

/// A call whose request has gone to the transport.
pub struct Sent {
    operation: Operation,
}

/// A call whose reply has been classified.
pub struct Classified {
    operation: Operation,
    result: DropboxResult<Vec<u8>>,
}

impl Built {
    pub closed spec fn request(&self) -> RequestView {
        self.request@
    }

    pub fn new(request: Request) -> (call: Built)
        ensures
            call.request() == request@,
    {
        Built { request }
    }

    /// Hands out the request for the one send of the call.
    pub fn send(self) -> (step: (Sent, Request))
        ensures
            step.1@ == self.request(),
            step.0.operation() == self.request().operation,
    {
        let operation = self.request.operation;
        (Sent { operation }, self.request)
    }
}

impl Sent {
    pub closed spec fn operation(&self) -> Operation {
        self.operation
    }

    /// Takes what the transport reported and classifies it.
    pub fn receive(self, reply: Reply) -> (call: Classified)
        ensures
            call.outcome() == call_outcome(self.operation(), reply@),
    {
        Classified { operation: self.operation, result: classify_reply(reply) }
    }
}

impl Classified {
    /// What the call has come to.
    pub closed spec fn outcome(&self) -> Result<PayloadView, Failure> {
        match self.result {
            Ok(body) => Ok(decoded(self.operation, body@)),
            Err(e) => Err(e@),
        }
    }

    /// Ends the call and hands its result to the caller.
    pub fn complete(self) -> (result: DropboxResult<Payload>)
        ensures
            result_view(result) == self.outcome(),
    {
        match self.result {
            Ok(body) => if self.operation.returns_content() {
                Ok(Payload::Content(body))
            } else {
                Ok(Payload::Unit)
            },
            Err(e) => Err(e),
        }
    }
}

} // verus!
