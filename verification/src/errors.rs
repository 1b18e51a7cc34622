//! Error codes and the error message that a node reports.

use vstd::prelude::*;

verus! {

/// The error codes of the protocol. Codes below 1000 are reserved by the
/// cluster controller.
#[derive(Clone, Copy, Debug, PartialEq, Eq, Structural)]
pub enum ErrorType {
    Timeout,
    NodeNotFound,
    NotSupported,
    TemporarilyUnavailable,
    MalformedRequest,
    Crash,
    Abort,
    KeyDoesNotExist,
    KeyAlreadyExists,
    PreconditionFailed,
    TxnConflict,
}

impl ErrorType {
    /// The number that stands for this error on the wire.
    pub open spec fn code_of(self) -> nat {
        match self {
            ErrorType::Timeout => 0,
            ErrorType::NodeNotFound => 1,
            ErrorType::NotSupported => 10,
            ErrorType::TemporarilyUnavailable => 11,
            ErrorType::MalformedRequest => 12,
            ErrorType::Crash => 13,
            ErrorType::Abort => 14,
            ErrorType::KeyDoesNotExist => 20,
            ErrorType::KeyAlreadyExists => 21,
            ErrorType::PreconditionFailed => 22,
            ErrorType::TxnConflict => 30,
        }
    }

    /// Whether a client may retry after this error: the request certainly
    /// did not take place.
    pub open spec fn is_definite(self) -> bool {
        !(self is Timeout || self is Crash)
    }

    /// The wire code of this error.
    pub fn code(&self) -> (result: u64)
        ensures
            result == self.code_of(),
    {
        match self {
            ErrorType::Timeout => 0,
            ErrorType::NodeNotFound => 1,
            ErrorType::NotSupported => 10,
            ErrorType::TemporarilyUnavailable => 11,
            ErrorType::MalformedRequest => 12,
            ErrorType::Crash => 13,
            ErrorType::Abort => 14,
            ErrorType::KeyDoesNotExist => 20,
            ErrorType::KeyAlreadyExists => 21,
            ErrorType::PreconditionFailed => 22,
            ErrorType::TxnConflict => 30,
        }
    }
}

/// The body of an `error` reply.
#[derive(Clone, Debug)]
pub struct ErrorMsg {
    pub in_reply_to: Option<u64>,
    pub code: ErrorType,
    pub text: String,
}

impl ErrorMsg {
    pub fn new(in_reply_to: Option<u64>, code: ErrorType, text: String) -> (result: Self)
        ensures
            result.in_reply_to == in_reply_to,
            result.code == code,
            result.text == text,
    {
        ErrorMsg { in_reply_to, code, text }
    }

    /// The input could not be decoded.
    pub fn json_parse_error() -> (result: Self)
        ensures
            result.in_reply_to is None,
            result.code == ErrorType::MalformedRequest,
            result.text@ == "Request Parsing error"@,
    {
        ErrorMsg::new(None, ErrorType::MalformedRequest, "Request Parsing error".to_string())
    }

    /// The output could not be encoded.
    pub fn json_dumps_error() -> (result: Self)
        ensures
            result.in_reply_to is None,
            result.code == ErrorType::MalformedRequest,
            result.text@ == "Request Serialization error"@,
    {
        ErrorMsg::new(None, ErrorType::MalformedRequest, "Request Serialization error".to_string())
    }

    /// The request cannot be served: the workload has no node.
    pub fn not_supported_error() -> (result: Self)
        ensures
            result.in_reply_to is None,
            result.code == ErrorType::NotSupported,
            result.text@ == "Workload not supported"@,
    {
        ErrorMsg::new(None, ErrorType::NotSupported, "Workload not supported".to_string())
    }

    /// The `error` reply to a message that could not be decoded, if it is
    /// known where the reply goes: `src` and `dest` are the sender and the
    /// receiver of the message as far as they could be read, `msg_id` its id.
    /// The reply goes back to the sender. Where sender or receiver is not
    /// known there is no reply.
    pub fn malformed_reply(src: Option<String>, dest: Option<String>, msg_id: Option<u64>) -> (result:
        Option<ErrorMsgOut>)
        ensures
            result is Some <==> (src is Some && dest is Some),
            result matches Some(out) ==> {
                &&& out.src == dest->0
                &&& out.dest == src->0
                &&& out.body.in_reply_to == msg_id
                &&& out.body.code == ErrorType::MalformedRequest
                &&& out.body.text@ == "Request Parsing error"@
            },
    {
        match (src, dest) {
            (Some(sender), Some(receiver)) => {
                let mut body = ErrorMsg::json_parse_error();
                body.in_reply_to = msg_id;
                Some(ErrorMsgOut { src: receiver, dest: sender, body })
            },
            _ => None,
        }
    }

    /// A local fault from which the node does not recover.
    pub fn crash_error() -> (result: Self)
        ensures
            result.in_reply_to is None,
            result.code == ErrorType::Crash,
            result.text@ == "Unrecoverable error"@,
    {
        ErrorMsg::new(None, ErrorType::Crash, "Unrecoverable error".to_string())
    }
}

/// An `error` reply on its way to the sender of the request.
#[derive(Clone, Debug)]
pub struct ErrorMsgOut {
    pub src: String,
    pub dest: String,
    pub body: ErrorMsg,
}

} // verus!
