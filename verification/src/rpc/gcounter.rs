//! Messages of the grow-only counter workload.

use vstd::prelude::*;
use crate::rpc::Reply;

verus! {

/// A message of the counter workload; nodes receive and send them.
#[derive(Debug)]
pub struct GCounterMessage {
    pub src: String,
    pub dest: String,
    pub body: GCounterMessageBody,
}

impl GCounterMessage {
    /// A `read` from `src` to `dest`.
    pub fn new_read(src: String, dest: String) -> (result: GCounterMessage)
        ensures
            result.src == src,
            result.dest == dest,
            result.body == GCounterMessageBody::Read,
    {
        GCounterMessage { src, dest, body: GCounterMessageBody::Read }
    }

    /// The reply to this message, if it has one: sender and receiver change
    /// places. A `read` is answered with `value`, an `add` is acknowledged
    /// under `outbound_msg_id`, and replies are not answered.
    pub fn into_response(self, value: u64, outbound_msg_id: u64) -> (result: Option<
        GCounterMessage,
    >)
        ensures
            result is Some <==> (self.body is Read || self.body is Add),
            result matches Some(out) ==> out.src == self.dest && out.dest == self.src && out.body
                == self.body.reply(value, outbound_msg_id),
    {
        match self.body.into_reply(value, outbound_msg_id) {
            GCounterMessageBody::NoOp => None,
            body => Some(GCounterMessage { src: self.dest, dest: self.src, body }),
        }
    }
}

impl GCounterMessageBody {
    /// The body that answers this one; `NoOp` where there is no answer.
    pub open spec fn reply(self, value: u64, outbound_msg_id: u64) -> GCounterMessageBody {
        match self {
            GCounterMessageBody::Read => GCounterMessageBody::ReadOk(ReadResponseMsg { value }),
            GCounterMessageBody::Add(req) => GCounterMessageBody::AddOk(
                AddResponseMsg { msg_id: outbound_msg_id, in_reply_to: req.msg_id },
            ),
            _ => GCounterMessageBody::NoOp,
        }
    }

    pub fn into_reply(self, value: u64, outbound_msg_id: u64) -> (result: Self)
        ensures
            result == self.reply(value, outbound_msg_id),
    {
        match self {
            GCounterMessageBody::Read => GCounterMessageBody::ReadOk(ReadResponseMsg { value }),
            GCounterMessageBody::Add(req) => GCounterMessageBody::AddOk(
                AddResponseMsg { msg_id: outbound_msg_id, in_reply_to: req.msg_id },
            ),
            GCounterMessageBody::ReadOk(_req) => GCounterMessageBody::NoOp,
            GCounterMessageBody::AddOk(_req) => GCounterMessageBody::NoOp,
            GCounterMessageBody::NoOp => GCounterMessageBody::NoOp,
        }
    }
}

#[derive(Clone, Copy, Debug)]
pub enum GCounterMessageBody {
    Read,
    ReadOk(ReadResponseMsg),
    Add(AddRequestMsg),
    AddOk(AddResponseMsg),
    NoOp,
}

/// An amount to add to the counter.
#[derive(Clone, Copy, Debug)]
pub struct AddRequestMsg {
    pub msg_id: Option<u64>,
    pub delta: u64,
}

/// The acknowledgment of an `add`.
#[derive(Clone, Copy, Debug)]
pub struct AddResponseMsg {
    pub msg_id: u64,
    pub in_reply_to: Option<u64>,
}

/// The value of the counter as one node sees it.
#[derive(Clone, Copy, Debug)]
pub struct ReadResponseMsg {
    pub value: u64,
}

impl Reply for GCounterMessageBody {
}

impl Reply for ReadResponseMsg {
}

} // verus!
