//! Messages of the broadcast workload.

use vstd::prelude::*;
use crate::rpc::{IntoReplyBody, Reply};

verus! {

/// A message that a broadcast node receives, and also sends to its peers.
#[derive(Debug)]
pub struct BroadcastMsgIn {
    pub src: String,
    pub dest: String,
    pub body: BroadcastMsgRequestBody,
}

/// A reply of a broadcast node.
#[derive(Debug)]
pub struct BroadcastMsgOut {
    pub src: String,
    pub dest: String,
    pub body: BroadcastMsgResponseBody,
}

/// What `messages` of a `read_ok` hold once a reply has been given `value`.
pub open spec fn messages_or_empty(value: Option<Vec<u64>>) -> Seq<u64> {
    match value {
        Some(v) => v@,
        None => Seq::empty(),
    }
}

impl BroadcastMsgIn {
    /// A `broadcast` of `value` from `src` to `dest`, tagged `msg_id`.
    pub fn new_broadcast(src: String, dest: String, value: u64, msg_id: Option<u64>) -> (result:
        BroadcastMsgIn)
        ensures
            result.src == src,
            result.dest == dest,
            result.body == BroadcastMsgRequestBody::Broadcast(
                BroadcastRequestMsg { msg_id, message: value },
            ),
    {
        let body = BroadcastMsgRequestBody::Broadcast(BroadcastRequestMsg::new(value, msg_id));
        BroadcastMsgIn { src, dest, body }
    }

    /// The reply to this message, if it has one: sender and receiver change
    /// places, the body answers the request, and a `read_ok` carries `value`.
    /// A topology and an acknowledgment have no reply.
    pub fn into_response(self, value: Option<Vec<u64>>, outbound_msg_id: u64) -> (result: Option<
        BroadcastMsgOut,
    >)
        ensures
            result is None <==> (self.body is BroadcastOk || self.body is Topology),
            result matches Some(out) ==> {
                &&& out.src == self.dest
                &&& out.dest == self.src
                &&& self.body.answered_by(out.body, outbound_msg_id)
                &&& out.body matches BroadcastMsgResponseBody::Read(r) ==> r.messages@
                    == messages_or_empty(value)
            },
    {
        let mut body = self.body.into_reply(outbound_msg_id);
        if let BroadcastMsgResponseBody::NoOp = body {
            return None;
        }
        if value.is_some() {
            body.set_value(value);
        }
        Some(BroadcastMsgOut { src: self.dest, dest: self.src, body })
    }
}

#[derive(Debug)]
pub enum BroadcastMsgRequestBody {
    Topology(TopologyRequestMsg),
    Broadcast(BroadcastRequestMsg),
    BroadcastOk(BroadcastReceivedOkMsg),
    Read(ReadRequestMsg),
}

impl BroadcastMsgRequestBody {
    /// `reply` is the kind of body that answers this request, it carries
    /// `outbound_msg_id` as its own id and names the request's id. A
    /// topology and an acknowledgment are answered by nothing.
    pub open spec fn answered_by(self, reply: BroadcastMsgResponseBody, outbound_msg_id: u64) -> bool {
        match self {
            BroadcastMsgRequestBody::Topology(_) => reply is NoOp,
            BroadcastMsgRequestBody::Broadcast(m) => reply == BroadcastMsgResponseBody::Broadcast(
                BroadcastResponseMsg { in_reply_to: m.msg_id, msg_id: outbound_msg_id },
            ),
            BroadcastMsgRequestBody::Read(m) => {
                &&& reply matches BroadcastMsgResponseBody::Read(r)
                &&& r.in_reply_to == m.msg_id
                &&& r.msg_id == outbound_msg_id
            },
            BroadcastMsgRequestBody::BroadcastOk(_) => reply is NoOp,
        }
    }
}

impl IntoReplyBody for BroadcastMsgRequestBody {
    type Item = BroadcastMsgResponseBody;

    fn into_reply(self, outbound_msg_id: u64) -> (result: BroadcastMsgResponseBody)
        ensures
            self.answered_by(result, outbound_msg_id),
            result matches BroadcastMsgResponseBody::Read(r) ==> r.messages@ == Seq::<u64>::empty(),
    {
        match self {
            BroadcastMsgRequestBody::Topology(_) => BroadcastMsgResponseBody::NoOp,
            BroadcastMsgRequestBody::Broadcast(resp) => {
                BroadcastMsgResponseBody::Broadcast(resp.into_reply(outbound_msg_id))
            },
            BroadcastMsgRequestBody::Read(resp) => {
                BroadcastMsgResponseBody::Read(resp.into_reply(outbound_msg_id))
            },
            BroadcastMsgRequestBody::BroadcastOk(_) => BroadcastMsgResponseBody::NoOp,
        }
    }
}

/// A peer's acknowledgment of one `broadcast`.
#[derive(Debug)]
pub struct BroadcastReceivedOkMsg {
    pub in_reply_to: Option<u64>,
    pub msg_id: u64,
}

#[derive(Debug)]
pub enum BroadcastMsgResponseBody {
    Topology(TopologyResponseMsg),
    Broadcast(BroadcastResponseMsg),
    Read(ReadResponseMsg),
    NoOp,
}

impl BroadcastMsgResponseBody {
    /// Puts `value` into a `read_ok`; an absent value empties it. Any other
    /// body stays as it is.
    pub fn set_value(&mut self, value: Option<Vec<u64>>)
        ensures
            match *old(self) {
                BroadcastMsgResponseBody::Read(before) => {
                    &&& *final(self) matches BroadcastMsgResponseBody::Read(after)
                    &&& after.in_reply_to == before.in_reply_to
                    &&& after.msg_id == before.msg_id
                    &&& after.messages@ == messages_or_empty(value)
                },
                _ => *final(self) == *old(self),
            },
    {
        match self {
            BroadcastMsgResponseBody::Read(body) => {
                body.messages = match value {
                    Some(v) => v,
                    None => Vec::new(),
                };
            },
            _ => {},
        }
    }
}

impl Reply for BroadcastMsgResponseBody {
}

/// The kinds of reply of the broadcast workload.
#[derive(Clone, Copy, Debug, PartialEq, Eq, Structural)]
pub enum MsgType {
    TopologyOk,
    BroadcastOk,
    ReadOk,
}

/// The controller's statement of who neighbours whom: each entry names a
/// node and lists the nodes next to it.
#[derive(Debug)]
pub struct TopologyRequestMsg {
    pub msg_id: Option<u64>,
    pub topology: Vec<(String, Vec<String>)>,
}

/// The acknowledgment of a topology, as a controller may expect it from
/// other nodes. This node gives none.
#[derive(Clone, Copy, Debug)]
pub struct TopologyResponseMsg {
    pub in_reply_to: Option<u64>,
    pub msg_id: u64,
}

impl Reply for TopologyResponseMsg {
}

/// One value to be spread through the cluster.
#[derive(Clone, Copy, Debug)]
pub struct BroadcastRequestMsg {
    pub msg_id: Option<u64>,
    pub message: u64,
}

impl BroadcastRequestMsg {
    pub fn new(message: u64, msg_id: Option<u64>) -> (result: Self)
        ensures
            result == (BroadcastRequestMsg { msg_id, message }),
    {
        Self { msg_id, message }
    }
}

#[derive(Clone, Copy, Debug)]
pub struct BroadcastResponseMsg {
    pub in_reply_to: Option<u64>,
    pub msg_id: u64,
}

impl IntoReplyBody for BroadcastRequestMsg {
    type Item = BroadcastResponseMsg;

    fn into_reply(self, outbound_msg_id: u64) -> (result: BroadcastResponseMsg)
        ensures
            result == (BroadcastResponseMsg { in_reply_to: self.msg_id, msg_id: outbound_msg_id }),
    {
        BroadcastResponseMsg { msg_id: outbound_msg_id, in_reply_to: self.msg_id }
    }
}

impl Reply for BroadcastResponseMsg {
}

#[derive(Clone, Copy, Debug)]
pub struct ReadRequestMsg {
    pub msg_id: Option<u64>,
}

impl IntoReplyBody for ReadRequestMsg {
    type Item = ReadResponseMsg;

    fn into_reply(self, outbound_msg_id: u64) -> (result: ReadResponseMsg)
        ensures
            result.in_reply_to == self.msg_id,
            result.msg_id == outbound_msg_id,
            result.messages@ == Seq::<u64>::empty(),
    {
        ReadResponseMsg { msg_id: outbound_msg_id, in_reply_to: self.msg_id, messages: Vec::new() }
    }
}

/// The values that a node has seen, each once.
#[derive(Debug)]
pub struct ReadResponseMsg {
    pub in_reply_to: Option<u64>,
    pub msg_id: u64,
    pub messages: Vec<u64>,
}

impl Reply for ReadResponseMsg {
}

} // verus!
