//! The messages that nodes exchange, and how a request becomes its reply.

use vstd::prelude::*;

pub mod echo;
pub mod gcounter;
pub mod gossip;
pub mod gset;
pub mod unique_ids;

verus! {

/// The request kinds of all workloads.
#[derive(Clone, Copy, Debug, PartialEq, Eq, Structural)]
pub enum MessageType {
    Init,
    Broadcast,
    BroadcastOk,
    Topology,
    Read,
    Echo,
    Add,
    Send,
    Poll,
    CommitOffsets,
    ListCommittedOffsets,
    Write,
    Cas,
    Txn,
    Generate,
}

/// Marks a type as the body of a reply.
pub trait Reply {
}

/// A request body that can be turned into the body of its reply.
pub trait IntoReplyBody {
    type Item: Reply;

    fn into_reply(self, outbound_msg_id: u64) -> Self::Item;
}

/// The first message that a node receives: it names the node and the cluster.
#[derive(Clone, Debug)]
pub struct InitMsgIn {
    pub src: String,
    pub dest: String,
    pub body: InitRequestMsg,
}

impl InitMsgIn {
    /// The `init_ok` reply: it goes back to the sender and answers the
    /// request's message id.
    pub fn into_response(self, outbound_msg_id: u64) -> (result: InitMsgOut)
        ensures
            result.src == self.dest,
            result.dest == self.src,
            result.body.in_reply_to == Some(self.body.msg_id),
    {
        InitMsgOut {
            src: self.dest,
            dest: self.src,
            body: self.body.into_reply(outbound_msg_id),
        }
    }
}

#[derive(Clone, Debug)]
pub struct InitMsgOut {
    pub src: String,
    pub dest: String,
    pub body: InitResponseMsg,
}

#[derive(Clone, Debug)]
pub struct InitRequestMsg {
    pub msg_id: u64,
    pub node_id: String,
    pub node_ids: Vec<String>,
}

impl InitRequestMsg {
    pub fn new(msg_id: u64, node_id: String, node_ids: Vec<String>) -> (result: Self)
        ensures
            result.msg_id == msg_id,
            result.node_id == node_id,
            result.node_ids == node_ids,
    {
        InitRequestMsg { msg_id, node_id, node_ids }
    }
}

impl IntoReplyBody for InitRequestMsg {
    type Item = InitResponseMsg;

    fn into_reply(self, _outbound_msg_id: u64) -> (result: InitResponseMsg)
        ensures
            result.in_reply_to == Some(self.msg_id),
    {
        InitResponseMsg { in_reply_to: Some(self.msg_id) }
    }
}

#[derive(Clone, Copy, Debug)]
pub struct InitResponseMsg {
    pub in_reply_to: Option<u64>,
}

impl Reply for InitResponseMsg {
}

} // verus!
