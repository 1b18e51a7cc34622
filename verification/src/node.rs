//! What drives a node, and what a node asks its runner to do. The runner
//! owns the channel, the clock and the wire; the node decides.

use vstd::prelude::*;
use crate::algorithms::gossip::Broadcast;
use crate::algorithms::echo::EchoNode;
use crate::algorithms::gcounter::GCounter;
use crate::algorithms::unique_ids::UniqueIdGenerator;
use crate::errors::{ErrorMsg, ErrorType};
use crate::rpc::InitMsgIn;
use crate::rpc::InitMsgOut;
use crate::workload::Workload;

verus! {

/// One command to a node, with the message decoded.
#[derive(Debug)]
pub enum Event<M> {
    /// The `init` message.
    Init(InitMsgIn),
    /// Any later message.
    Message(M),
    /// A tick of the clock.
    Tick,
    /// A topology given to the node directly.
    TopologyOverride(Vec<(String, Vec<String>)>),
    /// Stop.
    Shutdown,
}

/// What the runner does after a command: the messages to send, and whether
/// to go on.
#[derive(Debug)]
pub struct Outcome<R, O> {
    /// The answer to an `init`.
    pub init_ok: Option<InitMsgOut>,
    /// The answer to a message.
    pub reply: Option<R>,
    /// What a tick sends to the peers.
    pub outbound: Vec<O>,
    /// Whether the node has stopped.
    pub stop: bool,
}

impl<R, O> Outcome<R, O> {
    /// Nothing is sent.
    pub open spec fn is_silent(self) -> bool {
        self.init_ok is None && self.reply is None && self.outbound@.len() == 0
    }
}

/// The node of one workload. The workload is chosen once, when the node
/// starts.
#[derive(Debug)]
pub enum AnyNode {
    Echo(EchoNode),
    UniqueIds(UniqueIdGenerator),
    Broadcast(Broadcast),
    GCounter(GCounter),
}

impl AnyNode {
    /// The workload that this node runs.
    pub open spec fn workload(self) -> Workload {
        match self {
            AnyNode::Echo(_) => Workload::Echo,
            AnyNode::UniqueIds(_) => Workload::UniqueIds,
            AnyNode::Broadcast(_) => Workload::Broadcast,
            AnyNode::GCounter(_) => Workload::GCounter,
        }
    }

    /// The node is as its workload makes it new: it counts its replies from
    /// `starting_msg_id` (the counter node from 0), and a broadcast or
    /// counter node is well-formed, knows no peer and holds nothing.
    pub open spec fn is_fresh(self, starting_msg_id: u64) -> bool {
        match self {
            AnyNode::Echo(node) => node.last_id() == starting_msg_id,
            AnyNode::UniqueIds(node) => node.last_id() == starting_msg_id && node.count() == 1
                && node.node() == 0,
            AnyNode::Broadcast(node) => {
                &&& node.wf()
                &&& node.last_id() == starting_msg_id
                &&& node.identity() == "n0"@
                &&& node.peer_names().len() == 0
                &&& node.cursors() == Map::<Seq<char>, u64>::empty()
                &&& node.log().len() == 0
            },
            AnyNode::GCounter(node) => {
                &&& node.wf()
                &&& node.last_id() == 0
                &&& node.identity() == "n0"@
                &&& node.peer_names().len() == 0
                &&& node.counts().internal_current == 0
                &&& node.counts().cluster_max == 0
            },
        }
    }
}

/// The new node for `workload`. A workload without a node is refused with
/// the error `NotSupported`.
pub fn select_node(workload: Workload, starting_msg_id: u64) -> (result: Result<AnyNode, ErrorMsg>)
    ensures
        result is Ok <==> workload.is_implemented(),
        result matches Ok(node) ==> node.workload() == workload && node.is_fresh(starting_msg_id),
        result matches Err(e) ==> e.code == ErrorType::NotSupported && e.in_reply_to is None
            && e.text@ == "Workload not supported"@,
{
    match workload {
        Workload::Echo => Ok(AnyNode::Echo(EchoNode::new(starting_msg_id))),
        Workload::UniqueIds => Ok(AnyNode::UniqueIds(UniqueIdGenerator::new(starting_msg_id))),
        Workload::Broadcast => Ok(AnyNode::Broadcast(Broadcast::new(starting_msg_id))),
        Workload::GCounter => Ok(AnyNode::GCounter(GCounter::new(starting_msg_id))),
        _ => Err(ErrorMsg::not_supported_error()),
    }
}

} // verus!
