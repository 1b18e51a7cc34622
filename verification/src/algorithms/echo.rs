//! The echo node: it sends back what it is sent.

use vstd::prelude::*;
use crate::rpc::InitMsgIn;
use crate::rpc::InitMsgOut;
use crate::rpc::echo::{EchoMsgIn, EchoMsgOut};

verus! {

/// The state of an echo node: the id that its last reply was given.
#[derive(Debug)]
pub struct EchoNode {
    last_msg_id: u64,
}

impl EchoNode {
    /// The id that the last reply was given.
    pub closed spec fn last_id(&self) -> u64 {
        self.last_msg_id
    }

    /// A node that counts its replies from `starting_msg_id`.
    pub fn new(starting_msg_id: u64) -> (result: Self)
        ensures
            result.last_id() == starting_msg_id,
    {
        Self { last_msg_id: starting_msg_id }
    }

    /// The id that the last reply was given.
    pub fn last_msg_id(&self) -> (result: u64)
        ensures
            result == self.last_id(),
    {
        self.last_msg_id
    }

    /// Answers an `echo` with its payload, under the next id.
    pub fn handle(&mut self, msg: EchoMsgIn) -> (result: EchoMsgOut)
        requires
            old(self).last_id() < u64::MAX,
        ensures
            final(self).last_id() == old(self).last_id() + 1,
            result.src == msg.dest,
            result.dest == msg.src,
            result.body == msg.body.reply(final(self).last_id()),
    {
        self.last_msg_id += 1;
        msg.into_response(self.last_msg_id)
    }

    /// Answers the `init` message.
    pub fn on_init(&mut self, msg: InitMsgIn) -> (result: InitMsgOut)
        ensures
            *final(self) == *old(self),
            result.src == msg.dest,
            result.dest == msg.src,
            result.body.in_reply_to == Some(msg.body.msg_id),
    {
        msg.into_response(self.last_msg_id)
    }
}

} // verus!
