//! Messages of the unique-id workload.

use vstd::prelude::*;
use crate::rpc::{IntoReplyBody, Reply};

verus! {

#[derive(Debug)]
pub struct GenerateMsgIn {
    pub src: String,
    pub dest: String,
    pub body: GenerateRequestMsg,
}

impl GenerateMsgIn {
    /// The `generate_ok` reply, its id still empty: it goes back to the
    /// sender under `outbound_msg_id`.
    pub fn into_response(self, outbound_msg_id: u64) -> (result: GenerateMsgOut)
        ensures
            result.src == self.dest,
            result.dest == self.src,
            result.body.in_reply_to == Some(self.body.msg_id),
            result.body.msg_id == outbound_msg_id,
            result.body.value@ == Seq::<char>::empty(),
    {
        GenerateMsgOut {
            src: self.dest,
            dest: self.src,
            body: self.body.into_reply(outbound_msg_id),
        }
    }

    /// The `generate_ok` reply that carries the id `value`.
    pub fn into_response_with(self, value: String, outbound_msg_id: u64) -> (result: GenerateMsgOut)
        ensures
            result.src == self.dest,
            result.dest == self.src,
            result.body.in_reply_to == Some(self.body.msg_id),
            result.body.msg_id == outbound_msg_id,
            result.body.value == value,
    {
        let mut msg_out = self.into_response(outbound_msg_id);
        msg_out.body.value = value;
        msg_out
    }
}

#[derive(Debug)]
pub struct GenerateMsgOut {
    pub src: String,
    pub dest: String,
    pub body: GenerateResponseMsg,
}

/// The kinds of reply of the unique-id workload.
#[derive(Clone, Copy, Debug, PartialEq, Eq, Structural)]
pub enum GenerateMsgType {
    GenerateOk,
}

#[derive(Clone, Copy, Debug)]
pub struct GenerateRequestMsg {
    pub msg_id: u64,
}

impl GenerateRequestMsg {
    pub fn new(msg_id: u64) -> (result: Self)
        ensures
            result.msg_id == msg_id,
    {
        GenerateRequestMsg { msg_id }
    }
}

impl IntoReplyBody for GenerateRequestMsg {
    type Item = GenerateResponseMsg;

    fn into_reply(self, outbound_msg_id: u64) -> (result: GenerateResponseMsg)
        ensures
            result.in_reply_to == Some(self.msg_id),
            result.msg_id == outbound_msg_id,
            result.value@ == Seq::<char>::empty(),
    {
        GenerateResponseMsg {
            msg_id: outbound_msg_id,
            in_reply_to: Some(self.msg_id),
            value: String::new(),
        }
    }
}

#[derive(Debug)]
pub struct GenerateResponseMsg {
    pub in_reply_to: Option<u64>,
    pub msg_id: u64,
    pub value: String,
}

impl Reply for GenerateResponseMsg {
}

} // verus!
