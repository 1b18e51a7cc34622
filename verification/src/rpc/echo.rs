//! Messages of the echo workload.

use vstd::prelude::*;
use serde_json::Value;
use crate::rpc::{IntoReplyBody, Reply};

verus! {

#[derive(Debug)]
pub struct EchoMsgIn {
    pub src: String,
    pub dest: String,
    pub body: EchoRequestMsg,
}

impl EchoMsgIn {
    /// The `echo_ok` reply: it goes back to the sender with the payload of
    /// the request, under `outbound_msg_id`.
    pub fn into_response(self, outbound_msg_id: u64) -> (result: EchoMsgOut)
        ensures
            result.src == self.dest,
            result.dest == self.src,
            result.body == self.body.reply(outbound_msg_id),
    {
        EchoMsgOut { src: self.dest, dest: self.src, body: self.body.into_reply(outbound_msg_id) }
    }
}

#[derive(Debug)]
pub struct EchoMsgOut {
    pub src: String,
    pub dest: String,
    pub body: EchoResponseMsg,
}

#[derive(Debug)]
pub struct EchoRequestMsg {
    pub msg_id: u64,
    pub echo: Value,
}

impl EchoRequestMsg {
    pub fn new(msg_id: u64, echo: Value) -> (result: Self)
        ensures
            result == (EchoRequestMsg { msg_id, echo }),
    {
        EchoRequestMsg { msg_id, echo }
    }

    /// The body that answers this request.
    pub open spec fn reply(self, outbound_msg_id: u64) -> EchoResponseMsg {
        EchoResponseMsg { msg_id: outbound_msg_id, echo: self.echo, in_reply_to: Some(self.msg_id) }
    }
}

impl IntoReplyBody for EchoRequestMsg {
    type Item = EchoResponseMsg;

    fn into_reply(self, outbound_msg_id: u64) -> (result: EchoResponseMsg)
        ensures
            result == self.reply(outbound_msg_id),
    {
        EchoResponseMsg { msg_id: outbound_msg_id, in_reply_to: Some(self.msg_id), echo: self.echo }
    }
}

#[derive(Debug)]
pub struct EchoResponseMsg {
    pub msg_id: u64,
    pub echo: Value,
    pub in_reply_to: Option<u64>,
}

impl Reply for EchoResponseMsg {
}

} // verus!
