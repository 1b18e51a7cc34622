//! Messages of the grow-only set workload.

use vstd::prelude::*;
use serde_json::Value;

verus! {

#[derive(Clone, Copy, Debug, PartialEq, Eq, Structural)]
pub enum MsgType {
    Add,
    AddOk,
    Read,
    ReadOk,
}

#[derive(Debug)]
pub struct AddRequestMsg {
    pub typ: MsgType,
    pub msg_id: usize,
    pub element: Value,
}

#[derive(Debug)]
pub struct AddResponseMsg {
    pub typ: MsgType,
    pub in_reply_to: Option<usize>,
    pub msg_id: Option<String>,
}

#[derive(Clone, Copy, Debug)]
pub struct ReadMsg {
    pub typ: MsgType,
    pub msg_id: usize,
}

#[derive(Debug)]
pub struct ReadResponseMsg {
    pub typ: MsgType,
    pub in_reply_to: Option<usize>,
    pub msg_id: Option<String>,
    pub value: Vec<Value>,
}

} // verus!
