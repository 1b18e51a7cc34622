//! Requests to the key-value services of the cluster. A request is
//! addressed to the service by its kind.

use vstd::prelude::*;
use serde_json::Value;

verus! {

/// The kinds of key-value service: linearizable, sequential, and
/// last-write-wins.
#[derive(Clone, Copy, Debug, PartialEq, Eq, Structural)]
pub enum KvType {
    LinKV,
    SeqKV,
    LwwKV,
}

/// A client of one key-value service.
#[derive(Clone, Copy, Debug)]
pub struct KV {
    pub _type: KvType,
}

impl KV {
    pub fn new(_type: KvType) -> (result: Self)
        ensures
            result._type == _type,
    {
        Self { _type }
    }

    /// The request that sets `key` to `value`.
    pub fn write(&self, key: String, value: Value) -> (result: KvRpc)
        ensures
            result == (KvRpc {
                dest: self._type,
                body: KvRpcBody::Write(WriteRequestBody { key, value }),
            }),
    {
        KvRpc { dest: self._type, body: KvRpcBody::Write(WriteRequestBody { key, value }) }
    }

    /// The request that reads `key`.
    pub fn read(&self, key: String) -> (result: KvRpc)
        ensures
            result == (KvRpc { dest: self._type, body: KvRpcBody::Read(ReadRequestBody { key }) }),
    {
        KvRpc { dest: self._type, body: KvRpcBody::Read(ReadRequestBody { key }) }
    }

    /// The request that sets `key` to `to` if it holds `from`.
    pub fn cas(&self, key: String, from: Value, to: Value, create_if_not_exists: Option<bool>) -> (result:
        KvRpc)
        ensures
            result == (KvRpc {
                dest: self._type,
                body: KvRpcBody::Cas(CasRequestMsg { key, from, to, create_if_not_exists }),
            }),
    {
        KvRpc {
            dest: self._type,
            body: KvRpcBody::Cas(CasRequestMsg { key, from, to, create_if_not_exists }),
        }
    }
}

/// One request to a key-value service.
#[derive(Debug)]
pub struct KvRpc {
    pub dest: KvType,
    pub body: KvRpcBody,
}

#[derive(Debug)]
pub enum KvRpcBody {
    Read(ReadRequestBody),
    ReadOk(ReadResponseBody),
    Write(WriteRequestBody),
    Cas(CasRequestMsg),
}

#[derive(Debug)]
pub struct ReadRequestBody {
    pub key: String,
}

#[derive(Debug)]
pub struct ReadResponseBody {
    pub value: Value,
}

#[derive(Debug)]
pub struct WriteRequestBody {
    pub key: String,
    pub value: Value,
}

#[derive(Debug)]
pub struct CasRequestMsg {
    pub key: String,
    pub from: Value,
    pub to: Value,
    pub create_if_not_exists: Option<bool>,
}

} // verus!
