//! The workloads that a node can run, and the commands that drive a node.

use vstd::prelude::*;
use crate::rpc::InitMsgIn;

verus! {

#[derive(Clone, Copy, Debug, PartialEq, Eq, Structural)]
pub enum Workload {
    Broadcast,
    Echo,
    /// A counter that only grows, eventually consistent.
    GCounter,
    /// A set that only grows, eventually consistent.
    GSet,
    Kafka,
    /// A linearizable key-value store.
    LinKV,
    /// An eventually consistent counter that goes up and down.
    PNCounter,
    /// Transactions over a map of keys to lists of elements.
    TxnListAppend,
    /// Transactions over a map of keys to values.
    TxnRwRegister,
    /// Ids that no two requests share.
    UniqueIds,
}

impl Workload {
    /// Whether a node for this workload exists.
    pub open spec fn is_implemented(self) -> bool {
        self is Echo || self is UniqueIds || self is Broadcast || self is GCounter
    }

    /// Whether a node for this workload exists. A run with another workload
    /// fails at its start.
    pub fn implemented(&self) -> (result: bool)
        ensures
            result == self.is_implemented(),
    {
        match self {
            Workload::Echo => true,
            Workload::UniqueIds => true,
            Workload::Broadcast => true,
            Workload::GCounter => true,
            _ => false,
        }
    }
}

/// What a node is told, one after the other.
#[derive(Debug)]
pub enum Command {
    /// The `init` message.
    Init(InitMsgIn),
    /// Any later message, as it was read.
    Msg(String),
    /// A change of the topology.
    Toplogy(Vec<(String, Vec<String>)>),
    /// Stop.
    Shutdown,
    /// A tick of the clock.
    Tick,
}

} // verus!
