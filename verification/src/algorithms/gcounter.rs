//! The counter node: it adds up what it is told to add, asks its peers for
//! their counts each tick, and answers a read with the largest count that it
//! knows of.

use vstd::prelude::*;
use crate::algorithms::node_ids::{copy_names, names};
use crate::algorithms::topology::{
    collect_peers,
    lemma_peers_exclude_self,
    topology_peers,
    topology_view,
};
use crate::node::{Event, Outcome};
use crate::rpc::InitMsgIn;
use crate::rpc::InitMsgOut;
use crate::rpc::gcounter::{GCounterMessage, GCounterMessageBody};

verus! {

/// The larger of two counts.
pub open spec fn larger(a: u64, b: u64) -> u64 {
    if a > b {
        a
    } else {
        b
    }
}

/// The two counts of a node: what was added here, and the largest count
/// that a peer has reported.
pub struct CounterState {
    pub internal_current: u64,
    pub cluster_max: u64,
}

impl CounterState {
    /// What a read returns.
    pub open spec fn estimate(self) -> u64 {
        larger(self.internal_current, self.cluster_max)
    }

    /// The counts after `delta` has been added here. A count that would
    /// pass the largest 64-bit number stays at that number: it never wraps
    /// round to a smaller one.
    pub open spec fn after_add(self, delta: u64) -> CounterState {
        CounterState {
            internal_current: if self.internal_current + delta <= u64::MAX {
                (self.internal_current + delta) as u64
            } else {
                u64::MAX
            },
            cluster_max: self.cluster_max,
        }
    }

    /// The counts after a peer has reported `reported`.
    pub open spec fn after_read_ok(self, reported: u64) -> CounterState {
        CounterState {
            internal_current: self.internal_current,
            cluster_max: larger(self.cluster_max, reported),
        }
    }

    /// The counts after a message with the body `body`: an `add` adds, a
    /// `read_ok` is merged, and no other message changes a count.
    pub open spec fn after_message(self, body: GCounterMessageBody) -> CounterState {
        match body {
            GCounterMessageBody::Add(req) => self.after_add(req.delta),
            GCounterMessageBody::ReadOk(rep) => self.after_read_ok(rep.value),
            _ => self,
        }
    }

    /// The counts after one command: only a message can change them.
    pub open spec fn after_event(self, event: Event<GCounterMessage>) -> CounterState {
        match event {
            Event::Message(msg) => self.after_message(msg.body),
            _ => self,
        }
    }

    /// The counts after a run of commands, taken in their order.
    pub open spec fn after_events(self, events: Seq<Event<GCounterMessage>>) -> CounterState
        decreases events.len(),
    {
        if events.len() == 0 {
            self
        } else {
            self.after_events(events.drop_last()).after_event(events.last())
        }
    }

    /// Neither count of `self` is below that of `before`.
    pub open spec fn at_least(self, before: CounterState) -> bool {
        self.internal_current >= before.internal_current && self.cluster_max >= before.cluster_max
    }
}

/// `msgs` are `read` requests from `from`, one to each of `peers`, in their
/// order.
pub open spec fn reads_to_all(msgs: Seq<GCounterMessage>, from: Seq<char>, peers: Seq<Seq<char>>) -> bool {
    &&& msgs.len() == peers.len()
    &&& forall|k: int|
        0 <= k < msgs.len() ==> (#[trigger] msgs[k]).src@ == from && msgs[k].dest@ == peers[k]
            && msgs[k].body == GCounterMessageBody::Read
}

/// The state of a counter node.
#[derive(Debug)]
pub struct GCounter {
    node_id: String,
    node_ids: Vec<String>,
    topology: Vec<(String, Vec<String>)>,
    all_nodes: Vec<String>,
    notify_ticks: u64,
    last_msg_id: u64,
    internal_current: u64,
    cluster_max: u64,
}

impl GCounter {
    /// The name of this node.
    pub closed spec fn identity(&self) -> Seq<char> {
        self.node_id@
    }

    /// The names of all nodes of the cluster, as the `init` message gave
    /// them.
    pub closed spec fn members(&self) -> Seq<Seq<char>> {
        names(self.node_ids@)
    }

    /// The topology as it was last given.
    pub closed spec fn adjacency(&self) -> Seq<(Seq<char>, Seq<Seq<char>>)> {
        topology_view(self.topology@)
    }

    /// The names of the peers.
    pub closed spec fn peer_names(&self) -> Seq<Seq<char>> {
        names(self.all_nodes@)
    }

    /// The two counts.
    pub closed spec fn counts(&self) -> CounterState {
        CounterState { internal_current: self.internal_current, cluster_max: self.cluster_max }
    }

    /// The id that the last reply was given.
    pub closed spec fn last_id(&self) -> u64 {
        self.last_msg_id
    }

    /// The ticks since the tick count last began anew.
    pub closed spec fn ticks(&self) -> nat {
        self.notify_ticks as nat
    }

    /// The peers are those that the topology gives this node, each listed
    /// once and the node itself not among them, and the tick count is
    /// within its round.
    pub closed spec fn wf(&self) -> bool {
        &&& names(self.all_nodes@).no_duplicates()
        &&& names(self.all_nodes@).to_set() == topology_peers(
            topology_view(self.topology@),
            self.node_id@,
        )
        &&& !names(self.all_nodes@).contains(self.node_id@)
        &&& self.notify_ticks <= 40
    }

    /// Name, members, topology and peers are those of `before`.
    pub open spec fn same_cluster(&self, before: &Self) -> bool {
        &&& self.identity() == before.identity()
        &&& self.members() == before.members()
        &&& self.adjacency() == before.adjacency()
        &&& self.peer_names() == before.peer_names()
    }

    /// What the well-formedness says of the state in public terms.
    pub proof fn lemma_wf(&self)
        requires
            self.wf(),
        ensures
            self.peer_names().no_duplicates(),
            self.peer_names().to_set() == topology_peers(self.adjacency(), self.identity()),
            !self.peer_names().contains(self.identity()),
            self.ticks() <= 40,
    {
    }

    /// A node that has not been initialised: it is called `n0`, knows no
    /// peer, and both its counts are 0. Its replies are counted from 0.
    pub fn new(_starting_msg_id: u64) -> (result: Self)
        ensures
            result.wf(),
            result.identity() == "n0"@,
            result.members().len() == 0,
            result.adjacency().len() == 0,
            result.peer_names().len() == 0,
            result.counts() == (CounterState { internal_current: 0, cluster_max: 0 }),
            result.last_id() == 0,
            result.ticks() == 0,
    {
        let result = Self {
            last_msg_id: 0,
            notify_ticks: 0,
            internal_current: 0,
            cluster_max: 0,
            node_id: "n0".to_string(),
            node_ids: Vec::new(),
            topology: Vec::new(),
            all_nodes: Vec::new(),
        };
        proof {
            lemma_peers_exclude_self(topology_view(result.topology@), result.node_id@);
            assert(names(result.all_nodes@).to_set() =~= Set::<Seq<char>>::empty());
        }
        result
    }

    /// The name of this node.
    pub fn node_id(&self) -> (result: &String)
        ensures
            result@ == self.identity(),
    {
        &self.node_id
    }

    /// The names of all nodes of the cluster.
    pub fn node_ids(&self) -> (result: &Vec<String>)
        ensures
            names(result@) == self.members(),
    {
        &self.node_ids
    }

    /// The peers of this node.
    pub fn peers(&self) -> (result: &Vec<String>)
        ensures
            names(result@) == self.peer_names(),
    {
        &self.all_nodes
    }

    /// What was added at this node.
    pub fn internal_current(&self) -> (result: u64)
        ensures
            result == self.counts().internal_current,
    {
        self.internal_current
    }

    /// The largest count that a peer has reported.
    pub fn cluster_max(&self) -> (result: u64)
        ensures
            result == self.counts().cluster_max,
    {
        self.cluster_max
    }

    /// The id that the last reply was given.
    pub fn last_msg_id(&self) -> (result: u64)
        ensures
            result == self.last_id(),
    {
        self.last_msg_id
    }

    /// Takes the node's name and the cluster's members from the `init`
    /// message and answers it. The peers are derived anew from the topology,
    /// so that the node is never its own peer.
    pub fn on_init(&mut self, msg: InitMsgIn) -> (result: InitMsgOut)
        requires
            old(self).wf(),
        ensures
            final(self).wf(),
            final(self).identity() == msg.body.node_id@,
            final(self).members() == names(msg.body.node_ids@),
            final(self).adjacency() == old(self).adjacency(),
            final(self).peer_names().to_set() == topology_peers(
                old(self).adjacency(),
                msg.body.node_id@,
            ),
            final(self).counts() == old(self).counts(),
            final(self).last_id() == old(self).last_id(),
            final(self).ticks() == old(self).ticks(),
            result.src == msg.dest,
            result.dest == msg.src,
            result.body.in_reply_to == Some(msg.body.msg_id),
    {
        self.node_id = msg.body.node_id.clone();
        self.node_ids = copy_names(&msg.body.node_ids);
        self.all_nodes = collect_peers(&self.topology, &self.node_id);
        msg.into_response(self.last_msg_id)
    }

    /// Makes `adjacency` the topology and derives the peers from it.
    pub fn apply_topology(&mut self, adjacency: Vec<(String, Vec<String>)>)
        requires
            old(self).wf(),
        ensures
            final(self).wf(),
            final(self).adjacency() == topology_view(adjacency@),
            final(self).peer_names().to_set() == topology_peers(
                topology_view(adjacency@),
                old(self).identity(),
            ),
            final(self).identity() == old(self).identity(),
            final(self).members() == old(self).members(),
            final(self).counts() == old(self).counts(),
            final(self).last_id() == old(self).last_id(),
            final(self).ticks() == old(self).ticks(),
    {
        self.all_nodes = collect_peers(&adjacency, &self.node_id);
        self.topology = adjacency;
    }

    /// Adds `val` to what was added here. A count that would pass the
    /// largest 64-bit number stays at that number.
    pub fn handle_add(&mut self, val: u64) -> (result: Option<u64>)
        requires
            old(self).wf(),
        ensures
            result is None,
            final(self).wf(),
            final(self).counts() == old(self).counts().after_add(val),
            final(self).counts().at_least(old(self).counts()),
            final(self).same_cluster(old(self)),
            final(self).last_id() == old(self).last_id(),
            final(self).ticks() == old(self).ticks(),
    {
        if val <= u64::MAX - self.internal_current {
            self.internal_current += val;
        } else {
            self.internal_current = u64::MAX;
        }
        None
    }

    /// A peer's acknowledgment of an `add` changes nothing.
    pub fn handle_add_ok(&mut self) -> (result: Option<u64>)
        ensures
            result is None,
            *final(self) == *old(self),
    {
        None
    }

    /// The value of the counter as this node sees it: the larger of its two
    /// counts.
    pub fn handle_read(&mut self) -> (result: Option<u64>)
        ensures
            result == Some(old(self).counts().estimate()),
            *final(self) == *old(self),
    {
        if self.internal_current > self.cluster_max {
            Some(self.internal_current)
        } else {
            Some(self.cluster_max)
        }
    }

    /// Takes note of the count `val` that a peer has reported: the largest
    /// reported count never falls.
    pub fn handle_read_ok(&mut self, val: u64) -> (result: Option<u64>)
        requires
            old(self).wf(),
        ensures
            result is None,
            final(self).wf(),
            final(self).counts() == old(self).counts().after_read_ok(val),
            final(self).same_cluster(old(self)),
            final(self).last_id() == old(self).last_id(),
            final(self).ticks() == old(self).ticks(),
    {
        if val > self.cluster_max {
            self.cluster_max = val;
        }
        None
    }

    /// A `read` request to every peer, in the order of the peers.
    pub fn build_read_all_messages(&self) -> (result: Vec<GCounterMessage>)
        ensures
            reads_to_all(result@, self.identity(), self.peer_names()),
    {
        let mut msgs: Vec<GCounterMessage> = Vec::new();
        let mut i: usize = 0;
        while i < self.all_nodes.len()
            invariant
                i <= self.all_nodes@.len(),
                reads_to_all(msgs@, self.identity(), self.peer_names().take(i as int)),
            decreases self.all_nodes@.len() - i,
        {
            let msg = GCounterMessage::new_read(self.node_id.clone(), self.all_nodes[i].clone());
            msgs.push(msg);
            i += 1;
        }
        proof {
            assert(self.peer_names().take(self.all_nodes@.len() as int) =~= self.peer_names());
        }
        msgs
    }

    /// One tick of the clock: counts it and asks every peer for its count.
    pub fn handle_tick(&mut self) -> (result: Vec<GCounterMessage>)
        requires
            old(self).wf(),
        ensures
            final(self).wf(),
            final(self).ticked(old(self), result@),
    {
        let msgs = self.build_read_all_messages();
        if self.notify_ticks < 40 {
            self.notify_ticks += 1;
        } else {
            self.notify_ticks = 0;
        }
        msgs
    }

    /// `self` and `result` are what handling `msg` makes of the node
    /// `before`: the message is counted and its body acts on the counts. A
    /// `read` is answered with the node's estimate and an `add` is
    /// acknowledged, each by one reply to the sender; a peer's `read_ok` is
    /// merged and, like an `add_ok`, gets no reply.
    pub open spec fn handled(&self, before: &Self, msg: GCounterMessage, result: Option<
        GCounterMessage,
    >) -> bool {
        &&& self.same_cluster(before)
        &&& self.last_id() == before.last_id() + 1
        &&& self.ticks() == before.ticks()
        &&& self.counts() == before.counts().after_message(msg.body)
        &&& result is Some <==> (msg.body is Read || msg.body is Add)
        &&& result matches Some(out) ==> out.src == msg.dest && out.dest == msg.src && out.body
            == msg.body.reply(
            if msg.body is Read {
                before.counts().estimate()
            } else {
                0
            },
            self.last_id(),
        )
    }

    /// `self` and `msgs` are what a tick makes of the node `before`: every
    /// peer is asked for its count, and the tick is counted. The tick count
    /// begins anew after 40 ticks; nothing else changes.
    pub open spec fn ticked(&self, before: &Self, msgs: Seq<GCounterMessage>) -> bool {
        &&& reads_to_all(msgs, before.identity(), before.peer_names())
        &&& self.same_cluster(before)
        &&& self.counts() == before.counts()
        &&& self.last_id() == before.last_id()
        &&& self.ticks() == if before.ticks() < 40 {
            before.ticks() + 1
        } else {
            0
        }
    }

    /// Handles one message: counts it, lets its body act on the counts, and
    /// gives the reply, if the message has one.
    pub fn handle(&mut self, msg: GCounterMessage) -> (result: Option<GCounterMessage>)
        requires
            old(self).wf(),
            old(self).last_id() < u64::MAX,
        ensures
            final(self).wf(),
            final(self).handled(old(self), msg, result),
    {
        self.last_msg_id += 1;
        let value = match &msg.body {
            GCounterMessageBody::Read => self.handle_read(),
            GCounterMessageBody::ReadOk(val) => self.handle_read_ok(val.value),
            GCounterMessageBody::Add(val) => self.handle_add(val.delta),
            GCounterMessageBody::AddOk(_) => self.handle_add_ok(),
            GCounterMessageBody::NoOp => None,
        };
        let value = match value {
            Some(v) => v,
            None => 0,
        };
        msg.into_response(value, self.last_msg_id)
    }

    /// Acts on one command. An `init` is answered with `init_ok`; a message
    /// gets at most one reply; a tick asks every peer; a topology given
    /// directly is applied and answered by nothing; and a shutdown stops
    /// the node as it is. No command lowers a count.
    pub fn step(&mut self, event: Event<GCounterMessage>) -> (result: Outcome<
        GCounterMessage,
        GCounterMessage,
    >)
        requires
            old(self).wf(),
            event is Message ==> old(self).last_id() < u64::MAX,
        ensures
            final(self).wf(),
            result.stop == (event is Shutdown),
            final(self).counts() == old(self).counts().after_event(event),
            final(self).counts().at_least(old(self).counts()),
            final(self).counts().estimate() >= old(self).counts().estimate(),
            match event {
                Event::Init(msg) => {
                    &&& result.init_ok matches Some(out)
                    &&& out.src == msg.dest
                    &&& out.dest == msg.src
                    &&& out.body.in_reply_to == Some(msg.body.msg_id)
                    &&& result.reply is None
                    &&& result.outbound@.len() == 0
                    &&& final(self).identity() == msg.body.node_id@
                    &&& final(self).members() == names(msg.body.node_ids@)
                    &&& final(self).adjacency() == old(self).adjacency()
                    &&& final(self).peer_names().to_set() == topology_peers(
                        old(self).adjacency(),
                        msg.body.node_id@,
                    )
                    &&& final(self).counts() == old(self).counts()
                    &&& final(self).last_id() == old(self).last_id()
                    &&& final(self).ticks() == old(self).ticks()
                },
                Event::Message(msg) => {
                    &&& result.init_ok is None
                    &&& result.outbound@.len() == 0
                    &&& final(self).handled(old(self), msg, result.reply)
                },
                Event::Tick => {
                    &&& result.init_ok is None
                    &&& result.reply is None
                    &&& final(self).ticked(old(self), result.outbound@)
                },
                Event::TopologyOverride(adjacency) => {
                    &&& result.is_silent()
                    &&& final(self).adjacency() == topology_view(adjacency@)
                    &&& final(self).peer_names().to_set() == topology_peers(
                        topology_view(adjacency@),
                        old(self).identity(),
                    )
                    &&& final(self).identity() == old(self).identity()
                    &&& final(self).members() == old(self).members()
                    &&& final(self).counts() == old(self).counts()
                    &&& final(self).last_id() == old(self).last_id()
                    &&& final(self).ticks() == old(self).ticks()
                },
                Event::Shutdown => result.is_silent() && *final(self) == *old(self),
            },
    {
        let mut outcome = Outcome { init_ok: None, reply: None, outbound: Vec::new(), stop: false };
        match event {
            Event::Init(msg) => {
                outcome.init_ok = Some(self.on_init(msg));
            },
            Event::Message(msg) => {
                outcome.reply = self.handle(msg);
            },
            Event::Tick => {
                outcome.outbound = self.handle_tick();
            },
            Event::TopologyOverride(adjacency) => {
                self.apply_topology(adjacency);
            },
            Event::Shutdown => {
                outcome.stop = true;
            },
        }
        outcome
    }
}

/// Adding and merging never lower a count, and a read never returns less
/// than a read before it: both counts, and the estimate, only grow, also
/// where an `add` would pass the largest 64-bit number.
pub proof fn lemma_counter_monotone(state: CounterState, delta: u64, reported: u64)
    ensures
        state.after_read_ok(reported).at_least(state),
        state.after_read_ok(reported).estimate() >= state.estimate(),
        state.after_read_ok(reported).cluster_max >= reported,
        state.after_add(delta).at_least(state),
        state.after_add(delta).estimate() >= state.estimate(),
        state.internal_current + delta <= u64::MAX ==> state.after_add(delta).internal_current
            == state.internal_current + delta,
        state.after_add(delta).cluster_max == state.cluster_max,
{
}

/// Over any run of commands, in any order, neither count falls, and a read
/// after the run returns no less than a read before it.
pub proof fn lemma_reads_never_fall(state: CounterState, events: Seq<Event<GCounterMessage>>)
    ensures
        state.after_events(events).at_least(state),
        state.after_events(events).estimate() >= state.estimate(),
    decreases events.len(),
{
    if events.len() > 0 {
        lemma_reads_never_fall(state, events.drop_last());
    }
}

/// Merging reported counts is a join: the order of two reports does not
/// matter, and a report merged twice counts once.
pub proof fn lemma_merge_is_join(state: CounterState, a: u64, b: u64)
    ensures
        state.after_read_ok(a).after_read_ok(b) == state.after_read_ok(b).after_read_ok(a),
        state.after_read_ok(a).after_read_ok(a) == state.after_read_ok(a),
{
}

} // verus!
