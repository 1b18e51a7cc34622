//! The broadcast node: an append-only log of values, spread to the peers by
//! gossip. Each tick a random sample of the peers is sent the value at its
//! cursor; an acknowledgment moves the cursor forward.

use vstd::prelude::*;
use rand::rngs::StdRng;
use rand::seq::IteratorRandom;
use crate::algorithms::cursors::{cursors_after_topology, CursorTable};
use crate::algorithms::node_ids::{copy_names, lemma_push_contains, names};
use crate::algorithms::topology::{
    collect_peers,
    copy_topology,
    lemma_peers_exclude_self,
    topology_peers,
    topology_view,
};
use crate::node::{Event, Outcome};
use crate::rpc::InitMsgIn;
use crate::rpc::InitMsgOut;
use crate::rpc::gossip::{
    BroadcastMsgIn,
    BroadcastMsgOut,
    BroadcastMsgRequestBody,
    BroadcastMsgResponseBody,
    BroadcastReceivedOkMsg,
    BroadcastRequestMsg,
    BroadcastResponseMsg,
    ReadRequestMsg,
    TopologyRequestMsg,
};

verus! {

/// The random number generator that picks the peers of a tick.
#[verifier::external_type_specification]
#[verifier::external_body]
pub struct ExStdRng(StdRng);

/// The number of peers that a tick samples out of `n`: half of them, rounded
/// up, and one more.
pub open spec fn sample_size(n: nat) -> nat {
    (n + 1) / 2 + 1
}

/// `sample` holds places in a list of `n` peers, none twice, and as many of
/// them as a tick contacts.
pub open spec fn is_sample(sample: Seq<usize>, n: nat) -> bool {
    &&& sample.len() == if sample_size(n) <= n {
        sample_size(n)
    } else {
        n
    }
    &&& forall|k: int| 0 <= k < sample.len() ==> (#[trigger] sample[k]) < n
    &&& sample.no_duplicates()
}

/// The log after a `broadcast` of `value`: the value is appended unless the
/// log holds it already.
pub open spec fn log_after_broadcast(log: Seq<u64>, value: u64) -> Seq<u64> {
    if log.contains(value) {
        log
    } else {
        log.push(value)
    }
}

/// The log after `n` broadcasts of the same `value`.
pub open spec fn log_after_broadcasts(log: Seq<u64>, value: u64, n: nat) -> Seq<u64>
    decreases n,
{
    if n == 0 {
        log
    } else {
        log_after_broadcast(log_after_broadcasts(log, value, (n - 1) as nat), value)
    }
}

/// A cursor after an acknowledgment of `acked`: it moves forward to the
/// acknowledged version, and never back.
pub open spec fn cursor_after_ack(cursor: u64, acked: Option<u64>) -> u64 {
    match acked {
        Some(version) => if version > cursor {
            version
        } else {
            cursor
        },
        None => cursor,
    }
}

/// The cursor table after `peer` has acknowledged `acked`. A sender that is
/// no peer changes nothing.
pub open spec fn cursors_after_ack(
    cursors: Map<Seq<char>, u64>,
    peer: Seq<char>,
    acked: Option<u64>,
) -> Map<Seq<char>, u64> {
    if cursors.dom().contains(peer) {
        cursors.insert(peer, cursor_after_ack(cursors[peer], acked))
    } else {
        cursors
    }
}

/// One value that a tick sends: to `dest`, the value at its cursor.
pub struct Catchup {
    pub dest: Seq<char>,
    pub version: u64,
    pub value: u64,
}

/// `msg` is the `broadcast` from `from` that carries `c`.
pub open spec fn carries(msg: BroadcastMsgIn, from: Seq<char>, c: Catchup) -> bool {
    &&& msg.src@ == from
    &&& msg.dest@ == c.dest
    &&& msg.body == BroadcastMsgRequestBody::Broadcast(
        BroadcastRequestMsg { msg_id: Some(c.version), message: c.value },
    )
}

/// `msgs` are the broadcasts from `from` that carry `sent`, in that order.
pub open spec fn carry_all(msgs: Seq<BroadcastMsgIn>, from: Seq<char>, sent: Seq<Catchup>) -> bool {
    &&& msgs.len() == sent.len()
    &&& forall|k: int| 0 <= k < msgs.len() ==> carries(#[trigger] msgs[k], from, sent[k])
}

/// The state of a broadcast node.
#[derive(Debug)]
pub struct Broadcast {
    node_id: String,
    node_ids: Vec<String>,
    topology: Vec<(String, Vec<String>)>,
    all_nodes: Vec<String>,
    notify_ticks: u8,
    peer_versions: CursorTable,
    values: Vec<u64>,
    last_msg_id: u64,
}

impl Broadcast {
    /// The name of this node.
    pub closed spec fn identity(&self) -> Seq<char> {
        self.node_id@
    }

    /// The names of all nodes of the cluster, as the `init` message gave
    /// them.
    pub closed spec fn members(&self) -> Seq<Seq<char>> {
        names(self.node_ids@)
    }

    /// The topology as it was last given.
    pub closed spec fn adjacency(&self) -> Seq<(Seq<char>, Seq<Seq<char>>)> {
        topology_view(self.topology@)
    }

    /// The names of the peers, in the order in which a sample counts them.
    pub closed spec fn peer_names(&self) -> Seq<Seq<char>> {
        names(self.all_nodes@)
    }

    /// The cursor of each peer.
    pub closed spec fn cursors(&self) -> Map<Seq<char>, u64> {
        self.peer_versions@
    }

    /// The log of values: the place of a value is its version.
    pub closed spec fn log(&self) -> Seq<u64> {
        self.values@
    }

    /// The id that the last reply was given.
    pub closed spec fn last_id(&self) -> u64 {
        self.last_msg_id
    }

    /// The ticks since the tick count last began anew.
    pub closed spec fn ticks(&self) -> nat {
        self.notify_ticks as nat
    }

    /// No value is logged twice; the peers are those that the topology
    /// gives this node, each listed once and the node itself not among
    /// them; and the cursor table has an entry for each peer and for no one
    /// else.
    pub closed spec fn wf(&self) -> bool {
        &&& self.peer_versions.wf()
        &&& names(self.all_nodes@).no_duplicates()
        &&& names(self.all_nodes@).to_set() == topology_peers(
            topology_view(self.topology@),
            self.node_id@,
        )
        &&& !names(self.all_nodes@).contains(self.node_id@)
        &&& self.peer_versions@.dom() == names(self.all_nodes@).to_set()
        &&& self.values@.no_duplicates()
        &&& self.notify_ticks <= 30
    }

    /// Name, topology, peers and cursors are those of `before`.
    pub open spec fn same_cluster(&self, before: &Self) -> bool {
        &&& self.identity() == before.identity()
        &&& self.members() == before.members()
        &&& self.adjacency() == before.adjacency()
        &&& self.peer_names() == before.peer_names()
        &&& self.cursors() == before.cursors()
    }

    /// What the well-formedness says of the state in public terms.
    pub proof fn lemma_wf(&self)
        requires
            self.wf(),
        ensures
            self.log().no_duplicates(),
            self.peer_names().no_duplicates(),
            self.peer_names().to_set() == topology_peers(self.adjacency(), self.identity()),
            !self.peer_names().contains(self.identity()),
            self.cursors().dom() == self.peer_names().to_set(),
            self.ticks() <= 30,
    {
    }

    /// A node that has not been initialised: it is called `n0`, knows no
    /// peer and no value, and counts its replies from `starting_msg_id`.
    pub fn new(starting_msg_id: u64) -> (result: Self)
        ensures
            result.wf(),
            result.identity() == "n0"@,
            result.members().len() == 0,
            result.adjacency().len() == 0,
            result.peer_names().len() == 0,
            result.cursors() == Map::<Seq<char>, u64>::empty(),
            result.log().len() == 0,
            result.last_id() == starting_msg_id,
            result.ticks() == 0,
    {
        let result = Self {
            notify_ticks: 0,
            last_msg_id: starting_msg_id,
            peer_versions: CursorTable::new(),
            node_id: "n0".to_string(),
            node_ids: Vec::new(),
            topology: Vec::new(),
            all_nodes: Vec::new(),
            values: Vec::new(),
        };
        proof {
            lemma_peers_exclude_self(topology_view(result.topology@), result.node_id@);
            assert(names(result.all_nodes@).to_set() =~= Set::<Seq<char>>::empty());
            assert(result.peer_versions@.dom() =~= Set::<Seq<char>>::empty());
        }
        result
    }

    /// The name of this node.
    pub fn node_id(&self) -> (result: &String)
        ensures
            result@ == self.identity(),
    {
        &self.node_id
    }

    /// The names of all nodes of the cluster.
    pub fn node_ids(&self) -> (result: &Vec<String>)
        ensures
            names(result@) == self.members(),
    {
        &self.node_ids
    }

    /// The values seen so far, in the order of their versions.
    pub fn values(&self) -> (result: &Vec<u64>)
        ensures
            result@ == self.log(),
    {
        &self.values
    }

    /// The peers of this node.
    pub fn peers(&self) -> (result: &Vec<String>)
        ensures
            names(result@) == self.peer_names(),
    {
        &self.all_nodes
    }

    /// The topology as it was last given.
    pub fn topology(&self) -> (result: &Vec<(String, Vec<String>)>)
        ensures
            topology_view(result@) == self.adjacency(),
    {
        &self.topology
    }

    /// The cursor of `peer`, if it is a peer.
    pub fn cursor(&self, peer: &String) -> (result: Option<u64>)
        requires
            self.wf(),
        ensures
            result == if self.cursors().dom().contains(peer@) {
                Some(self.cursors()[peer@])
            } else {
                None
            },
    {
        self.peer_versions.get(peer)
    }

    /// The number of entries of the cursor table.
    pub fn cursor_count(&self) -> (result: usize)
        requires
            self.wf(),
        ensures
            result == self.peer_names().len(),
            result == self.cursors().dom().len(),
    {
        proof {
            names(self.all_nodes@).unique_seq_to_set();
        }
        self.all_nodes.len()
    }

    /// The id that the last reply was given.
    pub fn last_msg_id(&self) -> (result: u64)
        ensures
            result == self.last_id(),
    {
        self.last_msg_id
    }

    /// Takes the node's name and the cluster's members from the `init`
    /// message and answers it. Peers and cursors are derived anew from the
    /// topology, so that the node is never its own peer: a peer that stays
    /// keeps its cursor.
    pub fn on_init(&mut self, msg: InitMsgIn) -> (result: InitMsgOut)
        requires
            old(self).wf(),
        ensures
            final(self).wf(),
            final(self).identity() == msg.body.node_id@,
            final(self).members() == names(msg.body.node_ids@),
            final(self).adjacency() == old(self).adjacency(),
            final(self).peer_names().to_set() == topology_peers(
                old(self).adjacency(),
                msg.body.node_id@,
            ),
            final(self).cursors() == cursors_after_topology(
                old(self).cursors(),
                topology_peers(old(self).adjacency(), msg.body.node_id@),
            ),
            final(self).log() == old(self).log(),
            final(self).last_id() == old(self).last_id(),
            final(self).ticks() == old(self).ticks(),
            result.src == msg.dest,
            result.dest == msg.src,
            result.body.in_reply_to == Some(msg.body.msg_id),
    {
        self.node_id = msg.body.node_id.clone();
        self.node_ids = copy_names(&msg.body.node_ids);
        self.all_nodes = collect_peers(&self.topology, &self.node_id);
        self.peer_versions.reconcile(&self.all_nodes);
        assert(self.peer_versions@.dom() =~= names(self.all_nodes@).to_set());
        msg.into_response(self.last_msg_id)
    }

    /// Makes `adjacency` the topology, derives the peers from it and brings
    /// the cursor table in line: a cursor at 0 for each new peer, none for a
    /// node that is a peer no longer.
    pub fn apply_topology(&mut self, adjacency: Vec<(String, Vec<String>)>)
        requires
            old(self).wf(),
        ensures
            final(self).wf(),
            final(self).adjacency() == topology_view(adjacency@),
            final(self).peer_names().to_set() == topology_peers(topology_view(adjacency@), old(self).identity()),
            final(self).cursors().dom() == topology_peers(topology_view(adjacency@), old(self).identity()),
            final(self).cursors() == cursors_after_topology(
                old(self).cursors(),
                topology_peers(topology_view(adjacency@), old(self).identity()),
            ),
            final(self).identity() == old(self).identity(),
            final(self).members() == old(self).members(),
            final(self).log() == old(self).log(),
            final(self).last_id() == old(self).last_id(),
            final(self).ticks() == old(self).ticks(),
    {
        self.all_nodes = collect_peers(&adjacency, &self.node_id);
        self.topology = adjacency;
        self.peer_versions.reconcile(&self.all_nodes);
        assert(self.peer_versions@.dom() =~= names(self.all_nodes@).to_set());
    }

    /// Applies the topology that the controller has sent.
    pub fn handle_topology(&mut self, msg: &TopologyRequestMsg) -> (result: Option<Vec<u64>>)
        requires
            old(self).wf(),
        ensures
            result is None,
            final(self).wf(),
            final(self).adjacency() == topology_view(msg.topology@),
            final(self).peer_names().to_set() == topology_peers(
                topology_view(msg.topology@),
                old(self).identity(),
            ),
            final(self).cursors().dom() == topology_peers(topology_view(msg.topology@), old(self).identity()),
            final(self).cursors() == cursors_after_topology(
                old(self).cursors(),
                topology_peers(topology_view(msg.topology@), old(self).identity()),
            ),
            final(self).identity() == old(self).identity(),
            final(self).members() == old(self).members(),
            final(self).log() == old(self).log(),
            final(self).last_id() == old(self).last_id(),
            final(self).ticks() == old(self).ticks(),
    {
        let adjacency = copy_topology(&msg.topology);
        self.apply_topology(adjacency);
        None
    }

    /// Logs the value of a `broadcast`, unless the log holds it already.
    pub fn handle_broadcast(&mut self, _source: &str, msg: &BroadcastRequestMsg) -> (result: Option<
        Vec<u64>,
    >)
        requires
            old(self).wf(),
        ensures
            result is None,
            final(self).wf(),
            final(self).log() == log_after_broadcast(old(self).log(), msg.message),
            final(self).log().no_duplicates(),
            final(self).log().contains(msg.message),
            final(self).log().to_set() == old(self).log().to_set().insert(msg.message),
            old(self).log().contains(msg.message) ==> final(self).log() == old(self).log(),
            final(self).same_cluster(old(self)),
            final(self).last_id() == old(self).last_id(),
            final(self).ticks() == old(self).ticks(),
    {
        if !holds_value(&self.values, msg.message) {
            self.values.push(msg.message);
        }
        proof {
            lemma_broadcast_keeps_distinct(old(self).values@, msg.message);
        }
        None
    }

    /// Moves the cursor of the peer `source` forward to the version that it
    /// has acknowledged. A cursor never moves back, and a sender that is no
    /// peer gets no cursor.
    pub fn handle_broadcast_ok(&mut self, source: &str, msg: &BroadcastReceivedOkMsg) -> (result:
        Option<Vec<u64>>)
        requires
            old(self).wf(),
        ensures
            result is None,
            final(self).wf(),
            final(self).cursors() == cursors_after_ack(
                old(self).cursors(),
                source@,
                msg.in_reply_to,
            ),
            forall|peer: Seq<char>| #[trigger]
                old(self).cursors().dom().contains(peer) ==> final(self).cursors().dom().contains(
                    peer,
                ) && final(self).cursors()[peer] >= old(self).cursors()[peer],
            final(self).identity() == old(self).identity(),
            final(self).members() == old(self).members(),
            final(self).adjacency() == old(self).adjacency(),
            final(self).peer_names() == old(self).peer_names(),
            final(self).log() == old(self).log(),
            final(self).last_id() == old(self).last_id(),
            final(self).ticks() == old(self).ticks(),
    {
        let ghost before = self.peer_versions@;
        if let Some(version) = msg.in_reply_to {
            let peer = source.to_owned();
            if let Some(latest) = self.peer_versions.get(&peer) {
                if version > latest {
                    self.peer_versions.insert(peer, version);
                }
            }
        }
        proof {
            assert(self.peer_versions@ =~= cursors_after_ack(before, source@, msg.in_reply_to));
            assert(self.peer_versions@.dom() =~= before.dom());
        }
        None
    }

    /// A snapshot of the log.
    pub fn handle_read(&mut self, _msg: &ReadRequestMsg) -> (result: Option<Vec<u64>>)
        requires
            old(self).wf(),
        ensures
            result matches Some(snapshot) && snapshot@ == old(self).log(),
            *final(self) == *old(self),
    {
        Some(copy_values(&self.values))
    }

    /// Whether the peer `peer` is behind: a tick sends a value to a peer
    /// whose cursor stands before the last version of the log.
    pub open spec fn is_behind(&self, peer: Seq<char>) -> bool {
        self.cursors().dom().contains(peer) && self.cursors()[peer] + 1 < self.log().len()
    }

    /// What a tick sends when it has sampled the peers at the places
    /// `sample`: for each sampled peer that is behind, in the order of the
    /// sample, the value at its cursor.
    pub open spec fn catchups(&self, sample: Seq<usize>) -> Seq<Catchup>
        decreases sample.len(),
    {
        if sample.len() == 0 {
            Seq::empty()
        } else {
            let rest = self.catchups(sample.drop_last());
            let peer = self.peer_names()[sample.last() as int];
            if self.is_behind(peer) {
                rest.push(
                    Catchup {
                        dest: peer,
                        version: self.cursors()[peer],
                        value: self.log()[self.cursors()[peer] as int],
                    },
                )
            } else {
                rest
            }
        }
    }

    /// `msgs` are the messages of one tick of this node: no more than the
    /// tick samples peers, each from this node to one of its peers, never to
    /// the node itself, and no two to the same peer.
    pub open spec fn one_each_to_peers(&self, msgs: Seq<BroadcastMsgIn>) -> bool {
        &&& msgs.len() <= self.peer_names().len()
        &&& msgs.len() <= sample_size(self.peer_names().len())
        &&& forall|k: int|
            0 <= k < msgs.len() ==> {
                &&& (#[trigger] msgs[k]).src@ == self.identity()
                &&& self.peer_names().contains(msgs[k].dest@)
                &&& msgs[k].dest@ != self.identity()
            }
        &&& forall|i: int, j: int|
            0 <= i < j < msgs.len() ==> (#[trigger] msgs[i]).dest@ != (#[trigger] msgs[j]).dest@
    }

    /// A tick sends at most one value to each peer that it has sampled, and
    /// each value that it sends is the one at the cursor of a peer that is
    /// behind. No value goes to the node itself, and none to a peer twice.
    pub proof fn lemma_one_value_per_peer(&self, sample: Seq<usize>)
        requires
            self.wf(),
            forall|k: int| 0 <= k < sample.len() ==> (#[trigger] sample[k]) < self.peer_names().len(),
            sample.no_duplicates(),
        ensures
            self.catchups(sample).len() <= sample.len(),
            forall|m: int|
                0 <= m < self.catchups(sample).len() ==> {
                    let c = #[trigger] self.catchups(sample)[m];
                    &&& self.is_behind(c.dest)
                    &&& self.peer_names().contains(c.dest)
                    &&& c.dest != self.identity()
                    &&& c.version == self.cursors()[c.dest]
                    &&& c.value == self.log()[c.version as int]
                    &&& exists|k: int|
                        0 <= k < sample.len() && self.peer_names()[(#[trigger] sample[k]) as int]
                            == c.dest
                },
            forall|m: int, n: int|
                0 <= m < n < self.catchups(sample).len() ==> (#[trigger] self.catchups(
                    sample,
                )[m]).dest != (#[trigger] self.catchups(sample)[n]).dest,
        decreases sample.len(),
    {
        if sample.len() > 0 {
            let front = sample.drop_last();
            let rest = self.catchups(front);
            let all = self.catchups(sample);
            let peers = self.peer_names();
            self.lemma_one_value_per_peer(front);
            let peer = peers[sample.last() as int];
            assert(peers.contains(peer));
            assert(sample[sample.len() - 1] == sample.last());
            assert forall|m: int| 0 <= m < all.len() implies exists|k: int|
                0 <= k < sample.len() && peers[(#[trigger] sample[k]) as int] == (
                #[trigger] all[m]).dest by {
                if m < rest.len() {
                    let k = choose|k: int|
                        0 <= k < front.len() && peers[(#[trigger] front[k]) as int] == rest[m].dest;
                    assert(sample[k] == front[k]);
                } else {
                    assert(peers[sample[sample.len() - 1] as int] == all[m].dest);
                }
            }
            assert forall|m: int, n: int| 0 <= m < n < all.len() implies (#[trigger] all[m]).dest != (
            #[trigger] all[n]).dest by {
                if n == rest.len() {
                    let k = choose|k: int|
                        0 <= k < front.len() && peers[(#[trigger] front[k]) as int] == rest[m].dest;
                    assert(sample[k] == front[k]);
                    assert(sample[k] != sample[sample.len() - 1]);
                } else {
                    assert(rest[m].dest != rest[n].dest);
                }
            }
        }
    }

    /// The messages that carry what a tick sends for a sample go one each
    /// to peers of the node.
    pub proof fn lemma_tick_messages(&self, msgs: Seq<BroadcastMsgIn>, sample: Seq<usize>)
        requires
            self.wf(),
            is_sample(sample, self.peer_names().len()),
            carry_all(msgs, self.identity(), self.catchups(sample)),
        ensures
            self.one_each_to_peers(msgs),
    {
        self.lemma_one_value_per_peer(sample);
        let sent = self.catchups(sample);
        assert forall|k: int| 0 <= k < msgs.len() implies {
            &&& (#[trigger] msgs[k]).src@ == self.identity()
            &&& self.peer_names().contains(msgs[k].dest@)
            &&& msgs[k].dest@ != self.identity()
        } by {
            assert(carries(msgs[k], self.identity(), sent[k]));
        }
        assert forall|i: int, j: int| 0 <= i < j < msgs.len() implies (#[trigger] msgs[i]).dest@ != (
        #[trigger] msgs[j]).dest@ by {
            assert(carries(msgs[i], self.identity(), sent[i]));
            assert(carries(msgs[j], self.identity(), sent[j]));
        }
    }

    /// Draws the places of the peers that this tick contacts: as many as
    /// `sample_size` says, or all of them if they are fewer, none twice.
    pub fn sample_peers(&self, rng: &mut StdRng) -> (result: Vec<usize>)
        ensures
            is_sample(result@, self.peer_names().len()),
    {
        let amount = sample_count(self.all_nodes.len());
        choose_indices(rng, &self.all_nodes, amount)
    }

    /// The messages of one tick for the sampled peers at the places `sample`:
    /// one `broadcast` to each that is behind, with the value at its cursor
    /// and the cursor as the message's id.
    pub fn messages_for_sample(&self, sample: &Vec<usize>) -> (result: Vec<BroadcastMsgIn>)
        requires
            self.wf(),
            forall|k: int| 0 <= k < sample@.len() ==> (#[trigger] sample@[k]) < self.peer_names().len(),
        ensures
            carry_all(result@, self.identity(), self.catchups(sample@)),
    {
        let mut msgs: Vec<BroadcastMsgIn> = Vec::new();
        let mut k: usize = 0;
        while k < sample.len()
            invariant
                k <= sample@.len(),
                self.wf(),
                forall|k: int|
                    0 <= k < sample@.len() ==> (#[trigger] sample@[k]) < self.all_nodes@.len(),
                carry_all(msgs@, self.identity(), self.catchups(sample@.take(k as int))),
            decreases sample@.len() - k,
        {
            let dest = &self.all_nodes[sample[k]];
            proof {
                assert(sample@.take(k + 1).drop_last() =~= sample@.take(k as int));
                assert(sample@.take(k + 1).last() == sample@[k as int]);
                assert(names(self.all_nodes@)[sample@[k as int] as int] == dest@);
            }
            if let Some(version) = self.peer_versions.get(dest) {
                if self.values.len() > 0 && version < (self.values.len() - 1) as u64 {
                    let notify_val = self.values[version as usize];
                    let msg = BroadcastMsgIn::new_broadcast(
                        self.node_id.clone(),
                        dest.clone(),
                        notify_val,
                        Some(version),
                    );
                    msgs.push(msg);
                }
            }
            k += 1;
        }
        proof {
            assert(sample@.take(sample@.len() as int) =~= sample@);
        }
        msgs
    }

    /// The messages of one tick: a random sample of the peers is drawn, and
    /// each sampled peer that is behind is sent the value at its cursor.
    pub fn build_broadcast_messages(&self, rng: &mut StdRng) -> (result: Vec<BroadcastMsgIn>)
        requires
            self.wf(),
        ensures
            exists|sample: Seq<usize>|
                is_sample(sample, self.peer_names().len()) && carry_all(
                    result@,
                    self.identity(),
                    #[trigger] self.catchups(sample),
                ),
            self.one_each_to_peers(result@),
    {
        let sample = self.sample_peers(rng);
        let msgs = self.messages_for_sample(&sample);
        proof {
            assert(carry_all(msgs@, self.identity(), self.catchups(sample@)));
            self.lemma_tick_messages(msgs@, sample@);
        }
        msgs
    }

    /// One tick of the clock: counts it and gives the messages to send.
    pub fn handle_tick(&mut self, rng: &mut StdRng) -> (result: Vec<BroadcastMsgIn>)
        requires
            old(self).wf(),
        ensures
            final(self).wf(),
            final(self).ticked(old(self), result@),
    {
        let msgs = self.build_broadcast_messages(rng);
        if self.notify_ticks < 30 {
            self.notify_ticks += 1;
        } else {
            self.notify_ticks = 0;
        }
        msgs
    }

    /// `self` and `result` are what handling `msg` makes of the node
    /// `before`: the message is counted and its body acts on the state. A
    /// `broadcast` is logged and acknowledged, a `read` is answered with the
    /// log, a topology is applied and an acknowledgment moves a cursor; the
    /// last two get no reply.
    pub open spec fn handled(&self, before: &Self, msg: BroadcastMsgIn, result: Option<BroadcastMsgOut>) -> bool {
        &&& self.last_id() == before.last_id() + 1
        &&& self.identity() == before.identity()
        &&& self.members() == before.members()
        &&& self.ticks() == before.ticks()
        &&& match msg.body {
            BroadcastMsgRequestBody::Topology(m) => {
                &&& result is None
                &&& self.adjacency() == topology_view(m.topology@)
                &&& self.peer_names().to_set() == topology_peers(topology_view(m.topology@), before.identity())
                &&& self.cursors() == cursors_after_topology(
                    before.cursors(),
                    topology_peers(topology_view(m.topology@), before.identity()),
                )
                &&& self.log() == before.log()
            },
            BroadcastMsgRequestBody::Broadcast(m) => {
                &&& self.log() == log_after_broadcast(before.log(), m.message)
                &&& self.same_cluster(before)
                &&& result matches Some(out)
                &&& out.src == msg.dest
                &&& out.dest == msg.src
                &&& out.body == BroadcastMsgResponseBody::Broadcast(
                    BroadcastResponseMsg { in_reply_to: m.msg_id, msg_id: self.last_id() },
                )
            },
            BroadcastMsgRequestBody::Read(m) => {
                &&& self.log() == before.log()
                &&& self.same_cluster(before)
                &&& result matches Some(out)
                &&& out.src == msg.dest
                &&& out.dest == msg.src
                &&& out.body matches BroadcastMsgResponseBody::Read(r)
                &&& r.in_reply_to == m.msg_id
                &&& r.msg_id == self.last_id()
                &&& r.messages@ == before.log()
            },
            BroadcastMsgRequestBody::BroadcastOk(m) => {
                &&& result is None
                &&& self.cursors() == cursors_after_ack(before.cursors(), msg.src@, m.in_reply_to)
                &&& self.adjacency() == before.adjacency()
                &&& self.peer_names() == before.peer_names()
                &&& self.log() == before.log()
            },
        }
    }

    /// `self` and `msgs` are what a tick makes of the node `before`: some
    /// sample of the peers was drawn, each sampled peer that is behind is
    /// sent the value at its cursor, and the tick is counted. The count
    /// begins anew after 30 ticks; nothing else of the state changes.
    pub open spec fn ticked(&self, before: &Self, msgs: Seq<BroadcastMsgIn>) -> bool {
        &&& exists|sample: Seq<usize>|
            is_sample(sample, before.peer_names().len()) && carry_all(
                msgs,
                before.identity(),
                #[trigger] before.catchups(sample),
            )
        &&& before.one_each_to_peers(msgs)
        &&& self.same_cluster(before)
        &&& self.log() == before.log()
        &&& self.last_id() == before.last_id()
        &&& self.ticks() == if before.ticks() < 30 {
            before.ticks() + 1
        } else {
            0
        }
    }

    /// Handles one message: counts it, lets its body act on the state, and
    /// gives the reply. A `broadcast` is acknowledged, a `read` is answered
    /// with the log; a topology and an acknowledgment get no reply.
    pub fn handle(&mut self, msg: BroadcastMsgIn) -> (result: Option<BroadcastMsgOut>)
        requires
            old(self).wf(),
            old(self).last_id() < u64::MAX,
        ensures
            final(self).wf(),
            final(self).handled(old(self), msg, result),
    {
        self.last_msg_id += 1;
        let values = match &msg.body {
            BroadcastMsgRequestBody::Topology(m) => self.handle_topology(m),
            BroadcastMsgRequestBody::Broadcast(m) => self.handle_broadcast(msg.src.as_str(), m),
            BroadcastMsgRequestBody::Read(m) => self.handle_read(m),
            BroadcastMsgRequestBody::BroadcastOk(m) => self.handle_broadcast_ok(
                msg.src.as_str(),
                m,
            ),
        };
        msg.into_response(values, self.last_msg_id)
    }

    /// What holds of the node `self` at any time after it was `before`: the
    /// log has only grown at its end, so every value has kept its version,
    /// and no peer that is still a peer has a cursor further back.
    pub open spec fn grown_from(&self, before: &Self) -> bool {
        &&& before.log().is_prefix_of(self.log())
        &&& forall|peer: Seq<char>| #[trigger]
            self.cursors().dom().contains(peer) && before.cursors().dom().contains(peer)
                ==> self.cursors()[peer] >= before.cursors()[peer]
    }

    /// Acts on one command. An `init` is answered with `init_ok`; a message
    /// gets at most one reply; a tick gives the messages for the peers; a
    /// topology given directly is applied and answered by nothing; and a
    /// shutdown stops the node as it is.
    pub fn step(&mut self, event: Event<BroadcastMsgIn>, rng: &mut StdRng) -> (result: Outcome<
        BroadcastMsgOut,
        BroadcastMsgIn,
    >)
        requires
            old(self).wf(),
            event is Message ==> old(self).last_id() < u64::MAX,
        ensures
            final(self).wf(),
            result.stop == (event is Shutdown),
            final(self).grown_from(old(self)),
            match event {
                Event::Init(msg) => {
                    &&& result.init_ok matches Some(out)
                    &&& out.src == msg.dest
                    &&& out.dest == msg.src
                    &&& out.body.in_reply_to == Some(msg.body.msg_id)
                    &&& result.reply is None
                    &&& result.outbound@.len() == 0
                    &&& final(self).identity() == msg.body.node_id@
                    &&& final(self).members() == names(msg.body.node_ids@)
                    &&& final(self).adjacency() == old(self).adjacency()
                    &&& final(self).peer_names().to_set() == topology_peers(
                        old(self).adjacency(),
                        msg.body.node_id@,
                    )
                    &&& final(self).cursors() == cursors_after_topology(
                        old(self).cursors(),
                        topology_peers(old(self).adjacency(), msg.body.node_id@),
                    )
                    &&& final(self).log() == old(self).log()
                    &&& final(self).last_id() == old(self).last_id()
                    &&& final(self).ticks() == old(self).ticks()
                },
                Event::Message(msg) => {
                    &&& result.init_ok is None
                    &&& result.outbound@.len() == 0
                    &&& final(self).handled(old(self), msg, result.reply)
                },
                Event::Tick => {
                    &&& result.init_ok is None
                    &&& result.reply is None
                    &&& final(self).ticked(old(self), result.outbound@)
                },
                Event::TopologyOverride(adjacency) => {
                    &&& result.is_silent()
                    &&& final(self).adjacency() == topology_view(adjacency@)
                    &&& final(self).peer_names().to_set() == topology_peers(
                        topology_view(adjacency@),
                        old(self).identity(),
                    )
                    &&& final(self).cursors() == cursors_after_topology(
                        old(self).cursors(),
                        topology_peers(topology_view(adjacency@), old(self).identity()),
                    )
                    &&& final(self).identity() == old(self).identity()
                    &&& final(self).members() == old(self).members()
                    &&& final(self).log() == old(self).log()
                    &&& final(self).last_id() == old(self).last_id()
                    &&& final(self).ticks() == old(self).ticks()
                },
                Event::Shutdown => result.is_silent() && *final(self) == *old(self),
            },
    {
        let mut outcome = Outcome { init_ok: None, reply: None, outbound: Vec::new(), stop: false };
        match event {
            Event::Init(msg) => {
                outcome.init_ok = Some(self.on_init(msg));
            },
            Event::Message(msg) => {
                outcome.reply = self.handle(msg);
                proof {
                    let before = old(self).log();
                    if self.log().len() >= before.len() {
                        assert(before =~= self.log().subrange(0, before.len() as int));
                    }
                }
            },
            Event::Tick => {
                outcome.outbound = self.handle_tick(rng);
            },
            Event::TopologyOverride(adjacency) => {
                self.apply_topology(adjacency);
            },
            Event::Shutdown => {
                outcome.stop = true;
            },
        }
        outcome
    }
}

/// A node only grows over its lifetime: what has grown out of a state that
/// has itself grown out of an earlier one has grown out of the earlier one,
/// as far as the peers stayed.
pub proof fn lemma_growth_is_transitive(first: &Broadcast, second: &Broadcast, third: &Broadcast)
    requires
        second.grown_from(first),
        third.grown_from(second),
        forall|peer: Seq<char>| #[trigger]
            first.cursors().dom().contains(peer) && third.cursors().dom().contains(peer)
                ==> second.cursors().dom().contains(peer),
    ensures
        third.grown_from(first),
{
    assert(first.log() =~= third.log().subrange(0, first.log().len() as int)) by {
        assert(first.log() =~= second.log().subrange(0, first.log().len() as int));
        assert(second.log() =~= third.log().subrange(0, second.log().len() as int));
    }
}

/// The number of peers that a tick samples out of `n`.
pub fn sample_count(n: usize) -> (result: usize)
    ensures
        result == sample_size(n as nat),
        result <= n + 1,
{
    n / 2 + n % 2 + 1
}

/// Draws `amount` places of `peers` at random, none twice, with
/// `IteratorRandom::choose_multiple` of the crate rand on the places
/// `0..peers.len()`. The contract is taken from that function's
/// documentation and source: the result has `amount` items, or as many as
/// there are places if those are fewer; each item is one of the places; and
/// since every place is drawn from the iterator at most once, none occurs
/// twice. Which places are drawn, and in which order, is left open.
#[verifier::external_body]
fn choose_indices(rng: &mut StdRng, peers: &Vec<String>, amount: usize) -> (result: Vec<usize>)
    requires
        amount <= peers@.len() + 1,
    ensures
        result@.len() == if amount <= peers@.len() {
            amount as nat
        } else {
            peers@.len()
        },
        forall|k: int| 0 <= k < result@.len() ==> (#[trigger] result@[k]) < peers@.len(),
        result@.no_duplicates(),
{
    (0..peers.len()).choose_multiple(rng, amount)
}

/// Whether `value` is in `log`.
pub fn holds_value(log: &Vec<u64>, value: u64) -> (result: bool)
    ensures
        result == log@.contains(value),
{
    let mut i: usize = 0;
    while i < log.len()
        invariant
            i <= log@.len(),
            forall|k: int| 0 <= k < i ==> log@[k] != value,
        decreases log@.len() - i,
    {
        if log[i] == value {
            return true;
        }
        i += 1;
    }
    false
}

/// A copy of `log`.
pub fn copy_values(log: &Vec<u64>) -> (result: Vec<u64>)
    ensures
        result@ == log@,
{
    let mut out: Vec<u64> = Vec::new();
    let mut i: usize = 0;
    while i < log.len()
        invariant
            i <= log@.len(),
            out@ == log@.take(i as int),
        decreases log@.len() - i,
    {
        out.push(log[i]);
        assert(out@ =~= log@.take(i + 1));
        i += 1;
    }
    assert(log@.take(log@.len() as int) =~= log@);
    out
}

/// A broadcast keeps a log free of repeats and leaves the value in it:
/// as a set, the log has gained the value and nothing else, and every value
/// that was logged has kept its version. A value that the log held leaves
/// the log as it was.
pub proof fn lemma_broadcast_keeps_distinct(log: Seq<u64>, value: u64)
    requires
        log.no_duplicates(),
    ensures
        log_after_broadcast(log, value).no_duplicates(),
        log_after_broadcast(log, value).contains(value),
        log_after_broadcast(log, value).to_set() == log.to_set().insert(value),
        log.is_prefix_of(log_after_broadcast(log, value)),
        log.contains(value) ==> log_after_broadcast(log, value) == log,
{
    let after = log_after_broadcast(log, value);
    if !log.contains(value) {
        assert(after[log.len() as int] == value);
        lemma_push_contains(log, value);
    }
    assert(after.to_set() =~= log.to_set().insert(value));
    assert(log =~= after.subrange(0, log.len() as int));
}

/// Broadcasting one value any number of times, at least once, leaves the
/// log as a single broadcast leaves it: with exactly one copy of the value,
/// and with every other value where it was.
pub proof fn lemma_dedup_idempotence(log: Seq<u64>, value: u64, n: nat)
    requires
        log.no_duplicates(),
        n >= 1,
    ensures
        log_after_broadcasts(log, value, n) == log_after_broadcast(log, value),
        log_after_broadcasts(log, value, n).no_duplicates(),
        exists|i: int|
            0 <= i < log_after_broadcasts(log, value, n).len() && #[trigger] log_after_broadcasts(
                log,
                value,
                n,
            )[i] == value && forall|j: int|
                0 <= j < log_after_broadcasts(log, value, n).len() && #[trigger] log_after_broadcasts(
                    log,
                    value,
                    n,
                )[j] == value ==> j == i,
    decreases n,
{
    lemma_broadcast_keeps_distinct(log, value);
    let once = log_after_broadcast(log, value);
    if n == 1 {
        assert(log_after_broadcasts(log, value, 0) == log);
    } else {
        lemma_dedup_idempotence(log, value, (n - 1) as nat);
        assert(log_after_broadcast(once, value) == once);
    }
    let i = choose|i: int| 0 <= i < once.len() && once[i] == value;
    assert(once[i] == value);
}

/// Whatever a peer acknowledges, in whatever order, its cursor does not
/// move back: after an acknowledgment it is at least what it was, and at
/// least the version acknowledged.
pub proof fn lemma_cursor_monotone(cursor: u64, acked: Option<u64>)
    ensures
        cursor_after_ack(cursor, acked) >= cursor,
        acked matches Some(version) ==> cursor_after_ack(cursor, acked) >= version,
        cursor_after_ack(cursor_after_ack(cursor, acked), acked) == cursor_after_ack(cursor, acked),
{
}

/// An acknowledgment moves no cursor of the table back, and adds and
/// removes no peer.
pub proof fn lemma_ack_keeps_peers(cursors: Map<Seq<char>, u64>, peer: Seq<char>, acked: Option<u64>)
    ensures
        cursors_after_ack(cursors, peer, acked).dom() == cursors.dom(),
        forall|p: Seq<char>| #[trigger]
            cursors.dom().contains(p) ==> cursors_after_ack(cursors, peer, acked)[p] >= cursors[p],
{
    assert(cursors_after_ack(cursors, peer, acked).dom() =~= cursors.dom());
}

} // verus!
