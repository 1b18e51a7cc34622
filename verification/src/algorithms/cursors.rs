//! The table of anti-entropy cursors: for each peer, the first version of the
//! value log that the peer is not known to hold.

use vstd::prelude::*;
use crate::algorithms::node_ids::{contains_name, lemma_names_push, lemma_push_contains, names};

verus! {

/// One peer and its cursor.
#[derive(Debug)]
pub struct PeerCursor {
    pub peer: String,
    pub version: u64,
}

/// Some entry of `entries` is for the peer `name`.
pub open spec fn has_entry(entries: Seq<PeerCursor>, name: Seq<char>) -> bool {
    exists|i: int| 0 <= i < entries.len() && (#[trigger] entries[i]).peer@ == name
}

/// The place of an entry for the peer `name`.
pub open spec fn entry_of(entries: Seq<PeerCursor>, name: Seq<char>) -> int {
    choose|i: int| 0 <= i < entries.len() && (#[trigger] entries[i]).peer@ == name
}

/// No two entries are for the same peer.
pub open spec fn one_entry_each(entries: Seq<PeerCursor>) -> bool {
    forall|i: int, j: int|
        0 <= i < j < entries.len() ==> (#[trigger] entries[i]).peer@ != (#[trigger] entries[j]).peer@
}

/// The cursors as a map from a peer's name to its cursor.
pub open spec fn cursor_map(entries: Seq<PeerCursor>) -> Map<Seq<char>, u64> {
    Map::new(
        |name: Seq<char>| has_entry(entries, name),
        |name: Seq<char>| entries[entry_of(entries, name)].version,
    )
}

/// The cursor table after the peers have become `peers`: a peer that was
/// known keeps its cursor, a new one starts at 0, and no other is left.
pub open spec fn cursors_after_topology(cursors: Map<Seq<char>, u64>, peers: Set<Seq<char>>) -> Map<
    Seq<char>,
    u64,
> {
    Map::new(
        |name: Seq<char>| peers.contains(name),
        |name: Seq<char>|
            if cursors.dom().contains(name) {
                cursors[name]
            } else {
                0u64
            },
    )
}

/// After a change of topology the table has a cursor for each of the new
/// peers and for no one else: a node that is a peer no longer has lost its
/// cursor, a peer that was known has kept its cursor, and a new peer
/// starts at 0.
pub proof fn lemma_reconciliation(cursors: Map<Seq<char>, u64>, peers: Set<Seq<char>>)
    ensures
        cursors_after_topology(cursors, peers).dom() == peers,
        forall|name: Seq<char>|
            !peers.contains(name) ==> !(#[trigger] cursors_after_topology(
                cursors,
                peers,
            ).dom().contains(name)),
        forall|name: Seq<char>|
            peers.contains(name) && cursors.dom().contains(name) ==> (#[trigger] cursors_after_topology(
                cursors,
                peers,
            )[name]) == cursors[name],
        forall|name: Seq<char>|
            peers.contains(name) && !cursors.dom().contains(name) ==> (#[trigger] cursors_after_topology(
                cursors,
                peers,
            )[name]) == 0,
        cursors == Map::<Seq<char>, u64>::empty() ==> forall|name: Seq<char>|
            peers.contains(name) ==> (#[trigger] cursors_after_topology(cursors, peers)[name]) == 0,
{
    assert(cursors_after_topology(cursors, peers).dom() =~= peers);
}

/// In a table with one entry for each peer, the entry at a place is the one
/// that is found under its peer's name.
pub proof fn lemma_entry_found(entries: Seq<PeerCursor>, i: int)
    requires
        one_entry_each(entries),
        0 <= i < entries.len(),
    ensures
        has_entry(entries, entries[i].peer@),
        entry_of(entries, entries[i].peer@) == i,
        cursor_map(entries)[entries[i].peer@] == entries[i].version,
{
    let j = entry_of(entries, entries[i].peer@);
    assert(0 <= j < entries.len() && entries[j].peer@ == entries[i].peer@);
    if j < i {
        assert(entries[j].peer@ != entries[i].peer@);
    } else if i < j {
        assert(entries[i].peer@ != entries[j].peer@);
    }
}

/// The cursor table of a node.
#[derive(Debug)]
pub struct CursorTable {
    entries: Vec<PeerCursor>,
}

impl View for CursorTable {
    type V = Map<Seq<char>, u64>;

    closed spec fn view(&self) -> Map<Seq<char>, u64> {
        cursor_map(self.entries@)
    }
}

impl CursorTable {
    /// Each peer has at most one entry.
    pub closed spec fn wf(&self) -> bool {
        one_entry_each(self.entries@)
    }

    /// A table without entries.
    pub fn new() -> (result: Self)
        ensures
            result.wf(),
            result@ == Map::<Seq<char>, u64>::empty(),
    {
        let result = CursorTable { entries: Vec::new() };
        assert(result@ =~= Map::<Seq<char>, u64>::empty());
        result
    }

    fn find(&self, peer: &String) -> (result: Option<usize>)
        ensures
            match result {
                Some(i) => i < self.entries@.len() && self.entries@[i as int].peer@ == peer@,
                None => !has_entry(self.entries@, peer@),
            },
    {
        let mut i: usize = 0;
        while i < self.entries.len()
            invariant
                i <= self.entries@.len(),
                forall|k: int| 0 <= k < i ==> (#[trigger] self.entries@[k]).peer@ != peer@,
            decreases self.entries@.len() - i,
        {
            if self.entries[i].peer == *peer {
                return Some(i);
            }
            i += 1;
        }
        None
    }

    /// The cursor of `peer`, if the table knows the peer.
    pub fn get(&self, peer: &String) -> (result: Option<u64>)
        requires
            self.wf(),
        ensures
            result == if self@.dom().contains(peer@) {
                Some(self@[peer@])
            } else {
                None
            },
    {
        match self.find(peer) {
            Some(i) => {
                proof {
                    lemma_entry_found(self.entries@, i as int);
                }
                Some(self.entries[i].version)
            },
            None => None,
        }
    }

    /// Sets the cursor of `peer` to `version`, with a new entry if the peer
    /// had none.
    pub fn insert(&mut self, peer: String, version: u64)
        requires
            old(self).wf(),
        ensures
            final(self).wf(),
            final(self)@ == old(self)@.insert(peer@, version),
    {
        let ghost before = self.entries@;
        let ghost name = peer@;
        match self.find(&peer) {
            Some(i) => {
                self.entries.set(i, PeerCursor { peer, version });
                proof {
                    let after = self.entries@;
                    assert(forall|k: int|
                        0 <= k < after.len() ==> (#[trigger] after[k]).peer@ == before[k].peer@);
                    assert(one_entry_each(after));
                    assert forall|n: Seq<char>| has_entry(after, n) <==> (has_entry(before, n) || n
                        == name) by {
                        if has_entry(before, n) {
                            let k = entry_of(before, n);
                            assert(after[k].peer@ == n);
                        }
                        if n == name {
                            assert(after[i as int].peer@ == n);
                        }
                        if has_entry(after, n) {
                            let k = entry_of(after, n);
                            assert(before[k].peer@ == n);
                        }
                    }
                    assert forall|n: Seq<char>| has_entry(after, n) implies cursor_map(after)[n]
                        == cursor_map(before).insert(name, version)[n] by {
                        let k = entry_of(after, n);
                        lemma_entry_found(after, k);
                        lemma_entry_found(before, k);
                    }
                    assert(cursor_map(after) =~= cursor_map(before).insert(name, version));
                }
            },
            None => {
                self.entries.push(PeerCursor { peer, version });
                proof {
                    let after = self.entries@;
                    let last = before.len() as int;
                    assert(forall|k: int| 0 <= k < last ==> (#[trigger] after[k]) == before[k]);
                    assert forall|a: int, b: int| 0 <= a < b < after.len() implies (
                    #[trigger] after[a]).peer@ != (#[trigger] after[b]).peer@ by {
                        if b == last {
                            assert(before[a].peer@ != name);
                        }
                    }
                    assert forall|n: Seq<char>| has_entry(after, n) <==> (has_entry(before, n) || n
                        == name) by {
                        if has_entry(before, n) {
                            let k = entry_of(before, n);
                            assert(after[k].peer@ == n);
                        }
                        if n == name {
                            assert(after[last].peer@ == n);
                        }
                        if has_entry(after, n) {
                            let k = entry_of(after, n);
                            if k < last {
                                assert(before[k].peer@ == n);
                            }
                        }
                    }
                    assert forall|n: Seq<char>| has_entry(after, n) implies cursor_map(after)[n]
                        == cursor_map(before).insert(name, version)[n] by {
                        let k = entry_of(after, n);
                        lemma_entry_found(after, k);
                        if k < last {
                            lemma_entry_found(before, k);
                        }
                    }
                    assert(cursor_map(after) =~= cursor_map(before).insert(name, version));
                }
            },
        }
    }

    /// Takes the entry of `peer` out of the table, if there is one.
    pub fn remove(&mut self, peer: &String)
        requires
            old(self).wf(),
        ensures
            final(self).wf(),
            final(self)@ == old(self)@.remove(peer@),
    {
        let ghost before = self.entries@;
        let ghost name = peer@;
        match self.find(peer) {
            Some(i) => {
                let _gone = self.entries.remove(i);
                proof {
                    let after = self.entries@;
                    let at = i as int;
                    assert(forall|k: int| 0 <= k < at ==> (#[trigger] after[k]) == before[k]);
                    assert(forall|k: int|
                        at <= k < after.len() ==> (#[trigger] after[k]) == before[k + 1]);
                    assert forall|a: int, b: int| 0 <= a < b < after.len() implies (
                    #[trigger] after[a]).peer@ != (#[trigger] after[b]).peer@ by {
                        let a0 = if a < at { a } else { a + 1 };
                        let b0 = if b < at { b } else { b + 1 };
                        assert(before[a0].peer@ != before[b0].peer@);
                    }
                    assert forall|n: Seq<char>| has_entry(after, n) <==> (has_entry(before, n) && n
                        != name) by {
                        if has_entry(before, n) && n != name {
                            let k = entry_of(before, n);
                            if k < at {
                                assert(after[k].peer@ == n);
                            } else {
                                assert(after[k - 1].peer@ == n);
                            }
                        }
                        if has_entry(after, n) {
                            let k = entry_of(after, n);
                            let k0 = if k < at { k } else { k + 1 };
                            assert(before[k0].peer@ == n);
                            if k0 < at {
                                assert(before[k0].peer@ != before[at].peer@);
                            } else {
                                assert(before[at].peer@ != before[k0].peer@);
                            }
                        }
                    }
                    assert forall|n: Seq<char>| has_entry(after, n) implies cursor_map(after)[n]
                        == cursor_map(before)[n] by {
                        let k = entry_of(after, n);
                        let k0 = if k < at { k } else { k + 1 };
                        lemma_entry_found(after, k);
                        lemma_entry_found(before, k0);
                    }
                    assert(cursor_map(after) =~= cursor_map(before).remove(name));
                }
            },
            None => {
                assert(cursor_map(before) =~= cursor_map(before).remove(name));
            },
        }
    }

    /// Brings the table in line with the peers `peers`: a peer without a
    /// cursor gets one at 0, and the cursor of a node that is no peer goes.
    pub fn reconcile(&mut self, peers: &Vec<String>)
        requires
            old(self).wf(),
        ensures
            final(self).wf(),
            final(self)@ == cursors_after_topology(old(self)@, names(peers@).to_set()),
            final(self)@.dom() == names(peers@).to_set(),
    {
        let ghost before = self@;
        let ghost all = names(peers@);
        let ghost alive = all.to_set();
        let mut i: usize = 0;
        while i < peers.len()
            invariant
                i <= peers@.len(),
                self.wf(),
                forall|n: Seq<char>| #[trigger]
                    self@.dom().contains(n) <==> (before.dom().contains(n) || all.take(
                        i as int,
                    ).contains(n)),
                forall|n: Seq<char>| #[trigger]
                    self@.dom().contains(n) ==> self@[n] == if before.dom().contains(n) {
                        before[n]
                    } else {
                        0u64
                    },
                all == names(peers@),
            decreases peers@.len() - i,
        {
            proof {
                assert(all.take(i + 1) =~= all.take(i as int).push(all[i as int]));
                lemma_push_contains(all.take(i as int), all[i as int]);
            }
            if self.get(&peers[i]).is_none() {
                let peer = peers[i].clone();
                self.insert(peer, 0);
            }
            i += 1;
        }
        proof {
            assert(all.take(all.len() as int) =~= all);
        }
        let ghost grown = self@;
        let mut dead: Vec<String> = Vec::new();
        let mut j: usize = 0;
        while j < self.entries.len()
            invariant
                j <= self.entries@.len(),
                forall|k: int|
                    0 <= k < j && !all.contains((#[trigger] self.entries@[k]).peer@) ==> names(
                        dead@,
                    ).contains(self.entries@[k].peer@),
                forall|n: Seq<char>| #[trigger] names(dead@).contains(n) ==> !all.contains(n),
                all == names(peers@),
            decreases self.entries@.len() - j,
        {
            if !contains_name(peers, &self.entries[j].peer) {
                let name = self.entries[j].peer.clone();
                let ghost found = dead@;
                dead.push(name);
                proof {
                    lemma_names_push(found, name);
                    assert(dead@ == found.push(name));
                    assert(names(dead@).contains(name@));
                }
            }
            j += 1;
        }
        proof {
            assert forall|n: Seq<char>| grown.dom().contains(n) && !all.contains(n) implies names(
                dead@,
            ).contains(n) by {
                let k = entry_of(self.entries@, n);
                assert(!all.contains(self.entries@[k].peer@));
            }
        }
        let ghost gone = names(dead@);
        let mut d: usize = 0;
        while d < dead.len()
            invariant
                d <= dead@.len(),
                self.wf(),
                gone == names(dead@),
                forall|n: Seq<char>| #[trigger]
                    self@.dom().contains(n) <==> (grown.dom().contains(n) && !gone.take(
                        d as int,
                    ).contains(n)),
                forall|n: Seq<char>| #[trigger] self@.dom().contains(n) ==> self@[n] == grown[n],
            decreases dead@.len() - d,
        {
            proof {
                assert(gone.take(d + 1) =~= gone.take(d as int).push(gone[d as int]));
                lemma_push_contains(gone.take(d as int), gone[d as int]);
            }
            self.remove(&dead[d]);
            d += 1;
        }
        proof {
            assert(gone.take(gone.len() as int) =~= gone);
            assert(self@.dom() =~= alive);
            assert(self@ =~= cursors_after_topology(before, alive));
        }
    }
}

} // verus!
