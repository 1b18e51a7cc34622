//! The peers that a topology names, and lists of node ids without repeats.

use vstd::prelude::*;
use crate::algorithms::node_ids::{contains_name, copy_names, lemma_names_push, names};

verus! {

/// An adjacency list as plain names: for each entry the node and its
/// neighbours.
pub open spec fn topology_view(t: Seq<(String, Vec<String>)>) -> Seq<(Seq<char>, Seq<Seq<char>>)> {
    t.map_values(|e: (String, Vec<String>)| (e.0@, names(e.1@)))
}

/// `name` stands in the neighbour list of some entry of `adjacency`.
pub open spec fn is_neighbour(adjacency: Seq<(Seq<char>, Seq<Seq<char>>)>, name: Seq<char>) -> bool {
    exists|a: int, b: int|
        0 <= a < adjacency.len() && 0 <= b < adjacency[a].1.len() && #[trigger] adjacency[a].1[b]
            == name
}

/// The peers of the node `me` under the topology `adjacency`: every node
/// that some neighbour list names, but `me` itself.
pub open spec fn topology_peers(adjacency: Seq<(Seq<char>, Seq<Seq<char>>)>, me: Seq<char>) -> Set<
    Seq<char>,
> {
    Set::new(|name: Seq<char>| name != me && is_neighbour(adjacency, name))
}

/// No topology makes a node its own peer, and a topology without entries
/// leaves no peer.
pub proof fn lemma_peers_exclude_self(adjacency: Seq<(Seq<char>, Seq<Seq<char>>)>, me: Seq<char>)
    ensures
        !topology_peers(adjacency, me).contains(me),
        adjacency.len() == 0 ==> topology_peers(adjacency, me) == Set::<Seq<char>>::empty(),
{
    if adjacency.len() == 0 {
        assert(topology_peers(adjacency, me) =~= Set::<Seq<char>>::empty());
    }
}

/// `name` stands in the neighbour list of some entry of `t`.
spec fn is_listed(t: Seq<(String, Vec<String>)>, name: Seq<char>) -> bool {
    exists|a: int, b: int|
        0 <= a < t.len() && 0 <= b < t[a].1@.len() && (#[trigger] t[a].1@[b])@ == name
}

/// `name` stands in a neighbour list before entry `i`, or in that of entry
/// `i` before place `j`.
spec fn listed_before(t: Seq<(String, Vec<String>)>, i: int, j: int, name: Seq<char>) -> bool {
    exists|a: int, b: int|
        0 <= a < t.len() && 0 <= b < t[a].1@.len() && (a < i || (a == i && b < j)) && (
        #[trigger] t[a].1@[b])@ == name
}

/// What a list of ids lists is what its names list.
proof fn lemma_listed_by_name(t: Seq<(String, Vec<String>)>)
    ensures
        forall|n: Seq<char>| #[trigger] is_listed(t, n) <==> is_neighbour(topology_view(t), n),
{
    let v = topology_view(t);
    assert forall|n: Seq<char>| is_listed(t, n) <==> is_neighbour(v, n) by {
        if is_listed(t, n) {
            let (a, b) = choose|a: int, b: int|
                0 <= a < t.len() && 0 <= b < t[a].1@.len() && (#[trigger] t[a].1@[b])@ == n;
            assert(v[a].1[b] == n);
        }
        if is_neighbour(v, n) {
            let (a, b) = choose|a: int, b: int|
                0 <= a < v.len() && 0 <= b < v[a].1.len() && #[trigger] v[a].1[b] == n;
            assert((t[a].1@[b])@ == n);
        }
    }
}

/// A copy of an adjacency list.
pub fn copy_topology(t: &Vec<(String, Vec<String>)>) -> (result: Vec<(String, Vec<String>)>)
    ensures
        topology_view(result@) == topology_view(t@),
        result@.len() == t@.len(),
        forall|a: int| 0 <= a < t@.len() ==> (#[trigger] result@[a]).0 == t@[a].0 && result@[a].1@ == t@[a].1@,
{
    let mut out: Vec<(String, Vec<String>)> = Vec::new();
    let mut i: usize = 0;
    while i < t.len()
        invariant
            i <= t@.len(),
            out@.len() == i,
            forall|a: int| 0 <= a < i ==> (#[trigger] out@[a]).0 == t@[a].0 && out@[a].1@ == t@[a].1@,
        decreases t@.len() - i,
    {
        let node = t[i].0.clone();
        let neighbours = copy_names(&t[i].1);
        out.push((node, neighbours));
        i += 1;
    }
    assert(topology_view(out@) =~= topology_view(t@));
    out
}

/// One more place of a neighbour list adds the name that stands there.
proof fn lemma_listed_next(t: Seq<(String, Vec<String>)>, i: int, j: int)
    requires
        0 <= i < t.len(),
        0 <= j < t[i].1@.len(),
    ensures
        forall|n: Seq<char>| #[trigger]
            listed_before(t, i, j + 1, n) <==> (listed_before(t, i, j, n) || n == t[i].1@[j]@),
{
    assert forall|n: Seq<char>| #[trigger]
        listed_before(t, i, j + 1, n) <==> (listed_before(t, i, j, n) || n == t[i].1@[j]@) by {
        if n == t[i].1@[j]@ {
            assert((t[i].1@[j])@ == n);
        }
        if listed_before(t, i, j + 1, n) {
            let (a, b) = choose|a: int, b: int|
                0 <= a < t.len() && 0 <= b < t[a].1@.len() && (a < i || (a == i && b < j + 1)) && (
                #[trigger] t[a].1@[b])@ == n;
            if !(a == i && b == j) {
                assert((t[a].1@[b])@ == n);
            }
        }
        if listed_before(t, i, j, n) {
            let (a, b) = choose|a: int, b: int|
                0 <= a < t.len() && 0 <= b < t[a].1@.len() && (a < i || (a == i && b < j)) && (
                #[trigger] t[a].1@[b])@ == n;
            assert((t[a].1@[b])@ == n);
        }
    }
}

/// The peers of `me` under `topology`, each once, in the order in which the
/// topology first lists them.
pub fn collect_peers(topology: &Vec<(String, Vec<String>)>, me: &String) -> (result: Vec<String>)
    ensures
        names(result@).no_duplicates(),
        names(result@).to_set() == topology_peers(topology_view(topology@), me@),
        !names(result@).contains(me@),
{
    let ghost t = topology@;
    let mut peers: Vec<String> = Vec::new();
    let mut i: usize = 0;
    while i < topology.len()
        invariant
            t == topology@,
            i <= t.len(),
            names(peers@).no_duplicates(),
            forall|n: Seq<char>|
                names(peers@).contains(n) <==> (n != me@ && listed_before(t, i as int, 0, n)),
        decreases t.len() - i,
    {
        let neighbours = &topology[i].1;
        let mut j: usize = 0;
        while j < neighbours.len()
            invariant
                t == topology@,
                i < t.len(),
                *neighbours == t[i as int].1,
                j <= neighbours@.len(),
                names(peers@).no_duplicates(),
                forall|n: Seq<char>|
                    names(peers@).contains(n) <==> (n != me@ && listed_before(
                        t,
                        i as int,
                        j as int,
                        n,
                    )),
            decreases neighbours@.len() - j,
        {
            let node = &neighbours[j];
            let ghost before = peers@;
            if !(*node == *me) && !contains_name(&peers, node) {
                peers.push(node.clone());
            }
            proof {
                lemma_listed_next(t, i as int, j as int);
                if peers@ != before {
                    lemma_names_push(before, *node);
                }
                assert forall|n: Seq<char>|
                    names(peers@).contains(n) <==> (n != me@ && listed_before(
                        t,
                        i as int,
                        j + 1,
                        n,
                    )) by {
                    assert(names(before).contains(n) <==> (n != me@ && listed_before(
                        t,
                        i as int,
                        j as int,
                        n,
                    )));
                }
            }
            j += 1;
        }
        proof {
            assert forall|n: Seq<char>|
                listed_before(t, i as int, j as int, n) <==> listed_before(t, i + 1, 0, n) by {}
        }
        i += 1;
    }
    proof {
        lemma_listed_by_name(t);
        assert forall|n: Seq<char>|
            names(peers@).to_set().contains(n) <==> topology_peers(topology_view(t), me@).contains(
                n,
            ) by {
            assert(listed_before(t, i as int, 0, n) <==> is_listed(t, n));
            assert(is_listed(t, n) <==> is_neighbour(topology_view(t), n));
            assert(names(peers@).contains(n) <==> (n != me@ && listed_before(t, i as int, 0, n)));
        }
        assert(names(peers@).to_set() =~= topology_peers(topology_view(t), me@));
    }
    peers
}

} // verus!
