//! Lists of node ids, and the names that they stand for.

use vstd::prelude::*;

verus! {

/// The names of a list of node ids.
pub open spec fn names(ids: Seq<String>) -> Seq<Seq<char>> {
    ids.map_values(|id: String| id@)
}

/// A list with one more item holds what it held, and the item.
pub proof fn lemma_push_contains<A>(s: Seq<A>, x: A)
    ensures
        forall|n: A| #[trigger] s.push(x).contains(n) <==> (s.contains(n) || n == x),
{
    assert forall|n: A| s.push(x).contains(n) <==> (s.contains(n) || n == x) by {
        if s.contains(n) {
            let k = choose|k: int| 0 <= k < s.len() && s[k] == n;
            assert(s.push(x)[k] == n);
        }
        if n == x {
            assert(s.push(x)[s.len() as int] == n);
        }
    }
}

/// Appending an id appends its name.
pub proof fn lemma_names_push(ids: Seq<String>, id: String)
    ensures
        names(ids.push(id)) == names(ids).push(id@),
        forall|n: Seq<char>| #[trigger]
            names(ids.push(id)).contains(n) <==> (names(ids).contains(n) || n == id@),
        (names(ids).no_duplicates() && !names(ids).contains(id@)) ==> names(
            ids.push(id),
        ).no_duplicates(),
{
    let after = names(ids.push(id));
    assert(after =~= names(ids).push(id@));
    assert forall|n: Seq<char>| after.contains(n) <==> (names(ids).contains(n) || n == id@) by {
        if names(ids).contains(n) {
            let k = choose|k: int| 0 <= k < names(ids).len() && names(ids)[k] == n;
            assert(after[k] == n);
        }
        if n == id@ {
            assert(after[ids.len() as int] == n);
        }
    }
}

/// Whether `name` is one of `ids`.
pub fn contains_name(ids: &Vec<String>, name: &String) -> (result: bool)
    ensures
        result == names(ids@).contains(name@),
{
    let mut i: usize = 0;
    while i < ids.len()
        invariant
            i <= ids@.len(),
            forall|k: int| 0 <= k < i ==> names(ids@)[k] != name@,
        decreases ids@.len() - i,
    {
        if ids[i] == *name {
            assert(names(ids@)[i as int] == name@);
            return true;
        }
        i += 1;
    }
    false
}

/// A copy of a list of node ids.
pub fn copy_names(ids: &Vec<String>) -> (result: Vec<String>)
    ensures
        result@ == ids@,
{
    let mut out: Vec<String> = Vec::new();
    let mut i: usize = 0;
    while i < ids.len()
        invariant
            i <= ids@.len(),
            out@ == ids@.take(i as int),
        decreases ids@.len() - i,
    {
        out.push(ids[i].clone());
        assert(out@ =~= ids@.take(i + 1));
        i += 1;
    }
    assert(ids@.take(ids@.len() as int) =~= ids@);
    out
}

} // verus!
