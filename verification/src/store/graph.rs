//! Reachability in the `blocks` relation between Issues.
use vstd::prelude::*;
use vstd::set_lib::lemma_len_subset;

verus! {

/// `edges` holds the edge from `a` to `b`.
pub open spec fn has_edge(edges: Seq<(u128, u128)>, a: u128, b: u128) -> bool {
    exists|i: int| 0 <= i < edges.len() && #[trigger] edges[i] == (a, b)
}

/// `p` is a walk along `edges`: a non-empty sequence of nodes, each joined
/// to the next by an edge.
pub open spec fn is_walk(edges: Seq<(u128, u128)>, p: Seq<u128>) -> bool {
    &&& p.len() >= 1
    &&& forall|i: int| 0 <= i < p.len() - 1 ==> has_edge(edges, #[trigger] p[i], p[i + 1])
}

/// `b` can be reached from `a` by following edges (every node reaches itself).
pub open spec fn reaches(edges: Seq<(u128, u128)>, a: u128, b: u128) -> bool {
    exists|p: Seq<u128>| #[trigger] is_walk(edges, p) && p[0] == a && p.last() == b
}

/// The nodes that a search from `from` can add: `from` and every edge target.
pub open spec fn candidates(edges: Seq<(u128, u128)>, from: u128) -> Seq<u128> {
    seq![from] + edges.map_values(|e: (u128, u128)| e.1)
}

fn contains_node(nodes: &Vec<u128>, x: u128) -> (r: bool)
    ensures
        r == nodes@.contains(x),
{
    let mut i: usize = 0;
    while i < nodes.len()
        invariant
            i <= nodes.len(),
            forall|j: int| 0 <= j < i ==> nodes@[j] != x,
        decreases nodes.len() - i,
    {
        if nodes[i] == x {
            return true;
        }
        i = i + 1;
    }
    false
}

proof fn lemma_walk_extend(edges: Seq<(u128, u128)>, p: Seq<u128>, v: u128)
    requires
        is_walk(edges, p),
        has_edge(edges, p.last(), v),
    ensures
        is_walk(edges, p.push(v)),
        p.push(v)[0] == p[0],
        p.push(v).last() == v,
{
    let q = p.push(v);
    assert forall|i: int| 0 <= i < q.len() - 1 implies has_edge(edges, #[trigger] q[i], q[i + 1]) by {
        if i < p.len() - 1 {
            assert(q[i] == p[i] && q[i + 1] == p[i + 1]);
        } else {
            assert(q[i] == p.last() && q[i + 1] == v);
        }
    }
}

/// A set of nodes closed under edges holds every node reachable from its
/// members.
proof fn lemma_closed_holds_walk(edges: Seq<(u128, u128)>, nodes: Seq<u128>, p: Seq<u128>)
    requires
        is_walk(edges, p),
        nodes.contains(p[0]),
        forall|x: u128, y: u128| nodes.contains(x) && #[trigger] has_edge(edges, x, y) ==> nodes.contains(y),
    ensures
        nodes.contains(p.last()),
    decreases p.len(),
{
    if p.len() > 1 {
        let q = p.drop_last();
        assert forall|i: int| 0 <= i < q.len() - 1 implies has_edge(edges, #[trigger] q[i], q[i + 1]) by {
            assert(q[i] == p[i] && q[i + 1] == p[i + 1]);
        }
        lemma_closed_holds_walk(edges, nodes, q);
        assert(has_edge(edges, p[p.len() - 2], p[p.len() - 1]));
    }
}

/// Whether `to` can be reached from `from` along `edges`.
#[verifier::rlimit(30)]
pub fn reachable(edges: &Vec<(u128, u128)>, from: u128, to: u128) -> (r: bool)
    ensures
        r == reaches(edges@, from, to),
{
    let ghost cand = candidates(edges@, from);
    let mut visited: Vec<u128> = Vec::new();
    visited.push(from);
    proof {
        let p = seq![from];
        assert(is_walk(edges@, p));
        assert(cand[0] == from);
    }
    let mut i: usize = 0;
    while i < visited.len()
        invariant
            cand == candidates(edges@, from),
            i <= visited.len(),
            visited@.len() <= edges@.len() + 1,
            visited@.len() >= 1,
            visited@[0] == from,
            visited@.no_duplicates(),
            forall|k: int| 0 <= k < visited@.len() ==> cand.contains(#[trigger] visited@[k]),
            forall|k: int| 0 <= k < visited@.len() ==> reaches(edges@, from, #[trigger] visited@[k]),
            forall|k: int, y: u128|
                0 <= k < i && #[trigger] has_edge(edges@, visited@[k], y) ==> visited@.contains(y),
        decreases edges@.len() + 1 - i,
    {
        let x = visited[i];
        let mut j: usize = 0;
        while j < edges.len()
            invariant
                cand == candidates(edges@, from),
                i < visited.len(),
                x == visited@[i as int],
                j <= edges.len(),
                visited@.len() >= 1,
                visited@[0] == from,
                visited@.no_duplicates(),
                forall|k: int| 0 <= k < visited@.len() ==> cand.contains(#[trigger] visited@[k]),
                forall|k: int|
                    0 <= k < visited@.len() ==> reaches(edges@, from, #[trigger] visited@[k]),
                forall|k: int, y: u128|
                    0 <= k < i && #[trigger] has_edge(edges@, visited@[k], y) ==> visited@.contains(y),
                forall|m: int| 0 <= m < j && (#[trigger] edges@[m]).0 == x ==> visited@.contains(edges@[m].1),
            decreases edges.len() - j,
        {
            let (u, v) = edges[j];
            if u == x && !contains_node(&visited, v) {
                proof {
                    let p = choose|p: Seq<u128>| #[trigger] is_walk(edges@, p) && p[0] == from && p.last() == x;
                    assert(has_edge(edges@, x, v)) by {
                        assert(edges@[j as int] == (x, v));
                    }
                    lemma_walk_extend(edges@, p, v);
                    assert(cand[j + 1] == v);
                }
                let ghost old_visited = visited@;
                visited.push(v);
                proof {
                    assert forall|k: int| 0 <= k < visited@.len() implies cand.contains(#[trigger] visited@[k]) by {
                        if k < old_visited.len() {
                            assert(visited@[k] == old_visited[k]);
                        } else {
                            assert(cand[j + 1] == v);
                        }
                    }
                    assert forall|k: int| 0 <= k < visited@.len() implies reaches(edges@, from, #[trigger] visited@[k]) by {
                        if k < old_visited.len() {
                            assert(visited@[k] == old_visited[k]);
                        }
                    }
                    assert forall|k: int, y: u128|
                        0 <= k < i && #[trigger] has_edge(edges@, visited@[k], y) implies visited@.contains(y) by {
                        assert(visited@[k] == old_visited[k]);
                        assert(old_visited.contains(y));
                        let w = choose|w: int| 0 <= w < old_visited.len() && old_visited[w] == y;
                        assert(visited@[w] == y);
                    }
                    assert forall|m: int| 0 <= m < j + 1 && (#[trigger] edges@[m]).0 == x implies visited@.contains(edges@[m].1) by {
                        if m < j {
                            assert(old_visited.contains(edges@[m].1));
                            let w = choose|w: int| 0 <= w < old_visited.len() && old_visited[w] == edges@[m].1;
                            assert(visited@[w] == edges@[m].1);
                        } else {
                            assert(visited@[old_visited.len() as int] == v);
                        }
                    }
                }
            } else {
                proof {
                    if u == x {
                        assert(visited@.contains(v));
                    }
                }
            }
            j = j + 1;
        }
        proof {
            assert forall|k: int, y: u128|
                0 <= k < i + 1 && #[trigger] has_edge(edges@, visited@[k], y) implies visited@.contains(y) by {
                if k == i {
                    let m = choose|m: int| 0 <= m < edges@.len() && #[trigger] edges@[m] == (visited@[k], y);
                    assert(edges@[m].0 == x);
                }
            }
            // the visited nodes are distinct candidates, so there are at most as many
            assert(visited@.to_set().subset_of(cand.to_set()));
            visited@.unique_seq_to_set();
            cand.lemma_cardinality_of_set();
            lemma_len_subset(visited@.to_set(), cand.to_set());
        }
        i = i + 1;
    }
    proof {
        assert forall|x: u128, y: u128| visited@.contains(x) && #[trigger] has_edge(edges@, x, y) implies visited@.contains(y) by {
            let k = choose|k: int| 0 <= k < visited@.len() && visited@[k] == x;
            assert(has_edge(edges@, visited@[k], y));
        }
        if reaches(edges@, from, to) {
            let p = choose|p: Seq<u128>| #[trigger] is_walk(edges@, p) && p[0] == from && p.last() == to;
            assert(visited@.contains(from)) by {
                assert(visited@[0] == from);
            }
            lemma_closed_holds_walk(edges@, visited@, p);
        }
    }
    let found = contains_node(&visited, to);
    proof {
        if found {
            let k = choose|k: int| 0 <= k < visited@.len() && visited@[k] == to;
            assert(reaches(edges@, from, visited@[k]));
        }
    }
    found
}

/// No edge closes a cycle: the target of an edge never reaches its source.
pub open spec fn acyclic(edges: Seq<(u128, u128)>) -> bool {
    forall|a: u128, b: u128| #[trigger] has_edge(edges, a, b) ==> !reaches(edges, b, a)
}

pub proof fn lemma_reaches_self(edges: Seq<(u128, u128)>, a: u128)
    ensures
        reaches(edges, a, a),
{
    assert(is_walk(edges, seq![a]));
}

pub proof fn lemma_reaches_step(edges: Seq<(u128, u128)>, a: u128, b: u128, c: u128)
    requires
        reaches(edges, a, b),
        has_edge(edges, b, c),
    ensures
        reaches(edges, a, c),
{
    let p = choose|p: Seq<u128>| #[trigger] is_walk(edges, p) && p[0] == a && p.last() == b;
    lemma_walk_extend(edges, p, c);
}

proof fn lemma_walk_concat(edges: Seq<(u128, u128)>, p: Seq<u128>, q: Seq<u128>)
    requires
        is_walk(edges, p),
        is_walk(edges, q),
        p.last() == q[0],
    ensures
        is_walk(edges, p + q.drop_first()),
        (p + q.drop_first())[0] == p[0],
        (p + q.drop_first()).last() == q.last(),
{
    let w = p + q.drop_first();
    let n = p.len() as int;
    assert forall|i: int| 0 <= i < w.len() - 1 implies has_edge(edges, #[trigger] w[i], w[i + 1]) by {
        if i < n - 1 {
            assert(w[i] == p[i] && w[i + 1] == p[i + 1]);
        } else if i == n - 1 {
            assert(w[i] == q[0] && w[i + 1] == q[1]);
        } else {
            assert(w[i] == q[i - n + 1] && w[i + 1] == q[i - n + 2]);
        }
    }
    if q.len() == 1 {
        assert(w =~= p);
    } else {
        assert(w.last() == q.drop_first().last());
    }
}

pub proof fn lemma_reaches_trans(edges: Seq<(u128, u128)>, a: u128, b: u128, c: u128)
    requires
        reaches(edges, a, b),
        reaches(edges, b, c),
    ensures
        reaches(edges, a, c),
{
    let p = choose|p: Seq<u128>| #[trigger] is_walk(edges, p) && p[0] == a && p.last() == b;
    let q = choose|q: Seq<u128>| #[trigger] is_walk(edges, q) && q[0] == b && q.last() == c;
    lemma_walk_concat(edges, p, q);
}

/// Every walk after adding the edge `(b, d)` either was possible before, or
/// reached `b` before and continues from `d`.
proof fn lemma_walk_with_new_edge(edges: Seq<(u128, u128)>, b: u128, d: u128, p: Seq<u128>)
    requires
        is_walk(edges.push((b, d)), p),
    ensures
        reaches(edges, p[0], p.last()) || (reaches(edges, p[0], b) && reaches(edges, d, p.last())),
    decreases p.len(),
{
    let new = edges.push((b, d));
    if p.len() == 1 {
        lemma_reaches_self(edges, p[0]);
    } else {
        let r = p.drop_last();
        assert(is_walk(new, r)) by {
            assert forall|i: int| 0 <= i < r.len() - 1 implies has_edge(new, #[trigger] r[i], r[i + 1]) by {
                assert(r[i] == p[i] && r[i + 1] == p[i + 1]);
            }
        }
        lemma_walk_with_new_edge(edges, b, d, r);
        let u = r.last();
        let t = p.last();
        assert(has_edge(new, p[p.len() - 2], p[p.len() - 1]));
        assert(u == p[p.len() - 2]);
        let k = choose|k: int| 0 <= k < new.len() && #[trigger] new[k] == (u, t);
        if k < edges.len() {
            assert(edges[k] == (u, t));
            assert(has_edge(edges, u, t));
            if reaches(edges, p[0], u) {
                lemma_reaches_step(edges, p[0], u, t);
            } else {
                lemma_reaches_step(edges, d, u, t);
            }
        } else {
            assert(u == b && t == d);
            lemma_reaches_self(edges, d);
            if reaches(edges, p[0], u) {
            } else {
                assert(reaches(edges, p[0], b));
            }
        }
    }
}

/// An edge whose target does not reach its source, added to edges without
/// cycles, closes none.
pub proof fn lemma_new_edge_keeps_acyclic(edges: Seq<(u128, u128)>, blocker: u128, blocked: u128)
    requires
        acyclic(edges),
        blocker != blocked,
        !has_edge(edges, blocker, blocked),
        !reaches(edges, blocked, blocker),
    ensures
        acyclic(edges.push((blocker, blocked))),
{
    let new = edges.push((blocker, blocked));
    assert forall|x: u128, y: u128| #[trigger] has_edge(new, x, y) implies !reaches(new, y, x) by {
        if reaches(new, y, x) {
            let p = choose|p: Seq<u128>| #[trigger] is_walk(new, p) && p[0] == y && p.last() == x;
            lemma_walk_with_new_edge(edges, blocker, blocked, p);
            let k = choose|k: int| 0 <= k < new.len() && #[trigger] new[k] == (x, y);
            if k < edges.len() {
                assert(edges[k] == (x, y));
                assert(has_edge(edges, x, y));
                if reaches(edges, y, x) {
                    assert(!reaches(edges, y, x));
                } else {
                    // blocked reaches x, x -> y, y reaches blocker
                    lemma_reaches_step(edges, blocked, x, y);
                    lemma_reaches_trans(edges, blocked, y, blocker);
                }
            } else {
                assert(x == blocker && y == blocked);
            }
        }
    }
}

} // verus!
