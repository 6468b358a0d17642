//! The rules of the `blocks` and parent relations between Issues. Issues are
//! named by their identifiers as 128-bit numbers.
use crate::error::{conflict, fails_with_conflict, fails_with_not_found, not_found, AppError};
use crate::store::graph::{acyclic, has_edge, lemma_new_edge_keeps_acyclic, reachable, reaches};
use vstd::prelude::*;

verus! {

fn holds_edge(edges: &Vec<(u128, u128)>, a: u128, b: u128) -> (r: bool)
    ensures
        r == has_edge(edges@, a, b),
{
    let mut i: usize = 0;
    while i < edges.len()
        invariant
            i <= edges.len(),
            forall|j: int| 0 <= j < i ==> edges@[j] != (a, b),
        decreases edges.len() - i,
    {
        if edges[i].0 == a && edges[i].1 == b {
            assert(edges@[i as int] == (a, b));
            return true;
        }
        i = i + 1;
    }
    false
}

/// The error, if any, with which `blocker` blocking `blocked` is refused.
pub open spec fn dependency_error(edges: Seq<(u128, u128)>, blocker: u128, blocked: u128) -> Option<
    Seq<char>,
> {
    if blocker == blocked {
        Some("an Issue cannot block itself"@)
    } else if has_edge(edges, blocker, blocked) {
        Some("dependency already exists"@)
    } else if reaches(edges, blocked, blocker) {
        Some("dependency would create a cycle"@)
    } else {
        None
    }
}

/// Checks a new `blocks` relation against the existing ones: an Issue does not
/// block itself, a relation is not repeated, and no cycle is closed.
pub fn check_new_dependency(edges: &Vec<(u128, u128)>, blocker: u128, blocked: u128) -> (r: Result<
    (),
    AppError,
>)
    ensures
        match dependency_error(edges@, blocker, blocked) {
            Some(m) => fails_with_conflict(r, m),
            None => r is Ok,
        },
{
    if blocker == blocked {
        return Err(conflict("an Issue cannot block itself"));
    }
    if holds_edge(edges, blocker, blocked) {
        return Err(conflict("dependency already exists"));
    }
    if reachable(edges, blocked, blocker) {
        return Err(conflict("dependency would create a cycle"));
    }
    Ok(())
}

/// Checks that the relation to remove exists.
pub fn check_dependency_removal(edges: &Vec<(u128, u128)>, blocker: u128, blocked: u128) -> (r:
    Result<(), AppError>)
    ensures
        has_edge(edges@, blocker, blocked) ==> r is Ok,
        !has_edge(edges@, blocker, blocked) ==> fails_with_not_found(r, "dependency not found"@),
{
    if holds_edge(edges, blocker, blocked) {
        Ok(())
    } else {
        Err(not_found("dependency not found"))
    }
}

/// `node` is the child of some relation.
pub open spec fn is_child(parents: Seq<(u128, u128)>, node: u128) -> bool {
    exists|i: int| 0 <= i < parents.len() && (#[trigger] parents[i]).0 == node
}

/// `node` is the parent of some relation.
pub open spec fn is_parent(parents: Seq<(u128, u128)>, node: u128) -> bool {
    exists|i: int| 0 <= i < parents.len() && (#[trigger] parents[i]).1 == node
}

/// The error, if any, with which making `parent` the parent of `child` is
/// refused; relations are `(child, parent)` pairs.
pub open spec fn parent_error(parents: Seq<(u128, u128)>, child: u128, parent: u128) -> Option<
    Seq<char>,
> {
    if child == parent {
        Some("an Issue cannot be its own parent"@)
    } else if is_child(parents, child) {
        Some("Issue already has a parent"@)
    } else if is_parent(parents, child) {
        Some("parent nesting is limited to one level"@)
    } else if is_child(parents, parent) {
        Some("parent nesting is limited to one level"@)
    } else {
        None
    }
}

fn find_child(parents: &Vec<(u128, u128)>, node: u128) -> (r: bool)
    ensures
        r == is_child(parents@, node),
{
    let mut i: usize = 0;
    while i < parents.len()
        invariant
            i <= parents.len(),
            forall|j: int| 0 <= j < i ==> parents@[j].0 != node,
        decreases parents.len() - i,
    {
        if parents[i].0 == node {
            assert(parents@[i as int].0 == node);
            return true;
        }
        i = i + 1;
    }
    false
}

fn find_parent(parents: &Vec<(u128, u128)>, node: u128) -> (r: bool)
    ensures
        r == is_parent(parents@, node),
{
    let mut i: usize = 0;
    while i < parents.len()
        invariant
            i <= parents.len(),
            forall|j: int| 0 <= j < i ==> parents@[j].1 != node,
        decreases parents.len() - i,
    {
        if parents[i].1 == node {
            assert(parents@[i as int].1 == node);
            return true;
        }
        i = i + 1;
    }
    false
}

/// Checks a new parent relation: an Issue is not its own parent, has at most
/// one parent, and a parent is never itself a child.
pub fn check_new_parent(parents: &Vec<(u128, u128)>, child: u128, parent: u128) -> (r: Result<
    (),
    AppError,
>)
    ensures
        match parent_error(parents@, child, parent) {
            Some(m) => fails_with_conflict(r, m),
            None => r is Ok,
        },
{
    if child == parent {
        return Err(conflict("an Issue cannot be its own parent"));
    }
    if find_child(parents, child) {
        return Err(conflict("Issue already has a parent"));
    }
    if find_parent(parents, child) {
        return Err(conflict("parent nesting is limited to one level"));
    }
    if find_child(parents, parent) {
        return Err(conflict("parent nesting is limited to one level"));
    }
    Ok(())
}

/// The parent relations form a forest one level deep: no Issue is its own
/// parent, an Issue has at most one parent, and no parent is a child.
pub open spec fn one_level(parents: Seq<(u128, u128)>) -> bool {
    &&& forall|i: int| 0 <= i < parents.len() ==> (#[trigger] parents[i]).0 != parents[i].1
    &&& forall|i: int, j: int|
        0 <= i < parents.len() && 0 <= j < parents.len() && i != j ==> (#[trigger] parents[i]).0
            != (#[trigger] parents[j]).0
    &&& forall|i: int, j: int|
        0 <= i < parents.len() && 0 <= j < parents.len() ==> (#[trigger] parents[i]).1 != (
        #[trigger] parents[j]).0
}

/// A parent relation that the check accepts keeps the relations one level
/// deep.
pub proof fn law_accepted_parent_keeps_one_level(
    parents: Seq<(u128, u128)>,
    child: u128,
    parent: u128,
)
    requires
        one_level(parents),
        parent_error(parents, child, parent) is None,
    ensures
        one_level(parents.push((child, parent))),
{
    let q = parents.push((child, parent));
    let n = parents.len() as int;
    assert forall|i: int| 0 <= i < q.len() implies (#[trigger] q[i]).0 != q[i].1 by {
        if i < n {
            assert(q[i] == parents[i]);
        }
    }
    assert forall|i: int, j: int|
        0 <= i < q.len() && 0 <= j < q.len() && i != j implies (#[trigger] q[i]).0 != (
        #[trigger] q[j]).0 by {
        if i < n && j < n {
            assert(q[i] == parents[i] && q[j] == parents[j]);
        } else if i < n {
            assert(q[i] == parents[i]);
            assert(!is_child(parents, child));
        } else {
            assert(q[j] == parents[j]);
            assert(!is_child(parents, child));
        }
    }
    assert forall|i: int, j: int| 0 <= i < q.len() && 0 <= j < q.len() implies (
    #[trigger] q[i]).1 != (#[trigger] q[j]).0 by {
        if i < n && j < n {
            assert(q[i] == parents[i] && q[j] == parents[j]);
        } else if i < n {
            assert(q[i] == parents[i]);
            assert(!is_parent(parents, child));
        } else if j < n {
            assert(q[j] == parents[j]);
            assert(!is_child(parents, parent));
        }
    }
}

/// A `blocks` relation that the check accepts, added to relations without
/// cycles, leaves them without cycles.
pub proof fn law_accepted_dependency_keeps_acyclic(
    edges: Seq<(u128, u128)>,
    blocker: u128,
    blocked: u128,
)
    requires
        acyclic(edges),
        dependency_error(edges, blocker, blocked) is None,
    ensures
        acyclic(edges.push((blocker, blocked))),
{
    lemma_new_edge_keeps_acyclic(edges, blocker, blocked);
}

} // verus!
