//! Dependency-order resolution.
//!
//! A locked dependency graph names each local dependency once and lists, for
//! every node, the indices of the nodes it depends on.  Resolution turns the
//! graph into a linear deployment order in which every dependency stands
//! strictly before each node that depends on it, with the root program
//! appended last.  The order is picked greedily — at each position the
//! lowest-numbered node whose dependencies are all already placed — which
//! makes it a deterministic function of the graph.

use vstd::prelude::*;
use vstd::seq_lib::seq_to_set_is_finite;
use vstd::set_lib::lemma_len_subset;
use vstd::string::StringExecFns;

use crate::errors::DeployError;

verus! {

/// One package to be deployed: a program name paired with the directory
/// holding its build artifact.
#[derive(Debug)]
pub struct DeploymentUnit {
    pub name: String,
    pub path: String,
}

/// One node of the locked dependency graph: a local dependency's name, its
/// build path, and the indices of the nodes it depends on.
#[derive(Debug)]
pub struct LockNode {
    pub name: String,
    pub path: String,
    pub deps: Vec<usize>,
}

/// A locked dependency graph: the local dependencies of the root program,
/// with dependency edges given as indices into the node list.
#[derive(Debug)]
pub struct LockGraph {
    pub nodes: Vec<LockNode>,
}

/// Position `k` of `ord` respects the graph's edges: every dependency of the
/// node placed there already appears among the earlier positions.
pub open spec fn deps_placed_before(g: LockGraph, ord: Seq<usize>, k: int) -> bool
    recommends
        0 <= k < ord.len(),
        ord[k] < g.nodes@.len(),
{
    forall|j: int|
        0 <= j < g.nodes@[ord[k] as int].deps@.len() ==> ord.take(k).contains(
            #[trigger] g.nodes@[ord[k] as int].deps@[j],
        )
}

/// A dependency-respecting linear order over the whole graph: every node
/// exactly once, and each one only after all of its dependencies.
pub open spec fn is_deploy_order(g: LockGraph, ord: Seq<usize>) -> bool {
    &&& ord.len() == g.nodes@.len()
    &&& (forall|k: int| 0 <= k < ord.len() ==> (#[trigger] ord[k]) < g.nodes@.len())
    &&& ord.no_duplicates()
    &&& (forall|k: int| 0 <= k < ord.len() ==> #[trigger] deps_placed_before(g, ord, k))
}

/// Node `i` could be placed next, after the nodes in `placed`: it is not
/// placed yet and every one of its dependencies is.
pub open spec fn ready(g: LockGraph, placed: Seq<usize>, i: int) -> bool {
    &&& 0 <= i < g.nodes@.len()
    &&& !placed.contains(i as usize)
    &&& forall|j: int|
        0 <= j < g.nodes@[i].deps@.len() ==> placed.contains(#[trigger] g.nodes@[i].deps@[j])
}

/// Node `i` is the lowest-numbered node that could be placed next.
pub open spec fn min_ready(g: LockGraph, placed: Seq<usize>, i: int) -> bool {
    &&& ready(g, placed, i)
    &&& forall|j: int| 0 <= j < i ==> !(#[trigger] ready(g, placed, j))
}

/// Every position of `ord` holds the lowest-numbered node that was ready
/// given the positions before it.  At most one such order exists for a given
/// graph, which is what makes resolution deterministic.
pub open spec fn is_greedy_order(g: LockGraph, ord: Seq<usize>) -> bool {
    forall|k: int| 0 <= k < ord.len() ==> min_ready(g, #[trigger] ord.take(k), ord[k] as int)
}

/// Whether `order` (as built so far) contains node `x`.
fn order_contains(order: &Vec<usize>, x: usize) -> (r: bool)
    ensures
        r == order@.contains(x),
{
    let mut t: usize = 0;
    while t < order.len()
        invariant
            t <= order@.len(),
            forall|j: int| 0 <= j < t ==> order@[j] != x,
        decreases order@.len() - t,
    {
        if order[t] == x {
            return true;
        }
        t += 1;
    }
    false
}

/// Whether node `i` is ready to be placed after the nodes already in `order`.
/// A dependency index that points outside the graph is never satisfied, so a
/// malformed node is simply never ready.
fn is_ready(g: &LockGraph, order: &Vec<usize>, i: usize) -> (r: bool)
    requires
        i < g.nodes@.len(),
    ensures
        r == ready(*g, order@, i as int),
{
    if order_contains(order, i) {
        return false;
    }
    let deps_len: usize = g.nodes[i].deps.len();
    let mut j: usize = 0;
    while j < deps_len
        invariant
            i < g.nodes@.len(),
            deps_len == g.nodes@[i as int].deps@.len(),
            j <= deps_len,
            forall|t: int|
                0 <= t < j ==> order@.contains(#[trigger] g.nodes@[i as int].deps@[t]),
        decreases deps_len - j,
    {
        if !order_contains(order, g.nodes[i].deps[j]) {
            return false;
        }
        j += 1;
    }
    true
}

/// The lowest-numbered ready node, if any node is ready at all.
fn find_min_ready(g: &LockGraph, order: &Vec<usize>) -> (r: Option<usize>)
    ensures
        match r {
            Some(i) => min_ready(*g, order@, i as int),
            None => forall|i: int| !(#[trigger] ready(*g, order@, i)),
        },
{
    let n: usize = g.nodes.len();
    let mut i: usize = 0;
    while i < n
        invariant
            n == g.nodes@.len(),
            i <= n,
            forall|j: int| 0 <= j < i ==> !(#[trigger] ready(*g, order@, j)),
        decreases n - i,
    {
        if is_ready(g, order, i) {
            return Some(i);
        }
        i += 1;
    }
    assert forall|j: int| !(#[trigger] ready(*g, order@, j)) by {
        if 0 <= j < n {
        }
    }
    None
}

proof fn lemma_push_no_duplicates<A>(s: Seq<A>, x: A)
    requires
        s.no_duplicates(),
        !s.contains(x),
    ensures
        s.push(x).no_duplicates(),
{
    let s2 = s.push(x);
    assert forall|i: int, j: int|
        0 <= i < s2.len() && 0 <= j < s2.len() && i != j implies s2[i] != s2[j] by {
        if i < s.len() && j < s.len() {
        } else if i < s.len() && j == s.len() {
            assert(s2[i] == s[i]);
            if s[i] == x {
                assert(s.contains(x));
            }
        } else if j < s.len() && i == s.len() {
            assert(s2[j] == s[j]);
            if s[j] == x {
                assert(s.contains(x));
            }
        }
    }
}

proof fn lemma_greedy_push(g: LockGraph, ord: Seq<usize>, x: usize)
    requires
        is_greedy_order(g, ord),
        min_ready(g, ord, x as int),
    ensures
        is_greedy_order(g, ord.push(x)),
{
    let ord2 = ord.push(x);
    assert forall|k: int| 0 <= k < ord2.len() implies min_ready(
        g,
        #[trigger] ord2.take(k),
        ord2[k] as int,
    ) by {
        if k < ord.len() {
            assert(ord2.take(k) =~= ord.take(k));
            assert(min_ready(g, ord.take(k), ord[k] as int));
        } else {
            assert(ord2.take(k) =~= ord);
        }
    }
}

/// A complete greedy order visits every node and respects every edge.
proof fn lemma_greedy_is_deploy_order(g: LockGraph, ord: Seq<usize>)
    requires
        ord.len() == g.nodes@.len(),
        is_greedy_order(g, ord),
    ensures
        is_deploy_order(g, ord),
{
    assert forall|k: int| 0 <= k < ord.len() implies (#[trigger] ord[k]) < g.nodes@.len() by {
        assert(min_ready(g, ord.take(k), ord[k] as int));
    }
    assert forall|i: int, j: int|
        0 <= i < ord.len() && 0 <= j < ord.len() && i != j implies ord[i] != ord[j] by {
        let lo = if i < j {
            i
        } else {
            j
        };
        let hi = if i < j {
            j
        } else {
            i
        };
        assert(min_ready(g, ord.take(hi), ord[hi] as int));
        if ord[lo] == ord[hi] {
            assert(ord.take(hi)[lo] == ord[hi]);
            assert(ord.take(hi).contains(ord[hi]));
        }
    }
    assert forall|k: int| 0 <= k < ord.len() implies #[trigger] deps_placed_before(g, ord, k) by {
        assert(min_ready(g, ord.take(k), ord[k] as int));
    }
}

/// The position of the first entry of `ord` that is not in `placed`.
proof fn find_first_unplaced(placed: Seq<usize>, ord: Seq<usize>, start: int) -> (k: int)
    requires
        0 <= start <= ord.len(),
        exists|k: int| start <= k < ord.len() && !placed.contains(#[trigger] ord[k]),
        forall|j: int| 0 <= j < start ==> placed.contains(#[trigger] ord[j]),
    ensures
        start <= k < ord.len(),
        !placed.contains(ord[k]),
        forall|j: int| 0 <= j < k ==> placed.contains(#[trigger] ord[j]),
    decreases ord.len() - start,
{
    if placed.contains(ord[start]) {
        find_first_unplaced(placed, ord, start + 1)
    } else {
        start
    }
}

/// When no node is ready while some nodes remain unplaced, the graph admits
/// no dependency-respecting order at all: any complete order would have to
/// contain a first unplaced node, and that node would have been ready.
proof fn lemma_stuck_no_order(g: LockGraph, placed: Seq<usize>)
    requires
        placed.no_duplicates(),
        placed.len() < g.nodes@.len(),
        forall|i: int| !(#[trigger] ready(g, placed, i)),
    ensures
        !exists|ord: Seq<usize>| #[trigger] is_deploy_order(g, ord),
{
    broadcast use seq_to_set_is_finite;

    if exists|ord: Seq<usize>| #[trigger] is_deploy_order(g, ord) {
        let ord = choose|ord: Seq<usize>| #[trigger] is_deploy_order(g, ord);
        assert(exists|k: int| 0 <= k < ord.len() && !placed.contains(#[trigger] ord[k])) by {
            if forall|k: int| 0 <= k < ord.len() ==> placed.contains(#[trigger] ord[k]) {
                assert(ord.to_set().subset_of(placed.to_set())) by {
                    assert forall|x: usize| ord.to_set().contains(x) implies placed.to_set()
                        .contains(x) by {
                        assert(ord.contains(x));
                        let k = choose|k: int| 0 <= k < ord.len() && ord[k] == x;
                        assert(placed.contains(ord[k]));
                    }
                }
                ord.unique_seq_to_set();
                placed.unique_seq_to_set();
                lemma_len_subset(ord.to_set(), placed.to_set());
                assert(false);
            }
        }
        let kstar = find_first_unplaced(placed, ord, 0);
        let i = ord[kstar] as int;
        assert(ord[kstar] < g.nodes@.len());
        assert(deps_placed_before(g, ord, kstar));
        assert forall|j: int| 0 <= j < g.nodes@[i].deps@.len() implies placed.contains(
            #[trigger] g.nodes@[i].deps@[j],
        ) by {
            let d = g.nodes@[i].deps@[j];
            assert(ord.take(kstar).contains(d));
            let t = choose|t: int| 0 <= t < ord.take(kstar).len() && ord.take(kstar)[t] == d;
            assert(ord[t] == d);
            assert(placed.contains(ord[t]));
        }
        assert(ready(g, placed, i));
        assert(false);
    }
}

proof fn lemma_greedy_prefixes_equal(g: LockGraph, a: Seq<usize>, b: Seq<usize>, k: int)
    requires
        is_greedy_order(g, a),
        is_greedy_order(g, b),
        a.len() == b.len(),
        0 <= k <= a.len(),
    ensures
        a.take(k) == b.take(k),
    decreases k,
{
    if k == 0 {
        assert(a.take(0) =~= b.take(0));
    } else {
        lemma_greedy_prefixes_equal(g, a, b, k - 1);
        assert(min_ready(g, a.take(k - 1), a[k - 1] as int));
        assert(min_ready(g, b.take(k - 1), b[k - 1] as int));
        if (a[k - 1] as int) < (b[k - 1] as int) {
            assert(!ready(g, b.take(k - 1), a[k - 1] as int));
            assert(false);
        }
        if (b[k - 1] as int) < (a[k - 1] as int) {
            assert(!ready(g, a.take(k - 1), b[k - 1] as int));
            assert(false);
        }
        assert forall|t: int| 0 <= t < k implies a.take(k)[t] == b.take(k)[t] by {
            if t < k - 1 {
                assert(a.take(k - 1)[t] == b.take(k - 1)[t]);
            }
        }
        assert(a.take(k) =~= b.take(k));
    }
}

/// Determinism of resolution: a graph has at most one greedy
/// dependency-respecting order, so for a fixed lock graph the resolved
/// order is stable across runs.
pub proof fn lemma_order_deterministic(g: LockGraph, a: Seq<usize>, b: Seq<usize>)
    requires
        is_deploy_order(g, a),
        is_greedy_order(g, a),
        is_deploy_order(g, b),
        is_greedy_order(g, b),
    ensures
        a == b,
{
    lemma_greedy_prefixes_equal(g, a, b, a.len() as int);
    assert(a.take(a.len() as int) =~= a);
    assert(b.take(b.len() as int) =~= b);
}

/// The greedy dependency-respecting order of the whole graph.
///
/// Returns the unique greedy deployment order of the graph's nodes, or
/// reports that the lock data admits no such order (an edge that points
/// outside the graph, or a dependency cycle).
pub fn topo_order(g: &LockGraph) -> (r: Result<Vec<usize>, DeployError>)
    ensures
        match r {
            Ok(ord) => is_deploy_order(*g, ord@) && is_greedy_order(*g, ord@),
            Err(e) => {
                &&& e == DeployError::DependencyResolution
                &&& !exists|ord: Seq<usize>| #[trigger] is_deploy_order(*g, ord)
            },
        },
{
    let n: usize = g.nodes.len();
    let mut order: Vec<usize> = Vec::new();
    while order.len() < n
        invariant
            n == g.nodes@.len(),
            order@.len() <= n,
            order@.no_duplicates(),
            is_greedy_order(*g, order@),
        decreases n - order.len(),
    {
        match find_min_ready(g, &order) {
            Some(i) => {
                proof {
                    lemma_push_no_duplicates(order@, i);
                    lemma_greedy_push(*g, order@, i);
                }
                order.push(i);
            },
            None => {
                proof {
                    lemma_stuck_no_order(*g, order@);
                }
                return Err(DeployError::DependencyResolution);
            },
        }
    }
    proof {
        lemma_greedy_is_deploy_order(*g, order@);
    }
    Ok(order)
}

/// The resolved units correspond position by position to the order `ord`
/// over the graph's nodes, with the root program appended last.
pub open spec fn units_match(
    g: LockGraph,
    ord: Seq<usize>,
    units: Seq<DeploymentUnit>,
    root_name: Seq<char>,
    root_path: Seq<char>,
) -> bool {
    &&& units.len() == ord.len() + 1
    &&& (forall|k: int|
        0 <= k < ord.len() ==> (#[trigger] units[k]).name@ == g.nodes@[ord[k] as int].name@
            && units[k].path@ == g.nodes@[ord[k] as int].path@)
    &&& units[ord.len() as int].name@ == root_name
    &&& units[ord.len() as int].path@ == root_path
}

/// Resolve the ordered deployment sequence.
///
/// With `recursive` off the sequence is exactly the root program.  With
/// `recursive` on it is the greedy dependency-respecting order of every
/// locked local dependency — each dependency strictly before every node that
/// depends on it — followed by the root program last.  Fails only when the
/// lock data admits no dependency-respecting order.
pub fn resolve(graph: &LockGraph, root_name: String, root_path: String, recursive: bool) -> (r:
    Result<Vec<DeploymentUnit>, DeployError>)
    ensures
        match r {
            Ok(units) => {
                &&& units@.len() >= 1
                &&& units@.last().name@ == root_name@
                &&& units@.last().path@ == root_path@
                &&& (!recursive ==> units@.len() == 1)
                &&& (recursive ==> exists|ord: Seq<usize>|
                    #[trigger] is_deploy_order(*graph, ord) && is_greedy_order(*graph, ord)
                        && units_match(*graph, ord, units@, root_name@, root_path@))
            },
            Err(e) => {
                &&& e == DeployError::DependencyResolution
                &&& recursive
                &&& !exists|ord: Seq<usize>| #[trigger] is_deploy_order(*graph, ord)
            },
        },
{
    let mut units: Vec<DeploymentUnit> = Vec::new();
    if recursive {
        let ord = match topo_order(graph) {
            Ok(o) => o,
            Err(e) => {
                return Err(e);
            },
        };
        let mut k: usize = 0;
        while k < ord.len()
            invariant
                k <= ord@.len(),
                is_deploy_order(*graph, ord@),
                units@.len() == k,
                forall|t: int|
                    0 <= t < k ==> (#[trigger] units@[t]).name@ == graph.nodes@[ord@[t] as int].name@
                        && units@[t].path@ == graph.nodes@[ord@[t] as int].path@,
            decreases ord@.len() - k,
        {
            let i: usize = ord[k];
            let name = String::from_str(graph.nodes[i].name.as_str());
            let path = String::from_str(graph.nodes[i].path.as_str());
            units.push(DeploymentUnit { name, path });
            k += 1;
        }
        units.push(DeploymentUnit { name: root_name, path: root_path });
        assert(units_match(*graph, ord@, units@, root_name@, root_path@));
        Ok(units)
    } else {
        units.push(DeploymentUnit { name: root_name, path: root_path });
        Ok(units)
    }
}

} // verus!
