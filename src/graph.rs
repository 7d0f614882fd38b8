use vstd::prelude::*;
use vstd::string::*;

use crate::actions::{is_package_op, Actions};
use crate::manifest::Manifest;
use crate::text::str_eq;

verus! {

/// petgraph's adjacency-list graph, held opaque; its contents are known through
/// `graph_node_count` and `graph_edges`.
#[verifier::external_type_specification]
#[verifier::external_body]
#[verifier::reject_recursive_types(N)]
#[verifier::reject_recursive_types(E)]
#[verifier::reject_recursive_types(Ty)]
#[verifier::reject_recursive_types(Ix)]
pub struct ExGraph<N, E, Ty, Ix>(petgraph::graph::Graph<N, E, Ty, Ix>);

/// petgraph's marker for directed graphs.
#[verifier::external_type_specification]
#[verifier::external_body]
pub struct ExDirected(petgraph::Directed);

/// How many nodes the graph holds; nodes are numbered from zero in the order they were added.
pub uninterp spec fn graph_node_count(g: petgraph::graph::Graph<(), (), petgraph::Directed, usize>) -> nat;

/// The edges of the graph, as (source, target) node numbers, in the order they were added.
pub uninterp spec fn graph_edges(g: petgraph::graph::Graph<(), (), petgraph::Directed, usize>) -> Seq<(int, int)>;

/// Relies on Graph::with_capacity: a graph with no nodes and no edges.
#[verifier::external_body]
fn empty_graph() -> (r: petgraph::graph::Graph<(), (), petgraph::Directed, usize>)
    ensures
        graph_node_count(r) == 0,
        graph_edges(r) == Seq::<(int, int)>::empty(),
{
    petgraph::graph::Graph::with_capacity(0, 0)
}

/// Relies on Graph::add_node: the new node's number is the previous node count
/// (with `usize` indices there is no maximum to reach).
#[verifier::external_body]
fn add_graph_node(g: &mut petgraph::graph::Graph<(), (), petgraph::Directed, usize>) -> (r: usize)
    ensures
        r == graph_node_count(*old(g)),
        graph_node_count(*final(g)) == graph_node_count(*old(g)) + 1,
        graph_edges(*final(g)) == graph_edges(*old(g)),
{
    g.add_node(()).index()
}

/// Relies on Graph::add_edge: appends the edge; it panics when a node does not exist.
#[verifier::external_body]
fn add_graph_edge(g: &mut petgraph::graph::Graph<(), (), petgraph::Directed, usize>, a: usize, b: usize)
    requires
        a < graph_node_count(*old(g)),
        b < graph_node_count(*old(g)),
    ensures
        graph_node_count(*final(g)) == graph_node_count(*old(g)),
        graph_edges(*final(g)) == graph_edges(*old(g)).push((a as int, b as int)),
{
    g.add_edge(petgraph::graph::NodeIndex::new(a), petgraph::graph::NodeIndex::new(b), ());
}

/// A walk along edges: at least one node, each consecutive pair an edge.
pub open spec fn is_path(edges: Seq<(int, int)>, p: Seq<int>) -> bool {
    p.len() >= 1 && forall|i: int| 0 <= i < p.len() - 1 ==> #[trigger] path_step(edges, p, i)
}

/// The walk `p` goes from its node `i` to its node `i + 1` along an edge.
pub open spec fn path_step(edges: Seq<(int, int)>, p: Seq<int>, i: int) -> bool {
    edges.contains((p[i], p[i + 1]))
}

/// `b` can be reached from `a` along edges; every node reaches itself.
pub open spec fn reachable(edges: Seq<(int, int)>, a: int, b: int) -> bool {
    exists|p: Seq<int>| is_path(edges, p) && p[0] == a && p.last() == b
}

/// Some walk of one edge or more comes back to where it started.
pub open spec fn has_cycle(edges: Seq<(int, int)>) -> bool {
    exists|p: Seq<int>| is_path(edges, p) && p.len() >= 2 && p[0] == p.last()
}

/// `order` lists each of the `n` nodes once, and every edge's source before its target.
pub open spec fn is_topological(order: Seq<usize>, n: nat, edges: Seq<(int, int)>) -> bool {
    &&& order.len() == n
    &&& forall|i: int| 0 <= i < order.len() ==> #[trigger] order[i] < n
    &&& forall|v: usize| v < n ==> #[trigger] order.contains(v)
    &&& forall|i: int, j: int| 0 <= i < order.len() && 0 <= j < order.len() && i != j ==> order[i] != order[j]
    &&& forall|k: int, i: int, j: int|
        #![trigger edges[k], order[i], order[j]]
        0 <= k < edges.len() && 0 <= i < order.len() && 0 <= j < order.len() && order[i] == edges[k].0
            && order[j] == edges[k].1 ==> i < j
}

/// Relies on petgraph::algo::toposort: on an acyclic graph, every node once,
/// each before its successors; on a graph with a cycle (a self loop included), an error.
#[verifier::external_body]
fn topological_sort(g: &petgraph::graph::Graph<(), (), petgraph::Directed, usize>) -> (r: Option<Vec<usize>>)
    ensures
        r matches Some(order) ==> is_topological(order@, graph_node_count(*g), graph_edges(*g)),
        r is None ==> has_cycle(graph_edges(*g)),
{
    petgraph::algo::toposort(g, None).ok().map(|v| v.into_iter().map(|n| n.index()).collect())
}

/// Relies on petgraph::algo::has_path_connecting: whether `to` can be reached from
/// `from` (a node reaches itself); it panics on a node that does not exist.
#[verifier::external_body]
fn path_connects(g: &petgraph::graph::Graph<(), (), petgraph::Directed, usize>, from: usize, to: usize) -> (r: bool)
    requires
        from < graph_node_count(*g),
        to < graph_node_count(*g),
    ensures
        r == reachable(graph_edges(*g), from as int, to as int),
{
    petgraph::algo::has_path_connecting(g, petgraph::graph::NodeIndex::new(from), petgraph::graph::NodeIndex::new(to), None)
}

/// The position of the last `.` in `s`, if there is one.
pub open spec fn last_dot(s: Seq<char>) -> Option<int>
    decreases s.len(),
{
    if s.len() == 0 {
        None
    } else if s.last() == '.' {
        Some(s.len() - 1)
    } else {
        last_dot(s.drop_last())
    }
}

/// Everything before the last `.` of a dotted name; the whole name where it has no dot.
pub open spec fn dotted_prefix(name: Seq<char>) -> Seq<char> {
    match last_dot(name) {
        Some(i) => name.subrange(0, i),
        None => name,
    }
}

/// A dependency that starts with `./` names a sibling: the `./` stands for the
/// dotted prefix of the depending manifest and a dot. Other names are kept.
pub open spec fn resolve_dependency(name: Seq<char>, dep: Seq<char>) -> Seq<char> {
    if dep.len() >= 2 && dep[0] == '.' && dep[1] == '/' {
        dotted_prefix(name) + "."@ + dep.subrange(2, dep.len() as int)
    } else {
        dep
    }
}

/// Resolves a dependency name written in the manifest called `manifest_name`.
pub fn resolve_dependency_name(manifest_name: &str, dependency: &str) -> (r: String)
    ensures
        r@ == resolve_dependency(manifest_name@, dependency@),
{
    let d = dependency.unicode_len();
    if !(d >= 2 && dependency.get_char(0) == '.' && dependency.get_char(1) == '/') {
        return dependency.to_string();
    }
    let n = manifest_name.unicode_len();
    let mut last: Option<usize> = None;
    let mut i: usize = 0;
    while i < n
        invariant
            n == manifest_name@.len(),
            i <= n,
            last matches Some(k) ==> k < i,
            last_dot(manifest_name@.subrange(0, i as int)) == match last {
                Some(k) => Some(k as int),
                None => None::<int>,
            },
        decreases n - i,
    {
        assert(manifest_name@.subrange(0, i + 1).drop_last() =~= manifest_name@.subrange(0, i as int));
        if manifest_name.get_char(i) == '.' {
            last = Some(i);
        }
        i = i + 1;
    }
    assert(manifest_name@.subrange(0, n as int) =~= manifest_name@);
    let mut s = match last {
        Some(k) => manifest_name.substring_char(0, k).to_string(),
        None => manifest_name.to_string(),
    };
    s.append(".");
    s.append(dependency.substring_char(2, d));
    s
}

/// The manifest is called `name`.
pub open spec fn named(m: Manifest, name: Seq<char>) -> bool {
    m.name matches Some(s) && s@ == name
}

/// `j` is the first of the manifests called `name`.
pub open spec fn first_named(ms: Seq<Manifest>, j: int, name: Seq<char>) -> bool {
    0 <= j < ms.len() && named(ms[j], name) && forall|k: int| 0 <= k < j ==> !named(#[trigger] ms[k], name)
}

/// The position of the first manifest called `name`.
pub fn find_manifest(manifests: &Vec<Manifest>, name: &str) -> (r: Option<usize>)
    ensures
        r matches Some(j) ==> first_named(manifests@, j as int, name@),
        r is None ==> forall|k: int| 0 <= k < manifests@.len() ==> !named(#[trigger] manifests@[k], name@),
{
    let mut i: usize = 0;
    while i < manifests.len()
        invariant
            i <= manifests@.len(),
            forall|k: int| 0 <= k < i ==> !named(#[trigger] manifests@[k], name@),
        decreases manifests@.len() - i,
    {
        let hit = match &manifests[i].name {
            Some(s) => str_eq(s.as_str(), name),
            None => false,
        };
        if hit {
            return Some(i);
        }
        i = i + 1;
    }
    None
}

/// The name a manifest's dependencies are resolved against; empty for an unnamed one.
pub open spec fn name_of(m: Manifest) -> Seq<char> {
    match m.name {
        Some(s) => s@,
        None => Seq::empty(),
    }
}

/// The manifest holds an action on the package database.
pub open spec fn has_package_op(m: Manifest) -> bool {
    exists|k: int| 0 <= k < m.actions@.len() && is_package_op(#[trigger] m.actions@[k])
}

/// Whether the manifest holds an action on the package database.
pub fn manifest_has_package_op(m: &Manifest) -> (r: bool)
    ensures
        r == has_package_op(*m),
{
    let mut k: usize = 0;
    while k < m.actions.len()
        invariant
            k <= m.actions@.len(),
            forall|j: int| 0 <= j < k ==> !is_package_op(#[trigger] m.actions@[j]),
        decreases m.actions@.len() - k,
    {
        if m.actions[k].is_package_op() {
            return true;
        }
        k = k + 1;
    }
    false
}

/// The action runs as the superuser: a privileged command, or any package operation.
pub open spec fn needs_elevation(a: Actions) -> bool {
    match a {
        Actions::CommandRun(c) => c.action.privileged,
        Actions::PackageInstall(_) => true,
        Actions::PackageRepository(_) => true,
        _ => false,
    }
}

/// Whether any action of the manifests runs as the superuser, so that a password
/// is asked for once, before anything runs.
pub fn should_ask_for_password(manifests: &Vec<Manifest>) -> (r: bool)
    ensures
        r == exists|i: int, k: int|
            0 <= i < manifests@.len() && 0 <= k < manifests@[i].actions@.len() && needs_elevation(
                #[trigger] manifests@[i].actions@[k],
            ),
{
    let mut i: usize = 0;
    while i < manifests.len()
        invariant
            i <= manifests@.len(),
            forall|a: int, k: int|
                0 <= a < i && 0 <= k < manifests@[a].actions@.len() ==> !needs_elevation(
                    #[trigger] manifests@[a].actions@[k],
                ),
        decreases manifests@.len() - i,
    {
        let acts = &manifests[i].actions;
        let mut k: usize = 0;
        while k < acts.len()
            invariant
                i < manifests@.len(),
                *acts == manifests@[i as int].actions,
                k <= acts@.len(),
                forall|a: int, k: int|
                    0 <= a < i && 0 <= k < manifests@[a].actions@.len() ==> !needs_elevation(
                        #[trigger] manifests@[a].actions@[k],
                    ),
                forall|j: int| 0 <= j < k ==> !needs_elevation(#[trigger] acts@[j]),
            decreases acts@.len() - k,
        {
            let elevated = match &acts[k] {
                Actions::CommandRun(c) => c.action.privileged,
                Actions::PackageInstall(_) => true,
                Actions::PackageRepository(_) => true,
                _ => false,
            };
            if elevated {
                return true;
            }
            k = k + 1;
        }
        i = i + 1;
    }
    false
}

proof fn lemma_push_contains(s: Seq<(int, int)>, x: (int, int))
    ensures
        forall|e: (int, int)| s.contains(e) ==> #[trigger] s.push(x).contains(e),
        s.push(x).contains(x),
{
    assert(s.push(x)[s.len() as int] == x);
    assert forall|e: (int, int)| s.contains(e) implies #[trigger] s.push(x).contains(e) by {
        let i = choose|i: int| 0 <= i < s.len() && s[i] == e;
        assert(s.push(x)[i] == e);
    }
}

/// Why the graph cannot be run.
#[derive(Clone, Copy, Debug, PartialEq, Eq, Structural)]
pub enum GraphError {
    /// The dependencies go round in a circle.
    CycleDetected,
    /// No manifest has the name asked for.
    UnknownManifest,
}

/// Manifests as nodes of a directed graph, with an edge from each manifest to
/// each of its dependencies. Node 0 is a synthetic root with an edge to every
/// manifest; node `i + 1` is `manifests[i]`.
pub struct DependencyGraph {
    pub graph: petgraph::graph::Graph<(), (), petgraph::Directed, usize>,
    pub manifests: Vec<Manifest>,
    /// Every node once, each before the nodes it has edges to.
    pub order: Vec<usize>,
    /// Dependency names that named no manifest; their edges were left out.
    pub unresolved: Vec<String>,
}

/// Every edge joins existing nodes, and none leads back to the root.
pub open spec fn edges_well_shaped(edges: Seq<(int, int)>, count: nat) -> bool {
    forall|k: int| 0 <= k < edges.len() ==> 0 <= #[trigger] edges[k].0 < count && 1 <= edges[k].1 < count
}

/// The edges that construction puts in, given the manifests.
pub open spec fn construction_edges(ms: Seq<Manifest>, edges: Seq<(int, int)>) -> bool {
    // the root reaches every manifest
    &&& forall|i: int| 0 <= i < ms.len() ==> #[trigger] edges.contains((0, i + 1))
    // each resolved dependency
    &&& forall|i: int, d: int, j: int|
        0 <= i < ms.len() && 0 <= d < ms[i].depends@.len() && first_named(
            ms,
            j,
            resolve_dependency(name_of(ms[i]), #[trigger] ms[i].depends@[d]@),
        ) ==> #[trigger] edges.contains((i + 1, j + 1))
    // each package operation after the previous one, in the order of the manifests
    &&& forall|p: int, q: int|
        0 <= p < q < ms.len() && has_package_op(#[trigger] ms[p]) && has_package_op(#[trigger] ms[q])
            && (forall|m: int| p < m < q ==> !has_package_op(#[trigger] ms[m])) ==> edges.contains(
            (p + 1, q + 1),
        )
}

/// Manifest `i` depends, by its dependency `d`, on manifest `j`.
pub open spec fn dependency_edge(ms: Seq<Manifest>, i: int, d: int, j: int) -> bool {
    0 <= i < ms.len() && 0 <= d < ms[i].depends@.len() && first_named(
        ms,
        j,
        resolve_dependency(name_of(ms[i]), ms[i].depends@[d]@),
    )
}

/// Manifests `p` and `q` touch the package database and none between them does.
pub open spec fn chain_edge(ms: Seq<Manifest>, p: int, q: int) -> bool {
    0 <= p < q < ms.len() && has_package_op(ms[p]) && has_package_op(ms[q]) && forall|m: int|
        p < m < q ==> !has_package_op(#[trigger] ms[m])
}

/// The edge is one that construction puts in: from the root to a manifest, from
/// a manifest to a dependency, or along the chain of package operations.
pub open spec fn edge_allowed(ms: Seq<Manifest>, e: (int, int)) -> bool {
    ||| (e.0 == 0 && 1 <= e.1 <= ms.len())
    ||| exists|i: int, d: int, j: int| #[trigger] dependency_edge(ms, i, d, j) && e == (i + 1, j + 1)
    ||| exists|p: int, q: int| #[trigger] chain_edge(ms, p, q) && e == (p + 1, q + 1)
}

/// Every edge is one that construction puts in.
pub open spec fn only_construction_edges(ms: Seq<Manifest>, edges: Seq<(int, int)>) -> bool {
    forall|k: int| 0 <= k < edges.len() ==> #[trigger] edge_allowed(ms, edges[k])
}

/// No two manifests share a name.
pub open spec fn names_unique(ms: Seq<Manifest>) -> bool {
    forall|i: int, j: int|
        0 <= i < ms.len() && 0 <= j < ms.len() && i != j && (#[trigger] ms[i].name) is Some
            ==> ms[i].name != #[trigger] ms[j].name
}

/// The edges that construction puts in form a cycle.
pub open spec fn builds_cycle(ms: Seq<Manifest>) -> bool {
    exists|es: Seq<(int, int)>|
        construction_edges(ms, es) && only_construction_edges(ms, es) && #[trigger] has_cycle(es)
}

impl DependencyGraph {
    /// The graph is built over its manifests, and `order` is a topological order of it.
    pub open spec fn wf(&self) -> bool {
        &&& self.manifests@.len() < usize::MAX
        &&& names_unique(self.manifests@)
        &&& graph_node_count(self.graph) == self.manifests@.len() + 1
        &&& is_topological(self.order@, graph_node_count(self.graph), graph_edges(self.graph))
        &&& construction_edges(self.manifests@, graph_edges(self.graph))
        &&& edges_well_shaped(graph_edges(self.graph), graph_node_count(self.graph))
        &&& only_construction_edges(self.manifests@, graph_edges(self.graph))
    }
}

impl DependencyGraph {
    /// Builds the graph: the root, one node per manifest with an edge from the
    /// root, an edge for each dependency that resolves (the others are recorded
    /// in `unresolved`), and a chain of edges through the manifests that touch
    /// the package database, so that no two of them can overlap. Fails when the
    /// edges form a cycle.
    pub fn new(manifests: Vec<Manifest>) -> (r: Result<DependencyGraph, GraphError>)
        requires
            manifests@.len() < usize::MAX,
            names_unique(manifests@),
        ensures
            r is Ok <==> !builds_cycle(manifests@),
            r matches Ok(g) ==> g.wf() && g.manifests@ == manifests@ && forall|u: int, k: int|
                0 <= u < g.unresolved@.len() && 0 <= k < manifests@.len() ==> !named(
                    #[trigger] manifests@[k],
                    #[trigger] g.unresolved@[u]@,
                ),
            r matches Err(e) ==> e == GraphError::CycleDetected,
    {
        let mut g = empty_graph();
        let root = add_graph_node(&mut g);
        let n = manifests.len();
        let mut i: usize = 0;
        while i < n
            invariant
                n == manifests@.len(),
                n < usize::MAX,
                root == 0,
                i <= n,
                graph_node_count(g) == i + 1,
                edges_well_shaped(graph_edges(g), graph_node_count(g)),
                only_construction_edges(manifests@, graph_edges(g)),
                forall|k: int| 0 <= k < i ==> #[trigger] graph_edges(g).contains((0, k + 1)),
            decreases n - i,
        {
            let node = add_graph_node(&mut g);
            let ghost before = graph_edges(g);
            add_graph_edge(&mut g, root, node);
            proof {
                lemma_push_contains(before, (0, node as int));
                assert(edge_allowed(manifests@, (0, node as int)));
                assert forall|k: int| 0 <= k < graph_edges(g).len() implies #[trigger] edge_allowed(manifests@, graph_edges(g)[k]) by {
                    if k < before.len() {
                        assert(graph_edges(g)[k] == before[k]);
                    }
                }
            }
            i = i + 1;
        }
        let mut unresolved: Vec<String> = Vec::new();
        let mut i: usize = 0;
        while i < n
            invariant
                n == manifests@.len(),
                n < usize::MAX,
                i <= n,
                graph_node_count(g) == n + 1,
                edges_well_shaped(graph_edges(g), graph_node_count(g)),
                only_construction_edges(manifests@, graph_edges(g)),
                forall|u: int, k: int|
                    0 <= u < unresolved@.len() && 0 <= k < n ==> !named(#[trigger] manifests@[k], #[trigger] unresolved@[u]@),
                forall|k: int| 0 <= k < n ==> #[trigger] graph_edges(g).contains((0, k + 1)),
                forall|a: int, d: int, j: int|
                    0 <= a < i && 0 <= d < manifests@[a].depends@.len() && first_named(
                        manifests@,
                        j,
                        resolve_dependency(name_of(manifests@[a]), #[trigger] manifests@[a].depends@[d]@),
                    ) ==> #[trigger] graph_edges(g).contains((a + 1, j + 1)),
            decreases n - i,
        {
            let m = &manifests[i];
            let name = match &m.name {
                Some(s) => s.clone(),
                None => String::new(),
            };
            assert(name@ == name_of(manifests@[i as int]));
            let mut d: usize = 0;
            while d < m.depends.len()
                invariant
                    n == manifests@.len(),
                    n < usize::MAX,
                    i < n,
                    *m == manifests@[i as int],
                    name@ == name_of(manifests@[i as int]),
                    d <= m.depends@.len(),
                    graph_node_count(g) == n + 1,
                    forall|u: int, k: int|
                        0 <= u < unresolved@.len() && 0 <= k < n ==> !named(#[trigger] manifests@[k], #[trigger] unresolved@[u]@),
                    edges_well_shaped(graph_edges(g), graph_node_count(g)),
                    only_construction_edges(manifests@, graph_edges(g)),
                    forall|k: int| 0 <= k < n ==> #[trigger] graph_edges(g).contains((0, k + 1)),
                    forall|a: int, e: int, j: int|
                        0 <= a < i && 0 <= e < manifests@[a].depends@.len() && first_named(
                            manifests@,
                            j,
                            resolve_dependency(name_of(manifests@[a]), #[trigger] manifests@[a].depends@[e]@),
                        ) ==> #[trigger] graph_edges(g).contains((a + 1, j + 1)),
                    forall|e: int, j: int|
                        0 <= e < d && first_named(
                            manifests@,
                            j,
                            resolve_dependency(name_of(manifests@[i as int]), #[trigger] manifests@[i as int].depends@[e]@),
                        ) ==> #[trigger] graph_edges(g).contains((i + 1, j + 1)),
                decreases m.depends@.len() - d,
            {
                let resolved = resolve_dependency_name(name.as_str(), m.depends[d].as_str());
                match find_manifest(&manifests, resolved.as_str()) {
                    Some(j) => {
                        let ghost before = graph_edges(g);
                        add_graph_edge(&mut g, i + 1, j + 1);
                        proof {
                            lemma_push_contains(before, ((i + 1) as int, (j + 1) as int));
                            assert(dependency_edge(manifests@, i as int, d as int, j as int));
                            assert(edge_allowed(manifests@, ((i + 1) as int, (j + 1) as int)));
                            assert forall|k: int| 0 <= k < graph_edges(g).len() implies #[trigger] edge_allowed(manifests@, graph_edges(g)[k]) by {
                                if k < before.len() {
                                    assert(graph_edges(g)[k] == before[k]);
                                }
                            }
                            assert forall|j2: int|
                                first_named(
                                    manifests@,
                                    j2,
                                    resolve_dependency(name_of(manifests@[i as int]), manifests@[i as int].depends@[d as int]@),
                                ) implies graph_edges(g).contains((i + 1, j2 + 1)) by {
                                if j2 < j {
                                    assert(!named(manifests@[j2], resolved@));
                                }
                                if j < j2 {
                                    assert(!named(manifests@[j as int], resolved@));
                                }
                            }
                        }
                    },
                    None => {
                        let ghost before = unresolved@;
                        unresolved.push(resolved);
                        proof {
                            assert forall|u: int, k: int|
                                0 <= u < unresolved@.len() && 0 <= k < n implies !named(
                                    #[trigger] manifests@[k],
                                    #[trigger] unresolved@[u]@,
                                ) by {
                                if u < before.len() {
                                    assert(unresolved@[u] == before[u]);
                                }
                            }
                        }
                    },
                }
                d = d + 1;
            }
            i = i + 1;
        }
        let mut last: Option<usize> = None;
        let mut i: usize = 0;
        while i < n
            invariant
                n == manifests@.len(),
                n < usize::MAX,
                i <= n,
                graph_node_count(g) == n + 1,
                edges_well_shaped(graph_edges(g), graph_node_count(g)),
                only_construction_edges(manifests@, graph_edges(g)),
                forall|u: int, k: int|
                    0 <= u < unresolved@.len() && 0 <= k < n ==> !named(#[trigger] manifests@[k], #[trigger] unresolved@[u]@),
                last matches Some(p) ==> p < i && has_package_op(manifests@[p as int])
                    && forall|m: int| p < m < i ==> !has_package_op(#[trigger] manifests@[m]),
                last is None ==> forall|m: int| 0 <= m < i ==> !has_package_op(#[trigger] manifests@[m]),
                forall|k: int| 0 <= k < n ==> #[trigger] graph_edges(g).contains((0, k + 1)),
                forall|a: int, e: int, j: int|
                    0 <= a < n && 0 <= e < manifests@[a].depends@.len() && first_named(
                        manifests@,
                        j,
                        resolve_dependency(name_of(manifests@[a]), #[trigger] manifests@[a].depends@[e]@),
                    ) ==> #[trigger] graph_edges(g).contains((a + 1, j + 1)),
                forall|p: int, q: int|
                    0 <= p < q < i && has_package_op(#[trigger] manifests@[p]) && has_package_op(
                        #[trigger] manifests@[q],
                    ) && (forall|m: int| p < m < q ==> !has_package_op(#[trigger] manifests@[m]))
                        ==> graph_edges(g).contains((p + 1, q + 1)),
            decreases n - i,
        {
            if manifest_has_package_op(&manifests[i]) {
                if let Some(p) = last {
                    let ghost before = graph_edges(g);
                    add_graph_edge(&mut g, p + 1, i + 1);
                    proof {
                        lemma_push_contains(before, ((p + 1) as int, (i + 1) as int));
                        assert(chain_edge(manifests@, p as int, i as int));
                        assert forall|k: int| 0 <= k < graph_edges(g).len() implies 0 <= #[trigger] graph_edges(g)[k].0
                            < graph_node_count(g) && 1 <= graph_edges(g)[k].1 < graph_node_count(g) by {
                            if k < before.len() {
                                assert(graph_edges(g)[k] == before[k]);
                            }
                        }
                        assert(edge_allowed(manifests@, ((p + 1) as int, (i + 1) as int)));
                        assert forall|k: int| 0 <= k < graph_edges(g).len() implies #[trigger] edge_allowed(manifests@, graph_edges(g)[k]) by {
                            if k < before.len() {
                                assert(graph_edges(g)[k] == before[k]);
                            }
                        }
                        assert forall|p2: int, q: int|
                            0 <= p2 < q < i + 1 && has_package_op(#[trigger] manifests@[p2]) && has_package_op(
                                #[trigger] manifests@[q],
                            ) && (forall|m: int| p2 < m < q ==> !has_package_op(#[trigger] manifests@[m]))
                                implies graph_edges(g).contains((p2 + 1, q + 1)) by {
                            if q == i {
                                if p2 < p {
                                    assert(!has_package_op(manifests@[p as int]));
                                }
                                if p < p2 {
                                    assert(!has_package_op(manifests@[p2]));
                                }
                            }
                        }
                    }
                } else {
                    proof {
                        assert forall|p2: int, q: int|
                            0 <= p2 < q < i + 1 && has_package_op(#[trigger] manifests@[p2]) && has_package_op(
                                #[trigger] manifests@[q],
                            ) && (forall|m: int| p2 < m < q ==> !has_package_op(#[trigger] manifests@[m]))
                                implies graph_edges(g).contains((p2 + 1, q + 1)) by {
                            if q == i {
                                assert(!has_package_op(manifests@[p2]));
                            }
                        }
                    }
                }
                last = Some(i);
            } else {
                proof {
                    assert forall|p2: int, q: int|
                        0 <= p2 < q < i + 1 && has_package_op(#[trigger] manifests@[p2]) && has_package_op(
                            #[trigger] manifests@[q],
                        ) && (forall|m: int| p2 < m < q ==> !has_package_op(#[trigger] manifests@[m]))
                            implies graph_edges(g).contains((p2 + 1, q + 1)) by {
                        if q == i {
                            assert(false);
                        }
                    }
                }
            }
            i = i + 1;
        }
        match topological_sort(&g) {
            Some(order) => {
                proof {
                    if builds_cycle(manifests@) {
                        let es = choose|es: Seq<(int, int)>|
                            construction_edges(manifests@, es) && only_construction_edges(manifests@, es)
                                && #[trigger] has_cycle(es);
                        lemma_cycle_carries_over(manifests@, es, graph_edges(g));
                        lemma_topological_acyclic(order@, graph_node_count(g), graph_edges(g));
                    }
                }
                Ok(DependencyGraph { graph: g, manifests, order, unresolved })
            },
            None => {
                assert(has_cycle(graph_edges(g)));
                assert(builds_cycle(manifests@));
                Err(GraphError::CycleDetected)
            },
        }
    }
}

/// `run` lists manifests (by position) in an order fit to run from `start`: exactly
/// those whose nodes `start` reaches, each once, and for every edge between two
/// of them the dependency (the edge's target) before the dependent.
pub open spec fn is_run_order(run: Seq<usize>, count: nat, edges: Seq<(int, int)>, start: int) -> bool {
    &&& forall|i: int| 0 <= i < run.len() ==> #[trigger] run[i] + 1 < count && reachable(edges, start, run[i] + 1)
    &&& forall|m: usize| m + 1 < count && reachable(edges, start, m + 1) ==> #[trigger] run.contains(m)
    &&& forall|i: int, j: int| 0 <= i < run.len() && 0 <= j < run.len() && i != j ==> run[i] != run[j]
    &&& forall|k: int, i: int, j: int|
        #![trigger edges[k], run[i], run[j]]
        0 <= k < edges.len() && 0 <= i < run.len() && 0 <= j < run.len() && edges[k] == (
            run[i] + 1,
            run[j] + 1,
        ) ==> j < i
}

impl DependencyGraph {
    /// `s` is the node a run from `start` begins at: the root for everything, else
    /// the first manifest of that name.
    pub open spec fn is_start(&self, start: Option<&str>, s: int) -> bool {
        &&& 0 <= s < graph_node_count(self.graph)
        &&& start is None ==> s == 0
        &&& start matches Some(name) ==> s >= 1 && first_named(self.manifests@, s - 1, name@)
    }

    /// `run` is a run order of the graph from `start`.
    pub open spec fn runs_from(&self, start: Option<&str>, run: Seq<usize>) -> bool {
        exists|s: int|
            self.is_start(start, s) && #[trigger] is_run_order(run, graph_node_count(self.graph), graph_edges(self.graph), s)
    }

    /// The node a run starts from: the root for everything, else the named manifest.
    pub fn start_node(&self, start: Option<&str>) -> (r: Result<usize, GraphError>)
        requires
            self.wf(),
        ensures
            r matches Ok(n) ==> n < graph_node_count(self.graph) && (start is None ==> n == 0) && (
            start matches Some(s) ==> first_named(self.manifests@, n - 1, s@) && n >= 1),
            r matches Err(e) ==> e == GraphError::UnknownManifest && (start matches Some(s)
                && forall|k: int| 0 <= k < self.manifests@.len() ==> !named(#[trigger] self.manifests@[k], s@)),
    {
        match start {
            None => Ok(0),
            Some(s) => match find_manifest(&self.manifests, s) {
                Some(j) => Ok(j + 1),
                None => Err(GraphError::UnknownManifest),
            },
        }
    }

    /// The manifests to run from `start` (everything where it is `None`), by
    /// position, dependencies first.
    pub fn run_order(&self, start: Option<&str>) -> (r: Result<Vec<usize>, GraphError>)
        requires
            self.wf(),
        ensures
            r matches Ok(run) ==> self.runs_from(start, run@),
            r matches Err(e) ==> e == GraphError::UnknownManifest && (start matches Some(name)
                && forall|k: int| 0 <= k < self.manifests@.len() ==> !named(#[trigger] self.manifests@[k], name@)),
    {
        let from = match self.start_node(start) {
            Ok(n) => n,
            Err(e) => return Err(e),
        };
        let ghost count = graph_node_count(self.graph);
        let ghost edges = graph_edges(self.graph);
        let ghost order = self.order@;
        let mut run: Vec<usize> = Vec::new();
        let ghost mut pos: Seq<int> = Seq::empty();
        let mut k: usize = self.order.len();
        while k > 0
            invariant
                self.wf(),
                count == graph_node_count(self.graph),
                edges == graph_edges(self.graph),
                order == self.order@,
                from < count,
                start is None ==> from == 0,
                start matches Some(name) ==> from >= 1 && first_named(self.manifests@, from - 1, name@),
                k <= order.len(),
                pos.len() == run@.len(),
                forall|i: int| 0 <= i < run@.len() ==> k <= #[trigger] pos[i] < order.len(),
                forall|i: int| 0 <= i < run@.len() ==> order[#[trigger] pos[i]] == run@[i] + 1,
                forall|i: int, j: int| 0 <= i < j < run@.len() ==> #[trigger] pos[i] > #[trigger] pos[j],
                forall|i: int| 0 <= i < run@.len() ==> #[trigger] run@[i] + 1 < count && reachable(edges, from as int, run@[i] + 1),
                forall|q: int|
                    #![trigger order[q]]
                    k <= q < order.len() && order[q] != 0 && reachable(edges, from as int, order[q] as int)
                        ==> run@.contains((order[q] - 1) as usize),
            decreases k,
        {
            let node = self.order[k - 1];
            if node != 0 && path_connects(&self.graph, from, node) {
                let ghost before = run@;
                run.push(node - 1);
                proof {
                    pos = pos.push(k - 1);
                    assert forall|q: int|
                        #![trigger order[q]]
                        k - 1 <= q < order.len() && order[q] != 0 && reachable(edges, from as int, order[q] as int)
                        implies run@.contains((order[q] - 1) as usize) by {
                        if q == k - 1 {
                            assert(run@[run@.len() - 1] == node - 1);
                        } else {
                            assert(before.contains((order[q] - 1) as usize));
                            let w = choose|w: int| 0 <= w < before.len() && before[w] == (order[q] - 1) as usize;
                            assert(run@[w] == before[w]);
                        }
                    }
                }
            } else {
                proof {
                    assert forall|q: int|
                        #![trigger order[q]]
                        k - 1 <= q < order.len() && order[q] != 0 && reachable(edges, from as int, order[q] as int)
                        implies run@.contains((order[q] - 1) as usize) by {
                        if q == k - 1 {
                            assert(false);
                        }
                    }
                }
            }
            k = k - 1;
        }
        proof {
            assert forall|m: usize| m + 1 < count && reachable(edges, from as int, m + 1)
                implies #[trigger] run@.contains(m) by {
                assert(order.contains((m + 1) as usize));
                let q = choose|q: int| 0 <= q < order.len() && order[q] == (m + 1) as usize;
                assert(order[q] != 0);
            }
            assert forall|i: int, j: int| 0 <= i < run@.len() && 0 <= j < run@.len() && i != j
                implies run@[i] != run@[j] by {
                if i < j {
                    assert(pos[i] > pos[j]);
                } else {
                    assert(pos[j] > pos[i]);
                }
            }
            assert forall|e: int, i: int, j: int|
                #![trigger edges[e], run@[i], run@[j]]
                0 <= e < edges.len() && 0 <= i < run@.len() && 0 <= j < run@.len() && edges[e] == (
                    run@[i] + 1,
                    run@[j] + 1,
                ) implies j < i by {
                assert(order[pos[i]] == edges[e].0);
                assert(order[pos[j]] == edges[e].1);
                assert(pos[i] < pos[j]);
                if i < j {
                    assert(pos[i] > pos[j]);
                }
            }
            assert(is_run_order(run@, count, edges, from as int));
            assert(self.is_start(start, from as int));
        }
        Ok(run)
    }
}

/// An edge allowed by construction is in any edge list that construction built.
proof fn lemma_allowed_edge_present(ms: Seq<Manifest>, edges: Seq<(int, int)>, e: (int, int))
    requires
        construction_edges(ms, edges),
        edge_allowed(ms, e),
    ensures
        edges.contains(e),
{
    if e.0 == 0 && 1 <= e.1 <= ms.len() {
        let i = e.1 - 1;
        assert(edges.contains((0, i + 1)));
    } else if exists|i: int, d: int, j: int| #[trigger] dependency_edge(ms, i, d, j) && e == (i + 1, j + 1) {
        let (i, d, j) = choose|i: int, d: int, j: int| #[trigger] dependency_edge(ms, i, d, j) && e == (i + 1, j + 1);
        let dep = ms[i].depends@[d]@;
        assert(first_named(ms, j, resolve_dependency(name_of(ms[i]), dep)));
        assert(edges.contains((i + 1, j + 1)));
    } else {
        let (p, q) = choose|p: int, q: int| #[trigger] chain_edge(ms, p, q) && e == (p + 1, q + 1);
        assert(has_package_op(ms[p]) && has_package_op(ms[q]));
        assert(edges.contains((p + 1, q + 1)));
    }
}

/// A cycle among edges that construction allows is a cycle of any graph that construction built.
proof fn lemma_cycle_carries_over(ms: Seq<Manifest>, es: Seq<(int, int)>, edges: Seq<(int, int)>)
    requires
        only_construction_edges(ms, es),
        construction_edges(ms, edges),
        has_cycle(es),
    ensures
        has_cycle(edges),
{
    let p = choose|p: Seq<int>| is_path(es, p) && p.len() >= 2 && p[0] == p.last();
    assert forall|i: int| 0 <= i < p.len() - 1 implies #[trigger] path_step(edges, p, i) by {
        assert(path_step(es, p, i));
        let k = choose|k: int| 0 <= k < es.len() && es[k] == (p[i], p[i + 1]);
        assert(edge_allowed(ms, es[k]));
        lemma_allowed_edge_present(ms, edges, es[k]);
    }
    assert(is_path(edges, p));
}

/// Along a walk of one edge or more, a topological order puts the first node before the last.
proof fn lemma_path_ascends(order: Seq<usize>, n: nat, edges: Seq<(int, int)>, p: Seq<int>, a: int, b: int)
    requires
        is_topological(order, n, edges),
        edges_well_shaped(edges, n),
        n <= usize::MAX,
        is_path(edges, p),
        p.len() >= 2,
        0 <= a < order.len(),
        0 <= b < order.len(),
        order[a] == p[0],
        order[b] == p.last(),
    ensures
        a < b,
    decreases p.len(),
{
    assert(path_step(edges, p, 0));
    let k = choose|k: int| 0 <= k < edges.len() && edges[k] == (p[0], p[1]);
    assert(0 <= edges[k].0 < n && 1 <= edges[k].1 < n);
    let m = p[1] as usize;
    assert(order.contains(m));
    let c = choose|c: int| 0 <= c < order.len() && order[c] == m;
    assert(order[a] == edges[k].0 && order[c] == edges[k].1);
    assert(a < c);
    if p.len() == 2 {
        if c != b {
            assert(order[c] == order[b]);
        }
    } else {
        let rest = p.drop_first();
        assert forall|t: int| 0 <= t < rest.len() - 1 implies #[trigger] path_step(edges, rest, t) by {
            assert(path_step(edges, p, t + 1));
            assert(rest[t] == p[t + 1] && rest[t + 1] == p[t + 2]);
        }
        lemma_path_ascends(order, n, edges, rest, c, b);
    }
}

/// A graph with a topological order has no cycle.
proof fn lemma_topological_acyclic(order: Seq<usize>, n: nat, edges: Seq<(int, int)>)
    requires
        is_topological(order, n, edges),
        edges_well_shaped(edges, n),
        n <= usize::MAX,
    ensures
        !has_cycle(edges),
{
    if has_cycle(edges) {
        let p = choose|p: Seq<int>| is_path(edges, p) && p.len() >= 2 && p[0] == p.last();
        assert(path_step(edges, p, 0));
        let k = choose|k: int| 0 <= k < edges.len() && edges[k] == (p[0], p[1]);
        assert(0 <= edges[k].0 < n);
        let v = p[0] as usize;
        assert(order.contains(v));
        let a = choose|a: int| 0 <= a < order.len() && order[a] == v;
        lemma_path_ascends(order, n, edges, p, a, a);
    }
}

proof fn lemma_reach_trans(edges: Seq<(int, int)>, a: int, b: int, c: int)
    requires
        reachable(edges, a, b),
        reachable(edges, b, c),
    ensures
        reachable(edges, a, c),
{
    let p1 = choose|p: Seq<int>| is_path(edges, p) && p[0] == a && p.last() == b;
    let p2 = choose|p: Seq<int>| is_path(edges, p) && p[0] == b && p.last() == c;
    let p = p1 + p2.drop_first();
    assert forall|i: int| 0 <= i < p.len() - 1 implies #[trigger] path_step(edges, p, i) by {
        if i < p1.len() - 1 {
            assert(path_step(edges, p1, i));
            assert(p[i] == p1[i] && p[i + 1] == p1[i + 1]);
        } else if i == p1.len() - 1 {
            assert(path_step(edges, p2, 0));
            assert(p[i] == p2[0] && p[i + 1] == p2[1]);
        } else {
            let k = i - p1.len() + 1;
            assert(path_step(edges, p2, k));
            assert(p[i] == p2[k] && p[i + 1] == p2[k + 1]);
        }
    }
    if p2.len() == 1 {
        assert(p.last() == p1.last());
    } else {
        assert(p.last() == p2.last());
    }
    assert(is_path(edges, p) && p[0] == a && p.last() == c);
}

proof fn lemma_edge_reach(edges: Seq<(int, int)>, a: int, b: int)
    requires
        edges.contains((a, b)),
    ensures
        reachable(edges, a, b),
{
    let p = seq![a, b];
    assert(path_step(edges, p, 0));
    assert(is_path(edges, p) && p[0] == a && p.last() == b);
}

/// The chain of package operations leads from each such manifest to every later one.
proof fn lemma_chain_reaches(ms: Seq<Manifest>, edges: Seq<(int, int)>, p: int, q: int)
    requires
        construction_edges(ms, edges),
        0 <= p < q < ms.len(),
        has_package_op(ms[p]),
        has_package_op(ms[q]),
    ensures
        reachable(edges, p + 1, q + 1),
    decreases q - p,
{
    if exists|m: int| p < m < q && has_package_op(#[trigger] ms[m]) {
        let m = choose|m: int| p < m < q && has_package_op(#[trigger] ms[m]);
        lemma_chain_reaches(ms, edges, p, m);
        lemma_chain_reaches(ms, edges, m, q);
        lemma_reach_trans(edges, p + 1, m + 1, q + 1);
    } else {
        assert(edges.contains((p + 1, q + 1)));
        lemma_edge_reach(edges, p + 1, q + 1);
    }
}

/// Along a path out of a manifest of the run, every node is a manifest of the run
/// that comes no later.
proof fn lemma_path_in_run(
    run: Seq<usize>,
    count: nat,
    edges: Seq<(int, int)>,
    s: int,
    path: Seq<int>,
    i: int,
)
    requires
        is_run_order(run, count, edges, s),
        edges_well_shaped(edges, count),
        count <= usize::MAX,
        is_path(edges, path),
        0 <= i < run.len(),
        run[i] + 1 == path[0],
    ensures
        exists|j: int| 0 <= j <= i && run[j] + 1 == path.last(),
    decreases path.len(),
{
    if path.len() == 1 {
        assert(run[i] + 1 == path.last());
    } else {
        let a = path[0];
        let b = path[1];
        assert(path_step(edges, path, 0));
        assert(edges.contains((a, b)));
        let k = choose|k: int| 0 <= k < edges.len() && edges[k] == (a, b);
        assert(0 <= edges[k].0 < count && 1 <= edges[k].1 < count);
        assert(reachable(edges, s, run[i] + 1));
        lemma_edge_reach(edges, a, b);
        lemma_reach_trans(edges, s, a, b);
        let m = (b - 1) as usize;
        assert(m + 1 < count && reachable(edges, s, m + 1));
        assert(run.contains(m));
        let i2 = choose|i2: int| 0 <= i2 < run.len() && run[i2] == m;
        assert(edges[k] == (run[i] + 1, run[i2] + 1));
        assert(i2 < i);
        let rest = path.drop_first();
        assert forall|t: int| 0 <= t < rest.len() - 1 implies #[trigger] path_step(edges, rest, t) by {
            assert(path_step(edges, path, t + 1));
            assert(rest[t] == path[t + 1] && rest[t + 1] == path[t + 2]);
        }
        lemma_path_in_run(run, count, edges, s, rest, i2);
        assert(rest.last() == path.last());
    }
}

/// Every edge between two manifests of a run has its target (the dependency)
/// come first: the dependency completes before the dependent begins.
pub proof fn dependencies_run_before_dependents(
    g: DependencyGraph,
    start: Option<&str>,
    run: Seq<usize>,
    i: int,
    j: int,
)
    requires
        g.wf(),
        g.runs_from(start, run),
        0 <= i < run.len(),
        0 <= j < run.len(),
        graph_edges(g.graph).contains((run[i] + 1, run[j] + 1)),
    ensures
        j < i,
{
    let s = choose|s: int|
        g.is_start(start, s) && #[trigger] is_run_order(run, graph_node_count(g.graph), graph_edges(g.graph), s);
    let edges = graph_edges(g.graph);
    let k = choose|k: int| 0 <= k < edges.len() && edges[k] == (run[i] + 1, run[j] + 1);
    assert(edges[k] == (run[i] + 1, run[j] + 1));
}

/// In a run order, a manifest that the graph leads to from another comes before it.
proof fn lemma_reach_orders_run(
    run: Seq<usize>,
    count: nat,
    edges: Seq<(int, int)>,
    s: int,
    i: int,
    j: int,
)
    requires
        is_run_order(run, count, edges, s),
        edges_well_shaped(edges, count),
        count <= usize::MAX,
        0 <= i < run.len(),
        0 <= j < run.len(),
        run[i] != run[j],
        reachable(edges, run[i] + 1, run[j] + 1),
    ensures
        j < i,
{
    let path = choose|p: Seq<int>| is_path(edges, p) && p[0] == run[i] + 1 && p.last() == run[j] + 1;
    lemma_path_in_run(run, count, edges, s, path, i);
    let j2 = choose|j2: int| 0 <= j2 <= i && run[j2] + 1 == path.last();
    assert(run[j2] == run[j]);
    if j2 != j {
        assert(run[j2] != run[j]);
    }
}

/// Two manifests that work on the package database never overlap: in any run
/// that holds both, the one later among the manifests runs first.
pub proof fn package_operations_are_serialized(
    g: DependencyGraph,
    start: Option<&str>,
    run: Seq<usize>,
    i: int,
    j: int,
)
    requires
        g.wf(),
        g.runs_from(start, run),
        0 <= i < run.len(),
        0 <= j < run.len(),
        run[i] < run[j],
        has_package_op(g.manifests@[run[i] as int]),
        has_package_op(g.manifests@[run[j] as int]),
    ensures
        j < i,
{
    let s = choose|s: int|
        g.is_start(start, s) && #[trigger] is_run_order(run, graph_node_count(g.graph), graph_edges(g.graph), s);
    assert(run[j] + 1 < graph_node_count(g.graph));
    lemma_chain_reaches(g.manifests@, graph_edges(g.graph), run[i] as int, run[j] as int);
    lemma_reach_orders_run(run, graph_node_count(g.graph), graph_edges(g.graph), s, i, j);
}

} // verus!