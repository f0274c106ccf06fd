//! The topology as an undirected `petgraph` graph, and the layer-2 loop check
//! built on it.
use petgraph::graph::{Graph, NodeIndex, UnGraph};
use vstd::prelude::*;
use vstd::string::*;

use crate::design_check::{finding_views, Finding, FindingView, Severity};
use crate::seqs::{lemma_filter_take_step, lemma_take_all};
use crate::topology::{views, Device, DeviceRole, Link, Topology};

verus! {

broadcast use vstd::seq_lib::group_seq_properties;

/// `petgraph::graph::Graph`.
#[verifier::external_type_specification]
#[verifier::external_body]
#[verifier::reject_recursive_types(N)]
#[verifier::reject_recursive_types(E)]
#[verifier::reject_recursive_types(Ty)]
#[verifier::reject_recursive_types(Ix)]
pub struct ExGraph<N, E, Ty, Ix>(Graph<N, E, Ty, Ix>);

/// `petgraph::Undirected`, the edge-type marker of undirected graphs.
#[verifier::external_type_specification]
#[verifier::external_body]
pub struct ExUndirected(petgraph::Undirected);

/// The node weights of a graph, by node index.
pub uninterp spec fn graph_nodes(g: UnGraph<String, ()>) -> Seq<Seq<char>>;

/// The edges of a graph as (source index, target index), by edge index.
pub uninterp spec fn graph_edges(g: UnGraph<String, ()>) -> Seq<(int, int)>;

/// The answer of `petgraph::algo::is_cyclic_undirected` for a graph with the
/// given number of nodes and edge list.
pub uninterp spec fn undirected_cycle(node_count: nat, edges: Seq<(int, int)>) -> bool;

/// The largest node or edge count a graph with 32-bit indices can reach.
pub open spec fn index_limit() -> nat {
    0xffff_ffff
}

/// `Graph::new_undirected`: a graph with no nodes and no edges.
#[verifier::external_body]
fn graph_new() -> (g: UnGraph<String, ()>)
    ensures
        graph_nodes(g) == Seq::<Seq<char>>::empty(),
        graph_edges(g) == Seq::<(int, int)>::empty(),
{
    Graph::new_undirected()
}

/// `Graph::add_node`: appends a node and returns its index. It panics at the
/// 32-bit index limit, which `requires` rules out.
#[verifier::external_body]
fn graph_add_node(g: &mut UnGraph<String, ()>, weight: String) -> (ix: usize)
    requires
        graph_nodes(*old(g)).len() < index_limit(),
    ensures
        graph_nodes(*final(g)) == graph_nodes(*old(g)).push(weight@),
        graph_edges(*final(g)) == graph_edges(*old(g)),
        ix == graph_nodes(*old(g)).len(),
{
    g.add_node(weight).index()
}

/// `Graph::add_edge`: appends an edge between two existing nodes. It panics on
/// unknown nodes and at the 32-bit index limit, which `requires` rules out.
#[verifier::external_body]
fn graph_add_edge(g: &mut UnGraph<String, ()>, a: usize, b: usize)
    requires
        a < graph_nodes(*old(g)).len(),
        b < graph_nodes(*old(g)).len(),
        graph_edges(*old(g)).len() < index_limit(),
    ensures
        graph_nodes(*final(g)) == graph_nodes(*old(g)),
        graph_edges(*final(g)) == graph_edges(*old(g)).push((a as int, b as int)),
{
    g.add_edge(NodeIndex::new(a), NodeIndex::new(b), ());
}

/// `petgraph::algo::is_cyclic_undirected`.
#[verifier::external_body]
pub(crate) fn graph_is_cyclic(g: &UnGraph<String, ()>) -> (r: bool)
    ensures
        r == undirected_cycle(graph_nodes(*g).len(), graph_edges(*g)),
{
    petgraph::algo::is_cyclic_undirected(g)
}

/// Index of the last device carrying `id` (the one a map keyed by id keeps).
pub open spec fn last_id_index(ds: Seq<Device>, id: Seq<char>) -> Option<int>
    decreases ds.len(),
{
    if ds.len() == 0 {
        None
    } else if ds.last().id@ == id {
        Some(ds.len() - 1)
    } else {
        last_id_index(ds.drop_last(), id)
    }
}

proof fn lemma_last_id_index_bound(ds: Seq<Device>, id: Seq<char>)
    ensures
        last_id_index(ds, id) matches Some(i) ==> 0 <= i < ds.len(),
    decreases ds.len(),
{
    if ds.len() > 0 && ds.last().id@ != id {
        lemma_last_id_index_bound(ds.drop_last(), id);
    }
}

/// The graph edge for a link whose two ends name known devices.
pub open spec fn link_edge(ds: Seq<Device>) -> spec_fn(Link) -> Option<(int, int)> {
    |l: Link|
        match (last_id_index(ds, l.from@), last_id_index(ds, l.to@)) {
            (Some(a), Some(b)) => Some((a, b)),
            _ => None,
        }
}

/// Edges of the topology graph: one per link between known devices, in link order.
pub open spec fn topology_edges(t: Topology) -> Seq<(int, int)> {
    t.links@.filter_map(link_edge(t.devices@))
}

/// Node weights of the topology graph: the device ids in order.
pub open spec fn topology_nodes(t: Topology) -> Seq<Seq<char>> {
    t.devices@.map_values(|d: Device| d.id@)
}

/// The index a map from id to node would give for `id`.
fn node_index_of(ds: &Vec<Device>, id: &String) -> (r: Option<usize>)
    ensures
        match r {
            Some(i) => last_id_index(ds@, id@) == Some(i as int) && i < ds@.len(),
            None => last_id_index(ds@, id@) is None,
        },
{
    let mut i: usize = ds.len();
    assert(ds@.take(ds@.len() as int) =~= ds@);
    while i > 0
        invariant
            i <= ds@.len(),
            last_id_index(ds@, id@) == last_id_index(ds@.take(i as int), id@),
        decreases i,
    {
        assert(ds@.take(i as int).drop_last() =~= ds@.take(i - 1));
        assert(ds@.take(i as int).last() == ds@[i - 1]);
        if ds[i - 1].id == *id {
            return Some(i - 1);
        }
        i = i - 1;
    }
    assert(ds@.take(0) =~= Seq::<Device>::empty());
    None
}

impl Topology {
    /// The undirected graph of the topology: one node per device, weighted by
    /// its id, and one edge per link whose two ends are known devices (a
    /// repeated id stands for its last device).
    pub fn build_graph(&self) -> (g: UnGraph<String, ()>)
        requires
            self.devices@.len() < index_limit(),
            self.links@.len() < index_limit(),
        ensures
            graph_nodes(g) == topology_nodes(*self),
            graph_edges(g) == topology_edges(*self),
    {
        let mut g = graph_new();
        let mut i: usize = 0;
        while i < self.devices.len()
            invariant
                i <= self.devices@.len() < index_limit(),
                graph_nodes(g) == self.devices@.take(i as int).map_values(|d: Device| d.id@),
                graph_edges(g) == Seq::<(int, int)>::empty(),
            decreases self.devices@.len() - i,
        {
            graph_add_node(&mut g, self.devices[i].id.clone());
            assert(self.devices@.take(i + 1).map_values(|d: Device| d.id@) =~= self.devices@.take(
                i as int,
            ).map_values(|d: Device| d.id@).push(self.devices@[i as int].id@));
            i = i + 1;
        }
        proof {
            lemma_take_all(self.devices@);
        }
        let ghost f = link_edge(self.devices@);
        let mut j: usize = 0;
        while j < self.links.len()
            invariant
                j <= self.links@.len() < index_limit(),
                f == link_edge(self.devices@),
                graph_nodes(g) == topology_nodes(*self),
                graph_edges(g) == self.links@.take(j as int).filter_map(f),
                graph_edges(g).len() <= j,
            decreases self.links@.len() - j,
        {
            proof {
                self.links@.lemma_filter_map_take_succ(f, j as int);
            }
            let l = &self.links[j];
            match (node_index_of(&self.devices, &l.from), node_index_of(&self.devices, &l.to)) {
                (Some(a), Some(b)) => {
                    graph_add_edge(&mut g, a, b);
                },
                _ => {},
            }
            j = j + 1;
        }
        proof {
            lemma_take_all(self.links@);
        }
        g
    }
}

} // verus!
