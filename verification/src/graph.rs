//! A node store with sequential id allocation and directed links.
//!
//! Nodes are created under ids handed out by a counter, so every stored
//! node's id is below the counter and ids never collide. Links are kept
//! on the source node; the target id is recorded as given, without an
//! existence check.

use vstd::prelude::*;

use crate::error::ContractError;

verus! {

/// A stored node: its id, its payload and its outgoing links.
#[derive(Clone, Debug, PartialEq)]
pub struct Node {
    pub id: u64,
    pub data: String,
    pub links: Vec<u64>,
}

/// The answer to a node query.
#[derive(Clone, Debug, PartialEq)]
pub struct NodeResponse {
    pub id: u64,
    pub data: String,
    pub links: Vec<u64>,
}

/// The message that creates an empty node store.
#[derive(Clone, Debug, PartialEq)]
pub struct InstantiateMsg {}

/// A state-mutating call on the node store.
#[derive(Clone, Debug, PartialEq)]
pub enum ExecuteMsg {
    CreateNode { data: String },
    UpdateNode { node_id: u64, data: String },
    CreateLink { from_node_id: u64, to_node_id: u64 },
}

/// A read-only call on the node store.
#[derive(Clone, Debug, PartialEq)]
pub enum QueryMsg {
    GetNode { node_id: u64 },
}

/// The node store: the next id to hand out, and the stored nodes.
#[derive(Clone, Debug, PartialEq)]
pub struct GraphState {
    pub next_node_id: u64,
    pub nodes: Vec<Node>,
}

/// Whether the store holds a node with the given id.
pub open spec fn has_node(s: Seq<Node>, id: u64) -> bool {
    exists|i: int| 0 <= i < s.len() && s[i].id == id
}

/// The index of the node with the given id; meaningful when `has_node`
/// holds.
pub open spec fn node_index(s: Seq<Node>, id: u64) -> int {
    choose|i: int| 0 <= i < s.len() && s[i].id == id
}

impl GraphState {
    /// The store invariant: every stored id is below the allocation
    /// counter, and ids are pairwise distinct.
    pub open spec fn wf(self) -> bool {
        &&& forall|i: int| 0 <= i < self.nodes@.len() ==> self.nodes@[i].id < self.next_node_id
        &&& forall|i: int, j: int|
            0 <= i < j < self.nodes@.len() ==> self.nodes@[i].id != self.nodes@[j].id
    }
}

proof fn lemma_node_index_of(s: Seq<Node>, id: u64, i: int)
    requires
        forall|a: int, b: int| 0 <= a < b < s.len() ==> s[a].id != s[b].id,
        0 <= i < s.len(),
        s[i].id == id,
    ensures
        has_node(s, id),
        node_index(s, id) == i,
{
    assert(has_node(s, id));
    let j = node_index(s, id);
    assert(0 <= j < s.len() && s[j].id == id);
    if i < j {
        assert(s[i].id != s[j].id);
    } else if j < i {
        assert(s[j].id != s[i].id);
    }
}

/// The index of the node with the given id, when one exists.
fn find_node(nodes: &Vec<Node>, id: u64) -> (r: Option<usize>)
    ensures
        (match r {
            Some(i) => i < nodes@.len() && nodes@[i as int].id == id,
            None => !has_node(nodes@, id),
        }),
{
    let n: usize = nodes.len();
    let mut i: usize = 0;
    while i < n
        invariant
            i <= n,
            n == nodes@.len(),
            forall|k: int| 0 <= k < i ==> nodes@[k].id != id,
        decreases n - i,
    {
        if nodes[i].id == id {
            return Some(i);
        }
        i = i + 1;
    }
    None
}

/// Creates an empty node store with the id counter at zero.
pub fn instantiate(msg: InstantiateMsg) -> (s: GraphState)
    ensures
        s.wf(),
        s.next_node_id == 0,
        s.nodes@.len() == 0,
{
    let _ = msg;
    GraphState { next_node_id: 0, nodes: Vec::new() }
}

/// Stores a new node under the next free id, with no links, and
/// advances the counter. Returns the id the node was stored under.
pub fn create_node(state: &mut GraphState, data: String) -> (r: u64)
    requires
        old(state).wf(),
        old(state).next_node_id < u64::MAX,
    ensures
        final(state).wf(),
        r == old(state).next_node_id,
        final(state).next_node_id == old(state).next_node_id + 1,
        final(state).nodes@ == old(state).nodes@.push(final(state).nodes@.last()),
        final(state).nodes@.last().id == old(state).next_node_id,
        final(state).nodes@.last().data == data,
        final(state).nodes@.last().links@ == Seq::<u64>::empty(),
        has_node(final(state).nodes@, r),
{
    let node_id: u64 = state.next_node_id;
    let new_node = Node { id: node_id, data, links: Vec::new() };
    state.nodes.push(new_node);
    state.next_node_id = node_id + 1;
    proof {
        let nodes = state.nodes@;
        assert(nodes[nodes.len() - 1].id == node_id);
        assert(has_node(nodes, node_id));
    }
    node_id
}

/// Overwrites the payload of an existing node; its id and links are
/// untouched, as is every other node.
pub fn update_node(state: &mut GraphState, node_id: u64, data: String) -> (r: Result<
    (),
    ContractError,
>)
    requires
        old(state).wf(),
    ensures
        final(state).wf(),
        final(state).next_node_id == old(state).next_node_id,
        (match r {
            Err(e) => e == ContractError::NodeNotFound && !has_node(old(state).nodes@, node_id)
                && final(state).nodes@ == old(state).nodes@,
            Ok(_) => {
                let i = node_index(old(state).nodes@, node_id);
                &&& has_node(old(state).nodes@, node_id)
                &&& final(state).nodes@ == old(state).nodes@.update(i, final(state).nodes@[i])
                &&& final(state).nodes@[i].id == old(state).nodes@[i].id
                &&& final(state).nodes@[i].data == data
                &&& final(state).nodes@[i].links == old(state).nodes@[i].links
            },
        }),
{
    match find_node(&state.nodes, node_id) {
        None => Err(ContractError::NodeNotFound),
        Some(i) => {
            proof {
                lemma_node_index_of(state.nodes@, node_id, i as int);
            }
            let ghost pre = state.nodes@;
            state.nodes[i].data = data;
            proof {
                assert(state.nodes@ =~= pre.update(i as int, state.nodes@[i as int]));
            }
            Ok(())
        },
    }
}

/// Appends `to_node_id` to the links of the node `from_node_id`. The
/// source node must exist; the target id is recorded as given, without
/// an existence check.
pub fn create_link(state: &mut GraphState, from_node_id: u64, to_node_id: u64) -> (r: Result<
    (),
    ContractError,
>)
    requires
        old(state).wf(),
    ensures
        final(state).wf(),
        final(state).next_node_id == old(state).next_node_id,
        (match r {
            Err(e) => e == ContractError::NodeNotFound && !has_node(
                old(state).nodes@,
                from_node_id,
            ) && final(state).nodes@ == old(state).nodes@,
            Ok(_) => {
                let i = node_index(old(state).nodes@, from_node_id);
                &&& has_node(old(state).nodes@, from_node_id)
                &&& final(state).nodes@ == old(state).nodes@.update(i, final(state).nodes@[i])
                &&& final(state).nodes@[i].id == old(state).nodes@[i].id
                &&& final(state).nodes@[i].data == old(state).nodes@[i].data
                &&& final(state).nodes@[i].links@ == old(state).nodes@[i].links@.push(to_node_id)
            },
        }),
{
    match find_node(&state.nodes, from_node_id) {
        None => Err(ContractError::NodeNotFound),
        Some(i) => {
            proof {
                lemma_node_index_of(state.nodes@, from_node_id, i as int);
            }
            let ghost pre = state.nodes@;
            state.nodes[i].links.push(to_node_id);
            proof {
                assert(state.nodes@ =~= pre.update(i as int, state.nodes@[i as int]));
            }
            Ok(())
        },
    }
}

/// Reads a node back, when it exists.
pub fn query_node(state: &GraphState, node_id: u64) -> (r: Result<NodeResponse, ContractError>)
    requires
        state.wf(),
    ensures
        (match r {
            Err(e) => e == ContractError::NodeNotFound && !has_node(state.nodes@, node_id),
            Ok(resp) => {
                let i = node_index(state.nodes@, node_id);
                &&& has_node(state.nodes@, node_id)
                &&& resp.id == node_id
                &&& resp.data@ == state.nodes@[i].data@
                &&& resp.links@ == state.nodes@[i].links@
            },
        }),
{
    match find_node(&state.nodes, node_id) {
        None => Err(ContractError::NodeNotFound),
        Some(i) => {
            proof {
                assert(has_node(state.nodes@, node_id));
            }
            let node = &state.nodes[i];
            let resp = NodeResponse {
                id: node.id,
                data: node.data.clone(),
                links: clone_links(&node.links),
            };
            proof {
                let j = node_index(state.nodes@, node_id);
                assert(0 <= j < state.nodes@.len() && state.nodes@[j].id == node_id);
                if i < j {
                    assert(state.nodes@[i as int].id != state.nodes@[j].id);
                } else if j < i as int {
                    assert(state.nodes@[j].id != state.nodes@[i as int].id);
                }
            }
            Ok(resp)
        },
    }
}

/// A copy of a link list with the same contents.
fn clone_links(links: &Vec<u64>) -> (r: Vec<u64>)
    ensures
        r@ == links@,
{
    let n: usize = links.len();
    let mut out: Vec<u64> = Vec::new();
    let mut i: usize = 0;
    while i < n
        invariant
            i <= n,
            n == links@.len(),
            out@.len() == i,
            forall|k: int| 0 <= k < i ==> out@[k] == links@[k],
        decreases n - i,
    {
        out.push(links[i]);
        i = i + 1;
    }
    proof {
        assert(out@ =~= links@);
    }
    out
}

} // verus!
