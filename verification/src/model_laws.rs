//! Which nodes make a document, and what is found in it.
use vstd::prelude::*;

use crate::model::{
    acyclic, distinct_ids, ranked, CompId, Composition, Document, DocumentError, Node, NodeId,
    Parent,
};

verus! {

/// Whether the node `j` hangs from the node `i`: by its parent, by where it stands, or by
/// the other's child list.
pub open spec fn hangs(nodes: Seq<Node>, i: int, j: int) -> bool {
    ||| nodes[j].parent == Some(nodes[i].id)
    ||| nodes[j].location is Some && nodes[j].location->0.parent == Parent::Node(nodes[i].id)
    ||| nodes[i].children@.contains(nodes[j].id)
}

/// Whether every node hangs from the one before it in the list of places.
pub open spec fn is_chain(nodes: Seq<Node>, path: Seq<int>) -> bool {
    &&& forall|k: int| 0 <= k < path.len() ==> 0 <= #[trigger] path[k] < nodes.len()
    &&& forall|k: int| 0 <= k < path.len() - 1 ==> hangs(nodes, #[trigger] path[k], path[k + 1])
}

/// Nodes with the same id make no document.
pub proof fn law_ids_are_distinct(
    nodes: Vec<Node>,
    comps: Vec<Composition>,
    main: CompId,
    i: int,
    j: int,
    r: Result<Document, DocumentError>,
)
    requires
        call_ensures(Document::new, (nodes, comps, main), r),
    ensures
        0 <= i < j < nodes@.len() && nodes@[i].id == nodes@[j].id ==> r
            == Err::<Document, DocumentError>(DocumentError::DuplicateNode),
        r == Err::<Document, DocumentError>(DocumentError::DuplicateNode) ==> exists|
            i: int,
            j: int,
        |
            0 <= i < j < nodes@.len() && (#[trigger] nodes@[i]).id == (#[trigger] nodes@[j]).id,
{
}

/// Nodes of which one hangs, over any number of others, from itself make no document.
pub proof fn law_nothing_hangs_from_itself(
    nodes: Vec<Node>,
    comps: Vec<Composition>,
    main: CompId,
    path: Seq<int>,
    r: Result<Document, DocumentError>,
)
    requires
        call_ensures(Document::new, (nodes, comps, main), r),
        is_chain(nodes@, path),
        path.len() >= 2,
        path[0] == path.last(),
    ensures
        r is Err,
{
    if acyclic(nodes@) {
        let rank = choose|rank: spec_fn(int) -> nat| #[trigger] ranked(nodes@, rank);
        lemma_rising_ranks(nodes@, rank, path, path.len() - 1);
    }
}

proof fn lemma_rising_ranks(
    nodes: Seq<Node>,
    rank: spec_fn(int) -> nat,
    path: Seq<int>,
    k: int,
)
    requires
        ranked(nodes, rank),
        is_chain(nodes, path),
        0 <= k < path.len(),
    ensures
        k > 0 ==> rank(path[0]) < rank(path[k]),
    decreases k,
{
    if k > 0 {
        lemma_rising_ranks(nodes, rank, path, k - 1);
        assert(hangs(nodes, path[k - 1], path[k]));
        assert(0 <= path[k] < nodes.len());
        assert(crate::model::precedes(nodes, path[k - 1], path[k]));
    }
}

/// Nodes with distinct ids that can be numbered so that whatever hangs from a node has a
/// higher number make a document.
pub proof fn law_ordered_nodes_make_a_document(
    nodes: Vec<Node>,
    comps: Vec<Composition>,
    main: CompId,
    rank: spec_fn(int) -> nat,
    r: Result<Document, DocumentError>,
)
    requires
        call_ensures(Document::new, (nodes, comps, main), r),
        forall|i: int, j: int|
            0 <= i < j < nodes@.len() ==> (#[trigger] nodes@[i]).id != (#[trigger] nodes@[j]).id,
        forall|i: int, j: int|
            0 <= i < nodes@.len() && 0 <= j < nodes@.len() && #[trigger] hangs(nodes@, i, j)
                ==> rank(i) < rank(j),
    ensures
        r is Ok,
{
    assert(distinct_ids(nodes@));
    assert forall|i: int, j: int|
        #![trigger crate::model::precedes(nodes@, i, j)]
        0 <= i < nodes@.len() && 0 <= j < nodes@.len() && crate::model::precedes(
            nodes@,
            i,
            j,
        ) implies rank(i) < rank(j) by {
        assert(hangs(nodes@, i, j));
    }
    assert(ranked(nodes@, rank));
}

/// A document holds just the nodes and compositions that it was made of, each found by
/// its own id.
pub proof fn law_documents_hold_what_they_were_made_of(
    nodes: Vec<Node>,
    comps: Vec<Composition>,
    main: CompId,
    doc: Document,
    id: NodeId,
    comp: CompId,
)
    requires
        call_ensures(Document::new, (nodes, comps, main), Ok::<Document, DocumentError>(doc)),
    ensures
        doc.wf(),
        forall|i: int|
            0 <= i < nodes@.len() ==> doc.nodes().contains_key((#[trigger] nodes@[i]).id)
                && doc.nodes()[nodes@[i].id] == nodes@[i],
        doc.nodes().contains_key(id) ==> exists|i: int|
            0 <= i < nodes@.len() && (#[trigger] nodes@[i]).id == id,
        forall|r: CompId| #[trigger] call_ensures(Document::main, (&doc,), r) ==> r == main,
        forall|r: &Vec<Composition>| #[trigger]
            call_ensures(Document::compositions, (&doc,), r) ==> r@ == comps@,
        forall|r: bool| #[trigger]
            call_ensures(Document::contains, (&doc, id), r) ==> (r <==> exists|i: int|
                0 <= i < nodes@.len() && (#[trigger] nodes@[i]).id == id),
        forall|r: Option<&Node>| #[trigger]
            call_ensures(Document::get, (&doc, id), r) ==> {
                &&& r matches Some(n) ==> n.id == id && *n == doc.nodes()[id]
                &&& r is None ==> forall|i: int|
                    0 <= i < nodes@.len() ==> (#[trigger] nodes@[i]).id != id
            },
        forall|r: Option<&Composition>| #[trigger]
            call_ensures(Document::composition, (&doc, comp), r) ==> (match r {
                Some(c) => doc.comp(comp) == Some(*c),
                None => doc.comp(comp) is None,
            }),
{
    if doc.has(id) {
        assert(exists|i: int| 0 <= i < nodes@.len() && (#[trigger] nodes@[i]).id == id);
    }
}

} // verus!
