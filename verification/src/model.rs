//! The document as the editor reads it: nodes, compositions and the walks over
//! the tree they form.
//!
//! Paints, path geometry and transforms are floating point and stay with the
//! host. Where a decision only carries such a value from one place to another,
//! the host gives it a number, and the number is carried.
use std::collections::HashMap;

use vstd::prelude::*;

verus! {

broadcast use vstd::std_specs::hash::group_hash_axioms;

/// A node's key in the host's arena.
pub type NodeId = u64;

/// A composition's key.
pub type CompId = u64;

/// The number of a value that the host keeps: a paint, a path, a property value.
pub type Handle = u64;

/// What a node hangs from.
#[derive(Clone, Copy, Debug, PartialEq, Eq, Structural)]
pub enum Parent {
    Comp(CompId),
    Node(NodeId),
}

#[derive(Clone, Copy, Debug, PartialEq, Eq, Structural)]
pub enum ShapeKind {
    Path,
    Rect,
    Ellipse,
    Star,
    Polygon,
    CompoundPath,
}

#[derive(Clone, Copy, Debug, PartialEq, Eq, Structural)]
pub enum StyleKind {
    Fill,
    Stroke,
}

#[derive(Clone, Copy, Debug, PartialEq, Eq, Structural)]
pub enum NodeKind {
    Shape(ShapeKind),
    Text,
    Style(StyleKind),
    Group,
    Layer,
    Precomp,
    Image,
    Other,
}

/// Where a node stands: its parent and its place among the siblings.
#[derive(Clone, Copy, Debug, PartialEq, Eq, Structural)]
pub struct Location {
    pub parent: Parent,
    pub index: usize,
}

/// One node. `parent` is the parent node, absent for a top-level node;
/// `location` is where the arena finds it, absent for a detached node;
/// `content` numbers the node's own value, without its parent and children.
pub struct Node {
    pub id: NodeId,
    pub name: String,
    pub kind: NodeKind,
    pub parent: Option<NodeId>,
    pub location: Option<Location>,
    pub children: Vec<NodeId>,
    pub locked: bool,
    pub visible: bool,
    pub content: Handle,
}

pub struct Composition {
    pub id: CompId,
    pub name: String,
    pub children: Vec<NodeId>,
    pub range: (i64, i64),
    pub size: (u32, u32),
}

#[derive(Clone, Copy, Debug, PartialEq, Eq, Structural)]
pub enum DocumentError {
    /// Two nodes share a key.
    DuplicateNode,
    /// Some node is its own ancestor.
    Cyclic,
}

/// Whether node `i` stands above node `j`, by a parent link, a location or a
/// child list.
pub open spec fn precedes(nodes: Seq<Node>, i: int, j: int) -> bool {
    ||| nodes[j].parent == Some(nodes[i].id)
    ||| nodes[j].location matches Some(at) && at.parent == Parent::Node(nodes[i].id)
    ||| nodes[i].children@.contains(nodes[j].id)
}

/// Whether some numbering puts every node above what hangs from it.
pub open spec fn acyclic(nodes: Seq<Node>) -> bool {
    exists|rank: spec_fn(int) -> nat| #[trigger] ranked(nodes, rank)
}

pub open spec fn ranked(nodes: Seq<Node>, rank: spec_fn(int) -> nat) -> bool {
    forall|i: int, j: int|
        #![trigger precedes(nodes, i, j)]
        0 <= i < nodes.len() && 0 <= j < nodes.len() && precedes(nodes, i, j) ==> rank(i) < rank(j)
}

pub open spec fn distinct_ids(nodes: Seq<Node>) -> bool {
    forall|i: int, j: int|
        0 <= i < j < nodes.len() ==> #[trigger] nodes[i].id != #[trigger] nodes[j].id
}

/// The first composition with the key `id`.
pub open spec fn find_comp(comps: Seq<Composition>, id: CompId) -> Option<Composition>
    decreases comps.len(),
{
    if comps.len() == 0 {
        None
    } else if comps[0].id == id {
        Some(comps[0])
    } else {
        find_comp(comps.drop_first(), id)
    }
}

/// The document tree. Every value of it is acyclic.
pub struct Document {
    nodes: HashMap<NodeId, Node>,
    compositions: Vec<Composition>,
    main: CompId,
    rank: Ghost<Map<NodeId, nat>>,
    bound: Ghost<nat>,
}

impl Document {
    pub closed spec fn nodes(&self) -> Map<NodeId, Node> {
        self.nodes@
    }

    pub closed spec fn comps(&self) -> Seq<Composition> {
        self.compositions@
    }

    pub closed spec fn main_id(&self) -> CompId {
        self.main
    }

    pub open spec fn has(&self, id: NodeId) -> bool {
        self.nodes().contains_key(id)
    }

    pub open spec fn node(&self, id: NodeId) -> Node {
        self.nodes()[id]
    }

    pub open spec fn comp(&self, id: CompId) -> Option<Composition> {
        find_comp(self.comps(), id)
    }

    /// How far below the top `id` stands; zero for a node that is not there.
    pub closed spec fn rank(&self, id: NodeId) -> nat {
        if self.has(id) {
            self.rank@[id] + 1
        } else {
            0
        }
    }

    /// How much can hang below `id`; zero for a node that is not there.
    pub closed spec fn height(&self, id: NodeId) -> nat {
        if self.has(id) {
            (self.bound@ - self.rank@[id]) as nat
        } else {
            0
        }
    }

    /// Keys are what the nodes say, and parent links, locations and child lists
    /// form no cycle.
    pub open spec fn wf(&self) -> bool {
        &&& forall|id: NodeId| self.has(id) ==> (#[trigger] self.node(id)).id == id
        &&& forall|id: NodeId|
            self.has(id) ==> {
                match (#[trigger] self.node(id)).parent {
                    Some(p) => self.rank(p) < self.rank(id),
                    None => true,
                }
            }
        &&& forall|id: NodeId|
            self.has(id) ==> {
                match (#[trigger] self.node(id)).location {
                    Some(Location { parent: Parent::Node(p), .. }) => self.rank(p) < self.rank(id),
                    _ => true,
                }
            }
        &&& forall|id: NodeId, i: int|
            self.has(id) && 0 <= i < self.node(id).children@.len() ==> self.height(
                #[trigger] self.node(id).children@[i],
            ) < self.height(id)
    }

    /// The document of the given nodes and compositions.
    pub fn new(nodes: Vec<Node>, compositions: Vec<Composition>, main: CompId) -> (r: Result<
        Document,
        DocumentError,
    >)
        ensures
            match r {
                Ok(d) => {
                    &&& d.wf()
                    &&& distinct_ids(nodes@)
                    &&& acyclic(nodes@)
                    &&& d.comps() == compositions@
                    &&& d.main_id() == main
                    &&& forall|i: int|
                        0 <= i < nodes@.len() ==> d.has(#[trigger] nodes@[i].id) && d.node(
                            nodes@[i].id,
                        ) == nodes@[i]
                    &&& forall|id: NodeId| #[trigger]
                        d.has(id) ==> exists|i: int|
                            0 <= i < nodes@.len() && (#[trigger] nodes@[i]).id == id
                },
                Err(DocumentError::DuplicateNode) => !distinct_ids(nodes@),
                Err(DocumentError::Cyclic) => distinct_ids(nodes@) && !acyclic(nodes@),
            },
    {
        if !ids_distinct(&nodes) {
            return Err(DocumentError::DuplicateNode);
        }
        let order = match rank_nodes(&nodes) {
            Some(order) => order,
            None => {
                return Err(DocumentError::Cyclic);
            },
        };
        let ghost source = nodes@;
        let ghost rank_of: Map<NodeId, nat> = Map::new(
            |id: NodeId| exists|i: int| 0 <= i < source.len() && (#[trigger] source[i]).id == id,
            |id: NodeId| order@[choose|i: int| 0 <= i < source.len() && (#[trigger] source[i]).id
                == id] as nat,
        );
        let mut rest = nodes;
        let mut map: HashMap<NodeId, Node> = HashMap::new();
        while rest.len() > 0
            invariant
                distinct_ids(source),
                rest@ == source.take(rest@.len() as int),
                rest@.len() <= source.len(),
                forall|i: int|
                    rest@.len() <= i < source.len() ==> map@.contains_key(
                        (#[trigger] source[i]).id,
                    ) && map@[source[i].id] == source[i],
                forall|id: NodeId| #[trigger]
                    map@.contains_key(id) ==> exists|i: int|
                        rest@.len() <= i < source.len() && (#[trigger] source[i]).id == id,
            decreases rest.len(),
        {
            let ghost before = map@;
            let ghost n = rest@.len() - 1;
            let node = rest.pop().unwrap();
            assert(node == source[n]);
            map.insert(node.id, node);
            assert(map@ == before.insert(source[n].id, source[n]));
            assert forall|i: int| rest@.len() <= i < source.len() implies map@.contains_key(
                (#[trigger] source[i]).id,
            ) && map@[source[i].id] == source[i] by {
                if i != n {
                    assert(source[n].id != source[i].id);
                }
            }
            assert forall|id: NodeId| #[trigger] map@.contains_key(id) implies exists|i: int|
                rest@.len() <= i < source.len() && (#[trigger] source[i]).id == id by {
                if before.contains_key(id) {
                    let i = choose|i: int|
                        n + 1 <= i < source.len() && (#[trigger] source[i]).id == id;
                    assert(source[i].id == id);
                } else {
                    assert(source[n].id == id);
                }
            }
            assert(rest@ =~= source.take(rest@.len() as int));
        }
        let d = Document {
            nodes: map,
            compositions,
            main,
            rank: Ghost(rank_of),
            bound: Ghost(source.len()),
        };
        proof {
            assert forall|i: int| 0 <= i < source.len() implies #[trigger] rank_of[source[i].id]
                == order@[i] by {
                assert(source[i].id == source[i].id);
                let k = choose|k: int|
                    0 <= k < source.len() && (#[trigger] source[k]).id == source[i].id;
                if k < i {
                    assert(source[k].id != source[i].id);
                } else if i < k {
                    assert(source[i].id != source[k].id);
                }
            }
            d.lemma_ranked(source, order@);
            let rank = |i: int| order@[i] as nat;
            assert(ranked(source, rank));
        }
        Ok(d)
    }

    proof fn lemma_ranked(&self, source: Seq<Node>, order: Seq<usize>)
        requires
            order.len() == source.len(),
            distinct_ids(source),
            forall|i: int| 0 <= i < source.len() ==> #[trigger] order[i] < source.len(),
            forall|i: int, j: int|
                #![trigger precedes(source, i, j)]
                0 <= i < source.len() && 0 <= j < source.len() && precedes(source, i, j)
                    ==> order[i] < order[j],
            self.bound@ == source.len(),
            forall|i: int|
                0 <= i < source.len() ==> self.has((#[trigger] source[i]).id) && self.node(
                    source[i].id,
                ) == source[i] && self.rank@[source[i].id] == order[i],
            forall|id: NodeId| #[trigger]
                self.has(id) ==> exists|i: int|
                    0 <= i < source.len() && (#[trigger] source[i]).id == id,
        ensures
            self.wf(),
    {
        assert forall|id: NodeId| self.has(id) implies {
            match (#[trigger] self.node(id)).parent {
                Some(p) => self.rank(p) < self.rank(id),
                None => true,
            }
        } by {
            let j = choose|j: int| 0 <= j < source.len() && (#[trigger] source[j]).id == id;
            if let Some(p) = self.node(id).parent {
                if self.has(p) {
                    let i = choose|i: int| 0 <= i < source.len() && (#[trigger] source[i]).id == p;
                    assert(precedes(source, i, j));
                }
            }
        }
        assert forall|id: NodeId| self.has(id) implies {
            match (#[trigger] self.node(id)).location {
                Some(Location { parent: Parent::Node(p), .. }) => self.rank(p) < self.rank(id),
                _ => true,
            }
        } by {
            let j = choose|j: int| 0 <= j < source.len() && (#[trigger] source[j]).id == id;
            if let Some(Location { parent: Parent::Node(p), .. }) = self.node(id).location {
                if self.has(p) {
                    let i = choose|i: int| 0 <= i < source.len() && (#[trigger] source[i]).id == p;
                    assert(precedes(source, i, j));
                }
            }
        }
        assert forall|id: NodeId, k: int|
            self.has(id) && 0 <= k < self.node(id).children@.len() implies self.height(
            #[trigger] self.node(id).children@[k],
        ) < self.height(id) by {
            let i = choose|i: int| 0 <= i < source.len() && (#[trigger] source[i]).id == id;
            let c = self.node(id).children@[k];
            if self.has(c) {
                let j = choose|j: int| 0 <= j < source.len() && (#[trigger] source[j]).id == c;
                assert(source[i].children@.contains(source[j].id));
                assert(precedes(source, i, j));
                assert(order[j] < source.len());
            } else {
                assert(order[i] < source.len());
            }
        }
        assert forall|id: NodeId| self.has(id) implies (#[trigger] self.node(id)).id == id by {
            let i = choose|i: int| 0 <= i < source.len() && (#[trigger] source[i]).id == id;
        }
    }

    pub fn get(&self, id: NodeId) -> (r: Option<&Node>)
        ensures
            match r {
                Some(n) => self.has(id) && *n == self.node(id),
                None => !self.has(id),
            },
    {
        self.nodes.get(&id)
    }

    pub fn contains(&self, id: NodeId) -> (r: bool)
        ensures
            r == self.has(id),
    {
        self.nodes.contains_key(&id)
    }

    pub fn main(&self) -> (r: CompId)
        ensures
            r == self.main_id(),
    {
        self.main
    }

    pub fn compositions(&self) -> (r: &Vec<Composition>)
        ensures
            r@ == self.comps(),
    {
        &self.compositions
    }

    /// The composition with the key `id`.
    pub fn composition(&self, id: CompId) -> (r: Option<&Composition>)
        ensures
            match r {
                Some(c) => self.comp(id) == Some(*c),
                None => self.comp(id) is None,
            },
    {
        let mut i: usize = 0;
        assert(self.compositions@.subrange(0, self.compositions@.len() as int)
            =~= self.compositions@);
        while i < self.compositions.len()
            invariant
                i <= self.compositions@.len(),
                self.comp(id) == find_comp(
                    self.compositions@.subrange(i as int, self.compositions@.len() as int),
                    id,
                ),
            decreases self.compositions.len() - i,
        {
            assert(self.compositions@.subrange(
                i as int,
                self.compositions@.len() as int,
            ).drop_first() =~= self.compositions@.subrange(
                i + 1,
                self.compositions@.len() as int,
            ));
            if self.compositions[i].id == id {
                return Some(&self.compositions[i]);
            }
            i = i + 1;
        }
        None
    }
}

/// Whether no two nodes share a key.
fn ids_distinct(nodes: &Vec<Node>) -> (r: bool)
    ensures
        r == distinct_ids(nodes@),
{
    let mut i: usize = 0;
    while i < nodes.len()
        invariant
            i <= nodes.len(),
            forall|a: int, b: int|
                0 <= a < b < i ==> (#[trigger] nodes@[a]).id != (#[trigger] nodes@[b]).id,
        decreases nodes.len() - i,
    {
        let mut j: usize = 0;
        while j < i
            invariant
                j <= i < nodes.len(),
                forall|a: int| 0 <= a < j ==> (#[trigger] nodes@[a]).id != nodes@[i as int].id,
            decreases i - j,
        {
            if nodes[j].id == nodes[i].id {
                assert(nodes@[j as int].id == nodes@[i as int].id);
                return false;
            }
            j = j + 1;
        }
        i = i + 1;
    }
    true
}

/// Whether every node above `j` already has a number.
fn ready(nodes: &Vec<Node>, numbered: &Vec<bool>, j: usize) -> (r: bool)
    requires
        numbered@.len() == nodes@.len(),
        j < nodes@.len(),
    ensures
        r == forall|i: int|
            #![trigger precedes(nodes@, i, j as int)]
            0 <= i < nodes@.len() && precedes(nodes@, i, j as int) ==> numbered@[i],
{
    let mut i: usize = 0;
    while i < nodes.len()
        invariant
            i <= nodes.len(),
            j < nodes@.len(),
            numbered@.len() == nodes@.len(),
            forall|k: int|
                #![trigger precedes(nodes@, k, j as int)]
                0 <= k < i && precedes(nodes@, k, j as int) ==> numbered@[k],
        decreases nodes.len() - i,
    {
        if !numbered[i] {
            let by_parent = match nodes[j].parent {
                Some(p) => p == nodes[i].id,
                None => false,
            };
            let by_location = match nodes[j].location {
                Some(at) => at.parent == Parent::Node(nodes[i].id),
                None => false,
            };
            let above = by_parent || by_location || crate::seqs::holds(
                &nodes[i].children,
                nodes[j].id,
            );
            assert(above == precedes(nodes@, i as int, j as int));
            if above {
                return false;
            }
        }
        i = i + 1;
    }
    true
}

/// Numbers the nodes so that each comes after all that stand above it, or finds
/// that no numbering does.
fn rank_nodes(nodes: &Vec<Node>) -> (r: Option<Vec<usize>>)
    ensures
        match r {
            Some(order) => {
                &&& order@.len() == nodes@.len()
                &&& forall|i: int| 0 <= i < nodes@.len() ==> #[trigger] order@[i] < nodes@.len()
                &&& forall|i: int, j: int|
                    #![trigger precedes(nodes@, i, j)]
                    0 <= i < nodes@.len() && 0 <= j < nodes@.len() && precedes(nodes@, i, j)
                        ==> order@[i] < order@[j]
            },
            None => !acyclic(nodes@),
        },
{
    let n: usize = nodes.len();
    let mut order: Vec<usize> = Vec::new();
    let mut numbered: Vec<bool> = Vec::new();
    let mut i: usize = 0;
    while i < n
        invariant
            i <= n,
            n == nodes@.len(),
            order@.len() == i,
            numbered@.len() == i,
            forall|k: int| 0 <= k < i ==> !(#[trigger] numbered@[k]),
        decreases n - i,
    {
        order.push(0);
        numbered.push(false);
        i = i + 1;
    }
    let mut count: usize = 0;
    proof {
        lemma_count_none(numbered@);
    }
    while count < n
        invariant
            n == nodes@.len(),
            order@.len() == n,
            numbered@.len() == n,
            count <= n,
            count == count_true(numbered@),
            forall|k: int| 0 <= k < n && #[trigger] numbered@[k] ==> order@[k] < count,
            forall|a: int, b: int|
                #![trigger precedes(nodes@, a, b)]
                0 <= a < n && 0 <= b < n && precedes(nodes@, a, b) && numbered@[b] ==> numbered@[a]
                    && order@[a] < order@[b],
        decreases n - count,
    {
        let before: usize = count;
        let ghost at_start = numbered@;
        let mut j: usize = 0;
        while j < n
            invariant
                j <= n,
                n == nodes@.len(),
                order@.len() == n,
                numbered@.len() == n,
                before <= count <= n,
                count == count_true(numbered@),
                forall|k: int| 0 <= k < n && #[trigger] numbered@[k] ==> order@[k] < count,
                forall|a: int, b: int|
                    #![trigger precedes(nodes@, a, b)]
                    0 <= a < n && 0 <= b < n && precedes(nodes@, a, b) && numbered@[b]
                        ==> numbered@[a] && order@[a] < order@[b],
                count == before ==> forall|k: int|
                    0 <= k < j && !(#[trigger] numbered@[k]) ==> exists|a: int|
                        0 <= a < n && #[trigger] precedes(nodes@, a, k) && !numbered@[a],
            decreases n - j,
        {
            let free = if numbered[j] {
                false
            } else {
                ready(nodes, &numbered, j)
            };
            if free {
                proof {
                    lemma_count_set(numbered@, j as int);
                    if precedes(nodes@, j as int, j as int) {
                        assert(numbered@[j as int]);
                    }
                }
                order.set(j, count);
                numbered.set(j, true);
                proof {
                    lemma_count_le(numbered@);
                }
                count = count + 1;
            }
            j = j + 1;
        }
        if count == before {
            proof {
                assert(exists|k: int| 0 <= k < n && !(#[trigger] numbered@[k])) by {
                    lemma_count_full(numbered@);
                }
                lemma_stuck(nodes@, numbered@);
            }
            return None;
        }
    }
    proof {
        lemma_count_full(numbered@);
        assert forall|i: int| 0 <= i < n implies #[trigger] order@[i] < n by {
            assert(numbered@[i]);
        }
        assert forall|i: int, j: int|
            #![trigger precedes(nodes@, i, j)]
            0 <= i < n && 0 <= j < n && precedes(nodes@, i, j) implies order@[i] < order@[j] by {
            assert(numbered@[j]);
        }
    }
    Some(order)
}

spec fn count_true(s: Seq<bool>) -> nat
    decreases s.len(),
{
    if s.len() == 0 {
        0
    } else {
        count_true(s.drop_last()) + (if s.last() {
            1nat
        } else {
            0
        })
    }
}

proof fn lemma_count_none(s: Seq<bool>)
    requires
        forall|k: int| 0 <= k < s.len() ==> !(#[trigger] s[k]),
    ensures
        count_true(s) == 0,
    decreases s.len(),
{
    if s.len() > 0 {
        lemma_count_none(s.drop_last());
    }
}

proof fn lemma_count_le(s: Seq<bool>)
    ensures
        count_true(s) <= s.len(),
    decreases s.len(),
{
    if s.len() > 0 {
        lemma_count_le(s.drop_last());
    }
}

proof fn lemma_count_full(s: Seq<bool>)
    ensures
        count_true(s) == s.len() <==> forall|k: int| 0 <= k < s.len() ==> #[trigger] s[k],
    decreases s.len(),
{
    if s.len() > 0 {
        lemma_count_full(s.drop_last());
        lemma_count_le(s.drop_last());
        assert forall|k: int| 0 <= k < s.len() - 1 implies s.drop_last()[k] == #[trigger] s[k] by {}
        if forall|k: int| 0 <= k < s.len() ==> #[trigger] s[k] {
            assert forall|k: int| 0 <= k < s.drop_last().len() implies #[trigger] s.drop_last()[k] by {
                assert(s[k]);
            }
            assert(s[s.len() - 1]);
        }
        if count_true(s) == s.len() {
            assert forall|k: int| 0 <= k < s.len() implies #[trigger] s[k] by {
                if k < s.len() - 1 {
                    assert(s.drop_last()[k]);
                }
            }
        }
    }
}

proof fn lemma_count_set(s: Seq<bool>, j: int)
    requires
        0 <= j < s.len(),
        !s[j],
    ensures
        count_true(s.update(j, true)) == count_true(s) + 1,
    decreases s.len(),
{
    let t = s.update(j, true);
    if j == s.len() - 1 {
        assert(t.drop_last() =~= s.drop_last());
    } else {
        assert(t.drop_last() =~= s.drop_last().update(j, true));
        lemma_count_set(s.drop_last(), j);
    }
}

/// Where every unnumbered node hangs from an unnumbered one, no rank exists.
proof fn lemma_stuck(nodes: Seq<Node>, numbered: Seq<bool>)
    requires
        numbered.len() == nodes.len(),
        exists|k: int| 0 <= k < nodes.len() && !(#[trigger] numbered[k]),
        forall|k: int|
            0 <= k < nodes.len() && !(#[trigger] numbered[k]) ==> exists|a: int|
                0 <= a < nodes.len() && #[trigger] precedes(nodes, a, k) && !numbered[a],
    ensures
        !acyclic(nodes),
{
    if acyclic(nodes) {
        let rank = choose|rank: spec_fn(int) -> nat| #[trigger] ranked(nodes, rank);
        let k = choose|k: int| 0 <= k < nodes.len() && !(#[trigger] numbered[k]);
        lemma_all_numbered(nodes, numbered, rank, k);
    }
}

proof fn lemma_all_numbered(
    nodes: Seq<Node>,
    numbered: Seq<bool>,
    rank: spec_fn(int) -> nat,
    k: int,
)
    requires
        numbered.len() == nodes.len(),
        ranked(nodes, rank),
        0 <= k < nodes.len(),
        forall|k: int|
            0 <= k < nodes.len() && !(#[trigger] numbered[k]) ==> exists|a: int|
                0 <= a < nodes.len() && #[trigger] precedes(nodes, a, k) && !numbered[a],
    ensures
        numbered[k],
    decreases rank(k),
{
    if !numbered[k] {
        let a = choose|a: int|
            0 <= a < nodes.len() && #[trigger] precedes(nodes, a, k) && !numbered[a];
        lemma_all_numbered(nodes, numbered, rank, a);
    }
}

} // verus!
