//! Walks over the document tree: up to the ancestors, down through subtrees,
//! outward through the scopes that style a shape.
use std::collections::HashSet;

use vstd::prelude::*;

use crate::model::{Document, Handle, Location, Node, NodeId, NodeKind, Parent, StyleKind};
use crate::seqs::{holds, lemma_filter_ends, lemma_filter_step};

verus! {

broadcast use vstd::std_specs::hash::group_hash_axioms;

/// One node of a copied subtree, listed before its children: the node's own
/// value and how many children follow it.
#[derive(Clone, Copy, Debug, PartialEq, Eq, Structural)]
pub struct TreeRow {
    pub content: Handle,
    pub children: usize,
}

/// Whether `found` and `wanted` share an element.
pub open spec fn meets(wanted: Seq<NodeId>, found: Seq<NodeId>) -> bool {
    exists|i: int| 0 <= i < found.len() && wanted.contains(#[trigger] found[i])
}

/// `s` without the later copies of what it already holds.
pub open spec fn dedup(s: Seq<NodeId>) -> Seq<NodeId>
    decreases s.len(),
{
    if s.len() == 0 {
        s
    } else {
        let front = dedup(s.drop_last());
        if front.contains(s.last()) {
            front
        } else {
            front.push(s.last())
        }
    }
}

impl Document {
    /// The parent chain of `id`, nearest first.
    pub open spec fn ancestors(&self, id: NodeId) -> Seq<NodeId>
        decreases self.rank(id),
        when self.wf()
    {
        if self.has(id) {
            match self.node(id).parent {
                Some(p) => seq![p] + self.ancestors(p),
                None => Seq::empty(),
            }
        } else {
            Seq::empty()
        }
    }

    /// A node and its parent chain.
    pub open spec fn chain(&self, at: Option<NodeId>) -> Seq<NodeId> {
        match at {
            Some(p) => seq![p] + self.ancestors(p),
            None => Seq::empty(),
        }
    }

    /// Whether an ancestor of `id` is selected too.
    pub open spec fn covered(&self, sel: Seq<NodeId>, id: NodeId) -> bool {
        meets(sel, self.ancestors(id))
    }

    /// The selected nodes that no selected node contains, in selection order.
    pub open spec fn roots(&self, sel: Seq<NodeId>) -> Seq<NodeId> {
        sel.filter(|id: NodeId| !self.covered(sel, id))
    }

    /// `id` and all below it, each node before its children.
    pub open spec fn subtree(&self, id: NodeId) -> Seq<NodeId>
        decreases self.height(id), self.node(id).children@.len() + 1,
        when self.wf()
    {
        if self.has(id) {
            seq![id] + self.below(id, 0)
        } else {
            Seq::empty()
        }
    }

    /// The subtrees of the children of `id` from the `k`th on.
    pub open spec fn below(&self, id: NodeId, k: int) -> Seq<NodeId>
        decreases self.height(id), self.node(id).children@.len() - k,
        when self.wf() && self.has(id) && 0 <= k
    {
        if k >= self.node(id).children@.len() {
            Seq::empty()
        } else {
            self.subtree(self.node(id).children@[k]) + self.below(id, k + 1)
        }
    }

    /// The subtrees of the nodes of `s`, in order.
    pub open spec fn forest(&self, s: Seq<NodeId>) -> Seq<NodeId>
        decreases s.len(),
    {
        if s.len() == 0 {
            Seq::empty()
        } else {
            self.forest(s.drop_last()) + self.subtree(s.last())
        }
    }

    /// Whether every node that the subtree of `id` lists is there.
    pub open spec fn complete(&self, id: NodeId) -> bool
        decreases self.height(id),
        when self.wf()
    {
        self.has(id) && forall|k: int|
            0 <= k < self.node(id).children@.len() ==> self.complete(
                #[trigger] self.node(id).children@[k],
            )
    }

    /// The copy of the subtree of `id`.
    pub open spec fn rows(&self, id: NodeId) -> Seq<TreeRow>
        decreases self.height(id), self.node(id).children@.len() + 1,
        when self.wf()
    {
        seq![
            TreeRow {
                content: self.node(id).content,
                children: self.node(id).children@.len() as usize,
            },
        ] + (if self.has(id) {
            self.rows_below(id, 0)
        } else {
            Seq::empty()
        })
    }

    pub open spec fn rows_below(&self, id: NodeId, k: int) -> Seq<TreeRow>
        decreases self.height(id), self.node(id).children@.len() - k,
        when self.wf() && self.has(id) && 0 <= k
    {
        if k >= self.node(id).children@.len() {
            Seq::empty()
        } else {
            self.rows(self.node(id).children@[k]) + self.rows_below(id, k + 1)
        }
    }

    pub open spec fn is_style(&self, id: NodeId, kind: StyleKind) -> bool {
        self.has(id) && self.node(id).kind == NodeKind::Style(kind)
    }

    /// The last style of the wanted kind in `s`.
    pub open spec fn last_style(&self, s: Seq<NodeId>, kind: StyleKind) -> Option<NodeId>
        decreases s.len(),
    {
        if s.len() == 0 {
            None
        } else if self.is_style(s.last(), kind) {
            Some(s.last())
        } else {
            self.last_style(s.drop_last(), kind)
        }
    }

    /// What hangs directly from `parent`, if that is there.
    pub open spec fn children_of(&self, parent: Parent) -> Option<Seq<NodeId>> {
        match parent {
            Parent::Comp(c) => match self.comp(c) {
                Some(comp) => Some(comp.children@),
                None => None,
            },
            Parent::Node(p) => if self.has(p) {
                Some(self.node(p).children@)
            } else {
                None
            },
        }
    }

    pub open spec fn located(&self, id: NodeId) -> Option<Location> {
        if self.has(id) {
            self.node(id).location
        } else {
            None
        }
    }

    /// The scope of `id` and those around it, innermost first.
    pub open spec fn scopes(&self, id: NodeId) -> Seq<Parent>
        decreases self.rank(id),
        when self.wf()
    {
        match self.located(id) {
            Some(Location { parent: Parent::Node(p), .. }) => seq![Parent::Node(p)] + self.scopes(p),
            Some(Location { parent: Parent::Comp(c), .. }) => seq![Parent::Comp(c)],
            None => Seq::empty(),
        }
    }

    /// The nearest style of the wanted kind: the last one of the innermost scope
    /// that has one. A scope that is gone ends the search.
    pub open spec fn nearest(&self, scopes: Seq<Parent>, kind: StyleKind) -> Option<NodeId>
        decreases scopes.len(),
    {
        if scopes.len() == 0 {
            None
        } else {
            match self.children_of(scopes[0]) {
                None => None,
                Some(children) => match self.last_style(children, kind) {
                    Some(id) => Some(id),
                    None => self.nearest(scopes.drop_first(), kind),
                },
            }
        }
    }

    /// The style that a copy of `id` carries: its own last one, else the nearest.
    pub open spec fn carried_style(&self, id: NodeId, kind: StyleKind) -> Option<NodeId> {
        match self.last_style(self.subtree(id), kind) {
            Some(own) => Some(own),
            None => self.nearest(self.scopes(id), kind),
        }
    }

    pub open spec fn is_painted(&self, id: NodeId) -> bool {
        self.has(id) && (self.node(id).kind is Shape || self.node(id).kind is Text)
    }

    pub open spec fn is_container(&self, id: NodeId) -> bool {
        self.has(id) && (self.node(id).kind is Group || self.node(id).kind is Layer)
    }

    /// How many nodes of `s` a style paints.
    pub open spec fn painted_count(&self, s: Seq<NodeId>) -> nat {
        s.filter(|id: NodeId| self.is_painted(id)).len()
    }

    /// Whether `id` is a direct child of some composition.
    pub open spec fn in_some_comp(&self, id: NodeId) -> bool {
        exists|i: int|
            0 <= i < self.comps().len() && (#[trigger] self.comps()[i]).children@.contains(id)
    }

    /// Whether `id` is there and reachable.
    pub open spec fn attached(&self, id: NodeId) -> bool {
        self.has(id) && (self.node(id).parent is Some || self.in_some_comp(id))
    }

    /// Whether something can be hung from `parent`.
    pub open spec fn parent_attached(&self, parent: Parent) -> bool {
        match parent {
            Parent::Comp(c) => self.comp(c) is Some,
            Parent::Node(p) => self.attached(p),
        }
    }

    /// The selected shapes at and below `id`, last child first. A selected
    /// container selects what it contains.
    pub open spec fn shapes(&self, id: NodeId, sel: Seq<NodeId>, inherited: bool) -> Seq<NodeId>
        decreases self.height(id), self.node(id).children@.len() + 1,
        when self.wf()
    {
        let selected = inherited || sel.contains(id);
        if !self.has(id) {
            Seq::empty()
        } else if self.node(id).kind is Shape {
            if selected {
                seq![id]
            } else {
                Seq::empty()
            }
        } else if self.is_container(id) {
            self.shapes_below(id, self.node(id).children@.len() as int, sel, selected)
        } else {
            Seq::empty()
        }
    }

    /// The selected shapes of the first `k` children of `id`, last child first.
    pub open spec fn shapes_below(
        &self,
        id: NodeId,
        k: int,
        sel: Seq<NodeId>,
        inherited: bool,
    ) -> Seq<NodeId>
        decreases self.height(id), k,
        when self.wf() && self.has(id) && k <= self.node(id).children@.len()
    {
        if k <= 0 {
            Seq::empty()
        } else {
            self.shapes(self.node(id).children@[k - 1], sel, inherited) + self.shapes_below(
                id,
                k - 1,
                sel,
                inherited,
            )
        }
    }

    /// The selected shapes of `s`, last node first.
    pub open spec fn shapes_of(&self, s: Seq<NodeId>, sel: Seq<NodeId>) -> Seq<NodeId>
        decreases s.len(),
    {
        if s.len() == 0 {
            Seq::empty()
        } else {
            self.shapes(s.last(), sel, false) + self.shapes_of(s.drop_last(), sel)
        }
    }

    /// The selected shapes of the main composition, bottom first, none twice.
    pub open spec fn shape_roots(&self, sel: Seq<NodeId>) -> Seq<NodeId> {
        match self.comp(self.main_id()) {
            Some(c) => dedup(self.shapes_of(c.children@, sel)),
            None => Seq::empty(),
        }
    }

    /// The nodes of the main composition that have children.
    pub open spec fn expandable(&self) -> Set<NodeId> {
        match self.comp(self.main_id()) {
            Some(c) => Set::new(
                |id: NodeId|
                    self.forest(c.children@).contains(id) && self.node(id).children@.len() > 0,
            ),
            None => Set::empty(),
        }
    }

    /// Every ancestor of a node of `sel`.
    pub open spec fn ancestors_of(&self, sel: Seq<NodeId>) -> Set<NodeId> {
        Set::new(
            |a: NodeId|
                exists|i: int|
                    0 <= i < sel.len() && #[trigger] self.ancestors(sel[i]).contains(a),
        )
    }

    /// A subtree lists only nodes that are there.
    pub proof fn lemma_subtree_has(&self, id: NodeId)
        requires
            self.wf(),
        ensures
            forall|k: int|
                0 <= k < self.subtree(id).len() ==> self.has(#[trigger] self.subtree(id)[k]),
        decreases self.height(id), self.node(id).children@.len() + 1,
    {
        if self.has(id) {
            self.lemma_below_has(id, 0);
            let rest = self.below(id, 0);
            assert forall|k: int| 0 <= k < self.subtree(id).len() implies self.has(
                #[trigger] self.subtree(id)[k],
            ) by {
                if k > 0 {
                    assert(self.subtree(id)[k] == rest[k - 1]);
                }
            }
        }
    }

    proof fn lemma_below_has(&self, id: NodeId, k: int)
        requires
            self.wf(),
            self.has(id),
            0 <= k,
        ensures
            forall|i: int|
                0 <= i < self.below(id, k).len() ==> self.has(#[trigger] self.below(id, k)[i]),
        decreases self.height(id), self.node(id).children@.len() - k,
    {
        if k < self.node(id).children@.len() {
            let c = self.node(id).children@[k];
            self.lemma_subtree_has(c);
            self.lemma_below_has(id, k + 1);
            let first = self.subtree(c);
            let rest = self.below(id, k + 1);
            assert forall|i: int| 0 <= i < self.below(id, k).len() implies self.has(
                #[trigger] self.below(id, k)[i],
            ) by {
                if i < first.len() {
                    assert(self.below(id, k)[i] == first[i]);
                } else {
                    assert(self.below(id, k)[i] == rest[i - first.len()]);
                }
            }
        }
    }

    proof fn lemma_forest_has(&self, s: Seq<NodeId>)
        requires
            self.wf(),
        ensures
            forall|k: int|
                0 <= k < self.forest(s).len() ==> self.has(#[trigger] self.forest(s)[k]),
        decreases s.len(),
    {
        if s.len() > 0 {
            self.lemma_forest_has(s.drop_last());
            self.lemma_subtree_has(s.last());
            let front = self.forest(s.drop_last());
            let last = self.subtree(s.last());
            assert forall|k: int| 0 <= k < self.forest(s).len() implies self.has(
                #[trigger] self.forest(s)[k],
            ) by {
                if k < front.len() {
                    assert(self.forest(s)[k] == front[k]);
                } else {
                    assert(self.forest(s)[k] == last[k - front.len()]);
                }
            }
        }
    }

    /// Whether an ancestor of `id` is selected too.
    fn is_covered(&self, sel: &Vec<NodeId>, id: NodeId) -> (r: bool)
        requires
            self.wf(),
        ensures
            r == self.covered(sel@, id),
    {
        let mut at = self.parent_of(id);
        assert(self.chain(at) =~= self.ancestors(id));
        while at.is_some()
            invariant
                self.wf(),
                self.covered(sel@, id) == meets(sel@, self.chain(at)),
            decreases
                    match at {
                        Some(p) => self.rank(p) + 1,
                        None => 0,
                    },
        {
            let ghost here = self.chain(at);
            let p = at.unwrap();
            assert(here[0] == p);
            if holds(sel, p) {
                return true;
            }
            at = self.parent_of(p);
            assert(self.chain(at) =~= self.ancestors(p));
            assert(here =~= seq![p] + self.chain(at));
            proof {
                if meets(sel@, here) {
                    let i = choose|i: int| 0 <= i < here.len() && sel@.contains(#[trigger] here[i]);
                    assert(self.chain(at)[i - 1] == here[i]);
                }
                if meets(sel@, self.chain(at)) {
                    let i = choose|i: int|
                        0 <= i < self.chain(at).len() && sel@.contains(
                            #[trigger] self.chain(at)[i],
                        );
                    assert(here[i + 1] == self.chain(at)[i]);
                }
            }
        }
        false
    }

    /// The parent node of `id`.
    pub fn parent_of(&self, id: NodeId) -> (r: Option<NodeId>)
        ensures
            r == (if self.has(id) {
                self.node(id).parent
            } else {
                None
            }),
    {
        match self.get(id) {
            Some(n) => n.parent,
            None => None,
        }
    }

    /// The selected nodes that no selected node contains, in selection order.
    pub fn selected_roots(&self, sel: &Vec<NodeId>) -> (r: Vec<NodeId>)
        requires
            self.wf(),
        ensures
            r@ == self.roots(sel@),
    {
        let ghost keep = |id: NodeId| !self.covered(sel@, id);
        let mut out: Vec<NodeId> = Vec::new();
        let mut i: usize = 0;
        proof {
            lemma_filter_ends(sel@, keep);
        }
        while i < sel.len()
            invariant
                self.wf(),
                i <= sel.len(),
                keep == |id: NodeId| !self.covered(sel@, id),
                out@ == sel@.take(i as int).filter(keep),
            decreases sel.len() - i,
        {
            proof {
                lemma_filter_step(sel@, i as int, keep);
            }
            if !self.is_covered(sel, sel[i]) {
                out.push(sel[i]);
            }
            i = i + 1;
        }
        out
    }

    /// Appends `id` and all below it, each node before its children.
    pub fn push_subtree(&self, id: NodeId, out: &mut Vec<NodeId>)
        requires
            self.wf(),
        ensures
            final(out)@ == old(out)@ + self.subtree(id),
        decreases self.height(id),
    {
        match self.get(id) {
            None => {
                assert(old(out)@ + self.subtree(id) =~= old(out)@);
            },
            Some(n) => {
                let ghost start = out@;
                out.push(id);
                let mut k: usize = 0;
                assert(out@ + self.below(id, 0) =~= start + self.subtree(id));
                while k < n.children.len()
                    invariant
                        self.wf(),
                        self.has(id),
                        *n == self.node(id),
                        k <= n.children@.len(),
                        out@ + self.below(id, k as int) == start + self.subtree(id),
                    decreases n.children.len() - k,
                {
                    let ghost before = out@;
                    let child = n.children[k];
                    assert(child == self.node(id).children@[k as int]);
                    self.push_subtree(child, out);
                    assert(before + self.below(id, k as int) =~= out@ + self.below(id, k + 1));
                    k = k + 1;
                }
                assert(out@ + self.below(id, k as int) =~= out@);
            },
        }
    }

    /// All the nodes at and below those of `s`.
    pub fn collect_forest(&self, s: &Vec<NodeId>) -> (r: Vec<NodeId>)
        requires
            self.wf(),
        ensures
            r@ == self.forest(s@),
    {
        let mut out: Vec<NodeId> = Vec::new();
        let mut i: usize = 0;
        assert(s@.take(0) =~= Seq::<NodeId>::empty());
        while i < s.len()
            invariant
                self.wf(),
                i <= s@.len(),
                out@ == self.forest(s@.take(i as int)),
            decreases s.len() - i,
        {
            assert(s@.take(i + 1).drop_last() =~= s@.take(i as int));
            self.push_subtree(s[i], &mut out);
            i = i + 1;
        }
        assert(s@.take(s@.len() as int) =~= s@);
        out
    }

    /// Appends the copy of the subtree of `id`.
    pub fn push_tree(&self, id: NodeId, out: &mut Vec<TreeRow>)
        requires
            self.wf(),
            self.complete(id),
        ensures
            final(out)@ == old(out)@ + self.rows(id),
        decreases self.height(id),
    {
        match self.get(id) {
            None => {},
            Some(n) => {
                let ghost start = out@;
                out.push(TreeRow { content: n.content, children: n.children.len() });
                let mut k: usize = 0;
                assert(out@ + self.rows_below(id, 0) =~= start + self.rows(id));
                while k < n.children.len()
                    invariant
                        self.wf(),
                        self.complete(id),
                        self.has(id),
                        *n == self.node(id),
                        k <= n.children@.len(),
                        out@ + self.rows_below(id, k as int) == start + self.rows(id),
                    decreases n.children.len() - k,
                {
                    let ghost before = out@;
                    let child = n.children[k];
                    assert(child == self.node(id).children@[k as int]);
                    self.push_tree(child, out);
                    assert(before + self.rows_below(id, k as int) =~= out@ + self.rows_below(
                        id,
                        k + 1,
                    ));
                    k = k + 1;
                }
                assert(out@ + self.rows_below(id, k as int) =~= out@);
            },
        }
    }

    /// Whether every node that the subtree of `id` lists is there.
    pub fn is_complete(&self, id: NodeId) -> (r: bool)
        requires
            self.wf(),
        ensures
            r == self.complete(id),
        decreases self.height(id),
    {
        match self.get(id) {
            None => false,
            Some(n) => {
                let mut k: usize = 0;
                while k < n.children.len()
                    invariant
                        self.wf(),
                        self.has(id),
                        *n == self.node(id),
                        k <= n.children@.len(),
                        forall|j: int|
                            0 <= j < k ==> self.complete(#[trigger] self.node(id).children@[j]),
                    decreases n.children.len() - k,
                {
                    assert(n.children@[k as int] == self.node(id).children@[k as int]);
                    if !self.is_complete(n.children[k]) {
                        return false;
                    }
                    k = k + 1;
                }
                true
            },
        }
    }

    /// The copy of the subtree of `id`.
    pub fn tree_of(&self, id: NodeId) -> (r: Vec<TreeRow>)
        requires
            self.wf(),
            self.complete(id),
        ensures
            r@ == self.rows(id),
    {
        let mut out: Vec<TreeRow> = Vec::new();
        self.push_tree(id, &mut out);
        assert(out@ =~= self.rows(id));
        out
    }

    fn style_at(&self, id: NodeId, kind: StyleKind) -> (r: bool)
        ensures
            r == self.is_style(id, kind),
    {
        match self.get(id) {
            Some(n) => n.kind == NodeKind::Style(kind),
            None => false,
        }
    }

    /// The last style of the wanted kind in `s`.
    pub fn last_style_in(&self, s: &Vec<NodeId>, kind: StyleKind) -> (r: Option<NodeId>)
        ensures
            r == self.last_style(s@, kind),
    {
        let mut i: usize = s.len();
        assert(s@.take(i as int) =~= s@);
        while i > 0
            invariant
                i <= s@.len(),
                self.last_style(s@, kind) == self.last_style(s@.take(i as int), kind),
            decreases i,
        {
            assert(s@.take(i as int).last() == s@[i - 1]);
            assert(s@.take(i as int).drop_last() =~= s@.take(i - 1));
            i = i - 1;
            if self.style_at(s[i], kind) {
                return Some(s[i]);
            }
        }
        None
    }

    pub fn locate(&self, id: NodeId) -> (r: Option<Location>)
        ensures
            r == self.located(id),
    {
        match self.get(id) {
            Some(n) => n.location,
            None => None,
        }
    }

    /// What hangs directly from `parent`.
    pub fn child_list(&self, parent: Parent) -> (r: Option<&Vec<NodeId>>)
        ensures
            match r {
                Some(v) => self.children_of(parent) == Some(v@),
                None => self.children_of(parent) is None,
            },
    {
        match parent {
            Parent::Comp(c) => match self.composition(c) {
                Some(comp) => Some(&comp.children),
                None => None,
            },
            Parent::Node(p) => match self.get(p) {
                Some(n) => Some(&n.children),
                None => None,
            },
        }
    }

    /// The style of the wanted kind that paints `shape`: the last one of the
    /// innermost scope that has one.
    pub fn nearest_style_node(&self, shape: NodeId, kind: StyleKind) -> (r: Option<NodeId>)
        requires
            self.wf(),
        ensures
            r == self.nearest(self.scopes(shape), kind),
    {
        let mut at = shape;
        loop
            invariant
                self.wf(),
                self.nearest(self.scopes(shape), kind) == self.nearest(self.scopes(at), kind),
            decreases self.rank(at),
        {
            let here = match self.locate(at) {
                Some(l) => l,
                None => {
                    return None;
                },
            };
            assert(self.scopes(at)[0] == here.parent);
            match self.child_list(here.parent) {
                None => {
                    return None;
                },
                Some(children) => {
                    let found = self.last_style_in(children, kind);
                    if found.is_some() {
                        return found;
                    }
                },
            }
            match here.parent {
                Parent::Comp(_) => {
                    assert(self.scopes(at).drop_first() =~= Seq::<Parent>::empty());
                    assert(self.nearest(self.scopes(at).drop_first(), kind) is None);
                    return None;
                },
                Parent::Node(p) => {
                    assert(self.scopes(at).drop_first() =~= self.scopes(p));
                    at = p;
                },
            }
        }
    }

    /// The style of the wanted kind that a copy of `id` carries.
    pub fn style_of_copy(&self, id: NodeId, kind: StyleKind) -> (r: Option<NodeId>)
        requires
            self.wf(),
        ensures
            r == self.carried_style(id, kind),
    {
        let mut all: Vec<NodeId> = Vec::new();
        self.push_subtree(id, &mut all);
        assert(all@ =~= self.subtree(id));
        let own = self.last_style_in(&all, kind);
        if own.is_some() {
            own
        } else {
            self.nearest_style_node(id, kind)
        }
    }

    pub fn painted(&self, id: NodeId) -> (r: bool)
        ensures
            r == self.is_painted(id),
    {
        match self.get(id) {
            Some(n) => matches!(n.kind, NodeKind::Shape(_) | NodeKind::Text),
            None => false,
        }
    }

    pub fn container(&self, id: NodeId) -> (r: bool)
        ensures
            r == self.is_container(id),
    {
        match self.get(id) {
            Some(n) => matches!(n.kind, NodeKind::Group | NodeKind::Layer),
            None => false,
        }
    }

    /// How many nodes of `s` a style paints.
    pub fn count_painted(&self, s: &Vec<NodeId>) -> (r: usize)
        ensures
            r == self.painted_count(s@),
    {
        let ghost keep = |id: NodeId| self.is_painted(id);
        let mut n: usize = 0;
        let mut i: usize = 0;
        proof {
            lemma_filter_ends(s@, keep);
        }
        while i < s.len()
            invariant
                i <= s@.len(),
                keep == |id: NodeId| self.is_painted(id),
                n == s@.take(i as int).filter(keep).len(),
                n <= i,
            decreases s.len() - i,
        {
            proof {
                lemma_filter_step(s@, i as int, keep);
            }
            if self.painted(s[i]) {
                n = n + 1;
            }
            i = i + 1;
        }
        n
    }

    /// The scope that a style paints and whether it paints more than one node.
    pub fn style_scope_info(&self, style: NodeId) -> (r: Option<(Parent, bool)>)
        ensures
            r == self.scope_info(style),
    {
        let at = match self.locate(style) {
            Some(at) => at,
            None => {
                return None;
            },
        };
        match self.child_list(at.parent) {
            None => None,
            Some(children) => Some((at.parent, self.count_painted(children) > 1)),
        }
    }

    /// The scope that a style paints and whether it paints more than one node.
    pub open spec fn scope_info(&self, style: NodeId) -> Option<(Parent, bool)> {
        match self.located(style) {
            None => None,
            Some(at) => match self.children_of(at.parent) {
                None => None,
                Some(children) => Some((at.parent, self.painted_count(children) > 1)),
            },
        }
    }

    fn comp_holds(&self, id: NodeId) -> (r: bool)
        ensures
            r == self.in_some_comp(id),
    {
        let comps = self.compositions();
        let mut i: usize = 0;
        while i < comps.len()
            invariant
                i <= comps@.len(),
                comps@ == self.comps(),
                forall|j: int| 0 <= j < i ==> !(#[trigger] comps@[j]).children@.contains(id),
            decreases comps.len() - i,
        {
            if holds(&comps[i].children, id) {
                assert(self.comps()[i as int].children@.contains(id));
                return true;
            }
            i = i + 1;
        }
        false
    }

    /// Whether `id` is there and reachable: it has a parent node or is a direct
    /// child of some composition.
    pub fn node_is_attached(&self, id: NodeId) -> (r: bool)
        ensures
            r == self.attached(id),
    {
        match self.get(id) {
            None => false,
            Some(n) => n.parent.is_some() || self.comp_holds(id),
        }
    }

    /// Whether something can be hung from `parent`.
    pub fn parent_is_attached(&self, parent: Parent) -> (r: bool)
        ensures
            r == self.parent_attached(parent),
    {
        match parent {
            Parent::Comp(c) => self.composition(c).is_some(),
            Parent::Node(p) => self.node_is_attached(p),
        }
    }

    fn push_shapes(&self, id: NodeId, sel: &Vec<NodeId>, inherited: bool, out: &mut Vec<NodeId>)
        requires
            self.wf(),
        ensures
            final(out)@ == old(out)@ + self.shapes(id, sel@, inherited),
        decreases self.height(id),
    {
        let ghost start = out@;
        let n = match self.get(id) {
            Some(n) => n,
            None => {
                assert(out@ + self.shapes(id, sel@, inherited) =~= out@);
                return ;
            },
        };
        let selected = inherited || holds(sel, id);
        match n.kind {
            NodeKind::Shape(_) => {
                if selected {
                    out.push(id);
                }
                assert(out@ =~= start + self.shapes(id, sel@, inherited));
            },
            NodeKind::Group | NodeKind::Layer => {
                let mut k: usize = n.children.len();
                while k > 0
                    invariant
                        self.wf(),
                        self.has(id),
                        *n == self.node(id),
                        k <= n.children@.len(),
                        out@ + self.shapes_below(id, k as int, sel@, selected) == start
                            + self.shapes(id, sel@, inherited),
                    decreases k,
                {
                    let ghost before = out@;
                    let child = n.children[k - 1];
                    assert(child == self.node(id).children@[k - 1]);
                    self.push_shapes(child, sel, selected, out);
                    assert(before + self.shapes_below(id, k as int, sel@, selected) =~= out@
                        + self.shapes_below(id, k - 1, sel@, selected));
                    k = k - 1;
                }
                assert(out@ + self.shapes_below(id, 0, sel@, selected) =~= out@);
            },
            _ => {
                assert(out@ + self.shapes(id, sel@, inherited) =~= out@);
            },
        }
    }

    /// The selected shapes of the main composition, bottom first, none twice.
    pub fn selected_shape_roots_in_z_order(&self, sel: &Vec<NodeId>) -> (r: Vec<NodeId>)
        requires
            self.wf(),
        ensures
            r@ == self.shape_roots(sel@),
    {
        let mut all: Vec<NodeId> = Vec::new();
        let comp = match self.composition(self.main()) {
            Some(c) => c,
            None => {
                return all;
            },
        };
        let s = &comp.children;
        let mut i: usize = s.len();
        assert(s@.take(i as int) =~= s@);
        assert(all@ + self.shapes_of(s@, sel@) =~= self.shapes_of(s@, sel@));
        while i > 0
            invariant
                self.wf(),
                i <= s@.len(),
                all@ + self.shapes_of(s@.take(i as int), sel@) == self.shapes_of(s@, sel@),
            decreases i,
        {
            let ghost before = all@;
            assert(s@.take(i as int).drop_last() =~= s@.take(i - 1));
            assert(s@.take(i as int).last() == s@[i - 1]);
            self.push_shapes(s[i - 1], sel, false, &mut all);
            assert(before + self.shapes_of(s@.take(i as int), sel@) =~= all@ + self.shapes_of(
                s@.take(i - 1),
                sel@,
            ));
            i = i - 1;
        }
        assert(all@ + self.shapes_of(s@.take(0), sel@) =~= all@);
        let mut out: Vec<NodeId> = Vec::new();
        let mut j: usize = 0;
        assert(all@.take(0) =~= Seq::<NodeId>::empty());
        while j < all.len()
            invariant
                j <= all@.len(),
                out@ == dedup(all@.take(j as int)),
            decreases all.len() - j,
        {
            assert(all@.take(j + 1).drop_last() =~= all@.take(j as int));
            if !holds(&out, all[j]) {
                out.push(all[j]);
            }
            j = j + 1;
        }
        assert(all@.take(all@.len() as int) =~= all@);
        out
    }

    /// The nodes of the main composition that have children.
    pub fn expandable_nodes(&self) -> (r: HashSet<NodeId>)
        requires
            self.wf(),
        ensures
            r@ == self.expandable(),
    {
        let mut out: HashSet<NodeId> = HashSet::new();
        let comp = match self.composition(self.main()) {
            Some(c) => c,
            None => {
                assert(out@ =~= self.expandable());
                return out;
            },
        };
        let all = self.collect_forest(&comp.children);
        let mut i: usize = 0;
        proof {
            self.lemma_forest_has(comp.children@);
        }
        while i < all.len()
            invariant
                i <= all@.len(),
                all@ == self.forest(comp.children@),
                forall|id: NodeId|
                    out@.contains(id) <==> (all@.take(i as int).contains(id) && self.node(
                        id,
                    ).children@.len() > 0),
                forall|k: int| 0 <= k < all@.len() ==> self.has(#[trigger] all@[k]),
            decreases all.len() - i,
        {
            let id = all[i];
            assert(all@.take(i + 1) =~= all@.take(i as int).push(id));
            assert forall|x: NodeId| all@.take(i + 1).contains(x) <==> (all@.take(i as int).contains(
                x,
            ) || x == id) by {
                let t = all@.take(i as int);
                if t.contains(x) {
                    let k = choose|k: int| 0 <= k < t.len() && t[k] == x;
                    assert(all@.take(i + 1)[k] == x);
                }
                assert(all@.take(i + 1)[i as int] == id);
            }
            if let Some(n) = self.get(id) {
                if n.children.len() > 0 {
                    out.insert(id);
                }
            }
            i = i + 1;
        }
        assert(all@.take(all@.len() as int) =~= all@);
        assert(out@ =~= self.expandable());
        out
    }

    /// Opens every ancestor of the selected nodes in `expanded`.
    pub fn reveal_selection(&self, sel: &Vec<NodeId>, expanded: &mut HashSet<NodeId>)
        requires
            self.wf(),
        ensures
            final(expanded)@ == old(expanded)@.union(self.ancestors_of(sel@)),
    {
        let ghost start = expanded@;
        let mut i: usize = 0;
        assert(start.union(self.ancestors_of(sel@.take(0))) =~= start);
        while i < sel.len()
            invariant
                self.wf(),
                i <= sel@.len(),
                expanded@ == start.union(self.ancestors_of(sel@.take(i as int))),
            decreases sel.len() - i,
        {
            let ghost opened = expanded@;
            let ghost all = self.ancestors(sel@[i as int]);
            let mut at = self.parent_of(sel[i]);
            let ghost mut done: int = 0;
            assert(all.skip(0) =~= self.chain(at));
            while at.is_some()
                invariant
                    self.wf(),
                    0 <= done <= all.len(),
                    all.skip(done) == self.chain(at),
                    forall|x: NodeId|
                        expanded@.contains(x) <==> (opened.contains(x) || all.take(done).contains(
                            x,
                        )),
                decreases
                        match at {
                            Some(p) => self.rank(p) + 1,
                            None => 0,
                        },
            {
                let p = at.unwrap();
                expanded.insert(p);
                proof {
                    assert(self.chain(at) == seq![p] + self.ancestors(p));
                    assert(all.skip(done).len() >= 1);
                    assert(all.skip(done)[0] == p);
                    assert(all[done] == p);
                    assert(all.take(done + 1) =~= all.take(done).push(p));
                    assert forall|x: NodeId| all.take(done + 1).contains(x) <==> (all.take(
                        done,
                    ).contains(x) || x == p) by {
                        let t = all.take(done);
                        if t.contains(x) {
                            let k = choose|k: int| 0 <= k < t.len() && t[k] == x;
                            assert(all.take(done + 1)[k] == x);
                        }
                        assert(all.take(done + 1)[done] == p);
                    }
                    assert(all.skip(done + 1) =~= all.skip(done).drop_first());
                    assert(all.skip(done).drop_first() =~= self.ancestors(p));
                    done = done + 1;
                }
                at = self.parent_of(p);
                assert(self.chain(at) =~= self.ancestors(p));
            }
            proof {
                assert(done == all.len());
                assert(all.take(done) =~= all);
                let now = sel@.take(i + 1);
                assert forall|x: NodeId| self.ancestors_of(now).contains(x) <==> (
                self.ancestors_of(sel@.take(i as int)).contains(x) || all.contains(x)) by {
                    let before = sel@.take(i as int);
                    if self.ancestors_of(now).contains(x) {
                        let k = choose|k: int|
                            0 <= k < now.len() && #[trigger] self.ancestors(now[k]).contains(x);
                        if k < i {
                            assert(self.ancestors(before[k]).contains(x));
                        }
                    }
                    if self.ancestors_of(before).contains(x) {
                        let k = choose|k: int|
                            0 <= k < before.len() && #[trigger] self.ancestors(before[k]).contains(
                                x,
                            );
                        assert(self.ancestors(now[k]).contains(x));
                    }
                    assert(now[i as int] == sel@[i as int]);
                    if all.contains(x) {
                        assert(self.ancestors(now[i as int]).contains(x));
                    }
                }
                assert forall|x: NodeId| expanded@.contains(x) <==> start.union(
                    self.ancestors_of(now),
                ).contains(x) by {
                    assert(expanded@.contains(x) <==> (opened.contains(x) || all.contains(x)));
                    assert(opened.contains(x) <==> start.contains(x) || self.ancestors_of(
                        sel@.take(i as int),
                    ).contains(x));
                }
                assert(expanded@ =~= start.union(self.ancestors_of(now)));
            }
            i = i + 1;
        }
        assert(sel@.take(sel@.len() as int) =~= sel@);
    }
}

} // verus!
