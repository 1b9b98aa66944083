//! What the walks over the document tree find: stated over the nodes' own links, child
//! lists and kinds.
use vstd::prelude::*;

use crate::model::{find_comp, Composition, Document, Location, NodeId, NodeKind, Parent, StyleKind};
use crate::seqs::lemma_filter_contains;
use crate::session::Session;
use crate::tree::{dedup, TreeRow};

verus! {

/// Whether `part` lists elements of `whole` in the order in which they stand there.
pub open spec fn in_order<A>(part: Seq<A>, whole: Seq<A>) -> bool {
    forall|i: int, j: int|
        0 <= i < j < part.len() ==> stands_before(whole, #[trigger] part[i], #[trigger] part[j])
}

/// Whether `a` stands somewhere before `b`.
pub open spec fn stands_before<A>(whole: Seq<A>, a: A, b: A) -> bool {
    exists|x: int, y: int|
        #![trigger whole[x], whole[y]]
        0 <= x < y < whole.len() && whole[x] == a && whole[y] == b
}

/// A filter keeps the order, and keeps an element as often as it stands there.
pub proof fn lemma_filter_order<A>(s: Seq<A>, keep: spec_fn(A) -> bool)
    ensures
        in_order(s.filter(keep), s),
        s.filter(keep).len() <= s.len(),
        s.no_duplicates() ==> s.filter(keep).no_duplicates(),
    decreases s.len(),
{
    reveal(Seq::filter);
    if s.len() > 0 {
        let front = s.drop_last();
        let part = s.filter(keep);
        let before = front.filter(keep);
        lemma_filter_order(front, keep);
        assert forall|i: int, j: int| 0 <= i < j < part.len() implies stands_before(
            s,
            #[trigger] part[i],
            #[trigger] part[j],
        ) by {
            if j < before.len() {
                assert(stands_before(front, before[i], before[j]));
                let (x, y) = choose|x: int, y: int|
                    #![trigger front[x], front[y]]
                    0 <= x < y < front.len() && front[x] == before[i] && front[y] == before[j];
                assert(s[x] == part[i] && s[y] == part[j]);
            } else {
                lemma_filter_contains(front, keep, before[i]);
                assert(before.contains(before[i]));
                let x = choose|x: int| 0 <= x < front.len() && front[x] == before[i];
                assert(s[x] == part[i] && s[s.len() - 1] == part[j]);
            }
        }
        if s.no_duplicates() {
            assert(front.no_duplicates());
            assert forall|i: int, j: int|
                0 <= i < part.len() && 0 <= j < part.len() && i != j implies part[i]
                != part[j] by {
                if i < before.len() && j < before.len() {
                } else if keep(s.last()) {
                    let k = if i < before.len() {
                        i
                    } else {
                        j
                    };
                    lemma_filter_contains(front, keep, before[k]);
                    assert(before.contains(before[k]));
                    let x = choose|x: int| 0 <= x < front.len() && front[x] == before[k];
                    assert(s[x] != s[s.len() - 1]);
                }
            }
        }
    }
}

/// A filter takes two parts one after the other.
pub proof fn lemma_filter_add<A>(a: Seq<A>, b: Seq<A>, keep: spec_fn(A) -> bool)
    ensures
        (a + b).filter(keep) == a.filter(keep) + b.filter(keep),
    decreases b.len(),
{
    reveal(Seq::filter);
    if b.len() > 0 {
        assert((a + b).drop_last() =~= a + b.drop_last());
        lemma_filter_add(a, b.drop_last(), keep);
        assert((a + b).filter(keep) =~= a.filter(keep) + b.filter(keep));
    } else {
        assert(a + b =~= a);
        assert(a.filter(keep) + b.filter(keep) =~= a.filter(keep));
    }
}

/// The ancestors of a node are its parent, the parent's parent and so on, up to a node
/// that has no parent or is not there.
pub proof fn law_ancestors_are_the_parent_chain(doc: Document, id: NodeId)
    requires
        doc.wf(),
    ensures
        ({
            let chain = seq![id] + doc.ancestors(id);
            &&& forall|i: int|
                0 <= i < chain.len() - 1 ==> doc.nodes().contains_key(#[trigger] chain[i])
                    && doc.nodes()[chain[i]].parent == Some(chain[i + 1])
            &&& doc.nodes().contains_key(chain.last()) ==> doc.nodes()[chain.last()].parent is None
        }),
    decreases doc.rank(id),
{
    let chain = seq![id] + doc.ancestors(id);
    if doc.has(id) {
        if let Some(p) = doc.node(id).parent {
            law_ancestors_are_the_parent_chain(doc, p);
            let above = seq![p] + doc.ancestors(p);
            assert(chain =~= seq![id] + above);
            assert forall|i: int| 0 <= i < chain.len() - 1 implies doc.nodes().contains_key(
                #[trigger] chain[i],
            ) && doc.nodes()[chain[i]].parent == Some(chain[i + 1]) by {
                if i > 0 {
                    assert(chain[i] == above[i - 1]);
                    assert(chain[i + 1] == above[i]);
                }
            }
            assert(chain.last() == above.last());
        }
    }
}

/// The roots of a selection are the selected nodes none of whose ancestors is selected,
/// each as it was selected, in the order of the selection.
pub proof fn law_roots_are_the_uppermost(doc: Document, sel: Vec<NodeId>, r: Vec<NodeId>)
    requires
        doc.wf(),
        call_ensures(Document::selected_roots, (&doc, &sel), r),
    ensures
        forall|x: NodeId| #[trigger]
            r@.contains(x) <==> sel@.contains(x) && forall|a: NodeId| #[trigger]
                doc.ancestors(x).contains(a) ==> !sel@.contains(a),
        in_order(r@, sel@),
        sel@.no_duplicates() ==> r@.no_duplicates(),
        (forall|x: NodeId| #[trigger] sel@.contains(x) ==> doc.ancestors(x).len() == 0) ==> r@
            == sel@,
{
    let keep = |id: NodeId| !doc.covered(sel@, id);
    assert(r@ == sel@.filter(keep));
    lemma_filter_order(sel@, keep);
    assert forall|x: NodeId| #[trigger]
        r@.contains(x) <==> sel@.contains(x) && forall|a: NodeId| #[trigger]
            doc.ancestors(x).contains(a) ==> !sel@.contains(a) by {
        lemma_filter_contains(sel@, keep, x);
        if doc.covered(sel@, x) {
            let i = choose|i: int|
                0 <= i < doc.ancestors(x).len() && sel@.contains(#[trigger] doc.ancestors(x)[i]);
            assert(doc.ancestors(x).contains(doc.ancestors(x)[i]));
        } else {
            assert forall|a: NodeId| #[trigger] doc.ancestors(x).contains(a) implies !sel@.contains(
                a,
            ) by {
                let i = choose|i: int| 0 <= i < doc.ancestors(x).len() && doc.ancestors(x)[i] == a;
                assert(doc.ancestors(x)[i] == a);
            }
        }
    }
    if forall|x: NodeId| #[trigger] sel@.contains(x) ==> doc.ancestors(x).len() == 0 {
        assert forall|i: int| 0 <= i < sel@.len() implies keep(#[trigger] sel@[i]) by {
            assert(sel@.contains(sel@[i]));
        }
        lemma_keeps_all(sel@, keep);
    }
}

pub proof fn lemma_keeps_all<A>(s: Seq<A>, keep: spec_fn(A) -> bool)
    requires
        forall|i: int| 0 <= i < s.len() ==> keep(#[trigger] s[i]),
    ensures
        s.filter(keep) == s,
    decreases s.len(),
{
    reveal(Seq::filter);
    if s.len() > 0 {
        assert forall|i: int| 0 <= i < s.drop_last().len() implies keep(
            #[trigger] s.drop_last()[i],
        ) by {
            assert(s.drop_last()[i] == s[i]);
        }
        lemma_keeps_all(s.drop_last(), keep);
        assert(keep(s[s.len() - 1]));
        assert(s.filter(keep) =~= s);
    } else {
        assert(s.filter(keep) =~= s);
    }
}

/// The forest of two lists is the forest of the first, then that of the second.
pub proof fn law_forests_join(doc: Document, a: Seq<NodeId>, b: Seq<NodeId>)
    ensures
        doc.forest(a + b) == doc.forest(a) + doc.forest(b),
    decreases b.len(),
{
    if b.len() == 0 {
        assert(a + b =~= a);
        assert(doc.forest(a) + doc.forest(b) =~= doc.forest(a));
    } else {
        law_forests_join(doc, a, b.drop_last());
        assert((a + b).drop_last() =~= a + b.drop_last());
        assert((a + b).last() == b.last());
        assert(doc.forest(a + b) =~= doc.forest(a) + doc.forest(b));
    }
}

proof fn lemma_below_is_forest(doc: Document, id: NodeId, k: int)
    requires
        doc.wf(),
        doc.has(id),
        0 <= k <= doc.node(id).children@.len(),
    ensures
        doc.below(id, k) == doc.forest(doc.node(id).children@.skip(k)),
    decreases doc.node(id).children@.len() - k,
{
    let children = doc.node(id).children@;
    if k < children.len() {
        lemma_below_is_forest(doc, id, k + 1);
        assert(children.skip(k) =~= seq![children[k]] + children.skip(k + 1));
        law_forests_join(doc, seq![children[k]], children.skip(k + 1));
        law_one_tree_is_its_subtree(doc, children[k]);
    } else {
        assert(children.skip(k) =~= Seq::<NodeId>::empty());
    }
}

/// The forest of one node is its subtree.
pub proof fn law_one_tree_is_its_subtree(doc: Document, id: NodeId)
    requires
        doc.wf(),
    ensures
        doc.forest(seq![id]) == doc.subtree(id),
        doc.forest(Seq::empty()) == Seq::<NodeId>::empty(),
{
    reveal_with_fuel(Document::forest, 3);
    assert(seq![id].drop_last() =~= Seq::<NodeId>::empty());
    assert(doc.forest(seq![id]) =~= doc.subtree(id));
}

/// A subtree is the node, then the forest of its children; a node that is not there has
/// none.
pub proof fn law_subtree_is_node_and_children(doc: Document, id: NodeId)
    requires
        doc.wf(),
    ensures
        doc.nodes().contains_key(id) ==> doc.subtree(id) == seq![id] + doc.forest(
            doc.nodes()[id].children@,
        ),
        !doc.nodes().contains_key(id) ==> doc.subtree(id) == Seq::<NodeId>::empty(),
{
    if doc.has(id) {
        lemma_below_is_forest(doc, id, 0);
        assert(doc.node(id).children@.skip(0) =~= doc.node(id).children@);
    }
}

/// What a forest holds: what the subtrees of its nodes hold.
pub proof fn law_forest_holds_the_subtrees(doc: Document, s: Seq<NodeId>, x: NodeId)
    ensures
        doc.forest(s).contains(x) <==> exists|i: int|
            0 <= i < s.len() && doc.subtree(#[trigger] s[i]).contains(x),
    decreases s.len(),
{
    if s.len() > 0 {
        let front = s.drop_last();
        law_forest_holds_the_subtrees(doc, front, x);
        lemma_contains_add(doc.forest(front), doc.subtree(s.last()), x);
        if doc.forest(front).contains(x) {
            let i = choose|i: int|
                0 <= i < front.len() && doc.subtree(#[trigger] front[i]).contains(x);
            assert(doc.subtree(s[i]).contains(x));
        }
        if doc.subtree(s.last()).contains(x) {
            assert(doc.subtree(s[s.len() - 1]).contains(x));
        }
        if exists|i: int| 0 <= i < s.len() && doc.subtree(#[trigger] s[i]).contains(x) {
            let i = choose|i: int| 0 <= i < s.len() && doc.subtree(#[trigger] s[i]).contains(x);
            if i < front.len() {
                assert(doc.subtree(front[i]).contains(x));
            }
        }
    }
}

pub proof fn lemma_contains_add<A>(a: Seq<A>, b: Seq<A>, x: A)
    ensures
        (a + b).contains(x) <==> a.contains(x) || b.contains(x),
{
    if a.contains(x) {
        let i = choose|i: int| 0 <= i < a.len() && a[i] == x;
        assert((a + b)[i] == x);
    }
    if b.contains(x) {
        let i = choose|i: int| 0 <= i < b.len() && b[i] == x;
        assert((a + b)[a.len() + i] == x);
    }
}

/// Whether the copy `row` is that of the node `id`.
pub open spec fn is_row_of(doc: Document, row: TreeRow, id: NodeId) -> bool {
    &&& doc.nodes().contains_key(id)
    &&& row.content == doc.nodes()[id].content
    &&& row.children == doc.nodes()[id].children@.len()
}

pub open spec fn are_rows_of(doc: Document, rows: Seq<TreeRow>, ids: Seq<NodeId>) -> bool {
    &&& rows.len() == ids.len()
    &&& forall|i: int| 0 <= i < ids.len() ==> is_row_of(doc, #[trigger] rows[i], ids[i])
}

pub proof fn lemma_rows(doc: Document, id: NodeId)
    requires
        doc.wf(),
        doc.complete(id),
    ensures
        are_rows_of(doc, doc.rows(id), doc.subtree(id)),
    decreases doc.height(id), doc.node(id).children@.len() + 1,
{
    lemma_rows_below(doc, id, 0);
    let rest = doc.rows_below(id, 0);
    let ids = doc.below(id, 0);
    assert(doc.node(id).children.len() == doc.node(id).children@.len());
    assert forall|i: int| 0 <= i < doc.subtree(id).len() implies is_row_of(
        doc,
        #[trigger] doc.rows(id)[i],
        doc.subtree(id)[i],
    ) by {
        if i > 0 {
            assert(is_row_of(doc, rest[i - 1], ids[i - 1]));
        }
    }
}

proof fn lemma_rows_below(doc: Document, id: NodeId, k: int)
    requires
        doc.wf(),
        doc.complete(id),
        0 <= k,
    ensures
        are_rows_of(doc, doc.rows_below(id, k), doc.below(id, k)),
    decreases doc.height(id), doc.node(id).children@.len() - k,
{
    if k < doc.node(id).children@.len() {
        let c = doc.node(id).children@[k];
        assert(doc.complete(c));
        lemma_rows(doc, c);
        lemma_rows_below(doc, id, k + 1);
        let rows = doc.rows_below(id, k);
        let ids = doc.below(id, k);
        let n = doc.subtree(c).len() as int;
        assert forall|i: int| 0 <= i < ids.len() implies is_row_of(
            doc,
            #[trigger] rows[i],
            ids[i],
        ) by {
            if i < n {
                assert(is_row_of(doc, doc.rows(c)[i], doc.subtree(c)[i]));
            } else {
                assert(is_row_of(doc, doc.rows_below(id, k + 1)[i - n], doc.below(id, k
                    + 1)[i - n]));
            }
        }
    }
}

/// A copied tree lists every node of the subtree once, in the subtree's order, with its
/// own value and the number of its children.
pub proof fn law_copied_tree_is_the_subtree(doc: Document, id: NodeId, r: Vec<TreeRow>)
    requires
        doc.wf(),
        doc.complete(id),
        call_ensures(Document::tree_of, (&doc, id), r),
    ensures
        are_rows_of(doc, r@, doc.subtree(id)),
{
    lemma_rows(doc, id);
}

/// A node is complete where it is there and every child of every node of its subtree is
/// there too.
pub proof fn law_complete_subtrees_lack_no_child(doc: Document, id: NodeId, r: bool)
    requires
        doc.wf(),
        call_ensures(Document::is_complete, (&doc, id), r),
    ensures
        r <==> doc.nodes().contains_key(id) && forall|x: NodeId, c: NodeId|
            #![trigger doc.subtree(id).contains(x), doc.nodes()[x].children@.contains(c)]
            doc.subtree(id).contains(x) && doc.nodes()[x].children@.contains(c)
                ==> doc.nodes().contains_key(c),
{
    lemma_complete(doc, id);
}

proof fn lemma_complete(doc: Document, id: NodeId)
    requires
        doc.wf(),
    ensures
        doc.complete(id) <==> doc.nodes().contains_key(id) && forall|x: NodeId, c: NodeId|
            #![trigger doc.subtree(id).contains(x), doc.nodes()[x].children@.contains(c)]
            doc.subtree(id).contains(x) && doc.nodes()[x].children@.contains(c)
                ==> doc.nodes().contains_key(c),
    decreases doc.height(id),
{
    if doc.has(id) {
        let children = doc.node(id).children@;
        law_subtree_is_node_and_children(doc, id);
        assert(doc.subtree(id)[0] == id);
        assert(doc.subtree(id).contains(id));
        assert forall|k: int| 0 <= k < children.len() implies {
            doc.complete(#[trigger] children[k]) <==> doc.nodes().contains_key(children[k])
                && forall|x: NodeId, c: NodeId|
                #![trigger doc.subtree(children[k]).contains(x), doc.nodes()[x].children@.contains(c)]
                doc.subtree(children[k]).contains(x) && doc.nodes()[x].children@.contains(c)
                    ==> doc.nodes().contains_key(c)
        } by {
            lemma_complete(doc, children[k]);
        }
        assert forall|k: int, x: NodeId|
            0 <= k < children.len() && #[trigger] doc.subtree(children[k]).contains(
                x,
            ) implies doc.subtree(id).contains(x) by {
            law_forest_holds_the_subtrees(doc, children, x);
            lemma_contains_add(seq![id], doc.forest(children), x);
        }
        if doc.complete(id) {
            assert forall|x: NodeId, c: NodeId|
                #![trigger doc.subtree(id).contains(x), doc.nodes()[x].children@.contains(c)]
                doc.subtree(id).contains(x) && doc.nodes()[x].children@.contains(
                    c,
                ) implies doc.nodes().contains_key(c) by {
                lemma_contains_add(seq![id], doc.forest(children), x);
                if seq![id].contains(x) {
                    let k = choose|k: int| 0 <= k < children.len() && children[k] == c;
                    assert(doc.complete(children[k]));
                } else {
                    law_forest_holds_the_subtrees(doc, children, x);
                    let k = choose|k: int|
                        0 <= k < children.len() && doc.subtree(#[trigger] children[k]).contains(x);
                    assert(doc.complete(children[k]));
                }
            }
        } else {
            let k = choose|k: int|
                0 <= k < children.len() && !doc.complete(#[trigger] children[k]);
            assert(children.contains(children[k]));
            assert(doc.nodes()[id].children@.contains(children[k]));
        }
    }
}

/// The last style of a kind in a list: nothing behind it is a style of that kind.
pub proof fn law_last_style_is_the_last(
    doc: Document,
    s: Vec<NodeId>,
    kind: StyleKind,
    r: Option<NodeId>,
)
    requires
        call_ensures(Document::last_style_in, (&doc, &s, kind), r),
    ensures
        is_last_style(doc, s@, kind, r),
{
    lemma_last_style_place(doc, s@, kind);
}

/// Whether `id` is a style of the kind.
pub open spec fn styles(doc: Document, id: NodeId, kind: StyleKind) -> bool {
    doc.nodes().contains_key(id) && doc.nodes()[id].kind == NodeKind::Style(kind)
}

/// Whether `found` is the last style of the kind in `s`.
pub open spec fn is_last_style(
    doc: Document,
    s: Seq<NodeId>,
    kind: StyleKind,
    found: Option<NodeId>,
) -> bool {
    match found {
        Some(id) => exists|i: int|
            {
                &&& 0 <= i < s.len()
                &&& #[trigger] s[i] == id
                &&& styles(doc, id, kind)
                &&& forall|j: int| i < j < s.len() ==> !styles(doc, #[trigger] s[j], kind)
            },
        None => forall|j: int| 0 <= j < s.len() ==> !styles(doc, #[trigger] s[j], kind),
    }
}

pub proof fn lemma_last_style_place(doc: Document, s: Seq<NodeId>, kind: StyleKind)
    ensures
        is_last_style(doc, s, kind, doc.last_style(s, kind)),
    decreases s.len(),
{
    if s.len() > 0 {
        let front = s.drop_last();
        if styles(doc, s.last(), kind) {
            assert(s[s.len() - 1] == s.last());
        } else {
            lemma_last_style_place(doc, front, kind);
            match doc.last_style(front, kind) {
                Some(id) => {
                    let i = choose|i: int|
                        {
                            &&& 0 <= i < front.len()
                            &&& #[trigger] front[i] == id
                            &&& styles(doc, id, kind)
                            &&& forall|j: int|
                                i < j < front.len() ==> !styles(doc, #[trigger] front[j], kind)
                        };
                    assert(s[i] == id);
                    assert forall|j: int| i < j < s.len() implies !styles(
                        doc,
                        #[trigger] s[j],
                        kind,
                    ) by {
                        if j < front.len() {
                            assert(front[j] == s[j]);
                        }
                    }
                },
                None => {
                    assert forall|j: int| 0 <= j < s.len() implies !styles(
                        doc,
                        #[trigger] s[j],
                        kind,
                    ) by {
                        if j < front.len() {
                            assert(front[j] == s[j]);
                        }
                    }
                },
            }
        }
    }
}

/// The scopes of a node go outward: from where it stands, to where that one stands, and
/// so on until a composition or a node that stands nowhere.
pub proof fn law_scopes_go_outward(doc: Document, id: NodeId)
    requires
        doc.wf(),
    ensures
        ({
            let s = doc.scopes(id);
            &&& place(doc, id) is None <==> s.len() == 0
            &&& s.len() > 0 ==> place(doc, id) == Some(s[0])
            &&& forall|i: int|
                0 <= i < s.len() - 1 ==> (#[trigger] s[i] matches Parent::Node(p) && place(doc, p)
                    == Some(s[i + 1]))
            &&& s.len() > 0 ==> (s.last() matches Parent::Node(p) ==> place(doc, p) is None)
        }),
    decreases doc.rank(id),
{
    if let Some(Location { parent: Parent::Node(p), .. }) = doc.located(id) {
        law_scopes_go_outward(doc, p);
        let s = doc.scopes(id);
        let above = doc.scopes(p);
        assert forall|i: int| 0 <= i < s.len() - 1 implies (#[trigger] s[i] matches Parent::Node(p)
            && place(doc, p) == Some(s[i + 1])) by {
            if i > 0 {
                assert(s[i] == above[i - 1]);
            }
        }
        if above.len() > 0 {
            assert(s.last() == above.last());
        }
    }
}

/// Where a node stands, if it is there and stands somewhere.
pub open spec fn place(doc: Document, id: NodeId) -> Option<Parent> {
    if doc.nodes().contains_key(id) {
        match doc.nodes()[id].location {
            Some(at) => Some(at.parent),
            None => None,
        }
    } else {
        None
    }
}

/// The first composition with an id.
pub proof fn law_compositions_are_found_by_id(doc: Document, id: u64)
    ensures
        match doc.comp(id) {
            Some(c) => exists|i: int|
                {
                    &&& 0 <= i < doc.comps().len()
                    &&& #[trigger] doc.comps()[i] == c
                    &&& c.id == id
                    &&& forall|j: int| 0 <= j < i ==> (#[trigger] doc.comps()[j]).id != id
                },
            None => forall|j: int| 0 <= j < doc.comps().len() ==> (#[trigger] doc.comps()[j]).id
                != id,
        },
{
    lemma_find_comp(doc.comps(), id);
}

proof fn lemma_find_comp(comps: Seq<Composition>, id: u64)
    ensures
        match find_comp(comps, id) {
            Some(c) => exists|i: int|
                {
                    &&& 0 <= i < comps.len()
                    &&& #[trigger] comps[i] == c
                    &&& c.id == id
                    &&& forall|j: int| 0 <= j < i ==> (#[trigger] comps[j]).id != id
                },
            None => forall|j: int| 0 <= j < comps.len() ==> (#[trigger] comps[j]).id != id,
        },
    decreases comps.len(),
{
    if comps.len() > 0 {
        if comps[0].id != id {
            let rest = comps.drop_first();
            lemma_find_comp(rest, id);
            match find_comp(rest, id) {
                Some(c) => {
                    let i = choose|i: int|
                        {
                            &&& 0 <= i < rest.len()
                            &&& #[trigger] rest[i] == c
                            &&& c.id == id
                            &&& forall|j: int| 0 <= j < i ==> (#[trigger] rest[j]).id != id
                        };
                    assert(comps[i + 1] == c);
                    assert forall|j: int| 0 <= j < i + 1 implies (#[trigger] comps[j]).id != id by {
                        if j > 0 {
                            assert(rest[j - 1] == comps[j]);
                        }
                    }
                },
                None => {
                    assert forall|j: int| 0 <= j < comps.len() implies (#[trigger] comps[j]).id
                        != id by {
                        if j > 0 {
                            assert(rest[j - 1] == comps[j]);
                        }
                    }
                },
            }
        } else {
            assert(comps[0] == find_comp(comps, id)->0);
        }
    }
}

/// What hangs from a parent: a composition's children, or a node's own.
pub proof fn law_children_are_the_parents(doc: Document, comp: u64, node: NodeId)
    ensures
        doc.children_of(Parent::Comp(comp)) == (match doc.comp(comp) {
            Some(c) => Some(c.children@),
            None => None,
        }),
        doc.children_of(Parent::Node(node)) == (if doc.nodes().contains_key(node) {
            Some(doc.nodes()[node].children@)
        } else {
            None
        }),
{
}

/// The nearest style of a shape is the last of its kind in the innermost scope that has
/// one; every scope inside of that one is there and has none.
pub proof fn law_nearest_style_is_the_innermost(
    doc: Document,
    shape: NodeId,
    kind: StyleKind,
    r: Option<NodeId>,
)
    requires
        doc.wf(),
        call_ensures(Document::nearest_style_node, (&doc, shape, kind), r),
    ensures
        is_innermost(doc, doc.scopes(shape), kind, r),
{
    lemma_innermost(doc, doc.scopes(shape), kind);
}

/// Whether a scope is there and has no style of the kind.
pub open spec fn is_bare(doc: Document, scope: Parent, kind: StyleKind) -> bool {
    doc.children_of(scope) matches Some(s) && forall|j: int|
        0 <= j < s.len() ==> !styles(doc, #[trigger] s[j], kind)
}

pub open spec fn is_innermost(
    doc: Document,
    scopes: Seq<Parent>,
    kind: StyleKind,
    found: Option<NodeId>,
) -> bool {
    match found {
        Some(id) => exists|k: int|
            {
                &&& 0 <= k < scopes.len()
                &&& doc.children_of(#[trigger] scopes[k]) is Some
                &&& is_last_style(doc, doc.children_of(scopes[k])->0, kind, Some(id))
                &&& forall|j: int| 0 <= j < k ==> is_bare(doc, #[trigger] scopes[j], kind)
            },
        None => {
            ||| forall|j: int| 0 <= j < scopes.len() ==> is_bare(doc, #[trigger] scopes[j], kind)
            ||| exists|k: int|
                {
                    &&& 0 <= k < scopes.len()
                    &&& doc.children_of(#[trigger] scopes[k]) is None
                    &&& forall|j: int| 0 <= j < k ==> is_bare(doc, #[trigger] scopes[j], kind)
                }
        },
    }
}

proof fn lemma_innermost(doc: Document, scopes: Seq<Parent>, kind: StyleKind)
    ensures
        is_innermost(doc, scopes, kind, doc.nearest(scopes, kind)),
    decreases scopes.len(),
{
    if scopes.len() > 0 {
        match doc.children_of(scopes[0]) {
            None => {},
            Some(children) => {
                lemma_last_style_place(doc, children, kind);
                if doc.last_style(children, kind) is None {
                    let rest = scopes.drop_first();
                    assert(is_bare(doc, scopes[0], kind));
                    lemma_innermost(doc, rest, kind);
                    let found = doc.nearest(rest, kind);
                    if forall|
                        j: int,
                    | 0 <= j < rest.len() ==> is_bare(doc, #[trigger] rest[j], kind) {
                        assert forall|j: int| 0 <= j < scopes.len() implies is_bare(
                            doc,
                            #[trigger] scopes[j],
                            kind,
                        ) by {
                            if j > 0 {
                                assert(scopes[j] == rest[j - 1]);
                            }
                        }
                        if let Some(id) = found {
                            let k = choose|k: int|
                                {
                                    &&& 0 <= k < rest.len()
                                    &&& doc.children_of(#[trigger] rest[k]) is Some
                                    &&& is_last_style(
                                        doc,
                                        doc.children_of(rest[k])->0,
                                        kind,
                                        Some(id),
                                    )
                                    &&& forall|j: int|
                                        0 <= j < k ==> is_bare(doc, #[trigger] rest[j], kind)
                                };
                            assert(is_bare(doc, rest[k], kind));
                        }
                    } else {
                        let k = choose|k: int|
                            {
                                &&& 0 <= k < rest.len()
                                &&& doc.children_of(#[trigger] rest[k]) is Some == found is Some
                                &&& found is Some ==> is_last_style(
                                    doc,
                                    doc.children_of(rest[k])->0,
                                    kind,
                                    found,
                                )
                                &&& forall|j: int|
                                    0 <= j < k ==> is_bare(doc, #[trigger] rest[j], kind)
                            };
                        assert(scopes[k + 1] == rest[k]);
                        assert forall|j: int| 0 <= j < k + 1 implies is_bare(
                            doc,
                            #[trigger] scopes[j],
                            kind,
                        ) by {
                            if j > 0 {
                                assert(scopes[j] == rest[j - 1]);
                            }
                        }
                    }
                }
            },
        }
    }
}

/// A copy carries the last style that stands in its own subtree, else the nearest one
/// around it.
pub proof fn law_own_style_goes_before_the_nearest(
    doc: Document,
    id: NodeId,
    kind: StyleKind,
    r: Option<NodeId>,
)
    requires
        doc.wf(),
        call_ensures(Document::style_of_copy, (&doc, id, kind), r),
    ensures
        (exists|i: int|
            0 <= i < doc.subtree(id).len() && styles(doc, #[trigger] doc.subtree(id)[i], kind))
            ==> is_last_style(doc, doc.subtree(id), kind, r),
        (forall|i: int|
            0 <= i < doc.subtree(id).len() ==> !styles(doc, #[trigger] doc.subtree(id)[i], kind))
            ==> is_innermost(doc, doc.scopes(id), kind, r),
{
    lemma_last_style_place(doc, doc.subtree(id), kind);
    lemma_innermost(doc, doc.scopes(id), kind);
}

/// A node is attached where it is there and has a parent node or stands in the child
/// list of a composition; a parent is attached where it is a composition that is there
/// or an attached node.
pub proof fn law_attachment(doc: Document, id: NodeId, comp: u64, r: bool, n: bool, c: bool)
    requires
        call_ensures(Document::node_is_attached, (&doc, id), r),
        call_ensures(Document::parent_is_attached, (&doc, Parent::Node(id)), n),
        call_ensures(Document::parent_is_attached, (&doc, Parent::Comp(comp)), c),
    ensures
        !doc.nodes().contains_key(id) ==> !r,
        doc.nodes().contains_key(id) && doc.nodes()[id].parent is Some ==> r,
        doc.nodes().contains_key(id) && doc.nodes()[id].parent is None ==> (r <==> exists|i: int|
            0 <= i < doc.comps().len() && (#[trigger] doc.comps()[i]).children@.contains(id)),
        n == r,
        c == (doc.comp(comp) is Some),
{
}

/// Counting the painted nodes of two lists adds up, and one node counts where it is a
/// shape or a text.
pub proof fn law_painted_nodes_add_up(doc: Document, a: Seq<NodeId>, b: Seq<NodeId>, id: NodeId)
    ensures
        doc.painted_count(a + b) == doc.painted_count(a) + doc.painted_count(b),
        doc.painted_count(seq![id]) == (if doc.nodes().contains_key(id) && (doc.nodes()[id].kind
            is Shape || doc.nodes()[id].kind is Text) {
            1nat
        } else {
            0nat
        }),
        doc.painted_count(Seq::empty()) == 0,
{
    reveal(Seq::filter);
    lemma_filter_add(a, b, |id: NodeId| doc.is_painted(id));
    assert(seq![id].drop_last() =~= Seq::<NodeId>::empty());
    reveal_with_fuel(Seq::filter, 3);
}

/// A style paints the scope that it stands in; it is shared where that scope has two
/// painted nodes or more.
pub proof fn law_style_scope_is_where_it_stands(
    doc: Document,
    style: NodeId,
    r: Option<(Parent, bool)>,
)
    requires
        call_ensures(Document::style_scope_info, (&doc, style), r),
    ensures
        match r {
            Some((scope, shared)) => {
                &&& place(doc, style) == Some(scope)
                &&& doc.children_of(scope) matches Some(s) && shared == (doc.painted_count(s) >= 2)
            },
            None => place(doc, style) is None || doc.children_of(place(doc, style)->0) is None,
        },
{
}

/// Whether `x` is a shape that is selected, itself or with a container that it stands
/// in, at or below `id`.
pub open spec fn is_selected_shape(
    doc: Document,
    id: NodeId,
    sel: Seq<NodeId>,
    inherited: bool,
    x: NodeId,
    path: Seq<NodeId>,
) -> bool {
    &&& path.len() > 0
    &&& path[0] == id
    &&& path.last() == x
    &&& forall|i: int| 0 <= i < path.len() ==> doc.nodes().contains_key(#[trigger] path[i])
    &&& doc.nodes()[x].kind is Shape
    &&& forall|i: int|
        0 <= i < path.len() - 1 ==> {
            &&& doc.nodes()[#[trigger] path[i]].kind is Group || doc.nodes()[path[i]].kind is Layer
            &&& doc.nodes()[path[i]].children@.contains(path[i + 1])
        }
    &&& inherited || exists|i: int| 0 <= i < path.len() && sel.contains(#[trigger] path[i])
}

proof fn lemma_shapes_path(doc: Document, id: NodeId, sel: Seq<NodeId>, inherited: bool, x: NodeId)
    requires
        doc.wf(),
    ensures
        doc.shapes(id, sel, inherited).contains(x) <==> exists|path: Seq<NodeId>| #[trigger]
            is_selected_shape(doc, id, sel, inherited, x, path),
    decreases doc.height(id), doc.node(id).children@.len() + 1,
{
    let selected = inherited || sel.contains(id);
    let found = doc.shapes(id, sel, inherited);
    if doc.has(id) && doc.node(id).kind is Shape {
        if found.contains(x) {
            let path = seq![id];
            assert(found[0] == x);
            assert(path[0] == id);
            assert(is_selected_shape(doc, id, sel, inherited, x, path));
        }
        if exists|path: Seq<NodeId>| #[trigger]
            is_selected_shape(doc, id, sel, inherited, x, path) {
            let path = choose|path: Seq<NodeId>| #[trigger]
                is_selected_shape(doc, id, sel, inherited, x, path);
            if path.len() > 1 {
                assert(doc.nodes()[path[0]].kind is Group || doc.nodes()[path[0]].kind is Layer);
            }
            assert(path.len() == 1);
            assert(found[0] == x);
        }
    } else if doc.has(id) && doc.is_container(id) {
        let n = doc.node(id).children@.len() as int;
        lemma_shapes_below_path(doc, id, n, sel, selected, x);
        let children = doc.node(id).children@;
        if found.contains(x) {
            let (k, rest) = choose|k: int, rest: Seq<NodeId>|
                0 <= k < n && #[trigger] is_selected_shape(
                    doc,
                    children[k],
                    sel,
                    selected,
                    x,
                    rest,
                );
            let path = seq![id] + rest;
            assert(children.contains(children[k]));
            assert forall|i: int| 0 <= i < path.len() implies doc.nodes().contains_key(
                #[trigger] path[i],
            ) by {
                if i > 0 {
                    assert(path[i] == rest[i - 1]);
                }
            }
            assert forall|i: int| 0 <= i < path.len() - 1 implies {
                &&& doc.nodes()[#[trigger] path[i]].kind is Group || doc.nodes()[path[i]].kind
                    is Layer
                &&& doc.nodes()[path[i]].children@.contains(path[i + 1])
            } by {
                if i > 0 {
                    assert(path[i] == rest[i - 1] && path[i + 1] == rest[i]);
                }
            }
            if !inherited {
                if sel.contains(id) {
                    assert(sel.contains(path[0]));
                } else {
                    let i = choose|i: int| 0 <= i < rest.len() && sel.contains(#[trigger] rest[i]);
                    assert(path[i + 1] == rest[i]);
                }
            }
            assert(is_selected_shape(doc, id, sel, inherited, x, path));
        }
        if exists|path: Seq<NodeId>| #[trigger]
            is_selected_shape(doc, id, sel, inherited, x, path) {
            let path = choose|path: Seq<NodeId>| #[trigger]
                is_selected_shape(doc, id, sel, inherited, x, path);
            assert(path.len() > 1) by {
                if path.len() == 1 {
                    assert(path.last() == id);
                }
            }
            let rest = path.drop_first();
            assert(doc.nodes()[path[0]].children@.contains(path[1]));
            let k = choose|k: int| 0 <= k < n && children[k] == path[1];
            assert forall|i: int| 0 <= i < rest.len() implies doc.nodes().contains_key(
                #[trigger] rest[i],
            ) by {
                assert(rest[i] == path[i + 1]);
            }
            assert forall|i: int| 0 <= i < rest.len() - 1 implies {
                &&& doc.nodes()[#[trigger] rest[i]].kind is Group || doc.nodes()[rest[i]].kind
                    is Layer
                &&& doc.nodes()[rest[i]].children@.contains(rest[i + 1])
            } by {
                assert(rest[i] == path[i + 1] && rest[i + 1] == path[i + 2]);
            }
            if !selected {
                let i = choose|i: int| 0 <= i < path.len() && sel.contains(#[trigger] path[i]);
                assert(rest[i - 1] == path[i]);
            }
            assert(is_selected_shape(doc, children[k], sel, selected, x, rest));
        }
    } else {
        if exists|path: Seq<NodeId>| #[trigger]
            is_selected_shape(doc, id, sel, inherited, x, path) {
            let path = choose|path: Seq<NodeId>| #[trigger]
                is_selected_shape(doc, id, sel, inherited, x, path);
            assert(doc.nodes().contains_key(path[0]));
            if path.len() > 1 {
                assert(doc.nodes()[path[0]].kind is Group || doc.nodes()[path[0]].kind is Layer);
            }
        }
    }
}

proof fn lemma_shapes_below_path(
    doc: Document,
    id: NodeId,
    k: int,
    sel: Seq<NodeId>,
    inherited: bool,
    x: NodeId,
)
    requires
        doc.wf(),
        doc.has(id),
        0 <= k <= doc.node(id).children@.len(),
    ensures
        doc.shapes_below(id, k, sel, inherited).contains(x) <==> exists|i: int, path: Seq<NodeId>|
            0 <= i < k && #[trigger] is_selected_shape(
                doc,
                doc.node(id).children@[i],
                sel,
                inherited,
                x,
                path,
            ),
    decreases doc.height(id), k,
{
    let children = doc.node(id).children@;
    if k > 0 {
        lemma_shapes_path(doc, children[k - 1], sel, inherited, x);
        lemma_shapes_below_path(doc, id, k - 1, sel, inherited, x);
        lemma_contains_add(
            doc.shapes(children[k - 1], sel, inherited),
            doc.shapes_below(id, k - 1, sel, inherited),
            x,
        );
        if doc.shapes(children[k - 1], sel, inherited).contains(x) {
            let path = choose|path: Seq<NodeId>| #[trigger]
                is_selected_shape(doc, children[k - 1], sel, inherited, x, path);
            assert(is_selected_shape(doc, children[k - 1], sel, inherited, x, path));
        }
        if exists|i: int, path: Seq<NodeId>|
            0 <= i < k && #[trigger] is_selected_shape(doc, children[i], sel, inherited, x, path) {
            let (i, path) = choose|i: int, path: Seq<NodeId>|
                0 <= i < k && #[trigger] is_selected_shape(doc, children[i], sel, inherited, x, path);
            if i == k - 1 {
                assert(is_selected_shape(doc, children[k - 1], sel, inherited, x, path));
            }
        }
    }
}

proof fn lemma_shapes_of_path(doc: Document, s: Seq<NodeId>, sel: Seq<NodeId>, x: NodeId)
    requires
        doc.wf(),
    ensures
        doc.shapes_of(s, sel).contains(x) <==> exists|i: int, path: Seq<NodeId>|
            0 <= i < s.len() && #[trigger] is_selected_shape(doc, s[i], sel, false, x, path),
    decreases s.len(),
{
    if s.len() > 0 {
        let front = s.drop_last();
        lemma_shapes_path(doc, s.last(), sel, false, x);
        lemma_shapes_of_path(doc, front, sel, x);
        lemma_contains_add(doc.shapes(s.last(), sel, false), doc.shapes_of(front, sel), x);
        if doc.shapes(s.last(), sel, false).contains(x) {
            let path = choose|path: Seq<NodeId>| #[trigger]
                is_selected_shape(doc, s.last(), sel, false, x, path);
            assert(is_selected_shape(doc, s[s.len() - 1], sel, false, x, path));
        }
        if doc.shapes_of(front, sel).contains(x) {
            let (i, path) = choose|i: int, path: Seq<NodeId>|
                0 <= i < front.len() && #[trigger] is_selected_shape(
                    doc,
                    front[i],
                    sel,
                    false,
                    x,
                    path,
                );
            assert(is_selected_shape(doc, s[i], sel, false, x, path));
        }
        if exists|i: int, path: Seq<NodeId>|
            0 <= i < s.len() && #[trigger] is_selected_shape(doc, s[i], sel, false, x, path) {
            let (i, path) = choose|i: int, path: Seq<NodeId>|
                0 <= i < s.len() && #[trigger] is_selected_shape(doc, s[i], sel, false, x, path);
            if i < front.len() {
                assert(is_selected_shape(doc, front[i], sel, false, x, path));
            } else {
                assert(is_selected_shape(doc, s.last(), sel, false, x, path));
            }
        }
    }
}

/// The selected shapes are exactly the shapes of the main composition that are selected,
/// themselves or with a group or a layer that they stand in; none is listed twice.
pub proof fn law_selected_shapes_are_all_found(
    doc: Document,
    sel: Vec<NodeId>,
    x: NodeId,
    r: Vec<NodeId>,
)
    requires
        doc.wf(),
        call_ensures(Document::selected_shape_roots_in_z_order, (&doc, &sel), r),
    ensures
        r@.no_duplicates(),
        doc.comp(doc.main_id()) matches Some(c) ==> in_order(
            r@,
            doc.shapes_of(c.children@, sel@),
        ),
        r@.contains(x) <==> doc.comp(doc.main_id()) is Some && exists|i: int, path: Seq<NodeId>|
            0 <= i < doc.comp(doc.main_id())->0.children@.len() && #[trigger] is_selected_shape(
                doc,
                doc.comp(doc.main_id())->0.children@[i],
                sel@,
                false,
                x,
                path,
            ),
{
    if let Some(c) = doc.comp(doc.main_id()) {
        let all = doc.shapes_of(c.children@, sel@);
        lemma_shapes_of_path(doc, c.children@, sel@, x);
        crate::laws::law_dedup_keeps_each_once(all);
        assert(dedup(all).contains(x) <==> all.contains(x));
        law_dedup_keeps_the_first(all, x);
    }
}

/// The selected shapes come bottom first: those of later nodes before those of earlier
/// ones, at the top and within a container.
pub proof fn law_selected_shapes_come_bottom_first(
    doc: Document,
    sel: Seq<NodeId>,
    a: Seq<NodeId>,
    b: Seq<NodeId>,
)
    ensures
        doc.shapes_of(a + b, sel) == doc.shapes_of(b, sel) + doc.shapes_of(a, sel),
    decreases b.len(),
{
    if b.len() == 0 {
        assert(a + b =~= a);
        assert(doc.shapes_of(b, sel) + doc.shapes_of(a, sel) =~= doc.shapes_of(a, sel));
    } else {
        assert((a + b).drop_last() =~= a + b.drop_last());
        assert((a + b).last() == b.last());
        law_selected_shapes_come_bottom_first(doc, sel, a, b.drop_last());
        assert(doc.shapes_of(a + b, sel) =~= doc.shapes_of(b, sel) + doc.shapes_of(a, sel));
    }
}

/// Within a container the shapes come bottom first too: what the whole container gives
/// is what its last child gives, then what the children before it give.
pub proof fn law_contained_shapes_come_bottom_first(
    doc: Document,
    id: NodeId,
    sel: Seq<NodeId>,
    k: int,
)
    requires
        doc.wf(),
        doc.nodes().contains_key(id),
        doc.nodes()[id].kind is Group || doc.nodes()[id].kind is Layer,
        !sel.contains(id),
        0 <= k <= doc.nodes()[id].children@.len(),
    ensures
        doc.shapes(id, sel, false) == doc.shapes_of(doc.nodes()[id].children@.skip(k), sel)
            + doc.shapes_of(doc.nodes()[id].children@.take(k), sel),
{
    let children = doc.node(id).children@;
    lemma_shapes_below_is_of(doc, id, children.len() as int, sel);
    assert(children.take(children.len() as int) =~= children);
    law_selected_shapes_come_bottom_first(doc, sel, children.take(k), children.skip(k));
    assert(children.take(k) + children.skip(k) =~= children);
}

proof fn lemma_shapes_below_is_of(doc: Document, id: NodeId, k: int, sel: Seq<NodeId>)
    requires
        doc.wf(),
        doc.has(id),
        0 <= k <= doc.node(id).children@.len(),
    ensures
        doc.shapes_below(id, k, sel, false) == doc.shapes_of(doc.node(id).children@.take(k), sel),
    decreases k,
{
    let children = doc.node(id).children@;
    if k > 0 {
        lemma_shapes_below_is_of(doc, id, k - 1, sel);
        assert(children.take(k).drop_last() =~= children.take(k - 1));
        assert(children.take(k).last() == children[k - 1]);
    }
}

/// What can be expanded: the nodes of the main composition's forest that have a child.
pub proof fn law_expandable_nodes_have_children(
    doc: Document,
    x: NodeId,
    r: std::collections::HashSet<NodeId>,
)
    requires
        doc.wf(),
        call_ensures(Document::expandable_nodes, (&doc,), r),
    ensures
        r@.contains(x) <==> doc.comp(doc.main_id()) is Some && doc.forest(
            doc.comp(doc.main_id())->0.children@,
        ).contains(x) && doc.nodes()[x].children@.len() > 0,
{
}

/// Revealing a selection opens every ancestor of every selected node, and closes
/// nothing.
pub proof fn law_revealing_opens_the_ancestors()
    ensures
        forall|
            doc: Document,
            sel: Vec<NodeId>,
            open: &mut std::collections::HashSet<NodeId>,
            x: NodeId,
        |
            #![trigger call_ensures(Document::reveal_selection, (&doc, &sel, open), ()), open@.contains(x)]
            call_ensures(Document::reveal_selection, (&doc, &sel, open), ())
                ==> ((*final(open))@.contains(x) <==> open@.contains(x) || exists|
                i: int,
            |
                0 <= i < sel@.len() && doc.ancestors(#[trigger] sel@[i]).contains(x)),
{
}

/// A later element is dropped exactly where an earlier one is the same.
pub proof fn law_dedup_keeps_the_first(s: Seq<NodeId>, x: NodeId)
    ensures
        in_order(dedup(s), s),
        dedup(s.push(x)).len() == dedup(s).len() + (if s.contains(x) {
            0int
        } else {
            1int
        }),
        dedup(s.push(x)).take(dedup(s).len() as int) == dedup(s),
    decreases s.len(),
{
    assert(s.push(x).drop_last() =~= s);
    crate::laws::law_dedup_keeps_each_once(s);
    assert(dedup(s).contains(x) <==> s.contains(x));
    assert(dedup(s.push(x)).take(dedup(s).len() as int) =~= dedup(s));
    if s.len() > 0 {
        let front = s.drop_last();
        law_dedup_keeps_the_first(front, x);
        crate::laws::law_dedup_keeps_each_once(front);
        let part = dedup(s);
        let before = dedup(front);
        assert forall|i: int, j: int| 0 <= i < j < part.len() implies stands_before(
            s,
            #[trigger] part[i],
            #[trigger] part[j],
        ) by {
            if j < before.len() {
                assert(stands_before(front, before[i], before[j]));
                let (a, b) = choose|a: int, b: int|
                    #![trigger front[a], front[b]]
                    0 <= a < b < front.len() && front[a] == before[i] && front[b] == before[j];
                assert(s[a] == part[i] && s[b] == part[j]);
            } else {
                assert(before.contains(before[i]));
                let a = choose|a: int| 0 <= a < front.len() && front[a] == before[i];
                assert(s[a] == part[i] && s[s.len() - 1] == part[j]);
            }
        }
    }
}

/// Lookups give what the node holds: its parent, its place, its children, its kind, and
/// how many of a list are painted.
pub proof fn law_lookups(doc: Document, id: NodeId, parent: Parent, s: Vec<NodeId>)
    ensures
        forall|r: Option<NodeId>| #[trigger]
            call_ensures(Document::parent_of, (&doc, id), r) ==> {
                &&& doc.nodes().contains_key(id) ==> r == doc.nodes()[id].parent
                &&& !doc.nodes().contains_key(id) ==> r is None
            },
        forall|r: Option<Location>| #[trigger]
            call_ensures(Document::locate, (&doc, id), r) ==> {
                &&& doc.nodes().contains_key(id) ==> r == doc.nodes()[id].location
                &&& !doc.nodes().contains_key(id) ==> r is None
            },
        forall|r: Option<&Vec<NodeId>>| #[trigger]
            call_ensures(Document::child_list, (&doc, parent), r) ==> {
                &&& parent matches Parent::Node(n) ==> (r is Some <==> doc.nodes().contains_key(n))
                    && (r is Some ==> r->0@ == doc.nodes()[n].children@)
                &&& parent matches Parent::Comp(c) ==> (r is Some <==> doc.comp(c) is Some) && (r
                    is Some ==> r->0@ == doc.comp(c)->0.children@)
            },
        forall|r: bool| #[trigger]
            call_ensures(Document::painted, (&doc, id), r) ==> (r <==> doc.nodes().contains_key(id)
                && (doc.nodes()[id].kind is Shape || doc.nodes()[id].kind is Text)),
        forall|r: bool| #[trigger]
            call_ensures(Document::container, (&doc, id), r) ==> (r <==> doc.nodes().contains_key(
                id,
            ) && (doc.nodes()[id].kind is Group || doc.nodes()[id].kind is Layer)),
        forall|r: bool| #[trigger]
            call_ensures(Document::free, (&doc, id), r) ==> (r <==> doc.nodes().contains_key(id)
                && !doc.nodes()[id].locked),
        forall|r: usize| #[trigger]
            call_ensures(Document::count_painted, (&doc, &s), r) ==> r == doc.painted_count(s@),
{
}

/// Expanding all opens every node of the main composition that has children, collapsing
/// all closes every one; showing the selection opens what it stands in.
pub proof fn law_expanding_all(doc: Document, x: NodeId)
    requires
        doc.wf(),
    ensures
        forall|s: &mut Session, expanded: bool| #[trigger]
            call_ensures(Session::set_all_expanded, (s, &doc, expanded), ()) ==> {
                &&& !expanded ==> !(*final(s)).expanded_layers@.contains(x)
                &&& expanded ==> ((*final(s)).expanded_layers@.contains(x) <==> doc.comp(
                    doc.main_id(),
                ) is Some && doc.forest(doc.comp(doc.main_id())->0.children@).contains(x)
                    && doc.nodes()[x].children@.len() > 0)
                &&& (*final(s)).selection == (*s).selection
            },
        forall|s: &mut Session| #[trigger]
            call_ensures(Session::ensure_selection_visible, (s, &doc), ()) ==> {
                &&& (*final(s)).expanded_layers@.contains(x) <==> (*s).expanded_layers@.contains(x)
                    || exists|i: int|
                    0 <= i < (*s).selection@.len() && doc.ancestors(
                        #[trigger] (*s).selection@[i],
                    ).contains(x)
                &&& (*final(s)).selection == (*s).selection
            },
{
}

} // verus!
