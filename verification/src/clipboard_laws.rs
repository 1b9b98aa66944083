//! What copying takes, and where pasting puts it.
use vstd::prelude::*;

use crate::arrange_laws::is_open;
use crate::clipboard::{paste_order, EditClosed, InsertRun};
use crate::commands::{Edit, EditorCommand, TreeSource};
use crate::kept::{keeps, lemma_filter_keeps, lemma_keeps_holds, passing};
use crate::model::{Document, Handle, Location, NodeId, Parent, StyleKind};
use crate::session::{ClipboardItem, Session, StyleCopy};
use crate::tree_laws::are_rows_of;

verus! {

/// Whether the parent is still there to insert under: a composition, or a node that has
/// a parent or stands in a composition.
pub open spec fn takes_children(doc: Document, parent: Parent) -> bool {
    match parent {
        Parent::Comp(c) => doc.comp(c) is Some,
        Parent::Node(n) => doc.nodes().contains_key(n) && (doc.nodes()[n].parent is Some || exists|
            i: int,
        |
            0 <= i < doc.comps().len() && (#[trigger] doc.comps()[i]).children@.contains(n)),
    }
}

/// Pasting in place goes back to where an item was taken from: under its own parent
/// where that is still there, else under the main composition, and at its own index.
pub proof fn law_paste_in_place_goes_back(
    run: InsertRun,
    doc: Document,
    r: Option<EditorCommand>,
)
    requires
        run.wf(),
        run.placement is InPlace,
        call_ensures(InsertRun::next_command, (&run, &doc), r),
    ensures
        r is Some <==> run.next < run.order@.len(),
        r is Some ==> {
            let k = run.order@[run.next as int];
            let item = run.items@[k as int];
            &&& r->0 matches EditorCommand::InsertNode { parent, index, tree } && {
                &&& takes_children(doc, item.source_parent) ==> parent == item.source_parent
                &&& !takes_children(doc, item.source_parent) ==> parent == Parent::Comp(
                    doc.main_id(),
                )
                &&& index == item.source_index
                &&& tree == (TreeSource::Item { item: k, shifted: false })
            }
        },
{
}

/// A plain paste puts every item on top of the main composition, off its place.
pub proof fn law_paste_goes_on_top(run: InsertRun, doc: Document, r: Option<EditorCommand>)
    requires
        run.wf(),
        run.placement is Top,
        call_ensures(InsertRun::next_command, (&run, &doc), r),
    ensures
        r is Some <==> run.next < run.order@.len(),
        r is Some ==> r->0 == (EditorCommand::InsertNode {
            parent: Parent::Comp(doc.main_id()),
            index: 0,
            tree: TreeSource::Item { item: run.order@[run.next as int], shifted: true },
        }),
{
}

/// An insertion goes through its items one by one and remembers every node that was
/// created.
pub proof fn law_insertion_remembers_what_it_created()
    ensures
        forall|s: &mut InsertRun, created: Option<NodeId>|
            s.next < s.order.len() && #[trigger] call_ensures(
                InsertRun::inserted,
                (s, created),
                (),
            ) ==> {
                &&& (*final(s)).next == (*s).next + 1
                &&& (*final(s)).items == (*s).items
                &&& (*final(s)).order == (*s).order
                &&& (*final(s)).placement == (*s).placement
                &&& created is None ==> (*final(s)).created@ == (*s).created@
                &&& created matches Some(id) ==> (*final(s)).created@ == (*s).created@.push(id)
            },
{
}

/// The roots of a selection that can be copied: those that stand somewhere and are open.
pub open spec fn taken(doc: Document, roots: Seq<NodeId>) -> Seq<Option<NodeId>> {
    Seq::new(
        roots.len(),
        |i: int|
            if is_open(doc, roots[i]) && doc.nodes()[roots[i]].location is Some {
                Some(roots[i])
            } else {
                None
            },
    )
}

/// Whether the item holds the whole tree of the node and where it stands.
pub open spec fn is_copy(doc: Document, item: ClipboardItem, id: NodeId) -> bool {
    &&& are_rows_of(doc, item.tree@, doc.subtree(id))
    &&& doc.nodes()[id].location matches Some(at) && at.parent == item.source_parent && at.index
        == item.source_index
}

proof fn lemma_copyable(doc: Document, sel: Seq<NodeId>)
    ensures
        keeps(doc.copyable(sel), taken(doc, doc.roots(sel))),
{
    let test = |id: NodeId| doc.located(id) is Some && doc.is_free(id);
    lemma_filter_keeps(doc.roots(sel), test);
    assert(passing(doc.roots(sel), test) =~= taken(doc, doc.roots(sel)));
}

/// Copying takes every selected root that stands somewhere and is open, in order, each
/// with its whole tree and its place, and the styles of the first; nothing else of the
/// session changes but what the edit under way left, and where nothing can be taken the
/// clipboard stays.
pub proof fn law_copying_takes_every_open_root(
    a: Session,
    b: Session,
    doc: Document,
    transaction_open: bool,
    roots: Vec<NodeId>,
    r: EditClosed,
)
    requires
        doc.wf(),
        call_ensures(Document::selected_roots, (&doc, &a.selection), roots),
        forall|k: int|
            0 <= k < doc.copyable(a.selection@).len() ==> doc.complete(
                #[trigger] doc.copyable(a.selection@)[k],
            ),
        exists|s: &mut Session| #[trigger]
            call_ensures(Session::copy_selection, (s, &doc, transaction_open), r) && *s == a
                && *final(s) == b,
    ensures
        b.selection == a.selection,
        (forall|i: int| 0 <= i < roots@.len() ==> (#[trigger] taken(doc, roots@)[i]) is None)
            ==> b.clipboard == a.clipboard,
        (exists|i: int| 0 <= i < roots@.len() && (#[trigger] taken(doc, roots@)[i]) is Some) ==> {
            &&& b.clipboard is Some
            &&& exists|ids: Seq<NodeId>|
                {
                    &&& #[trigger] keeps(ids, taken(doc, roots@))
                    &&& b.clipboard->0.items@.len() == ids.len()
                    &&& forall|k: int|
                        0 <= k < ids.len() ==> is_copy(
                            doc,
                            #[trigger] b.clipboard->0.items@[k],
                            ids[k],
                        )
                    &&& forall|styles: Vec<StyleCopy>| #[trigger]
                        call_ensures(Document::immediate_style_kinds, (&doc, ids[0]), styles)
                            ==> b.clipboard->0.style_nodes@ == styles@
                }
        },
{
    let ids = doc.copyable(a.selection@);
    lemma_copyable(doc, a.selection@);
    lemma_keeps_holds(ids, taken(doc, roots@));
    if ids.len() > 0 {
        assert forall|k: int| 0 <= k < ids.len() implies is_copy(
            doc,
            #[trigger] b.clipboard->0.items@[k],
            ids[k],
        ) by {
            lemma_item(doc, b.clipboard->0.items@[k], ids[k]);
        }
    }
}

proof fn lemma_item(doc: Document, item: ClipboardItem, id: NodeId)
    requires
        doc.wf(),
        doc.complete(id),
        doc.copy_of(item, id),
    ensures
        is_copy(doc, item, id),
{
    crate::tree_laws::lemma_rows(doc, id);
}

/// A cut copies like a copy, removes every node that it took, once and in order, and
/// clears the selection.
pub proof fn law_cutting_removes_what_it_takes(
    a: Session,
    b: Session,
    doc: Document,
    transaction_open: bool,
    roots: Vec<NodeId>,
    r: (EditClosed, Option<Edit>),
)
    requires
        doc.wf(),
        call_ensures(Document::selected_roots, (&doc, &a.selection), roots),
        forall|k: int|
            0 <= k < doc.copyable(a.selection@).len() ==> doc.complete(
                #[trigger] doc.copyable(a.selection@)[k],
            ),
        exists|s: &mut Session| #[trigger]
            call_ensures(Session::cut_selection, (s, &doc, transaction_open), r) && *s == a
                && *final(s) == b,
    ensures
        r.1 is None <==> forall|i: int|
            0 <= i < roots@.len() ==> (#[trigger] taken(doc, roots@)[i]) is None,
        r.1 is None ==> b.clipboard == a.clipboard,
        r.1 matches Some(e) ==> exists|ids: Seq<NodeId>|
            {
                &&& #[trigger] keeps(ids, taken(doc, roots@))
                &&& e.commands@.len() == ids.len()
                &&& forall|k: int|
                    0 <= k < ids.len() ==> #[trigger] e.commands@[k]
                        == (EditorCommand::RemoveNode { id: ids[k] })
                &&& e.select matches Some(s) && s@.len() == 0
                &&& b.clipboard matches Some(payload) && {
                    &&& payload.items@.len() == ids.len()
                    &&& forall|k: int|
                        0 <= k < ids.len() ==> is_copy(doc, #[trigger] payload.items@[k], ids[k])
                    &&& forall|styles: Vec<StyleCopy>| #[trigger]
                        call_ensures(Document::immediate_style_kinds, (&doc, ids[0]), styles)
                            ==> payload.style_nodes@ == styles@
                }
            },
{
    let ids = doc.copyable(a.selection@);
    lemma_copyable(doc, a.selection@);
    lemma_keeps_holds(ids, taken(doc, roots@));
    if ids.len() > 0 {
        assert forall|k: int| 0 <= k < ids.len() implies is_copy(
            doc,
            #[trigger] b.clipboard->0.items@[k],
            ids[k],
        ) by {
            lemma_item(doc, b.clipboard->0.items@[k], ids[k]);
        }
    }
}

/// Whether two items hold the same.
pub open spec fn equal_items(a: ClipboardItem, b: ClipboardItem) -> bool {
    a.tree@ == b.tree@ && a.source_parent == b.source_parent && a.source_index == b.source_index
}

/// A paste in place inserts every copied item once: those of a composition before those
/// of a node, and those of one parent by their index.
pub proof fn law_paste_in_place_inserts_every_item_once(
    a: Session,
    b: Session,
    transaction_open: bool,
    r: Option<(EditClosed, InsertRun)>,
)
    requires
        exists|s: &mut Session| #[trigger]
            call_ensures(Session::paste_clipboard_in_place, (s, transaction_open), r) && *s == a
                && *final(s) == b,
    ensures
        r is Some <==> a.clipboard is Some && a.clipboard->0.items@.len() > 0,
        b.clipboard == a.clipboard,
        r matches Some((closed, run)) ==> {
            let n = a.clipboard->0.items@.len();
            &&& run.wf() && run.placement is InPlace && run.next == 0 && run.created@.len() == 0
            &&& run.items@.len() == n && run.order@.len() == n
            &&& forall|i: int|
                0 <= i < n ==> equal_items(#[trigger] run.items@[i], a.clipboard->0.items@[i])
            &&& forall|i: usize| i < n ==> #[trigger] run.order@.contains(i)
            &&& run.order@.no_duplicates()
            &&& forall|i: int, j: int|
                0 <= i < j < n ==> {
                    let x = run.items@[#[trigger] run.order@[i] as int];
                    let y = run.items@[#[trigger] run.order@[j] as int];
                    &&& y.source_parent is Comp ==> x.source_parent is Comp
                    &&& x.source_parent == y.source_parent ==> x.source_index <= y.source_index
                    &&& x.source_parent == y.source_parent && x.source_index == y.source_index
                        ==> run.order@[i] < run.order@[j]
                    &&& x.source_parent matches Parent::Comp(c) ==> (y.source_parent
                        matches Parent::Comp(d) ==> c <= d)
                    &&& x.source_parent matches Parent::Node(c) ==> (y.source_parent
                        matches Parent::Node(d) ==> c <= d)
                }
        },
{
    if let Some((closed, run)) = r {
        assert(run.items.len() == run.items@.len());
        lemma_order(run.items@, run.order@);
        assert forall|i: int, j: int| 0 <= i < j < run.order@.len() implies {
            let x = run.items@[#[trigger] run.order@[i] as int];
            let y = run.items@[#[trigger] run.order@[j] as int];
            &&& y.source_parent is Comp ==> x.source_parent is Comp
            &&& x.source_parent == y.source_parent ==> x.source_index <= y.source_index
            &&& x.source_parent == y.source_parent && x.source_index == y.source_index
                ==> run.order@[i] < run.order@[j]
            &&& x.source_parent matches Parent::Comp(c) ==> (y.source_parent matches Parent::Comp(d)
                ==> c <= d)
            &&& x.source_parent matches Parent::Node(c) ==> (y.source_parent matches Parent::Node(d)
                ==> c <= d)
        } by {
            assert(crate::clipboard::pasted_before(
                run.items@,
                run.order@[i] as int,
                run.order@[j] as int,
            ));
        }
    }
}

proof fn lemma_order(items: Seq<ClipboardItem>, order: Seq<usize>)
    requires
        paste_order(items, order),
        items.len() <= usize::MAX,
    ensures
        order.no_duplicates(),
        forall|i: usize| i < items.len() ==> #[trigger] order.contains(i),
{
    assert forall|i: int, j: int| 0 <= i < j < order.len() implies order[i] != order[j] by {
        assert(crate::clipboard::pasted_before(items, order[i] as int, order[j] as int));
    }
    lemma_all_listed(order, items.len());
}

/// Numbers below `n`, `n` of them and none twice, are all the numbers below `n`.
pub proof fn lemma_all_listed(order: Seq<usize>, n: nat)
    requires
        order.len() == n,
        n <= usize::MAX,
        order.no_duplicates(),
        forall|i: int| 0 <= i < order.len() ==> #[trigger] order[i] < n,
    ensures
        forall|i: usize| i < n ==> #[trigger] order.contains(i),
{
    let as_ints = Seq::new(n, |i: int| order[i] as int);
    assert(as_ints.no_duplicates()) by {
        assert forall|i: int, j: int| 0 <= i < n && 0 <= j < n && i != j implies as_ints[i]
            != as_ints[j] by {
            assert(order[i] != order[j]);
        }
    }
    as_ints.unique_seq_to_set();
    let all = vstd::set_lib::set_int_range(0, n as int);
    vstd::set_lib::lemma_int_range(0, n as int);
    assert forall|x: int| #[trigger] as_ints.to_set().contains(x) implies all.contains(x) by {
        let i = choose|i: int| 0 <= i < as_ints.len() && as_ints[i] == x;
        assert(order[i] < n);
    }
    vstd::set_lib::lemma_subset_equality(as_ints.to_set(), all);
    assert forall|i: usize| i < n implies #[trigger] order.contains(i) by {
        assert(all.contains(i as int));
        assert(as_ints.contains(i as int));
        let k = choose|k: int| 0 <= k < as_ints.len() && as_ints[k] == i as int;
        assert(order[k] == i);
    }
}

/// A plain paste inserts every copied item once, in the order in which they were copied.
pub proof fn law_paste_inserts_every_item_in_order(
    a: Session,
    b: Session,
    transaction_open: bool,
    r: Option<(EditClosed, InsertRun)>,
)
    requires
        exists|s: &mut Session| #[trigger]
            call_ensures(Session::paste_clipboard, (s, transaction_open), r) && *s == a
                && *final(s) == b,
    ensures
        r is Some <==> a.clipboard is Some && a.clipboard->0.items@.len() > 0,
        b.clipboard == a.clipboard,
        r matches Some((closed, run)) ==> {
            let n = a.clipboard->0.items@.len();
            &&& run.wf() && run.placement is Top && run.next == 0 && run.created@.len() == 0
            &&& run.items@.len() == n && run.order@.len() == n
            &&& forall|i: int|
                0 <= i < n ==> equal_items(#[trigger] run.items@[i], a.clipboard->0.items@[i])
            &&& forall|i: int| 0 <= i < n ==> #[trigger] run.order@[i] == i
        },
{
}

/// Whether the command for the item of turn `n` inserts it unmoved at `at`.
pub open spec fn pastes_at(run: InsertRun, doc: Document, n: int, at: Location) -> bool {
    forall|at_n: InsertRun, command: Option<EditorCommand>|
        at_n.next == n && at_n.items == run.items && at_n.order == run.order && at_n.placement
            == run.placement && #[trigger] call_ensures(
            InsertRun::next_command,
            (&at_n, &doc),
            command,
        ) ==> command == Some(
            EditorCommand::InsertNode {
                parent: at.parent,
                index: at.index,
                tree: TreeSource::Item { item: run.order@[n], shifted: false },
            },
        )
}

/// Copying nodes and pasting them in place into the same document inserts each under the
/// parent that it stands under, at the index that it stands at, where that parent is
/// attached: a paste in place undoes nothing and moves nothing.
pub proof fn law_copy_then_paste_in_place(
    a: Session,
    b: Session,
    c: Session,
    doc: Document,
    open: bool,
    closed: EditClosed,
    pasted: Option<(EditClosed, InsertRun)>,
    roots: Vec<NodeId>,
    x: NodeId,
)
    requires
        doc.wf(),
        call_ensures(Document::selected_roots, (&doc, &a.selection), roots),
        forall|k: int|
            0 <= k < doc.copyable(a.selection@).len() ==> doc.complete(
                #[trigger] doc.copyable(a.selection@)[k],
            ),
        exists|s: &mut Session| #[trigger]
            call_ensures(Session::copy_selection, (s, &doc, open), closed) && *s == a && *final(s)
                == b,
        exists|s: &mut Session| #[trigger]
            call_ensures(Session::paste_clipboard_in_place, (s, false), pasted) && *s == b
                && *final(s) == c,
        roots@.contains(x),
        is_open(doc, x),
        doc.nodes()[x].location is Some,
        takes_children(doc, doc.nodes()[x].location->0.parent),
    ensures
        pasted is Some,
        exists|n: int|
            {
                &&& 0 <= n < (pasted->0).1.order@.len()
                &&& are_rows_of(
                    doc,
                    (pasted->0).1.items@[(#[trigger] (pasted->0).1.order@[n]) as int].tree@,
                    doc.subtree(x),
                )
                &&& pastes_at(
                    (pasted->0).1,
                    doc,
                    n,
                    doc.nodes()[x].location->0,
                )
            },
{
    let ids = doc.copyable(a.selection@);
    lemma_copyable(doc, a.selection@);
    lemma_keeps_holds(ids, taken(doc, roots@));
    let i = choose|i: int| 0 <= i < roots@.len() && roots@[i] == x;
    assert(taken(doc, roots@)[i] == Some(x));
    assert(taken(doc, roots@).contains(Some(x)));
    assert(ids.contains(x));
    let k = choose|k: int| 0 <= k < ids.len() && ids[k] == x;
    assert(doc.copy_of(b.clipboard->0.items@[k], ids[k]));
    law_paste_in_place_inserts_every_item_once(b, c, false, pasted);
    let run = (pasted->0).1;
    assert(run.items.len() == run.items@.len());
    assert(run.order@.contains(k as usize));
    let n = choose|n: int| 0 <= n < run.order@.len() && run.order@[n] == k;
    assert(equal_items(run.items@[k], b.clipboard->0.items@[k]));
    crate::tree_laws::lemma_rows(doc, x);
    assert(run.order.len() == run.order@.len());
    assert(run.order@[n] == k);
}

/// The nodes that are open.
pub open spec fn unlocked(doc: Document, ids: Seq<NodeId>) -> Seq<Option<NodeId>> {
    passing(ids, |id: NodeId| is_open(doc, id))
}

/// Duplicating takes every selected root that is open, in order, each with its whole
/// tree, to the top of the main composition; it leaves the clipboard.
pub proof fn law_duplicating_takes_every_open_root(
    a: Session,
    b: Session,
    doc: Document,
    transaction_open: bool,
    roots: Vec<NodeId>,
    r: (EditClosed, Option<InsertRun>),
)
    requires
        doc.wf(),
        call_ensures(Document::selected_roots, (&doc, &a.selection), roots),
        forall|k: int|
            0 <= k < doc.duplicable(a.selection@).len() ==> doc.complete(
                #[trigger] doc.duplicable(a.selection@)[k],
            ),
        exists|s: &mut Session| #[trigger]
            call_ensures(Session::duplicate_selection, (s, &doc, transaction_open), r) && *s == a
                && *final(s) == b,
    ensures
        b.clipboard == a.clipboard,
        b.selection == a.selection,
        r.1 is Some <==> exists|i: int| 0 <= i < roots@.len() && is_open(doc, #[trigger] roots@[i]),
        r.1 matches Some(run) ==> {
            &&& run.wf() && run.placement is Top && run.next == 0 && run.created@.len() == 0
            &&& run.order@.len() == run.items@.len()
            &&& forall|i: int| 0 <= i < run.order@.len() ==> #[trigger] run.order@[i] == i
            &&& exists|ids: Seq<NodeId>|
                {
                    &&& #[trigger] keeps(ids, unlocked(doc, roots@))
                    &&& run.items@.len() == ids.len()
                    &&& forall|k: int|
                        0 <= k < ids.len() ==> are_rows_of(
                            doc,
                            (#[trigger] run.items@[k]).tree@,
                            doc.subtree(ids[k]),
                        )
                }
        },
{
    let test = |id: NodeId| doc.is_free(id);
    let ids = doc.duplicable(a.selection@);
    lemma_filter_keeps(roots@, test);
    let wanted = unlocked(doc, roots@);
    assert(passing(roots@, test) =~= wanted);
    lemma_keeps_holds(ids, wanted);
    assert forall|i: int| 0 <= i < roots@.len() implies (#[trigger] wanted[i] is Some <==> is_open(
        doc,
        roots@[i],
    )) by {}
    if ids.len() == 0 {
        assert forall|i: int| 0 <= i < roots@.len() implies !is_open(doc, #[trigger] roots@[i]) by {
            assert(wanted[i] is None);
        }
    }
    if let Some(run) = r.1 {
        assert forall|k: int| 0 <= k < ids.len() implies are_rows_of(
            doc,
            (#[trigger] run.items@[k]).tree@,
            doc.subtree(ids[k]),
        ) by {
            crate::tree_laws::lemma_rows(doc, ids[k]);
        }
        assert(keeps(ids, wanted));
    }
}

/// What may be copied and duplicated lacks no child below the nodes that are taken.
pub proof fn law_whole_trees_may_be_copied(
    a: Session,
    doc: Document,
    roots: Vec<NodeId>,
    copy: bool,
    twice: bool,
)
    requires
        doc.wf(),
        call_ensures(Document::selected_roots, (&doc, &a.selection), roots),
        call_ensures(Session::may_copy, (&a, &doc), copy),
        call_ensures(Session::may_duplicate, (&a, &doc), twice),
    ensures
        copy <==> forall|i: int|
            0 <= i < roots@.len() && is_open(doc, #[trigger] roots@[i])
                && doc.nodes()[roots@[i]].location is Some ==> doc.complete(roots@[i]),
        twice <==> forall|i: int|
            0 <= i < roots@.len() && is_open(doc, #[trigger] roots@[i]) ==> doc.complete(roots@[i]),
{
    let ids = doc.copyable(a.selection@);
    lemma_copyable(doc, a.selection@);
    lemma_keeps_holds(ids, taken(doc, roots@));
    let all = doc.duplicable(a.selection@);
    let test = |id: NodeId| doc.is_free(id);
    lemma_filter_keeps(roots@, test);
    lemma_keeps_holds(all, passing(roots@, test));
    assert forall|i: int| 0 <= i < roots@.len() implies {
        &&& is_open(doc, #[trigger] roots@[i]) && doc.nodes()[roots@[i]].location is Some
            ==> ids.contains(roots@[i])
        &&& is_open(doc, roots@[i]) ==> all.contains(roots@[i])
    } by {
        if is_open(doc, roots@[i]) {
            assert(passing(roots@, test)[i] == Some(roots@[i]));
            assert(passing(roots@, test).contains(Some(roots@[i])));
            if doc.nodes()[roots@[i]].location is Some {
                assert(taken(doc, roots@)[i] == Some(roots@[i]));
                assert(taken(doc, roots@).contains(Some(roots@[i])));
            }
        }
    }
    assert forall|k: int| #![trigger ids[k]] 0 <= k < ids.len() implies exists|i: int|
        0 <= i < roots@.len() && #[trigger] roots@[i] == ids[k] && is_open(doc, roots@[i])
            && doc.nodes()[roots@[i]].location is Some by {
        assert(ids.contains(ids[k]));
        let i = choose|i: int|
            0 <= i < taken(doc, roots@).len() && taken(doc, roots@)[i] == Some(ids[k]);
        assert(roots@[i] == ids[k]);
    }
    assert forall|k: int| #![trigger all[k]] 0 <= k < all.len() implies exists|i: int|
        0 <= i < roots@.len() && #[trigger] roots@[i] == all[k] && is_open(doc, roots@[i]) by {
        assert(all.contains(all[k]));
        let i = choose|i: int|
            0 <= i < passing(roots@, test).len() && passing(roots@, test)[i] == Some(all[k]);
        assert(roots@[i] == all[k]);
    }
    if !copy {
        let k = choose|k: int| 0 <= k < ids.len() && !doc.complete(#[trigger] ids[k]);
        let i = choose|i: int|
            0 <= i < roots@.len() && #[trigger] roots@[i] == ids[k] && is_open(doc, roots@[i])
                && doc.nodes()[roots@[i]].location is Some;
        assert(!doc.complete(roots@[i]));
    } else {
        assert forall|i: int|
            0 <= i < roots@.len() && is_open(doc, #[trigger] roots@[i])
                && doc.nodes()[roots@[i]].location is Some implies doc.complete(roots@[i]) by {
            let k = choose|k: int| 0 <= k < ids.len() && ids[k] == roots@[i];
            assert(doc.complete(ids[k]));
        }
    }
    if !twice {
        let k = choose|k: int| 0 <= k < all.len() && !doc.complete(#[trigger] all[k]);
        let i = choose|i: int|
            0 <= i < roots@.len() && #[trigger] roots@[i] == all[k] && is_open(doc, roots@[i]);
        assert(!doc.complete(roots@[i]));
    } else {
        assert forall|i: int|
            0 <= i < roots@.len() && is_open(doc, #[trigger] roots@[i]) implies doc.complete(
            roots@[i],
        ) by {
            let k = choose|k: int| 0 <= k < all.len() && all[k] == roots@[i];
            assert(doc.complete(all[k]));
        }
    }
}

/// Copying, cutting, pasting and duplicating close the edit under way first, and change
/// nothing else of the session but the clipboard, the status and the count of repaints;
/// only copying and cutting change the clipboard.
pub proof fn law_clipboard_closes_the_edit_first(
    a: Session,
    c: Session,
    doc: Document,
    open: bool,
    closed: EditClosed,
)
    requires
        doc.wf(),
        exists|s: &mut Session| #[trigger]
            call_ensures(Session::finalize_open_edit, (s, open), closed) && *s == a && *final(s)
                == c,
    ensures
        forall|s: &mut Session, r: EditClosed|
            *s == a && #[trigger] call_ensures(Session::copy_selection, (s, &doc, open), r) ==> r
                == closed && *final(s) == (Session {
                clipboard: (*final(s)).clipboard,
                status: (*final(s)).status,
                revision: (*final(s)).revision,
                ..c
            }),
        forall|s: &mut Session, r: (EditClosed, Option<Edit>)|
            *s == a && #[trigger] call_ensures(Session::cut_selection, (s, &doc, open), r) ==> r.0
                == closed && *final(s) == (Session {
                clipboard: (*final(s)).clipboard,
                status: (*final(s)).status,
                revision: (*final(s)).revision,
                ..c
            }),
        forall|s: &mut Session, r: (EditClosed, Option<InsertRun>)|
            *s == a && #[trigger] call_ensures(Session::duplicate_selection, (s, &doc, open), r)
                ==> r.0 == closed && *final(s) == (Session {
                status: (*final(s)).status,
                revision: (*final(s)).revision,
                ..c
            }),
        forall|s: &mut Session, r: Option<(EditClosed, InsertRun)>|
            *s == a && #[trigger] call_ensures(Session::paste_clipboard, (s, open), r) && r is Some
                ==> (r->0).0 == closed && *final(s) == c && (r->0).1.label == "Paste",
        forall|s: &mut Session, r: Option<(EditClosed, InsertRun)>|
            *s == a && #[trigger] call_ensures(Session::paste_selection, (s, open), r) && r is Some
                ==> (r->0).0 == closed && *final(s) == c && (r->0).1.placement is Top,
        forall|s: &mut Session, r: Option<(EditClosed, InsertRun)>|
            *s == a && #[trigger] call_ensures(Session::paste_clipboard_in_place, (s, open), r) && r
                is Some ==> (r->0).0 == closed && *final(s) == c && (r->0).1.label
                == "Paste in place",
        forall|s: &mut Session, r: Option<(EditClosed, crate::styling::StyleRun)>|
            *s == a && #[trigger] call_ensures(Session::paste_style, (s, &doc, open), r) && r
                is Some ==> (r->0).0 == closed && *final(s) == c,
        forall|s: &mut Session, outlines: Vec<Option<Handle>>, r: Option<
            (EditClosed, crate::strokes::StrokeRun),
        >|
            *s == a && #[trigger] call_ensures(
                Session::stroke_selection_to_path,
                (s, &doc, &outlines, open),
                r,
            ) && r is Some ==> (r->0).0 == closed && *final(s) == c,
{
}

/// Closing the edit under way commits where a transaction is open or the picker has
/// written to the document, remembers a colour where the picker has written one, ends
/// every drag, and marks the document as changed where a transaction was open.
pub proof fn law_closing_ends_every_drag(
    a: Session,
    b: Session,
    transaction_open: bool,
    r: EditClosed,
)
    requires
        exists|s: &mut Session| #[trigger]
            call_ensures(Session::finalize_open_edit, (s, transaction_open), r) && *s == a
                && *final(s) == b,
    ensures
        transaction_open ==> r.commit,
        r.add_swatch <==> a.open_picker is Some && a.open_picker->0.transaction_open,
        b.inspector_drag is None && b.layer_drag is None && b.machine_drag is None,
        b.selection == a.selection,
        b.clipboard == a.clipboard,
        !r.add_swatch ==> r.commit == transaction_open && b.dirty == (a.dirty || transaction_open)
            && b.revision == a.revision && b.status == a.status,
{
}

/// An insertion that created something selects just that and marks the document as
/// changed; a plain one that created nothing leaves the selection.
pub proof fn law_what_was_inserted_is_selected(
    a: Session,
    b: Session,
    run: InsertRun,
    doc: Document,
    r: bool,
)
    requires
        doc.wf(),
        exists|s: &mut Session| #[trigger]
            call_ensures(Session::finish_insert, (s, run, &doc), r) && *s == a && *final(s) == b,
    ensures
        b.dirty,
        b.clipboard == a.clipboard,
        run.created@.len() > 0 ==> r && b.selection@ == run.created@,
        run.created@.len() == 0 && run.placement is InPlace ==> r && b.selection@.len() == 0,
        run.created@.len() == 0 && run.placement is Top ==> !r && b.selection == a.selection,
        r ==> forall|x: NodeId|
            #![trigger b.expanded_layers@.contains(x)]
            b.expanded_layers@.contains(x) <==> a.expanded_layers@.contains(x) || exists|i: int|
                0 <= i < run.created@.len() && doc.ancestors(#[trigger] run.created@[i]).contains(
                    x,
                ),
{
}

/// The styles of a copy: its fill first, then its stroke, each where it has one, with the
/// style's own value.
pub proof fn law_copied_styles_are_fill_and_stroke(doc: Document, id: NodeId, r: Vec<StyleCopy>)
    requires
        doc.wf(),
        call_ensures(Document::immediate_style_kinds, (&doc, id), r),
    ensures
        ({
            let fill = doc.carried_style(id, StyleKind::Fill);
            let stroke = doc.carried_style(id, StyleKind::Stroke);
            &&& r@.len() == (if fill is Some {
                1int
            } else {
                0int
            }) + (if stroke is Some {
                1int
            } else {
                0int
            })
            &&& fill is Some ==> r@[0].kind is Fill && r@[0].content
                == doc.nodes()[fill->0].content
            &&& stroke is Some ==> r@.last().kind is Stroke && r@.last().content
                == doc.nodes()[stroke->0].content
        }),
{
}

} // verus!
