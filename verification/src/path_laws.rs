//! What the operations on paths write: every command at its place, and no other.
use vstd::prelude::*;

use crate::clipboard::remove_all;
use crate::commands::{Edit, EditorCommand, KindSource, TreeSource};
use crate::model::{Document, Handle, NodeId, NodeKind, ShapeKind};
use crate::pathops::{
    shape_kind_from_contours, BooleanRun, Contours, DivideRun, SelectionBoolean,
};
use crate::session::Session;
use crate::tree::dedup;
use crate::tree_laws::{in_order, lemma_contains_add, lemma_filter_order};

verus! {

/// Whether `commands` make the first of `ids` a shape of the kind and remove each of the
/// others, one command for each of `ids`, and no more.
pub open spec fn merges(commands: Seq<EditorCommand>, ids: Seq<NodeId>, kind: KindSource) -> bool {
    &&& commands.len() == ids.len()
    &&& commands[0] == EditorCommand::SetNodeKind { id: ids[0], kind }
    &&& forall|i: int|
        0 < i < ids.len() ==> #[trigger] commands[i] == (EditorCommand::RemoveNode { id: ids[i] })
    &&& forall|x: NodeId| #[trigger]
        commands.contains(EditorCommand::RemoveNode { id: x }) <==> ids.skip(1).contains(x)
    &&& ids.no_duplicates() ==> !commands.contains(EditorCommand::RemoveNode { id: ids[0] })
}

proof fn lemma_merges(commands: Seq<EditorCommand>, ids: Seq<NodeId>, kind: KindSource)
    requires
        ids.len() > 0,
        commands.len() == ids.len(),
        commands[0] == (EditorCommand::SetNodeKind { id: ids[0], kind }),
        forall|i: int|
            0 < i < ids.len() ==> #[trigger] commands[i] == (EditorCommand::RemoveNode {
                id: ids[i],
            }),
    ensures
        merges(commands, ids, kind),
{
    assert forall|x: NodeId| #[trigger]
        commands.contains(EditorCommand::RemoveNode { id: x }) <==> ids.skip(1).contains(x) by {
        if commands.contains(EditorCommand::RemoveNode { id: x }) {
            let i = choose|i: int|
                0 <= i < commands.len() && commands[i] == (EditorCommand::RemoveNode { id: x });
            assert(ids.skip(1)[i - 1] == x);
        }
        if ids.skip(1).contains(x) {
            let i = choose|i: int| 0 <= i < ids.skip(1).len() && ids.skip(1)[i] == x;
            assert(commands[i + 1] == EditorCommand::RemoveNode { id: x });
        }
    }
    if ids.no_duplicates() && ids.skip(1).contains(ids[0]) {
        let i = choose|i: int| 0 <= i < ids.skip(1).len() && ids.skip(1)[i] == ids[0];
        assert(ids[i + 1] == ids[0]);
    }
}

/// A boolean operation that leaves something makes the subject that shape, removes every
/// other of the shapes, each once, and selects the subject; one that leaves nothing
/// removes them all and selects nothing.
pub proof fn law_boolean_replaces_the_shapes(run: BooleanRun, r: Edit)
    requires
        run.wf(),
        call_ensures(BooleanRun::finish, (run,), r),
    ensures
        run.geometry.count > 0 ==> {
            &&& merges(
                r.commands@,
                run.ids@,
                KindSource::Compound { contours: run.geometry.list },
            )
            &&& r.select matches Some(s) && s@ == seq![run.ids@[0]]
        },
        run.geometry.count == 0 ==> {
            &&& r.commands@.len() == run.ids@.len()
            &&& forall|i: int|
                0 <= i < run.ids@.len() ==> #[trigger] r.commands@[i]
                    == (EditorCommand::RemoveNode { id: run.ids@[i] })
            &&& r.select matches Some(s) && s@.len() == 0
        },
        run.operation is Union ==> r.label@ == "Union"@,
        run.operation is Difference ==> r.label@ == "Difference"@,
        run.operation is Intersection ==> r.label@ == "Intersection"@,
        run.operation is Xor ==> r.label@ == "Xor"@,
{
    if run.geometry.count > 0 {
        lemma_merges(
            r.commands@,
            run.ids@,
            KindSource::Compound { contours: run.geometry.list },
        );
    }
}

/// Combining shapes does the same with all their contours.
pub proof fn law_combining_replaces_the_shapes(
    a: Session,
    b: Session,
    ids: Vec<NodeId>,
    contours: Contours,
    r: Option<Edit>,
)
    requires
        ids@.len() >= 2,
        exists|s: &mut Session| #[trigger]
            call_ensures(Session::finish_combine, (s, &ids, contours), r) && *s == a && *final(s)
                == b,
    ensures
        r is Some <==> contours.count > 0,
        r matches Some(e) ==> {
            &&& b == a
            &&& merges(e.commands@, ids@, KindSource::Compound { contours: contours.list })
            &&& e.select matches Some(s) && s@ == seq![ids@[0]]
        },
{
    if contours.count > 0 {
        lemma_merges(
            r->0.commands@,
            ids@,
            KindSource::Compound { contours: contours.list },
        );
    }
}

/// A boolean operation takes its subject from the first shape and cuts with each of the
/// others in turn: the first cutter is the second shape, a cut goes on to the next one
/// and takes over what it left.
pub proof fn law_every_other_shape_cuts(run: BooleanRun, r: Option<NodeId>)
    requires
        run.wf(),
        call_ensures(BooleanRun::next_cutter, (&run,), r),
    ensures
        r is Some <==> run.next < run.ids@.len(),
        r is Some ==> r == Some(run.ids@[run.next as int]),
        forall|s: &mut Session, op: SelectionBoolean, ids: Vec<NodeId>, c: Contours, made: Option<
            BooleanRun,
        >| #[trigger]
            call_ensures(Session::boolean_subject, (s, op, ids, c), made) ==> {
                &&& made is Some <==> c.count > 0
                &&& made matches Some(m) ==> m.next == 1 && m.ids == ids && m.operation == op
                    && m.geometry == c && *final(s) == *s
            },
        forall|s: &mut BooleanRun, c: Contours|
            s.next < s.ids.len() && #[trigger] call_ensures(BooleanRun::cut, (s, c), ()) ==> {
                &&& (*final(s)).next == (*s).next + 1
                &&& (*final(s)).geometry == c
                &&& (*final(s)).ids == (*s).ids
                &&& (*final(s)).operation == (*s).operation
            },
{
}

/// A division cuts with each other shape in turn while something is left, keeps what
/// every cutter takes out as a piece of its own, in turn, and goes on with the rest.
pub proof fn law_division_keeps_every_piece(run: DivideRun, r: Option<NodeId>)
    requires
        run.wf(),
        call_ensures(DivideRun::next_cutter, (&run,), r),
    ensures
        r is Some ==> r == Some(run.ids@[run.next as int]) && run.next < run.ids@.len(),
        run.next < run.ids@.len() && run.remaining.count > 0 ==> r is Some,
        run.next > 1 && run.remaining.count == 0 ==> r is None,
        forall|ids: Vec<NodeId>, c: Contours, made: DivideRun| #[trigger]
            call_ensures(DivideRun::new, (ids, c), made) ==> made.ids == ids && made.remaining == c
                && made.next == 1 && made.pieces@.len() == 0,
        forall|s: &mut DivideRun, inside: Contours, outside: Contours|
            s.next < s.ids.len() && #[trigger] call_ensures(
                DivideRun::cut,
                (s, inside, outside),
                (),
            ) ==> {
                &&& (*final(s)).next == (*s).next + 1
                &&& (*final(s)).ids == (*s).ids
                &&& (*final(s)).remaining == outside
                &&& inside.count == 0 ==> (*final(s)).pieces@ == (*s).pieces@
                &&& inside.count > 0 ==> (*final(s)).pieces@ == (*s).pieces@.push(inside)
            },
{
}

/// Whether `kind` is what the contours become: one of them a path, more a compound.
pub open spec fn becomes(c: Contours, kind: KindSource) -> bool {
    if c.count == 1 {
        kind == (KindSource::Path { contour: c.first })
    } else {
        kind == (KindSource::Compound { contours: c.list })
    }
}

/// No contours become nothing, one a path, more a compound.
pub proof fn law_contours_become_shapes(c: Contours, r: Option<KindSource>)
    requires
        call_ensures(shape_kind_from_contours, (c,), r),
    ensures
        r is None <==> c.count == 0,
        r matches Some(kind) ==> becomes(c, kind),
{
}

/// A division makes the subject its first piece, inserts each other piece behind the one
/// before, numbered from two on, as a copy of the subject, and removes the cutters, each
/// once; where nothing is left or the subject stands nowhere it writes nothing.
pub proof fn law_division_writes_every_piece(
    a: Session,
    b: Session,
    doc: Document,
    run: DivideRun,
    r: Option<Edit>,
)
    requires
        run.wf(),
        doc.located(run.ids@[0]) matches Some(at) ==> at.index + run.pieces@.len() + 1
            <= usize::MAX,
        exists|s: &mut Session| #[trigger]
            call_ensures(Session::finish_divide, (s, &doc, run), r) && *s == a && *final(s) == b,
    ensures
        r is Some <==> (run.pieces@.len() > 0 || run.remaining.count > 0) && doc.located(
            run.ids@[0],
        ) is Some,
        r matches Some(e) ==> {
            let pieces = if run.remaining.count > 0 {
                run.pieces@.push(run.remaining)
            } else {
                run.pieces@
            };
            let at = doc.located(run.ids@[0])->0;
            let n = pieces.len() as int;
            &&& b == a
            &&& e.select matches Some(s) && s@ == seq![run.ids@[0]]
            &&& e.commands@.len() == n + run.ids@.len() - 1
            &&& e.commands@[0] matches EditorCommand::SetNodeKind { id, kind } && id == run.ids@[0]
                && becomes(pieces[0], kind)
            &&& forall|i: int|
                0 < i < n ==> (#[trigger] e.commands@[i] matches EditorCommand::InsertNode {
                    parent,
                    index,
                    tree: TreeSource::Piece { template, number, kind },
                } && parent == at.parent && index == at.index + i && template == run.ids@[0]
                    && number == i + 1 && becomes(pieces[i], kind))
            &&& forall|i: int|
                n <= i < e.commands@.len() ==> #[trigger] e.commands@[i]
                    == (EditorCommand::RemoveNode { id: run.ids@[i - n + 1] })
        },
{
    let pieces = run.all_pieces();
    assert forall|i: int| 0 <= i < pieces.len() implies (#[trigger] pieces[i]).count > 0 by {
        if i < run.pieces@.len() {
            assert(run.pieces@[i].count > 0);
        }
    }
}

/// Breaking a compound apart makes it its first contour and inserts a copy of it for
/// each other contour, behind the one before; it takes one selected compound that
/// stands somewhere and has two contours or more.
pub proof fn law_breaking_apart_writes_every_contour(
    a: Session,
    b: Session,
    doc: Document,
    contours: Vec<Handle>,
    r: Option<Edit>,
)
    requires
        a.selection@.len() == 1 ==> (doc.located(a.selection@[0]) matches Some(at) ==> at.index
            + contours@.len() <= usize::MAX),
        exists|s: &mut Session| #[trigger]
            call_ensures(Session::break_apart_selection, (s, &doc, &contours), r) && *s == a
                && *final(s) == b,
    ensures
        r is Some <==> {
            &&& a.selection@.len() == 1
            &&& doc.nodes().contains_key(a.selection@[0])
            &&& doc.nodes()[a.selection@[0]].kind == NodeKind::Shape(ShapeKind::CompoundPath)
            &&& contours@.len() >= 2
            &&& doc.nodes()[a.selection@[0]].location is Some
        },
        r matches Some(e) ==> {
            let id = a.selection@[0];
            let at = doc.nodes()[id].location->0;
            &&& b == a
            &&& e.select matches Some(s) && s@ == seq![id]
            &&& e.commands@.len() == contours@.len()
            &&& e.commands@[0] == (EditorCommand::SetNodeKind {
                id,
                kind: KindSource::Path { contour: contours@[0] },
            })
            &&& forall|i: int|
                0 < i < contours@.len() ==> (#[trigger] e.commands@[i]
                    matches EditorCommand::InsertNode {
                    parent,
                    index,
                    tree: TreeSource::Piece { template, number, kind },
                } && parent == at.parent && index == at.index + i && template == id && number == i
                    + 1 && kind == (KindSource::Path { contour: contours@[i] }))
        },
{
}

/// Whether `id` is a path that is there.
pub open spec fn is_plain_path(doc: Document, id: NodeId) -> bool {
    doc.nodes().contains_key(id) && doc.nodes()[id].kind == NodeKind::Shape(ShapeKind::Path)
}

/// Whether `x` is a path that is selected, itself or with the group or layer that it
/// stands directly in.
pub open spec fn path_selected(doc: Document, sel: Seq<NodeId>, x: NodeId) -> bool {
    is_plain_path(doc, x) && exists|i: int|
        0 <= i < sel.len() && {
            ||| #[trigger] sel[i] == x
            ||| {
                &&& doc.nodes().contains_key(sel[i])
                &&& doc.nodes()[sel[i]].kind is Group || doc.nodes()[sel[i]].kind is Layer
                &&& doc.nodes()[sel[i]].children@.contains(x)
            }
        }
}

proof fn lemma_paths_of(doc: Document, sel: Seq<NodeId>, x: NodeId)
    ensures
        doc.paths_of(sel).contains(x) <==> path_selected(doc, sel, x),
    decreases sel.len(),
{
    if sel.len() > 0 {
        let front = sel.drop_last();
        let id = sel.last();
        lemma_paths_of(doc, front, x);
        lemma_contains_add(doc.paths_of(front), doc.paths_at(id), x);
        if doc.has(id) {
            crate::seqs::lemma_filter_contains(
                doc.node(id).children@,
                |c: NodeId| doc.is_path(c),
                x,
            );
        }
        if doc.is_path(id) {
            assert(seq![id][0] == id);
        }
        if path_selected(doc, front, x) {
            let i = choose|i: int|
                0 <= i < front.len() && {
                    ||| #[trigger] front[i] == x
                    ||| {
                        &&& doc.nodes().contains_key(front[i])
                        &&& doc.nodes()[front[i]].kind is Group || doc.nodes()[front[i]].kind
                            is Layer
                        &&& doc.nodes()[front[i]].children@.contains(x)
                    }
                };
            assert(sel[i] == front[i]);
        }
        if doc.paths_at(id).contains(x) {
            assert(sel[sel.len() - 1] == id);
        }
        if path_selected(doc, sel, x) {
            let i = choose|i: int|
                0 <= i < sel.len() && {
                    ||| #[trigger] sel[i] == x
                    ||| {
                        &&& doc.nodes().contains_key(sel[i])
                        &&& doc.nodes()[sel[i]].kind is Group || doc.nodes()[sel[i]].kind is Layer
                        &&& doc.nodes()[sel[i]].children@.contains(x)
                    }
                };
            if i < front.len() {
                assert(front[i] == sel[i]);
            }
        }
    }
}

/// Reversing writes one command for every selected path, itself selected or directly in
/// a selected group or layer, and none for anything else.
pub proof fn law_every_selected_path_is_reversed(
    a: Session,
    b: Session,
    doc: Document,
    r: Option<Edit>,
)
    requires
        exists|s: &mut Session| #[trigger]
            call_ensures(Session::reverse_selected_paths, (s, &doc), r) && *s == a && *final(s)
                == b,
    ensures
        r is Some <==> exists|x: NodeId| path_selected(doc, a.selection@, x),
        r matches Some(e) ==> {
            &&& b == a
            &&& e.select is None
            &&& forall|x: NodeId| #[trigger]
                e.commands@.contains(EditorCommand::ReversePath { id: x }) <==> path_selected(
                    doc,
                    a.selection@,
                    x,
                )
            &&& forall|i: int|
                0 <= i < e.commands@.len() ==> #[trigger] e.commands@[i] is ReversePath
            &&& e.commands@.no_duplicates()
        },
{
    let all = doc.paths_of(a.selection@);
    let paths = dedup(all);
    crate::laws::law_dedup_keeps_each_once(all);
    assert forall|x: NodeId| #[trigger] paths.contains(x) <==> path_selected(
        doc,
        a.selection@,
        x,
    ) by {
        lemma_paths_of(doc, a.selection@, x);
    }
    if paths.len() > 0 {
        assert(paths.contains(paths[0]));
        assert(path_selected(doc, a.selection@, paths[0]));
    } else if exists|x: NodeId| path_selected(doc, a.selection@, x) {
        let x = choose|x: NodeId| path_selected(doc, a.selection@, x);
        assert(paths.contains(x));
    }
    if let Some(e) = r {
        assert forall|x: NodeId| #[trigger]
            e.commands@.contains(EditorCommand::ReversePath { id: x }) <==> path_selected(
                doc,
                a.selection@,
                x,
            ) by {
            if paths.contains(x) {
                let i = choose|i: int| 0 <= i < paths.len() && paths[i] == x;
                assert(e.commands@[i] == EditorCommand::ReversePath { id: x });
            }
            if e.commands@.contains(EditorCommand::ReversePath { id: x }) {
                let i = choose|i: int|
                    0 <= i < e.commands@.len() && e.commands@[i] == (EditorCommand::ReversePath {
                        id: x,
                    });
                assert(paths[i] == x);
            }
        }
    }
}

/// Whether `id` is a shape that is neither a path nor a compound.
pub open spec fn is_plain_primitive(doc: Document, id: NodeId) -> bool {
    doc.nodes().contains_key(id) && match doc.nodes()[id].kind {
        NodeKind::Shape(ShapeKind::Path) => false,
        NodeKind::Shape(ShapeKind::CompoundPath) => false,
        NodeKind::Shape(_) => true,
        _ => false,
    }
}

/// What is converted to paths are the selected primitives, in the order of the
/// selection; each becomes the path that was traced for it.
pub proof fn law_primitives_become_their_paths(
    a: Session,
    b: Session,
    doc: Document,
    targets: Vec<NodeId>,
    traced: Vec<Handle>,
    r: Option<Edit>,
)
    requires
        call_ensures(Session::primitive_targets, (&a, &doc), targets),
        traced@.len() == targets@.len(),
        exists|s: &mut Session| #[trigger]
            call_ensures(Session::convert_selection_to_path, (s, &doc, &traced), r) && *s == a
                && *final(s) == b,
    ensures
        forall|x: NodeId| #[trigger]
            targets@.contains(x) <==> a.selection@.contains(x) && is_plain_primitive(doc, x),
        in_order(targets@, a.selection@),
        a.selection@.no_duplicates() ==> targets@.no_duplicates(),
        r is Some <==> targets@.len() > 0,
        r matches Some(e) ==> {
            &&& b == a
            &&& e.select is None
            &&& e.commands@.len() == targets@.len()
            &&& forall|i: int|
                0 <= i < targets@.len() ==> #[trigger] e.commands@[i]
                    == (EditorCommand::SetNodeKind {
                    id: targets@[i],
                    kind: KindSource::Path { contour: traced@[i] },
                })
        },
{
    let keep = |id: NodeId| doc.is_primitive(id);
    lemma_filter_order(a.selection@, keep);
    assert forall|x: NodeId| #[trigger]
        targets@.contains(x) <==> a.selection@.contains(x) && is_plain_primitive(doc, x) by {
        crate::seqs::lemma_filter_contains(a.selection@, keep, x);
    }
}

/// Whether the host's simpler geometry of a node is written, and how.
pub open spec fn simplifies(doc: Document, id: NodeId, geometry: Option<Handle>) -> Option<
    EditorCommand,
> {
    if geometry is None || !doc.nodes().contains_key(id) {
        None
    } else if doc.nodes()[id].kind == NodeKind::Shape(ShapeKind::Path) {
        Some(
            EditorCommand::SetNodeKind { id, kind: KindSource::Path { contour: geometry->0 } },
        )
    } else if doc.nodes()[id].kind == NodeKind::Shape(ShapeKind::CompoundPath) {
        Some(
            EditorCommand::SetNodeKind { id, kind: KindSource::Compound { contours: geometry->0 } },
        )
    } else {
        None
    }
}

/// How many of the nodes have a simpler geometry to write.
pub open spec fn simplifying(
    doc: Document,
    sel: Seq<NodeId>,
    simpler: Seq<Option<Handle>>,
) -> nat {
    Seq::new(sel.len(), |i: int| i).filter(
        |i: int| simplifies(doc, sel[i], simpler[i]) is Some,
    ).len()
}

proof fn lemma_simplified(doc: Document, sel: Seq<NodeId>, simpler: Seq<Option<Handle>>)
    requires
        simpler.len() >= sel.len(),
    ensures
        doc.simplified(sel, simpler).len() <= sel.len(),
        forall|i: int|
            0 <= i < sel.len() && simplifies(doc, #[trigger] sel[i], simpler[i]) is Some
                ==> doc.simplified(sel, simpler).contains(
                simplifies(doc, sel[i], simpler[i])->0,
            ),
        forall|c: EditorCommand| #[trigger]
            doc.simplified(sel, simpler).contains(c) ==> exists|i: int|
                0 <= i < sel.len() && simplifies(doc, #[trigger] sel[i], simpler[i]) == Some(c),
        doc.simplified(sel, simpler).len() == simplifying(doc, sel, simpler),
    decreases sel.len(),
{
    reveal(Seq::filter);
    if sel.len() > 0 {
        let front = sel.drop_last();
        let n = sel.len() - 1;
        lemma_simplified(doc, front, simpler);
        let all = doc.simplified(sel, simpler);
        let before = doc.simplified(front, simpler);
        let keep = |i: int| simplifies(doc, sel[i], simpler[i]) is Some;
        let kept = |i: int| simplifies(doc, front[i], simpler[i]) is Some;
        let whole = Seq::new(sel.len(), |i: int| i);
        assert(whole.drop_last() =~= Seq::new(front.len(), |i: int| i));
        lemma_same_filter(whole.drop_last(), keep, kept);
        assert forall|i: int|
            0 <= i < sel.len() && simplifies(
                doc,
                #[trigger] sel[i],
                simpler[i],
            ) is Some implies all.contains(simplifies(doc, sel[i], simpler[i])->0) by {
            let c = simplifies(doc, sel[i], simpler[i])->0;
            if i < n {
                assert(front[i] == sel[i]);
                assert(before.contains(c));
                let k = choose|k: int| 0 <= k < before.len() && before[k] == c;
                assert(all[k] == c);
            } else {
                assert(all[all.len() - 1] == c);
            }
        }
        assert forall|c: EditorCommand| #[trigger] all.contains(c) implies exists|i: int|
            0 <= i < sel.len() && simplifies(doc, #[trigger] sel[i], simpler[i]) == Some(c) by {
            if before.contains(c) {
                let i = choose|i: int|
                    0 <= i < front.len() && simplifies(doc, #[trigger] front[i], simpler[i])
                        == Some(c);
                assert(sel[i] == front[i]);
            } else {
                let k = choose|k: int| 0 <= k < all.len() && all[k] == c;
                if k < before.len() {
                    assert(before[k] == c);
                }
                assert(sel[n] == sel.last());
            }
        }
    }
}

proof fn lemma_same_filter(s: Seq<int>, f: spec_fn(int) -> bool, g: spec_fn(int) -> bool)
    requires
        forall|i: int| 0 <= i < s.len() ==> f(#[trigger] s[i]) == g(s[i]),
    ensures
        s.filter(f) == s.filter(g),
    decreases s.len(),
{
    reveal(Seq::filter);
    if s.len() > 0 {
        assert forall|i: int| 0 <= i < s.drop_last().len() implies f(#[trigger] s.drop_last()[i])
            == g(s.drop_last()[i]) by {
            assert(s.drop_last()[i] == s[i]);
        }
        assert(s[s.len() - 1] == s.last());
        lemma_same_filter(s.drop_last(), f, g);
    }
}

/// Simplifying writes the simpler geometry of every selected path and compound that has
/// one, as what it was, once each, and nothing else.
pub proof fn law_every_simpler_path_is_written(
    a: Session,
    b: Session,
    doc: Document,
    simpler: Vec<Option<Handle>>,
    r: Option<Edit>,
)
    requires
        simpler@.len() == a.selection@.len(),
        exists|s: &mut Session| #[trigger]
            call_ensures(Session::simplify_selection, (s, &doc, &simpler), r) && *s == a
                && *final(s) == b,
    ensures
        r is Some <==> exists|i: int|
            0 <= i < simpler@.len() && simplifies(
                doc,
                #[trigger] a.selection@[i],
                simpler@[i],
            ) is Some,
        r matches Some(e) ==> {
            &&& b == a
            &&& e.select is None
            &&& forall|i: int|
                0 <= i < simpler@.len() && simplifies(
                    doc,
                    #[trigger] a.selection@[i],
                    simpler@[i],
                ) is Some ==> e.commands@.contains(
                    simplifies(doc, a.selection@[i], simpler@[i])->0,
                )
            &&& forall|c: EditorCommand| #[trigger]
                e.commands@.contains(c) ==> exists|i: int|
                    0 <= i < simpler@.len() && simplifies(
                        doc,
                        #[trigger] a.selection@[i],
                        simpler@[i],
                    ) == Some(c)
            &&& e.commands@.len() == simplifying(doc, a.selection@, simpler@)
        },
{
    lemma_simplified(doc, a.selection@, simpler@);
    let all = doc.simplified(a.selection@, simpler@);
    if all.len() > 0 {
        assert(all.contains(all[0]));
    }
}

/// Removing nodes writes one command for each, in order.
pub proof fn law_each_node_is_removed(ids: Vec<NodeId>, r: Vec<EditorCommand>)
    requires
        call_ensures(remove_all, (&ids,), r),
    ensures
        r@.len() == ids@.len(),
        forall|i: int|
            0 <= i < ids@.len() ==> #[trigger] r@[i] == (EditorCommand::RemoveNode { id: ids@[i] }),
{
}

/// A boolean operation and a combination take the selected shapes of the main
/// composition, bottom first, and two at least; a division takes them where they are all
/// closed: a primitive always is.
pub proof fn law_operations_take_the_selected_shapes(
    a: Session,
    doc: Document,
    closed: Vec<bool>,
    ids: Vec<NodeId>,
)
    requires
        doc.wf(),
        call_ensures(Document::selected_shape_roots_in_z_order, (&doc, &a.selection), ids),
        closed@.len() == ids@.len(),
    ensures
        forall|s: &mut Session, r: Option<Vec<NodeId>>|
            *s == a && #[trigger] call_ensures(Session::boolean_selection, (s, &doc), r) ==> {
                &&& r is Some <==> ids@.len() >= 2
                &&& r matches Some(v) ==> v@ == ids@ && *final(s) == *s
            },
        forall|s: &mut Session, r: Option<Vec<NodeId>>|
            *s == a && #[trigger] call_ensures(Session::combine_selection, (s, &doc), r) ==> {
                &&& r is Some <==> ids@.len() >= 2
                &&& r matches Some(v) ==> v@ == ids@ && *final(s) == *s
            },
        forall|s: &mut Session, r: Option<Vec<NodeId>>|
            *s == a && #[trigger] call_ensures(Session::divide_selection, (s, &doc, &closed), r)
                ==> {
                &&& r is Some <==> ids@.len() >= 2 && forall|i: int|
                    0 <= i < ids@.len() ==> {
                        &&& doc.nodes().contains_key(#[trigger] ids@[i])
                        &&& doc.nodes()[ids@[i]].kind is Shape
                        &&& closed@[i] || is_plain_primitive(doc, ids@[i])
                    }
                &&& r matches Some(v) ==> v@ == ids@ && *final(s) == *s
            },
{
    assert forall|s: &mut Session, r: Option<Vec<NodeId>>|
        *s == a && #[trigger] call_ensures(Session::divide_selection, (s, &doc, &closed), r)
            implies {
        &&& r is Some <==> ids@.len() >= 2 && forall|i: int|
            0 <= i < ids@.len() ==> {
                &&& doc.nodes().contains_key(#[trigger] ids@[i])
                &&& doc.nodes()[ids@[i]].kind is Shape
                &&& closed@[i] || is_plain_primitive(doc, ids@[i])
            }
        &&& r matches Some(v) ==> v@ == ids@ && *final(s) == *s
    } by {
        assert forall|i: int| 0 <= i < ids@.len() implies (doc.divides(
            #[trigger] ids@[i],
            closed@[i],
        ) <==> {
            &&& doc.nodes().contains_key(ids@[i])
            &&& doc.nodes()[ids@[i]].kind is Shape
            &&& closed@[i] || is_plain_primitive(doc, ids@[i])
        }) by {}
    }
}

} // verus!
