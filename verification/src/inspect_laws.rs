//! What the property panel inspects, shows and writes.
use vstd::prelude::*;

use crate::arrange::Move;
use crate::commands::{Edit, EditorCommand, Property, ToolOutput};
use crate::inspect::{
    appearance_for, apply_channel, diamond_look, diamond_state, find_shape_painted_by, hex_color,
    hex_digits, one_value, paint_style_id, runs, section_runs, swatch_target, toggle_keys, top_node,
    top_style, value_writes, Appearance, Channel, DiamondLook, DiamondState, NumberEditor,
    NumberView, PropRow, SceneItem, SectionRun, StopPart, StyleLinks, ValueKind,
};
use crate::kept::{keeps, lemma_keeps_holds, lemma_keeps_more, lemma_keeps_none};
use crate::model::{Document, Handle, NodeId, NodeKind, ShapeKind, StyleKind};
use crate::session::{PickerTarget, Session};

verus! {

/// Whether the node is a shape or a text.
pub open spec fn is_drawn(doc: Document, id: NodeId) -> bool {
    doc.nodes().contains_key(id) && (doc.nodes()[id].kind is Shape || doc.nodes()[id].kind is Text)
}

/// Whether `c` is the one child of `s` that passes the test.
pub open spec fn is_only(s: Seq<NodeId>, test: spec_fn(NodeId) -> bool, c: NodeId) -> bool {
    exists|i: int|
        {
            &&& 0 <= i < s.len()
            &&& #[trigger] s[i] == c
            &&& test(c)
            &&& forall|j: int| 0 <= j < s.len() && j != i ==> !test(#[trigger] s[j])
        }
}

proof fn lemma_only(s: Seq<NodeId>, test: spec_fn(NodeId) -> bool, c: NodeId)
    ensures
        crate::inspect::only(s.filter(test)) == Some(c) <==> is_only(s, test, c),
    decreases s.len(),
{
    reveal(Seq::filter);
    if s.len() > 0 {
        let front = s.drop_last();
        let last = s.last();
        lemma_only(front, test, c);
        crate::kept::lemma_filter_keeps(front, test);
        lemma_keeps_holds(front.filter(test), crate::kept::passing(front, test));
        if test(last) {
            if front.filter(test).len() == 0 {
                assert forall|j: int| 0 <= j < front.len() implies !test(#[trigger] front[j]) by {
                    assert(crate::kept::passing(front, test)[j] is None);
                }
                assert forall|j: int| 0 <= j < s.len() - 1 implies !test(#[trigger] s[j]) by {
                    assert(front[j] == s[j]);
                }
                assert(s.filter(test) =~= seq![last]);
                assert(s[s.len() - 1] == last);
                if is_only(s, test, c) {
                    let i = choose|i: int|
                        {
                            &&& 0 <= i < s.len()
                            &&& #[trigger] s[i] == c
                            &&& test(c)
                            &&& forall|j: int| 0 <= j < s.len() && j != i ==> !test(#[trigger] s[j])
                        };
                    assert(i == s.len() - 1);
                }
            } else {
                assert(s.filter(test).len() >= 2);
                assert(front.filter(test).contains(front.filter(test)[0]));
                let x = front.filter(test)[0];
                let j = choose|j: int|
                    0 <= j < crate::kept::passing(front, test).len() && crate::kept::passing(
                        front,
                        test,
                    )[j] == Some(x);
                assert(test(front[j]));
                if is_only(s, test, c) {
                    let i = choose|i: int|
                        {
                            &&& 0 <= i < s.len()
                            &&& #[trigger] s[i] == c
                            &&& test(c)
                            &&& forall|j: int| 0 <= j < s.len() && j != i ==> !test(#[trigger] s[j])
                        };
                    assert(s[j] == front[j]);
                    assert(s[s.len() - 1] == last);
                }
            }
        } else {
            assert(s.filter(test) == front.filter(test));
            if is_only(front, test, c) {
                let i = choose|i: int|
                    {
                        &&& 0 <= i < front.len()
                        &&& #[trigger] front[i] == c
                        &&& test(c)
                        &&& forall|j: int|
                            0 <= j < front.len() && j != i ==> !test(#[trigger] front[j])
                    };
                assert(s[i] == c);
                assert forall|j: int| 0 <= j < s.len() && j != i implies !test(#[trigger] s[j]) by {
                    if j < front.len() {
                        assert(front[j] == s[j]);
                    }
                }
            }
            if is_only(s, test, c) {
                let i = choose|i: int|
                    {
                        &&& 0 <= i < s.len()
                        &&& #[trigger] s[i] == c
                        &&& test(c)
                        &&& forall|j: int| 0 <= j < s.len() && j != i ==> !test(#[trigger] s[j])
                    };
                assert(i < front.len());
                assert(front[i] == c);
                assert forall|j: int| 0 <= j < front.len() && j != i implies !test(
                    #[trigger] front[j],
                ) by {
                    assert(front[j] == s[j]);
                }
            }
        }
    } else {
        assert(s.filter(test).len() == 0);
    }
}

/// What is inspected of a group or a layer with a single shape or text directly in it is
/// that one; of anything else it is the node itself.
pub proof fn law_single_content_is_inspected(doc: Document, id: NodeId, r: NodeId)
    requires
        call_ensures(Document::effective_inspect_id, (&doc, id), r),
    ensures
        r != id ==> doc.nodes().contains_key(id) && (doc.nodes()[id].kind is Group
            || doc.nodes()[id].kind is Layer),
        doc.nodes().contains_key(id) && (doc.nodes()[id].kind is Group || doc.nodes()[id].kind
            is Layer) ==> {
            let test = |c: NodeId| is_drawn(doc, c);
            &&& r != id ==> is_only(doc.nodes()[id].children@, test, r)
            &&& forall|c: NodeId| #[trigger]
                is_only(doc.nodes()[id].children@, test, c) ==> r == c
        },
        forall|q: Option<NodeId>| #[trigger]
            call_ensures(Document::primary_content_in_group, (&doc, id), q) ==> (match q {
                Some(c) => r == c,
                None => r == id,
            }),
{
    let test = |c: NodeId| is_drawn(doc, c);
    let children = doc.node(id).children@;
    lemma_same(children, doc.counted(false), test);
    assert forall|c: NodeId| (crate::inspect::only(children.filter(doc.counted(false))) == Some(c)
        <==> #[trigger] is_only(children, test, c)) by {
        lemma_only(children, test, c);
    }
}

proof fn lemma_same(s: Seq<NodeId>, f: spec_fn(NodeId) -> bool, g: spec_fn(NodeId) -> bool)
    requires
        forall|x: NodeId| #[trigger] f(x) == g(x),
    ensures
        s.filter(f) == s.filter(g),
    decreases s.len(),
{
    reveal(Seq::filter);
    if s.len() > 0 {
        lemma_same(s.drop_last(), f, g);
    }
}

/// The text of a text node is itself, that of a group the only text directly in it.
pub proof fn law_text_is_found_in_its_group(doc: Document, id: NodeId, r: Option<NodeId>)
    requires
        call_ensures(Document::text_node, (&doc, id), r),
    ensures
        !doc.nodes().contains_key(id) ==> r is None,
        doc.nodes().contains_key(id) ==> {
            let kind = doc.nodes()[id].kind;
            let test = |c: NodeId| doc.nodes().contains_key(c) && doc.nodes()[c].kind is Text;
            &&& kind is Text ==> r == Some(id)
            &&& !(kind is Text) && !(kind is Group) ==> r is None
            &&& kind is Group ==> {
                &&& r matches Some(c) ==> is_only(doc.nodes()[id].children@, test, c)
                &&& forall|c: NodeId| #[trigger]
                    is_only(doc.nodes()[id].children@, test, c) ==> r == Some(c)
            }
        },
{
    let test = |c: NodeId| doc.nodes().contains_key(c) && doc.nodes()[c].kind is Text;
    let children = doc.node(id).children@;
    lemma_same(children, doc.counted(true), test);
    assert forall|c: NodeId| (crate::inspect::only(children.filter(doc.counted(true))) == Some(c)
        <==> #[trigger] is_only(children, test, c)) by {
        lemma_only(children, test, c);
    }
}

/// Modifiers go onto the shape that is inspected.
pub proof fn law_modifiers_go_onto_the_inspected_shape(
    doc: Document,
    id: NodeId,
    at: NodeId,
    r: Option<(NodeId, ShapeKind)>,
)
    requires
        call_ensures(Document::effective_inspect_id, (&doc, id), at),
        call_ensures(Document::modifier_target, (&doc, id), r),
    ensures
        r is Some <==> doc.nodes().contains_key(at) && doc.nodes()[at].kind is Shape,
        r matches Some((shape, kind)) ==> shape == at && doc.nodes()[at].kind == NodeKind::Shape(
            kind,
        ),
{
}

/// Whether the item at `i` paints the node with a style of the kind, where one is asked
/// for, and none above it does.
pub open spec fn is_top(items: Seq<SceneItem>, node: NodeId, kind: Option<StyleKind>, i: int) -> bool {
    &&& 0 <= i < items.len()
    &&& items[i].node == node && (kind is None || kind == Some(items[i].kind))
    &&& forall|j: int|
        i < j < items.len() ==> !((#[trigger] items[j]).node == node
            && (kind is None || kind == Some(
            items[j].kind,
        )))
}

proof fn lemma_top_style(items: Seq<SceneItem>, node: NodeId, kind: Option<StyleKind>, i: int)
    ensures
        is_top(items, node, kind, i) ==> top_style(items, node, kind) == Some(items[i].style),
        (forall|j: int|
            0 <= j < items.len() ==> !((#[trigger] items[j]).node == node && (kind is None || kind
                == Some(items[j].kind)))) ==> top_style(items, node, kind) is None,
    decreases items.len(),
{
    if items.len() > 0 {
        let front = items.drop_last();
        lemma_top_style(front, node, kind, i);
        assert(items[items.len() - 1] == items.last());
        assert forall|j: int| 0 <= j < front.len() implies #[trigger] front[j] == items[j] by {}
    }
}

proof fn lemma_top_node(items: Seq<SceneItem>, style: NodeId, i: int)
    ensures
        0 <= i < items.len() && items[i].style == style && (forall|j: int|
            i < j < items.len() ==> (#[trigger] items[j]).style != style) ==> top_node(items, style)
            == Some(items[i].node),
        (forall|j: int| 0 <= j < items.len() ==> (#[trigger] items[j]).style != style)
            ==> top_node(items, style) is None,
    decreases items.len(),
{
    if items.len() > 0 {
        let front = items.drop_last();
        lemma_top_node(front, style, i);
        assert(items[items.len() - 1] == items.last());
        assert forall|j: int| 0 <= j < front.len() implies #[trigger] front[j] == items[j] by {}
    }
}

/// The shape that a style paints is that of the topmost item with the style; the style
/// that a shape shows is that of the topmost item with the shape.
pub proof fn law_topmost_item_counts(doc: Document, items: Vec<SceneItem>, id: NodeId, i: int)
    ensures
        forall|r: Option<NodeId>| #[trigger]
            call_ensures(find_shape_painted_by, (&items, id), r) ==> {
                &&& 0 <= i < items@.len() && items@[i].style == id && (forall|j: int|
                    i < j < items@.len() ==> (#[trigger] items@[j]).style != id) ==> r == Some(
                    items@[i].node,
                )
                &&& (forall|j: int| 0 <= j < items@.len() ==> (#[trigger] items@[j]).style != id)
                    ==> r is None
            },
        forall|r: Option<NodeId>| #[trigger]
            call_ensures(paint_style_id, (&doc, &items, id), r) ==> {
                &&& doc.nodes().contains_key(id) && doc.nodes()[id].kind is Style ==> r == Some(id)
                &&& is_drawn(doc, id) && is_top(items@, id, None, i) ==> r == Some(items@[i].style)
                &&& is_drawn(doc, id) && (forall|j: int|
                    0 <= j < items@.len() ==> (#[trigger] items@[j]).node != id) ==> r is None
                &&& !is_drawn(doc, id) && !(doc.nodes().contains_key(id) && doc.nodes()[id].kind
                    is Style) ==> r is None
            },
{
    lemma_top_node(items@, id, i);
    lemma_top_style(items@, id, None, i);
}

/// The appearance of what is selected: that of the inspected shape or text with the
/// styles that the host links to it, else the topmost that paint it; a style's own with
/// the shape that it paints.
pub proof fn law_appearance_has_the_linked_styles(
    doc: Document,
    items: Vec<SceneItem>,
    links: StyleLinks,
    selected: NodeId,
    at: NodeId,
    i: int,
    r: Option<Appearance>,
)
    requires
        call_ensures(Document::effective_inspect_id, (&doc, selected), at),
        call_ensures(appearance_for, (&doc, &items, links, selected), r),
    ensures
        r is Some <==> doc.nodes().contains_key(at) && (is_drawn(doc, at) || doc.nodes()[at].kind
            is Style),
        r matches Some(a) ==> {
            &&& is_drawn(doc, at) ==> {
                &&& a.shape == at
                &&& links.fill is Some ==> a.fill == links.fill
                &&& links.stroke is Some ==> a.stroke == links.stroke
                &&& links.fill is None && is_top(items@, at, Some(StyleKind::Fill), i) ==> a.fill
                    == Some(items@[i].style)
                &&& links.stroke is None && is_top(items@, at, Some(StyleKind::Stroke), i)
                    ==> a.stroke == Some(items@[i].style)
            }
            &&& doc.nodes()[at].kind == NodeKind::Style(StyleKind::Fill) ==> a.fill == Some(at)
                && a.stroke is None
            &&& doc.nodes()[at].kind == NodeKind::Style(StyleKind::Stroke) ==> a.stroke == Some(at)
                && a.fill is None
            &&& doc.nodes()[at].kind is Style && 0 <= i < items@.len() && items@[i].style == at && (
            forall|j: int| i < j < items@.len() ==> (#[trigger] items@[j]).style != at) ==> a.shape
                == items@[i].node
        },
{
    lemma_top_node(items@, at, i);
    lemma_top_style(items@, at, Some(StyleKind::Fill), i);
    lemma_top_style(items@, at, Some(StyleKind::Stroke), i);
}

/// Whether all rows of the run are of its section.
pub open spec fn is_uniform(rows: Seq<PropRow>, run: SectionRun) -> bool {
    forall|k: int| run.from <= k < run.to ==> (#[trigger] rows[k]).section@ == run.section@
}

proof fn lemma_runs(rows: Seq<PropRow>)
    requires
        rows.len() <= usize::MAX,
    ensures
        forall|i: int| 0 <= i < runs(rows).len() ==> is_uniform(rows, #[trigger] runs(rows)[i]),
        forall|i: int|
            0 < i < runs(rows).len() ==> (#[trigger] runs(rows)[i]).section@ != runs(
                rows,
            )[i - 1].section@,
    decreases rows.len(),
{
    if rows.len() > 0 {
        let front = rows.drop_last();
        lemma_runs(front);
        let before = runs(front);
        let all = runs(rows);
        let last = rows.last();
        assert forall|i: int| 0 <= i < before.len() implies is_uniform(rows, #[trigger] before[i])
            && before[i].to <= front.len() by {
            lemma_run_ends(front, i);
            assert(is_uniform(front, before[i]));
            lemma_still_uniform(front, rows, before[i]);
        }
        if before.len() > 0 && before.last().section@ == last.section@ {
            let n = before.len() - 1;
            assert(all.len() == before.len());
            crate::inspect::law_runs_cover_the_rows(front);
            assert(before[n].to == front.len());
            lemma_grown(rows, before[n], all[n]);
            assert forall|
                i: int,
            | 0 <= i < all.len() implies is_uniform(rows, #[trigger] all[i]) by {
                if i < n {
                    assert(all[i] == before[i]);
                }
            }
            assert forall|i: int| 0 < i < all.len() implies (#[trigger] all[i]).section@
                != all[i - 1].section@ by {
                assert(before[i].section@ != before[i - 1].section@);
                assert(all[i - 1] == before[i - 1]);
                assert(all[i].section == before[i].section);
            }
        } else {
            let n = before.len() as int;
            assert(all.len() == n + 1);
            assert forall|
                i: int,
            | 0 <= i < all.len() implies is_uniform(rows, #[trigger] all[i]) by {
                if i < n {
                    assert(all[i] == before[i]);
                } else {
                    assert(rows[rows.len() - 1] == last);
                }
            }
            assert forall|i: int| 0 < i < all.len() implies (#[trigger] all[i]).section@
                != all[i - 1].section@ by {
                assert(all[i - 1] == before[i - 1]);
                if i < n {
                    assert(all[i] == before[i]);
                    assert(before[i].section@ != before[i - 1].section@);
                }
            }
        }
    }
}

proof fn lemma_still_uniform(front: Seq<PropRow>, rows: Seq<PropRow>, run: SectionRun)
    requires
        rows.len() > 0,
        front == rows.drop_last(),
        run.to <= front.len(),
        is_uniform(front, run),
    ensures
        is_uniform(rows, run),
{
    assert forall|k: int| run.from <= k < run.to implies (#[trigger] rows[k]).section@
        == run.section@ by {
        assert(front[k] == rows[k]);
    }
}

proof fn lemma_grown(rows: Seq<PropRow>, run: SectionRun, grown: SectionRun)
    requires
        rows.len() > 0,
        is_uniform(rows, run),
        run.to == rows.len() - 1,
        grown.from == run.from,
        grown.to == rows.len(),
        grown.section == run.section,
        rows.last().section@ == run.section@,
    ensures
        is_uniform(rows, grown),
{
    assert forall|k: int| grown.from <= k < grown.to implies (#[trigger] rows[k]).section@
        == grown.section@ by {
        if k == rows.len() - 1 {
            assert(rows[k] == rows.last());
        }
    }
}

proof fn lemma_run_ends(rows: Seq<PropRow>, i: int)
    requires
        rows.len() <= usize::MAX,
        0 <= i < runs(rows).len(),
    ensures
        runs(rows)[i].to <= rows.len(),
    decreases runs(rows).len() - i,
{
    crate::inspect::law_runs_cover_the_rows(rows);
    if i < runs(rows).len() - 1 {
        lemma_run_ends(rows, i + 1);
        assert(runs(rows)[i + 1].from == runs(rows)[i].to);
        assert(runs(rows)[i + 1].from < runs(rows)[i + 1].to);
    }
}

/// The rows are shown in runs that cover them without a gap: all rows of a run are of its
/// section, and two runs that follow each other are of different ones.
pub proof fn law_runs_are_the_sections(rows: Vec<PropRow>, r: Vec<SectionRun>)
    requires
        call_ensures(section_runs, (&rows,), r),
    ensures
        r@.len() == 0 <==> rows@.len() == 0,
        rows@.len() > 0 ==> r@[0].from == 0 && r@.last().to == rows@.len(),
        forall|i: int| 0 <= i < r@.len() ==> (#[trigger] r@[i]).from < r@[i].to <= rows@.len(),
        forall|i: int| 0 < i < r@.len() ==> (#[trigger] r@[i]).from == r@[i - 1].to,
        forall|i: int| 0 < i < r@.len() ==> (#[trigger] r@[i]).section@ != r@[i - 1].section@,
        forall|i: int, k: int|
            0 <= i < r@.len() && r@[i].from <= k < r@[i].to ==> (#[trigger] rows@[k]).section@
                == (#[trigger] r@[i]).section@,
{
    assert(rows.len() == rows@.len());
    lemma_runs(rows@);
    crate::inspect::law_runs_cover_the_rows(rows@);
    assert forall|i: int| 0 <= i < r@.len() implies (#[trigger] r@[i]).from < r@[i].to
        <= rows@.len() by {
        lemma_run_ends(rows@, i);
    }
    assert forall|i: int, k: int|
        0 <= i < r@.len() && r@[i].from <= k < r@[i].to implies (#[trigger] rows@[k]).section@
        == (#[trigger] r@[i]).section@ by {
        assert(is_uniform(rows@, r@[i]));
    }
}

/// One write for each node.
pub open spec fn one_each(
    path: Handle,
    ids: Seq<NodeId>,
    value: Handle,
    keyed: bool,
    commands: Seq<EditorCommand>,
) -> bool {
    &&& commands.len() == ids.len()
    &&& forall|i: int|
        0 <= i < ids.len() ==> #[trigger] commands[i] == (EditorCommand::SetProperty {
            id: ids[i],
            prop: Property::Listed(path),
            value,
            keyed,
        })
}

proof fn lemma_one_each(path: Handle, ids: Seq<NodeId>, value: Handle, keyed: bool)
    ensures
        one_each(path, ids, value, keyed, value_writes(path, one_value(ids, value), keyed)),
    decreases ids.len(),
{
    if ids.len() > 0 {
        let front = ids.drop_last();
        lemma_one_each(path, front, value, keyed);
        assert(one_value(ids, value).drop_last() =~= one_value(front, value));
        let before = value_writes(path, one_value(front, value), keyed);
        let all = value_writes(path, one_value(ids, value), keyed);
        assert forall|i: int| 0 <= i < ids.len() implies #[trigger] all[i]
            == (EditorCommand::SetProperty {
            id: ids[i],
            prop: Property::Listed(path),
            value,
            keyed,
        }) by {
            if i < front.len() {
                assert(all[i] == before[i]);
                assert(front[i] == ids[i]);
            }
        }
    }
}

/// A dragged or typed number is written to every inspected node, in order, keyed while
/// recording; a drag begins its transaction first.
pub proof fn law_numbers_go_to_every_node(
    a: Session,
    begin: bool,
    path: Handle,
    ids: Vec<NodeId>,
    value: Handle,
)
    ensures
        forall|r: Vec<ToolOutput>| #[trigger]
            call_ensures(Session::drag_outputs, (&a, begin, path, &ids, value), r) ==> {
                &&& r@.len() == (if begin {
                    2int
                } else {
                    1int
                })
                &&& begin ==> r@[0] is BeginTransaction
                &&& r@.last() matches ToolOutput::Commands(c) && one_each(
                    path,
                    ids@,
                    value,
                    a.writes_keys(),
                    c@,
                )
            },
        forall|r: Option<Edit>| #[trigger]
            call_ensures(Session::typed_number, (&a, path, &ids, Some(value)), r) ==> (r
                matches Some(e) && one_each(path, ids@, value, a.writes_keys(), e.commands@)
                && e.select is None),
        forall|r: Option<Edit>| #[trigger]
            call_ensures(Session::typed_number, (&a, path, &ids, None::<Handle>), r) ==> r is None,
{
    lemma_one_each(path, ids@, value, a.writes_keys());
}

/// The write of every value that is there.
pub open spec fn written(path: Handle, values: Seq<Move>, keyed: bool) -> Seq<Option<EditorCommand>> {
    Seq::new(
        values.len(),
        |i: int|
            match values[i].value {
                Some(value) => Some(
                    EditorCommand::SetProperty {
                        id: values[i].id,
                        prop: Property::Listed(path),
                        value,
                        keyed,
                    },
                ),
                None => None,
            },
    )
}

/// Every value that is there is written to its node, in order, and nothing else is.
pub proof fn law_every_value_is_written(path: Handle, values: Seq<Move>, keyed: bool)
    ensures
        keeps(value_writes(path, values, keyed), written(path, values, keyed)),
    decreases values.len(),
{
    if values.len() == 0 {
        lemma_keeps_none::<EditorCommand>();
        assert(written(path, values, keyed) =~= Seq::empty());
    } else {
        let front = values.drop_last();
        law_every_value_is_written(path, front, keyed);
        let next = written(path, values, keyed).last();
        lemma_keeps_more(value_writes(path, front, keyed), written(path, front, keyed), next);
        assert(written(path, front, keyed).push(next) =~= written(path, values, keyed));
    }
}

/// A number is dragged by the row and the channel that it was pressed on: the first move
/// begins the transaction, later ones do not, and letting go commits where one was begun.
pub proof fn law_number_drags_are_one_transaction(
    a: Session,
    path: Handle,
    channel: usize,
    ids: Vec<NodeId>,
    origins: Vec<Handle>,
    x: u32,
    other: Handle,
    side: usize,
)
    ensures
        forall|
            s: &mut Session,
            t: &mut Session,
            u: &mut Session,
            v: &mut Session,
            first: Option<bool>,
            second: Option<bool>,
            commit: bool,
        |
            *s == a && *t == *final(s) && *u == *final(t) && *v == *final(u)
                && #[trigger] call_ensures(
                Session::press_number,
                (s, path, channel, ids, origins, x),
                (),
            ) && #[trigger] call_ensures(Session::drag_number, (t, path, channel), first)
                && #[trigger] call_ensures(Session::drag_number, (u, path, channel), second)
                && #[trigger] call_ensures(Session::release_number, (v,), commit) ==> {
                &&& first == Some(true)
                &&& second == Some(false)
                &&& commit
                &&& (*final(u)).inspector_drag matches Some(d) && d.ids == ids && d.origins
                    == origins && d.press_x == x && d.path == path && d.channel == channel
                &&& (*final(v)).inspector_drag is None
            },
        forall|s: &mut Session, t: &mut Session, r: Option<bool>|
            *s == a && *t == *final(s) && (other != path || side != channel)
                && #[trigger] call_ensures(
                Session::press_number,
                (s, path, channel, ids, origins, x),
                (),
            ) && #[trigger] call_ensures(Session::drag_number, (t, other, side), r) ==> r is None
                && *final(t) == *final(s),
        forall|s: &mut Session, t: &mut Session, commit: bool|
            *s == a && *t == *final(s) && #[trigger] call_ensures(
                Session::press_number,
                (s, path, channel, ids, origins, x),
                (),
            ) && #[trigger] call_ensures(Session::release_number, (t,), commit) ==> !commit,
{
}

/// What is inspected: of one selected node what stands for it, of more all of them.
pub proof fn law_inspected_nodes(a: Session, doc: Document, r: Vec<NodeId>)
    requires
        call_ensures(Session::inspect_ids, (&a, &doc), r),
    ensures
        a.selection@.len() != 1 ==> r@ == a.selection@,
        a.selection@.len() == 1 ==> r@.len() == 1 && forall|at: NodeId| #[trigger]
            call_ensures(Document::effective_inspect_id, (&doc, a.selection@[0]), at) ==> r@[0]
                == at,
{
}

/// The part of a stop that a channel number stands for.
pub open spec fn part_number(part: StopPart) -> int {
    match part {
        StopPart::Offset => 0,
        StopPart::Red => 1,
        StopPart::Green => 2,
        StopPart::Blue => 3,
        StopPart::Alpha => 4,
    }
}

/// A channel of a value: the only one of a number, the first or second of a point, one of
/// a colour's four, and of a gradient five for each stop, for as many stops as there are.
pub proof fn law_channels_name_their_part(kind: ValueKind, stops: usize, channel: usize, r: Channel)
    requires
        call_ensures(apply_channel, (kind, stops, channel), r),
    ensures
        kind is Number || kind is Angle ==> r is Whole,
        kind is Point ==> (r is X <==> channel == 0) && (r is Y <==> channel != 0),
        kind is Color ==> (r is Red <==> channel == 0) && (r is Green <==> channel == 1) && (r
            is Blue <==> channel == 2) && (r is Alpha <==> channel >= 3),
        kind is Stops ==> (r is Stop <==> channel < 5 * stops) && (r is Nothing <==> channel >= 5
            * stops),
        r matches Channel::Stop { index, part } ==> kind is Stops && channel == 5 * index
            + part_number(part),
        kind is Whole || kind is Switch || kind is Other ==> r is Nothing,
{
}

/// The value of a hexadecimal digit, by its code.
pub open spec fn hex_value(c: char) -> int {
    let n = c as u32;
    if 48 <= n <= 57 {
        n - 48
    } else if 65 <= n <= 70 {
        n - 55
    } else {
        -1
    }
}

proof fn lemma_hex_digits(d: int)
    requires
        0 <= d < 16,
    ensures
        hex_digits()[d]@.len() == 1,
        hex_value(hex_digits()[d]@[0]) == d,
{
    reveal_strlit("0");
    reveal_strlit("1");
    reveal_strlit("2");
    reveal_strlit("3");
    reveal_strlit("4");
    reveal_strlit("5");
    reveal_strlit("6");
    reveal_strlit("7");
    reveal_strlit("8");
    reveal_strlit("9");
    reveal_strlit("A");
    reveal_strlit("B");
    reveal_strlit("C");
    reveal_strlit("D");
    reveal_strlit("E");
    reveal_strlit("F");
}

/// A colour is spelt with a number sign and two hexadecimal digits for each channel, the
/// higher first, from which the channel reads back.
pub proof fn law_colors_read_back(red: u8, green: u8, blue: u8, r: String)
    requires
        call_ensures(hex_color, (red, green, blue), r),
    ensures
        r@.len() == 7,
        r@[0] == '#',
        16 * hex_value(r@[1]) + hex_value(r@[2]) == red,
        16 * hex_value(r@[3]) + hex_value(r@[4]) == green,
        16 * hex_value(r@[5]) + hex_value(r@[6]) == blue,
{
    reveal_strlit("#");
    lemma_hex_digits(red as int / 16);
    lemma_hex_digits(red as int % 16);
    lemma_hex_digits(green as int / 16);
    lemma_hex_digits(green as int % 16);
    lemma_hex_digits(blue as int / 16);
    lemma_hex_digits(blue as int % 16);
}

/// A number editor shows its input from when it is opened until it is submitted or loses
/// the focus that it had, and asks for the focus until it has it.
pub proof fn law_number_editors_close_when_left(e: NumberEditor, label: String)
    ensures
        forall|
            s: &mut NumberEditor,
            t: &mut NumberEditor,
            u: &mut NumberEditor,
            v: &mut NumberEditor,
            first: NumberView,
            second: NumberView,
            third: NumberView,
        |
            *s == e && *t == *final(s) && *u == *final(t) && *v == *final(u)
                && #[trigger] call_ensures(NumberEditor::open, (s, label), ())
                && #[trigger] call_ensures(NumberEditor::frame, (t, false), first)
                && #[trigger] call_ensures(NumberEditor::frame, (u, true), second)
                && #[trigger] call_ensures(NumberEditor::frame, (v, false), third) ==> {
                &&& first == (NumberView::Input { ask_focus: true })
                &&& second == (NumberView::Input { ask_focus: false })
                &&& third is Number
                &&& (*final(s)).draft == label
                &&& !(*final(v)).editing
            },
        forall|s: &mut NumberEditor, t: &mut NumberEditor, view: NumberView, focused: bool|
            *s == e && *t == *final(s)
                && #[trigger] call_ensures(NumberEditor::submitted, (s,), ())
                && #[trigger] call_ensures(NumberEditor::frame, (t, focused), view) ==> view
                is Number && (*final(t)).draft == e.draft,
        forall|s: &mut NumberEditor, text: String|
            *s == e && #[trigger] call_ensures(NumberEditor::edited, (s, text), ())
                ==> (*final(s)).draft == text && (*final(s)).editing == e.editing,
{
}

/// The keyframe diamond is filled exactly at a key; while designing, only rows with keys
/// have one.
pub proof fn law_diamonds_show_keys(
    at: bool,
    animated: bool,
    quiet: bool,
    state: DiamondState,
    r: Option<DiamondLook>,
)
    requires
        call_ensures(diamond_state, (at, animated), state),
        call_ensures(diamond_look, (state, quiet), r),
    ensures
        r is None <==> quiet && !at && !animated,
        r matches Some(look) ==> (look.filled <==> at),
{
}

/// Toggling keys is an edit where there is anything to do; the swatch of a single style
/// opens the picker on its colour.
pub proof fn law_keys_and_swatches(doc: Document, ids: Vec<NodeId>, commands: Vec<EditorCommand>)
    ensures
        forall|r: Option<Edit>| #[trigger]
            call_ensures(toggle_keys, (commands,), r) ==> {
                &&& r is Some <==> commands@.len() > 0
                &&& r matches Some(e) ==> e.commands@ == commands@ && e.select is None
            },
        forall|r: Option<PickerTarget>| #[trigger]
            call_ensures(swatch_target, (&doc, &ids), r) ==> {
                &&& r is Some <==> ids@.len() == 1 && doc.nodes().contains_key(ids@[0])
                    && doc.nodes()[ids@[0]].kind is Style
                &&& r is Some ==> r == Some(PickerTarget::StyleColor { style_id: ids@[0] })
            },
        forall|s: &mut Session, t: &mut Session|
            *t == *final(s) && #[trigger] call_ensures(Session::toggle_record, (s,), ())
                && #[trigger] call_ensures(Session::toggle_record, (t,), ()) ==> (*final(s)).record
                == !(*s).record && (*final(t)).record == (*s).record,
{
}

} // verus!
