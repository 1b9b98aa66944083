//! What pasting a style and turning strokes into paths write, step by step.
use vstd::prelude::*;

use crate::clipboard::EditClosed;
use crate::commands::{Applied, EditorCommand, KindSource, TreeSource};
use crate::kept::{keeps, lemma_filter_keeps, lemma_keeps_holds, lemma_keeps_more, lemma_keeps_none};
use crate::model::{Document, Handle, NodeId, Parent, StyleKind};
use crate::session::{Session, StyleCopy};
use crate::strokes::{Conversion, StrokeRun, StrokeStage, StrokeTarget};
use crate::styling::{first_style, settled, StylePlan, StyleRun, StyleStage};
use crate::tree_laws::place;

verus! {

/// The first style of the kind.
pub proof fn law_first_style_of_a_kind(styles: Seq<StyleCopy>, kind: StyleKind)
    ensures
        match first_style(styles, kind) {
            Some(copy) => exists|i: int|
                {
                    &&& 0 <= i < styles.len()
                    &&& #[trigger] styles[i] == copy
                    &&& copy.kind == kind
                    &&& forall|j: int| 0 <= j < i ==> (#[trigger] styles[j]).kind != kind
                },
            None => forall|j: int| 0 <= j < styles.len() ==> (#[trigger] styles[j]).kind != kind,
        },
    decreases styles.len(),
{
    if styles.len() > 0 {
        if styles[0].kind != kind {
            let rest = styles.drop_first();
            law_first_style_of_a_kind(rest, kind);
            match first_style(rest, kind) {
                Some(copy) => {
                    let i = choose|i: int|
                        {
                            &&& 0 <= i < rest.len()
                            &&& #[trigger] rest[i] == copy
                            &&& copy.kind == kind
                            &&& forall|j: int| 0 <= j < i ==> (#[trigger] rest[j]).kind != kind
                        };
                    assert(styles[i + 1] == copy);
                    assert forall|j: int| 0 <= j < i + 1 implies (#[trigger] styles[j]).kind
                        != kind by {
                        if j > 0 {
                            assert(rest[j - 1] == styles[j]);
                        }
                    }
                },
                None => {
                    assert forall|j: int| 0 <= j < styles.len() implies (#[trigger] styles[j]).kind
                        != kind by {
                        if j > 0 {
                            assert(rest[j - 1] == styles[j]);
                        }
                    }
                },
            }
        } else {
            assert(styles[0] == first_style(styles, kind)->0);
        }
    }
}

/// Whether the style node that paints `id` paints nothing else: it is there, its scope
/// paints one node at most, and the scope of `id` paints no other node.
pub open spec fn paints_alone(doc: Document, id: NodeId, kind: StyleKind) -> bool {
    &&& doc.nearest(doc.scopes(id), kind) matches Some(style) && {
        &&& place(doc, style) matches Some(scope) && (doc.children_of(scope) matches Some(s)
            && doc.painted_count(s) <= 1)
    }
    &&& place(doc, id) matches Some(scope) ==> (doc.children_of(scope) matches Some(s) ==> {
        &&& doc.painted_count(s) <= 1
        &&& scope is Comp ==> forall|i: int|
            0 <= i < s.len() && #[trigger] s[i] != id ==> !doc.is_container(s[i])
    })
}

proof fn lemma_alone(doc: Document, id: NodeId, kind: StyleKind)
    requires
        doc.wf(),
    ensures
        paints_alone(doc, id, kind) <==> !doc.shared_or_absent(id, kind),
{
    if let Some(scope) = place(doc, id) {
        if let Some(s) = doc.children_of(scope) {
            if doc.other_container(s, id) {
                let i = choose|i: int|
                    0 <= i < s.len() && #[trigger] s[i] != id && doc.is_container(s[i]);
                assert(s[i] != id);
            }
        }
    }
}

/// Whether the plan gives `id` the style of the clipboard: rewrites the style node that
/// paints it where that paints nothing else, and makes a new one in a group of its own
/// otherwise.
pub open spec fn plans_style(
    doc: Document,
    plan: StylePlan,
    id: NodeId,
    copy: Option<StyleCopy>,
    kind: StyleKind,
) -> bool {
    let nearest = doc.nearest(doc.scopes(id), kind);
    &&& copy matches Some(c) ==> {
        &&& paints_alone(doc, id, kind) ==> plan.direct@.contains((nearest->0, c))
            && !plan.local@.contains(c)
        &&& !paints_alone(doc, id, kind) ==> plan.local@.contains(c) && forall|x: NodeId|
            !#[trigger] plan.direct@.contains((x, c))
    }
}

/// Pasting a style plans for every selected node that stands somewhere, in order, and
/// takes the first fill and the first stroke of the clipboard; it writes the fill before
/// the stroke and nothing else.
pub proof fn law_style_goes_to_every_selected_node(
    a: Session,
    b: Session,
    doc: Document,
    transaction_open: bool,
    fill: Option<StyleCopy>,
    stroke: Option<StyleCopy>,
    r: Option<(EditClosed, StyleRun)>,
)
    requires
        doc.wf(),
        a.clipboard is Some,
        fill == first_style(a.clipboard->0.style_nodes@, StyleKind::Fill),
        stroke == first_style(a.clipboard->0.style_nodes@, StyleKind::Stroke),
        exists|s: &mut Session| #[trigger]
            call_ensures(Session::paste_style, (s, &doc, transaction_open), r) && *s == a
                && *final(s)
                == b,
    ensures
        r is Some <==> (fill is Some || stroke is Some) && exists|i: int|
            0 <= i < a.selection@.len() && place(doc, #[trigger] a.selection@[i]) is Some,
        r matches Some((closed, run)) ==> {
            &&& run.at == 0 && run.stage == (StyleStage::Direct { next: 0 }) && !run.failed
            &&& exists|ids: Seq<NodeId>|
                {
                    &&& #[trigger] keeps(ids, standing(doc, a.selection@))
                    &&& run.plans@.len() == ids.len()
                    &&& forall|i: int|
                        0 <= i < ids.len() ==> {
                            &&& (#[trigger] run.plans@[i]).target == ids[i]
                            &&& plans_style(doc, run.plans@[i], ids[i], fill, StyleKind::Fill)
                            &&& plans_style(doc, run.plans@[i], ids[i], stroke, StyleKind::Stroke)
                            &&& run.plans@[i].direct@.len() + run.plans@[i].local@.len() == (
                            if fill is Some {
                                1int
                            } else {
                                0int
                            }) + (if stroke is Some {
                                1int
                            } else {
                                0int
                            })
                            &&& fill is Some && stroke is Some && run.plans@[i].direct@.len() == 2
                                ==> run.plans@[i].direct@[0].1 == fill->0
                            &&& fill is Some && stroke is Some && run.plans@[i].local@.len() == 2
                                ==> run.plans@[i].local@[0] == fill->0
                        }
                }
        },
{
    let test = |id: NodeId| doc.located(id) is Some;
    let ids = a.selection@.filter(test);
    lemma_filter_keeps(a.selection@, test);
    assert(crate::kept::passing(a.selection@, test) =~= standing(doc, a.selection@));
    lemma_keeps_holds(ids, standing(doc, a.selection@));
    law_first_style_of_a_kind(a.clipboard->0.style_nodes@, StyleKind::Fill);
    law_first_style_of_a_kind(a.clipboard->0.style_nodes@, StyleKind::Stroke);
    assert(fill is Some ==> fill->0.kind is Fill);
    assert(stroke is Some ==> stroke->0.kind is Stroke);
    if ids.len() > 0 {
        assert(ids.contains(ids[0]));
        let i = choose|i: int|
            0 <= i < standing(doc, a.selection@).len() && standing(doc, a.selection@)[i] == Some(
                ids[0],
            );
        assert(place(doc, a.selection@[i]) is Some);
    } else {
        assert forall|i: int| 0 <= i < a.selection@.len() implies place(
            doc,
            #[trigger] a.selection@[i],
        ) is None by {
            assert(standing(doc, a.selection@)[i] is None);
        }
    }
    if let Some((closed, run)) = r {
        assert forall|i: int| 0 <= i < ids.len() implies {
            &&& (#[trigger] run.plans@[i]).target == ids[i]
            &&& plans_style(doc, run.plans@[i], ids[i], fill, StyleKind::Fill)
            &&& plans_style(doc, run.plans@[i], ids[i], stroke, StyleKind::Stroke)
            &&& run.plans@[i].direct@.len() + run.plans@[i].local@.len() == (if fill is Some {
                1int
            } else {
                0int
            }) + (if stroke is Some {
                1int
            } else {
                0int
            })
            &&& fill is Some && stroke is Some && run.plans@[i].direct@.len() == 2
                ==> run.plans@[i].direct@[0].1 == fill->0
            &&& fill is Some && stroke is Some && run.plans@[i].local@.len() == 2
                ==> run.plans@[i].local@[0] == fill->0
        } by {
            let plan = run.plans@[i];
            let id = ids[i];
            lemma_alone(doc, id, StyleKind::Fill);
            lemma_alone(doc, id, StyleKind::Stroke);
            assert(doc.style_plan(plan, id, fill, stroke));
            let df = doc.direct_part(id, fill);
            let ds = doc.direct_part(id, stroke);
            let lf = doc.local_part(id, fill);
            let ls = doc.local_part(id, stroke);
            if fill is Some && df.len() > 0 {
                assert(plan.direct@[0] == df[0]);
            }
            if fill is Some && lf.len() > 0 {
                assert(plan.local@[0] == lf[0]);
            }
            if stroke is Some && ds.len() > 0 {
                assert(plan.direct@[plan.direct@.len() - 1] == ds[0]);
            }
            if stroke is Some && ls.len() > 0 {
                assert(plan.local@[plan.local@.len() - 1] == ls[0]);
            }
        }
        assert(keeps(ids, standing(doc, a.selection@)));
    }
}

/// The nodes that stand somewhere.
pub open spec fn standing(doc: Document, ids: Seq<NodeId>) -> Seq<Option<NodeId>> {
    Seq::new(
        ids.len(),
        |i: int|
            if place(doc, ids[i]) is Some {
                Some(ids[i])
            } else {
                None
            },
    )
}

/// A plan first rewrites its style nodes, each in turn; then, where it has styles of its
/// own to make, it makes a group where the target stands, moves the target into it and
/// puts the styles behind it, each in turn.
pub proof fn law_style_run_writes_in_turn(run: StyleRun, doc: Document)
    requires
        run.wf(),
        run.at < run.plans@.len(),
    ensures
        forall|s: &mut StyleRun, r: Option<EditorCommand>|
            *s == run && #[trigger] call_ensures(StyleRun::next_command, (s, &doc), r) ==> {
                let plan = run.plans@[run.at as int];
                &&& (*final(s)).plans == run.plans
                &&& run.stage matches StyleStage::Direct { next } ==> {
                    &&& plan.direct@.len() > next ==> r == Some(
                        EditorCommand::SetNodeKind {
                            id: plan.direct@[next as int].0,
                            kind: KindSource::Style {
                                kind: plan.direct@[next as int].1.kind,
                                content: plan.direct@[next as int].1.content,
                            },
                        },
                    ) && *final(s) == run
                    &&& next == plan.direct@.len() && !run.failed && plan.local@.len() > 0
                        && doc.located(plan.target) is Some ==> {
                        &&& r == Some(
                            EditorCommand::InsertNode {
                                parent: doc.located(plan.target)->0.parent,
                                index: doc.located(plan.target)->0.index,
                                tree: TreeSource::Group { name: "Styled" },
                            },
                        )
                        &&& (*final(s)).at == run.at && (*final(s)).stage is Group
                        &&& !(*final(s)).failed
                    }
                    &&& next == plan.direct@.len() && !run.failed && plan.local@.len() > 0
                        && doc.located(plan.target) is None ==> r is None && (*final(s)).failed
                }
                &&& run.stage matches StyleStage::Move { group } ==> r == Some(
                    EditorCommand::MoveNode {
                        id: plan.target,
                        new_parent: Parent::Node(group),
                        index: 0,
                    },
                ) && *final(s) == run
                &&& run.stage matches StyleStage::Style { group, next }
                    ==> (plan.local@.len() > next
                    ==> r == Some(
                    EditorCommand::InsertNode {
                        parent: Parent::Node(group),
                        index: usize::MAX,
                        tree: TreeSource::Style {
                            kind: plan.local@[next as int].kind,
                            content: plan.local@[next as int].content,
                        },
                    },
                ) && *final(s) == run)
            },
{
    reveal_with_fuel(settled, 3);
}

/// A plan that is through gives way to the next one: the run goes on as one that stands
/// at the start of that, and a run without plans left has no command.
pub proof fn law_style_run_takes_every_plan(
    run: StyleRun,
    next: StyleRun,
    doc: Document,
    n: Option<EditorCommand>,
)
    requires
        run.wf(),
        run.at < run.plans@.len(),
        run.stage == (StyleStage::Direct {
            next: run.plans@[run.at as int].direct.len(),
        }) && (run.failed || run.plans@[run.at as int].local@.len() == 0) || (run.stage
            matches StyleStage::Style { next: k, .. } && k
            == run.plans@[run.at as int].local@.len()),
        next.plans == run.plans,
        next.at == run.at + 1,
        next.stage == (StyleStage::Direct { next: 0 }),
        next.failed == run.failed,
        exists|s: &mut StyleRun| #[trigger]
            call_ensures(StyleRun::next_command, (s, &doc), n) && *s == next,
    ensures
        forall|s: &mut StyleRun, r: Option<EditorCommand>|
            *s == run && #[trigger] call_ensures(StyleRun::next_command, (s, &doc), r) ==> r == n,
        next.at == next.plans@.len() ==> n is None,
{
    reveal_with_fuel(settled, 2);
}

/// A reply that succeeds goes on to the next write of the plan; one that fails is
/// remembered.
pub proof fn law_style_run_follows_the_replies(run: StyleRun, applied: Applied)
    requires
        run.waiting(),
    ensures
        forall|s: &mut StyleRun|
            *s == run && #[trigger] call_ensures(StyleRun::replied, (s, Some(applied)), ()) ==> {
                &&& (*final(s)).plans == run.plans
                &&& run.stage matches StyleStage::Direct { next } ==> (*final(s)).stage
                    == (StyleStage::Direct { next: (next + 1) as usize })
                        && (*final(s)).at == run.at
                    && (*final(s)).failed == run.failed
                &&& run.stage is Group && applied.created is Some ==> (*final(s)).stage
                    == (StyleStage::Move { group: applied.created->0 }) && (*final(s)).at == run.at
                    && (*final(s)).failed == run.failed
                &&& run.stage matches StyleStage::Move { group } ==> (*final(s)).stage
                    == (StyleStage::Style { group, next: 0 }) && (*final(s)).at == run.at
                    && (*final(s)).failed == run.failed
                &&& run.stage matches StyleStage::Style { group, next } ==> (*final(s)).stage
                    == (StyleStage::Style { group, next: (next + 1) as usize }) && (*final(s)).at
                    == run.at && (*final(s)).failed == run.failed
            },
        forall|s: &mut StyleRun|
            *s == run && #[trigger] call_ensures(StyleRun::replied, (s, None), ()) ==> {
                &&& (*final(s)).plans == run.plans
                &&& (*final(s)).failed
                &&& run.stage is Direct || run.stage is Style ==> (*final(s)).at == run.at + 1
                    && (*final(s)).stage == (StyleStage::Direct { next: 0 })
                &&& run.stage is Group || run.stage is Move ==> (*final(s)).at == run.plans@.len()
            },
{
}

/// The stroke of every selected shape that has one.
pub open spec fn strokes(doc: Document, sel: Seq<NodeId>) -> Seq<Option<StrokeTarget>> {
    Seq::new(
        sel.len(),
        |i: int|
            if doc.nodes().contains_key(sel[i]) && doc.nodes()[sel[i]].kind is Shape {
                match doc.nearest(doc.scopes(sel[i]), StyleKind::Stroke) {
                    Some(stroke) => Some(StrokeTarget { shape: sel[i], stroke }),
                    None => None,
                }
            } else {
                None
            },
    )
}

proof fn lemma_stroked(doc: Document, sel: Seq<NodeId>)
    ensures
        keeps(doc.stroked(sel), strokes(doc, sel)),
    decreases sel.len(),
{
    if sel.len() == 0 {
        lemma_keeps_none::<StrokeTarget>();
        assert(strokes(doc, sel) =~= Seq::empty());
    } else {
        let front = sel.drop_last();
        lemma_stroked(doc, front);
        let next = strokes(doc, sel).last();
        lemma_keeps_more(doc.stroked(front), strokes(doc, front), next);
        assert(strokes(doc, front).push(next) =~= strokes(doc, sel));
    }
}

/// The shapes whose strokes can be converted are the selected shapes that a stroke
/// paints, in order, each with the stroke that is nearest to it.
pub proof fn law_stroked_shapes_are_all_found(a: Session, doc: Document, r: Vec<StrokeTarget>)
    requires
        doc.wf(),
        call_ensures(Session::stroke_targets, (&a, &doc), r),
    ensures
        keeps(r@, strokes(doc, a.selection@)),
{
    lemma_stroked(doc, a.selection@);
}

/// The conversion of every target that has an outline and whose stroke stands somewhere.
pub open spec fn converted(
    doc: Document,
    targets: Seq<StrokeTarget>,
    outlines: Seq<Option<Handle>>,
) -> Seq<Option<Conversion>> {
    Seq::new(
        targets.len(),
        |i: int|
            match (outlines[i], place(doc, targets[i].stroke)) {
                (Some(compound), Some(scope)) => match doc.children_of(scope) {
                    Some(s) => Some(
                        Conversion {
                            shape: targets[i].shape,
                            compound,
                            stroke: targets[i].stroke,
                            shared: doc.painted_count(s) >= 2,
                            content: doc.nodes()[targets[i].stroke].content,
                        },
                    ),
                    None => None,
                },
                _ => None,
            },
    )
}

proof fn lemma_conversions(
    doc: Document,
    targets: Seq<StrokeTarget>,
    outlines: Seq<Option<Handle>>,
)
    ensures
        keeps(doc.conversions(targets, outlines), converted(doc, targets, outlines)),
    decreases targets.len(),
{
    if targets.len() == 0 {
        lemma_keeps_none::<Conversion>();
        assert(converted(doc, targets, outlines) =~= Seq::empty());
    } else {
        let front = targets.drop_last();
        lemma_conversions(doc, front, outlines);
        let next = converted(doc, targets, outlines).last();
        lemma_keeps_more(
            doc.conversions(front, outlines),
            converted(doc, front, outlines),
            next,
        );
        assert(converted(doc, front, outlines).push(next) =~= converted(doc, targets, outlines));
    }
}

/// Every target that has an outline is converted, in order, with its own outline and its
/// own stroke.
pub proof fn law_every_outlined_stroke_is_converted(
    a: Session,
    b: Session,
    doc: Document,
    targets: Vec<StrokeTarget>,
    outlines: Vec<Option<Handle>>,
    transaction_open: bool,
    r: Option<(EditClosed, StrokeRun)>,
)
    requires
        doc.wf(),
        call_ensures(Session::stroke_targets, (&a, &doc), targets),
        outlines@.len() == targets@.len(),
        exists|s: &mut Session| #[trigger]
            call_ensures(
                Session::stroke_selection_to_path,
                (s, &doc, &outlines, transaction_open),
                r,
            ) && *s == a && *final(s) == b,
    ensures
        r is Some <==> exists|i: int|
            0 <= i < targets@.len() && (#[trigger] converted(doc, targets@, outlines@)[i]) is Some,
        r matches Some((closed, run)) ==> {
            &&& keeps(run.conversions@, converted(doc, targets@, outlines@))
            &&& run.at == 0 && run.stage is Outline && !run.failed
        },
{
    lemma_stroked(doc, a.selection@);
    lemma_keeps_holds(targets@, strokes(doc, a.selection@));
    lemma_conversions(doc, targets@, outlines@);
    lemma_keeps_holds(
        doc.conversions(targets@, outlines@),
        converted(doc, targets@, outlines@),
    );
}

/// A conversion makes the shape its outline; a stroke that paints nothing else then
/// becomes a fill, and for one that does a group is made where the shape stands, the shape
/// moved into it and a fill put behind it.
pub proof fn law_stroke_run_writes_in_turn(run: StrokeRun, doc: Document)
    requires
        run.wf(),
    ensures
        forall|s: &mut StrokeRun, r: Option<EditorCommand>|
            *s == run && #[trigger] call_ensures(StrokeRun::next_command, (s, &doc), r) ==> {
                let c = run.conversions@[run.at as int];
                &&& (*final(s)).conversions == run.conversions
                &&& run.at == run.conversions@.len() ==> r is None
                &&& run.at < run.conversions@.len() && !(run.stage is Group) ==> *final(s) == run
                &&& run.at < run.conversions@.len() ==> {
                    &&& run.stage is Outline ==> r == Some(
                        EditorCommand::SetNodeKind {
                            id: c.shape,
                            kind: KindSource::Compound { contours: c.compound },
                        },
                    )
                    &&& run.stage is Refill ==> r == Some(
                        EditorCommand::SetNodeKind {
                            id: c.stroke,
                            kind: KindSource::FillOfStroke { content: c.content },
                        },
                    )
                    &&& run.stage is Group ==> match doc.located(c.shape) {
                        Some(at) => *final(s) == run && r == Some(
                            EditorCommand::InsertNode {
                                parent: at.parent,
                                index: at.index,
                                tree: TreeSource::Group { name: "Stroked Path" },
                            },
                        ),
                        None => r is None && (*final(s)).failed,
                    }
                    &&& run.stage matches StrokeStage::Move { group } ==> r == Some(
                        EditorCommand::MoveNode {
                            id: c.shape,
                            new_parent: Parent::Node(group),
                            index: 0,
                        },
                    )
                    &&& run.stage matches StrokeStage::Fill { group, .. } ==> r == Some(
                        EditorCommand::InsertNode {
                            parent: Parent::Node(group),
                            index: usize::MAX,
                            tree: TreeSource::FillOfStroke { content: c.content },
                        },
                    )
                }
            },
{
}

/// Replies that succeed take a conversion through its steps and then on to the next one;
/// a failure is remembered.
pub proof fn law_stroke_run_follows_the_replies(run: StrokeRun, applied: Applied)
    requires
        run.at < run.conversions@.len(),
    ensures
        forall|s: &mut StrokeRun|
            *s == run && #[trigger] call_ensures(StrokeRun::replied, (s, Some(applied)), ()) ==> {
                let shared = run.conversions@[run.at as int].shared;
                &&& (*final(s)).conversions == run.conversions
                &&& run.stage is Outline ==> (*final(s)).at == run.at && ((*final(s)).stage is Group
                    <==> shared) && ((*final(s)).stage is Refill <==> !shared)
                &&& run.stage is Refill ==> (*final(s)).at == run.at + 1 && (*final(s)).stage
                    is Outline
                &&& run.stage is Group && applied.created is Some ==> (*final(s)).at == run.at
                    && (*final(s)).stage == (StrokeStage::Move { group: applied.created->0 })
                &&& run.stage matches StrokeStage::Move { group } ==> (*final(s)).at == run.at
                    && (*final(s)).stage == (StrokeStage::Fill { group, moved: true })
                &&& run.stage matches StrokeStage::Fill { moved, .. } ==> (moved ==> (*final(s)).at
                    == run.at + 1 && (*final(s)).stage is Outline)
                &&& !(run.stage is Group && applied.created is None) && !(run.stage
                    matches StrokeStage::Fill { moved: false, .. }) ==> (*final(s)).failed
                    == run.failed
            },
        forall|s: &mut StrokeRun|
            *s == run && !(run.stage is Move) && #[trigger] call_ensures(
                StrokeRun::replied,
                (s, None),
                (),
            ) ==> (*final(s)).failed && (*final(s)).conversions == run.conversions,
{
}

} // verus!
