//! Which blocks the property panel shows.
use vstd::prelude::*;

use crate::inspect::{
    appearance, appearance_blocks, fill_blocks, optional_block, paint_block, row_blocks, runs,
    shown_style, stroke_blocks, timing_blocks, Appearance, Block, Inspection, PropRow, SceneItem,
    SectionRun,
};
use crate::kept::{keeps, lemma_keeps_holds, lemma_keeps_more, lemma_keeps_none};
use crate::model::{Document, NodeId, NodeKind, ShapeKind, StyleKind};
use crate::session::Session;
use crate::tree_laws::lemma_contains_add;

verus! {

/// The block of every run that is not shown elsewhere: fill and stroke are, where the
/// appearance is shown, and the text where it has a block of its own.
pub open spec fn shown_runs(
    all: Seq<SectionRun>,
    painted: bool,
    text_shown: bool,
) -> Seq<Option<Block>> {
    Seq::new(
        all.len(),
        |i: int|
            if painted && (all[i].section@ == "Fill"@ || all[i].section@ == "Stroke"@) {
                None
            } else if text_shown && all[i].section@ == "Text"@ && all[i].section@ != "Fill"@
                && all[i].section@ != "Stroke"@ {
                None
            } else {
                Some(Block::Rows { run: all[i] })
            },
    )
}

proof fn lemma_row_blocks(all: Seq<SectionRun>, painted: bool, text_shown: bool)
    ensures
        keeps(row_blocks(all, painted, text_shown), shown_runs(all, painted, text_shown)),
    decreases all.len(),
{
    if all.len() == 0 {
        lemma_keeps_none::<Block>();
        assert(shown_runs(all, painted, text_shown) =~= Seq::empty());
    } else {
        let front = all.drop_last();
        lemma_row_blocks(front, painted, text_shown);
        let next = shown_runs(all, painted, text_shown).last();
        let before = row_blocks(front, painted, text_shown);
        lemma_keeps_more(before, shown_runs(front, painted, text_shown), next);
        assert(shown_runs(front, painted, text_shown).push(next) =~= shown_runs(
            all,
            painted,
            text_shown,
        ));
        assert(before + Seq::<Block>::empty() =~= before);
        assert(next is Some ==> before + seq![next->0] =~= before.push(next->0));
    }
}

/// Without a selection the panel shows the main composition; with more than one node
/// selected it shows the rows that they share, section by section, all of them.
pub proof fn law_panel_of_none_and_many(
    a: Session,
    doc: Document,
    items: Vec<SceneItem>,
    host: Inspection,
    rows: Vec<PropRow>,
    r: Vec<Block>,
)
    requires
        call_ensures(Session::property_blocks, (&a, &doc, &items, host, &rows), r),
    ensures
        a.selection@.len() == 0 ==> r@ == seq![Block::CompositionBlock { comp: doc.main_id() }],
        a.selection@.len() > 1 ==> {
            &&& r@.len() == runs(rows@).len()
            &&& forall|i: int|
                0 <= i < r@.len() ==> #[trigger] r@[i] == (Block::Rows { run: runs(rows@)[i] })
        },
{
    if a.selection@.len() > 1 {
        lemma_all_rows(runs(rows@));
    }
}

proof fn lemma_all_rows(all: Seq<SectionRun>)
    ensures
        row_blocks(all, false, false) == Seq::new(
            all.len(),
            |i: int| Block::Rows { run: all[i] },
        ),
    decreases all.len(),
{
    if all.len() > 0 {
        lemma_all_rows(all.drop_last());
        assert(row_blocks(all, false, false) =~= Seq::new(
            all.len(),
            |i: int| Block::Rows { run: all[i] },
        ));
    } else {
        assert(row_blocks(all, false, false) =~= Seq::new(
            all.len(),
            |i: int| Block::Rows { run: all[i] },
        ));
    }
}

/// Whether the node is there and of a kind that passes.
pub open spec fn is_style_node(doc: Document, id: NodeId) -> bool {
    doc.nodes().contains_key(id) && doc.nodes()[id].kind is Style
}

/// With one node selected the panel starts with the node itself, shows its appearance,
/// its text, its image, its timing and its rows, and the modifiers of a shape: each block
/// exactly where there is something for it.
pub proof fn law_panel_of_one(
    a: Session,
    doc: Document,
    items: Vec<SceneItem>,
    host: Inspection,
    rows: Vec<PropRow>,
    at: NodeId,
    text: Option<NodeId>,
    look: Option<Appearance>,
    target: Option<(NodeId, ShapeKind)>,
    b: Block,
    r: Vec<Block>,
)
    requires
        a.selection@.len() == 1,
        call_ensures(Document::effective_inspect_id, (&doc, a.selection@[0]), at),
        call_ensures(Document::text_node, (&doc, at), text),
        call_ensures(Document::modifier_target, (&doc, at), target),
        call_ensures(
            crate::inspect::appearance_for,
            (&doc, &items, host.links, at),
            look,
        ),
        call_ensures(Session::property_blocks, (&a, &doc, &items, host, &rows), r),
    ensures
        ({
            let id = a.selection@[0];
            let all = runs(rows@);
            let there = doc.nodes().contains_key(at);
            &&& doc.nodes().contains_key(id) ==> r@.len() > 0 && r@[0] == (Block::Identity { id })
            &&& b is Identity ==> (r@.contains(b) <==> doc.nodes().contains_key(id) && b
                == (Block::Identity { id }))
            &&& b is CompositionBlock ==> !r@.contains(b)
            &&& b is TextBlock ==> (r@.contains(b) <==> text is Some && b == (Block::TextBlock {
                text: text->0,
            }))
            &&& b is ImageInfo ==> (r@.contains(b) <==> there && doc.nodes()[at].kind is Image
                && host.image_known && b == (Block::ImageInfo { id: at }))
            &&& b matches Block::LayerBlock { id: x } ==> (r@.contains(b) <==> (x == at || x == id)
                && doc.nodes().contains_key(x) && doc.nodes()[x].kind is Layer)
            &&& b matches Block::PrecompBlock { id: x }
                ==> (r@.contains(b) <==> (x == at || x == id)
                && doc.nodes().contains_key(x) && doc.nodes()[x].kind is Precomp)
            &&& b is Rows ==> (r@.contains(b) <==> shown_runs(
                all,
                look is Some,
                text is Some,
            ).contains(Some(b)))
            &&& b is Modifiers ==> (r@.contains(b) <==> target is Some && b == (Block::Modifiers {
                shape: (target->0).0,
                kind: (target->0).1,
            }))
            &&& b is Styles ==> (r@.contains(b) <==> look is Some && look->0.fill != Some(at)
                && look->0.stroke != Some(at) && b == (Block::Styles {
                shape: at,
                has_fill: look->0.fill is Some,
                has_stroke: look->0.stroke is Some,
            }))
            &&& b matches Block::Paint { shape, style } ==> (look matches Some(l)
                ==> (r@.contains(b)
                <==> shape == l.shape && is_style_node(doc, style) && (l.fill == Some(style)
                || l.stroke == Some(style))))
            &&& b matches Block::StyleRows { style, kind } ==> (look matches Some(l)
                ==> (r@.contains(b) <==> (kind is Fill && host.fill_rows && l.fill == Some(style))
                || (kind is Stroke && host.stroke_rows && l.stroke == Some(style))))
            &&& b matches Block::Dashes { style } ==> (look matches Some(l) ==> (r@.contains(b)
                <==> l.stroke == Some(style) && is_style_node(doc, style) && doc.nodes()[style].kind
                == NodeKind::Style(StyleKind::Stroke)))
        }),
{
    let id = a.selection@[0];
    let all = runs(rows@);
    let p1 = optional_block(doc.has(id), Block::Identity { id });
    let p2 = appearance_blocks(doc, items@, host, at);
    let p3 = match doc.text_target(at) {
        Some(t) => seq![Block::TextBlock { text: t }],
        None => Seq::empty(),
    };
    let p4 = optional_block(
        doc.has(at) && doc.node(at).kind == NodeKind::Image && host.image_known,
        Block::ImageInfo { id: at },
    );
    let p5 = timing_blocks(doc, at);
    let p6 = if at != id {
        timing_blocks(doc, id)
    } else {
        Seq::empty()
    };
    let p7 = row_blocks(
        all,
        appearance(doc, items@, host.links, at) is Some,
        doc.text_target(at) is Some,
    );
    let p8 = match doc.modifier_shape(at) {
        Some(s) => seq![
            Block::Modifiers { shape: s, kind: doc.node(s).kind->Shape_0 },
        ],
        None => Seq::empty(),
    };
    assert(r@ == p1 + p2 + p3 + p4 + p5 + p6 + p7 + p8);
    if doc.has(id) {
        assert(r@[0] == p1[0]);
    }
    lemma_contains_add(p1, p2, b);
    lemma_contains_add(p1 + p2, p3, b);
    lemma_contains_add(p1 + p2 + p3, p4, b);
    lemma_contains_add(p1 + p2 + p3 + p4, p5, b);
    lemma_contains_add(p1 + p2 + p3 + p4 + p5, p6, b);
    lemma_contains_add(p1 + p2 + p3 + p4 + p5 + p6, p7, b);
    lemma_contains_add(p1 + p2 + p3 + p4 + p5 + p6 + p7, p8, b);
    lemma_optional(doc.has(id), Block::Identity { id }, b);
    lemma_optional(
        doc.has(at) && doc.node(at).kind == NodeKind::Image && host.image_known,
        Block::ImageInfo { id: at },
        b,
    );
    lemma_timing(doc, at, b);
    lemma_timing(doc, id, b);
    lemma_appearance(doc, items@, host, at, b);
    lemma_row_blocks(all, look is Some, text is Some);
    lemma_keeps_holds(p7, shown_runs(all, look is Some, text is Some));
    assert(p7.contains(b) ==> b is Rows) by {
        if p7.contains(b) {
            let wanted = shown_runs(all, look is Some, text is Some);
            let k = choose|k: int| 0 <= k < wanted.len() && wanted[k] == Some(b);
            assert(wanted[k] == Some(b));
        }
    }
    if let Some(s) = doc.modifier_shape(at) {
        assert(p8[0] == Block::Modifiers { shape: s, kind: doc.node(s).kind->Shape_0 });
    }
    if let Some(t) = doc.text_target(at) {
        assert(p3[0] == Block::TextBlock { text: t });
    }
}

/// Where a block stands in the panel: the node, its looks, its text, its image, its
/// timing, its rows, its modifiers.
pub open spec fn block_rank(b: Block) -> int {
    match b {
        Block::CompositionBlock { .. } => 0,
        Block::Identity { .. } => 0,
        Block::Paint { .. } => 1,
        Block::StyleRows { .. } => 1,
        Block::Dashes { .. } => 1,
        Block::Styles { .. } => 1,
        Block::TextBlock { .. } => 2,
        Block::ImageInfo { .. } => 3,
        Block::LayerBlock { .. } => 4,
        Block::PrecompBlock { .. } => 4,
        Block::Rows { .. } => 5,
        Block::Modifiers { .. } => 6,
    }
}

/// Whether the blocks stand in that order and none stands beyond `top`.
pub open spec fn is_ranked(s: Seq<Block>, top: int) -> bool {
    &&& forall|i: int| 0 <= i < s.len() ==> block_rank(#[trigger] s[i]) <= top
    &&& forall|i: int, j: int|
        0 <= i < j < s.len() ==> block_rank(#[trigger] s[i]) <= block_rank(#[trigger] s[j])
}

proof fn lemma_ranked(a: Seq<Block>, b: Seq<Block>, top: int)
    requires
        is_ranked(a, top),
        forall|i: int| 0 <= i < b.len() ==> block_rank(#[trigger] b[i]) == top,
    ensures
        is_ranked(a + b, top),
        is_ranked(a + b, top + 1),
{
    let s = a + b;
    assert forall|i: int| 0 <= i < s.len() implies block_rank(#[trigger] s[i]) <= top by {
        if i < a.len() {
            assert(s[i] == a[i]);
        } else {
            assert(s[i] == b[i - a.len()]);
        }
    }
    assert forall|i: int, j: int| 0 <= i < j < s.len() implies block_rank(#[trigger] s[i])
        <= block_rank(#[trigger] s[j]) by {
        if j >= a.len() {
            assert(s[j] == b[j - a.len()]);
            assert(block_rank(s[i]) <= top);
        } else {
            assert(s[i] == a[i] && s[j] == a[j]);
        }
    }
}

/// The blocks of one node stand in a fixed order, and its rows stand together, section by
/// section.
pub proof fn law_panel_is_in_order(
    a: Session,
    doc: Document,
    items: Vec<SceneItem>,
    host: Inspection,
    rows: Vec<PropRow>,
    at: NodeId,
    text: Option<NodeId>,
    look: Option<Appearance>,
    r: Vec<Block>,
)
    requires
        a.selection@.len() == 1,
        call_ensures(Document::effective_inspect_id, (&doc, a.selection@[0]), at),
        call_ensures(Document::text_node, (&doc, at), text),
        call_ensures(
            crate::inspect::appearance_for,
            (&doc, &items, host.links, at),
            look,
        ),
        call_ensures(Session::property_blocks, (&a, &doc, &items, host, &rows), r),
    ensures
        is_ranked(r@, 6),
        exists|from: int, part: Seq<Block>|
            {
                &&& #[trigger] keeps(part, shown_runs(runs(rows@), look is Some, text is Some))
                &&& 0 <= from && from + part.len() <= r@.len()
                &&& part == #[trigger] r@.subrange(from, from + part.len())
            },
{
    let id = a.selection@[0];
    let all = runs(rows@);
    let p1 = optional_block(doc.has(id), Block::Identity { id });
    let p2 = appearance_blocks(doc, items@, host, at);
    let p3 = match doc.text_target(at) {
        Some(t) => seq![Block::TextBlock { text: t }],
        None => Seq::empty(),
    };
    let p4 = optional_block(
        doc.has(at) && doc.node(at).kind == NodeKind::Image && host.image_known,
        Block::ImageInfo { id: at },
    );
    let p5 = timing_blocks(doc, at);
    let p6 = if at != id {
        timing_blocks(doc, id)
    } else {
        Seq::empty()
    };
    let p7 = row_blocks(all, look is Some, text is Some);
    let p8 = match doc.modifier_shape(at) {
        Some(s) => seq![Block::Modifiers { shape: s, kind: doc.node(s).kind->Shape_0 }],
        None => Seq::empty(),
    };
    assert(r@ == p1 + p2 + p3 + p4 + p5 + p6 + p7 + p8);
    assert(Seq::<Block>::empty() + p1 =~= p1);
    lemma_ranked(Seq::empty(), p1, 0);
    assert forall|i: int| 0 <= i < p2.len() implies block_rank(#[trigger] p2[i]) == 1 by {
        lemma_appearance(doc, items@, host, at, p2[i]);
        assert(p2.contains(p2[i]));
    }
    lemma_ranked(p1, p2, 1);
    lemma_ranked(p1 + p2, p3, 2);
    lemma_ranked(p1 + p2 + p3, p4, 3);
    assert forall|i: int| 0 <= i < p5.len() implies block_rank(#[trigger] p5[i]) == 4 by {
        lemma_timing(doc, at, p5[i]);
        assert(p5.contains(p5[i]));
    }
    assert forall|i: int| 0 <= i < p6.len() implies block_rank(#[trigger] p6[i]) == 4 by {
        lemma_timing(doc, id, p6[i]);
        assert(p6.contains(p6[i]));
    }
    lemma_ranked(p1 + p2 + p3 + p4, p5, 4);
    lemma_ranked(p1 + p2 + p3 + p4 + p5, p6, 4);
    lemma_row_blocks(all, look is Some, text is Some);
    let wanted = shown_runs(all, look is Some, text is Some);
    lemma_keeps_holds(p7, wanted);
    assert forall|i: int| 0 <= i < p7.len() implies block_rank(#[trigger] p7[i]) == 5 by {
        assert(p7.contains(p7[i]));
        let k = choose|k: int| 0 <= k < wanted.len() && wanted[k] == Some(p7[i]);
        assert(wanted[k] == Some(p7[i]));
    }
    let before = p1 + p2 + p3 + p4 + p5 + p6;
    lemma_ranked(before, p7, 5);
    lemma_ranked(before + p7, p8, 6);
    let from = before.len() as int;
    assert(r@.subrange(from, from + p7.len()) =~= p7);
}

proof fn lemma_optional(shown: bool, block: Block, b: Block)
    ensures
        optional_block(shown, block).contains(b) <==> shown && b == block,
{
    if shown {
        assert(optional_block(shown, block)[0] == block);
    }
}

proof fn lemma_timing(doc: Document, id: NodeId, b: Block)
    ensures
        timing_blocks(doc, id).contains(b) <==> doc.nodes().contains_key(id) && ((
        doc.nodes()[id].kind is Layer && b == (Block::LayerBlock { id })) || (doc.nodes()[id].kind
            is Precomp && b == (Block::PrecompBlock { id }))),
{
    let l = optional_block(
        doc.has(id) && doc.node(id).kind == NodeKind::Layer,
        Block::LayerBlock { id },
    );
    let p = optional_block(
        doc.has(id) && doc.node(id).kind == NodeKind::Precomp,
        Block::PrecompBlock { id },
    );
    lemma_contains_add(l, p, b);
    lemma_optional(
        doc.has(id) && doc.node(id).kind == NodeKind::Layer,
        Block::LayerBlock { id },
        b,
    );
    lemma_optional(
        doc.has(id) && doc.node(id).kind == NodeKind::Precomp,
        Block::PrecompBlock { id },
        b,
    );
}

proof fn lemma_paint(doc: Document, shape: NodeId, style: NodeId, b: Block)
    ensures
        paint_block(doc, shape, style).contains(b) <==> is_style_node(doc, style) && b
            == (Block::Paint { shape, style }),
{
    if is_style_node(doc, style) {
        assert(paint_block(doc, shape, style)[0] == Block::Paint { shape, style });
    }
}

proof fn lemma_dash(doc: Document, style: NodeId, b: Block)
    ensures
        crate::inspect::dash_block(doc, style).contains(b) <==> is_style_node(doc, style)
            && doc.nodes()[style].kind == NodeKind::Style(StyleKind::Stroke) && b
            == (Block::Dashes { style }),
{
    if doc.is_style(style, StyleKind::Stroke) {
        assert(crate::inspect::dash_block(doc, style)[0] == Block::Dashes { style });
    }
}

proof fn lemma_appearance(
    doc: Document,
    items: Seq<SceneItem>,
    host: Inspection,
    at: NodeId,
    b: Block,
)
    ensures
        ({
            let look = appearance(doc, items, host.links, at);
            let has = appearance_blocks(doc, items, host, at).contains(b);
            &&& has ==> b is Paint || b is StyleRows || b is Dashes || b is Styles
            &&& b is Styles ==> (has <==> look is Some && look->0.fill != Some(at)
                && look->0.stroke != Some(at) && b == (Block::Styles {
                shape: at,
                has_fill: look->0.fill is Some,
                has_stroke: look->0.stroke is Some,
            }))
            &&& b matches Block::Paint { shape, style } ==> (look matches Some(l)
                ==> (has <==> shape
                == l.shape && is_style_node(doc, style) && (l.fill == Some(style) || l.stroke
                == Some(style))))
            &&& b matches Block::StyleRows { style, kind } ==> (look matches Some(l) ==> (has <==> (
            kind is Fill && host.fill_rows && l.fill == Some(style)) || (kind is Stroke
                && host.stroke_rows && l.stroke == Some(style))))
            &&& b matches Block::Dashes { style } ==> (look matches Some(l) ==> (has <==> l.stroke
                == Some(style) && is_style_node(doc, style) && doc.nodes()[style].kind
                == NodeKind::Style(StyleKind::Stroke)))
        }),
{
    match appearance(doc, items, host.links, at) {
        Some(app) => {
            let f = fill_blocks(doc, host, app);
            let s = stroke_blocks(doc, host, app);
            let c = optional_block(
                app.fill != Some(at) && app.stroke != Some(at),
                Block::Styles {
                    shape: at,
                    has_fill: app.fill is Some,
                    has_stroke: app.stroke is Some,
                },
            );
            lemma_contains_add(f, s, b);
            lemma_contains_add(f + s, c, b);
            lemma_optional(
                app.fill != Some(at) && app.stroke != Some(at),
                Block::Styles {
                    shape: at,
                    has_fill: app.fill is Some,
                    has_stroke: app.stroke is Some,
                },
                b,
            );
            if let Some(x) = app.fill {
                let rows = Block::StyleRows { style: x, kind: StyleKind::Fill };
                lemma_paint(doc, app.shape, x, b);
                lemma_optional(host.fill_rows, rows, b);
                lemma_contains_add(
                    paint_block(doc, app.shape, x),
                    optional_block(host.fill_rows, rows),
                    b,
                );
            }
            if let Some(x) = app.stroke {
                let rows = Block::StyleRows { style: x, kind: StyleKind::Stroke };
                lemma_paint(doc, app.shape, x, b);
                lemma_optional(host.stroke_rows, rows, b);
                lemma_dash(doc, x, b);
                lemma_contains_add(
                    paint_block(doc, app.shape, x),
                    optional_block(host.stroke_rows, rows),
                    b,
                );
                lemma_contains_add(
                    paint_block(doc, app.shape, x) + optional_block(host.stroke_rows, rows),
                    crate::inspect::dash_block(doc, x),
                    b,
                );
            }
        },
        None => {
            let first = match shown_style(doc, items, at) {
                Some(s) => paint_block(doc, at, s),
                None => Seq::empty(),
            };
            lemma_contains_add(first, crate::inspect::dash_block(doc, at), b);
            lemma_dash(doc, at, b);
            if let Some(s) = shown_style(doc, items, at) {
                lemma_paint(doc, at, s, b);
            }
        },
    }
}

} // verus!
