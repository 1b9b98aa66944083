//! The properties panel: which node it inspects, which blocks it shows and in what
//! order, and how each property is edited.
use vstd::prelude::*;
use vstd::string::StringExecFns;

use crate::arrange::Move;
use crate::commands::{Edit, EditorCommand, Property, ToolOutput};
use crate::model::{CompId, Document, Handle, NodeId, NodeKind, ShapeKind, StyleKind};
use crate::seqs::{lemma_filter_contains, lemma_filter_ends, lemma_filter_step};
use crate::session::{
    next_revision, EditorMode, InspectorDrag, PickerTarget, Session,
};
use crate::strings::{append_decimal, append_signed, decimal, same_text, signed};

verus! {

/// The only element, if there is exactly one.
pub open spec fn only(s: Seq<NodeId>) -> Option<NodeId> {
    if s.len() == 1 {
        Some(s[0])
    } else {
        None
    }
}

impl Document {
    pub open spec fn is_text(&self, id: NodeId) -> bool {
        self.has(id) && self.node(id).kind is Text
    }

    /// Whether a child counts: a text, or a shape where those count too.
    pub open spec fn counted(&self, texts_only: bool) -> spec_fn(NodeId) -> bool {
        |c: NodeId|
            if texts_only {
                self.is_text(c)
            } else {
                self.is_painted(c)
            }
    }

    /// The one shape or text of a group or layer, if it has exactly one.
    pub open spec fn primary_content(&self, id: NodeId) -> Option<NodeId> {
        if self.is_container(id) {
            only(self.node(id).children@.filter(self.counted(false)))
        } else {
            None
        }
    }

    /// The node that is inspected for `id`.
    pub open spec fn inspected(&self, id: NodeId) -> NodeId {
        match self.primary_content(id) {
            Some(c) => c,
            None => id,
        }
    }

    /// The text that is edited for `id`: itself, or the one text of a group.
    pub open spec fn text_target(&self, id: NodeId) -> Option<NodeId> {
        if self.is_text(id) {
            Some(id)
        } else if self.has(id) && self.node(id).kind is Group {
            only(self.node(id).children@.filter(self.counted(true)))
        } else {
            None
        }
    }

    /// The shape that modifiers are put on for `id`: itself, or the one shape of a
    /// group or layer.
    pub open spec fn modifier_shape(&self, id: NodeId) -> Option<NodeId> {
        let at = self.inspected(id);
        if self.has(at) && self.node(at).kind is Shape {
            Some(at)
        } else {
            None
        }
    }

    fn only_child(&self, id: NodeId, texts_only: bool) -> (r: Option<NodeId>)
        requires
            self.has(id),
        ensures
            r == only(self.node(id).children@.filter(self.counted(texts_only))),
    {
        let node = self.get(id).unwrap();
        let ghost keep = self.counted(texts_only);
        let mut found: Vec<NodeId> = Vec::new();
        let mut i: usize = 0;
        proof {
            lemma_filter_ends(node.children@, keep);
        }
        while i < node.children.len()
            invariant
                i <= node.children@.len(),
                keep == self.counted(texts_only),
                found@ == node.children@.take(i as int).filter(keep),
            decreases node.children.len() - i,
        {
            proof {
                lemma_filter_step(node.children@, i as int, keep);
            }
            let child = node.children[i];
            let wanted = match self.get(child) {
                Some(n) => match n.kind {
                    NodeKind::Text => true,
                    NodeKind::Shape(_) => !texts_only,
                    _ => false,
                },
                None => false,
            };
            if wanted {
                found.push(child);
            }
            i = i + 1;
        }
        if found.len() == 1 {
            Some(found[0])
        } else {
            None
        }
    }

    /// The one shape or text of a group or layer, if it has exactly one.
    pub fn primary_content_in_group(&self, id: NodeId) -> (r: Option<NodeId>)
        ensures
            r == self.primary_content(id),
    {
        if !self.container(id) {
            return None;
        }
        self.only_child(id, false)
    }

    /// The node that is inspected for a selected one.
    pub fn effective_inspect_id(&self, id: NodeId) -> (r: NodeId)
        ensures
            r == self.inspected(id),
    {
        match self.primary_content_in_group(id) {
            Some(c) => c,
            None => id,
        }
    }

    /// The text that is edited for a selected node.
    pub fn text_node(&self, id: NodeId) -> (r: Option<NodeId>)
        ensures
            r == self.text_target(id),
    {
        let kind = match self.get(id) {
            Some(n) => n.kind,
            None => {
                return None;
            },
        };
        match kind {
            NodeKind::Text => Some(id),
            NodeKind::Group => self.only_child(id, true),
            _ => None,
        }
    }

    /// The shape that modifiers are put on, and what it is.
    pub fn modifier_target(&self, id: NodeId) -> (r: Option<(NodeId, ShapeKind)>)
        ensures
            match self.modifier_shape(id) {
                Some(s) => r == Some((s, self.node(s).kind->Shape_0)),
                None => r is None,
            },
    {
        let at = self.effective_inspect_id(id);
        match self.get(at) {
            Some(n) => match n.kind {
                NodeKind::Shape(k) => Some((at, k)),
                _ => None,
            },
            None => None,
        }
    }

    fn is_kind(&self, id: NodeId, kind: NodeKind) -> (r: bool)
        ensures
            r == (self.has(id) && self.node(id).kind == kind),
    {
        match self.get(id) {
            Some(n) => n.kind == kind,
            None => false,
        }
    }

    /// The node that is inspected never needs to be looked into again.
    pub proof fn law_inspection_is_settled(&self, id: NodeId)
        ensures
            self.inspected(self.inspected(id)) == self.inspected(id),
    {
        if let Some(c) = self.primary_content(id) {
            let keep = self.counted(false);
            let found = self.node(id).children@.filter(keep);
            lemma_filter_contains(self.node(id).children@, keep, c);
            assert(found[0] == c);
            assert(found.contains(c));
            assert(self.is_painted(c));
        }
    }
}

/// Something drawn on the stage: which node, painted by which style.
#[derive(Clone, Copy, Debug, PartialEq, Eq, Structural)]
pub struct SceneItem {
    pub node: NodeId,
    pub style: NodeId,
    pub kind: StyleKind,
}

/// The style that paints a node on top, of the wanted kind where one is wanted.
pub open spec fn top_style(
    items: Seq<SceneItem>,
    node: NodeId,
    kind: Option<StyleKind>,
) -> Option<NodeId>
    decreases items.len(),
{
    if items.len() == 0 {
        None
    } else if items.last().node == node && (kind is None || kind == Some(items.last().kind)) {
        Some(items.last().style)
    } else {
        top_style(items.drop_last(), node, kind)
    }
}

/// The node on top that a style paints.
pub open spec fn top_node(items: Seq<SceneItem>, style: NodeId) -> Option<NodeId>
    decreases items.len(),
{
    if items.len() == 0 {
        None
    } else if items.last().style == style {
        Some(items.last().node)
    } else {
        top_node(items.drop_last(), style)
    }
}

fn style_on_top(items: &Vec<SceneItem>, node: NodeId, kind: Option<StyleKind>) -> (r: Option<
    NodeId,
>)
    ensures
        r == top_style(items@, node, kind),
{
    let mut i: usize = items.len();
    assert(items@.take(i as int) =~= items@);
    while i > 0
        invariant
            i <= items@.len(),
            top_style(items@, node, kind) == top_style(items@.take(i as int), node, kind),
        decreases i,
    {
        assert(items@.take(i as int).drop_last() =~= items@.take(i - 1));
        let item = items[i - 1];
        let wanted = match kind {
            Some(k) => k == item.kind,
            None => true,
        };
        if item.node == node && wanted {
            return Some(item.style);
        }
        i = i - 1;
    }
    None
}

/// The node on top that a style paints.
pub fn find_shape_painted_by(items: &Vec<SceneItem>, style: NodeId) -> (r: Option<NodeId>)
    ensures
        r == top_node(items@, style),
{
    let mut i: usize = items.len();
    assert(items@.take(i as int) =~= items@);
    while i > 0
        invariant
            i <= items@.len(),
            top_node(items@, style) == top_node(items@.take(i as int), style),
        decreases i,
    {
        assert(items@.take(i as int).drop_last() =~= items@.take(i - 1));
        if items[i - 1].style == style {
            return Some(items[i - 1].node);
        }
        i = i - 1;
    }
    None
}

/// The style whose paint is shown for a node: a style's own, or the one that paints
/// a shape or text on top.
pub open spec fn shown_style(doc: Document, items: Seq<SceneItem>, id: NodeId) -> Option<NodeId> {
    if doc.has(id) && doc.node(id).kind is Style {
        Some(id)
    } else if doc.is_painted(id) {
        top_style(items, id, None)
    } else {
        None
    }
}

/// The style whose paint is shown for a node.
pub fn paint_style_id(doc: &Document, items: &Vec<SceneItem>, id: NodeId) -> (r: Option<NodeId>)
    ensures
        r == shown_style(*doc, items@, id),
{
    match doc.get(id) {
        Some(n) => match n.kind {
            NodeKind::Style(_) => Some(id),
            NodeKind::Shape(_) | NodeKind::Text => style_on_top(items, id, None),
            _ => None,
        },
        None => None,
    }
}

/// The styles that belong to a shape by their place in the tree.
#[derive(Clone, Copy, Debug, PartialEq, Eq, Structural)]
pub struct StyleLinks {
    pub fill: Option<NodeId>,
    pub stroke: Option<NodeId>,
}

/// Whose paint the panel shows, and the shape that a gradient's axis runs over.
#[derive(Clone, Copy, Debug, PartialEq, Eq, Structural)]
pub struct Appearance {
    pub shape: NodeId,
    pub fill: Option<NodeId>,
    pub stroke: Option<NodeId>,
}

pub open spec fn first_of(a: Option<NodeId>, b: Option<NodeId>) -> Option<NodeId> {
    match a {
        Some(x) => Some(x),
        None => b,
    }
}

/// Whose paint is shown for a node. `links` are those of the inspected shape or
/// text; where the tree names no style, what paints it on the stage counts.
pub open spec fn appearance(
    doc: Document,
    items: Seq<SceneItem>,
    links: StyleLinks,
    selected: NodeId,
) -> Option<Appearance> {
    let at = doc.inspected(selected);
    if !doc.has(at) {
        None
    } else {
        match doc.node(at).kind {
            NodeKind::Style(kind) => Some(
                Appearance {
                    shape: match top_node(items, at) {
                        Some(n) => n,
                        None => at,
                    },
                    fill: if kind == StyleKind::Fill {
                        Some(at)
                    } else {
                        None
                    },
                    stroke: if kind == StyleKind::Fill {
                        None
                    } else {
                        Some(at)
                    },
                },
            ),
            NodeKind::Shape(_) | NodeKind::Text => Some(
                Appearance {
                    shape: at,
                    fill: first_of(links.fill, top_style(items, at, Some(StyleKind::Fill))),
                    stroke: first_of(links.stroke, top_style(items, at, Some(StyleKind::Stroke))),
                },
            ),
            _ => None,
        }
    }
}

/// Whose paint is shown for a node.
pub fn appearance_for(
    doc: &Document,
    items: &Vec<SceneItem>,
    links: StyleLinks,
    selected: NodeId,
) -> (r: Option<Appearance>)
    ensures
        r == appearance(*doc, items@, links, selected),
{
    let at = doc.effective_inspect_id(selected);
    let kind = match doc.get(at) {
        Some(n) => n.kind,
        None => {
            return None;
        },
    };
    match kind {
        NodeKind::Style(kind) => {
            let shape = match find_shape_painted_by(items, at) {
                Some(n) => n,
                None => at,
            };
            if kind == StyleKind::Fill {
                Some(Appearance { shape, fill: Some(at), stroke: None })
            } else {
                Some(Appearance { shape, fill: None, stroke: Some(at) })
            }
        },
        NodeKind::Shape(_) | NodeKind::Text => {
            let fill = match links.fill {
                Some(f) => Some(f),
                None => style_on_top(items, at, Some(StyleKind::Fill)),
            };
            let stroke = match links.stroke {
                Some(s) => Some(s),
                None => style_on_top(items, at, Some(StyleKind::Stroke)),
            };
            Some(Appearance { shape: at, fill, stroke })
        },
        _ => None,
    }
}

/// One property of the selection: the section that it belongs to and the host's
/// number for the rest.
#[derive(Clone, Copy, Debug)]
pub struct PropRow {
    pub section: &'static str,
    pub row: Handle,
}

/// A run of rows of one section.
#[derive(Clone, Copy, Debug)]
pub struct SectionRun {
    pub section: &'static str,
    pub from: usize,
    pub to: usize,
}

/// The rows cut into runs wherever the section changes.
pub open spec fn runs(rows: Seq<PropRow>) -> Seq<SectionRun>
    decreases rows.len(),
{
    if rows.len() == 0 {
        Seq::empty()
    } else {
        let before = runs(rows.drop_last());
        let n = rows.len();
        if before.len() > 0 && before.last().section@ == rows.last().section@ {
            before.drop_last().push(SectionRun { to: n as usize, ..before.last() })
        } else {
            before.push(
                SectionRun {
                    section: rows.last().section,
                    from: (n - 1) as usize,
                    to: n as usize,
                },
            )
        }
    }
}

/// The rows cut into runs wherever the section changes.
pub fn section_runs(rows: &Vec<PropRow>) -> (r: Vec<SectionRun>)
    ensures
        r@ == runs(rows@),
{
    let mut out: Vec<SectionRun> = Vec::new();
    let mut i: usize = 0;
    assert(rows@.take(0) =~= Seq::empty());
    while i < rows.len()
        invariant
            i <= rows@.len(),
            out@ == runs(rows@.take(i as int)),
        decreases rows.len() - i,
    {
        assert(rows@.take(i + 1).drop_last() =~= rows@.take(i as int));
        let section = rows[i].section;
        let n = out.len();
        if n > 0 && same_text(out[n - 1].section, section) {
            let ghost before = out@;
            let last = out[n - 1];
            out[n - 1] = SectionRun { section: last.section, from: last.from, to: i + 1 };
            assert(out@ =~= before.drop_last().push(
                SectionRun { to: (i + 1) as usize, ..before.last() },
            ));
        } else {
            out.push(SectionRun { section, from: i, to: i + 1 });
        }
        i = i + 1;
    }
    assert(rows@.take(i as int) =~= rows@);
    out
}

/// Every row stands in exactly one run, and the runs follow each other without a
/// gap.
pub proof fn law_runs_cover_the_rows(rows: Seq<PropRow>)
    requires
        rows.len() <= usize::MAX,
    ensures
        rows.len() == 0 <==> runs(rows).len() == 0,
        rows.len() > 0 ==> runs(rows)[0].from == 0 && runs(rows).last().to == rows.len(),
        forall|i: int| 0 <= i < runs(rows).len() ==> (#[trigger] runs(rows)[i]).from < runs(rows)[i].to,
        forall|i: int|
            0 < i < runs(rows).len() ==> (#[trigger] runs(rows)[i]).from == runs(rows)[i - 1].to,
    decreases rows.len(),
{
    if rows.len() > 0 {
        law_runs_cover_the_rows(rows.drop_last());
        let before = runs(rows.drop_last());
        let after = runs(rows);
        if before.len() > 0 && before.last().section@ == rows.last().section@ {
            assert(after.len() == before.len());
            assert forall|i: int| 0 <= i < after.len() - 1 implies after[i] == before[i] by {}
        } else {
            assert forall|i: int| 0 <= i < before.len() implies after[i] == before[i] by {}
        }
        assert forall|i: int| 0 < i < after.len() implies (#[trigger] after[i]).from == after[i
            - 1].to by {
            if i < before.len() {
                assert(before[i].from == before[i - 1].to);
            }
        }
    }
}

/// One block of the panel.
#[allow(inconsistent_fields)]
#[derive(Clone, Copy, Debug)]
pub enum Block {
    /// The properties of a composition.
    CompositionBlock { comp: CompId },
    Identity { id: NodeId },
    Paint { shape: NodeId, style: NodeId },
    /// The properties of a style besides its paint.
    StyleRows { style: NodeId, kind: StyleKind },
    Dashes { style: NodeId },
    /// The chips that add or remove styles.
    Styles { shape: NodeId, has_fill: bool, has_stroke: bool },
    TextBlock { text: NodeId },
    ImageInfo { id: NodeId },
    LayerBlock { id: NodeId },
    PrecompBlock { id: NodeId },
    Rows { run: SectionRun },
    Modifiers { shape: NodeId, kind: ShapeKind },
}

/// What the host knows of the inspected node.
#[derive(Clone, Copy, Debug, PartialEq, Eq, Structural)]
pub struct Inspection {
    pub links: StyleLinks,
    /// Whether the fill and the stroke have properties besides their paint.
    pub fill_rows: bool,
    pub stroke_rows: bool,
    /// Whether the image asset of an inspected image is in the project.
    pub image_known: bool,
}

pub open spec fn paint_block(doc: Document, shape: NodeId, style: NodeId) -> Seq<Block> {
    if doc.has(style) && doc.node(style).kind is Style {
        seq![Block::Paint { shape, style }]
    } else {
        Seq::empty()
    }
}

pub open spec fn dash_block(doc: Document, style: NodeId) -> Seq<Block> {
    if doc.is_style(style, StyleKind::Stroke) {
        seq![Block::Dashes { style }]
    } else {
        Seq::empty()
    }
}

pub open spec fn optional_block(shown: bool, block: Block) -> Seq<Block> {
    if shown {
        seq![block]
    } else {
        Seq::empty()
    }
}

/// The blocks for a fill.
pub open spec fn fill_blocks(doc: Document, host: Inspection, app: Appearance) -> Seq<Block> {
    match app.fill {
        Some(f) => paint_block(doc, app.shape, f) + optional_block(
            host.fill_rows,
            Block::StyleRows { style: f, kind: StyleKind::Fill },
        ),
        None => Seq::empty(),
    }
}

/// The blocks for a stroke.
pub open spec fn stroke_blocks(doc: Document, host: Inspection, app: Appearance) -> Seq<Block> {
    match app.stroke {
        Some(s) => paint_block(doc, app.shape, s) + optional_block(
            host.stroke_rows,
            Block::StyleRows { style: s, kind: StyleKind::Stroke },
        ) + dash_block(doc, s),
        None => Seq::empty(),
    }
}

/// The blocks for the paint of the inspected node.
pub open spec fn appearance_blocks(
    doc: Document,
    items: Seq<SceneItem>,
    host: Inspection,
    at: NodeId,
) -> Seq<Block> {
    match appearance(doc, items, host.links, at) {
        Some(app) => fill_blocks(doc, host, app) + stroke_blocks(doc, host, app) + optional_block(
                app.fill != Some(at) && app.stroke != Some(at),
                Block::Styles {
                    shape: at,
                    has_fill: app.fill is Some,
                    has_stroke: app.stroke is Some,
                },
            ),
        None => (match shown_style(doc, items, at) {
            Some(s) => paint_block(doc, at, s),
            None => Seq::empty(),
        }) + dash_block(doc, at),
    }
}

/// The blocks for a layer's or a precomposition's own properties.
pub open spec fn timing_blocks(doc: Document, id: NodeId) -> Seq<Block> {
    optional_block(
        doc.has(id) && doc.node(id).kind == NodeKind::Layer,
        Block::LayerBlock { id },
    ) + optional_block(
        doc.has(id) && doc.node(id).kind == NodeKind::Precomp,
        Block::PrecompBlock { id },
    )
}

/// Whether a section of rows is left out because another block shows it.
pub open spec fn shown_elsewhere(section: Seq<char>, painted: bool, text_shown: bool) -> bool {
    if section == "Fill"@ || section == "Stroke"@ {
        painted
    } else {
        section == "Text"@ && text_shown
    }
}

/// The runs that are not shown elsewhere.
pub open spec fn row_blocks(all: Seq<SectionRun>, painted: bool, text_shown: bool) -> Seq<Block>
    decreases all.len(),
{
    if all.len() == 0 {
        Seq::empty()
    } else {
        row_blocks(all.drop_last(), painted, text_shown) + optional_block(
            !shown_elsewhere(all.last().section@, painted, text_shown),
            Block::Rows { run: all.last() },
        )
    }
}

/// The blocks of the panel for one selected node.
pub open spec fn single_blocks(
    doc: Document,
    items: Seq<SceneItem>,
    host: Inspection,
    rows: Seq<PropRow>,
    id: NodeId,
) -> Seq<Block> {
    let at = doc.inspected(id);
    let text = doc.text_target(at);
    optional_block(doc.has(id), Block::Identity { id }) + appearance_blocks(doc, items, host, at)
        + (match text {
        Some(t) => seq![Block::TextBlock { text: t }],
        None => Seq::empty(),
    }) + optional_block(
        doc.has(at) && doc.node(at).kind == NodeKind::Image && host.image_known,
        Block::ImageInfo { id: at },
    ) + timing_blocks(doc, at) + (if at != id {
        timing_blocks(doc, id)
    } else {
        Seq::empty()
    }) + row_blocks(runs(rows), appearance(doc, items, host.links, at) is Some, text is Some) + (
    match doc.modifier_shape(at) {
        Some(s) => seq![Block::Modifiers { shape: s, kind: doc.node(s).kind->Shape_0 }],
        None => Seq::empty(),
    })
}

/// The blocks of the panel: all of them for one node, only the common properties
/// for several, and the main composition without a selection.
pub open spec fn panel_blocks(
    doc: Document,
    items: Seq<SceneItem>,
    host: Inspection,
    rows: Seq<PropRow>,
    selection: Seq<NodeId>,
) -> Seq<Block> {
    if selection.len() == 0 {
        seq![Block::CompositionBlock { comp: doc.main_id() }]
    } else if selection.len() == 1 {
        single_blocks(doc, items, host, rows, selection[0])
    } else {
        row_blocks(runs(rows), false, false)
    }
}

fn push_if(out: &mut Vec<Block>, shown: bool, block: Block)
    ensures
        final(out)@ == old(out)@ + optional_block(shown, block),
{
    let ghost before = out@;
    if shown {
        out.push(block);
    }
    assert(out@ =~= before + optional_block(shown, block));
}

fn push_paint(out: &mut Vec<Block>, doc: &Document, shape: NodeId, style: NodeId)
    ensures
        final(out)@ == old(out)@ + paint_block(*doc, shape, style),
{
    let shown = match doc.get(style) {
        Some(n) => matches!(n.kind, NodeKind::Style(_)),
        None => false,
    };
    push_if(out, shown, Block::Paint { shape, style });
}

fn push_dashes(out: &mut Vec<Block>, doc: &Document, style: NodeId)
    ensures
        final(out)@ == old(out)@ + dash_block(*doc, style),
{
    let shown = doc.is_kind(style, NodeKind::Style(StyleKind::Stroke));
    push_if(out, shown, Block::Dashes { style });
}

fn push_fill(out: &mut Vec<Block>, doc: &Document, host: Inspection, app: Appearance)
    ensures
        final(out)@ == old(out)@ + fill_blocks(*doc, host, app),
{
    let ghost before = out@;
    if let Some(f) = app.fill {
        push_paint(out, doc, app.shape, f);
        push_if(out, host.fill_rows, Block::StyleRows { style: f, kind: StyleKind::Fill });
    }
    assert(out@ =~= before + fill_blocks(*doc, host, app));
}

fn push_stroke(out: &mut Vec<Block>, doc: &Document, host: Inspection, app: Appearance)
    ensures
        final(out)@ == old(out)@ + stroke_blocks(*doc, host, app),
{
    let ghost before = out@;
    if let Some(s) = app.stroke {
        push_paint(out, doc, app.shape, s);
        push_if(out, host.stroke_rows, Block::StyleRows { style: s, kind: StyleKind::Stroke });
        push_dashes(out, doc, s);
    }
    assert(out@ =~= before + stroke_blocks(*doc, host, app));
}

fn push_appearance(
    out: &mut Vec<Block>,
    doc: &Document,
    items: &Vec<SceneItem>,
    host: Inspection,
    at: NodeId,
) -> (painted: bool)
    ensures
        final(out)@ == old(out)@ + appearance_blocks(*doc, items@, host, at),
        painted == (appearance(*doc, items@, host.links, at) is Some),
{
    let ghost before = out@;
    match appearance_for(doc, items, host.links, at) {
        Some(app) => {
            push_fill(out, doc, host, app);
            push_stroke(out, doc, host, app);
            let is_fill = match app.fill {
                Some(f) => f == at,
                None => false,
            };
            let is_stroke = match app.stroke {
                Some(s) => s == at,
                None => false,
            };
            let chips = Block::Styles {
                shape: at,
                has_fill: app.fill.is_some(),
                has_stroke: app.stroke.is_some(),
            };
            push_if(out, !is_fill && !is_stroke, chips);
            proof {
                let f = fill_blocks(*doc, host, app);
                let s = stroke_blocks(*doc, host, app);
                let c = optional_block(!is_fill && !is_stroke, chips);
                assert(before + f + s + c =~= before + (f + s + c));
            }
            true
        },
        None => {
            let style = paint_style_id(doc, items, at);
            if let Some(s) = style {
                push_paint(out, doc, at, s);
            }
            push_dashes(out, doc, at);
            proof {
                let p = match style {
                    Some(s) => paint_block(*doc, at, s),
                    None => Seq::empty(),
                };
                let d = dash_block(*doc, at);
                assert(out@ =~= before + (p + d));
            }
            false
        },
    }
}

fn push_timing(out: &mut Vec<Block>, doc: &Document, id: NodeId)
    ensures
        final(out)@ == old(out)@ + timing_blocks(*doc, id),
{
    let ghost before = out@;
    push_if(out, doc.is_kind(id, NodeKind::Layer), Block::LayerBlock { id });
    push_if(out, doc.is_kind(id, NodeKind::Precomp), Block::PrecompBlock { id });
    assert(out@ =~= before + timing_blocks(*doc, id));
}

fn push_rows(out: &mut Vec<Block>, rows: &Vec<PropRow>, painted: bool, text_shown: bool)
    ensures
        final(out)@ == old(out)@ + row_blocks(runs(rows@), painted, text_shown),
{
    let ghost before = out@;
    let all = section_runs(rows);
    let mut i: usize = 0;
    assert(all@.take(0) =~= Seq::empty());
    assert(out@ =~= before + row_blocks(all@.take(0), painted, text_shown));
    while i < all.len()
        invariant
            i <= all@.len(),
            out@ == before + row_blocks(all@.take(i as int), painted, text_shown),
        decreases all.len() - i,
    {
        assert(all@.take(i + 1).drop_last() =~= all@.take(i as int));
        let section = all[i].section;
        let elsewhere = if same_text(section, "Fill") || same_text(section, "Stroke") {
            painted
        } else {
            same_text(section, "Text") && text_shown
        };
        push_if(out, !elsewhere, Block::Rows { run: all[i] });
        i = i + 1;
        assert(out@ =~= before + row_blocks(all@.take(i as int), painted, text_shown));
    }
    assert(all@.take(i as int) =~= all@);
}

impl Session {
    /// The blocks of the properties panel. `rows` are the common properties of the
    /// inspected nodes.
    pub fn property_blocks(
        &self,
        doc: &Document,
        items: &Vec<SceneItem>,
        host: Inspection,
        rows: &Vec<PropRow>,
    ) -> (r: Vec<Block>)
        ensures
            r@ == panel_blocks(*doc, items@, host, rows@, self.selection@),
    {
        let mut out: Vec<Block> = Vec::new();
        if self.selection.len() == 0 {
            out.push(Block::CompositionBlock { comp: doc.main() });
            assert(out@ =~= panel_blocks(*doc, items@, host, rows@, self.selection@));
            return out;
        }
        if self.selection.len() > 1 {
            push_rows(&mut out, rows, false, false);
            assert(out@ =~= panel_blocks(*doc, items@, host, rows@, self.selection@));
            return out;
        }
        let id = self.selection[0];
        let at = doc.effective_inspect_id(id);
        push_if(&mut out, doc.contains(id), Block::Identity { id });
        let painted = push_appearance(&mut out, doc, items, host, at);
        let text = doc.text_node(at);
        if let Some(t) = text {
            out.push(Block::TextBlock { text: t });
        }
        push_if(
            &mut out,
            doc.is_kind(at, NodeKind::Image) && host.image_known,
            Block::ImageInfo { id: at },
        );
        push_timing(&mut out, doc, at);
        if at != id {
            push_timing(&mut out, doc, id);
        }
        push_rows(&mut out, rows, painted, text.is_some());
        if let Some((shape, kind)) = doc.modifier_target(at) {
            out.push(Block::Modifiers { shape, kind });
        }
        assert(out@ =~= single_blocks(*doc, items@, host, rows@, id));
        out
    }

    /// The nodes whose properties are shown: the inspected one for a single
    /// selected node, else the selected ones.
    pub fn inspect_ids(&self, doc: &Document) -> (r: Vec<NodeId>)
        ensures
            r@ == (if self.selection@.len() == 1 {
                seq![doc.inspected(self.selection@[0])]
            } else {
                self.selection@
            }),
    {
        if self.selection.len() == 1 {
            let mut out: Vec<NodeId> = Vec::new();
            out.push(doc.effective_inspect_id(self.selection[0]));
            assert(out@ =~= seq![doc.inspected(self.selection@[0])]);
            out
        } else {
            crate::seqs::copied(&self.selection)
        }
    }

    /// The title of the panel over a selection.
    pub open spec fn panel_title(self, doc: Document) -> Seq<char> {
        if self.selection@.len() == 1 {
            if doc.has(self.selection@[0]) {
                doc.node(self.selection@[0]).name@
            } else {
                "Properties"@
            }
        } else {
            decimal(self.selection@.len()) + " layers"@
        }
    }

    /// The title of the panel over a selection.
    pub fn properties_title(&self, doc: &Document) -> (r: String)
        requires
            self.selection@.len() > 0,
        ensures
            r@ == self.panel_title(*doc),
    {
        if self.selection.len() == 1 {
            match doc.get(self.selection[0]) {
                Some(n) => n.name.clone(),
                None => "Properties".to_owned(),
            }
        } else {
            let mut out = "".to_owned();
            proof {
                reveal_strlit("");
            }
            append_decimal(&mut out, self.selection.len() as u128);
            assert(out@ =~= decimal(self.selection@.len()));
            out.append(" layers");
            out
        }
    }

    /// Whether keyframes are played down: in the design mode.
    pub fn diamonds_are_quiet(&self) -> (r: bool)
        ensures
            r == (self.mode == EditorMode::Design),
    {
        self.mode == EditorMode::Design
    }

    /// What the record button says, where the panel has one: not in the design mode.
    pub fn record_tip(&self) -> (r: Option<&'static str>)
        ensures
            r == (if self.mode == EditorMode::Design {
                None
            } else if self.record {
                Some("Stop recording keys")
            } else {
                Some("Record keys on edit")
            }),
    {
        if self.mode == EditorMode::Design {
            None
        } else if self.record {
            Some("Stop recording keys")
        } else {
            Some("Record keys on edit")
        }
    }

    /// Turns the recording of keys on or off.
    pub fn toggle_record(&mut self)
        ensures
            *final(self) == (Session {
                record: !old(self).record,
                revision: next_revision(old(self).revision),
                ..*old(self)
            }),
    {
        self.record = !self.record;
        self.repaint();
    }

    /// Makes a style's paint the current one.
    pub fn use_as_current_paint(&mut self, paint: Handle)
        ensures
            *final(self) == (Session { current_paint: paint, ..*old(self) }).refused(
                "Current paint updated",
            ),
    {
        self.current_paint = paint;
        self.refuse("Current paint updated");
    }

    /// A press on a number: it may become a drag.
    pub fn press_number(
        &mut self,
        path: Handle,
        channel: usize,
        ids: Vec<NodeId>,
        origins: Vec<Handle>,
        press_x: u32,
    )
        ensures
            *final(self) == (Session {
                inspector_drag: Some(
                    InspectorDrag { path, channel, ids, origins, press_x, txn: false },
                ),
                ..*old(self)
            }),
    {
        self.inspector_drag = Some(
            InspectorDrag { path, channel, ids, origins, press_x, txn: false },
        );
    }

    /// Whether a drag of this number is under way.
    pub open spec fn drags(self, path: Handle, channel: usize) -> bool {
        self.inspector_drag matches Some(d) && d.path == path && d.channel == channel
    }

    /// The session once the drag under way writes.
    pub open spec fn drag_opened(self) -> Session {
        match self.inspector_drag {
            Some(d) => Session {
                inspector_drag: Some(InspectorDrag { txn: true, ..d }),
                ..self
            },
            None => self,
        }
    }

    /// A move over a number: nothing unless it is the one that is dragged, else
    /// whether the step begins with this move.
    pub fn drag_number(&mut self, path: Handle, channel: usize) -> (r: Option<bool>)
        ensures
            r is Some == old(self).drags(path, channel),
            r matches Some(begin) ==> begin == !old(self).inspector_drag->0.txn,
            r is Some ==> *final(self) == old(self).drag_opened(),
            r is None ==> *final(self) == *old(self),
    {
        match self.inspector_drag.take() {
            None => {
                self.inspector_drag = None;
                None
            },
            Some(drag) => {
                if drag.path != path || drag.channel != channel {
                    self.inspector_drag = Some(drag);
                    return None;
                }
                let begin = !drag.txn;
                self.inspector_drag = Some(
                    InspectorDrag {
                        path: drag.path,
                        channel: drag.channel,
                        ids: drag.ids,
                        origins: drag.origins,
                        press_x: drag.press_x,
                        txn: true,
                    },
                );
                Some(begin)
            },
        }
    }

    /// The release of a number: whether a drag ended, whose step is to be
    /// committed. Else it was a tap, which opens the editor.
    pub fn release_number(&mut self) -> (r: bool)
        ensures
            r == (old(self).inspector_drag matches Some(d) && d.txn),
            *final(self) == (Session { inspector_drag: None, ..*old(self) }),
    {
        match self.inspector_drag.take() {
            Some(drag) => drag.txn,
            None => false,
        }
    }
}

/// The writes of a row's values to the property that the host lists under `path`,
/// one for each node that takes one.
pub open spec fn value_writes(path: Handle, values: Seq<Move>, keyed: bool) -> Seq<EditorCommand>
    decreases values.len(),
{
    if values.len() == 0 {
        Seq::empty()
    } else {
        let front = value_writes(path, values.drop_last(), keyed);
        match values.last().value {
            Some(value) => front.push(
                EditorCommand::SetProperty {
                    id: values.last().id,
                    prop: Property::Listed(path),
                    value,
                    keyed,
                },
            ),
            None => front,
        }
    }
}

/// One value for every node.
pub open spec fn one_value(ids: Seq<NodeId>, value: Handle) -> Seq<Move> {
    Seq::new(ids.len(), |i: int| Move { id: ids[i], value: Some(value) })
}

/// What an edited row gives the inspected nodes: each the same value, in their order.
pub fn same_value(ids: &Vec<NodeId>, value: Handle) -> (r: Vec<Move>)
    ensures
        r@ == one_value(ids@, value),
{
    let mut out: Vec<Move> = Vec::new();
    let mut i: usize = 0;
    while i < ids.len()
        invariant
            i <= ids@.len(),
            out@ =~= one_value(ids@, value).take(i as int),
        decreases ids.len() - i,
    {
        out.push(Move { id: ids[i], value: Some(value) });
        i = i + 1;
    }
    assert(one_value(ids@, value).take(i as int) =~= one_value(ids@, value));
    out
}

impl Session {
    /// The writes of a row's values: keys while animating with the record button on,
    /// else static values.
    pub open spec fn row_written(&self, path: Handle, values: Seq<Move>) -> Seq<EditorCommand> {
        value_writes(path, values, self.writes_keys())
    }

    /// The writes of a row's values. `values` holds what each inspected node gets, or
    /// nothing where it does not have the property.
    fn row_commands(&self, path: Handle, values: &Vec<Move>) -> (r: Vec<EditorCommand>)
        ensures
            r@ == self.row_written(path, values@),
    {
        let keyed = self.record_for_writes();
        let mut out: Vec<EditorCommand> = Vec::new();
        let mut i: usize = 0;
        assert(values@.take(0) =~= Seq::<Move>::empty());
        while i < values.len()
            invariant
                i <= values@.len(),
                out@ == value_writes(path, values@.take(i as int), keyed),
            decreases values.len() - i,
        {
            assert(values@.take(i + 1).drop_last() =~= values@.take(i as int));
            if let Some(value) = values[i].value {
                out.push(
                    EditorCommand::SetProperty {
                        id: values[i].id,
                        prop: Property::Listed(path),
                        value,
                        keyed,
                    },
                );
            }
            i = i + 1;
        }
        assert(values@.take(values@.len() as int) =~= values@);
        out
    }

    /// The outputs of one move of a drag over a number: every inspected node gets the
    /// value of the first one with the dragged channel, which `value` numbers.
    pub fn drag_outputs(&self, begin: bool, path: Handle, ids: &Vec<NodeId>, value: Handle) -> (r:
        Vec<ToolOutput>)
        ensures
            r@.len() == (if begin {
                2nat
            } else {
                1nat
            }),
            begin ==> r@[0] == ToolOutput::BeginTransaction(
                crate::commands::Label::Text("Edit property"),
            ),
            r@.last() matches ToolOutput::Commands(c) && c@ == self.row_written(
                path,
                one_value(ids@, value),
            ),
    {
        let mut out: Vec<ToolOutput> = Vec::new();
        if begin {
            out.push(ToolOutput::BeginTransaction(crate::commands::Label::Text("Edit property")));
        }
        out.push(ToolOutput::Commands(self.row_commands(path, &same_value(ids, value))));
        out
    }

    /// The edit of a typed number, where one was typed: every inspected node gets the
    /// value of the first one with the typed channel, which `value` numbers.
    pub fn typed_number(&self, path: Handle, ids: &Vec<NodeId>, value: Option<Handle>) -> (r: Option<
        Edit,
    >)
        ensures
            match value {
                Some(value) => r matches Some(e) && e.carries(
                    "Edit property",
                    self.row_written(path, one_value(ids@, value)),
                ),
                None => r is None,
            },
    {
        match value {
            Some(value) => {
                let commands = self.row_commands(path, &same_value(ids, value));
                Some(Edit { label: "Edit property", commands, select: None })
            },
            None => None,
        }
    }
}

/// The editor of one number: a tap opens it, Enter commits, and losing the focus
/// closes it with the number as it was.
#[derive(Debug)]
pub struct NumberEditor {
    pub editing: bool,
    pub draft: String,
    pub focused_once: bool,
}

/// What the editor shows.
#[derive(Clone, Copy, Debug, PartialEq, Eq, Structural)]
pub enum NumberView {
    /// The number.
    Number,
    /// The input, which asks for the focus until it has it.
    Input { ask_focus: bool },
}

impl NumberEditor {
    pub fn new(label: String) -> (r: NumberEditor)
        ensures
            r == (NumberEditor { editing: false, draft: label, focused_once: false }),
    {
        NumberEditor { editing: false, draft: label, focused_once: false }
    }

    /// A tap: the editor opens on the number as it is shown.
    pub fn open(&mut self, label: String)
        ensures
            *final(self) == (NumberEditor { editing: true, draft: label, focused_once: false }),
    {
        self.focused_once = false;
        self.draft = label;
        self.editing = true;
    }

    pub fn edited(&mut self, text: String)
        ensures
            *final(self) == (NumberEditor { draft: text, ..*old(self) }),
    {
        self.draft = text;
    }

    /// Enter was pressed.
    pub fn submitted(&mut self)
        ensures
            *final(self) == (NumberEditor { editing: false, ..*old(self) }),
    {
        self.editing = false;
    }

    /// One frame of the editor.
    pub fn frame(&mut self, focused: bool) -> (r: NumberView)
        ensures
            !old(self).editing ==> r == NumberView::Number && *final(self) == *old(self),
            old(self).editing && focused ==> r == (NumberView::Input { ask_focus: false })
                && *final(self) == (NumberEditor { focused_once: true, ..*old(self) }),
            old(self).editing && !focused && old(self).focused_once ==> r == NumberView::Number
                && *final(self) == (NumberEditor { editing: false, ..*old(self) }),
            old(self).editing && !focused && !old(self).focused_once ==> r == (NumberView::Input {
                ask_focus: true,
            }) && *final(self) == *old(self),
    {
        if !self.editing {
            return NumberView::Number;
        }
        if focused {
            self.focused_once = true;
        }
        if self.focused_once && !focused {
            self.editing = false;
            return NumberView::Number;
        }
        NumberView::Input { ask_focus: !focused }
    }
}

/// A property's keys, seen from the playhead.
#[derive(Clone, Copy, Debug, PartialEq, Eq, Structural)]
pub enum DiamondState {
    Empty,
    HasKeys,
    AtPlayhead,
}

/// A property's keys, seen from the playhead.
pub fn diamond_state(key_at_playhead: bool, animated: bool) -> (r: DiamondState)
    ensures
        r == (if key_at_playhead {
            DiamondState::AtPlayhead
        } else if animated {
            DiamondState::HasKeys
        } else {
            DiamondState::Empty
        }),
{
    if key_at_playhead {
        DiamondState::AtPlayhead
    } else if animated {
        DiamondState::HasKeys
    } else {
        DiamondState::Empty
    }
}

/// How a keyframe diamond looks; `alpha` is out of 255.
#[derive(Clone, Copy, Debug, PartialEq, Eq)]
pub struct DiamondLook {
    pub filled: bool,
    pub tip: &'static str,
    pub alpha: u8,
}

/// How a keyframe diamond looks. Where keyframes are played down, a property without
/// keys has none and the others are drawn at two fifths.
pub fn diamond_look(state: DiamondState, quiet: bool) -> (r: Option<DiamondLook>)
    ensures
        r == (if quiet && state == DiamondState::Empty {
            None
        } else {
            Some(
                DiamondLook {
                    filled: state == DiamondState::AtPlayhead,
                    tip: (match state {
                        DiamondState::Empty => "Add keyframe",
                        DiamondState::HasKeys => "Add keyframe at playhead",
                        DiamondState::AtPlayhead => "Remove keyframe",
                    }),
                    alpha: if quiet {
                        102
                    } else {
                        255
                    },
                },
            )
        }),
{
    if quiet && state == DiamondState::Empty {
        return None;
    }
    let tip = match state {
        DiamondState::Empty => "Add keyframe",
        DiamondState::HasKeys => "Add keyframe at playhead",
        DiamondState::AtPlayhead => "Remove keyframe",
    };
    Some(
        DiamondLook {
            filled: state == DiamondState::AtPlayhead,
            tip,
            alpha: if quiet {
                102
            } else {
                255
            },
        },
    )
}

/// The edit behind a diamond: it adds or removes a key of every node that has the
/// property, if any has.
pub fn toggle_keys(commands: Vec<EditorCommand>) -> (r: Option<Edit>)
    ensures
        r is Some == (commands@.len() > 0),
        r matches Some(e) ==> e.carries("Keyframe", commands@),
{
    if commands.len() == 0 {
        return None;
    }
    Some(Edit { label: "Keyframe", commands, select: None })
}

/// What a property may be.
#[derive(Clone, Copy, Debug, PartialEq, Eq, Structural)]
pub enum PropKind {
    Number,
    Angle,
    Point,
    Color,
    Switch,
    TwoChoices,
    ThreeChoices,
    Other,
}

/// What a value is.
#[derive(Clone, Copy, Debug, PartialEq, Eq, Structural)]
pub enum ValueKind {
    Number,
    Angle,
    Point,
    Color,
    Whole,
    Switch,
    Stops,
    Other,
}

/// What a row edits its property with.
#[derive(Clone, Copy, Debug, PartialEq, Eq, Structural)]
pub enum RowEditor {
    /// Two or three segments, without a diamond.
    Segments { count: usize },
    /// Two segments, without a diamond.
    Switch,
    Number,
    Pair,
    Color,
    /// The value has no editor.
    Nothing,
}

/// What a row edits its property with.
pub open spec fn editor_for(kind: PropKind, value: ValueKind) -> RowEditor {
    match (kind, value) {
        (PropKind::TwoChoices, ValueKind::Whole) => RowEditor::Segments { count: 2 },
        (PropKind::ThreeChoices, ValueKind::Whole) => RowEditor::Segments { count: 3 },
        (PropKind::Switch, ValueKind::Switch) => RowEditor::Switch,
        (PropKind::Number, ValueKind::Number) => RowEditor::Number,
        (PropKind::Angle, ValueKind::Angle) => RowEditor::Number,
        (PropKind::Angle, ValueKind::Number) => RowEditor::Number,
        (PropKind::Point, ValueKind::Point) => RowEditor::Pair,
        (PropKind::Color, ValueKind::Color) => RowEditor::Color,
        _ => RowEditor::Nothing,
    }
}

/// What a row edits its property with.
pub fn row_editor(kind: PropKind, value: ValueKind) -> (r: RowEditor)
    ensures
        r == editor_for(kind, value),
{
    match (kind, value) {
        (PropKind::TwoChoices, ValueKind::Whole) => RowEditor::Segments { count: 2 },
        (PropKind::ThreeChoices, ValueKind::Whole) => RowEditor::Segments { count: 3 },
        (PropKind::Switch, ValueKind::Switch) => RowEditor::Switch,
        (PropKind::Number, ValueKind::Number) => RowEditor::Number,
        (PropKind::Angle, ValueKind::Angle) => RowEditor::Number,
        (PropKind::Angle, ValueKind::Number) => RowEditor::Number,
        (PropKind::Point, ValueKind::Point) => RowEditor::Pair,
        (PropKind::Color, ValueKind::Color) => RowEditor::Color,
        _ => RowEditor::Nothing,
    }
}

/// Whether a row has a keyframe diamond: choices and switches cannot be animated.
pub fn has_diamond(editor: RowEditor) -> (r: bool)
    ensures
        r == !(editor is Segments || editor is Switch),
{
    match editor {
        RowEditor::Segments { .. } => false,
        RowEditor::Switch => false,
        _ => true,
    }
}

/// Which segment of a choice is active.
pub fn segment_is_active(value: i64, index: usize) -> (r: bool)
    ensures
        r == (value == index),
{
    value >= 0 && value as u64 == index as u64
}

/// A part of a gradient stop.
#[derive(Clone, Copy, Debug, PartialEq, Eq, Structural)]
pub enum StopPart {
    Offset,
    Red,
    Green,
    Blue,
    Alpha,
}

/// What a channel of a value is.
#[allow(inconsistent_fields)]
#[derive(Clone, Copy, Debug, PartialEq, Eq, Structural)]
pub enum Channel {
    Whole,
    X,
    Y,
    Red,
    Green,
    Blue,
    Alpha,
    Stop { index: usize, part: StopPart },
    /// There is no such channel: the value stays as it is.
    Nothing,
}

pub open spec fn stop_part(n: int) -> StopPart {
    if n == 0 {
        StopPart::Offset
    } else if n == 1 {
        StopPart::Red
    } else if n == 2 {
        StopPart::Green
    } else if n == 3 {
        StopPart::Blue
    } else {
        StopPart::Alpha
    }
}

/// The channel of a value by its number. A gradient has five for each of its
/// `stops`: the offset and the four colour parts.
pub open spec fn channel_of(kind: ValueKind, stops: usize, channel: usize) -> Channel {
    match kind {
        ValueKind::Number | ValueKind::Angle => Channel::Whole,
        ValueKind::Point => if channel == 0 {
            Channel::X
        } else {
            Channel::Y
        },
        ValueKind::Color => if channel == 0 {
            Channel::Red
        } else if channel == 1 {
            Channel::Green
        } else if channel == 2 {
            Channel::Blue
        } else {
            Channel::Alpha
        },
        ValueKind::Stops => if channel / 5 < stops {
            Channel::Stop { index: channel / 5, part: stop_part(channel as int % 5) }
        } else {
            Channel::Nothing
        },
        _ => Channel::Nothing,
    }
}

/// The channel of a value by its number.
pub fn apply_channel(kind: ValueKind, stops: usize, channel: usize) -> (r: Channel)
    ensures
        r == channel_of(kind, stops, channel),
{
    match kind {
        ValueKind::Number | ValueKind::Angle => Channel::Whole,
        ValueKind::Point => if channel == 0 {
            Channel::X
        } else {
            Channel::Y
        },
        ValueKind::Color => match channel {
            0 => Channel::Red,
            1 => Channel::Green,
            2 => Channel::Blue,
            _ => Channel::Alpha,
        },
        ValueKind::Stops => {
            let index: usize = channel / 5;
            let part = match channel % 5 {
                0 => StopPart::Offset,
                1 => StopPart::Red,
                2 => StopPart::Green,
                3 => StopPart::Blue,
                _ => StopPart::Alpha,
            };
            if index < stops {
                Channel::Stop { index, part }
            } else {
                Channel::Nothing
            }
        },
        _ => Channel::Nothing,
    }
}

/// The number of a gradient stop's part.
pub open spec fn stop_channel(index: int, part: StopPart) -> int {
    index * 5 + (match part {
        StopPart::Offset => 0int,
        StopPart::Red => 1,
        StopPart::Green => 2,
        StopPart::Blue => 3,
        StopPart::Alpha => 4,
    })
}

/// The first channel of a gradient stop.
pub fn stop_base(index: usize) -> (r: usize)
    requires
        index * 5 + 4 <= usize::MAX,
    ensures
        r == stop_channel(index as int, StopPart::Offset),
{
    index * 5
}

/// A gradient stop's part and its number stand for each other.
pub proof fn law_stop_channels_match(index: usize, part: StopPart, stops: usize)
    requires
        index < stops,
        stop_channel(index as int, part) <= usize::MAX,
    ensures
        channel_of(ValueKind::Stops, stops, stop_channel(index as int, part) as usize) == (
        Channel::Stop { index, part }),
{
}

/// Whether a gradient stop can be removed: two always stay.
pub fn can_remove_stop(index: usize, stops: usize) -> (r: bool)
    ensures
        r == (index < stops && stops > 2),
{
    index < stops && stops > 2
}

/// What the swatch of a colour row opens: the colour of a style that is alone.
pub fn swatch_target(doc: &Document, ids: &Vec<NodeId>) -> (r: Option<PickerTarget>)
    ensures
        r == (if ids@.len() == 1 && doc.has(ids@[0]) && doc.node(ids@[0]).kind is Style {
            Some(PickerTarget::StyleColor { style_id: ids@[0] })
        } else {
            None
        }),
{
    if ids.len() != 1 {
        return None;
    }
    match doc.get(ids[0]) {
        Some(n) => match n.kind {
            NodeKind::Style(_) => Some(PickerTarget::StyleColor { style_id: ids[0] }),
            _ => None,
        },
        None => None,
    }
}

/// The sixteen digits.
pub open spec fn hex_digits() -> Seq<&'static str> {
    seq!["0", "1", "2", "3", "4", "5", "6", "7", "8", "9", "A", "B", "C", "D", "E", "F"]
}

pub open spec fn hex_byte(n: u8) -> Seq<char> {
    hex_digits()[n as int / 16]@ + hex_digits()[n as int % 16]@
}

fn hex_digit(n: u8) -> (r: &'static str)
    requires
        n < 16,
    ensures
        r == hex_digits()[n as int],
{
    match n {
        0 => "0",
        1 => "1",
        2 => "2",
        3 => "3",
        4 => "4",
        5 => "5",
        6 => "6",
        7 => "7",
        8 => "8",
        9 => "9",
        10 => "A",
        11 => "B",
        12 => "C",
        13 => "D",
        14 => "E",
        _ => "F",
    }
}

fn append_hex(out: &mut String, n: u8)
    ensures
        final(out)@ == old(out)@ + hex_byte(n),
{
    let ghost before = out@;
    out.append(hex_digit(n / 16));
    out.append(hex_digit(n % 16));
    assert(out@ =~= before + hex_byte(n));
}

/// A colour in the usual notation, from its three parts.
pub fn hex_color(red: u8, green: u8, blue: u8) -> (r: String)
    ensures
        r@ == "#"@ + hex_byte(red) + hex_byte(green) + hex_byte(blue),
{
    let mut out = "#".to_owned();
    append_hex(&mut out, red);
    append_hex(&mut out, green);
    append_hex(&mut out, blue);
    out
}

/// A percentage in words.
pub fn percent_line(percent: i64) -> (r: String)
    ensures
        r@ == signed(percent as int) + "%"@,
{
    let mut out = "".to_owned();
    proof {
        reveal_strlit("");
    }
    append_signed(&mut out, percent);
    assert(out@ =~= signed(percent as int));
    out.append("%");
    out
}

} // verus!
