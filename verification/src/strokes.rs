//! Turning strokes into outlines.
use vstd::prelude::*;

use crate::clipboard::EditClosed;
use crate::commands::{Applied, EditorCommand, KindSource, Message, TreeSource};
use crate::model::{Document, Handle, NodeId, NodeKind, Parent, StyleKind};
use crate::session::{next_revision, Session};

verus! {

/// A selected shape and the stroke that paints it.
#[derive(Clone, Copy, Debug, PartialEq, Eq, Structural)]
pub struct StrokeTarget {
    pub shape: NodeId,
    pub stroke: NodeId,
}

/// A shape that becomes its stroke's outline. `compound` numbers the outline,
/// `content` the stroke; `shared` says that the stroke paints other shapes too.
#[derive(Clone, Copy, Debug, PartialEq, Eq, Structural)]
pub struct Conversion {
    pub shape: NodeId,
    pub compound: Handle,
    pub stroke: NodeId,
    pub shared: bool,
    pub content: Handle,
}

impl Document {
    pub open spec fn stroke_of(&self, id: NodeId) -> Option<NodeId> {
        if self.has(id) && self.node(id).kind is Shape {
            self.nearest(self.scopes(id), StyleKind::Stroke)
        } else {
            None
        }
    }

    /// The shapes of `sel` that a stroke paints, with that stroke.
    pub open spec fn stroked(&self, sel: Seq<NodeId>) -> Seq<StrokeTarget>
        decreases sel.len(),
    {
        if sel.len() == 0 {
            Seq::empty()
        } else {
            let front = self.stroked(sel.drop_last());
            match self.stroke_of(sel.last()) {
                Some(stroke) => front.push(StrokeTarget { shape: sel.last(), stroke }),
                None => front,
            }
        }
    }

    /// What becomes of a stroked shape whose outline is `outline`.
    pub open spec fn conversion(&self, target: StrokeTarget, outline: Option<Handle>) -> Option<
        Conversion,
    > {
        match (outline, self.scope_info(target.stroke)) {
            (Some(compound), Some((_, shared))) => Some(
                Conversion {
                    shape: target.shape,
                    compound,
                    stroke: target.stroke,
                    shared,
                    content: self.node(target.stroke).content,
                },
            ),
            _ => None,
        }
    }

    /// The conversions of the targets whose outline is not empty and whose
    /// stroke stands somewhere.
    pub open spec fn conversions(
        &self,
        targets: Seq<StrokeTarget>,
        outlines: Seq<Option<Handle>>,
    ) -> Seq<Conversion>
        decreases targets.len(),
    {
        if targets.len() == 0 {
            Seq::empty()
        } else {
            let front = self.conversions(targets.drop_last(), outlines);
            match self.conversion(targets.last(), outlines[targets.len() - 1]) {
                Some(c) => front.push(c),
                None => front,
            }
        }
    }
}

#[derive(Clone, Copy, Debug, PartialEq, Eq, Structural)]
pub enum StrokeStage {
    /// The shape becomes the outline.
    Outline,
    /// The stroke becomes a fill.
    Refill,
    /// A group is made.
    Group,
    /// The shape moves into the group.
    Move { group: NodeId },
    /// The group gets a fill; `moved` says whether the move worked.
    Fill { group: NodeId, moved: bool },
}

/// A conversion of strokes under way.
#[derive(Debug)]
pub struct StrokeRun {
    pub conversions: Vec<Conversion>,
    pub at: usize,
    pub stage: StrokeStage,
    pub failed: bool,
}

/// The point that a conversion of strokes has come to.
pub struct StrokePoint {
    pub at: int,
    pub stage: StrokeStage,
    pub failed: bool,
}

/// The point from which the next command is given: a shape that is gone ends the
/// run.
pub open spec fn stroke_settled(
    all: Seq<Conversion>,
    point: StrokePoint,
    doc: Document,
) -> StrokePoint {
    if point.at < all.len() && point.stage is Group && doc.located(all[point.at].shape) is None {
        StrokePoint { at: all.len() as int, failed: true, ..point }
    } else {
        point
    }
}

pub open spec fn stroke_command(
    all: Seq<Conversion>,
    point: StrokePoint,
    doc: Document,
) -> Option<EditorCommand> {
    if point.at >= all.len() {
        None
    } else {
        let c = all[point.at];
        match point.stage {
            StrokeStage::Outline => Some(
                EditorCommand::SetNodeKind {
                    id: c.shape,
                    kind: KindSource::Compound { contours: c.compound },
                },
            ),
            StrokeStage::Refill => Some(
                EditorCommand::SetNodeKind {
                    id: c.stroke,
                    kind: KindSource::FillOfStroke { content: c.content },
                },
            ),
            StrokeStage::Group => Some(
                EditorCommand::InsertNode {
                    parent: doc.located(c.shape)->0.parent,
                    index: doc.located(c.shape)->0.index,
                    tree: TreeSource::Group { name: "Stroked Path" },
                },
            ),
            StrokeStage::Move { group } => Some(
                EditorCommand::MoveNode { id: c.shape, new_parent: Parent::Node(group), index: 0 },
            ),
            StrokeStage::Fill { group, .. } => Some(
                EditorCommand::InsertNode {
                    parent: Parent::Node(group),
                    index: usize::MAX,
                    tree: TreeSource::FillOfStroke { content: c.content },
                },
            ),
        }
    }
}

/// The point after the reply to the command of `point`.
pub open spec fn stroke_replied(
    all: Seq<Conversion>,
    point: StrokePoint,
    reply: Option<Applied>,
) -> StrokePoint {
    let through = StrokePoint { at: point.at + 1, stage: StrokeStage::Outline, ..point };
    let ended = StrokePoint { at: all.len() as int, failed: true, ..point };
    match point.stage {
        StrokeStage::Outline => match reply {
            Some(_) => StrokePoint {
                stage: if all[point.at].shared {
                    StrokeStage::Group
                } else {
                    StrokeStage::Refill
                },
                ..point
            },
            None => ended,
        },
        StrokeStage::Refill => StrokePoint { failed: point.failed || reply is None, ..through },
        StrokeStage::Group => match reply {
            Some(Applied { created: Some(group), .. }) => StrokePoint {
                stage: StrokeStage::Move { group },
                ..point
            },
            _ => ended,
        },
        StrokeStage::Move { group } => StrokePoint {
            stage: StrokeStage::Fill { group, moved: reply is Some },
            ..point
        },
        StrokeStage::Fill { moved, .. } => if moved && reply is Some {
            through
        } else {
            ended
        },
    }
}

impl StrokeRun {
    pub open spec fn point(&self) -> StrokePoint {
        StrokePoint { at: self.at as int, stage: self.stage, failed: self.failed }
    }

    pub open spec fn wf(&self) -> bool {
        self.at <= self.conversions@.len()
    }

    /// The name of the run's undo step.
    pub fn label(&self) -> (r: &'static str)
        ensures
            r == "Stroke to path",
    {
        "Stroke to path"
    }

    /// The next command, on the document as it is now.
    pub fn next_command(&mut self, doc: &Document) -> (r: Option<EditorCommand>)
        requires
            old(self).wf(),
        ensures
            final(self).wf(),
            final(self).conversions == old(self).conversions,
            final(self).point() == stroke_settled(old(self).conversions@, old(self).point(), *doc),
            r == stroke_command(old(self).conversions@, final(self).point(), *doc),
            r is Some <==> final(self).at < final(self).conversions@.len(),
    {
        if self.at >= self.conversions.len() {
            return None;
        }
        let c = self.conversions[self.at];
        match self.stage {
            StrokeStage::Outline => Some(
                EditorCommand::SetNodeKind {
                    id: c.shape,
                    kind: KindSource::Compound { contours: c.compound },
                },
            ),
            StrokeStage::Refill => Some(
                EditorCommand::SetNodeKind {
                    id: c.stroke,
                    kind: KindSource::FillOfStroke { content: c.content },
                },
            ),
            StrokeStage::Group => match doc.locate(c.shape) {
                Some(at) => Some(
                    EditorCommand::InsertNode {
                        parent: at.parent,
                        index: at.index,
                        tree: TreeSource::Group { name: "Stroked Path" },
                    },
                ),
                None => {
                    self.failed = true;
                    self.at = self.conversions.len();
                    None
                },
            },
            StrokeStage::Move { group } => Some(
                EditorCommand::MoveNode { id: c.shape, new_parent: Parent::Node(group), index: 0 },
            ),
            StrokeStage::Fill { group, .. } => Some(
                EditorCommand::InsertNode {
                    parent: Parent::Node(group),
                    index: usize::MAX,
                    tree: TreeSource::FillOfStroke { content: c.content },
                },
            ),
        }
    }

    fn end_failed(&mut self)
        ensures
            final(self).conversions == old(self).conversions,
            final(self).stage == old(self).stage,
            final(self).at == final(self).conversions@.len(),
            final(self).failed,
    {
        self.failed = true;
        self.at = self.conversions.len();
    }

    /// Takes the reply to the last command: nothing where it failed.
    pub fn replied(&mut self, reply: Option<Applied>)
        requires
            old(self).at < old(self).conversions@.len(),
        ensures
            final(self).wf(),
            final(self).conversions == old(self).conversions,
            final(self).point() == stroke_replied(
                old(self).conversions@,
                old(self).point(),
                reply,
            ),
    {
        assert(self.at < self.conversions.len());
        match self.stage {
            StrokeStage::Outline => {
                if reply.is_none() {
                    self.end_failed();
                } else if self.conversions[self.at].shared {
                    self.stage = StrokeStage::Group;
                } else {
                    self.stage = StrokeStage::Refill;
                }
            },
            StrokeStage::Refill => {
                if reply.is_none() {
                    self.failed = true;
                }
                self.at = self.at + 1;
                self.stage = StrokeStage::Outline;
            },
            StrokeStage::Group => {
                let created = match reply {
                    Some(applied) => applied.created,
                    None => None,
                };
                match created {
                    Some(group) => {
                        self.stage = StrokeStage::Move { group };
                    },
                    None => {
                        self.end_failed();
                    },
                }
            },
            StrokeStage::Move { group } => {
                self.stage = StrokeStage::Fill { group, moved: reply.is_some() };
            },
            StrokeStage::Fill { moved, .. } => {
                if moved && reply.is_some() {
                    self.at = self.at + 1;
                    self.stage = StrokeStage::Outline;
                } else {
                    self.end_failed();
                }
            },
        }
    }
}

impl Session {
    /// The selected shapes that a stroke paints; the host outlines each.
    pub fn stroke_targets(&self, doc: &Document) -> (r: Vec<StrokeTarget>)
        requires
            doc.wf(),
        ensures
            r@ == doc.stroked(self.selection@),
    {
        let mut out: Vec<StrokeTarget> = Vec::new();
        let mut i: usize = 0;
        assert(self.selection@.take(0) =~= Seq::<NodeId>::empty());
        while i < self.selection.len()
            invariant
                doc.wf(),
                i <= self.selection@.len(),
                out@ == doc.stroked(self.selection@.take(i as int)),
            decreases self.selection.len() - i,
        {
            let id = self.selection[i];
            assert(self.selection@.take(i + 1).drop_last() =~= self.selection@.take(i as int));
            let is_shape = match doc.get(id) {
                Some(n) => matches!(n.kind, NodeKind::Shape(_)),
                None => false,
            };
            if is_shape {
                if let Some(stroke) = doc.nearest_style_node(id, StyleKind::Stroke) {
                    out.push(StrokeTarget { shape: id, stroke });
                }
            }
            i = i + 1;
        }
        assert(self.selection@.take(self.selection@.len() as int) =~= self.selection@);
        out
    }

    /// Closes the edit under way and starts turning strokes into outlines.
    /// `outlines` holds, for each of the targets, the number of its outline, or
    /// nothing where that is empty.
    pub fn stroke_selection_to_path(
        &mut self,
        doc: &Document,
        outlines: &Vec<Option<Handle>>,
        transaction_open: bool,
    ) -> (r: Option<(EditClosed, StrokeRun)>)
        requires
            doc.wf(),
            outlines@.len() == doc.stroked(old(self).selection@).len(),
        ensures
            ({
                let all = doc.conversions(doc.stroked(old(self).selection@), outlines@);
                if old(self).selection@.len() == 0 {
                    &&& r is None
                    &&& *final(self) == old(self).refused("Select stroked shapes to convert")
                } else if all.len() == 0 {
                    &&& r is None
                    &&& *final(self) == old(self).refused("No stroked shapes found")
                } else {
                    &&& *final(self) == old(self).edit_closed(transaction_open)
                    &&& r matches Some((closed, run)) && {
                        &&& closed == old(self).closing(transaction_open)
                        &&& run.conversions@ == all
                        &&& run.wf()
                        &&& run.point() == (StrokePoint {
                            at: 0,
                            stage: StrokeStage::Outline,
                            failed: false,
                        })
                    }
                }
            }),
    {
        if self.selection.len() == 0 {
            self.refuse("Select stroked shapes to convert");
            return None;
        }
        let targets = self.stroke_targets(doc);
        let mut all: Vec<Conversion> = Vec::new();
        let mut i: usize = 0;
        assert(targets@.take(0) =~= Seq::<StrokeTarget>::empty());
        while i < targets.len()
            invariant
                *self == *old(self),
                i <= targets@.len(),
                targets@.len() == outlines@.len(),
                all@ == doc.conversions(targets@.take(i as int), outlines@),
            decreases targets.len() - i,
        {
            assert(targets@.take(i + 1).drop_last() =~= targets@.take(i as int));
            let target = targets[i];
            if let Some(compound) = outlines[i] {
                if let Some((_, shared)) = doc.style_scope_info(target.stroke) {
                    if let Some(n) = doc.get(target.stroke) {
                        all.push(
                            Conversion {
                                shape: target.shape,
                                compound,
                                stroke: target.stroke,
                                shared,
                                content: n.content,
                            },
                        );
                    }
                }
            }
            i = i + 1;
        }
        assert(targets@.take(targets@.len() as int) =~= targets@);
        if all.len() == 0 {
            self.refuse("No stroked shapes found");
            return None;
        }
        let closed = self.finalize_open_edit(transaction_open);
        let run = StrokeRun { conversions: all, at: 0, stage: StrokeStage::Outline, failed: false };
        Some((closed, run))
    }

    /// Ends the conversion of strokes, its transaction committed.
    pub fn finish_stroke_to_path(&mut self, failed: bool)
        ensures
            *final(self) == (Session {
                dirty: true,
                status: if failed {
                    Some(Message::Fixed("Stroke to path failed on part of the selection"))
                } else {
                    old(self).status
                },
                revision: next_revision(old(self).revision),
                ..*old(self)
            }),
    {
        self.dirty = true;
        if failed {
            self.status = Some(Message::Fixed("Stroke to path failed on part of the selection"));
        }
        self.repaint();
    }
}

} // verus!
