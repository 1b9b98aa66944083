//! Pasting a style and turning strokes into outlines: which style nodes are
//! rewritten, and where a shape needs a group of its own.
use vstd::prelude::*;

use crate::clipboard::EditClosed;
use crate::commands::{Applied, EditorCommand, KindSource, Message, TreeSource};
use crate::model::{Document, NodeId, Parent, StyleKind};
use crate::session::{next_revision, Session, StyleCopy};

verus! {

/// The first style of the wanted kind.
pub open spec fn first_style(styles: Seq<StyleCopy>, kind: StyleKind) -> Option<StyleCopy>
    decreases styles.len(),
{
    if styles.len() == 0 {
        None
    } else if styles[0].kind == kind {
        Some(styles[0])
    } else {
        first_style(styles.drop_first(), kind)
    }
}

fn find_style(styles: &Vec<StyleCopy>, kind: StyleKind) -> (r: Option<StyleCopy>)
    ensures
        r == first_style(styles@, kind),
{
    let mut i: usize = 0;
    assert(styles@.skip(0) =~= styles@);
    while i < styles.len()
        invariant
            i <= styles@.len(),
            first_style(styles@, kind) == first_style(styles@.skip(i as int), kind),
        decreases styles.len() - i,
    {
        assert(styles@.skip(i as int).drop_first() =~= styles@.skip(i + 1));
        if styles[i].kind == kind {
            return Some(styles[i]);
        }
        i = i + 1;
    }
    None
}

/// How one target takes a style: style nodes that are rewritten where they
/// stand, and styles that it gets in a group of its own.
#[derive(Debug)]
pub struct StylePlan {
    pub target: NodeId,
    pub direct: Vec<(NodeId, StyleCopy)>,
    pub local: Vec<StyleCopy>,
}

impl Document {
    /// Whether a container other than `id` is in `s`.
    pub open spec fn other_container(&self, s: Seq<NodeId>, id: NodeId) -> bool {
        exists|i: int| 0 <= i < s.len() && #[trigger] s[i] != id && self.is_container(s[i])
    }

    /// Whether a style of the scope of `id` would paint other nodes too.
    pub open spec fn scope_paints_others(&self, id: NodeId) -> bool {
        match self.located(id) {
            None => false,
            Some(at) => match self.children_of(at.parent) {
                None => false,
                Some(children) => {
                    ||| self.painted_count(children) > 1
                    ||| at.parent is Comp && self.other_container(children, id)
                },
            },
        }
    }

    /// Whether the style that paints `id` is missing or paints other nodes too.
    pub open spec fn shared_or_absent(&self, id: NodeId, kind: StyleKind) -> bool {
        ||| match self.nearest(self.scopes(id), kind) {
            None => true,
            Some(style) => match self.scope_info(style) {
                Some((_, shared)) => shared,
                None => true,
            },
        }
        ||| self.scope_paints_others(id)
    }

    /// The style node that is rewritten for `source`, if one is.
    pub open spec fn direct_part(&self, id: NodeId, source: Option<StyleCopy>) -> Seq<
        (NodeId, StyleCopy),
    > {
        match source {
            Some(copy) if !self.shared_or_absent(id, copy.kind) => seq![
                (self.nearest(self.scopes(id), copy.kind)->0, copy),
            ],
            _ => Seq::empty(),
        }
    }

    /// The style that `id` gets of its own for `source`, if it gets one.
    pub open spec fn local_part(&self, id: NodeId, source: Option<StyleCopy>) -> Seq<StyleCopy> {
        match source {
            Some(copy) if self.shared_or_absent(id, copy.kind) => seq![copy],
            _ => Seq::empty(),
        }
    }

    pub open spec fn style_plan(
        &self,
        plan: StylePlan,
        id: NodeId,
        fill: Option<StyleCopy>,
        stroke: Option<StyleCopy>,
    ) -> bool {
        &&& plan.target == id
        &&& plan.direct@ == self.direct_part(id, fill) + self.direct_part(id, stroke)
        &&& plan.local@ == self.local_part(id, fill) + self.local_part(id, stroke)
    }

    fn has_other_container(&self, s: &Vec<NodeId>, id: NodeId) -> (r: bool)
        ensures
            r == self.other_container(s@, id),
    {
        let mut i: usize = 0;
        while i < s.len()
            invariant
                i <= s@.len(),
                forall|j: int|
                    0 <= j < i ==> !(#[trigger] s@[j] != id && self.is_container(s@[j])),
            decreases s.len() - i,
        {
            if s[i] != id && self.container(s[i]) {
                assert(s@[i as int] != id);
                return true;
            }
            i = i + 1;
        }
        false
    }

    fn paints_others(&self, id: NodeId) -> (r: bool)
        ensures
            r == self.scope_paints_others(id),
    {
        let at = match self.locate(id) {
            Some(at) => at,
            None => {
                return false;
            },
        };
        let children = match self.child_list(at.parent) {
            Some(children) => children,
            None => {
                return false;
            },
        };
        if self.count_painted(children) > 1 {
            return true;
        }
        match at.parent {
            Parent::Comp(_) => self.has_other_container(children, id),
            Parent::Node(_) => false,
        }
    }

    fn plan_source(&self, plan: &mut StylePlan, source: Option<StyleCopy>)
        requires
            self.wf(),
        ensures
            final(plan).target == old(plan).target,
            final(plan).direct@ == old(plan).direct@ + self.direct_part(old(plan).target, source),
            final(plan).local@ == old(plan).local@ + self.local_part(old(plan).target, source),
    {
        let ghost direct = plan.direct@;
        let ghost local = plan.local@;
        if let Some(copy) = source {
            let nearest = self.nearest_style_node(plan.target, copy.kind);
            let mut local_needed = self.paints_others(plan.target);
            match nearest {
                None => {
                    local_needed = true;
                },
                Some(style) => {
                    match self.style_scope_info(style) {
                        Some((_, shared)) => {
                            if shared {
                                local_needed = true;
                            }
                        },
                        None => {
                            local_needed = true;
                        },
                    }
                },
            }
            assert(local_needed == self.shared_or_absent(plan.target, copy.kind));
            if local_needed {
                plan.local.push(copy);
            } else if let Some(style) = nearest {
                plan.direct.push((style, copy));
            }
        }
        assert(plan.direct@ =~= direct + self.direct_part(plan.target, source));
        assert(plan.local@ =~= local + self.local_part(plan.target, source));
    }

    fn plan_target(
        &self,
        id: NodeId,
        fill: Option<StyleCopy>,
        stroke: Option<StyleCopy>,
    ) -> (plan: StylePlan)
        requires
            self.wf(),
        ensures
            self.style_plan(plan, id, fill, stroke),
    {
        let mut plan = StylePlan { target: id, direct: Vec::new(), local: Vec::new() };
        self.plan_source(&mut plan, fill);
        self.plan_source(&mut plan, stroke);
        assert(plan.direct@ =~= self.direct_part(id, fill) + self.direct_part(id, stroke));
        assert(plan.local@ =~= self.local_part(id, fill) + self.local_part(id, stroke));
        plan
    }
}

/// How far the pasting of a style has come.
#[allow(inconsistent_fields)]
#[derive(Clone, Copy, Debug, PartialEq, Eq, Structural)]
pub enum StyleStage {
    /// The style node with this number is rewritten next.
    Direct { next: usize },
    /// The group is made.
    Group,
    /// The target moves into the group.
    Move { group: NodeId },
    /// The style with this number goes into the group.
    Style { group: NodeId, next: usize },
}

/// The pasting of a style under way: the host carries out one command at a time
/// and reports whether it worked.
#[derive(Debug)]
pub struct StyleRun {
    pub plans: Vec<StylePlan>,
    pub at: usize,
    pub stage: StyleStage,
    pub failed: bool,
}

/// The point that a run of styles has come to.
pub struct StylePoint {
    pub at: int,
    pub stage: StyleStage,
    pub failed: bool,
}

/// The point from which the next command is given: plans that are through, and
/// those whose own group is not made after a failure, are passed over. A target
/// that is gone ends the run.
pub open spec fn settled(plans: Seq<StylePlan>, point: StylePoint, doc: Document) -> StylePoint
    decreases
        plans.len() - point.at,
        if point.stage is Direct {
            1int
        } else {
            0
        },
{
    if point.at >= plans.len() {
        point
    } else {
        let plan = plans[point.at];
        let next_plan = StylePoint {
            at: point.at + 1,
            stage: StyleStage::Direct { next: 0 },
            ..point
        };
        match point.stage {
            StyleStage::Direct { next } => if next < plan.direct@.len() {
                point
            } else if point.failed || plan.local@.len() == 0 {
                settled(plans, next_plan, doc)
            } else {
                settled(plans, StylePoint { stage: StyleStage::Group, ..point }, doc)
            },
            StyleStage::Group => if doc.located(plan.target) is Some {
                point
            } else {
                StylePoint { at: plans.len() as int, failed: true, ..point }
            },
            StyleStage::Move { .. } => point,
            StyleStage::Style { next, .. } => if next < plan.local@.len() {
                point
            } else {
                settled(plans, next_plan, doc)
            },
        }
    }
}

/// The command of a settled point.
pub open spec fn style_command(
    plans: Seq<StylePlan>,
    point: StylePoint,
    doc: Document,
) -> Option<EditorCommand> {
    if point.at >= plans.len() {
        None
    } else {
        let plan = plans[point.at];
        match point.stage {
            StyleStage::Direct { next } => Some(
                EditorCommand::SetNodeKind {
                    id: plan.direct@[next as int].0,
                    kind: KindSource::Style {
                        kind: plan.direct@[next as int].1.kind,
                        content: plan.direct@[next as int].1.content,
                    },
                },
            ),
            StyleStage::Group => Some(
                EditorCommand::InsertNode {
                    parent: doc.located(plan.target)->0.parent,
                    index: doc.located(plan.target)->0.index,
                    tree: TreeSource::Group { name: "Styled" },
                },
            ),
            StyleStage::Move { group } => Some(
                EditorCommand::MoveNode {
                    id: plan.target,
                    new_parent: Parent::Node(group),
                    index: 0,
                },
            ),
            StyleStage::Style { group, next } => Some(
                EditorCommand::InsertNode {
                    parent: Parent::Node(group),
                    index: usize::MAX,
                    tree: TreeSource::Style {
                        kind: plan.local@[next as int].kind,
                        content: plan.local@[next as int].content,
                    },
                },
            ),
        }
    }
}

/// The point after the reply to the command of `point`.
pub open spec fn style_replied(
    plans: Seq<StylePlan>,
    point: StylePoint,
    reply: Option<Applied>,
) -> StylePoint {
    let next_plan = StylePoint { at: point.at + 1, stage: StyleStage::Direct { next: 0 }, ..point };
    let ended = StylePoint { at: plans.len() as int, failed: true, ..point };
    match point.stage {
        StyleStage::Direct { next } => match reply {
            Some(_) => StylePoint {
                stage: StyleStage::Direct { next: (next + 1) as usize },
                ..point
            },
            None => StylePoint { failed: true, ..next_plan },
        },
        StyleStage::Group => match reply {
            Some(Applied { created: Some(group), .. }) => StylePoint {
                stage: StyleStage::Move { group },
                ..point
            },
            _ => ended,
        },
        StyleStage::Move { group } => match reply {
            Some(_) => StylePoint { stage: StyleStage::Style { group, next: 0 }, ..point },
            None => ended,
        },
        StyleStage::Style { group, next } => match reply {
            Some(_) => StylePoint {
                stage: StyleStage::Style { group, next: (next + 1) as usize },
                ..point
            },
            None => StylePoint { failed: true, ..next_plan },
        },
    }
}

impl StyleRun {
    pub open spec fn point(&self) -> StylePoint {
        StylePoint { at: self.at as int, stage: self.stage, failed: self.failed }
    }

    /// Whether the numbers of the run point into its plans.
    pub open spec fn wf(&self) -> bool {
        &&& self.at <= self.plans@.len()
        &&& self.at < self.plans@.len() ==> match self.stage {
            StyleStage::Direct { next } => next <= self.plans@[self.at as int].direct@.len(),
            StyleStage::Style { next, .. } => next <= self.plans@[self.at as int].local@.len(),
            _ => true,
        }
    }

    /// Whether a command of the run waits for its reply.
    pub open spec fn waiting(&self) -> bool {
        &&& self.wf()
        &&& self.at < self.plans@.len()
        &&& match self.stage {
            StyleStage::Direct { next } => next < self.plans@[self.at as int].direct@.len(),
            StyleStage::Style { next, .. } => next < self.plans@[self.at as int].local@.len(),
            _ => true,
        }
    }

    /// The name of the run's undo step.
    pub fn label(&self) -> (r: &'static str)
        ensures
            r == "Paste style",
    {
        "Paste style"
    }

    /// The next command, on the document as it is now.
    pub fn next_command(&mut self, doc: &Document) -> (r: Option<EditorCommand>)
        requires
            old(self).wf(),
        ensures
            final(self).plans == old(self).plans,
            final(self).point() == settled(old(self).plans@, old(self).point(), *doc),
            r == style_command(old(self).plans@, final(self).point(), *doc),
            r is Some ==> final(self).waiting(),
            r is None ==> final(self).wf() && final(self).at == final(self).plans@.len(),
    {
        let ghost start = self.point();
        loop
            invariant
                self.wf(),
                self.plans == old(self).plans,
                start == old(self).point(),
                settled(self.plans@, start, *doc) == settled(self.plans@, self.point(), *doc),
            decreases
                self.plans@.len() - self.at,
                if self.stage is Direct {
                    1int
                } else {
                    0
                },
        {
            if self.at >= self.plans.len() {
                return None;
            }
            let plan = &self.plans[self.at];
            match self.stage {
                StyleStage::Direct { next } => {
                    if next < plan.direct.len() {
                        let (id, copy) = plan.direct[next];
                        return Some(
                            EditorCommand::SetNodeKind {
                                id,
                                kind: KindSource::Style { kind: copy.kind, content: copy.content },
                            },
                        );
                    }
                    if self.failed || plan.local.len() == 0 {
                        self.at = self.at + 1;
                        self.stage = StyleStage::Direct { next: 0 };
                    } else {
                        self.stage = StyleStage::Group;
                    }
                },
                StyleStage::Group => {
                    match doc.locate(plan.target) {
                        Some(at) => {
                            return Some(
                                EditorCommand::InsertNode {
                                    parent: at.parent,
                                    index: at.index,
                                    tree: TreeSource::Group { name: "Styled" },
                                },
                            );
                        },
                        None => {
                            self.failed = true;
                            self.at = self.plans.len();
                            return None;
                        },
                    }
                },
                StyleStage::Move { group } => {
                    return Some(
                        EditorCommand::MoveNode {
                            id: plan.target,
                            new_parent: Parent::Node(group),
                            index: 0,
                        },
                    );
                },
                StyleStage::Style { group, next } => {
                    if next < plan.local.len() {
                        let copy = plan.local[next];
                        return Some(
                            EditorCommand::InsertNode {
                                parent: Parent::Node(group),
                                index: usize::MAX,
                                tree: TreeSource::Style { kind: copy.kind, content: copy.content },
                            },
                        );
                    }
                    self.at = self.at + 1;
                    self.stage = StyleStage::Direct { next: 0 };
                },
            }
        }
    }

    /// Takes the reply to the last command: nothing where it failed.
    pub fn replied(&mut self, reply: Option<Applied>)
        requires
            old(self).waiting(),
        ensures
            final(self).wf(),
            final(self).plans == old(self).plans,
            final(self).point() == style_replied(old(self).plans@, old(self).point(), reply),
    {
        assert(self.at < self.plans.len());
        match self.stage {
            StyleStage::Direct { next } => {
                assert(next < self.plans@[self.at as int].direct.len());
                if reply.is_some() {
                    self.stage = StyleStage::Direct { next: next + 1 };
                } else {
                    self.failed = true;
                    self.at = self.at + 1;
                    self.stage = StyleStage::Direct { next: 0 };
                }
            },
            StyleStage::Group => {
                let created = match reply {
                    Some(applied) => applied.created,
                    None => None,
                };
                match created {
                    Some(group) => {
                        self.stage = StyleStage::Move { group };
                    },
                    None => {
                        self.failed = true;
                        self.at = self.plans.len();
                    },
                }
            },
            StyleStage::Move { group } => {
                if reply.is_some() {
                    self.stage = StyleStage::Style { group, next: 0 };
                } else {
                    self.failed = true;
                    self.at = self.plans.len();
                }
            },
            StyleStage::Style { group, next } => {
                assert(next < self.plans@[self.at as int].local.len());
                if reply.is_some() {
                    self.stage = StyleStage::Style { group, next: next + 1 };
                } else {
                    self.failed = true;
                    self.at = self.at + 1;
                    self.stage = StyleStage::Direct { next: 0 };
                }
            },
        }
    }
}

/// Whether `plans` are the plans of those of `targets` that stand somewhere.
pub open spec fn plans_of(
    doc: Document,
    plans: Seq<StylePlan>,
    targets: Seq<NodeId>,
    fill: Option<StyleCopy>,
    stroke: Option<StyleCopy>,
) -> bool {
    let placed = targets.filter(|id: NodeId| doc.located(id) is Some);
    &&& plans.len() == placed.len()
    &&& forall|i: int|
        0 <= i < placed.len() ==> doc.style_plan(#[trigger] plans[i], placed[i], fill, stroke)
}

impl Session {
    pub open spec fn clipboard_style(&self, kind: StyleKind) -> Option<StyleCopy> {
        match self.clipboard {
            Some(payload) => first_style(payload.style_nodes@, kind),
            None => None,
        }
    }

    /// Closes the edit under way and starts giving the copied style to the selected
    /// nodes.
    pub fn paste_style(&mut self, doc: &Document, transaction_open: bool) -> (r: Option<
        (EditClosed, StyleRun),
    >)
        requires
            doc.wf(),
        ensures
            ({
                let fill = old(self).clipboard_style(StyleKind::Fill);
                let stroke = old(self).clipboard_style(StyleKind::Stroke);
                let placed = old(self).selection@.filter(|id: NodeId| doc.located(id) is Some);
                if old(self).clipboard is None {
                    r is None && *final(self) == old(self).refused("Clipboard empty")
                } else if fill is None && stroke is None {
                    r is None && *final(self) == old(self).refused("No style on the clipboard")
                } else if old(self).selection@.len() == 0 {
                    r is None && *final(self) == old(self).refused(
                        "Select objects to paste the style onto",
                    )
                } else if placed.len() == 0 {
                    r is None && *final(self) == old(self).refused("Nothing to paste")
                } else {
                    &&& *final(self) == old(self).edit_closed(transaction_open)
                    &&& r matches Some((closed, run)) && {
                        &&& closed == old(self).closing(transaction_open)
                        &&& run.wf()
                        &&& run.point() == (StylePoint {
                            at: 0,
                            stage: StyleStage::Direct { next: 0 },
                            failed: false,
                        })
                        &&& plans_of(*doc, run.plans@, old(self).selection@, fill, stroke)
                    }
                }
            }),
    {
        let (fill, stroke) = match &self.clipboard {
            Some(payload) => (
                find_style(&payload.style_nodes, StyleKind::Fill),
                find_style(&payload.style_nodes, StyleKind::Stroke),
            ),
            None => {
                self.refuse("Clipboard empty");
                return None;
            },
        };
        if fill.is_none() && stroke.is_none() {
            self.refuse("No style on the clipboard");
            return None;
        }
        if self.selection.len() == 0 {
            self.refuse("Select objects to paste the style onto");
            return None;
        }
        let ghost keep = |id: NodeId| doc.located(id) is Some;
        let ghost sel = self.selection@;
        let mut plans: Vec<StylePlan> = Vec::new();
        let mut i: usize = 0;
        proof {
            crate::seqs::lemma_filter_ends(sel, keep);
        }
        while i < self.selection.len()
            invariant
                doc.wf(),
                i <= sel.len(),
                sel == self.selection@,
                *self == *old(self),
                keep == |id: NodeId| doc.located(id) is Some,
                plans@.len() == sel.take(i as int).filter(keep).len(),
                forall|k: int|
                    0 <= k < plans@.len() ==> doc.style_plan(
                        #[trigger] plans@[k],
                        sel.take(i as int).filter(keep)[k],
                        fill,
                        stroke,
                    ),
            decreases self.selection.len() - i,
        {
            proof {
                crate::seqs::lemma_filter_step(sel, i as int, keep);
            }
            let target = self.selection[i];
            if doc.locate(target).is_some() {
                plans.push(doc.plan_target(target, fill, stroke));
            }
            i = i + 1;
        }
        if plans.len() == 0 {
            self.refuse("Nothing to paste");
            return None;
        }
        let closed = self.finalize_open_edit(transaction_open);
        let run = StyleRun { plans, at: 0, stage: StyleStage::Direct { next: 0 }, failed: false };
        Some((closed, run))
    }

    /// Ends the pasting of a style, its transaction committed.
    pub fn finish_paste_style(&mut self, failed: bool)
        ensures
            *final(self) == (Session {
                dirty: true,
                status: if failed {
                    Some(Message::Fixed("Paste style failed on part of the selection"))
                } else {
                    old(self).status
                },
                revision: next_revision(old(self).revision),
                ..*old(self)
            }),
    {
        self.dirty = true;
        if failed {
            self.status = Some(Message::Fixed("Paste style failed on part of the selection"));
        }
        self.repaint();
    }
}

} // verus!
