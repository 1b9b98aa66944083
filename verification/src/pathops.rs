//! Operations on the geometry of the selected shapes. The host computes the
//! geometry; here stands which shapes take part, when an operation is refused,
//! and what becomes of the nodes.
use vstd::prelude::*;
use vstd::string::StringExecFns;

use crate::clipboard::removals;
use crate::commands::{Applied, Edit, EditorCommand, KindSource, Message, TreeSource};
use crate::model::{Document, Handle, Location, NodeId, NodeKind, Parent, ShapeKind};
use crate::seqs::{holds, lemma_filter_ends, lemma_filter_step};
use crate::session::{next_revision, reads, Session};
use crate::strings::{append_decimal, decimal};
use crate::tree::dedup;

verus! {

/// How the selected shapes are put together.
#[derive(Clone, Copy, Debug, PartialEq, Eq, Structural)]
pub enum SelectionBoolean {
    Union,
    Difference,
    Intersection,
    Xor,
}

impl SelectionBoolean {
    pub open spec fn label_spec(self) -> &'static str {
        match self {
            SelectionBoolean::Union => "Union",
            SelectionBoolean::Difference => "Difference",
            SelectionBoolean::Intersection => "Intersection",
            SelectionBoolean::Xor => "Xor",
        }
    }

    /// The name of the undo step.
    pub fn label(self) -> (r: &'static str)
        ensures
            r == self.label_spec(),
    {
        match self {
            SelectionBoolean::Union => "Union",
            SelectionBoolean::Difference => "Difference",
            SelectionBoolean::Intersection => "Intersection",
            SelectionBoolean::Xor => "Xor",
        }
    }
}

/// A list of contours that the host keeps: its number, its length and the number
/// of its first contour.
#[derive(Clone, Copy, Debug, PartialEq, Eq, Structural)]
pub struct Contours {
    pub list: Handle,
    pub count: usize,
    pub first: Handle,
}

/// What a list of contours becomes as a shape: nothing, a path or a compound.
pub open spec fn shape_of(c: Contours) -> Option<KindSource> {
    if c.count == 0 {
        None
    } else if c.count == 1 {
        Some(KindSource::Path { contour: c.first })
    } else {
        Some(KindSource::Compound { contours: c.list })
    }
}

/// What a list of contours becomes as a shape: nothing, a path or a compound.
pub fn shape_kind_from_contours(c: Contours) -> (r: Option<KindSource>)
    ensures
        r == shape_of(c),
{
    if c.count == 0 {
        None
    } else if c.count == 1 {
        Some(KindSource::Path { contour: c.first })
    } else {
        Some(KindSource::Compound { contours: c.list })
    }
}

/// The name of the piece with the number `number` of a node named `name`.
pub open spec fn piece_title(name: Seq<char>, number: nat) -> Seq<char> {
    name + " "@ + decimal(number)
}

/// The name of the piece with the number `number` of a node named `name`.
pub fn piece_name(name: &str, number: u64) -> (r: String)
    ensures
        r@ == piece_title(name@, number as nat),
{
    let mut out = name.to_owned();
    out.append(" ");
    append_decimal(&mut out, number as u128);
    out
}

impl Document {
    pub open spec fn is_path(&self, id: NodeId) -> bool {
        self.has(id) && self.node(id).kind == NodeKind::Shape(ShapeKind::Path)
    }

    pub open spec fn is_primitive(&self, id: NodeId) -> bool {
        self.has(id) && match self.node(id).kind {
            NodeKind::Shape(shape) => !(shape is Path) && !(shape is CompoundPath),
            _ => false,
        }
    }

    /// The primitives of `sel`, in order.
    pub open spec fn primitives(&self, sel: Seq<NodeId>) -> Seq<NodeId> {
        sel.filter(|id: NodeId| self.is_primitive(id))
    }

    pub open spec fn is_compound(&self, id: NodeId) -> bool {
        self.has(id) && self.node(id).kind == NodeKind::Shape(ShapeKind::CompoundPath)
    }

    /// The paths that `id` stands for: itself, or the paths directly in it.
    pub open spec fn paths_at(&self, id: NodeId) -> Seq<NodeId> {
        if self.is_path(id) {
            seq![id]
        } else if self.is_container(id) {
            self.node(id).children@.filter(|c: NodeId| self.is_path(c))
        } else {
            Seq::empty()
        }
    }

    pub open spec fn paths_of(&self, sel: Seq<NodeId>) -> Seq<NodeId>
        decreases sel.len(),
    {
        if sel.len() == 0 {
            Seq::empty()
        } else {
            self.paths_of(sel.drop_last()) + self.paths_at(sel.last())
        }
    }

    fn path(&self, id: NodeId) -> (r: bool)
        ensures
            r == self.is_path(id),
    {
        match self.get(id) {
            Some(n) => n.kind == NodeKind::Shape(ShapeKind::Path),
            None => false,
        }
    }

    fn compound(&self, id: NodeId) -> (r: bool)
        ensures
            r == self.is_compound(id),
    {
        match self.get(id) {
            Some(n) => n.kind == NodeKind::Shape(ShapeKind::CompoundPath),
            None => false,
        }
    }

    fn primitive(&self, id: NodeId) -> (r: bool)
        ensures
            r == self.is_primitive(id),
    {
        match self.get(id) {
            Some(n) => match n.kind {
                NodeKind::Shape(shape) => !matches!(shape, ShapeKind::Path | ShapeKind::CompoundPath),
                _ => false,
            },
            None => false,
        }
    }

    /// Whether `id` is a shape that divides: a shape that is closed. `closed`
    /// says so of a path's own geometry.
    pub open spec fn divides(&self, id: NodeId, closed: bool) -> bool {
        self.has(id) && match self.node(id).kind {
            NodeKind::Shape(shape) => closed || self.is_primitive(id),
            _ => false,
        }
    }
}

proof fn lemma_dedup_push(s: Seq<NodeId>, x: NodeId)
    ensures
        dedup(s.push(x)) == (if dedup(s).contains(x) {
            dedup(s)
        } else {
            dedup(s).push(x)
        }),
{
    assert(s.push(x).drop_last() =~= s);
}

fn push_new(out: &mut Vec<NodeId>, x: NodeId)
    ensures
        final(out)@ == (if old(out)@.contains(x) {
            old(out)@
        } else {
            old(out)@.push(x)
        }),
{
    if !holds(out, x) {
        out.push(x);
    }
}

pub open spec fn reversals(ids: Seq<NodeId>) -> Seq<EditorCommand> {
    Seq::new(ids.len(), |i: int| EditorCommand::ReversePath { id: ids[i] })
}

/// The command that makes `subject` the shape `kind`, and the removal of the
/// other shapes.
pub open spec fn merged(ids: Seq<NodeId>, kind: KindSource) -> Seq<EditorCommand> {
    seq![EditorCommand::SetNodeKind { id: ids[0], kind }] + removals(ids.skip(1))
}

fn merge_into_first(ids: &Vec<NodeId>, kind: KindSource) -> (r: Vec<EditorCommand>)
    requires
        ids@.len() > 0,
    ensures
        r@ == merged(ids@, kind),
{
    let mut out: Vec<EditorCommand> = Vec::new();
    out.push(EditorCommand::SetNodeKind { id: ids[0], kind });
    push_removals(ids, &mut out);
    out
}

/// Appends the removal of all the nodes of `ids` but the first.
fn push_removals(ids: &Vec<NodeId>, out: &mut Vec<EditorCommand>)
    requires
        ids@.len() > 0,
    ensures
        final(out)@ == old(out)@ + removals(ids@.skip(1)),
{
    let ghost start = out@;
    let mut i: usize = 1;
    while i < ids.len()
        invariant
            1 <= i <= ids@.len(),
            out@ =~= start + removals(ids@.skip(1)).take(i - 1),
        decreases ids.len() - i,
    {
        out.push(EditorCommand::RemoveNode { id: ids[i] });
        i = i + 1;
    }
    assert(removals(ids@.skip(1)).take(ids@.len() - 1) =~= removals(ids@.skip(1)));
}

fn only(id: NodeId) -> (r: Vec<NodeId>)
    ensures
        r@ == seq![id],
{
    let mut v: Vec<NodeId> = Vec::new();
    v.push(id);
    v
}

/// Why the contours of a node cannot be brought into the space of another one.
/// `placed` says whether the transforms of both are known.
pub fn contours_in_subject_space(doc: &Document, id: NodeId, placed: bool) -> (r: Result<
    (),
    &'static str,
>)
    ensures
        r == (if !doc.has(id) {
            Err::<(), &'static str>("Selected node no longer exists")
        } else if !(doc.node(id).kind is Shape) {
            Err("Selection contains non-shape nodes")
        } else if !placed {
            Err("Cannot resolve transforms for the selection")
        } else {
            Ok(())
        }),
{
    match doc.get(id) {
        None => Err("Selected node no longer exists"),
        Some(node) => {
            if !matches!(node.kind, NodeKind::Shape(_)) {
                Err("Selection contains non-shape nodes")
            } else if !placed {
                Err("Cannot resolve transforms for the selection")
            } else {
                Ok(())
            }
        },
    }
}

/// A boolean operation under way: the host cuts with one shape after another.
#[derive(Debug)]
pub struct BooleanRun {
    pub operation: SelectionBoolean,
    pub ids: Vec<NodeId>,
    pub next: usize,
    pub geometry: Contours,
}

impl BooleanRun {
    pub open spec fn wf(&self) -> bool {
        self.ids@.len() >= 2 && 1 <= self.next <= self.ids@.len()
    }

    /// The shape that cuts next.
    pub fn next_cutter(&self) -> (r: Option<NodeId>)
        requires
            self.wf(),
        ensures
            r == (if self.next < self.ids@.len() {
                Some(self.ids@[self.next as int])
            } else {
                None
            }),
    {
        if self.next < self.ids.len() {
            Some(self.ids[self.next])
        } else {
            None
        }
    }

    /// Takes what is left after the cut.
    pub fn cut(&mut self, geometry: Contours)
        requires
            old(self).wf(),
            old(self).next < old(self).ids@.len(),
        ensures
            final(self).wf(),
            *final(self) == (BooleanRun {
                next: (old(self).next + 1) as usize,
                geometry,
                ..*old(self)
            }),
    {
        assert(self.next < self.ids.len());
        self.geometry = geometry;
        self.next = self.next + 1;
    }

    /// The undo step of a finished operation: the bottom shape becomes the
    /// result and the others go; with an empty result all go.
    pub fn finish(self) -> (r: Edit)
        requires
            self.wf(),
        ensures
            r.label == self.operation.label_spec(),
            if self.geometry.count == 0 {
                &&& r.commands@ == removals(self.ids@)
                &&& r.select matches Some(s) && s@ == Seq::<NodeId>::empty()
            } else {
                &&& r.commands@ == merged(
                    self.ids@,
                    KindSource::Compound { contours: self.geometry.list },
                )
                &&& r.select matches Some(s) && s@ == seq![self.ids@[0]]
            },
    {
        let label = self.operation.label();
        if self.geometry.count == 0 {
            let commands = crate::clipboard::remove_all(&self.ids);
            let none: Vec<NodeId> = Vec::new();
            Edit { label, commands, select: Some(none) }
        } else {
            let commands = merge_into_first(
                &self.ids,
                KindSource::Compound { contours: self.geometry.list },
            );
            Edit { label, commands, select: Some(only(self.ids[0])) }
        }
    }
}

/// A division under way: what the cutters so far have cut out, and the rest.
#[derive(Debug)]
pub struct DivideRun {
    pub ids: Vec<NodeId>,
    pub next: usize,
    pub remaining: Contours,
    pub pieces: Vec<Contours>,
}

impl DivideRun {
    pub open spec fn wf(&self) -> bool {
        &&& self.ids@.len() >= 2
        &&& 1 <= self.next <= self.ids@.len()
        &&& self.pieces@.len() < self.next
        &&& forall|i: int| 0 <= i < self.pieces@.len() ==> (#[trigger] self.pieces@[i]).count > 0
    }

    /// A division of the bottom one of `ids`, whose geometry is `subject`.
    pub fn new(ids: Vec<NodeId>, subject: Contours) -> (r: DivideRun)
        requires
            ids@.len() >= 2,
        ensures
            r.wf(),
            r.ids == ids,
            r.next == 1,
            r.remaining == subject,
            r.pieces@ == Seq::<Contours>::empty(),
    {
        DivideRun { ids, next: 1, remaining: subject, pieces: Vec::new() }
    }

    /// The shape that cuts next; none once nothing is left to cut. The geometry
    /// of the first cutter is fetched even where there is nothing to cut.
    pub fn next_cutter(&self) -> (r: Option<NodeId>)
        requires
            self.wf(),
        ensures
            r == (if self.next < self.ids@.len() && (self.next == 1 || self.remaining.count > 0) {
                Some(self.ids@[self.next as int])
            } else {
                None
            }),
    {
        if self.next < self.ids.len() && (self.next == 1 || self.remaining.count > 0) {
            Some(self.ids[self.next])
        } else {
            None
        }
    }

    /// Whether there is anything to cut.
    pub fn has_material(&self) -> (r: bool)
        ensures
            r == (self.remaining.count > 0),
    {
        self.remaining.count > 0
    }

    /// Takes what the cutter cut out and what it left.
    pub fn cut(&mut self, inside: Contours, outside: Contours)
        requires
            old(self).wf(),
            old(self).next < old(self).ids@.len(),
        ensures
            final(self).wf(),
            final(self).pieces@ == (if inside.count > 0 {
                old(self).pieces@.push(inside)
            } else {
                old(self).pieces@
            }),
            *final(self) == (DivideRun {
                next: (old(self).next + 1) as usize,
                remaining: outside,
                pieces: final(self).pieces,
                ..*old(self)
            }),
    {
        assert(self.next < self.ids.len());
        if inside.count > 0 {
            self.pieces.push(inside);
        }
        self.remaining = outside;
        self.next = self.next + 1;
    }

    /// All the pieces: what was cut out, then the rest.
    pub open spec fn all_pieces(&self) -> Seq<Contours> {
        if self.remaining.count > 0 {
            self.pieces@.push(self.remaining)
        } else {
            self.pieces@
        }
    }
}

/// The insertions of the pieces from the `from`th on, each behind the one
/// before.
pub open spec fn piece_inserts(
    template: NodeId,
    at: Location,
    pieces: Seq<KindSource>,
) -> Seq<EditorCommand> {
    Seq::new(
        (pieces.len() - 1) as nat,
        |i: int|
            EditorCommand::InsertNode {
                parent: at.parent,
                index: (at.index + i + 1) as usize,
                tree: TreeSource::Piece {
                    template,
                    number: (i + 2) as usize,
                    kind: pieces[i + 1],
                },
            },
    )
}

/// Appends the insertions of all the pieces but the first.
fn push_pieces(
    template: NodeId,
    at: Location,
    pieces: &Vec<KindSource>,
    out: &mut Vec<EditorCommand>,
)
    requires
        pieces@.len() >= 1,
        at.index + pieces@.len() <= usize::MAX,
    ensures
        final(out)@ == old(out)@ + piece_inserts(template, at, pieces@),
{
    let ghost start = out@;
    let mut k: usize = 1;
    while k < pieces.len()
        invariant
            1 <= k <= pieces@.len(),
            at.index + pieces@.len() <= usize::MAX,
            out@ =~= start + piece_inserts(template, at, pieces@).take(k - 1),
        decreases pieces.len() - k,
    {
        out.push(
            EditorCommand::InsertNode {
                parent: at.parent,
                index: at.index + k,
                tree: TreeSource::Piece { template, number: k + 1, kind: pieces[k] },
            },
        );
        k = k + 1;
    }
    assert(piece_inserts(template, at, pieces@).take(pieces@.len() - 1) =~= piece_inserts(
        template,
        at,
        pieces@,
    ));
}

/// What the pieces of a division become: each a path or a compound.
pub open spec fn piece_kinds(pieces: Seq<Contours>) -> Seq<KindSource> {
    Seq::new(pieces.len(), |i: int| shape_of(pieces[i])->0)
}

/// What single contours become: each a path.
pub open spec fn path_kinds(contours: Seq<Handle>) -> Seq<KindSource> {
    Seq::new(contours.len(), |i: int| KindSource::Path { contour: contours[i] })
}

impl Session {
    /// Reverses the selected paths and those directly in selected containers.
    pub fn reverse_selected_paths(&mut self, doc: &Document) -> (r: Option<Edit>)
        ensures
            ({
                let paths = dedup(doc.paths_of(old(self).selection@));
                if paths.len() == 0 {
                    r is None && *final(self) == old(self).refused("Select a path to reverse")
                } else {
                    &&& *final(self) == *old(self)
                    &&& r matches Some(e) && {
                        &&& e.label == "Reverse path"
                        &&& e.commands@ == reversals(paths)
                        &&& e.select is None
                    }
                }
            }),
    {
        let ghost sel = self.selection@;
        let mut paths: Vec<NodeId> = Vec::new();
        let mut i: usize = 0;
        assert(sel.take(0) =~= Seq::<NodeId>::empty());
        while i < self.selection.len()
            invariant
                i <= sel.len(),
                sel == self.selection@,
                *self == *old(self),
                paths@ == dedup(doc.paths_of(sel.take(i as int))),
            decreases self.selection.len() - i,
        {
            let id = self.selection[i];
            assert(sel.take(i + 1).drop_last() =~= sel.take(i as int));
            assert(sel.take(i + 1).last() == id);
            let ghost before = doc.paths_of(sel.take(i as int));
            if doc.path(id) {
                proof {
                    lemma_dedup_push(before, id);
                    assert(before + seq![id] =~= before.push(id));
                }
                push_new(&mut paths, id);
            } else if doc.container(id) {
                if let Some(n) = doc.get(id) {
                    let ghost keep = |c: NodeId| doc.is_path(c);
                    let mut k: usize = 0;
                    proof {
                        lemma_filter_ends(n.children@, keep);
                        assert(before + n.children@.take(0).filter(keep) =~= before);
                    }
                    while k < n.children.len()
                        invariant
                            k <= n.children@.len(),
                            keep == |c: NodeId| doc.is_path(c),
                            paths@ == dedup(before + n.children@.take(k as int).filter(keep)),
                        decreases n.children.len() - k,
                    {
                        let c = n.children[k];
                        let ghost here = before + n.children@.take(k as int).filter(keep);
                        proof {
                            lemma_filter_step(n.children@, k as int, keep);
                        }
                        if doc.path(c) {
                            proof {
                                lemma_dedup_push(here, c);
                                assert(before + n.children@.take(k + 1).filter(keep)
                                    =~= here.push(c));
                            }
                            push_new(&mut paths, c);
                        }
                        k = k + 1;
                    }
                }
            } else {
                assert(before + doc.paths_at(id) =~= before);
            }
            i = i + 1;
        }
        assert(sel.take(sel.len() as int) =~= sel);
        if paths.len() == 0 {
            self.refuse("Select a path to reverse");
            return None;
        }
        let mut commands: Vec<EditorCommand> = Vec::new();
        let mut j: usize = 0;
        while j < paths.len()
            invariant
                j <= paths@.len(),
                commands@ =~= reversals(paths@).take(j as int),
            decreases paths.len() - j,
        {
            commands.push(EditorCommand::ReversePath { id: paths[j] });
            j = j + 1;
        }
        assert(reversals(paths@).take(paths@.len() as int) =~= reversals(paths@));
        Some(Edit { label: "Reverse path", commands, select: None })
    }

    /// The selected primitive shapes; the host traces each as a path.
    pub fn primitive_targets(&self, doc: &Document) -> (r: Vec<NodeId>)
        ensures
            r@ == doc.primitives(self.selection@),
    {
        let ghost keep = |id: NodeId| doc.is_primitive(id);
        let mut out: Vec<NodeId> = Vec::new();
        let mut i: usize = 0;
        proof {
            lemma_filter_ends(self.selection@, keep);
        }
        while i < self.selection.len()
            invariant
                i <= self.selection@.len(),
                keep == |id: NodeId| doc.is_primitive(id),
                out@ == self.selection@.take(i as int).filter(keep),
            decreases self.selection.len() - i,
        {
            proof {
                lemma_filter_step(self.selection@, i as int, keep);
            }
            if doc.primitive(self.selection[i]) {
                out.push(self.selection[i]);
            }
            i = i + 1;
        }
        out
    }

    /// Makes each selected primitive the path that was traced for it.
    pub fn convert_selection_to_path(&mut self, doc: &Document, traced: &Vec<Handle>) -> (r: Option<
        Edit,
    >)
        requires
            traced@.len() == doc.primitives(old(self).selection@).len(),
        ensures
            ({
                let targets = doc.primitives(old(self).selection@);
                if targets.len() == 0 {
                    &&& r is None
                    &&& *final(self) == old(self).refused("Select a primitive shape to convert")
                } else {
                    &&& *final(self) == *old(self)
                    &&& r matches Some(e) && {
                        &&& e.label == "Object to path"
                        &&& e.commands@ == Seq::new(
                            targets.len(),
                            |i: int|
                                EditorCommand::SetNodeKind {
                                    id: targets[i],
                                    kind: KindSource::Path { contour: traced@[i] },
                                },
                        )
                        &&& e.select is None
                    }
                }
            }),
    {
        let targets = self.primitive_targets(doc);
        if targets.len() == 0 {
            self.refuse("Select a primitive shape to convert");
            return None;
        }
        let mut commands: Vec<EditorCommand> = Vec::new();
        let mut i: usize = 0;
        while i < targets.len()
            invariant
                i <= targets@.len(),
                targets@.len() == traced@.len(),
                commands@.len() == i,
                forall|k: int|
                    0 <= k < i ==> #[trigger] commands@[k] == (EditorCommand::SetNodeKind {
                        id: targets@[k],
                        kind: KindSource::Path { contour: traced@[k] },
                    }),
            decreases targets.len() - i,
        {
            commands.push(
                EditorCommand::SetNodeKind {
                    id: targets[i],
                    kind: KindSource::Path { contour: traced[i] },
                },
            );
            i = i + 1;
        }
        Some(Edit { label: "Object to path", commands, select: None })
    }

    /// Says why the geometry could not be had.
    pub fn fail_geometry(&mut self, message: String)
        ensures
            reads(final(self).status, message@),
            *final(self) == (Session {
                status: final(self).status,
                revision: next_revision(old(self).revision),
                ..*old(self)
            }),
    {
        self.status = Some(Message::Built(message));
        self.repaint();
    }

    /// Starts a boolean operation: the shapes that take part, bottom first. The
    /// host then fetches the subject's own geometry.
    pub fn boolean_selection(&mut self, doc: &Document) -> (r: Option<Vec<NodeId>>)
        requires
            doc.wf(),
        ensures
            ({
                let ids = doc.shape_roots(old(self).selection@);
                if ids.len() < 2 {
                    &&& r is None
                    &&& *final(self) == old(self).refused("Select at least two closed shapes")
                } else {
                    &&& *final(self) == *old(self)
                    &&& r matches Some(v) && v@ == ids
                }
            }),
    {
        let ids = doc.selected_shape_roots_in_z_order(&self.selection);
        if ids.len() < 2 {
            self.refuse("Select at least two closed shapes");
            return None;
        }
        Some(ids)
    }

    /// Goes on with a boolean operation, given the subject's geometry.
    pub fn boolean_subject(
        &mut self,
        operation: SelectionBoolean,
        ids: Vec<NodeId>,
        subject: Contours,
    ) -> (r: Option<BooleanRun>)
        requires
            ids@.len() >= 2,
        ensures
            if subject.count == 0 {
                r is None && *final(self) == old(self).refused("The subject has no geometry")
            } else {
                &&& *final(self) == *old(self)
                &&& r == Some(BooleanRun { operation, ids, next: 1, geometry: subject })
            },
    {
        if subject.count == 0 {
            self.refuse("The subject has no geometry");
            return None;
        }
        Some(BooleanRun { operation, ids, next: 1, geometry: subject })
    }

    /// Starts a division. `closed` says of each selected shape, bottom first,
    /// whether its own geometry is closed.
    pub fn divide_selection(&mut self, doc: &Document, closed: &Vec<bool>) -> (r: Option<
        Vec<NodeId>,
    >)
        requires
            doc.wf(),
            closed@.len() == doc.shape_roots(old(self).selection@).len(),
        ensures
            ({
                let ids = doc.shape_roots(old(self).selection@);
                if ids.len() < 2 {
                    &&& r is None
                    &&& *final(self) == old(self).refused(
                        "Select at least two closed shapes to divide",
                    )
                } else if exists|i: int|
                    0 <= i < ids.len() && !doc.divides(#[trigger] ids[i], closed@[i]) {
                    &&& r is None
                    &&& *final(self) == old(self).refused(
                        "Division requires closed shapes (open cutting not supported)",
                    )
                } else {
                    &&& *final(self) == *old(self)
                    &&& r matches Some(v) && v@ == ids
                }
            }),
    {
        let ids = doc.selected_shape_roots_in_z_order(&self.selection);
        if ids.len() < 2 {
            self.refuse("Select at least two closed shapes to divide");
            return None;
        }
        let mut i: usize = 0;
        while i < ids.len()
            invariant
                i <= ids@.len(),
                ids@.len() == closed@.len(),
                ids@.len() >= 2,
                *self == *old(self),
                ids@ == doc.shape_roots(old(self).selection@),
                forall|k: int| 0 <= k < i ==> doc.divides(#[trigger] ids@[k], closed@[k]),
            decreases ids.len() - i,
        {
            let ok = match doc.get(ids[i]) {
                Some(n) => match n.kind {
                    NodeKind::Shape(ShapeKind::Path | ShapeKind::CompoundPath) => closed[i],
                    NodeKind::Shape(_) => true,
                    _ => false,
                },
                None => false,
            };
            assert(ok == doc.divides(ids@[i as int], closed@[i as int]));
            if !ok {
                assert(!doc.divides(
                    doc.shape_roots(old(self).selection@)[i as int],
                    closed@[i as int],
                ));
                self.refuse("Division requires closed shapes (open cutting not supported)");
                return None;
            }
            i = i + 1;
        }
        Some(ids)
    }

    /// Ends a division: the subject becomes the first piece, the other pieces are
    /// inserted behind it under numbered names, and the cutters go.
    pub fn finish_divide(&mut self, doc: &Document, run: DivideRun) -> (r: Option<Edit>)
        requires
            run.wf(),
            doc.located(run.ids@[0]) matches Some(at) ==> at.index + run.all_pieces().len()
                <= usize::MAX,
        ensures
            ({
                let pieces = run.all_pieces();
                let subject = run.ids@[0];
                if pieces.len() == 0 {
                    r is None && *final(self) == old(self).refused("Division produced no geometry")
                } else {
                    match doc.located(subject) {
                        None => {
                            &&& r is None
                            &&& *final(self) == old(self).refused("Subject is not attached")
                        },
                        Some(at) => {
                            &&& *final(self) == *old(self)
                            &&& r matches Some(e) && {
                                &&& e.label == "Division"
                                &&& e.commands@ == seq![
                                    EditorCommand::SetNodeKind {
                                        id: subject,
                                        kind: shape_of(pieces[0])->0,
                                    },
                                ] + piece_inserts(subject, at, piece_kinds(pieces)) + removals(
                                    run.ids@.skip(1),
                                )
                                &&& e.select matches Some(s) && s@ == seq![subject]
                            }
                        },
                    }
                }
            }),
    {
        let ghost pieces = run.all_pieces();
        let mut all = run.pieces;
        if run.remaining.count > 0 {
            all.push(run.remaining);
        }
        assert(all@ == pieces);
        if all.len() == 0 {
            self.refuse("Division produced no geometry");
            return None;
        }
        let subject = run.ids[0];
        let at = match doc.locate(subject) {
            Some(at) => at,
            None => {
                self.refuse("Subject is not attached");
                return None;
            },
        };
        let first = match shape_kind_from_contours(all[0]) {
            Some(kind) => kind,
            None => {
                assert(pieces[0].count > 0);
                return None;
            },
        };
        let mut kinds: Vec<KindSource> = Vec::new();
        let mut i: usize = 0;
        while i < all.len()
            invariant
                i <= all@.len(),
                all@ == pieces,
                forall|k: int| 0 <= k < all@.len() ==> (#[trigger] all@[k]).count > 0,
                kinds@ =~= piece_kinds(all@).take(i as int),
            decreases all.len() - i,
        {
            if let Some(kind) = shape_kind_from_contours(all[i]) {
                kinds.push(kind);
            }
            assert(all@[i as int].count > 0);
            i = i + 1;
        }
        assert(piece_kinds(all@).take(all@.len() as int) =~= piece_kinds(all@));
        let mut commands: Vec<EditorCommand> = Vec::new();
        commands.push(EditorCommand::SetNodeKind { id: subject, kind: first });
        push_pieces(subject, at, &kinds, &mut commands);
        push_removals(&run.ids, &mut commands);
        Some(Edit { label: "Division", commands, select: Some(only(subject)) })
    }

    /// Starts combining: the shapes that take part, bottom first.
    pub fn combine_selection(&mut self, doc: &Document) -> (r: Option<Vec<NodeId>>)
        requires
            doc.wf(),
        ensures
            ({
                let ids = doc.shape_roots(old(self).selection@);
                if ids.len() < 2 {
                    &&& r is None
                    &&& *final(self) == old(self).refused("Select at least two objects to combine")
                } else {
                    &&& *final(self) == *old(self)
                    &&& r matches Some(v) && v@ == ids
                }
            }),
    {
        let ids = doc.selected_shape_roots_in_z_order(&self.selection);
        if ids.len() < 2 {
            self.refuse("Select at least two objects to combine");
            return None;
        }
        Some(ids)
    }

    /// Ends combining, given the contours of all the shapes.
    pub fn finish_combine(&mut self, ids: &Vec<NodeId>, contours: Contours) -> (r: Option<Edit>)
        requires
            ids@.len() >= 2,
        ensures
            if contours.count == 0 {
                r is None && *final(self) == old(self).refused("Nothing to combine")
            } else {
                &&& *final(self) == *old(self)
                &&& r matches Some(e) && {
                    &&& e.label == "Combine"
                    &&& e.commands@ == merged(
                        ids@,
                        KindSource::Compound { contours: contours.list },
                    )
                    &&& e.select matches Some(s) && s@ == seq![ids@[0]]
                }
            },
    {
        if contours.count == 0 {
            self.refuse("Nothing to combine");
            return None;
        }
        let commands = merge_into_first(ids, KindSource::Compound { contours: contours.list });
        Some(Edit { label: "Combine", commands, select: Some(only(ids[0])) })
    }

    /// Breaks the one selected compound path into its contours, which the host
    /// numbers.
    pub fn break_apart_selection(&mut self, doc: &Document, contours: &Vec<Handle>) -> (r: Option<
        Edit,
    >)
        requires
            old(self).selection@.len() == 1 ==> (doc.located(old(self).selection@[0]) matches Some(
                at,
            ) ==> at.index + contours@.len() <= usize::MAX),
        ensures
            ({
                let sel = old(self).selection@;
                if sel.len() != 1 {
                    &&& r is None
                    &&& *final(self) == old(self).refused("Select one combined path to break apart")
                } else if !doc.is_compound(sel[0]) {
                    &&& r is None
                    &&& *final(self) == old(self).refused("Break apart requires a compound path")
                } else if contours@.len() < 2 {
                    &&& r is None
                    &&& *final(self) == old(self).refused("The compound path has a single contour")
                } else {
                    match doc.located(sel[0]) {
                        None => {
                            &&& r is None
                            &&& *final(self) == old(self).refused("Node is not attached")
                        },
                        Some(at) => {
                            &&& *final(self) == *old(self)
                            &&& r matches Some(e) && {
                                &&& e.label == "Break apart"
                                &&& e.commands@ == seq![
                                    EditorCommand::SetNodeKind {
                                        id: sel[0],
                                        kind: KindSource::Path { contour: contours@[0] },
                                    },
                                ] + piece_inserts(sel[0], at, path_kinds(contours@))
                                &&& e.select matches Some(s) && s@ == seq![sel[0]]
                            }
                        },
                    }
                }
            }),
    {
        if self.selection.len() != 1 {
            self.refuse("Select one combined path to break apart");
            return None;
        }
        let id = self.selection[0];
        if !doc.compound(id) {
            self.refuse("Break apart requires a compound path");
            return None;
        }
        if contours.len() < 2 {
            self.refuse("The compound path has a single contour");
            return None;
        }
        let at = match doc.locate(id) {
            Some(at) => at,
            None => {
                self.refuse("Node is not attached");
                return None;
            },
        };
        let mut kinds: Vec<KindSource> = Vec::new();
        let mut i: usize = 0;
        while i < contours.len()
            invariant
                i <= contours@.len(),
                kinds@ =~= path_kinds(contours@).take(i as int),
            decreases contours.len() - i,
        {
            kinds.push(KindSource::Path { contour: contours[i] });
            i = i + 1;
        }
        assert(path_kinds(contours@).take(contours@.len() as int) =~= path_kinds(contours@));
        let mut commands: Vec<EditorCommand> = Vec::new();
        commands.push(EditorCommand::SetNodeKind { id, kind: kinds[0] });
        push_pieces(id, at, &kinds, &mut commands);
        Some(Edit { label: "Break apart", commands, select: Some(only(id)) })
    }

    /// Replaces the selected paths by simpler ones. `simpler` holds, for each
    /// selected node, the number of the simplified geometry, or nothing where
    /// that is empty.
    pub fn simplify_selection(&mut self, doc: &Document, simpler: &Vec<Option<Handle>>) -> (r:
        Option<Edit>)
        requires
            simpler@.len() == old(self).selection@.len(),
        ensures
            ({
                let all = doc.simplified(old(self).selection@, simpler@);
                if old(self).selection@.len() == 0 {
                    r is None && *final(self) == old(self).refused("Select a path to simplify")
                } else if all.len() == 0 {
                    r is None && *final(self) == old(self).refused("Select vector paths to simplify")
                } else {
                    &&& *final(self) == *old(self)
                    &&& r matches Some(e) && e.label == "Simplify" && e.commands@ == all
                        && e.select is None
                }
            }),
    {
        if self.selection.len() == 0 {
            self.refuse("Select a path to simplify");
            return None;
        }
        let ghost sel = self.selection@;
        let mut commands: Vec<EditorCommand> = Vec::new();
        let mut i: usize = 0;
        assert(sel.take(0) =~= Seq::<NodeId>::empty());
        while i < self.selection.len()
            invariant
                i <= sel.len(),
                sel == self.selection@,
                *self == *old(self),
                simpler@.len() == sel.len(),
                commands@ == doc.simplified(sel.take(i as int), simpler@),
            decreases self.selection.len() - i,
        {
            let id = self.selection[i];
            assert(sel.take(i + 1).drop_last() =~= sel.take(i as int));
            if let Some(geometry) = simpler[i] {
                if doc.path(id) {
                    commands.push(
                        EditorCommand::SetNodeKind {
                            id,
                            kind: KindSource::Path { contour: geometry },
                        },
                    );
                } else if doc.compound(id) {
                    commands.push(
                        EditorCommand::SetNodeKind {
                            id,
                            kind: KindSource::Compound { contours: geometry },
                        },
                    );
                }
            }
            i = i + 1;
        }
        assert(sel.take(sel.len() as int) =~= sel);
        if commands.len() == 0 {
            self.refuse("Select vector paths to simplify");
            return None;
        }
        Some(Edit { label: "Simplify", commands, select: None })
    }

    /// The step that adds an ellipse in the middle of the main composition, on top
    /// of all layers; the reply goes to `finish_add_layer`.
    pub fn add_ellipse_layer(&self, doc: &Document) -> (r: Edit)
        requires
            doc.comp(doc.main_id()) is Some,
        ensures
            r.carries(
                "Add layer",
                seq![
                    EditorCommand::InsertNode {
                        parent: Parent::Comp(doc.main_id()),
                        index: 0,
                        tree: TreeSource::Ellipse {
                            doubled_center: doc.comp(doc.main_id())->0.size,
                            paint: self.current_paint,
                        },
                    },
                ],
            ),
    {
        let comp = doc.composition(doc.main()).unwrap();
        Edit::single(
            "Add layer",
            EditorCommand::InsertNode {
                parent: Parent::Comp(doc.main()),
                index: 0,
                tree: TreeSource::Ellipse {
                    doubled_center: comp.size,
                    paint: self.current_paint,
                },
            },
        )
    }

    /// Ends adding a layer, its transaction committed: the new node is selected.
    pub fn finish_add_layer(&mut self, reply: Result<Applied, String>, doc: &Document)
        requires
            doc.wf(),
        ensures
            match reply {
                Ok(Applied { created: Some(id), .. }) => {
                    &&& final(self).selection@ == seq![id]
                    &&& final(self).expanded_layers@ == old(self).expanded_layers@.union(
                        doc.ancestors_of(seq![id]),
                    )
                    &&& final(self).status == old(self).status
                },
                Ok(_) => {
                    &&& final(self).selection == old(self).selection
                    &&& final(self).expanded_layers == old(self).expanded_layers
                    &&& final(self).status == old(self).status
                },
                Err(e) => {
                    &&& final(self).selection == old(self).selection
                    &&& final(self).expanded_layers == old(self).expanded_layers
                    &&& reads(final(self).status, "Edit failed: "@ + e@)
                },
            },
            *final(self) == (Session {
                dirty: true,
                selection: final(self).selection,
                expanded_layers: final(self).expanded_layers,
                status: final(self).status,
                revision: next_revision(old(self).revision),
                ..*old(self)
            }),
    {
        if let Some(id) = self.history_apply(reply) {
            self.selection = only(id);
            self.ensure_selection_visible(doc);
        }
        self.dirty = true;
        self.repaint();
    }
}

impl Document {
    /// The commands that simplify the paths of `sel`.
    pub open spec fn simplified(&self, sel: Seq<NodeId>, simpler: Seq<Option<Handle>>) -> Seq<
        EditorCommand,
    >
        decreases sel.len(),
    {
        if sel.len() == 0 {
            Seq::empty()
        } else {
            let front = self.simplified(sel.drop_last(), simpler);
            let id = sel.last();
            match simpler[sel.len() - 1] {
                None => front,
                Some(geometry) => if self.is_path(id) {
                    front.push(
                        EditorCommand::SetNodeKind {
                            id,
                            kind: KindSource::Path { contour: geometry },
                        },
                    )
                } else if self.is_compound(id) {
                    front.push(
                        EditorCommand::SetNodeKind {
                            id,
                            kind: KindSource::Compound { contours: geometry },
                        },
                    )
                } else {
                    front
                },
            }
        }
    }
}

} // verus!
