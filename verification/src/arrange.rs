//! Arranging the selection: aligning, distributing, flipping, nudging, deleting,
//! and stepping through the nodes.
use vstd::prelude::*;

use crate::clipboard::{remove_all, removals};
use crate::commands::{Edit, EditorCommand, Property};
use crate::model::{Document, Handle, NodeId};
use crate::seqs::{
    copied, first_index, lemma_filter_ends, lemma_filter_step, lemma_first_index, position,
};
use crate::session::{next_revision, Session};

verus! {

broadcast use vstd::std_specs::hash::group_hash_axioms;

/// The path of a node's position.
pub const POSITION: &'static str = "transform.position";

/// The path of a node's scale.
pub const SCALE: &'static str = "transform.scale";

/// A property value for a node, or nothing where the node has no such property or
/// the value would not change.
#[derive(Clone, Copy, Debug, PartialEq, Eq, Structural)]
pub struct Move {
    pub id: NodeId,
    pub value: Option<Handle>,
}

#[derive(Clone, Copy, Debug, PartialEq, Eq, Structural)]
pub struct Modifiers {
    pub shift: bool,
    pub ctrl: bool,
    pub alt: bool,
}

/// How far one key press nudges, in screen pixels: fine with Alt, coarse with
/// Shift.
pub open spec fn nudge_pixels(mods: Modifiers) -> int {
    if mods.alt {
        1
    } else if mods.shift {
        20
    } else {
        2
    }
}

pub fn nudge_step(mods: Modifiers) -> (r: u32)
    ensures
        r == nudge_pixels(mods),
{
    if mods.alt {
        1
    } else if mods.shift {
        20
    } else {
        2
    }
}

impl Document {
    /// The writes of `moves` to the property `prop`: locked nodes stay as they are.
    pub open spec fn writes(&self, prop: &'static str, moves: Seq<Move>, keyed: bool) -> Seq<
        EditorCommand,
    >
        decreases moves.len(),
    {
        if moves.len() == 0 {
            Seq::empty()
        } else {
            let front = self.writes(prop, moves.drop_last(), keyed);
            match moves.last().value {
                Some(value) if self.is_free(moves.last().id) => front.push(
                    EditorCommand::SetProperty {
                        id: moves.last().id,
                        prop: Property::Path(prop),
                        value,
                        keyed,
                    },
                ),
                _ => front,
            }
        }
    }

    fn property_writes(&self, prop: &'static str, moves: &Vec<Move>, keyed: bool) -> (r: Vec<
        EditorCommand,
    >)
        ensures
            r@ == self.writes(prop, moves@, keyed),
    {
        let mut out: Vec<EditorCommand> = Vec::new();
        let mut i: usize = 0;
        assert(moves@.take(0) =~= Seq::<Move>::empty());
        while i < moves.len()
            invariant
                i <= moves@.len(),
                out@ == self.writes(prop, moves@.take(i as int), keyed),
            decreases moves.len() - i,
        {
            assert(moves@.take(i + 1).drop_last() =~= moves@.take(i as int));
            if let Some(value) = moves[i].value {
                if self.free(moves[i].id) {
                    out.push(
                        EditorCommand::SetProperty {
                            id: moves[i].id,
                            prop: Property::Path(prop),
                            value,
                            keyed,
                        },
                    );
                }
            }
            i = i + 1;
        }
        assert(moves@.take(moves@.len() as int) =~= moves@);
        out
    }
}

/// One value for each node.
pub open spec fn paired(ids: Seq<NodeId>, values: Seq<Option<Handle>>) -> Seq<Move> {
    Seq::new(ids.len(), |i: int| Move { id: ids[i], value: values[i] })
}

fn pair_up(ids: &Vec<NodeId>, values: &Vec<Option<Handle>>) -> (r: Vec<Move>)
    requires
        ids@.len() == values@.len(),
    ensures
        r@ == paired(ids@, values@),
{
    let mut out: Vec<Move> = Vec::new();
    let mut i: usize = 0;
    while i < ids.len()
        invariant
            i <= ids@.len(),
            ids@.len() == values@.len(),
            out@ == paired(ids@, values@).take(i as int),
        decreases ids.len() - i,
    {
        out.push(Move { id: ids[i], value: values[i] });
        assert(out@ =~= paired(ids@, values@).take(i + 1));
        i = i + 1;
    }
    assert(out@ =~= paired(ids@, values@));
    out
}

/// Whether `edit` is the undo step `label` of `commands`.
pub open spec fn is_edit(edit: Option<Edit>, label: &'static str, commands: Seq<EditorCommand>) -> bool {
    edit matches Some(e) && e.label == label && e.commands@ == commands && e.select is None
}

impl Session {
    /// Aligns the selected roots. `moves` are the host's positions for those with
    /// bounds; `bounded` says how many have any.
    pub fn align_selection(&mut self, doc: &Document, bounded: usize, moves: &Vec<Move>) -> (r:
        Option<Edit>)
        requires
            doc.wf(),
        ensures
            ({
                let commands = doc.writes(POSITION, moves@, old(self).writes_keys());
                if doc.roots(old(self).selection@).len() == 0 {
                    r is None && *final(self) == *old(self)
                } else if bounded == 0 || commands.len() == 0 {
                    r is None && *final(self) == old(self).refused("Nothing to align")
                } else {
                    *final(self) == *old(self) && is_edit(r, "Align", commands)
                }
            }),
    {
        let roots = doc.selected_roots(&self.selection);
        if roots.len() == 0 {
            return None;
        }
        let commands = doc.property_writes(POSITION, moves, self.record_for_writes());
        if bounded == 0 || commands.len() == 0 {
            self.refuse("Nothing to align");
            return None;
        }
        Some(Edit { label: "Align", commands, select: None })
    }

    /// Distributes the selected roots. `bounded` says how many have bounds;
    /// `moves` are the host's positions, or nothing where there are none.
    pub fn distribute_selection(
        &mut self,
        doc: &Document,
        bounded: usize,
        moves: Option<&Vec<Move>>,
    ) -> (r: Option<Edit>)
        requires
            doc.wf(),
        ensures
            if doc.roots(old(self).selection@).len() < 3 {
                r is None && *final(self) == old(self).refused("Select 3+ objects to distribute")
            } else if bounded < 3 {
                &&& r is None
                &&& *final(self) == old(self).refused("Select 3+ visible objects to distribute")
            } else {
                match moves {
                    Some(moves) if doc.writes(POSITION, moves@, old(self).writes_keys()).len() > 0 => {
                        &&& *final(self) == *old(self)
                        &&& is_edit(
                            r,
                            "Distribute",
                            doc.writes(POSITION, moves@, old(self).writes_keys()),
                        )
                    },
                    _ => r is None && *final(self) == old(self).refused("Nothing to distribute"),
                }
            },
    {
        let roots = doc.selected_roots(&self.selection);
        if roots.len() < 3 {
            self.refuse("Select 3+ objects to distribute");
            return None;
        }
        if bounded < 3 {
            self.refuse("Select 3+ visible objects to distribute");
            return None;
        }
        if let Some(moves) = moves {
            let commands = doc.property_writes(POSITION, moves, self.record_for_writes());
            if commands.len() > 0 {
                return Some(Edit { label: "Distribute", commands, select: None });
            }
        }
        self.refuse("Nothing to distribute");
        None
    }

    /// Flips the selected roots. `scales` are the host's new scales, one for each
    /// root in order, or nothing where a root has no scale.
    pub fn flip_selection(&mut self, doc: &Document, scales: &Vec<Option<Handle>>) -> (r: Option<
        Edit,
    >)
        requires
            doc.wf(),
            scales@.len() == doc.roots(old(self).selection@).len(),
        ensures
            ({
                let roots = doc.roots(old(self).selection@);
                let commands = doc.writes(SCALE, paired(roots, scales@), old(self).writes_keys());
                if roots.len() == 0 {
                    r is None && *final(self) == *old(self)
                } else if commands.len() == 0 {
                    &&& r is None
                    &&& *final(self) == old(self).refused("Flip does not apply to the selection")
                } else {
                    *final(self) == *old(self) && is_edit(r, "Flip", commands)
                }
            }),
    {
        let roots = doc.selected_roots(&self.selection);
        if roots.len() == 0 {
            return None;
        }
        let moves = pair_up(&roots, scales);
        let commands = doc.property_writes(SCALE, &moves, self.record_for_writes());
        if commands.len() == 0 {
            self.refuse("Flip does not apply to the selection");
            return None;
        }
        Some(Edit { label: "Flip", commands, select: None })
    }

    /// Nudges the selected roots, unless a tool is dragging. `positions` are the
    /// host's new positions, one for each root in order, or nothing where a root has
    /// no position.
    pub fn nudge_selection(
        &self,
        doc: &Document,
        dragging: bool,
        positions: &Vec<Option<Handle>>,
    ) -> (r: Option<Edit>)
        requires
            doc.wf(),
            positions@.len() == doc.roots(self.selection@).len(),
        ensures
            ({
                let roots = doc.roots(self.selection@);
                let commands = doc.writes(POSITION, paired(roots, positions@), self.writes_keys());
                if self.selection@.len() == 0 || dragging || commands.len() == 0 {
                    r is None
                } else {
                    is_edit(r, "Nudge", commands)
                }
            }),
    {
        if self.selection.len() == 0 || dragging {
            return None;
        }
        let roots = doc.selected_roots(&self.selection);
        let moves = pair_up(&roots, positions);
        let commands = doc.property_writes(POSITION, &moves, self.record_for_writes());
        if commands.len() == 0 {
            return None;
        }
        Some(Edit { label: "Nudge", commands, select: None })
    }

    /// Deletes the selected roots, unless a tool is dragging. Locked nodes stay.
    pub fn delete_selection_nodes(&mut self, doc: &Document, dragging: bool) -> (r: Option<Edit>)
        requires
            doc.wf(),
        ensures
            ({
                let ids = doc.duplicable(old(self).selection@);
                if old(self).selection@.len() == 0 || dragging {
                    r is None && *final(self) == *old(self)
                } else if ids.len() == 0 {
                    r is None && *final(self) == old(self).refused("Locked layers cannot be deleted")
                } else {
                    &&& *final(self) == *old(self)
                    &&& r matches Some(e) && {
                        &&& e.label == "Delete"
                        &&& e.commands@ == removals(ids)
                        &&& e.select matches Some(s) && s@ == Seq::<NodeId>::empty()
                    }
                }
            }),
    {
        if self.selection.len() == 0 || dragging {
            return None;
        }
        let roots = doc.selected_roots(&self.selection);
        let ghost keep = |id: NodeId| doc.is_free(id);
        let mut ids: Vec<NodeId> = Vec::new();
        let mut i: usize = 0;
        proof {
            lemma_filter_ends(roots@, keep);
        }
        while i < roots.len()
            invariant
                i <= roots@.len(),
                keep == |id: NodeId| doc.is_free(id),
                ids@ == roots@.take(i as int).filter(keep),
            decreases roots.len() - i,
        {
            proof {
                lemma_filter_step(roots@, i as int, keep);
            }
            if doc.free(roots[i]) {
                ids.push(roots[i]);
            }
            i = i + 1;
        }
        if ids.len() == 0 {
            self.refuse("Locked layers cannot be deleted");
            return None;
        }
        let commands = remove_all(&ids);
        let none: Vec<NodeId> = Vec::new();
        Some(Edit { label: "Delete", commands, select: Some(none) })
    }

    /// Clears the selection, unless a tool is dragging. Says whether it did.
    pub fn deselect_when_idle(&mut self, dragging: bool) -> (r: bool)
        ensures
            r == (!dragging && old(self).selection@.len() > 0),
            if r {
                &&& final(self).selection@ == Seq::<NodeId>::empty()
                &&& *final(self) == (Session {
                    selection: final(self).selection,
                    revision: next_revision(old(self).revision),
                    ..*old(self)
                })
            } else {
                *final(self) == *old(self)
            },
    {
        if dragging || self.selection.len() == 0 {
            return false;
        }
        self.selection.clear();
        self.repaint();
        true
    }

    /// Selects the next top-level node, or the one before.
    pub fn cycle_selection(&mut self, doc: &Document, reverse: bool)
        requires
            doc.wf(),
            doc.comp(doc.main_id()) is Some,
        ensures
            ({
                let children = doc.comp(doc.main_id())->0.children@;
                if children.len() == 0 {
                    *final(self) == *old(self)
                } else {
                    &&& final(self).selection@ == seq![
                        neighbour(children, old(self).selection@, reverse),
                    ]
                    &&& final(self).expanded_layers@ == old(self).expanded_layers@.union(
                        doc.ancestors_of(final(self).selection@),
                    )
                    &&& *final(self) == (Session {
                        selection: final(self).selection,
                        expanded_layers: final(self).expanded_layers,
                        revision: next_revision(old(self).revision),
                        ..*old(self)
                    })
                }
            }),
    {
        let comp = match doc.composition(doc.main()) {
            Some(c) => c,
            None => {
                return ;
            },
        };
        let children = &comp.children;
        let n: usize = children.len();
        if n == 0 {
            return ;
        }
        let mut next = children[0];
        if self.selection.len() > 0 {
            proof {
                lemma_first_index(children@, self.selection@[0]);
            }
            if let Some(i) = position(children, self.selection[0]) {
                let k: usize = if reverse {
                    if i == 0 {
                        n - 1
                    } else {
                        i - 1
                    }
                } else if i == n - 1 {
                    0
                } else {
                    i + 1
                };
                proof {
                    lemma_turn(i as int, n as int);
                }
                next = children[k];
            }
        }
        let mut one: Vec<NodeId> = Vec::new();
        one.push(next);
        self.selection = one;
        self.ensure_selection_visible(doc);
        self.repaint();
    }

    /// Selects all the top-level nodes.
    pub fn select_all_top_level(&mut self, doc: &Document)
        requires
            doc.wf(),
            doc.comp(doc.main_id()) is Some,
        ensures
            final(self).selection@ == doc.comp(doc.main_id())->0.children@,
            final(self).expanded_layers@ == old(self).expanded_layers@.union(
                doc.ancestors_of(final(self).selection@),
            ),
            *final(self) == (Session {
                selection: final(self).selection,
                expanded_layers: final(self).expanded_layers,
                revision: next_revision(old(self).revision),
                ..*old(self)
            }),
    {
        if let Some(c) = doc.composition(doc.main()) {
            self.selection = copied(&c.children);
        }
        self.ensure_selection_visible(doc);
        self.repaint();
    }

    /// Opens all the layer rows that have children, or closes all.
    pub fn set_all_expanded(&mut self, doc: &Document, expanded: bool)
        requires
            doc.wf(),
        ensures
            final(self).expanded_layers@ == (if expanded {
                doc.expandable()
            } else {
                Set::empty()
            }),
            *final(self) == (Session {
                expanded_layers: final(self).expanded_layers,
                revision: next_revision(old(self).revision),
                ..*old(self)
            }),
    {
        if expanded {
            self.expanded_layers = doc.expandable_nodes();
        } else {
            self.expanded_layers.clear();
        }
        self.repaint();
    }

    /// Puts the pivot of the only selected node into the middle of its bounds.
    /// `placed` are the anchor and position that do so, where there are any.
    pub fn center_pivot(&self, placed: Option<(Handle, Handle)>) -> (r: Option<Edit>)
        ensures
            match placed {
                Some((anchor, position)) if self.selection@.len() == 1 => is_edit(
                    r,
                    "Center pivot",
                    seq![
                        EditorCommand::SetStatic {
                            id: self.selection@[0],
                            prop: "transform.anchor",
                            value: anchor,
                        },
                        EditorCommand::SetStatic {
                            id: self.selection@[0],
                            prop: POSITION,
                            value: position,
                        },
                    ],
                ),
                _ => r is None,
            },
    {
        if self.selection.len() != 1 {
            return None;
        }
        match placed {
            Some((anchor, position)) => {
                let id = self.selection[0];
                let mut commands: Vec<EditorCommand> = Vec::new();
                commands.push(
                    EditorCommand::SetStatic { id, prop: "transform.anchor", value: anchor },
                );
                commands.push(
                    EditorCommand::SetStatic { id, prop: POSITION, value: position },
                );
                assert(commands@ =~= seq![
                    EditorCommand::SetStatic { id, prop: "transform.anchor", value: anchor },
                    EditorCommand::SetStatic { id, prop: POSITION, value: position },
                ]);
                Some(Edit { label: "Center pivot", commands, select: None })
            },
            None => None,
        }
    }
}

/// The node of `children` that follows, round the corner, the first selected one;
/// the first where that is none of them.
pub open spec fn neighbour(children: Seq<NodeId>, sel: Seq<NodeId>, reverse: bool) -> NodeId {
    let n = children.len() as int;
    if sel.len() == 0 {
        children[0]
    } else {
        match first_index(children, sel[0]) {
            Some(i) => children[(i + if reverse {
                n - 1
            } else {
                1
            }) % n],
            None => children[0],
        }
    }
}

pub proof fn lemma_turn(i: int, n: int)
    requires
        0 <= i < n,
    ensures
        (i + 1) % n == (if i == n - 1 {
            0
        } else {
            i + 1
        }),
        (i + (n - 1)) % n == (if i == 0 {
            n - 1
        } else {
            i - 1
        }),
{
    if i == n - 1 {
        assert((i + 1) % n == 0) by {
            vstd::arithmetic::div_mod::lemma_mod_self_0(n);
        }
    } else {
        vstd::arithmetic::div_mod::lemma_small_mod((i + 1) as nat, n as nat);
    }
    if i == 0 {
        vstd::arithmetic::div_mod::lemma_small_mod((n - 1) as nat, n as nat);
    } else {
        vstd::arithmetic::div_mod::lemma_mod_add_multiples_vanish(i - 1, n);
        vstd::arithmetic::div_mod::lemma_small_mod((i - 1) as nat, n as nat);
    }
}

} // verus!
