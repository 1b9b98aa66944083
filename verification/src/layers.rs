//! The layers panel: selecting, renaming and reordering rows.
use vstd::prelude::*;

use crate::commands::{Edit, EditorCommand, SelectionChange, ToolOutput};
use crate::model::{Document, NodeId, Parent};
use crate::propedit::NameEdit;
use crate::seqs::holds;
use crate::session::{next_revision, LayerDragState, Session};
use crate::strings::{same_text, trim, trimmed};

verus! {

broadcast use vstd::std_specs::hash::group_hash_axioms;

/// What a row stands for.
#[derive(Clone, Copy, Debug, PartialEq, Eq, Structural)]
pub enum LayerKind {
    Shape,
    Style,
    Mask,
    Group,
    Other,
}

/// How a layer row looks.
#[derive(Clone, Copy, Debug, PartialEq, Eq, Structural)]
pub enum RowLook {
    Selected,
    DropTarget,
    Plain,
}

impl Document {
    /// Whether `above` is an ancestor of `id`.
    pub fn is_ancestor(&self, above: NodeId, id: NodeId) -> (r: bool)
        requires
            self.wf(),
        ensures
            r == self.ancestors(id).contains(above),
    {
        let mut at = self.parent_of(id);
        let ghost all = self.ancestors(id);
        let ghost mut done: int = 0;
        assert(all.skip(0) =~= self.chain(at));
        while at.is_some()
            invariant
                self.wf(),
                all == self.ancestors(id),
                0 <= done <= all.len(),
                all.skip(done) == self.chain(at),
                forall|k: int| 0 <= k < done ==> all[k] != above,
            decreases
                    match at {
                        Some(p) => self.rank(p) + 1,
                        None => 0,
                    },
        {
            let p = at.unwrap();
            proof {
                assert(self.chain(at) == seq![p] + self.ancestors(p));
                assert(all.skip(done).len() >= 1);
                assert(all.skip(done)[0] == p);
                assert(all[done] == p);
            }
            if p == above {
                return true;
            }
            at = self.parent_of(p);
            proof {
                assert(all.skip(done + 1) =~= all.skip(done).drop_first());
                assert(all.skip(done).drop_first() =~= self.ancestors(p));
                done = done + 1;
            }
            assert(self.chain(at) =~= self.ancestors(p));
        }
        assert(all.skip(done).len() == 0);
        false
    }
}

/// How a row looks: a selected row before the one that a drag hovers over.
pub open spec fn row_look(selected: bool, hovered: bool) -> RowLook {
    if selected {
        RowLook::Selected
    } else if hovered {
        RowLook::DropTarget
    } else {
        RowLook::Plain
    }
}

impl Session {
    /// How the row number `index`, of the node `id`, looks.
    pub fn layer_row_look(&self, index: usize, id: NodeId) -> (r: RowLook)
        ensures
            r == row_look(
                self.selection@.contains(id),
                self.layer_drag matches Some(d) && d.hover_row == index && d.id != id,
            ),
    {
        if holds(&self.selection, id) {
            return RowLook::Selected;
        }
        match self.layer_drag {
            Some(d) => if d.hover_row == index && d.id != id {
                RowLook::DropTarget
            } else {
                RowLook::Plain
            },
            None => RowLook::Plain,
        }
    }

    /// The session with `id` selected alone, unless it was selected already.
    pub open spec fn picked_for_menu(self, after: Session, id: NodeId) -> bool {
        if self.selection@.contains(id) {
            after == self
        } else {
            &&& after.selection@ == seq![id]
            &&& after == (Session { selection: after.selection, ..self })
        }
    }

    /// Selects the row under a context menu, unless it is selected already.
    pub fn select_for_menu(&mut self, id: NodeId)
        ensures
            old(self).picked_for_menu(*final(self), id),
    {
        if !holds(&self.selection, id) {
            let mut one: Vec<NodeId> = Vec::new();
            one.push(id);
            self.selection = one;
        }
    }

    /// A press on a row ends a renaming that goes on. Its output: with Shift or Ctrl
    /// the row is put into the selection or taken out, else it is selected alone.
    pub fn press_layer_row(&mut self, doc: &Document, id: NodeId, shift: bool, ctrl: bool) -> (r: (
        Option<NameEdit>,
        ToolOutput,
    ))
        ensures
            old(self).renamed(*doc, r.0),
            if shift || ctrl {
                r.1 == ToolOutput::RequestSelection(SelectionChange::Toggle(id))
            } else {
                r.1 matches ToolOutput::RequestSelection(SelectionChange::Replace(ids)) && ids@
                    == seq![id]
            },
            *final(self) == (Session {
                revision: next_revision(old(self).rename_ended(*doc).revision),
                ..old(self).rename_ended(*doc)
            }),
    {
        let rename = self.commit_rename(doc);
        self.repaint();
        let out = if shift || ctrl {
            ToolOutput::RequestSelection(SelectionChange::Toggle(id))
        } else {
            let mut one: Vec<NodeId> = Vec::new();
            one.push(id);
            ToolOutput::RequestSelection(SelectionChange::Replace(one))
        };
        (rename, out)
    }

    /// Starts dragging the row number `index`. `window_y` and `row_y` are the bits of
    /// where the press was, in the window and in the row.
    pub fn begin_layer_drag(&mut self, id: NodeId, index: usize, window_y: u32, row_y: u32)
        ensures
            ({
                let drag = Some(
                    LayerDragState {
                        id,
                        hover_row: index,
                        before: true,
                        as_child: false,
                        press_window_y: window_y,
                        press_index: index,
                        grab_offset_y: row_y,
                    },
                );
                &&& final(self).selection@ == (if old(self).selection@.contains(id) {
                    old(self).selection@
                } else {
                    seq![id]
                })
                &&& *final(self) == (Session {
                    selection: final(self).selection,
                    layer_drag: drag,
                    revision: next_revision(old(self).revision),
                    ..*old(self)
                })
            }),
    {
        self.select_for_menu(id);
        self.layer_drag =
        Some(
            LayerDragState {
                id,
                hover_row: index,
                before: true,
                as_child: false,
                press_window_y: window_y,
                press_index: index,
                grab_offset_y: row_y,
            },
        );
        self.repaint();
    }

    /// A drag moves over the row number `index`. `upper_half` and `far_right` say
    /// where in the row; only a group takes the dragged node as a child.
    pub fn drag_layer_over(&mut self, index: usize, kind: LayerKind, upper_half: bool, far_right: bool)
        ensures
            *final(self) == (match old(self).layer_drag {
                None => *old(self),
                Some(d) => Session {
                    layer_drag: Some(
                        LayerDragState {
                            hover_row: index,
                            before: upper_half,
                            as_child: kind == LayerKind::Group && far_right,
                            ..d
                        },
                    ),
                    revision: next_revision(old(self).revision),
                    ..*old(self)
                },
            }),
    {
        if let Some(d) = self.layer_drag {
            self.layer_drag =
            Some(
                LayerDragState {
                    id: d.id,
                    hover_row: index,
                    before: upper_half,
                    as_child: kind == LayerKind::Group && far_right,
                    press_window_y: d.press_window_y,
                    press_index: d.press_index,
                    grab_offset_y: d.grab_offset_y,
                },
            );
            self.repaint();
        }
    }

    /// Whether a drag must not end on `target`: on itself, below itself, or next
    /// to something below itself.
    pub open spec fn drop_forbidden(
        doc: Document,
        drag: LayerDragState,
        target: NodeId,
        parent: Parent,
    ) -> bool {
        ||| drag.id == target
        ||| doc.ancestors(target).contains(drag.id)
        ||| parent matches Parent::Node(p) && (p == drag.id || doc.ancestors(p).contains(drag.id))
    }

    /// Ends a layer drag over the row of `target`, which hangs from the given
    /// parent. `drop` is the move that the row asks for, `noop` says that it would
    /// change nothing.
    pub fn finish_layer_drag(
        &mut self,
        doc: &Document,
        target: Option<(NodeId, Parent)>,
        drop: Option<EditorCommand>,
        noop: bool,
    ) -> (r: Option<Edit>)
        requires
            doc.wf(),
        ensures
            match (old(self).layer_drag, target, drop) {
                (None, _, _) => r is None && *final(self) == *old(self),
                (Some(drag), Some((id, parent)), Some(command)) if !noop
                    && !Session::drop_forbidden(*doc, drag, id, parent) => {
                    &&& crate::arrange::is_edit(r, "Reorder layer", seq![command])
                    &&& final(self).expanded_layers@ == (if drag.as_child {
                        old(self).expanded_layers@.insert(id)
                    } else {
                        old(self).expanded_layers@
                    })
                    &&& *final(self) == (Session {
                        layer_drag: None,
                        expanded_layers: final(self).expanded_layers,
                        ..*old(self)
                    })
                },
                _ => {
                    &&& r is None
                    &&& *final(self) == (Session {
                        layer_drag: None,
                        revision: next_revision(old(self).revision),
                        ..*old(self)
                    })
                },
            },
    {
        let drag = match self.layer_drag {
            Some(drag) => drag,
            None => {
                return None;
            },
        };
        self.layer_drag = None;
        if let Some((id, parent)) = target {
            let beside = match parent {
                Parent::Node(p) => p == drag.id || doc.is_ancestor(drag.id, p),
                Parent::Comp(_) => false,
            };
            let forbidden = drag.id == id || doc.is_ancestor(drag.id, id) || beside;
            if !forbidden && !noop {
                if let Some(command) = drop {
                    if drag.as_child {
                        self.expanded_layers.insert(id);
                    }
                    let mut commands: Vec<EditorCommand> = Vec::new();
                    commands.push(command);
                    return Some(Edit { label: "Reorder layer", commands, select: None });
                }
            }
        }
        self.repaint();
        None
    }

    /// Ends a layer drag on a row of the panel itself: only a drop into the
    /// dragged node's own subtree is ruled out here.
    pub fn release_layer_row(
        &mut self,
        doc: &Document,
        target: Option<NodeId>,
        drop: Option<EditorCommand>,
        noop: bool,
    ) -> (r: Option<Edit>)
        requires
            doc.wf(),
        ensures
            match (old(self).layer_drag, target, drop) {
                (None, _, _) => r is None && *final(self) == *old(self),
                (Some(drag), Some(id), Some(command)) if !noop && !(drag.as_child
                    && doc.ancestors(id).contains(drag.id)) => {
                    &&& crate::arrange::is_edit(r, "Reorder layer", seq![command])
                    &&& *final(self) == (Session { layer_drag: None, ..*old(self) })
                },
                _ => {
                    &&& r is None
                    &&& *final(self) == (Session {
                        layer_drag: None,
                        revision: next_revision(old(self).revision),
                        ..*old(self)
                    })
                },
            },
    {
        let drag = match self.layer_drag {
            Some(drag) => drag,
            None => {
                return None;
            },
        };
        self.layer_drag = None;
        if let Some(id) = target {
            let cyclic = drag.as_child && doc.is_ancestor(drag.id, id);
            if !cyclic && !noop {
                if let Some(command) = drop {
                    let mut commands: Vec<EditorCommand> = Vec::new();
                    commands.push(command);
                    return Some(Edit { label: "Reorder layer", commands, select: None });
                }
            }
        }
        self.repaint();
        None
    }

    /// Opens or closes a row.
    pub fn toggle_expanded(&mut self, id: NodeId)
        ensures
            final(self).expanded_layers@ == (if old(self).expanded_layers@.contains(id) {
                old(self).expanded_layers@.remove(id)
            } else {
                old(self).expanded_layers@.insert(id)
            }),
            *final(self) == (Session {
                expanded_layers: final(self).expanded_layers,
                revision: next_revision(old(self).revision),
                ..*old(self)
            }),
    {
        if self.expanded_layers.contains(&id) {
            self.expanded_layers.remove(&id);
        } else {
            self.expanded_layers.insert(id);
        }
        self.repaint();
    }

    /// Starts renaming a node that is there and not locked.
    pub fn begin_rename(&mut self, doc: &Document, id: NodeId, name: &str)
        ensures
            if doc.is_free(id) {
                &&& final(self).renaming matches Some((i, s)) && i == id && s@ == name@
                &&& *final(self) == (Session { renaming: final(self).renaming, ..*old(self) })
            } else {
                *final(self) == *old(self)
            },
    {
        if doc.free(id) {
            self.renaming = Some((id, name.to_owned()));
        }
    }

    /// The name that a node has, or nothing.
    pub open spec fn current_name(doc: Document, id: NodeId) -> Seq<char> {
        if doc.has(id) {
            doc.node(id).name@
        } else {
            Seq::empty()
        }
    }

    /// The new name that the draft of a renaming gives, if it is neither empty nor
    /// the old one.
    pub open spec fn drafted_name(&self, doc: Document) -> Option<Seq<char>> {
        match self.renaming {
            Some((id, draft)) => {
                let name = trimmed(draft@);
                if name.len() == 0 || name == Session::current_name(doc, id) {
                    None
                } else {
                    Some(name)
                }
            },
            None => None,
        }
    }

    /// Whether `r` gives the node that is renamed its new name, where there is one.
    pub open spec fn renamed(&self, doc: Document, r: Option<NameEdit>) -> bool {
        match self.drafted_name(doc) {
            Some(name) => r matches Some(e) && e.label == "Rename" && e.id == (self.renaming->0).0
                && e.name@ == name,
            None => r is None,
        }
    }

    /// The session once a renaming has ended.
    pub open spec fn rename_ended(self, doc: Document) -> Session {
        if self.renaming is None {
            self
        } else if self.drafted_name(doc) is None {
            Session { renaming: None, revision: next_revision(self.revision), ..self }
        } else {
            Session { renaming: None, ..self }
        }
    }

    /// Ends renaming. The new name, trimmed, where it is neither empty nor the
    /// old one.
    pub fn commit_rename(&mut self, doc: &Document) -> (r: Option<NameEdit>)
        ensures
            old(self).renamed(*doc, r),
            *final(self) == old(self).rename_ended(*doc),
    {
        let (id, draft) = match self.renaming.take() {
            Some(pair) => pair,
            None => {
                return None;
            },
        };
        let name = trim(&draft);
        let same = match doc.get(id) {
            Some(n) => same_text(name, &n.name),
            None => name.is_empty(),
        };
        if name.is_empty() || same {
            self.repaint();
            return None;
        }
        Some(NameEdit { label: "Rename", id, name: name.to_owned() })
    }

    pub fn cancel_rename(&mut self)
        ensures
            *final(self) == (if old(self).renaming is None {
                *old(self)
            } else {
                Session {
                    renaming: None,
                    revision: next_revision(old(self).revision),
                    ..*old(self)
                }
            }),
    {
        if self.renaming.is_none() {
            return ;
        }
        self.renaming = None;
        self.repaint();
    }

    /// The draft of the name changed in the field.
    pub fn draft_rename(&mut self, text: &str)
        ensures
            match old(self).renaming {
                None => *final(self) == (Session {
                    revision: next_revision(old(self).revision),
                    ..*old(self)
                }),
                Some((id, _)) => {
                    &&& final(self).renaming matches Some((i, s)) && i == id && s@ == text@
                    &&& *final(self) == (Session {
                        renaming: final(self).renaming,
                        revision: next_revision(old(self).revision),
                        ..*old(self)
                    })
                },
            },
    {
        if let Some((id, _)) = self.renaming.take() {
            self.renaming = Some((id, text.to_owned()));
        }
        self.repaint();
    }
}

/// What a node is called, or `key` where it is gone.
pub fn node_name(doc: &Document, id: NodeId, key: &str) -> (r: String)
    ensures
        r@ == (if doc.has(id) {
            doc.node(id).name@
        } else {
            key@
        }),
{
    match doc.get(id) {
        Some(n) => n.name.clone(),
        None => key.to_owned(),
    }
}

/// Whether a row has a chevron that folds what is below it.
pub fn has_chevron(kind: LayerKind, children: usize) -> (r: bool)
    ensures
        r == (kind == LayerKind::Group && children > 0),
{
    kind == LayerKind::Group && children > 0
}

/// The step that shows or hides a layer; `command` sets the opposite of what is.
pub fn toggle_visibility(command: EditorCommand) -> (r: Edit)
    ensures
        r.carries("Visibility", seq![command]),
{
    Edit::single("Visibility", command)
}

/// The step that locks or unlocks a layer; `command` sets the opposite of what is.
pub fn toggle_lock(command: EditorCommand) -> (r: Edit)
    ensures
        r.carries("Lock", seq![command]),
{
    Edit::single("Lock", command)
}

} // verus!
