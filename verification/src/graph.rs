//! The machine graph: what a press, a drag and a release on it do, and how the
//! session follows the edits of its active machine.
use vstd::prelude::*;

use crate::commands::{Applied, Edit, EditorCommand, Message};
use crate::machine::{
    selectable, source_count, state_count, stray_transition, ClipId, InputKind, Machine, MachineId,
    MachineSelection, TransitionSource,
};
use crate::model::{Document, Handle, NodeId};
use crate::seqs::{lemma_filter_ends, lemma_filter_step};
use crate::session::{
    next_revision, reads, EditorMode, EngineSwitch, GraphPoint, MachineGraphGesture, Session,
};
use crate::strings::{joined, trim, trimmed};
use crate::timeline::{in_range, HeadPlace};

verus! {

#[derive(Clone, Copy, Debug, PartialEq, Eq, Structural)]
pub enum PointerButton {
    Primary,
    Secondary,
    Tertiary,
}

/// Two presses are a double click when less than 350 milliseconds pass between them
/// and, as the host has measured, they are close together in place.
pub open spec fn double_click(elapsed_ms: Option<u64>, near: bool) -> bool {
    elapsed_ms matches Some(ms) && ms < 350 && near
}

/// Whether a press is the second of a double click.
pub fn is_double_click(elapsed_ms: Option<u64>, near: bool) -> (r: bool)
    ensures
        r == double_click(elapsed_ms, near),
{
    match elapsed_ms {
        Some(ms) => ms < 350 && near,
        None => false,
    }
}

/// An edit of the active machine.
#[derive(Clone, Copy, Debug, PartialEq, Eq, Structural)]
pub enum MachineChange {
    AddState,
    AddLayer,
    AddInput,
    AddListener,
    AddTransition,
    AddCondition,
    AddBlendChild,
    RenameMachine,
    RenameState,
    RenameLayer,
    RenameInput,
    ChangeState,
    MoveState,
    EntryState,
    BlendChildClip,
    EditCondition,
    InputDefault,
    RetargetTransition,
    TransitionExit,
    DeleteState,
    DeleteLayer,
    RemoveTransition,
    RemoveCondition,
    RemoveInput,
    RemoveListener,
    RemoveBlendChild,
}

/// The name of the undo step of a machine edit.
pub open spec fn change_text(change: MachineChange) -> &'static str {
    match change {
        MachineChange::AddState => "Add state",
        MachineChange::AddLayer => "Add layer",
        MachineChange::AddInput => "Add input",
        MachineChange::AddListener => "Add listener",
        MachineChange::AddTransition => "Add transition",
        MachineChange::AddCondition => "Add condition",
        MachineChange::AddBlendChild => "Add blend child",
        MachineChange::RenameMachine => "Rename machine",
        MachineChange::RenameState => "Rename state",
        MachineChange::RenameLayer => "Rename layer",
        MachineChange::RenameInput => "Rename input",
        MachineChange::ChangeState => "Change state",
        MachineChange::MoveState => "Move state",
        MachineChange::EntryState => "Set entry",
        MachineChange::BlendChildClip => "Blend child clip",
        MachineChange::EditCondition => "Edit condition",
        MachineChange::InputDefault => "Input default",
        MachineChange::RetargetTransition => "Retarget transition",
        MachineChange::TransitionExit => "Transition exit",
        MachineChange::DeleteState => "Delete state",
        MachineChange::DeleteLayer => "Delete layer",
        MachineChange::RemoveTransition => "Remove transition",
        MachineChange::RemoveCondition => "Remove condition",
        MachineChange::RemoveInput => "Remove input",
        MachineChange::RemoveListener => "Remove listener",
        MachineChange::RemoveBlendChild => "Remove blend child",
    }
}

/// The name of the undo step of a machine edit.
pub fn machine_change_label(change: MachineChange) -> (r: &'static str)
    ensures
        r == change_text(change),
{
    match change {
        MachineChange::AddState => "Add state",
        MachineChange::AddLayer => "Add layer",
        MachineChange::AddInput => "Add input",
        MachineChange::AddListener => "Add listener",
        MachineChange::AddTransition => "Add transition",
        MachineChange::AddCondition => "Add condition",
        MachineChange::AddBlendChild => "Add blend child",
        MachineChange::RenameMachine => "Rename machine",
        MachineChange::RenameState => "Rename state",
        MachineChange::RenameLayer => "Rename layer",
        MachineChange::RenameInput => "Rename input",
        MachineChange::ChangeState => "Change state",
        MachineChange::MoveState => "Move state",
        MachineChange::EntryState => "Set entry",
        MachineChange::BlendChildClip => "Blend child clip",
        MachineChange::EditCondition => "Edit condition",
        MachineChange::InputDefault => "Input default",
        MachineChange::RetargetTransition => "Retarget transition",
        MachineChange::TransitionExit => "Transition exit",
        MachineChange::DeleteState => "Delete state",
        MachineChange::DeleteLayer => "Delete layer",
        MachineChange::RemoveTransition => "Remove transition",
        MachineChange::RemoveCondition => "Remove condition",
        MachineChange::RemoveInput => "Remove input",
        MachineChange::RemoveListener => "Remove listener",
        MachineChange::RemoveBlendChild => "Remove blend child",
    }
}

/// A clip that has no tracks and no events yet.
#[derive(Debug)]
pub struct BlankClip {
    pub name: String,
    pub range: (i64, i64),
}

/// A new clip: sixty frames long.
pub fn blank_clip(name: String) -> (r: BlankClip)
    ensures
        r == (BlankClip { name, range: (0, 60) }),
{
    BlankClip { name, range: (0, 60) }
}

/// The step that creates a clip, which the host keeps under a number; the reply goes
/// to `create_clip`.
pub fn create_clip_edit(clip: Handle) -> (r: Edit)
    ensures
        r.carries("Create clip", seq![EditorCommand::CreateClip { index: usize::MAX, clip }]),
{
    Edit::single("Create clip", EditorCommand::CreateClip { index: usize::MAX, clip })
}

/// The step that creates a machine, which the host keeps under a number; the reply
/// goes to `create_machine`.
pub fn create_machine_edit(machine: Handle) -> (r: Edit)
    ensures
        r.carries(
            "Create machine",
            seq![EditorCommand::CreateMachine { index: usize::MAX, machine }],
        ),
{
    Edit::single("Create machine", EditorCommand::CreateMachine { index: usize::MAX, machine })
}

/// A press on the machine graph, with what lies under it. `offset` is how far it
/// is from the corner of the state under it.
#[derive(Clone, Copy, Debug)]
pub struct GraphPress {
    pub position: GraphPoint,
    pub button: PointerButton,
    pub shift: bool,
    pub space_held: bool,
    pub double: bool,
    pub any: Option<usize>,
    pub state: Option<(usize, usize)>,
    pub transition: Option<(usize, TransitionSource, usize)>,
    pub offset: GraphPoint,
}

/// What the host does about a press on the graph.
#[derive(Clone, Copy, Debug, PartialEq, Eq, Structural)]
pub enum GraphPressed {
    Nothing,
    /// Add a state to this layer, where the press was.
    AddState { layer: usize },
}

/// What the host does about a release on the graph.
#[derive(Clone, Copy, Debug, PartialEq, Eq, Structural)]
pub enum GraphReleased {
    Nothing,
    AddTransition { layer: usize, source: TransitionSource, to: usize },
    MoveState { layer: usize, state: usize, offset: GraphPoint, current: GraphPoint },
}

impl GraphPress {
    /// Whether the press starts to pan.
    pub open spec fn pans(&self) -> bool {
        self.button == PointerButton::Tertiary || (self.button == PointerButton::Primary
            && self.space_held)
    }

    /// What the press selects, and in which layer.
    pub open spec fn selects(&self) -> (MachineSelection, Option<usize>) {
        match (self.any, self.state, self.transition) {
            (Some(layer), _, _) => (MachineSelection::Layer { layer }, Some(layer)),
            (None, Some((layer, state)), _) => (
                MachineSelection::State { layer, state },
                Some(layer),
            ),
            (None, None, Some((layer, source, transition))) => (
                MachineSelection::Transition { layer, source, transition },
                Some(layer),
            ),
            (None, None, None) => (MachineSelection::Nothing, None),
        }
    }

    /// The gesture that the press starts: with Shift a wire from the node under
    /// it, else with the primary button a drag of the state under it.
    pub open spec fn starts(&self) -> Option<MachineGraphGesture> {
        match (self.any, self.state) {
            (Some(layer), _) => if self.shift {
                Some(
                    MachineGraphGesture::WireTransition {
                        layer,
                        from_state: None,
                        current: self.position,
                    },
                )
            } else {
                None
            },
            (None, Some((layer, state))) => if self.shift {
                Some(
                    MachineGraphGesture::WireTransition {
                        layer,
                        from_state: Some(state),
                        current: self.position,
                    },
                )
            } else if self.button == PointerButton::Primary {
                Some(
                    MachineGraphGesture::DragState {
                        layer,
                        state,
                        offset: self.offset,
                        current: self.position,
                    },
                )
            } else {
                None
            },
            _ => None,
        }
    }
}

impl Session {
    /// A press on the machine graph.
    pub fn handle_graph_down(&mut self, press: &GraphPress) -> (r: GraphPressed)
        ensures
            if press.pans() {
                &&& r == GraphPressed::Nothing
                &&& *final(self) == (Session {
                    machine_graph_gesture: Some(
                        MachineGraphGesture::Pan { last: press.position },
                    ),
                    ..*old(self)
                })
            } else if press.double {
                &&& *final(self) == *old(self)
                &&& r == (if press.state is None && press.any is None {
                    GraphPressed::AddState { layer: old(self).aimed_layer() }
                } else {
                    GraphPressed::Nothing
                })
            } else {
                &&& r == GraphPressed::Nothing
                &&& *final(self) == (Session {
                    machine_selection: press.selects().0,
                    active_machine_layer: match press.selects().1 {
                        Some(layer) => layer,
                        None => old(self).active_machine_layer,
                    },
                    machine_graph_gesture: press.starts(),
                    ..*old(self)
                })
            },
    {
        let primary = press.button == PointerButton::Primary;
        if press.button == PointerButton::Tertiary || (primary && press.space_held) {
            self.machine_graph_gesture = Some(MachineGraphGesture::Pan { last: press.position });
            return GraphPressed::Nothing;
        }
        if press.double {
            if press.state.is_none() && press.any.is_none() {
                return GraphPressed::AddState { layer: self.target_layer() };
            }
            return GraphPressed::Nothing;
        }
        self.machine_graph_gesture = None;
        if let Some(layer) = press.any {
            self.machine_selection = MachineSelection::Layer { layer };
            self.active_machine_layer = layer;
            if press.shift {
                self.machine_graph_gesture =
                Some(
                    MachineGraphGesture::WireTransition {
                        layer,
                        from_state: None,
                        current: press.position,
                    },
                );
            }
        } else if let Some((layer, state)) = press.state {
            self.machine_selection = MachineSelection::State { layer, state };
            self.active_machine_layer = layer;
            if press.shift {
                self.machine_graph_gesture =
                Some(
                    MachineGraphGesture::WireTransition {
                        layer,
                        from_state: Some(state),
                        current: press.position,
                    },
                );
            } else if primary {
                self.machine_graph_gesture =
                Some(
                    MachineGraphGesture::DragState {
                        layer,
                        state,
                        offset: press.offset,
                        current: press.position,
                    },
                );
            }
        } else if let Some((layer, source, transition)) = press.transition {
            self.machine_selection = MachineSelection::Transition { layer, source, transition };
            self.active_machine_layer = layer;
        } else {
            self.machine_selection = MachineSelection::Nothing;
        }
        GraphPressed::Nothing
    }

    /// A move on the machine graph. While panning, says from where the view moves
    /// along.
    pub fn handle_graph_move(&mut self, position: GraphPoint) -> (pan_from: Option<GraphPoint>)
        ensures
            pan_from == (match old(self).machine_graph_gesture {
                Some(MachineGraphGesture::Pan { last }) => Some(last),
                _ => None,
            }),
            *final(self) == (Session {
                machine_graph_gesture: moved(old(self).machine_graph_gesture, position),
                ..*old(self)
            }),
    {
        match self.machine_graph_gesture {
            Some(MachineGraphGesture::WireTransition { layer, from_state, .. }) => {
                self.machine_graph_gesture =
                Some(
                    MachineGraphGesture::WireTransition { layer, from_state, current: position },
                );
                None
            },
            Some(MachineGraphGesture::Pan { last }) => {
                self.machine_graph_gesture = Some(MachineGraphGesture::Pan { last: position });
                Some(last)
            },
            Some(MachineGraphGesture::DragState { layer, state, offset, .. }) => {
                self.machine_graph_gesture =
                Some(
                    MachineGraphGesture::DragState { layer, state, offset, current: position },
                );
                None
            },
            None => None,
        }
    }

    /// A release on the machine graph, over the state `state`, if one is there.
    pub fn handle_graph_up(&mut self, state: Option<(usize, usize)>) -> (r: GraphReleased)
        ensures
            r == released(old(self).machine_graph_gesture, state),
            *final(self) == (match old(self).machine_graph_gesture {
                Some(MachineGraphGesture::DragState { layer, state, .. }) => Session {
                    machine_graph_gesture: None,
                    machine_selection: MachineSelection::State { layer, state },
                    active_machine_layer: layer,
                    ..*old(self)
                },
                _ => Session { machine_graph_gesture: None, ..*old(self) },
            }),
    {
        let gesture = self.machine_graph_gesture;
        self.machine_graph_gesture = None;
        match gesture {
            Some(MachineGraphGesture::WireTransition { layer, from_state, .. }) => {
                if let Some((to_layer, to)) = state {
                    if to_layer == layer {
                        match from_state {
                            Some(from) => {
                                if from != to {
                                    return GraphReleased::AddTransition {
                                        layer,
                                        source: TransitionSource::State(from),
                                        to,
                                    };
                                }
                            },
                            None => {
                                return GraphReleased::AddTransition {
                                    layer,
                                    source: TransitionSource::Any,
                                    to,
                                };
                            },
                        }
                    }
                }
                GraphReleased::Nothing
            },
            Some(MachineGraphGesture::DragState { layer, state, offset, current }) => {
                self.machine_selection = MachineSelection::State { layer, state };
                self.active_machine_layer = layer;
                GraphReleased::MoveState { layer, state, offset, current }
            },
            _ => GraphReleased::Nothing,
        }
    }

    /// A gesture on the graph that was cut short.
    pub fn handle_graph_cancel(&mut self)
        ensures
            *final(self) == (Session { machine_graph_gesture: None, ..*old(self) }),
    {
        self.machine_graph_gesture = None;
    }

    /// Selects the state that was just added to `layer` of `machine`.
    pub fn state_added(&mut self, machine: Option<&Machine>, layer: usize)
        ensures
            match machine {
                Some(m) if layer < m.layers@.len() => *final(self) == (Session {
                    machine_selection: MachineSelection::State {
                        layer,
                        state: last_of(state_count(*m, layer)),
                    },
                    active_machine_layer: layer,
                    ..*old(self)
                }),
                _ => *final(self) == *old(self),
            },
    {
        if let Some(m) = machine {
            if layer < m.layers.len() {
                let n: usize = m.layers[layer].states.len();
                let state: usize = if n == 0 {
                    0
                } else {
                    n - 1
                };
                self.machine_selection = MachineSelection::State { layer, state };
                self.active_machine_layer = layer;
            }
        }
    }

    /// Selects the transition that was just added, and makes its layer the active
    /// one where it was drawn on the graph.
    pub fn transition_added(
        &mut self,
        machine: Option<&Machine>,
        layer: usize,
        source: TransitionSource,
        drawn: bool,
    )
        requires
            machine matches Some(m) ==> layer < m.layers@.len(),
        ensures
            match machine {
                Some(m) => *final(self) == (Session {
                    machine_selection: MachineSelection::Transition {
                        layer,
                        source,
                        transition: last_of(source_count(m.layers@[layer as int], source)),
                    },
                    active_machine_layer: if drawn {
                        layer
                    } else {
                        old(self).active_machine_layer
                    },
                    ..*old(self)
                }),
                None => *final(self) == *old(self),
            },
    {
        if let Some(m) = machine {
            let n: usize = m.transition_count(layer, source);
            let transition: usize = if n == 0 {
                0
            } else {
                n - 1
            };
            self.machine_selection = MachineSelection::Transition { layer, source, transition };
            if drawn {
                self.active_machine_layer = layer;
            }
        }
    }

    /// Takes the edited machine, which the host keeps under a number, or the
    /// reason why it could not be edited. `known` says whether the active machine
    /// is there. With an undo step the host then brings a running preview up to
    /// date.
    pub fn edit_active_machine(
        &mut self,
        change: MachineChange,
        known: bool,
        edited: Result<Handle, String>,
    ) -> (r: Option<Edit>)
        ensures
            match (old(self).active_machine, edited) {
                (Some(id), Ok(machine)) if known => {
                    &&& *final(self) == *old(self)
                    &&& crate::arrange::is_edit(
                        r,
                        change_text(change),
                        seq![EditorCommand::ReplaceMachine { id, machine }],
                    )
                },
                (Some(_), Err(e)) if known => {
                    &&& r is None
                    &&& reads(final(self).status, "Machine edit failed: "@ + e@)
                    &&& *final(self) == (Session {
                        status: final(self).status,
                        revision: next_revision(old(self).revision),
                        ..*old(self)
                    })
                },
                _ => r is None && *final(self) == *old(self),
            },
    {
        let id = match self.active_machine {
            Some(id) => id,
            None => {
                return None;
            },
        };
        if !known {
            return None;
        }
        match edited {
            Ok(machine) => {
                let command = EditorCommand::ReplaceMachine { id, machine };
                Some(Edit::single(machine_change_label(change), command))
            },
            Err(error) => {
                self.status = Some(Message::Built(joined("Machine edit failed: ", &error)));
                self.repaint();
                None
            },
        }
    }

    /// The name that the active machine gets; none where nothing is left of it
    /// after trimming.
    pub fn rename_active_machine<'a>(&self, name: &'a str) -> (r: Option<&'a str>)
        ensures
            match r {
                Some(s) => s@ == trimmed(name@) && s@.len() > 0,
                None => trimmed(name@).len() == 0,
            },
    {
        let name = trim(name);
        if name.is_empty() {
            None
        } else {
            Some(name)
        }
    }

    /// What is removed when the machine selection is deleted, and by which edit.
    pub fn delete_machine_selection(&self) -> (r: Option<(MachineChange, MachineSelection)>)
        ensures
            r == (match self.machine_selection {
                MachineSelection::State { .. } => Some(
                    (MachineChange::DeleteState, self.machine_selection),
                ),
                MachineSelection::Transition { .. } => Some(
                    (MachineChange::RemoveTransition, self.machine_selection),
                ),
                _ => None,
            }),
    {
        match self.machine_selection {
            MachineSelection::State { .. } => Some(
                (MachineChange::DeleteState, self.machine_selection),
            ),
            MachineSelection::Transition { .. } => Some(
                (MachineChange::RemoveTransition, self.machine_selection),
            ),
            _ => None,
        }
    }

    /// Clears the machine selection after what it named was removed. A removed
    /// layer makes the first one active.
    pub fn machine_part_removed(&mut self, layer_removed: bool)
        ensures
            *final(self) == (Session {
                machine_selection: MachineSelection::Nothing,
                active_machine_layer: if layer_removed {
                    0
                } else {
                    old(self).active_machine_layer
                },
                ..*old(self)
            }),
    {
        self.machine_selection = MachineSelection::Nothing;
        if layer_removed {
            self.active_machine_layer = 0;
        }
    }

    /// Takes the reply to the creation of a clip, its transaction committed. `clips`
    /// are the clips there are now, of which the last is the new one.
    pub fn create_clip(&mut self, reply: Result<Applied, String>, clips: &Vec<ClipId>) -> (r: Option<
        ClipId,
    >)
        ensures
            r == (if clips@.len() > 0 {
                Some(clips@.last())
            } else {
                None
            }),
            match reply {
                Ok(_) => final(self).status == old(self).status,
                Err(e) => reads(final(self).status, "Edit failed: "@ + e@),
            },
            *final(self) == (Session {
                dirty: true,
                status: final(self).status,
                revision: next_revision(old(self).revision),
                ..*old(self)
            }),
    {
        let _ = self.history_apply_full(reply);
        self.dirty = true;
        self.repaint();
        if clips.len() > 0 {
            Some(clips[clips.len() - 1])
        } else {
            None
        }
    }

    /// Takes the reply to the creation of a machine, its transaction committed.
    /// `has_start` says whether a start machine is set, `kinds` are the new
    /// machine's inputs. The command that makes the machine the start machine,
    /// where there is none, and what the engine plays.
    pub fn create_machine(
        &mut self,
        reply: Result<Applied, String>,
        has_start: bool,
        kinds: Option<&Vec<InputKind>>,
    ) -> (r: (Option<EditorCommand>, EngineSwitch))
        ensures
            match reply {
                Ok(Applied { created_machine: Some(machine), .. }) => {
                    &&& r.0 == (if has_start {
                        None
                    } else {
                        Some(EditorCommand::SetStartMachine { start: Some(machine) })
                    })
                    &&& (Session {
                        dirty: true,
                        active_machine: Some(machine),
                        machine_selection: MachineSelection::Nothing,
                        active_machine_layer: 0,
                        machine_preview_enabled: old(self).machine_preview_enabled || old(self).mode
                            == EditorMode::Interact,
                        ..*old(self)
                    }).preview_reset(
                        match kinds {
                            Some(v) => Some(v@),
                            None => None,
                        },
                        *final(self),
                        r.1,
                        true,
                    )
                },
                Ok(_) => {
                    &&& r == (None::<EditorCommand>, EngineSwitch::Leave)
                    &&& *final(self) == (Session {
                        dirty: true,
                        revision: next_revision(old(self).revision),
                        ..*old(self)
                    })
                },
                Err(e) => {
                    &&& r == (None::<EditorCommand>, EngineSwitch::Leave)
                    &&& reads(final(self).status, "Edit failed: "@ + e@)
                    &&& *final(self) == (Session {
                        status: final(self).status,
                        revision: next_revision(old(self).revision),
                        ..*old(self)
                    })
                },
            },
    {
        let created = match self.history_apply_full(reply) {
            Some(applied) => applied.created_machine,
            None => None,
        };
        let mut start: Option<EditorCommand> = None;
        let mut switch = EngineSwitch::Leave;
        if let Some(machine) = created {
            self.active_machine = Some(machine);
            self.machine_selection = MachineSelection::Nothing;
            self.active_machine_layer = 0;
            if !has_start {
                start = Some(EditorCommand::SetStartMachine { start: Some(machine) });
            }
            if self.mode == EditorMode::Interact {
                self.machine_preview_enabled = true;
            }
            switch = self.reset_machine_preview(kinds);
        }
        self.repaint();
        (start, switch)
    }

    /// The undo step that removes the active machine, where `listed` says that
    /// the project has it.
    pub fn remove_active_machine(&self, listed: bool) -> (r: Option<Edit>)
        ensures
            match self.active_machine {
                Some(id) if listed => crate::arrange::is_edit(
                    r,
                    "Remove machine",
                    seq![EditorCommand::DetachMachine { id }],
                ),
                _ => r is None,
            },
    {
        match self.active_machine {
            Some(id) => {
                if !listed {
                    return None;
                }
                let mut commands: Vec<EditorCommand> = Vec::new();
                commands.push(EditorCommand::DetachMachine { id });
                Some(Edit { label: "Remove machine", commands, select: None })
            },
            None => None,
        }
    }

    /// Picks the active machine after one was removed: the start machine, else the
    /// first, which then becomes the start machine by an undo step of its own.
    pub fn machine_removed(&mut self, start: Option<MachineId>, first: Option<MachineId>) -> (r:
        Option<Edit>)
        ensures
            match (start, first) {
                (None, Some(id)) => crate::arrange::is_edit(
                    r,
                    "Set start machine",
                    seq![EditorCommand::SetStartMachine { start: Some(id) }],
                ),
                _ => r is None,
            },
            *final(self) == (Session {
                active_machine: if start is Some {
                    start
                } else {
                    first
                },
                machine_selection: MachineSelection::Nothing,
                active_machine_layer: 0,
                ..*old(self)
            }),
    {
        self.active_machine = if start.is_some() {
            start
        } else {
            first
        };
        self.machine_selection = MachineSelection::Nothing;
        self.active_machine_layer = 0;
        if start.is_none() {
            if let Some(id) = first {
                let mut commands: Vec<EditorCommand> = Vec::new();
                commands.push(EditorCommand::SetStartMachine { start: Some(id) });
                return Some(Edit { label: "Set start machine", commands, select: None });
            }
        }
        None
    }

    /// The undo step that makes the active machine the start machine.
    pub fn set_active_as_start_machine(&self, start: Option<MachineId>) -> (r: Option<Edit>)
        ensures
            match self.active_machine {
                Some(id) if start != Some(id) => crate::arrange::is_edit(
                    r,
                    "Set start machine",
                    seq![EditorCommand::SetStartMachine { start: Some(id) }],
                ),
                _ => r is None,
            },
    {
        match self.active_machine {
            Some(id) => {
                let already = match start {
                    Some(s) => s == id,
                    None => false,
                };
                if already {
                    return None;
                }
                let mut commands: Vec<EditorCommand> = Vec::new();
                commands.push(EditorCommand::SetStartMachine { start: Some(id) });
                Some(Edit { label: "Set start machine", commands, select: None })
            },
            None => None,
        }
    }

    /// Switches the preview on or off.
    pub fn toggle_preview(&mut self, kinds: Option<&Vec<InputKind>>) -> (switch: EngineSwitch)
        ensures
            (Session {
                machine_preview_enabled: !old(self).machine_preview_enabled,
                ..*old(self)
            }).preview_reset(
                match kinds {
                    Some(v) => Some(v@),
                    None => None,
                },
                *final(self),
                switch,
                false,
            ),
    {
        self.machine_preview_enabled = !self.machine_preview_enabled;
        self.reset_machine_preview(kinds)
    }

    /// Follows an undo or a redo that worked: what is gone is not selected any
    /// more. `machine` is the active machine.
    fn history_moved(&mut self, doc: &Document, machine: Option<&Machine>)
        ensures
            history_followed(*old(self), *doc, machine, *final(self)),
    {
        self.dirty = true;
        let ghost keep = |id: NodeId| doc.attached(id);
        let mut kept: Vec<NodeId> = Vec::new();
        let mut i: usize = 0;
        proof {
            lemma_filter_ends(self.selection@, keep);
        }
        while i < self.selection.len()
            invariant
                i <= self.selection@.len(),
                keep == |id: NodeId| doc.attached(id),
                kept@ == self.selection@.take(i as int).filter(keep),
            decreases self.selection.len() - i,
        {
            proof {
                lemma_filter_step(self.selection@, i as int, keep);
            }
            if doc.node_is_attached(self.selection[i]) {
                kept.push(self.selection[i]);
            }
            i = i + 1;
        }
        self.selection = kept;
        self.validate_machine_selection(machine);
    }

    /// Follows an undo, which worked where `moved`: what is gone is not selected any
    /// more, and the transport takes over the main composition's range. Says whether
    /// the host drops the key selections that are gone.
    pub fn undo_cmd(
        &mut self,
        moved: bool,
        doc: &Document,
        machine: Option<&Machine>,
        range: (i64, i64),
        place: HeadPlace,
    ) -> (drop_keys: bool)
        ensures
            drop_keys == moved,
            final(self).playback == in_range(old(self).playback, range, place),
            ({
                let rest = Session { playback: old(self).playback, ..*final(self) };
                if moved {
                    history_followed(*old(self), *doc, machine, rest)
                } else {
                    rest == *old(self)
                }
            }),
    {
        if moved {
            self.history_moved(doc, machine);
        }
        self.sync_playback_range(range, place);
        moved
    }

    /// Follows a redo, which worked where `moved`, as `undo_cmd` follows an undo.
    pub fn redo_cmd(
        &mut self,
        moved: bool,
        doc: &Document,
        machine: Option<&Machine>,
        range: (i64, i64),
        place: HeadPlace,
    ) -> (drop_keys: bool)
        ensures
            drop_keys == moved,
            final(self).playback == in_range(old(self).playback, range, place),
            ({
                let rest = Session { playback: old(self).playback, ..*final(self) };
                if moved {
                    history_followed(*old(self), *doc, machine, rest)
                } else {
                    rest == *old(self)
                }
            }),
    {
        if moved {
            self.history_moved(doc, machine);
        }
        self.sync_playback_range(range, place);
        moved
    }
}

/// What an undo or a redo that worked does to the session: the document is unsaved,
/// what is no longer attached is not selected, and neither is what the active machine
/// does not have.
pub open spec fn history_followed(
    before: Session,
    doc: Document,
    machine: Option<&Machine>,
    after: Session,
) -> bool {
    let kept = Session { dirty: true, selection: after.selection, ..before };
    &&& after.selection@ == before.selection@.filter(|id: NodeId| doc.attached(id))
    &&& match (kept.active_machine, machine) {
        (Some(_), Some(m)) => after == (Session {
            active_machine_layer: if kept.active_machine_layer < m.layers@.len() {
                kept.active_machine_layer
            } else {
                last_of(m.layers@.len())
            },
            machine_selection: if selectable(*m, kept.machine_selection) || stray_transition(
                *m,
                kept.machine_selection,
            ) {
                kept.machine_selection
            } else {
                MachineSelection::Nothing
            },
            ..kept
        }),
        _ => after == (Session {
            active_machine_layer: 0,
            machine_selection: MachineSelection::Nothing,
            ..kept
        }),
    }
}

/// The last of `n` places; the first where there are none.
pub open spec fn last_of(n: nat) -> usize {
    if n == 0 {
        0
    } else {
        (n - 1) as usize
    }
}

/// The gesture after the pointer moved.
pub open spec fn moved(gesture: Option<MachineGraphGesture>, position: GraphPoint) -> Option<
    MachineGraphGesture,
> {
    match gesture {
        Some(MachineGraphGesture::WireTransition { layer, from_state, .. }) => Some(
            MachineGraphGesture::WireTransition { layer, from_state, current: position },
        ),
        Some(MachineGraphGesture::Pan { .. }) => Some(MachineGraphGesture::Pan { last: position }),
        Some(MachineGraphGesture::DragState { layer, state, offset, .. }) => Some(
            MachineGraphGesture::DragState { layer, state, offset, current: position },
        ),
        None => None,
    }
}

/// What the end of a gesture over a state asks for. A wire ends on another state
/// of its own layer; from the Any node it may end on each.
pub open spec fn released(
    gesture: Option<MachineGraphGesture>,
    over: Option<(usize, usize)>,
) -> GraphReleased {
    match gesture {
        Some(MachineGraphGesture::WireTransition { layer, from_state, .. }) => match over {
            Some((to_layer, to)) if to_layer == layer => match from_state {
                Some(from) => if from != to {
                    GraphReleased::AddTransition {
                        layer,
                        source: TransitionSource::State(from),
                        to,
                    }
                } else {
                    GraphReleased::Nothing
                },
                None => GraphReleased::AddTransition { layer, source: TransitionSource::Any, to },
            },
            _ => GraphReleased::Nothing,
        },
        Some(MachineGraphGesture::DragState { layer, state, offset, current }) =>
            GraphReleased::MoveState { layer, state, offset, current },
        _ => GraphReleased::Nothing,
    }
}

} // verus!
