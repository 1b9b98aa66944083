//! State machines as the editor reads and edits them. Numbers that are not whole
//! are carried by their bits.
use vstd::prelude::*;

use crate::model::NodeId;
use crate::session::{LoopMode, PointerEventKind, Session};
use crate::strings::{append_decimal, decimal};

verus! {

/// A machine's key.
pub type MachineId = u64;

/// A clip's key.
pub type ClipId = u64;

/// The bits of the number one.
pub const ONE: u64 = 0x3ff0_0000_0000_0000;

/// What a machine input is, with the value it starts from.
#[allow(inconsistent_fields)]
#[derive(Clone, Copy, Debug, PartialEq, Eq, Structural)]
pub enum InputKind {
    Bool { default: bool },
    Number { default: u64 },
    Trigger,
}

/// A live value of a machine input.
#[derive(Clone, Copy, Debug, PartialEq, Eq, Structural)]
pub enum InputValue {
    Bool(bool),
    Number(u64),
    Trigger { fired: bool },
}

#[derive(Debug)]
pub struct InputDef {
    pub name: String,
    pub kind: InputKind,
}

/// How a condition compares a number.
#[derive(Clone, Copy, Debug, PartialEq, Eq, Structural)]
pub enum Comparison {
    Eq,
    Ne,
    Lt,
    Le,
    Gt,
    Ge,
}

#[allow(inconsistent_fields)]
#[derive(Clone, Copy, Debug, PartialEq, Eq, Structural)]
pub enum Condition {
    BoolIs { input: usize, value: bool },
    Number { input: usize, op: Comparison, value: u64 },
    Triggered { input: usize },
}

#[derive(Debug)]
pub struct Transition {
    pub to: usize,
    pub duration: u64,
    pub exit_time: Option<u64>,
    pub conditions: Vec<Condition>,
}

#[derive(Clone, Copy, Debug, PartialEq, Eq, Structural)]
pub struct BlendChild {
    pub threshold: u64,
    pub clip: ClipId,
}

#[derive(Debug)]
pub enum StateKind {
    Empty,
    Clip { clip: ClipId, speed: u64, loop_mode: LoopMode },
    Blend1D { input: usize, children: Vec<BlendChild> },
}

#[derive(Debug)]
pub struct State {
    pub name: String,
    pub kind: StateKind,
    pub transitions: Vec<Transition>,
    pub graph_pos: Option<(u64, u64)>,
}

#[derive(Debug)]
pub struct MachineLayer {
    pub name: String,
    pub entry: usize,
    pub any_transitions: Vec<Transition>,
    pub states: Vec<State>,
}

/// What a listener does to an input.
#[allow(inconsistent_fields)]
#[derive(Clone, Copy, Debug, PartialEq, Eq, Structural)]
pub enum ListenerAction {
    SetBool { input: usize, value: bool },
    ToggleBool { input: usize },
    SetNumber { input: usize, value: u64 },
    FireTrigger { input: usize },
}

#[derive(Clone, Copy, Debug, PartialEq, Eq, Structural)]
pub struct Listener {
    pub node: NodeId,
    pub event: PointerEventKind,
    pub action: ListenerAction,
}

#[derive(Debug)]
pub struct Machine {
    pub name: String,
    pub inputs: Vec<InputDef>,
    pub layers: Vec<MachineLayer>,
    pub listeners: Vec<Listener>,
}

/// Where a transition starts.
#[derive(Clone, Copy, Debug, PartialEq, Eq, Structural)]
pub enum TransitionSource {
    Any,
    State(usize),
}

/// What is selected in the machine panel.
#[derive(Clone, Copy, Debug, PartialEq, Eq, Structural)]
pub enum MachineSelection {
    Nothing,
    Input { input: usize },
    Listener { listener: usize },
    Layer { layer: usize },
    State { layer: usize, state: usize },
    Transition { layer: usize, source: TransitionSource, transition: usize },
}

/// How many transitions start at `source`.
pub open spec fn source_count(layer: MachineLayer, source: TransitionSource) -> nat {
    match source {
        TransitionSource::Any => layer.any_transitions@.len(),
        TransitionSource::State(s) => if s < layer.states@.len() {
            layer.states@[s as int].transitions@.len()
        } else {
            0
        },
    }
}

/// Whether `machine` has what `selection` names.
pub open spec fn selectable(machine: Machine, selection: MachineSelection) -> bool {
    match selection {
        MachineSelection::Nothing => true,
        MachineSelection::Input { .. } => true,
        MachineSelection::Listener { .. } => true,
        MachineSelection::Layer { layer } => layer < machine.layers@.len(),
        MachineSelection::State { layer, state } => layer < machine.layers@.len() && state
            < machine.layers@[layer as int].states@.len(),
        MachineSelection::Transition { layer, source, transition } => layer < machine.layers@.len()
            && transition < source_count(machine.layers@[layer as int], source),
    }
}

/// Whether `selection` is a transition of a layer that `machine` does not have.
pub open spec fn stray_transition(machine: Machine, selection: MachineSelection) -> bool {
    selection matches MachineSelection::Transition { layer, .. } && layer >= machine.layers@.len()
}

impl Machine {
    /// How many transitions of layer `layer` start at `source`.
    pub fn transition_count(&self, layer: usize, source: TransitionSource) -> (r: usize)
        requires
            layer < self.layers@.len(),
        ensures
            r == source_count(self.layers@[layer as int], source),
    {
        match source {
            TransitionSource::Any => self.layers[layer].any_transitions.len(),
            TransitionSource::State(s) => if s < self.layers[layer].states.len() {
                self.layers[layer].states[s].transitions.len()
            } else {
                0
            },
        }
    }

    /// Whether the machine has what `selection` names.
    pub fn has_selection(&self, selection: MachineSelection) -> (r: bool)
        ensures
            r == selectable(*self, selection),
    {
        match selection {
            MachineSelection::Layer { layer } => layer < self.layers.len(),
            MachineSelection::State { layer, state } => layer < self.layers.len() && state
                < self.layers[layer].states.len(),
            MachineSelection::Transition { layer, source, transition } => layer < self.layers.len()
                && transition < self.transition_count(layer, source),
            _ => true,
        }
    }
}

impl Session {
    /// Drops what the active machine, `machine`, does not have any more. A
    /// selected transition whose whole layer is gone is left as it is.
    pub fn validate_machine_selection(&mut self, machine: Option<&Machine>)
        ensures
            match (old(self).active_machine, machine) {
                (Some(_), Some(m)) => *final(self) == (Session {
                    active_machine_layer: if old(self).active_machine_layer < m.layers@.len() {
                        old(self).active_machine_layer
                    } else if m.layers@.len() == 0 {
                        0
                    } else {
                        (m.layers@.len() - 1) as usize
                    },
                    machine_selection: if selectable(*m, old(self).machine_selection)
                        || stray_transition(*m, old(self).machine_selection) {
                        old(self).machine_selection
                    } else {
                        MachineSelection::Nothing
                    },
                    ..*old(self)
                }),
                _ => *final(self) == (Session {
                    active_machine_layer: 0,
                    machine_selection: MachineSelection::Nothing,
                    ..*old(self)
                }),
            },
    {
        if self.active_machine.is_none() {
            self.machine_selection = MachineSelection::Nothing;
            self.active_machine_layer = 0;
            return ;
        }
        let m = match machine {
            Some(m) => m,
            None => {
                self.machine_selection = MachineSelection::Nothing;
                self.active_machine_layer = 0;
                return ;
            },
        };
        if self.active_machine_layer >= m.layers.len() {
            self.active_machine_layer = if m.layers.len() == 0 {
                0
            } else {
                m.layers.len() - 1
            };
        }
        if let MachineSelection::Transition { layer, .. } = self.machine_selection {
            if layer >= m.layers.len() {
                return ;
            }
        }
        if !m.has_selection(self.machine_selection) {
            self.machine_selection = MachineSelection::Nothing;
        }
    }

    /// The layer that new states go to: the selected one, else the active one.
    pub open spec fn aimed_layer(&self) -> usize {
        match self.machine_selection {
            MachineSelection::State { layer, .. } => layer,
            MachineSelection::Transition { layer, .. } => layer,
            MachineSelection::Layer { layer } => layer,
            _ => self.active_machine_layer,
        }
    }

    pub fn target_layer(&self) -> (r: usize)
        ensures
            r == self.aimed_layer(),
    {
        match self.machine_selection {
            MachineSelection::State { layer, .. } => layer,
            MachineSelection::Transition { layer, .. } => layer,
            MachineSelection::Layer { layer } => layer,
            _ => self.active_machine_layer,
        }
    }
}

/// A text and a number behind it.
pub open spec fn numbered(text: Seq<char>, n: nat) -> Seq<char> {
    text + decimal(n)
}

/// `text` with the number that follows `n` behind.
fn with_next(text: &str, n: usize) -> (r: String)
    ensures
        r@ == numbered(text@, (n + 1) as nat),
{
    let mut out = text.to_owned();
    append_decimal(&mut out, n as u128 + 1);
    out
}

/// How many states the layer has; none where there is no such layer.
pub open spec fn state_count(machine: Machine, layer: usize) -> nat {
    if layer < machine.layers@.len() {
        machine.layers@[layer as int].states@.len()
    } else {
        0
    }
}

impl Machine {
    /// The name of the next state of layer `layer`.
    pub fn next_state_name(&self, layer: usize) -> (r: String)
        ensures
            r@ == numbered("State "@, state_count(*self, layer) + 1),
    {
        let n: usize = if layer < self.layers.len() {
            self.layers[layer].states.len()
        } else {
            0
        };
        with_next("State ", n)
    }

    /// The name of the next layer.
    pub fn next_layer_name(&self) -> (r: String)
        ensures
            r@ == numbered("Layer "@, self.layers@.len() + 1),
    {
        with_next("Layer ", self.layers.len())
    }

    /// A new machine, in a project that has `machines` already.
    pub fn blank(machines: usize) -> (r: Machine)
        ensures
            r.name@ == numbered("State Machine "@, (machines + 1) as nat),
            r.inputs@.len() == 0,
            r.listeners@.len() == 0,
            r.layers@.len() == 1,
            r.layers@[0].name@ == "Layer 1"@,
            r.layers@[0].entry == 0,
            r.layers@[0].any_transitions@.len() == 0,
            r.layers@[0].states@.len() == 1,
            r.layers@[0].states@[0].name@ == "Idle"@,
            r.layers@[0].states@[0].kind is Empty,
            r.layers@[0].states@[0].transitions@.len() == 0,
            r.layers@[0].states@[0].graph_pos is None,
    {
        let mut states: Vec<State> = Vec::new();
        states.push(
            State {
                name: "Idle".to_owned(),
                kind: StateKind::Empty,
                transitions: Vec::new(),
                graph_pos: None,
            },
        );
        let mut layers: Vec<MachineLayer> = Vec::new();
        layers.push(
            MachineLayer {
                name: "Layer 1".to_owned(),
                entry: 0,
                any_transitions: Vec::new(),
                states,
            },
        );
        Machine {
            name: with_next("State Machine ", machines),
            inputs: Vec::new(),
            layers,
            listeners: Vec::new(),
        }
    }
}

} // verus!
