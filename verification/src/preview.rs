//! Editor modes and the live preview of state machines.
use vstd::prelude::*;

use crate::machine::{InputKind, InputValue, MachineId, MachineSelection};
use crate::session::{
    next_revision, stopped, EditorMode, EngineSwitch, MachineDrag, PanelPage, Session,
};

verus! {

/// The value that an input starts from.
pub open spec fn default_value(kind: InputKind) -> InputValue {
    match kind {
        InputKind::Bool { default } => InputValue::Bool(default),
        InputKind::Number { default } => InputValue::Number(default),
        InputKind::Trigger => InputValue::Trigger { fired: false },
    }
}

/// The value that an input has after the machine was rebuilt: the one before
/// where the kind is still the same, else the default. Triggers do not stay
/// fired.
pub open spec fn restored(kind: InputKind, before: Option<InputValue>) -> InputValue {
    match (kind, before) {
        (InputKind::Bool { .. }, Some(InputValue::Bool(b))) => InputValue::Bool(b),
        (InputKind::Number { .. }, Some(InputValue::Number(n))) => InputValue::Number(n),
        _ => default_value(kind),
    }
}

pub open spec fn value_at(values: Seq<InputValue>, i: int) -> Option<InputValue> {
    if 0 <= i < values.len() {
        Some(values[i])
    } else {
        None
    }
}

/// The preview inputs of a machine with the inputs `kinds`.
pub open spec fn restored_all(kinds: Seq<InputKind>, before: Seq<InputValue>) -> Seq<InputValue> {
    Seq::new(kinds.len(), |i: int| restored(kinds[i], value_at(before, i)))
}

fn restore(kind: InputKind, before: Option<InputValue>) -> (r: InputValue)
    ensures
        r == restored(kind, before),
{
    match kind {
        InputKind::Bool { default } => match before {
            Some(InputValue::Bool(b)) => InputValue::Bool(b),
            _ => InputValue::Bool(default),
        },
        InputKind::Number { default } => match before {
            Some(InputValue::Number(n)) => InputValue::Number(n),
            _ => InputValue::Number(default),
        },
        InputKind::Trigger => InputValue::Trigger { fired: false },
    }
}

fn restore_all(kinds: &Vec<InputKind>, before: &Vec<InputValue>) -> (r: Vec<InputValue>)
    ensures
        r@ == restored_all(kinds@, before@),
{
    let mut out: Vec<InputValue> = Vec::new();
    let mut i: usize = 0;
    while i < kinds.len()
        invariant
            i <= kinds@.len(),
            out@ =~= restored_all(kinds@, before@).take(i as int),
        decreases kinds.len() - i,
    {
        let previous = if i < before.len() {
            Some(before[i])
        } else {
            None
        };
        out.push(restore(kinds[i], previous));
        i = i + 1;
    }
    assert(restored_all(kinds@, before@).take(kinds@.len() as int) =~= restored_all(
        kinds@,
        before@,
    ));
    out
}

/// A value that the preview sends to the engine.
#[derive(Clone, Copy, Debug, PartialEq, Eq, Structural)]
pub struct PreviewWrite {
    pub input: usize,
    pub value: InputValue,
}

/// What the engine does when the preview is brought up to date with an edited
/// machine.
#[derive(Debug)]
pub struct Resync {
    /// Play the machine first, where it is not playing already.
    pub play: Option<MachineId>,
    /// Then set these inputs, in order.
    pub writes: Vec<PreviewWrite>,
}

/// The inputs that are sent to the engine: all but the triggers.
pub open spec fn sent(values: Seq<InputValue>) -> Seq<PreviewWrite>
    decreases values.len(),
{
    if values.len() == 0 {
        Seq::empty()
    } else {
        let front = sent(values.drop_last());
        match values.last() {
            InputValue::Trigger { .. } => front,
            value => front.push(PreviewWrite { input: (values.len() - 1) as usize, value }),
        }
    }
}

impl Session {
    /// The preview after it was set up for a machine with the inputs `kinds`
    /// again; without a machine it is emptied and nothing else happens. A frame
    /// more is asked for where `repainted`.
    pub open spec fn preview_reset(
        self,
        kinds: Option<Seq<InputKind>>,
        after: Session,
        switch: EngineSwitch,
        repainted: bool,
    ) -> bool {
        let base = if repainted {
            next_revision(self.revision)
        } else {
            self.revision
        };
        match (self.active_machine, kinds) {
            (Some(machine), Some(kinds)) => {
                &&& switch == (if self.machine_preview_enabled {
                    EngineSwitch::Machine(machine)
                } else {
                    EngineSwitch::Timeline
                })
                &&& after.machine_preview_inputs@ == restored_all(
                    kinds,
                    self.machine_preview_inputs@,
                )
                &&& after == (Session {
                    machine_preview_inputs: after.machine_preview_inputs,
                    revision: next_revision(base),
                    ..self
                })
            },
            _ => {
                &&& switch == EngineSwitch::Leave
                &&& after.machine_preview_inputs@ == Seq::<InputValue>::empty()
                &&& after == (Session {
                    machine_preview_inputs: after.machine_preview_inputs,
                    revision: base,
                    ..self
                })
            },
        }
    }

    /// Sets the preview up again. `kinds` are the inputs of the active machine,
    /// if that is there.
    pub fn reset_machine_preview(&mut self, kinds: Option<&Vec<InputKind>>) -> (switch:
        EngineSwitch)
        ensures
            old(self).preview_reset(
                match kinds {
                    Some(v) => Some(v@),
                    None => None,
                },
                *final(self),
                switch,
                false,
            ),
    {
        match (self.active_machine, kinds) {
            (Some(machine), Some(kinds)) => {
                let next = restore_all(kinds, &self.machine_preview_inputs);
                self.machine_preview_inputs = next;
                self.repaint();
                if self.machine_preview_enabled {
                    EngineSwitch::Machine(machine)
                } else {
                    EngineSwitch::Timeline
                }
            },
            _ => {
                self.machine_preview_inputs.clear();
                EngineSwitch::Leave
            },
        }
    }

    /// Brings the preview up to date with an edited machine, keeping the values
    /// and the running instance where it can. `playing` is the machine that the
    /// engine plays.
    pub fn resync_machine_preview_after_edit(
        &mut self,
        kinds: Option<&Vec<InputKind>>,
        playing: Option<MachineId>,
    ) -> (r: Option<Resync>)
        ensures
            match (old(self).active_machine, kinds) {
                (Some(machine), Some(kinds)) => {
                    &&& r matches Some(sync) && {
                        &&& sync.play == (if playing == Some(machine) {
                            None
                        } else {
                            Some(machine)
                        })
                        &&& sync.writes@ == sent(final(self).machine_preview_inputs@)
                    }
                    &&& final(self).machine_preview_inputs@ == restored_all(
                        kinds@,
                        old(self).machine_preview_inputs@,
                    )
                    &&& *final(self) == (Session {
                        machine_preview_inputs: final(self).machine_preview_inputs,
                        revision: next_revision(old(self).revision),
                        ..*old(self)
                    })
                },
                _ => {
                    &&& r is None
                    &&& final(self).machine_preview_inputs@ == Seq::<InputValue>::empty()
                    &&& *final(self) == (Session {
                        machine_preview_inputs: final(self).machine_preview_inputs,
                        ..*old(self)
                    })
                },
            },
    {
        match (self.active_machine, kinds) {
            (Some(machine), Some(kinds)) => {
                let next = restore_all(kinds, &self.machine_preview_inputs);
                let already = match playing {
                    Some(id) => id == machine,
                    None => false,
                };
                let mut writes: Vec<PreviewWrite> = Vec::new();
                let mut i: usize = 0;
                assert(next@.take(0) =~= Seq::<InputValue>::empty());
                while i < next.len()
                    invariant
                        i <= next@.len(),
                        writes@ == sent(next@.take(i as int)),
                    decreases next.len() - i,
                {
                    assert(next@.take(i + 1).drop_last() =~= next@.take(i as int));
                    let value = next[i];
                    if !matches!(value, InputValue::Trigger { .. }) {
                        writes.push(PreviewWrite { input: i, value });
                    }
                    i = i + 1;
                }
                assert(next@.take(next@.len() as int) =~= next@);
                self.machine_preview_inputs = next;
                self.repaint();
                let play = if already {
                    None
                } else {
                    Some(machine)
                };
                Some(Resync { play, writes })
            },
            _ => {
                self.machine_preview_inputs.clear();
                None
            },
        }
    }

    /// Whether the preview has left anything behind.
    pub open spec fn preview_used(&self) -> bool {
        self.machine_preview_enabled || self.machine_preview_inputs@.len() > 0
    }

    pub open spec fn preview_disabled(self) -> Session {
        if self.preview_used() {
            Session {
                machine_preview_enabled: false,
                machine_drag: match self.machine_drag {
                    Some(MachineDrag::PreviewNumber { .. }) => None,
                    drag => drag,
                },
                ..self
            }
        } else {
            self
        }
    }

    /// Ends the preview.
    pub fn disable_machine_preview(&mut self) -> (switch: EngineSwitch)
        ensures
            *final(self) == old(self).preview_disabled(),
            switch == (if old(self).preview_used() {
                EngineSwitch::Timeline
            } else {
                EngineSwitch::Leave
            }),
    {
        if !self.machine_preview_enabled && self.machine_preview_inputs.len() == 0 {
            return EngineSwitch::Leave;
        }
        self.machine_preview_enabled = false;
        if matches!(self.machine_drag, Some(MachineDrag::PreviewNumber { .. })) {
            self.machine_drag = None;
        }
        EngineSwitch::Timeline
    }

    /// Enters `mode`. `kinds` are the inputs of the active machine.
    pub fn set_mode(&mut self, mode: EditorMode, kinds: Option<&Vec<InputKind>>) -> (switch:
        EngineSwitch)
        ensures
            old(self).mode_set(
                mode,
                match kinds {
                    Some(v) => Some(v@),
                    None => None,
                },
                *final(self),
                switch,
            ),
    {
        if self.mode == mode {
            return EngineSwitch::Leave;
        }
        let previous = self.mode;
        self.mode = mode;
        self.record = matches!(mode, EditorMode::Animate);
        let mut switch = EngineSwitch::Leave;
        match mode {
            EditorMode::Design => {
                self.stop_timeline_playback();
                switch = self.disable_machine_preview();
                if matches!(self.active_page, PanelPage::Timeline | PanelPage::Interact) {
                    self.active_page = PanelPage::Canvas;
                }
            },
            EditorMode::Animate => {
                switch = self.disable_machine_preview();
                self.active_page = PanelPage::Timeline;
            },
            EditorMode::Interact => {
                self.stop_timeline_playback();
                self.active_page = PanelPage::Interact;
                if self.active_machine.is_some() {
                    self.machine_preview_enabled = true;
                    switch = self.reset_machine_preview(kinds);
                }
            },
        }
        if previous == EditorMode::Interact {
            self.machine_graph_gesture = None;
        }
        self.repaint();
        switch
    }

    /// What entering `mode` does.
    pub open spec fn mode_set(
        self,
        mode: EditorMode,
        kinds: Option<Seq<InputKind>>,
        after: Session,
        switch: EngineSwitch,
    ) -> bool {
        let entered = Session {
            mode,
            record: Session::records(mode),
            machine_graph_gesture: if self.mode == EditorMode::Interact {
                None
            } else {
                self.machine_graph_gesture
            },
            ..self
        };
        let still = Session {
            playing: false,
            playback: stopped(self.playback, self.playing),
            ..entered
        };
        let ended = if self.preview_used() {
            EngineSwitch::Timeline
        } else {
            EngineSwitch::Leave
        };
        if self.mode == mode {
            after == self && switch == EngineSwitch::Leave
        } else {
            match mode {
                EditorMode::Design => {
                    &&& switch == ended
                    &&& after == (Session {
                        active_page: if self.active_page == PanelPage::Timeline || self.active_page
                            == PanelPage::Interact {
                            PanelPage::Canvas
                        } else {
                            self.active_page
                        },
                        revision: next_revision(self.revision),
                        ..still.preview_disabled()
                    })
                },
                EditorMode::Animate => {
                    &&& switch == ended
                    &&& after == (Session {
                        active_page: PanelPage::Timeline,
                        revision: next_revision(self.revision),
                        ..entered.preview_disabled()
                    })
                },
                EditorMode::Interact => if self.active_machine is Some {
                    let on = Session {
                        active_page: PanelPage::Interact,
                        machine_preview_enabled: true,
                        ..still
                    };
                    on.preview_reset(kinds, after, switch, true)
                } else {
                    &&& switch == EngineSwitch::Leave
                    &&& after == (Session {
                        active_page: PanelPage::Interact,
                        revision: next_revision(self.revision),
                        ..still
                    })
                },
            }
        }
    }

    /// Makes `machine` the active one, where `known` says that it is there.
    pub fn select_machine(
        &mut self,
        machine: MachineId,
        known: bool,
        kinds: Option<&Vec<InputKind>>,
    ) -> (switch: EngineSwitch)
        ensures
            if known {
                (Session {
                    active_machine: Some(machine),
                    machine_selection: MachineSelection::Nothing,
                    active_machine_layer: 0,
                    machine_graph_gesture: None,
                    ..*old(self)
                }).preview_reset(
                    match kinds {
                        Some(v) => Some(v@),
                        None => None,
                    },
                    *final(self),
                    switch,
                    true,
                )
            } else {
                *final(self) == *old(self) && switch == EngineSwitch::Leave
            },
    {
        if !known {
            return EngineSwitch::Leave;
        }
        self.active_machine = Some(machine);
        self.machine_selection = MachineSelection::Nothing;
        self.active_machine_layer = 0;
        self.machine_graph_gesture = None;
        let switch = self.reset_machine_preview(kinds);
        self.repaint();
        switch
    }

    /// Makes sure that the preview runs before an input is changed. `playing` is
    /// the machine that the engine plays.
    pub fn ensure_machine_preview_running(
        &mut self,
        kinds: Option<&Vec<InputKind>>,
        playing: Option<MachineId>,
    ) -> (switch: EngineSwitch)
        ensures
            if !old(self).machine_preview_enabled {
                (Session { machine_preview_enabled: true, ..*old(self) }).preview_reset(
                    match kinds {
                        Some(v) => Some(v@),
                        None => None,
                    },
                    *final(self),
                    switch,
                    false,
                )
            } else {
                &&& *final(self) == *old(self)
                &&& switch == (match old(self).active_machine {
                    Some(id) if playing != Some(id) => EngineSwitch::Machine(id),
                    _ => EngineSwitch::Leave,
                })
            },
    {
        if !self.machine_preview_enabled {
            self.machine_preview_enabled = true;
            return self.reset_machine_preview(kinds);
        }
        match self.active_machine {
            Some(id) => {
                let same = match playing {
                    Some(p) => p == id,
                    None => false,
                };
                if same {
                    EngineSwitch::Leave
                } else {
                    EngineSwitch::Machine(id)
                }
            },
            None => EngineSwitch::Leave,
        }
    }

    /// Sets a preview switch, the preview running. Says whether the engine is
    /// told.
    pub fn set_preview_bool(&mut self, input: usize, value: bool) -> (told: bool)
        ensures
            told == (old(self).active_machine is Some && value_at(
                old(self).machine_preview_inputs@,
                input as int,
            ) matches Some(InputValue::Bool(_))),
            final(self).machine_preview_inputs@ == (if told {
                old(self).machine_preview_inputs@.update(input as int, InputValue::Bool(value))
            } else {
                old(self).machine_preview_inputs@
            }),
            *final(self) == (Session {
                machine_preview_inputs: final(self).machine_preview_inputs,
                ..*old(self)
            }),
    {
        if self.active_machine.is_none() || input >= self.machine_preview_inputs.len() {
            return false;
        }
        if matches!(self.machine_preview_inputs[input], InputValue::Bool(_)) {
            self.machine_preview_inputs.set(input, InputValue::Bool(value));
            true
        } else {
            false
        }
    }

    /// Sets a preview number, the preview running. Says whether the engine is
    /// told.
    pub fn set_preview_number(&mut self, input: usize, value: u64) -> (told: bool)
        ensures
            told == (old(self).active_machine is Some && value_at(
                old(self).machine_preview_inputs@,
                input as int,
            ) matches Some(InputValue::Number(_))),
            final(self).machine_preview_inputs@ == (if told {
                old(self).machine_preview_inputs@.update(input as int, InputValue::Number(value))
            } else {
                old(self).machine_preview_inputs@
            }),
            *final(self) == (Session {
                machine_preview_inputs: final(self).machine_preview_inputs,
                ..*old(self)
            }),
    {
        if self.active_machine.is_none() || input >= self.machine_preview_inputs.len() {
            return false;
        }
        if matches!(self.machine_preview_inputs[input], InputValue::Number(_)) {
            self.machine_preview_inputs.set(input, InputValue::Number(value));
            true
        } else {
            false
        }
    }

    /// Fires a preview trigger, the preview running; the active machine has
    /// `inputs` inputs. Says whether the engine is told.
    pub fn fire_preview_trigger(&self, input: usize, inputs: usize) -> (told: bool)
        ensures
            told == (self.active_machine is Some && input < inputs),
    {
        self.active_machine.is_some() && input < inputs
    }

    /// Takes over the inputs that the engine has after a pointer event, where
    /// there are as many as the preview has.
    pub fn sync_preview_inputs(&mut self, inputs: Option<&Vec<InputValue>>)
        ensures
            final(self).machine_preview_inputs@ == (match inputs {
                Some(v) if v@.len() == old(self).machine_preview_inputs@.len() => v@,
                _ => old(self).machine_preview_inputs@,
            }),
            *final(self) == (Session {
                machine_preview_inputs: final(self).machine_preview_inputs,
                revision: next_revision(old(self).revision),
                ..*old(self)
            }),
    {
        if let Some(v) = inputs {
            if v.len() == self.machine_preview_inputs.len() {
                let mut next: Vec<InputValue> = Vec::new();
                let mut i: usize = 0;
                while i < v.len()
                    invariant
                        i <= v@.len(),
                        next@ == v@.take(i as int),
                    decreases v.len() - i,
                {
                    next.push(v[i]);
                    assert(v@.take(i + 1) =~= v@.take(i as int).push(v@[i as int]));
                    i = i + 1;
                }
                assert(v@.take(v@.len() as int) =~= v@);
                self.machine_preview_inputs = next;
            }
        }
        self.repaint();
    }

    /// Starts dragging a machine field.
    pub fn begin_machine_field_scrub(&mut self, origin: u64, press_x: u32)
        ensures
            *final(self) == (Session {
                machine_drag: Some(MachineDrag::MachineField { origin, press_x, txn: false }),
                ..*old(self)
            }),
    {
        self.machine_drag = Some(MachineDrag::MachineField { origin, press_x, txn: false });
    }

    /// Goes on dragging a machine field, the active machine being there where
    /// `known`. Says whether the host writes the machine, and which transaction it
    /// opens first, if any.
    pub fn scrub_machine_field(&mut self, known: bool) -> (r: Option<Option<&'static str>>)
        ensures
            match old(self).machine_drag {
                Some(
                    MachineDrag::MachineField { origin, press_x, txn },
                ) if old(self).active_machine is Some && known => {
                    &&& r == Some(
                        if txn {
                            None
                        } else {
                            Some("Edit machine")
                        },
                    )
                    &&& *final(self) == (Session {
                        machine_drag: Some(
                            MachineDrag::MachineField { origin, press_x, txn: true },
                        ),
                        dirty: true,
                        revision: next_revision(old(self).revision),
                        ..*old(self)
                    })
                },
                _ => r is None && *final(self) == *old(self),
            },
    {
        if self.active_machine.is_none() || !known {
            return None;
        }
        match self.machine_drag {
            Some(MachineDrag::MachineField { origin, press_x, txn }) => {
                self.machine_drag = Some(MachineDrag::MachineField { origin, press_x, txn: true });
                self.dirty = true;
                self.repaint();
                if txn {
                    Some(None)
                } else {
                    Some(Some("Edit machine"))
                }
            },
            _ => None,
        }
    }

    /// Ends dragging a machine field. Says whether the host commits.
    pub fn end_machine_field_scrub(&mut self) -> (commit: bool)
        ensures
            commit == (old(self).machine_drag matches Some(
                MachineDrag::MachineField { txn: true, .. },
            )),
            *final(self) == (Session { machine_drag: None, ..*old(self) }),
    {
        let commit = matches!(
            self.machine_drag,
            Some(MachineDrag::MachineField { txn: true, .. })
        );
        self.machine_drag = None;
        commit
    }

    /// Starts dragging a preview number.
    pub fn begin_preview_number_scrub(&mut self, input: usize, origin: u64, press_x: u32)
        ensures
            *final(self) == (Session {
                machine_drag: Some(MachineDrag::PreviewNumber { input, origin, press_x }),
                ..*old(self)
            }),
    {
        self.machine_drag = Some(MachineDrag::PreviewNumber { input, origin, press_x });
    }

    /// The preview number that is dragged, and where the drag started.
    pub fn scrub_preview_number(&self) -> (r: Option<(usize, u64, u32)>)
        ensures
            r == (match self.machine_drag {
                Some(MachineDrag::PreviewNumber { input, origin, press_x }) => Some(
                    (input, origin, press_x),
                ),
                _ => None,
            }),
    {
        match self.machine_drag {
            Some(MachineDrag::PreviewNumber { input, origin, press_x }) => Some(
                (input, origin, press_x),
            ),
            _ => None,
        }
    }

    /// Ends dragging a preview number.
    pub fn end_preview_number_scrub(&mut self)
        ensures
            *final(self) == (Session {
                machine_drag: match old(self).machine_drag {
                    Some(MachineDrag::PreviewNumber { .. }) => None,
                    drag => drag,
                },
                ..*old(self)
            }),
    {
        if matches!(self.machine_drag, Some(MachineDrag::PreviewNumber { .. })) {
            self.machine_drag = None;
        }
    }
}

} // verus!
