//! The edits that the machine panel makes to a machine.
use vstd::prelude::*;

use crate::machine::{
    BlendChild, ClipId, Comparison, Condition, Machine, MachineLayer, State, StateKind, Transition,
    TransitionSource, ONE,
};
use crate::session::LoopMode;

verus! {

/// Whether two machines agree but for the states and transitions of one layer.
pub open spec fn same_but_layer(a: Machine, b: Machine, layer: int) -> bool {
    &&& a.name == b.name
    &&& a.inputs == b.inputs
    &&& a.listeners == b.listeners
    &&& a.layers@.len() == b.layers@.len()
    &&& forall|i: int| 0 <= i < a.layers@.len() && i != layer ==> a.layers@[i] == b.layers@[i]
    &&& a.layers@[layer].name == b.layers@[layer].name
    &&& a.layers@[layer].entry == b.layers@[layer].entry
}

/// Whether two lists agree but for one place.
pub open spec fn same_but<T>(a: Seq<T>, b: Seq<T>, at: int) -> bool {
    a.len() == b.len() && forall|i: int| 0 <= i < a.len() && i != at ==> a[i] == b[i]
}

/// Whether two machines agree but for the kind of one state.
pub open spec fn same_but_kind(a: Machine, b: Machine, layer: int, state: int) -> bool {
    let x = a.layers@[layer];
    let y = b.layers@[layer];
    &&& same_but_layer(a, b, layer)
    &&& x.any_transitions == y.any_transitions
    &&& same_but(x.states@, y.states@, state)
    &&& x.states@[state].name == y.states@[state].name
    &&& x.states@[state].transitions == y.states@[state].transitions
    &&& x.states@[state].graph_pos == y.states@[state].graph_pos
}

/// The transitions of `layer` that start at `source`.
pub open spec fn transitions_of(layer: MachineLayer, source: TransitionSource) -> Seq<Transition> {
    match source {
        TransitionSource::Any => layer.any_transitions@,
        TransitionSource::State(s) => layer.states@[s as int].transitions@,
    }
}

/// Whether two machines agree but for one transition.
pub open spec fn same_but_transition(
    a: Machine,
    b: Machine,
    layer: int,
    source: TransitionSource,
    transition: int,
) -> bool {
    let x = a.layers@[layer];
    let y = b.layers@[layer];
    &&& same_but_layer(a, b, layer)
    &&& match source {
        TransitionSource::Any => x.states == y.states,
        TransitionSource::State(s) => {
            &&& x.any_transitions == y.any_transitions
            &&& same_but(x.states@, y.states@, s as int)
            &&& x.states@[s as int].name == y.states@[s as int].name
            &&& x.states@[s as int].kind == y.states@[s as int].kind
            &&& x.states@[s as int].graph_pos == y.states@[s as int].graph_pos
        },
    }
    &&& same_but(transitions_of(x, source), transitions_of(y, source), transition)
}

/// The exit time after the switch is pressed: at the end, or none.
pub open spec fn exit_toggled(exit_time: Option<u64>) -> Option<u64> {
    match exit_time {
        Some(_) => None,
        None => Some(ONE),
    }
}

/// The comparison that follows in the panel's round.
pub open spec fn comparison_after(op: Comparison) -> Comparison {
    match op {
        Comparison::Ge => Comparison::Gt,
        Comparison::Gt => Comparison::Le,
        Comparison::Le => Comparison::Lt,
        Comparison::Lt => Comparison::Eq,
        Comparison::Eq => Comparison::Ne,
        Comparison::Ne => Comparison::Ge,
    }
}

/// The comparison that follows in the panel's round.
pub fn next_comparison(op: Comparison) -> (r: Comparison)
    ensures
        r == comparison_after(op),
{
    match op {
        Comparison::Ge => Comparison::Gt,
        Comparison::Gt => Comparison::Le,
        Comparison::Le => Comparison::Lt,
        Comparison::Lt => Comparison::Eq,
        Comparison::Eq => Comparison::Ne,
        Comparison::Ne => Comparison::Ge,
    }
}

/// The blend children that a state kind has.
pub open spec fn blend_children(kind: StateKind) -> Seq<BlendChild> {
    match kind {
        StateKind::Blend1D { children, .. } => children@,
        _ => Seq::empty(),
    }
}

impl Machine {
    pub open spec fn has_state(&self, layer: usize, state: usize) -> bool {
        layer < self.layers@.len() && state < self.layers@[layer as int].states@.len()
    }

    pub open spec fn kind_at(&self, layer: usize, state: usize) -> StateKind {
        self.layers@[layer as int].states@[state as int].kind
    }

    /// Whether the machine has the transition.
    pub open spec fn has_transition(
        &self,
        layer: usize,
        source: TransitionSource,
        transition: usize,
    ) -> bool {
        &&& layer < self.layers@.len()
        &&& source matches TransitionSource::State(s) ==> s < self.layers@[layer as int].states@.len()
        &&& transition < transitions_of(self.layers@[layer as int], source).len()
    }

    pub open spec fn transition_at(
        &self,
        layer: usize,
        source: TransitionSource,
        transition: usize,
    ) -> Transition {
        transitions_of(self.layers@[layer as int], source)[transition as int]
    }

    /// Whether the machine has the transition.
    pub fn holds_transition(
        &self,
        layer: usize,
        source: TransitionSource,
        transition: usize,
    ) -> (r: bool)
        ensures
            r == self.has_transition(layer, source, transition),
    {
        if layer >= self.layers.len() {
            return false;
        }
        match source {
            TransitionSource::Any => transition < self.layers[layer].any_transitions.len(),
            TransitionSource::State(s) => s < self.layers[layer].states.len() && transition
                < self.layers[layer].states[s].transitions.len(),
        }
    }

    fn put_exit(
        &mut self,
        layer: usize,
        source: TransitionSource,
        transition: usize,
        exit_time: Option<u64>,
    )
        requires
            old(self).has_transition(layer, source, transition),
        ensures
            same_but_transition(*old(self), *final(self), layer as int, source, transition as int),
            final(self).transition_at(layer, source, transition) == (Transition {
                exit_time,
                ..old(self).transition_at(layer, source, transition)
            }),
    {
        match source {
            TransitionSource::Any => {
                self.layers[layer].any_transitions[transition].exit_time = exit_time;
            },
            TransitionSource::State(s) => {
                self.layers[layer].states[s].transitions[transition].exit_time = exit_time;
            },
        }
    }

    /// Switches "when finished" of a transition on or off. Without such a
    /// transition nothing happens.
    pub fn toggle_exit(&mut self, layer: usize, source: TransitionSource, transition: usize)
        ensures
            if old(self).has_transition(layer, source, transition) {
                &&& same_but_transition(
                    *old(self),
                    *final(self),
                    layer as int,
                    source,
                    transition as int,
                )
                &&& final(self).transition_at(layer, source, transition) == (Transition {
                    exit_time: exit_toggled(
                        old(self).transition_at(layer, source, transition).exit_time,
                    ),
                    ..old(self).transition_at(layer, source, transition)
                })
            } else {
                *final(self) == *old(self)
            },
    {
        if !self.holds_transition(layer, source, transition) {
            return ;
        }
        let now = match source {
            TransitionSource::Any => self.layers[layer].any_transitions[transition].exit_time,
            TransitionSource::State(s) => self.layers[layer].states[s].transitions[transition].exit_time,
        };
        let next = if now.is_some() {
            None
        } else {
            Some(ONE)
        };
        self.put_exit(layer, source, transition, next);
    }

    fn put_condition(
        &mut self,
        layer: usize,
        source: TransitionSource,
        transition: usize,
        index: usize,
        condition: Condition,
    )
        requires
            old(self).has_transition(layer, source, transition),
            index < old(self).transition_at(layer, source, transition).conditions@.len(),
        ensures
            same_but_transition(*old(self), *final(self), layer as int, source, transition as int),
            ({
                let before = old(self).transition_at(layer, source, transition);
                let after = final(self).transition_at(layer, source, transition);
                &&& after.conditions@ == before.conditions@.update(index as int, condition)
                &&& after == (Transition { conditions: after.conditions, ..before })
            }),
    {
        match source {
            TransitionSource::Any => {
                self.layers[layer].any_transitions[transition].conditions[index] = condition;
            },
            TransitionSource::State(s) => {
                self.layers[layer].states[s].transitions[transition].conditions[index] = condition;
            },
        }
    }

    /// The condition, where the machine has it.
    pub open spec fn condition_spec(
        &self,
        layer: usize,
        source: TransitionSource,
        transition: usize,
        index: usize,
    ) -> Option<Condition> {
        if self.has_transition(layer, source, transition) {
            let conditions = self.transition_at(layer, source, transition).conditions@;
            if index < conditions.len() {
                Some(conditions[index as int])
            } else {
                None
            }
        } else {
            None
        }
    }

    /// The condition, where the machine has it.
    pub fn condition(
        &self,
        layer: usize,
        source: TransitionSource,
        transition: usize,
        index: usize,
    ) -> (r: Option<Condition>)
        ensures
            r == self.condition_spec(layer, source, transition, index),
    {
        if !self.holds_transition(layer, source, transition) {
            return None;
        }
        let conditions = match source {
            TransitionSource::Any => &self.layers[layer].any_transitions[transition].conditions,
            TransitionSource::State(s) => &self.layers[layer].states[s].transitions[transition].conditions,
        };
        if index < conditions.len() {
            Some(conditions[index])
        } else {
            None
        }
    }

    /// Whether `after` is this machine with one condition replaced.
    pub open spec fn condition_replaced(
        self,
        after: Machine,
        layer: usize,
        source: TransitionSource,
        transition: usize,
        index: usize,
        condition: Condition,
    ) -> bool {
        let x = self.transition_at(layer, source, transition);
        let y = after.transition_at(layer, source, transition);
        &&& same_but_transition(self, after, layer as int, source, transition as int)
        &&& y.conditions@ == x.conditions@.update(index as int, condition)
        &&& y == (Transition { conditions: y.conditions, ..x })
    }

    /// Makes a switch condition ask for the opposite of `shown`.
    pub fn flip_condition(
        &mut self,
        layer: usize,
        source: TransitionSource,
        transition: usize,
        index: usize,
        shown: bool,
    )
        ensures
            match old(self).condition_spec(layer, source, transition, index) {
                Some(Condition::BoolIs { input, .. }) => old(self).condition_replaced(
                    *final(self),
                    layer,
                    source,
                    transition,
                    index,
                    Condition::BoolIs { input, value: !shown },
                ),
                _ => *final(self) == *old(self),
            },
    {
        if let Some(Condition::BoolIs { input, .. }) = self.condition(
            layer,
            source,
            transition,
            index,
        ) {
            self.put_condition(
                layer,
                source,
                transition,
                index,
                Condition::BoolIs { input, value: !shown },
            );
        }
    }

    /// Gives a number condition the next comparison.
    pub fn cycle_comparison(
        &mut self,
        layer: usize,
        source: TransitionSource,
        transition: usize,
        index: usize,
    )
        ensures
            match old(self).condition_spec(layer, source, transition, index) {
                Some(Condition::Number { input, op, value }) => old(self).condition_replaced(
                    *final(self),
                    layer,
                    source,
                    transition,
                    index,
                    Condition::Number { input, op: comparison_after(op), value },
                ),
                _ => *final(self) == *old(self),
            },
    {
        if let Some(Condition::Number { input, op, value }) = self.condition(
            layer,
            source,
            transition,
            index,
        ) {
            self.put_condition(
                layer,
                source,
                transition,
                index,
                Condition::Number { input, op: next_comparison(op), value },
            );
        }
    }

    /// Gives a number condition another value.
    pub fn set_condition_value(
        &mut self,
        layer: usize,
        source: TransitionSource,
        transition: usize,
        index: usize,
        number: u64,
    )
        ensures
            match old(self).condition_spec(layer, source, transition, index) {
                Some(Condition::Number { input, op, .. }) => old(self).condition_replaced(
                    *final(self),
                    layer,
                    source,
                    transition,
                    index,
                    Condition::Number { input, op, value: number },
                ),
                _ => *final(self) == *old(self),
            },
    {
        if let Some(Condition::Number { input, op, .. }) = self.condition(
            layer,
            source,
            transition,
            index,
        ) {
            self.put_condition(
                layer,
                source,
                transition,
                index,
                Condition::Number { input, op, value: number },
            );
        }
    }

    /// Gives one state another kind.
    fn put_kind(&mut self, layer: usize, state: usize, kind: StateKind)
        requires
            old(self).has_state(layer, state),
        ensures
            same_but_kind(*old(self), *final(self), layer as int, state as int),
            final(self).kind_at(layer, state) == kind,
    {
        self.layers[layer].states[state].kind = kind;
    }

    /// Makes the state play `clip`, at the speed and in the loop that it played
    /// before, or once at full speed.
    pub fn set_clip(&mut self, layer: usize, state: usize, clip: ClipId)
        requires
            old(self).has_state(layer, state),
        ensures
            same_but_kind(*old(self), *final(self), layer as int, state as int),
            final(self).kind_at(layer, state) == (match old(self).kind_at(layer, state) {
                StateKind::Clip { speed, loop_mode, .. } => StateKind::Clip {
                    clip,
                    speed,
                    loop_mode,
                },
                _ => StateKind::Clip { clip, speed: ONE, loop_mode: LoopMode::Once },
            }),
    {
        let kind = match &self.layers[layer].states[state].kind {
            StateKind::Clip { speed, loop_mode, .. } => StateKind::Clip {
                clip,
                speed: *speed,
                loop_mode: *loop_mode,
            },
            _ => StateKind::Clip { clip, speed: ONE, loop_mode: LoopMode::Once },
        };
        self.put_kind(layer, state, kind);
    }

    /// Sets how a clip state loops; other states stay as they are.
    pub fn set_clip_loop(&mut self, layer: usize, state: usize, mode: LoopMode)
        requires
            old(self).has_state(layer, state),
        ensures
            match old(self).kind_at(layer, state) {
                StateKind::Clip { clip, speed, .. } => {
                    &&& same_but_kind(*old(self), *final(self), layer as int, state as int)
                    &&& final(self).kind_at(layer, state) == (StateKind::Clip {
                        clip,
                        speed,
                        loop_mode: mode,
                    })
                },
                _ => *final(self) == *old(self),
            },
    {
        let kind = match &self.layers[layer].states[state].kind {
            StateKind::Clip { clip, speed, .. } => StateKind::Clip {
                clip: *clip,
                speed: *speed,
                loop_mode: mode,
            },
            _ => {
                return ;
            },
        };
        self.put_kind(layer, state, kind);
    }

    /// Sets how fast a clip state plays; other states stay as they are.
    pub fn set_clip_speed(&mut self, layer: usize, state: usize, rate: u64)
        requires
            old(self).has_state(layer, state),
        ensures
            match old(self).kind_at(layer, state) {
                StateKind::Clip { clip, loop_mode, .. } => {
                    &&& same_but_kind(*old(self), *final(self), layer as int, state as int)
                    &&& final(self).kind_at(layer, state) == (StateKind::Clip {
                        clip,
                        speed: rate,
                        loop_mode,
                    })
                },
                _ => *final(self) == *old(self),
            },
    {
        let kind = match &self.layers[layer].states[state].kind {
            StateKind::Clip { clip, loop_mode, .. } => StateKind::Clip {
                clip: *clip,
                speed: rate,
                loop_mode: *loop_mode,
            },
            _ => {
                return ;
            },
        };
        self.put_kind(layer, state, kind);
    }

    fn copied_children(&self, layer: usize, state: usize) -> (r: Vec<BlendChild>)
        requires
            self.has_state(layer, state),
        ensures
            r@ == blend_children(self.kind_at(layer, state)),
    {
        let mut out: Vec<BlendChild> = Vec::new();
        if let StateKind::Blend1D { children, .. } = &self.layers[layer].states[state].kind {
            let mut i: usize = 0;
            while i < children.len()
                invariant
                    i <= children@.len(),
                    out@ == children@.take(i as int),
                decreases children.len() - i,
            {
                out.push(children[i]);
                assert(children@.take(i + 1) =~= children@.take(i as int).push(
                    children@[i as int],
                ));
                i = i + 1;
            }
            assert(children@.take(children@.len() as int) =~= children@);
        }
        out
    }

    /// Makes the state blend by the input `input`, between the children that it
    /// has.
    pub fn set_blend_input(&mut self, layer: usize, state: usize, input: usize)
        requires
            old(self).has_state(layer, state),
        ensures
            same_but_kind(*old(self), *final(self), layer as int, state as int),
            final(self).kind_at(layer, state) matches StateKind::Blend1D { input: i, children }
                && i == input && children@ == blend_children(old(self).kind_at(layer, state)),
    {
        let children = self.copied_children(layer, state);
        self.put_kind(layer, state, StateKind::Blend1D { input, children });
    }

    /// Whether `after` is this machine with other children in one blend.
    pub open spec fn blend_changed(
        self,
        after: Machine,
        layer: usize,
        state: usize,
        children: Seq<BlendChild>,
    ) -> bool {
        &&& same_but_kind(self, after, layer as int, state as int)
        &&& self.kind_at(layer, state) matches StateKind::Blend1D { input, .. } && after.kind_at(
            layer,
            state,
        ) matches StateKind::Blend1D { input: i, children: c } && i == input && c@ == children
    }

    /// Adds a child to a blend; the host then sorts the children.
    pub fn push_blend_child(&mut self, layer: usize, state: usize, child: BlendChild)
        requires
            old(self).has_state(layer, state),
        ensures
            if old(self).kind_at(layer, state) is Blend1D {
                old(self).blend_changed(
                    *final(self),
                    layer,
                    state,
                    blend_children(old(self).kind_at(layer, state)).push(child),
                )
            } else {
                *final(self) == *old(self)
            },
    {
        let input = match &self.layers[layer].states[state].kind {
            StateKind::Blend1D { input, .. } => *input,
            _ => {
                return ;
            },
        };
        let mut children = self.copied_children(layer, state);
        children.push(child);
        self.put_kind(layer, state, StateKind::Blend1D { input, children });
    }

    /// Removes a child of a blend, where there is one at `index`.
    pub fn remove_blend_child(&mut self, layer: usize, state: usize, index: usize)
        requires
            old(self).has_state(layer, state),
        ensures
            if index < blend_children(old(self).kind_at(layer, state)).len() {
                old(self).blend_changed(
                    *final(self),
                    layer,
                    state,
                    blend_children(old(self).kind_at(layer, state)).remove(index as int),
                )
            } else {
                *final(self) == *old(self)
            },
    {
        let input = match &self.layers[layer].states[state].kind {
            StateKind::Blend1D { input, .. } => *input,
            _ => {
                return ;
            },
        };
        let mut children = self.copied_children(layer, state);
        if index >= children.len() {
            return ;
        }
        children.remove(index);
        self.put_kind(layer, state, StateKind::Blend1D { input, children });
    }

    /// Gives a child of a blend another clip, where there is one at `index`.
    pub fn set_blend_child_clip(&mut self, layer: usize, state: usize, index: usize, clip: ClipId)
        requires
            old(self).has_state(layer, state),
        ensures
            ({
                let children = blend_children(old(self).kind_at(layer, state));
                if index < children.len() {
                    old(self).blend_changed(
                        *final(self),
                        layer,
                        state,
                        children.update(
                            index as int,
                            BlendChild { clip, ..children[index as int] },
                        ),
                    )
                } else {
                    *final(self) == *old(self)
                }
            }),
    {
        let input = match &self.layers[layer].states[state].kind {
            StateKind::Blend1D { input, .. } => *input,
            _ => {
                return ;
            },
        };
        let mut children = self.copied_children(layer, state);
        if index >= children.len() {
            return ;
        }
        let threshold = children[index].threshold;
        children.set(index, BlendChild { threshold, clip });
        self.put_kind(layer, state, StateKind::Blend1D { input, children });
    }
}

} // verus!
