//! What edits of a machine change, and what they leave.
use vstd::prelude::*;

use crate::machine::{
    BlendChild, ClipId, Comparison, Condition, Machine, MachineSelection, State, StateKind,
    Transition, TransitionSource,
};
use crate::machine_edit::next_comparison;
use crate::session::{LoopMode, Session};
use crate::strings::decimal;

verus! {

/// The transitions from a source, where it is there.
pub open spec fn outgoing(m: Machine, layer: usize, source: TransitionSource) -> Option<
    Seq<Transition>,
> {
    if layer >= m.layers@.len() {
        None
    } else {
        match source {
            TransitionSource::Any => Some(m.layers@[layer as int].any_transitions@),
            TransitionSource::State(s) => if s < m.layers@[layer as int].states@.len() {
                Some(m.layers@[layer as int].states@[s as int].transitions@)
            } else {
                None
            },
        }
    }
}

/// The transition of that number from a source, where it is there.
pub open spec fn transition(
    m: Machine,
    layer: usize,
    source: TransitionSource,
    number: usize,
) -> Option<Transition> {
    match outgoing(m, layer, source) {
        Some(all) if number < all.len() => Some(all[number as int]),
        _ => None,
    }
}

/// The kind of a state, where it is there.
pub open spec fn kind_of(m: Machine, layer: usize, state: usize) -> Option<StateKind> {
    if layer < m.layers@.len() && state < m.layers@[layer as int].states@.len() {
        Some(m.layers@[layer as int].states@[state as int].kind)
    } else {
        None
    }
}

/// Whether two machines have the same name, inputs and listeners, as many layers, and in
/// each layer the same name and entry, and as many states with the same names and places.
pub open spec fn same_outline(a: Machine, b: Machine) -> bool {
    &&& a.name == b.name && a.inputs == b.inputs && a.listeners == b.listeners
    &&& a.layers@.len() == b.layers@.len()
    &&& forall|l: int|
        0 <= l < a.layers@.len() ==> {
            &&& (#[trigger] a.layers@[l]).name == b.layers@[l].name
            &&& a.layers@[l].entry == b.layers@[l].entry
            &&& a.layers@[l].states@.len() == b.layers@[l].states@.len()
        }
    &&& forall|l: int, s: int|
        0 <= l < a.layers@.len() && 0 <= s < a.layers@[l].states@.len() ==> {
            &&& (#[trigger] a.layers@[l].states@[s]).name == b.layers@[l].states@[s].name
            &&& a.layers@[l].states@[s].graph_pos == b.layers@[l].states@[s].graph_pos
        }
}

/// Whether `b` is `a` but for one transition.
pub open spec fn only_transition(
    a: Machine,
    b: Machine,
    layer: usize,
    source: TransitionSource,
    number: usize,
) -> bool {
    &&& same_outline(a, b)
    &&& forall|l: usize, s: usize| #[trigger] kind_of(a, l, s) == kind_of(b, l, s)
    &&& forall|l: usize, f: TransitionSource|
        (outgoing(a, l, f) is Some <==> outgoing(b, l, f) is Some) && (#[trigger] outgoing(a, l, f)
            is Some ==> outgoing(a, l, f)->0.len() == outgoing(b, l, f)->0.len())
    &&& forall|l: usize, f: TransitionSource, t: usize|
        l != layer || f != source || t != number ==> #[trigger] transition(a, l, f, t)
            == transition(b, l, f, t)
}

/// Whether `b` is `a` but for the kind of one state.
pub open spec fn only_kind(a: Machine, b: Machine, layer: usize, state: usize) -> bool {
    &&& same_outline(a, b)
    &&& forall|l: usize, s: usize|
        l != layer || s != state ==> #[trigger] kind_of(a, l, s) == kind_of(b, l, s)
    &&& forall|l: usize, f: TransitionSource| #[trigger] outgoing(a, l, f) == outgoing(b, l, f)
}

proof fn lemma_only_transition(
    a: Machine,
    b: Machine,
    layer: usize,
    source: TransitionSource,
    number: usize,
)
    requires
        a.has_transition(layer, source, number),
        crate::machine_edit::same_but_transition(a, b, layer as int, source, number as int),
    ensures
        only_transition(a, b, layer, source, number),
{
    assert forall|l: usize, f: TransitionSource|
        (outgoing(a, l, f) is Some <==> outgoing(b, l, f) is Some) && (#[trigger] outgoing(a, l, f)
            is Some ==> outgoing(a, l, f)->0.len() == outgoing(b, l, f)->0.len()) by {
        if l < a.layers@.len() && l != layer {
            assert(a.layers@[l as int] == b.layers@[l as int]);
        }
    }
    assert forall|l: usize, f: TransitionSource, t: usize|
        l != layer || f != source || t != number implies #[trigger] transition(a, l, f, t)
        == transition(b, l, f, t) by {
        if l < a.layers@.len() && l != layer {
            assert(a.layers@[l as int] == b.layers@[l as int]);
        }
    }
    assert forall|l: usize, s: usize| #[trigger] kind_of(a, l, s) == kind_of(b, l, s) by {
        if l < a.layers@.len() && l != layer {
            assert(a.layers@[l as int] == b.layers@[l as int]);
        }
    }
}

proof fn lemma_only_kind(a: Machine, b: Machine, layer: usize, state: usize)
    requires
        a.has_state(layer, state),
        crate::machine_edit::same_but_kind(a, b, layer as int, state as int),
    ensures
        only_kind(a, b, layer, state),
{
    assert forall|l: usize, f: TransitionSource| #[trigger] outgoing(a, l, f) == outgoing(
        b,
        l,
        f,
    ) by {
        if l < a.layers@.len() && l != layer {
            assert(a.layers@[l as int] == b.layers@[l as int]);
        }
    }
    assert forall|l: usize, s: usize| l != layer || s != state implies #[trigger] kind_of(a, l, s)
        == kind_of(b, l, s) by {
        if l < a.layers@.len() && l != layer {
            assert(a.layers@[l as int] == b.layers@[l as int]);
        }
    }
}

/// Toggling the exit of a transition gives it the exit time one where it had none and
/// none where it had one; the rest of it and of the machine stays.
pub proof fn law_exit_is_toggled(
    a: Machine,
    b: Machine,
    layer: usize,
    source: TransitionSource,
    number: usize,
)
    requires
        exists|m: &mut Machine| #[trigger]
            call_ensures(Machine::toggle_exit, (m, layer, source, number), ()) && *m == a
                && *final(m) == b,
    ensures
        transition(a, layer, source, number) is None ==> b == a,
        transition(a, layer, source, number) matches Some(x) ==> {
            &&& only_transition(a, b, layer, source, number)
            &&& transition(b, layer, source, number) matches Some(y) && {
                &&& y.to == x.to && y.duration == x.duration && y.conditions == x.conditions
                &&& x.exit_time is Some ==> y.exit_time is None
                &&& x.exit_time is None ==> y.exit_time == Some(0x3ff0_0000_0000_0000u64)
            }
        },
{
    if a.has_transition(layer, source, number) {
        lemma_only_transition(a, b, layer, source, number);
    }
}

/// The conditions of a transition, where it is there.
pub open spec fn conditions(
    m: Machine,
    layer: usize,
    source: TransitionSource,
    number: usize,
) -> Seq<Condition> {
    match transition(m, layer, source, number) {
        Some(t) => t.conditions@,
        None => Seq::empty(),
    }
}

/// Whether `b` is `a` but for one condition of one transition, which is now `now`.
pub open spec fn only_condition(
    a: Machine,
    b: Machine,
    layer: usize,
    source: TransitionSource,
    number: usize,
    index: usize,
    now: Condition,
) -> bool {
    let before = conditions(a, layer, source, number);
    let after = conditions(b, layer, source, number);
    &&& only_transition(a, b, layer, source, number)
    &&& after.len() == before.len()
    &&& after[index as int] == now
    &&& forall|i: int|
        0 <= i < before.len() && i != index ==> #[trigger] after[i] == before[i]
    &&& transition(b, layer, source, number) is Some
    &&& transition(b, layer, source, number)->0.to == transition(a, layer, source, number)->0.to
    &&& transition(b, layer, source, number)->0.duration == transition(
        a,
        layer,
        source,
        number,
    )->0.duration
    &&& transition(b, layer, source, number)->0.exit_time == transition(
        a,
        layer,
        source,
        number,
    )->0.exit_time
}

/// A condition is read by its number.
pub proof fn law_conditions_are_read_by_number(
    a: Machine,
    layer: usize,
    source: TransitionSource,
    number: usize,
    index: usize,
    r: Option<Condition>,
    there: bool,
)
    requires
        call_ensures(Machine::condition, (&a, layer, source, number, index), r),
        call_ensures(Machine::holds_transition, (&a, layer, source, number), there),
    ensures
        there <==> transition(a, layer, source, number) is Some,
        r is Some <==> index < conditions(a, layer, source, number).len(),
        r is Some ==> r->0 == conditions(a, layer, source, number)[index as int],
{
}

/// Flipping a condition on a truth value makes it ask for the opposite of what is shown,
/// on the same input; no other condition changes.
pub proof fn law_condition_is_flipped(
    a: Machine,
    b: Machine,
    layer: usize,
    source: TransitionSource,
    number: usize,
    index: usize,
    shown: bool,
)
    requires
        exists|m: &mut Machine| #[trigger]
            call_ensures(Machine::flip_condition, (m, layer, source, number, index, shown), ())
                && *m == a && *final(m) == b,
    ensures
        ({
            let all = conditions(a, layer, source, number);
            if index < all.len() && all[index as int] is BoolIs {
                only_condition(
                    a,
                    b,
                    layer,
                    source,
                    number,
                    index,
                    Condition::BoolIs { input: all[index as int]->BoolIs_input, value: !shown },
                )
            } else {
                b == a
            }
        }),
{
    if a.has_transition(layer, source, number) && index < conditions(
        a,
        layer,
        source,
        number,
    ).len() && conditions(a, layer, source, number)[index as int] is BoolIs {
        lemma_only_transition(a, b, layer, source, number);
    }
}

/// Cycling a comparison goes to the next one, on the same input and value.
pub proof fn law_comparison_is_cycled(
    a: Machine,
    b: Machine,
    layer: usize,
    source: TransitionSource,
    number: usize,
    index: usize,
    next: Comparison,
)
    requires
        index < conditions(a, layer, source, number).len(),
        conditions(a, layer, source, number)[index as int] is Number,
        call_ensures(
            next_comparison,
            (conditions(a, layer, source, number)[index as int]->Number_op,),
            next,
        ),
        exists|m: &mut Machine| #[trigger]
            call_ensures(Machine::cycle_comparison, (m, layer, source, number, index), ()) && *m
                == a && *final(m) == b,
    ensures
        ({
            let was = conditions(a, layer, source, number)[index as int];
            only_condition(
                a,
                b,
                layer,
                source,
                number,
                index,
                Condition::Number {
                    input: was->Number_input,
                    op: next,
                    value: was->Number_value,
                },
            )
        }),
{
    lemma_only_transition(a, b, layer, source, number);
}

/// Where the condition is not on a number, cycling its comparison and setting its value
/// change nothing.
pub proof fn law_only_numbers_are_compared(
    a: Machine,
    layer: usize,
    source: TransitionSource,
    number: usize,
    index: usize,
)
    requires
        index >= conditions(a, layer, source, number).len() || !(conditions(
            a,
            layer,
            source,
            number,
        )[index as int] is Number),
    ensures
        forall|m: &mut Machine|
            *m == a && #[trigger] call_ensures(
                Machine::cycle_comparison,
                (m, layer, source, number, index),
                (),
            ) ==> *final(m) == a,
        forall|m: &mut Machine, v: u64|
            *m == a && #[trigger] call_ensures(
                Machine::set_condition_value,
                (m, layer, source, number, index, v),
                (),
            ) ==> *final(m) == a,
{
}

/// Setting the value of a condition on a number keeps its input and its comparison.
pub proof fn law_condition_value_is_set(
    a: Machine,
    b: Machine,
    layer: usize,
    source: TransitionSource,
    number: usize,
    index: usize,
    v: u64,
)
    requires
        index < conditions(a, layer, source, number).len(),
        conditions(a, layer, source, number)[index as int] is Number,
        exists|m: &mut Machine| #[trigger]
            call_ensures(Machine::set_condition_value, (m, layer, source, number, index, v), ())
                && *m == a && *final(m) == b,
    ensures
        ({
            let was = conditions(a, layer, source, number)[index as int];
            only_condition(
                a,
                b,
                layer,
                source,
                number,
                index,
                Condition::Number { input: was->Number_input, op: was->Number_op, value: v },
            )
        }),
{
    lemma_only_transition(a, b, layer, source, number);
}

/// The comparisons in the order in which they follow each other.
pub open spec fn comparison_ring() -> Seq<Comparison> {
    seq![
        Comparison::Ge,
        Comparison::Gt,
        Comparison::Le,
        Comparison::Lt,
        Comparison::Eq,
        Comparison::Ne,
    ]
}

/// The comparisons follow each other in a ring that holds each of them once.
pub proof fn law_comparisons_form_a_ring(i: int, next: Comparison)
    requires
        0 <= i < 6,
        call_ensures(next_comparison, (comparison_ring()[i],), next),
    ensures
        next == comparison_ring()[if i == 5 {
            0
        } else {
            i + 1
        }],
        comparison_ring().no_duplicates(),
{
}

/// Setting the clip of a state keeps how a clip plays there; any other state becomes a
/// clip that plays once at its own speed.
pub proof fn law_clip_is_set(
    a: Machine,
    b: Machine,
    layer: usize,
    state: usize,
    clip: ClipId,
)
    requires
        kind_of(a, layer, state) is Some,
        exists|m: &mut Machine| #[trigger]
            call_ensures(Machine::set_clip, (m, layer, state, clip), ()) && *m == a && *final(m)
                == b,
    ensures
        only_kind(a, b, layer, state),
        kind_of(b, layer, state) matches Some(StateKind::Clip { clip: c, speed, loop_mode }) && {
            &&& c == clip
            &&& kind_of(a, layer, state)->0 matches StateKind::Clip { speed: s, loop_mode: l, .. }
                ==> speed == s && loop_mode == l
            &&& !(kind_of(a, layer, state)->0 is Clip) ==> speed == 0x3ff0_0000_0000_0000u64
                && loop_mode is Once
        },
{
    lemma_only_kind(a, b, layer, state);
}

/// Setting how a clip plays changes just that, and only in a state with a clip.
pub proof fn law_clip_playing_is_set(
    a: Machine,
    layer: usize,
    state: usize,
    mode: LoopMode,
    rate: u64,
)
    requires
        kind_of(a, layer, state) is Some,
    ensures
        forall|m: &mut Machine|
            *m == a && #[trigger] call_ensures(
                Machine::set_clip_loop,
                (m, layer, state, mode),
                (),
            ) ==> (match kind_of(a, layer, state)->0 {
                StateKind::Clip { clip, speed, .. } => only_kind(a, *final(m), layer, state)
                    && kind_of(*final(m), layer, state) == Some(
                    StateKind::Clip { clip, speed, loop_mode: mode },
                ),
                _ => *final(m) == a,
            }),
        forall|m: &mut Machine|
            *m == a && #[trigger] call_ensures(
                Machine::set_clip_speed,
                (m, layer, state, rate),
                (),
            ) ==> (match kind_of(a, layer, state)->0 {
                StateKind::Clip { clip, loop_mode, .. } => only_kind(a, *final(m), layer, state)
                    && kind_of(*final(m), layer, state) == Some(
                    StateKind::Clip { clip, speed: rate, loop_mode },
                ),
                _ => *final(m) == a,
            }),
{
    assert forall|m: &mut Machine|
        *m == a && #[trigger] call_ensures(
            Machine::set_clip_loop,
            (m, layer, state, mode),
            (),
        ) implies (match kind_of(a, layer, state)->0 {
        StateKind::Clip { clip, speed, .. } => only_kind(a, *final(m), layer, state) && kind_of(
            *final(m),
            layer,
            state,
        ) == Some(StateKind::Clip { clip, speed, loop_mode: mode }),
        _ => *final(m) == a,
    }) by {
        if kind_of(a, layer, state)->0 is Clip {
            lemma_only_kind(a, *final(m), layer, state);
        }
    }
    assert forall|m: &mut Machine|
        *m == a && #[trigger] call_ensures(
            Machine::set_clip_speed,
            (m, layer, state, rate),
            (),
        ) implies (match kind_of(a, layer, state)->0 {
        StateKind::Clip { clip, loop_mode, .. } => only_kind(a, *final(m), layer, state)
            && kind_of(*final(m), layer, state) == Some(
            StateKind::Clip { clip, speed: rate, loop_mode },
        ),
        _ => *final(m) == a,
    }) by {
        if kind_of(a, layer, state)->0 is Clip {
            lemma_only_kind(a, *final(m), layer, state);
        }
    }
}

/// The children that a state blends.
pub open spec fn blends(m: Machine, layer: usize, state: usize) -> Seq<BlendChild> {
    match kind_of(m, layer, state) {
        Some(StateKind::Blend1D { children, .. }) => children@,
        _ => Seq::empty(),
    }
}

/// The input that a state blends by, where it blends.
pub open spec fn blend_input(m: Machine, layer: usize, state: usize) -> Option<usize> {
    match kind_of(m, layer, state) {
        Some(StateKind::Blend1D { input, .. }) => Some(input),
        _ => None,
    }
}

/// Setting the input of a blend keeps its children; a state that does not blend gets none.
pub proof fn law_blend_input_is_set(
    a: Machine,
    b: Machine,
    layer: usize,
    state: usize,
    input: usize,
)
    requires
        kind_of(a, layer, state) is Some,
        exists|m: &mut Machine| #[trigger]
            call_ensures(Machine::set_blend_input, (m, layer, state, input), ()) && *m == a
                && *final(m) == b,
    ensures
        only_kind(a, b, layer, state),
        blend_input(b, layer, state) == Some(input),
        blends(b, layer, state) == blends(a, layer, state),
{
    lemma_only_kind(a, b, layer, state);
}

/// A new child of a blend comes last; the others stay. A state that does not blend
/// takes none.
pub proof fn law_blend_child_is_added_and_removed(
    a: Machine,
    b: Machine,
    layer: usize,
    state: usize,
    child: BlendChild,
)
    requires
        kind_of(a, layer, state) is Some,
        exists|m: &mut Machine| #[trigger]
            call_ensures(Machine::push_blend_child, (m, layer, state, child), ()) && *m == a
                && *final(m) == b,
    ensures
        blend_input(a, layer, state) is None ==> b == a,
        blend_input(a, layer, state) is Some ==> {
            &&& only_kind(a, b, layer, state)
            &&& blend_input(b, layer, state) == blend_input(a, layer, state)
            &&& blends(b, layer, state) == blends(a, layer, state).push(child)
        },
        blend_input(a, layer, state) is Some && blends(a, layer, state).len() < usize::MAX
            ==> forall|m: &mut Machine| #[trigger]
            call_ensures(
                Machine::remove_blend_child,
                (m, layer, state, blends(a, layer, state).len() as usize),
                (),
            ) && *m == b ==> {
                &&& only_kind(b, *final(m), layer, state)
                &&& blends(*final(m), layer, state) == blends(a, layer, state)
                &&& blend_input(*final(m), layer, state) == blend_input(a, layer, state)
            },
{
    if blend_input(a, layer, state) is Some {
        lemma_only_kind(a, b, layer, state);
        let was = blends(a, layer, state);
        let n = was.len() as usize;
        if was.len() < usize::MAX {
            assert forall|m: &mut Machine| #[trigger]
                call_ensures(Machine::remove_blend_child, (m, layer, state, n), ()) && *m
                    == b implies {
                &&& only_kind(b, *final(m), layer, state)
                &&& blends(*final(m), layer, state) == was
                &&& blend_input(*final(m), layer, state) == blend_input(a, layer, state)
            } by {
                lemma_only_kind(b, *final(m), layer, state);
                assert(was.push(child).remove(n as int) =~= was);
            }
        }
    }
}

/// Removing a child of a blend takes out just that one; setting its clip keeps its
/// threshold and its place.
pub proof fn law_blend_children_change_one_by_one(
    a: Machine,
    layer: usize,
    state: usize,
    index: usize,
    clip: ClipId,
)
    requires
        kind_of(a, layer, state) is Some,
    ensures
        forall|m: &mut Machine|
            *m == a && #[trigger] call_ensures(
                Machine::remove_blend_child,
                (m, layer, state, index),
                (),
            ) ==> {
                let was = blends(a, layer, state);
                let now = blends(*final(m), layer, state);
                if index < was.len() {
                    &&& only_kind(a, *final(m), layer, state)
                    &&& blend_input(*final(m), layer, state) == blend_input(a, layer, state)
                    &&& now.len() == was.len() - 1
                    &&& forall|i: int| 0 <= i < index ==> #[trigger] now[i] == was[i]
                    &&& forall|i: int| index <= i < now.len() ==> #[trigger] now[i] == was[i + 1]
                } else {
                    *final(m) == a
                }
            },
        forall|m: &mut Machine|
            *m == a && #[trigger] call_ensures(
                Machine::set_blend_child_clip,
                (m, layer, state, index, clip),
                (),
            ) ==> {
                let was = blends(a, layer, state);
                let now = blends(*final(m), layer, state);
                if index < was.len() {
                    &&& only_kind(a, *final(m), layer, state)
                    &&& blend_input(*final(m), layer, state) == blend_input(a, layer, state)
                    &&& now.len() == was.len()
                    &&& now[index as int].clip == clip
                    &&& now[index as int].threshold == was[index as int].threshold
                    &&& forall|i: int|
                        0 <= i < was.len() && i != index ==> #[trigger] now[i] == was[i]
                } else {
                    *final(m) == a
                }
            },
{
    let was = blends(a, layer, state);
    if index < was.len() {
        assert forall|m: &mut Machine|
            *m == a && #[trigger] call_ensures(
                Machine::remove_blend_child,
                (m, layer, state, index),
                (),
            ) implies only_kind(a, *final(m), layer, state) by {
            lemma_only_kind(a, *final(m), layer, state);
        }
        assert forall|m: &mut Machine|
            *m == a && #[trigger] call_ensures(
                Machine::set_blend_child_clip,
                (m, layer, state, index, clip),
                (),
            ) implies only_kind(a, *final(m), layer, state) by {
            lemma_only_kind(a, *final(m), layer, state);
        }
    }
}

/// Whether the selection names something that the machine has.
pub open spec fn is_there(m: Machine, selection: MachineSelection) -> bool {
    match selection {
        MachineSelection::Layer { layer } => layer < m.layers@.len(),
        MachineSelection::State { layer, state } => kind_of(m, layer, state) is Some,
        MachineSelection::Transition { layer, source, transition: t } => transition(
            m,
            layer,
            source,
            t,
        ) is Some,
        _ => true,
    }
}

/// A selection in a machine stays where what it names is there, and is dropped where it
/// is gone from a layer that is there; the active layer is one that is there, the last
/// where it is gone.
pub proof fn law_machine_selection_stays_where_it_is_there(a: Session, m: Machine, r: bool)
    requires
        call_ensures(Machine::has_selection, (&m, a.machine_selection), r),
    ensures
        r <==> is_there(m, a.machine_selection),
        forall|s: &mut Session|
            *s == a && a.active_machine is Some && #[trigger] call_ensures(
                Session::validate_machine_selection,
                (s, Some(&m)),
                (),
            ) ==> {
                &&& is_there(m, a.machine_selection) ==> (*final(s)).machine_selection
                    == a.machine_selection
                &&& !is_there(m, a.machine_selection) && !(a.machine_selection is Transition)
                    ==> (*final(s)).machine_selection is Nothing
                &&& a.machine_selection matches MachineSelection::Transition { layer, .. } ==> (
                m.layers@.len() > layer && !is_there(m, a.machine_selection)
                    ==> (*final(s)).machine_selection is Nothing)
                &&& m.layers@.len() > 0 ==> (*final(s)).active_machine_layer < m.layers@.len()
                &&& a.active_machine_layer < m.layers@.len() ==> (*final(s)).active_machine_layer
                    == a.active_machine_layer
                &&& m.layers@.len() > 0 && a.active_machine_layer >= m.layers@.len()
                    ==> (*final(s)).active_machine_layer == m.layers@.len() - 1
                &&& (*final(s)).dirty == a.dirty && (*final(s)).active_machine == a.active_machine
            },
        forall|s: &mut Session|
            *s == a && a.active_machine is None && #[trigger] call_ensures(
                Session::validate_machine_selection,
                (s, Some(&m)),
                (),
            ) ==> (*final(s)).machine_selection is Nothing && (*final(s)).active_machine_layer == 0,
{
    assert(m.layers.len() == m.layers@.len());
}

/// New things go to the layer that the selection is in, else to the active one.
pub proof fn law_selection_aims_at_its_layer(a: Session, r: usize)
    requires
        call_ensures(Session::target_layer, (&a,), r),
    ensures
        match a.machine_selection {
            MachineSelection::Layer { layer } => r == layer,
            MachineSelection::State { layer, .. } => r == layer,
            MachineSelection::Transition { layer, .. } => r == layer,
            MachineSelection::Nothing => r == a.active_machine_layer,
            MachineSelection::Input { .. } => r == a.active_machine_layer,
            MachineSelection::Listener { .. } => r == a.active_machine_layer,
        },
{
}

/// New states, layers and machines are numbered by how many there are with them.
pub proof fn law_new_things_are_counted(m: Machine, layer: usize, n: usize)
    ensures
        forall|r: String| #[trigger]
            call_ensures(Machine::next_state_name, (&m, layer), r) ==> r@ == "State "@ + decimal(
                if layer < m.layers@.len() {
                    m.layers@[layer as int].states@.len() + 1
                } else {
                    1
                },
            ),
        forall|r: String| #[trigger]
            call_ensures(Machine::next_layer_name, (&m,), r) ==> r@ == "Layer "@ + decimal(
                m.layers@.len() + 1,
            ),
        forall|r: Machine| #[trigger]
            call_ensures(Machine::blank, (n,), r) ==> {
                &&& r.name@ == "State Machine "@ + decimal((n + 1) as nat)
                &&& r.inputs@.len() == 0 && r.listeners@.len() == 0 && r.layers@.len() == 1
                &&& r.layers@[0].states@.len() == 1 && r.layers@[0].entry == 0
                &&& r.layers@[0].states@[0].kind is Empty
                &&& r.layers@[0].any_transitions@.len() == 0
                &&& r.layers@[0].states@[0].transitions@.len() == 0
            },
{
}

} // verus!
