//! What the machine panel lists, names and offers.
use vstd::prelude::*;

use crate::machine::{
    BlendChild, ClipId, Comparison, Condition, InputDef, InputKind, InputValue, Listener,
    ListenerAction, Machine, MachineSelection, StateKind,
    TransitionSource,
};
use crate::machine_laws::{kind_of, transition};
use crate::machine_ui::{
    active_names, blend_clip_label, comparison_label, condition_label, first_number,
    flipped_default, input_name, input_row, listed_name, listener_action_label, name_try,
    new_input_name, number_input_index, preview_control, preview_line, selection_inspector,
    state_clip_label, state_inspector, targets, transition_inspector, transition_targets,
    unique_input_name, DraftAction, InputControl, InspectorRow, KindChange, ListedClip,
    PreviewControl,
};
use crate::model::NodeId;
use crate::session::{PointerEventKind, Session};
use crate::strings::decimal;

verus! {

/// Whether no input has the name.
pub open spec fn is_new(m: Machine, name: Seq<char>) -> bool {
    forall|i: int| 0 <= i < m.inputs@.len() ==> (#[trigger] m.inputs@[i]).name@ != name
}

/// Whether the name is the base, or the base and a number from two on, and is the first
/// of these that no input has.
pub open spec fn is_first_new(m: Machine, base: Seq<char>, name: Seq<char>) -> bool {
    &&& is_new(m, name)
    &&& is_new(m, base) ==> name == base
    &&& !is_new(m, base) ==> exists|k: nat|
        {
            &&& k >= 2
            &&& name == base + " "@ + #[trigger] decimal(k)
            &&& forall|j: nat| 2 <= j < k ==> !is_new(m, base + " "@ + #[trigger] decimal(j))
        }
}

proof fn lemma_first_new(m: Machine, base: Seq<char>, name: Seq<char>)
    requires
        crate::machine_ui::is_unique_name(m, base, name),
    ensures
        is_first_new(m, base, name),
{
    let k = choose|k: nat| #[trigger]
        name_try(base, k) == name && !crate::machine_ui::name_taken(m.inputs@, name) && forall|
            j: nat,
        |
            j < k ==> crate::machine_ui::name_taken(m.inputs@, #[trigger] name_try(base, j));
    if k > 0 {
        assert(crate::machine_ui::name_taken(m.inputs@, name_try(base, 0)));
        assert(!is_new(m, base));
        assert(name == base + " "@ + decimal(k + 1));
        assert forall|j: nat| 2 <= j < k + 1 implies !is_new(
            m,
            base + " "@ + #[trigger] decimal(j),
        ) by {
            assert(crate::machine_ui::name_taken(m.inputs@, name_try(base, (j - 1) as nat)));
        }
    }
}

/// A new input's name is one that no input has: the base where that is free, else the
/// base with the lowest number from two on that is free.
pub proof fn law_new_names_are_free(m: Machine, base: &str, kind: InputKind)
    ensures
        forall|r: String| #[trigger]
            call_ensures(unique_input_name, (&m, base), r) ==> is_first_new(m, base@, r@),
        forall|r: String| #[trigger]
            call_ensures(new_input_name, (Some(&m), kind), r) ==> is_first_new(
                m,
                match kind {
                    InputKind::Bool { .. } => "Boolean"@,
                    InputKind::Number { .. } => "Number"@,
                    InputKind::Trigger => "Trigger"@,
                },
                r@,
            ),
{
    assert forall|r: String| #[trigger]
        call_ensures(unique_input_name, (&m, base), r) implies is_first_new(m, base@, r@) by {
        lemma_first_new(m, base@, r@);
    }
    assert forall|r: String| #[trigger]
        call_ensures(new_input_name, (Some(&m), kind), r) implies is_first_new(
        m,
        match kind {
            InputKind::Bool { .. } => "Boolean"@,
            InputKind::Number { .. } => "Number"@,
            InputKind::Trigger => "Trigger"@,
        },
        r@,
    ) by {
        lemma_first_new(m, crate::machine_ui::new_input_base(kind)@, r@);
    }
}

/// The first input that is a number.
pub proof fn law_first_number_input(inputs: Vec<InputDef>, r: Option<usize>)
    requires
        call_ensures(number_input_index, (&inputs,), r),
    ensures
        r matches Some(i) ==> i < inputs@.len() && inputs@[i as int].kind is Number && forall|
            j: int,
        |
            0 <= j < i ==> !((#[trigger] inputs@[j]).kind is Number),
        r is None ==> forall|j: int|
            0 <= j < inputs@.len() ==> !((#[trigger] inputs@[j]).kind is Number),
{
    lemma_first_number(inputs@);
}

proof fn lemma_first_number(s: Seq<InputDef>)
    ensures
        first_number(s) matches Some(i) ==> 0 <= i < s.len() && s[i].kind is Number && forall|
            j: int,
        |
            0 <= j < i ==> !((#[trigger] s[j]).kind is Number),
        first_number(s) is None ==> forall|j: int|
            0 <= j < s.len() ==> !((#[trigger] s[j]).kind is Number),
    decreases s.len(),
{
    if s.len() > 0 && !(s[0].kind is Number) {
        let rest = s.drop_first();
        lemma_first_number(rest);
        assert forall|j: int| 0 < j < s.len() implies s[j] == rest[j - 1] by {}
    }
}

/// A transition can go to every state but the one that it comes from, each once and in
/// order.
pub proof fn law_targets_are_all_other_states(
    source: TransitionSource,
    states: usize,
    r: Vec<usize>,
)
    requires
        call_ensures(transition_targets, (source, states), r),
    ensures
        forall|x: usize| #[trigger]
            r@.contains(x) <==> x < states && source != TransitionSource::State(x),
        forall|i: int, j: int| 0 <= i < j < r@.len() ==> #[trigger] r@[i] < #[trigger] r@[j],
{
    lemma_targets(source, states as nat);
}

proof fn lemma_targets(source: TransitionSource, n: nat)
    requires
        n <= usize::MAX,
    ensures
        forall|x: usize| #[trigger]
            targets(source, n).contains(x) <==> x < n && source != TransitionSource::State(x),
        forall|i: int, j: int|
            0 <= i < j < targets(source, n).len() ==> #[trigger] targets(source, n)[i]
                < #[trigger] targets(source, n)[j],
    decreases n,
{
    if n > 0 {
        let m = (n - 1) as nat;
        lemma_targets(source, m);
        let before = targets(source, m);
        let all = targets(source, n);
        assert forall|x: usize| #[trigger]
            all.contains(x) <==> x < n && source != TransitionSource::State(x) by {
            assert(before.contains(x) <==> x < m && source != TransitionSource::State(x));
            if before.contains(x) {
                let k = choose|k: int| 0 <= k < before.len() && before[k] == x;
                assert(all[k] == x);
            }
            if all.contains(x) && !before.contains(x) {
                let k = choose|k: int| 0 <= k < all.len() && all[k] == x;
                if k < before.len() {
                    assert(before[k] == x);
                }
                assert(x == m);
            }
            if x == m && source != TransitionSource::State(x) {
                assert(all[all.len() - 1] == x);
            }
        }
        assert forall|i: int, j: int| 0 <= i < j < all.len() implies #[trigger] all[i]
            < #[trigger] all[j] by {
            if j == before.len() {
                assert(before.contains(before[i]));
            }
        }
    }
}

/// Parts one after the other, with the separator between two.
pub open spec fn strung(parts: Seq<Seq<char>>, between: Seq<char>) -> Seq<char>
    decreases parts.len(),
{
    if parts.len() == 0 {
        Seq::empty()
    } else if parts.len() == 1 {
        parts[0]
    } else {
        strung(parts.drop_last(), between) + between + parts.last()
    }
}

/// The names of the active states, one for each layer.
pub open spec fn state_names(m: Machine, active: Seq<usize>) -> Seq<Seq<char>> {
    Seq::new(
        active.len(),
        |i: int|
            if i < m.layers@.len() && active[i] < m.layers@[i].states@.len() {
                m.layers@[i].states@[active[i] as int].name@
            } else {
                "?"@
            },
    )
}

proof fn lemma_active_names(m: Machine, active: Seq<usize>)
    ensures
        active_names(m, active) == strung(state_names(m, active), " · "@),
    decreases active.len(),
{
    if active.len() > 0 {
        lemma_active_names(m, active.drop_last());
        assert(state_names(m, active).drop_last() =~= state_names(m, active.drop_last()));
    }
}

/// The preview's line names the machine and the active state of every layer, in order.
pub proof fn law_preview_names_every_active_state(
    name: &str,
    m: Machine,
    active: Vec<usize>,
    r: String,
)
    requires
        call_ensures(preview_line, (name, &m, Some(&active)), r),
    ensures
        active@.len() > 0 ==> r@ == "▶ "@ + name@ + "  ·  "@ + strung(
            state_names(m, active@),
            " · "@,
        ),
        active@.len() == 0 ==> r@ == "▶ "@ + name@ + "  ·  "@ + "waiting"@,
{
    lemma_active_names(m, active@);
}

/// A clip is called what the first clip with its id is called.
pub proof fn law_clips_are_named_by_id(clips: Vec<ListedClip>, clip: ClipId, i: int)
    ensures
        forall|r: String|
            0 <= i < clips@.len() && clips@[i].id == clip && (forall|j: int|
                0 <= j < i ==> (#[trigger] clips@[j]).id != clip) && #[trigger] call_ensures(
                state_clip_label,
                (&clips, clip),
                r,
            ) ==> r@ == clips@[i].name@,
        forall|r: String|
            0 <= i < clips@.len() && clips@[i].id == clip && (forall|j: int|
                0 <= j < i ==> (#[trigger] clips@[j]).id != clip) && #[trigger] call_ensures(
                blend_clip_label,
                (&clips, clip),
                r,
            ) ==> r@ == clips@[i].name@,
        forall|r: String|
            (forall|j: int| 0 <= j < clips@.len() ==> (#[trigger] clips@[j]).id != clip)
                && #[trigger] call_ensures(state_clip_label, (&clips, clip), r) ==> r@
                == "No clip"@,
        forall|r: String|
            (forall|j: int| 0 <= j < clips@.len() ==> (#[trigger] clips@[j]).id != clip)
                && #[trigger] call_ensures(blend_clip_label, (&clips, clip), r) ==> r@ == "—"@,
{
    lemma_listed(clips@, clip, i, "No clip"@);
    lemma_listed(clips@, clip, i, "—"@);
}

proof fn lemma_listed(s: Seq<ListedClip>, clip: ClipId, i: int, missing: Seq<char>)
    ensures
        0 <= i < s.len() && s[i].id == clip && (forall|j: int|
            0 <= j < i ==> (#[trigger] s[j]).id != clip) ==> listed_name(s, clip, missing)
            == s[i].name@,
        (forall|j: int| 0 <= j < s.len() ==> (#[trigger] s[j]).id != clip) ==> listed_name(
            s,
            clip,
            missing,
        ) == missing,
    decreases s.len(),
{
    if s.len() > 0 {
        let rest = s.drop_first();
        lemma_listed(rest, clip, i - 1, missing);
        assert forall|j: int| 0 <= j < rest.len() implies #[trigger] rest[j] == s[j + 1] by {}
        if i > 0 {
            assert(s[0].id == clip || true);
        }
    }
}

/// The inspector of a state shows its kind, a row for each child that it blends, whether
/// it is the entry, and a row for each of its transitions, in order; nothing where the
/// state is not there.
pub proof fn law_state_inspector_shows_everything(
    m: Machine,
    layer: usize,
    state: usize,
    r: Vec<InspectorRow>,
)
    requires
        call_ensures(state_inspector, (&m, layer, state), r),
    ensures
        kind_of(m, layer, state) is None ==> r@.len() == 0,
        kind_of(m, layer, state) matches Some(kind) ==> {
            let n = m.layers@[layer as int].states@[state as int].transitions@.len() as int;
            let k = match kind {
                StateKind::Empty => 0int,
                StateKind::Clip { .. } => 3,
                StateKind::Blend1D { children, .. } => (children@.len() + 3) as int,
            };
            &&& r@.len() == 3 + k + 2 + n + 1
            &&& r@[0] == InspectorRow::Title("State")
            &&& r@[1] is Name
            &&& r@[2] == (InspectorRow::Kind {
                empty: kind is Empty,
                clip: kind is Clip,
                blend: kind is Blend1D,
            })
            &&& kind matches StateKind::Clip { clip, speed, loop_mode } ==> {
                &&& r@[3] == InspectorRow::Clip(clip)
                &&& r@[4] == InspectorRow::Speed(speed)
                &&& r@[5] == InspectorRow::Loop(loop_mode)
            }
            &&& kind matches StateKind::Blend1D { input, children } ==> {
                &&& r@[3] == InspectorRow::BlendInput(input)
                &&& r@[4] == InspectorRow::Title("Blend children")
                &&& forall|i: int|
                    0 <= i < children@.len() ==> #[trigger] r@[5 + i] == InspectorRow::BlendChild(
                        i as usize,
                    )
                &&& r@[(5 + children@.len()) as int] is AddBlendChild
            }
            &&& r@[3 + k] == InspectorRow::Entry(m.layers@[layer as int].entry == state)
            &&& r@[4 + k] == InspectorRow::Title("Transitions")
            &&& forall|i: int|
                0 <= i < n ==> #[trigger] r@[5 + k + i] == InspectorRow::Transition(i as usize)
            &&& r@[5 + k + n] is AddTransition
        },
{
}

/// The inspector of a transition shows where it goes, how long it takes, its exit and a
/// row for each of its conditions, in order.
pub proof fn law_transition_inspector_shows_everything(
    m: Machine,
    layer: usize,
    source: TransitionSource,
    number: usize,
    r: Vec<InspectorRow>,
)
    requires
        call_ensures(transition_inspector, (&m, layer, source, number), r),
    ensures
        transition(m, layer, source, number) is None ==> r@.len() == 0,
        transition(m, layer, source, number) matches Some(t) ==> {
            let e = if t.exit_time is Some {
                1int
            } else {
                0int
            };
            let n = t.conditions@.len() as int;
            &&& r@.len() == 4 + e + 1 + n + 2
            &&& r@[1] == InspectorRow::Target(t.to)
            &&& r@[2] == InspectorRow::Duration(t.duration)
            &&& r@[3] == InspectorRow::Exit(t.exit_time is Some)
            &&& t.exit_time matches Some(v) ==> r@[4] == InspectorRow::ExitValue(v)
            &&& r@[4 + e] == InspectorRow::Title("Conditions (AND)")
            &&& forall|i: int|
                0 <= i < n ==> #[trigger] r@[5 + e + i] == InspectorRow::Condition(i as usize)
            &&& r@[5 + e + n] is AddCondition
            &&& r@[6 + e + n] is DeleteTransition
        },
{
}

/// The inspector shows what is selected: the rows of the selected state or transition,
/// and those of the selected layer with its own counts.
pub proof fn law_inspector_follows_the_selection(
    m: Machine,
    selection: MachineSelection,
    r: Vec<InspectorRow>,
)
    requires
        call_ensures(selection_inspector, (&m, selection), r),
    ensures
        selection matches MachineSelection::State { layer, state } ==> forall|q: Vec<InspectorRow>|
            #[trigger] call_ensures(state_inspector, (&m, layer, state), q) ==> r@ == q@,
        selection matches MachineSelection::Transition { layer, source, transition: t } ==> forall|
            q: Vec<InspectorRow>,
        | #[trigger] call_ensures(transition_inspector, (&m, layer, source, t), q) ==> r@ == q@,
        selection matches MachineSelection::Layer { layer } ==> {
            &&& layer >= m.layers@.len() ==> r@.len() == 0
            &&& m.layers@.len() > layer ==> r@.contains(
                InspectorRow::Summary {
                    states: m.layers@[layer as int].states.len(),
                    any: m.layers@[layer as int].any_transitions.len(),
                },
            )
        },
        !(selection is State) && !(selection is Transition) && !(selection is Layer) ==> r@
            == seq![InspectorRow::Title("Select a state, edge, or Any node")],
{
    if let MachineSelection::Layer { layer } = selection {
        if m.layers@.len() > layer {
            assert(r@[1] == (InspectorRow::Summary {
                states: m.layers@[layer as int].states.len(),
                any: m.layers@[layer as int].any_transitions.len(),
            }));
        }
    }
}

/// The input that an action is on.
pub open spec fn action_input(action: ListenerAction) -> usize {
    match action {
        ListenerAction::SetBool { input, .. } => input,
        ListenerAction::ToggleBool { input } => input,
        ListenerAction::SetNumber { input, .. } => input,
        ListenerAction::FireTrigger { input } => input,
    }
}

/// A listener is made from a draft that names an event and an input that is there; it
/// listens on the node for that event and does to that input what fits its kind.
pub proof fn law_listener_is_what_was_drafted(
    a: Session,
    node: NodeId,
    inputs: Vec<InputDef>,
    r: Option<Listener>,
)
    requires
        call_ensures(Session::listener_from_draft, (&a, node, &inputs), r),
    ensures
        r is Some <==> a.listener_draft.event is Some && a.listener_draft.input is Some
            && a.listener_draft.input->0 < inputs@.len(),
        r matches Some(listener) ==> {
            let i = a.listener_draft.input->0;
            let kind = inputs@[i as int].kind;
            &&& listener.node == node
            &&& Some(listener.event) == a.listener_draft.event
            &&& action_input(listener.action) == i
            &&& kind is Trigger <==> listener.action is FireTrigger
            &&& kind is Number <==> listener.action is SetNumber
            &&& kind is Number ==> listener.action->SetNumber_value
                == a.listener_draft.number_value
            &&& kind is Bool ==> (listener.action is ToggleBool <==> a.listener_draft.toggle)
            &&& kind is Bool && !a.listener_draft.toggle ==> listener.action
                == (ListenerAction::SetBool { input: i, value: a.listener_draft.bool_value })
        },
{
}

/// Picking an event, an input and an action changes the draft just there: a picked
/// action is what the listener then does, and an input is picked by its name.
pub proof fn law_drafts_take_what_is_picked(a: Session, inputs: Vec<InputDef>, name: &str)
    ensures
        forall|s: &mut Session, e: PointerEventKind|
            *s == a && #[trigger] call_ensures(Session::pick_draft_event, (s, e), ()) ==> {
                &&& (*final(s)).listener_draft.event == Some(e)
                &&& (*final(s)).listener_draft.input == a.listener_draft.input
                &&& (*final(s)).listener_draft.toggle == a.listener_draft.toggle
                &&& (*final(s)).listener_draft.bool_value == a.listener_draft.bool_value
                &&& (*final(s)).listener_draft.number_value == a.listener_draft.number_value
            },
        forall|s: &mut Session|
            *s == a && #[trigger] call_ensures(Session::pick_draft_input, (s, &inputs, name), ())
                ==> {
                &&& (*final(s)).listener_draft.event == a.listener_draft.event
                &&& (*final(s)).listener_draft.toggle == a.listener_draft.toggle
                &&& (*final(s)).listener_draft.input matches Some(i) && {
                    &&& (exists|j: int|
                        0 <= j < inputs@.len() && (#[trigger] inputs@[j]).name@ == name@)
                        ==> inputs@.len() > i && inputs@[i as int].name@ == name@
                    &&& forall|j: int| 0 <= j < i ==> (#[trigger] inputs@[j]).name@ != name@
                    &&& (forall|j: int|
                        0 <= j < inputs@.len() ==> (#[trigger] inputs@[j]).name@ != name@) ==> i
                        == 0
                }
            },
        forall|s: &mut Session, act: DraftAction|
            *s == a && #[trigger] call_ensures(Session::pick_draft_action, (s, act), ()) ==> {
                let d = (*final(s)).listener_draft;
                &&& d.event == a.listener_draft.event && d.input == a.listener_draft.input
                &&& d.toggle <==> act is Toggle
                &&& act is SetTrue ==> d.bool_value
                &&& act is SetFalse ==> !d.bool_value
                &&& act is SetNumber ==> d.number_value == 0
            },
{
}

/// The actions that are offered fit the picked input, and a listener made after picking
/// one does just that.
pub proof fn law_offered_actions_fit(
    a: Session,
    inputs: Vec<InputDef>,
    node: NodeId,
    act: DraftAction,
    r: Vec<DraftAction>,
)
    requires
        call_ensures(Session::draft_actions, (&a, &inputs), r),
    ensures
        ({
            let picked = a.listener_draft.input is Some && a.listener_draft.input->0
                < inputs@.len();
            let kind = inputs@[a.listener_draft.input->0 as int].kind;
            &&& !picked ==> r@.len() == 0
            &&& picked ==> (r@.contains(act) <==> match act {
                DraftAction::SetTrue => kind is Bool,
                DraftAction::SetFalse => kind is Bool,
                DraftAction::Toggle => kind is Bool,
                DraftAction::SetNumber => kind is Number,
                DraftAction::Fire => kind is Trigger,
            })
            &&& picked && r@.contains(act) && a.listener_draft.event is Some ==> forall|
                s: &mut Session,
                made: Option<Listener>,
            |
                *s == a && #[trigger] call_ensures(Session::pick_draft_action, (s, act), ())
                    && #[trigger] call_ensures(
                    Session::listener_from_draft,
                    (final(s), node, &inputs),
                    made,
                ) ==> made is Some && (match act {
                    DraftAction::SetTrue => made->0.action is SetBool
                        && made->0.action->SetBool_value,
                    DraftAction::SetFalse => made->0.action is SetBool
                        && !made->0.action->SetBool_value,
                    DraftAction::Toggle => made->0.action is ToggleBool,
                    DraftAction::SetNumber => made->0.action is SetNumber,
                    DraftAction::Fire => made->0.action is FireTrigger,
                })
        }),
        forall|s: &mut Session|
            *s == a && #[trigger] call_ensures(Session::listener_added, (s,), ())
                ==> (*final(s)).listener_draft.event is None
                && (*final(s)).listener_draft.input is None,
{
    if a.listener_draft.input is Some && a.listener_draft.input->0 < inputs@.len() {
        let kind = inputs@[a.listener_draft.input->0 as int].kind;
        if kind is Bool {
            assert(r@[0] is SetTrue && r@[1] is SetFalse && r@[2] is Toggle);
        } else {
            assert(kind is Number ==> r@[0] is SetNumber);
            assert(kind is Trigger ==> r@[0] is Fire);
        }
    }
}

/// A live control shows the value that the input has, where that fits its kind.
pub proof fn law_live_controls_show_the_value(
    kind: InputKind,
    value: Option<InputValue>,
    r: PreviewControl,
)
    requires
        call_ensures(preview_control, (kind, value), r),
    ensures
        kind is Trigger <==> r is Fire,
        kind is Bool ==> (value matches Some(InputValue::Bool(on)) ==> r
            == (PreviewControl::Switch { on })),
        kind is Number ==> (value matches Some(InputValue::Number(v)) ==> r
            == (PreviewControl::Number { value: v })),
        r is Switch ==> kind is Bool && value is Some && value->0 is Bool,
        r is Number ==> kind is Number && value is Some && value->0 is Number,
{
}

/// The row of an input shows its default and its live value, its name, and the button to
/// remove it exactly where nothing refers to it.
pub proof fn law_input_rows_offer_removal_of_unused_inputs(
    kind: InputKind,
    value: Option<InputValue>,
    referenced: bool,
    live: PreviewControl,
    r: Vec<InputControl>,
)
    requires
        call_ensures(input_row, (kind, value, referenced), r),
        call_ensures(preview_control, (kind, value), live),
    ensures
        r@.contains(InputControl::Remove) <==> !referenced,
        r@.contains(InputControl::Live { control: live }),
        r@.contains(InputControl::Name),
        kind matches InputKind::Bool { default } ==> r@[1] is DefaultSwitch
            && r@[1]->DefaultSwitch_on == default,
        kind matches InputKind::Number { default } ==> r@[1] == (InputControl::DefaultNumber {
            value: default,
        }),
        r@.len() == 3 + (if kind is Trigger {
            0int
        } else {
            1int
        }) + (if referenced {
            0int
        } else {
            1int
        }),
{
    let d = if kind is Trigger {
        0int
    } else {
        1int
    };
    assert(r@[1 + d] == InputControl::Live { control: live });
    assert(r@[2 + d] is Name);
    if !referenced {
        assert(r@[3 + d] is Remove);
    }
}

/// Flipping the default of a truth value turns it into its opposite; flipping it twice
/// gives it back.
pub proof fn law_default_is_flipped(d: bool, shown: bool, r: InputKind, again: InputKind)
    requires
        call_ensures(flipped_default, (Some(InputKind::Bool { default: d }), shown), r),
        call_ensures(flipped_default, (Some(r), shown), again),
    ensures
        r == (InputKind::Bool { default: !d }),
        again == (InputKind::Bool { default: d }),
{
}

/// A label says the name of the input that it is about, or a question mark where the
/// input is not there.
pub proof fn law_labels_name_their_input(
    inputs: Vec<InputDef>,
    i: usize,
    op: Comparison,
    v: u64,
    b: bool,
    number: &str,
    name: String,
    sign: &'static str,
)
    requires
        call_ensures(input_name, (&inputs, i), name),
        call_ensures(comparison_label, (op,), sign),
    ensures
        name@ == (if i < inputs@.len() {
            inputs@[i as int].name@
        } else {
            "?"@
        }),
        forall|r: String| #[trigger]
            call_ensures(
                condition_label,
                (&inputs, Condition::Number { input: i, op, value: v }, number),
                r,
            ) ==> r@ == name@ + " "@ + sign@ + " "@ + number@,
        forall|r: String| #[trigger]
            call_ensures(
                condition_label,
                (&inputs, Condition::BoolIs { input: i, value: b }, number),
                r,
            ) ==> r@ == name@ + " == "@ + (if b {
                "true"@
            } else {
                "false"@
            }),
        forall|r: String| #[trigger]
            call_ensures(condition_label, (&inputs, Condition::Triggered { input: i }, number), r)
                ==> r@ == name@ + " fired"@,
        forall|r: String| #[trigger]
            call_ensures(
                listener_action_label,
                (&inputs, ListenerAction::SetBool { input: i, value: b }, number),
                r,
            ) ==> r@ == name@ + " = "@ + (if b {
                "true"@
            } else {
                "false"@
            }),
        forall|r: String| #[trigger]
            call_ensures(
                listener_action_label,
                (&inputs, ListenerAction::SetNumber { input: i, value: v }, number),
                r,
            ) ==> r@ == name@ + " = "@ + number@,
        forall|r: String| #[trigger]
            call_ensures(
                listener_action_label,
                (&inputs, ListenerAction::ToggleBool { input: i }, number),
                r,
            ) ==> r@ == "toggle "@ + name@,
        forall|r: String| #[trigger]
            call_ensures(
                listener_action_label,
                (&inputs, ListenerAction::FireTrigger { input: i }, number),
                r,
            ) ==> r@ == "fire "@ + name@,
{
}

/// A state becomes a blend by the first number among the inputs, and a clip by the first
/// clip; without one it stays as it is.
pub proof fn law_states_change_by_what_is_there(
    a: Session,
    inputs: Vec<InputDef>,
    clip: Option<ClipId>,
    threshold: u64,
    number: Option<usize>,
)
    requires
        call_ensures(number_input_index, (&inputs,), number),
    ensures
        forall|s: &mut Session, r: Option<KindChange>|
            *s == a && #[trigger] call_ensures(Session::blend_state, (s, &inputs), r) ==> {
                &&& number matches Some(i) ==> r == Some(KindChange::Blend1D { input: i })
                    && *final(s) == a
                &&& number is None ==> r is None
            },
        forall|s: &mut Session, r: Option<KindChange>|
            *s == a && #[trigger] call_ensures(Session::clip_state, (s, clip), r) ==> {
                &&& clip matches Some(c) ==> r == Some(KindChange::Clip { clip: c }) && *final(s)
                    == a
                &&& clip is None ==> r is None
            },
        forall|s: &mut Session, r: Option<BlendChild>|
            *s == a && #[trigger] call_ensures(Session::new_blend_child, (s, clip, threshold), r)
                ==> {
                &&& clip matches Some(c) ==> r == Some(BlendChild { threshold, clip: c })
                &&& clip is None ==> r is None
            },
        forall|change: KindChange, r: StateKind| #[trigger]
            call_ensures(crate::machine_ui::kind_of, (change,), r) ==> {
                &&& change is Empty <==> r is Empty
                &&& change matches KindChange::Clip { clip: c } ==> r is Clip && r->Clip_clip == c
                    && r->speed == 0x3ff0_0000_0000_0000u64 && r->loop_mode is Once
                &&& change matches KindChange::Blend1D { input } ==> r is Blend1D
                    && r->Blend1D_input == input && r->children@.len() == 0
            },
{
}

} // verus!
