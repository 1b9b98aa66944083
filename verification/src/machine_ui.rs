//! The machine panel: names and labels, and which rows its inspectors show.
use vstd::prelude::*;
use vstd::string::StringExecFns;

use crate::machine::{
    numbered, BlendChild, ClipId, Comparison, Condition, InputDef, InputKind, InputValue, Listener,
    ListenerAction, Machine, MachineSelection, StateKind, Transition, TransitionSource, ONE,
};
use crate::model::NodeId;
use crate::session::{ListenerDraft, LoopMode, PointerEventKind, Session};
use crate::strings::{
    append_decimal, decimal, digit_char, digit_value, digits_value, joined, same_text,
};

verus! {

/// Whether an input has this name.
pub open spec fn name_taken(inputs: Seq<InputDef>, name: Seq<char>) -> bool {
    exists|i: int| 0 <= i < inputs.len() && (#[trigger] inputs[i]).name@ == name
}

/// The `k`th name that is tried: the base itself, then with 2, 3 and so on behind.
pub open spec fn name_try(base: Seq<char>, k: nat) -> Seq<char> {
    if k == 0 {
        base
    } else {
        base + " "@ + decimal(k + 1)
    }
}

/// Decimal writing can be read back.
pub proof fn lemma_decimal_value(n: nat)
    ensures
        digits_value(decimal(n)) == Some(n),
    decreases n,
{
    reveal_with_fuel(digits_value, 2);
    let d = decimal(n);
    if n < 10 {
        assert(d.drop_last() =~= Seq::<char>::empty());
        assert(d.last() == digit_char(n));
        assert(digit_value(digit_char(n)) == Some(n));
    } else {
        lemma_decimal_value(n / 10);
        assert(d.drop_last() =~= decimal(n / 10));
        assert(d.last() == digit_char(n % 10));
        assert(digit_value(digit_char(n % 10)) == Some(n % 10));
    }
}

proof fn lemma_tries_differ(base: Seq<char>, a: nat, b: nat)
    requires
        a < b,
    ensures
        name_try(base, a) != name_try(base, b),
{
    reveal_strlit(" ");
    let x = name_try(base, a);
    let y = name_try(base, b);
    if x == y {
        let d = decimal(b + 1);
        assert(y.len() == base.len() + 1 + d.len());
        if a == 0 {
            assert(x.len() == base.len());
        } else {
            let c = decimal(a + 1);
            assert(x.subrange((base.len() + 1) as int, x.len() as int) =~= c);
            assert(y.subrange((base.len() + 1) as int, y.len() as int) =~= d);
            lemma_decimal_value(a + 1);
            lemma_decimal_value(b + 1);
        }
    }
}

/// Distinct places among `n` are at most `n`.
proof fn lemma_places(found: Seq<int>, n: nat)
    requires
        found.no_duplicates(),
        forall|i: int| 0 <= i < found.len() ==> 0 <= #[trigger] found[i] < n,
    ensures
        found.len() <= n,
{
    let range = vstd::set_lib::set_int_range(0, n as int);
    vstd::set_lib::lemma_int_range(0, n as int);
    assert(found.to_set().subset_of(range)) by {
        assert forall|x: int| found.to_set().contains(x) implies range.contains(x) by {
            let i = choose|i: int| 0 <= i < found.len() && found[i] == x;
            assert(0 <= found[i] < n);
        }
    }
    vstd::set_lib::lemma_len_subset(found.to_set(), range);
    found.unique_seq_to_set();
}

/// Whether the input at `i` is the first of that name.
pub open spec fn is_first_named(inputs: Seq<InputDef>, name: Seq<char>, i: int) -> bool {
    &&& 0 <= i < inputs.len()
    &&& inputs[i].name@ == name
    &&& forall|j: int| 0 <= j < i ==> (#[trigger] inputs[j]).name@ != name
}

/// Whether `i` is where an input of that name is found: its first place, or the
/// place of the first input where none has it.
pub open spec fn is_named_place(inputs: Seq<InputDef>, name: Seq<char>, i: int) -> bool {
    if name_taken(inputs, name) {
        is_first_named(inputs, name, i)
    } else {
        i == 0
    }
}

fn is_taken(inputs: &Vec<InputDef>, name: &str) -> (r: Option<usize>)
    ensures
        match r {
            Some(i) => is_first_named(inputs@, name@, i as int),
            None => !name_taken(inputs@, name@),
        },
{
    let mut i: usize = 0;
    while i < inputs.len()
        invariant
            i <= inputs@.len(),
            forall|j: int| 0 <= j < i ==> (#[trigger] inputs@[j]).name@ != name@,
        decreases inputs.len() - i,
    {
        if same_text(&inputs[i].name, name) {
            return Some(i);
        }
        i = i + 1;
    }
    None
}

/// Whether `name` is the first of the base, "base 2", "base 3" and so on that no
/// input of `machine` has.
pub open spec fn is_unique_name(machine: Machine, base: Seq<char>, name: Seq<char>) -> bool {
    exists|k: nat| #[trigger]
        name_try(base, k) == name && !name_taken(machine.inputs@, name) && forall|j: nat|
            j < k ==> name_taken(machine.inputs@, #[trigger] name_try(base, j))
}

/// A name for a new input: the first of the base, "base 2", "base 3" and so on
/// that no input has.
pub fn unique_input_name(machine: &Machine, base: &str) -> (r: String)
    ensures
        is_unique_name(*machine, base@, r@),
{
    let mut name = base.to_owned();
    let mut i: u128 = 2;
    let ghost mut k: nat = 0;
    let ghost mut found: Seq<int> = Seq::empty();
    let ghost n = machine.inputs@.len();
    assert(name@ == name_try(base@, 0));
    loop
        invariant
            n == machine.inputs@.len(),
            name@ == name_try(base@, k),
            i == k + 2,
            k == found.len(),
            found.no_duplicates(),
            forall|j: int|
                0 <= j < found.len() ==> 0 <= #[trigger] found[j] < n
                    && machine.inputs@[found[j]].name@ == name_try(base@, j as nat),
            forall|j: nat| j < k ==> name_taken(machine.inputs@, #[trigger] name_try(base@, j)),
        decreases n - found.len(),
    {
        match is_taken(&machine.inputs, &name) {
            None => {
                assert(name_try(base@, k) == name@);
                return name;
            },
            Some(at) => {
                proof {
                    let more = found.push(at as int);
                    assert forall|a: int, b: int|
                        0 <= a < more.len() && 0 <= b < more.len() && a != b implies more[a]
                        != more[b] by {
                        if a < b {
                            lemma_tries_differ(base@, a as nat, b as nat);
                        } else {
                            lemma_tries_differ(base@, b as nat, a as nat);
                        }
                    }
                    lemma_places(more, n);
                    found = more;
                    assert(name_taken(machine.inputs@, name_try(base@, k)));
                    k = k + 1;
                }
                assert(k <= machine.inputs.len());
                let mut next = base.to_owned();
                next.append(" ");
                append_decimal(&mut next, i);
                name = next;
                i = i + 1;
            },
        }
    }
}

/// The letter that marks an input's kind.
pub open spec fn badge(kind: InputKind) -> &'static str {
    match kind {
        InputKind::Bool { .. } => "B",
        InputKind::Number { .. } => "N",
        InputKind::Trigger => "T",
    }
}

pub fn input_kind_badge(kind: InputKind) -> (r: &'static str)
    ensures
        r == badge(kind),
{
    match kind {
        InputKind::Bool { .. } => "B",
        InputKind::Number { .. } => "N",
        InputKind::Trigger => "T",
    }
}

/// What stands under a state's name.
pub open spec fn kind_text(kind: StateKind) -> Seq<char> {
    match kind {
        StateKind::Empty => "empty"@,
        StateKind::Clip { .. } => "clip"@,
        StateKind::Blend1D { children, .. } => numbered("blend · "@, children@.len()),
    }
}

pub fn kind_label(kind: &StateKind) -> (r: String)
    ensures
        r@ == kind_text(*kind),
{
    match kind {
        StateKind::Empty => "empty".to_owned(),
        StateKind::Clip { .. } => "clip".to_owned(),
        StateKind::Blend1D { children, .. } => {
            let mut out = "blend · ".to_owned();
            append_decimal(&mut out, children.len() as u128);
            out
        },
    }
}

pub open spec fn comparison_text(op: Comparison) -> &'static str {
    match op {
        Comparison::Eq => "==",
        Comparison::Ne => "!=",
        Comparison::Lt => "<",
        Comparison::Le => "≤",
        Comparison::Gt => ">",
        Comparison::Ge => "≥",
    }
}

pub fn comparison_label(op: Comparison) -> (r: &'static str)
    ensures
        r == comparison_text(op),
{
    match op {
        Comparison::Eq => "==",
        Comparison::Ne => "!=",
        Comparison::Lt => "<",
        Comparison::Le => "≤",
        Comparison::Gt => ">",
        Comparison::Ge => "≥",
    }
}

pub open spec fn event_text(event: PointerEventKind) -> &'static str {
    match event {
        PointerEventKind::Down => "Down",
        PointerEventKind::Up => "Up",
        PointerEventKind::Click => "Click",
        PointerEventKind::Enter => "Enter",
        PointerEventKind::Exit => "Exit",
    }
}

pub fn listener_event_label(event: PointerEventKind) -> (r: &'static str)
    ensures
        r == event_text(event),
{
    match event {
        PointerEventKind::Down => "Down",
        PointerEventKind::Up => "Up",
        PointerEventKind::Click => "Click",
        PointerEventKind::Enter => "Enter",
        PointerEventKind::Exit => "Exit",
    }
}

/// The name of an input, or a question mark.
pub open spec fn input_text(inputs: Seq<InputDef>, index: usize) -> Seq<char> {
    if index < inputs.len() {
        inputs[index as int].name@
    } else {
        "?"@
    }
}

pub fn input_name(inputs: &Vec<InputDef>, index: usize) -> (r: String)
    ensures
        r@ == input_text(inputs@, index),
{
    if index < inputs.len() {
        inputs[index].name.clone()
    } else {
        "?".to_owned()
    }
}

pub open spec fn truth(value: bool) -> Seq<char> {
    if value {
        "true"@
    } else {
        "false"@
    }
}

fn truth_text(value: bool) -> (r: &'static str)
    ensures
        r@ == truth(value),
{
    if value {
        "true"
    } else {
        "false"
    }
}

/// A condition in words. `number` is how the host writes its number.
pub open spec fn condition_text(
    inputs: Seq<InputDef>,
    condition: Condition,
    number: Seq<char>,
) -> Seq<char> {
    match condition {
        Condition::BoolIs { input, value } => input_text(inputs, input) + " == "@ + truth(value),
        Condition::Number { input, op, .. } => input_text(inputs, input) + " "@ + comparison_text(
            op,
        )@ + " "@ + number,
        Condition::Triggered { input } => input_text(inputs, input) + " fired"@,
    }
}

pub fn condition_label(inputs: &Vec<InputDef>, condition: Condition, number: &str) -> (r: String)
    ensures
        r@ == condition_text(inputs@, condition, number@),
{
    match condition {
        Condition::BoolIs { input, value } => {
            let mut out = input_name(inputs, input);
            out.append(" == ");
            out.append(truth_text(value));
            out
        },
        Condition::Number { input, op, .. } => {
            let mut out = input_name(inputs, input);
            out.append(" ");
            out.append(comparison_label(op));
            out.append(" ");
            out.append(number);
            out
        },
        Condition::Triggered { input } => {
            let mut out = input_name(inputs, input);
            out.append(" fired");
            out
        },
    }
}

/// A listener's action in words. `number` is how the host writes its number.
pub open spec fn action_text(
    inputs: Seq<InputDef>,
    action: ListenerAction,
    number: Seq<char>,
) -> Seq<char> {
    match action {
        ListenerAction::SetBool { input, value } => input_text(inputs, input) + " = "@ + truth(
            value,
        ),
        ListenerAction::ToggleBool { input } => "toggle "@ + input_text(inputs, input),
        ListenerAction::SetNumber { input, .. } => input_text(inputs, input) + " = "@ + number,
        ListenerAction::FireTrigger { input } => "fire "@ + input_text(inputs, input),
    }
}

pub fn listener_action_label(inputs: &Vec<InputDef>, action: ListenerAction, number: &str) -> (r:
    String)
    ensures
        r@ == action_text(inputs@, action, number@),
{
    match action {
        ListenerAction::SetBool { input, value } => {
            let mut out = input_name(inputs, input);
            out.append(" = ");
            out.append(truth_text(value));
            out
        },
        ListenerAction::ToggleBool { input } => {
            let name = input_name(inputs, input);
            joined("toggle ", &name)
        },
        ListenerAction::SetNumber { input, .. } => {
            let mut out = input_name(inputs, input);
            out.append(" = ");
            out.append(number);
            out
        },
        ListenerAction::FireTrigger { input } => {
            let name = input_name(inputs, input);
            joined("fire ", &name)
        },
    }
}

/// The line of a listener in the list.
pub fn listener_line(node: &str, event: PointerEventKind, action: &str) -> (r: String)
    ensures
        r@ == node@ + " "@ + event_text(event)@ + " "@ + action@,
{
    let mut out = node.to_owned();
    out.append(" ");
    out.append(listener_event_label(event));
    out.append(" ");
    out.append(action);
    out
}

/// The first input that is a number.
pub open spec fn first_number(inputs: Seq<InputDef>) -> Option<int>
    decreases inputs.len(),
{
    if inputs.len() == 0 {
        None
    } else if inputs[0].kind is Number {
        Some(0)
    } else {
        match first_number(inputs.drop_first()) {
            Some(i) => Some(i + 1),
            None => None,
        }
    }
}

/// The first input that is a number.
pub fn number_input_index(inputs: &Vec<InputDef>) -> (r: Option<usize>)
    ensures
        match r {
            Some(i) => first_number(inputs@) == Some(i as int),
            None => first_number(inputs@) is None,
        },
{
    let mut i: usize = 0;
    assert(inputs@.skip(0) =~= inputs@);
    while i < inputs.len()
        invariant
            i <= inputs@.len(),
            first_number(inputs@) == (match first_number(inputs@.skip(i as int)) {
                Some(k) => Some(k + i),
                None => None,
            }),
        decreases inputs.len() - i,
    {
        assert(inputs@.skip(i as int).drop_first() =~= inputs@.skip(i + 1));
        if matches!(inputs[i].kind, InputKind::Number { .. }) {
            return Some(i);
        }
        i = i + 1;
    }
    None
}

/// "no conditions", "1 condition", "2 conditions" and so on.
pub open spec fn condition_count_text(n: nat) -> Seq<char> {
    if n == 0 {
        "no conditions"@
    } else {
        decimal(n) + " condition"@ + (if n == 1 {
            ""@
        } else {
            "s"@
        })
    }
}

pub fn condition_count_label(n: u64) -> (r: String)
    ensures
        r@ == condition_count_text(n as nat),
{
    if n == 0 {
        return "no conditions".to_owned();
    }
    let mut out = String::new();
    append_decimal(&mut out, n as u128);
    out.append(" condition");
    assert(out@ =~= decimal(n as nat) + " condition"@);
    out.append(
        if n == 1 {
            ""
        } else {
            "s"
        },
    );
    out
}

/// The line of a transition in the list of its source.
pub open spec fn transition_text(source: TransitionSource, target: Seq<char>) -> Seq<char> {
    (match source {
        TransitionSource::Any => "Any →"@,
        TransitionSource::State(_) => "→"@,
    }) + " "@ + target
}

pub fn transition_label(source: TransitionSource, target: &str) -> (r: String)
    ensures
        r@ == transition_text(source, target@),
{
    let mut out = match source {
        TransitionSource::Any => "Any →".to_owned(),
        TransitionSource::State(_) => "→".to_owned(),
    };
    out.append(" ");
    out.append(target);
    out
}

/// The states that a new transition can lead to: all, but not its own start.
pub open spec fn targets(source: TransitionSource, states: nat) -> Seq<usize>
    decreases states,
{
    if states == 0 {
        Seq::empty()
    } else {
        let front = targets(source, (states - 1) as nat);
        if source == TransitionSource::State((states - 1) as usize) {
            front
        } else {
            front.push((states - 1) as usize)
        }
    }
}

/// The states that a new transition can lead to.
pub fn transition_targets(source: TransitionSource, states: usize) -> (r: Vec<usize>)
    ensures
        r@ == targets(source, states as nat),
{
    let mut out: Vec<usize> = Vec::new();
    let mut i: usize = 0;
    while i < states
        invariant
            i <= states,
            out@ == targets(source, i as nat),
        decreases states - i,
    {
        let own = match source {
            TransitionSource::State(from) => from == i,
            TransitionSource::Any => false,
        };
        if !own {
            out.push(i);
        }
        i = i + 1;
    }
    out
}

/// "3 states · 1 any-transitions" and the like.
pub fn layer_summary(states: u64, any: u64) -> (r: String)
    ensures
        r@ == decimal(states as nat) + " states · "@ + decimal(any as nat) + " any-transitions"@,
{
    let mut out = String::new();
    append_decimal(&mut out, states as u128);
    assert(out@ =~= decimal(states as nat));
    out.append(" states · ");
    append_decimal(&mut out, any as u128);
    out.append(" any-transitions");
    out
}

/// A machine's chip: the start machine has a star.
pub fn machine_chip(name: &str, is_start: bool) -> (r: String)
    ensures
        r@ == (if is_start {
            "★ "@ + name@
        } else {
            name@
        }),
{
    if is_start {
        joined("★ ", name)
    } else {
        name.to_owned()
    }
}

/// The names of the active states, one for each layer, a question mark where
/// there is none.
pub open spec fn active_names(machine: Machine, active: Seq<usize>) -> Seq<char>
    decreases active.len(),
{
    if active.len() == 0 {
        Seq::empty()
    } else {
        let i = active.len() - 1;
        let name = active_name(machine, i, active.last());
        if i == 0 {
            name
        } else {
            active_names(machine, active.drop_last()) + " · "@ + name
        }
    }
}

pub open spec fn active_name(machine: Machine, layer: int, state: usize) -> Seq<char> {
    if layer < machine.layers@.len() && state < machine.layers@[layer].states@.len() {
        machine.layers@[layer].states@[state as int].name@
    } else {
        "?"@
    }
}

/// The line over the machine while its preview runs.
pub fn preview_line(name: &str, machine: &Machine, active: Option<&Vec<usize>>) -> (r: String)
    ensures
        r@ == "▶ "@ + name@ + "  ·  "@ + (match active {
            Some(v) if v@.len() > 0 => active_names(*machine, v@),
            _ => "waiting"@,
        }),
{
    let mut out = joined("▶ ", name);
    out.append("  ·  ");
    if let Some(v) = active {
        if v.len() > 0 {
            let ghost start = out@;
            let mut i: usize = 0;
            assert(v@.take(0) =~= Seq::<usize>::empty());
            assert(start + active_names(*machine, v@.take(0)) =~= start);
            while i < v.len()
                invariant
                    i <= v@.len(),
                    out@ == start + active_names(*machine, v@.take(i as int)),
                decreases v.len() - i,
            {
                let ghost here = out@;
                assert(v@.take(i + 1).drop_last() =~= v@.take(i as int));
                assert(v@.take(i + 1).last() == v@[i as int]);
                if i > 0 {
                    out.append(" · ");
                }
                if i < machine.layers.len() && v[i] < machine.layers[i].states.len() {
                    out.append(&machine.layers[i].states[v[i]].name);
                } else {
                    out.append("?");
                }
                assert(out@ =~= start + active_names(*machine, v@.take(i + 1)));
                i = i + 1;
            }
            assert(v@.take(v@.len() as int) =~= v@);
            return out;
        }
    }
    out.append("waiting");
    out
}

/// A row of a machine inspector, top to bottom as it is shown.
#[derive(Clone, Copy, Debug, PartialEq, Eq)]
pub enum InspectorRow {
    Title(&'static str),
    /// The name, to be edited.
    Name,
    /// The kind switch; the one that is on.
    Kind { empty: bool, clip: bool, blend: bool },
    Clip(ClipId),
    Speed(u64),
    Loop(LoopMode),
    BlendInput(usize),
    BlendChild(usize),
    AddBlendChild,
    /// Whether the state is the entry, and the button to delete it.
    Entry(bool),
    Transition(usize),
    AddTransition,
    Target(usize),
    Duration(u64),
    /// The switch "when finished".
    Exit(bool),
    ExitValue(u64),
    Condition(usize),
    AddCondition,
    DeleteTransition,
    Summary { states: usize, any: usize },
    AddAnyTransition,
}

/// The rows numbered `0..n` of a kind.
pub open spec fn child_rows(n: nat) -> Seq<InspectorRow> {
    Seq::new(n, |i: int| InspectorRow::BlendChild(i as usize))
}

pub open spec fn transition_rows(n: nat) -> Seq<InspectorRow> {
    Seq::new(n, |i: int| InspectorRow::Transition(i as usize))
}

pub open spec fn condition_rows(n: nat) -> Seq<InspectorRow> {
    Seq::new(n, |i: int| InspectorRow::Condition(i as usize))
}

/// The rows that belong to a state's kind.
pub open spec fn kind_rows(kind: StateKind) -> Seq<InspectorRow> {
    match kind {
        StateKind::Empty => Seq::empty(),
        StateKind::Clip { clip, speed, loop_mode } => seq![
            InspectorRow::Clip(clip),
            InspectorRow::Speed(speed),
            InspectorRow::Loop(loop_mode),
        ],
        StateKind::Blend1D { input, children } => seq![
            InspectorRow::BlendInput(input),
            InspectorRow::Title("Blend children"),
        ] + child_rows(children@.len()) + seq![InspectorRow::AddBlendChild],
    }
}

/// The rows of a selected state.
pub open spec fn state_rows(machine: Machine, layer: usize, state: usize) -> Seq<InspectorRow> {
    let st = machine.layers@[layer as int].states@[state as int];
    seq![
        InspectorRow::Title("State"),
        InspectorRow::Name,
        InspectorRow::Kind {
            empty: st.kind is Empty,
            clip: st.kind is Clip,
            blend: st.kind is Blend1D,
        },
    ] + kind_rows(st.kind) + seq![
        InspectorRow::Entry(machine.layers@[layer as int].entry == state),
        InspectorRow::Title("Transitions"),
    ] + transition_rows(st.transitions@.len()) + seq![InspectorRow::AddTransition]
}

/// The rows of a selected state; none where the machine does not have it.
pub fn state_inspector(machine: &Machine, layer: usize, state: usize) -> (r: Vec<InspectorRow>)
    ensures
        r@ == (if machine.has_state(layer, state) {
            state_rows(*machine, layer, state)
        } else {
            Seq::empty()
        }),
{
    let mut out: Vec<InspectorRow> = Vec::new();
    if layer >= machine.layers.len() || state >= machine.layers[layer].states.len() {
        return out;
    }
    let st = &machine.layers[layer].states[state];
    out.push(InspectorRow::Title("State"));
    out.push(InspectorRow::Name);
    out.push(
        InspectorRow::Kind {
            empty: matches!(st.kind, StateKind::Empty),
            clip: matches!(st.kind, StateKind::Clip { .. }),
            blend: matches!(st.kind, StateKind::Blend1D { .. }),
        },
    );
    let ghost head = out@;
    match &st.kind {
        StateKind::Empty => {},
        StateKind::Clip { clip, speed, loop_mode } => {
            out.push(InspectorRow::Clip(*clip));
            out.push(InspectorRow::Speed(*speed));
            out.push(InspectorRow::Loop(*loop_mode));
        },
        StateKind::Blend1D { input, children } => {
            out.push(InspectorRow::BlendInput(*input));
            out.push(InspectorRow::Title("Blend children"));
            let ghost before = out@;
            let mut i: usize = 0;
            while i < children.len()
                invariant
                    i <= children@.len(),
                    out@ =~= before + child_rows(i as nat),
                decreases children.len() - i,
            {
                out.push(InspectorRow::BlendChild(i));
                i = i + 1;
            }
            out.push(InspectorRow::AddBlendChild);
        },
    }
    assert(out@ =~= head + kind_rows(st.kind));
    out.push(InspectorRow::Entry(machine.layers[layer].entry == state));
    out.push(InspectorRow::Title("Transitions"));
    let ghost before = out@;
    let mut i: usize = 0;
    while i < st.transitions.len()
        invariant
            i <= st.transitions@.len(),
            out@ =~= before + transition_rows(i as nat),
        decreases st.transitions.len() - i,
    {
        out.push(InspectorRow::Transition(i));
        i = i + 1;
    }
    out.push(InspectorRow::AddTransition);
    assert(out@ =~= state_rows(*machine, layer, state));
    out
}

/// The rows of a selected transition.
pub open spec fn transition_inspector_rows(source: TransitionSource, tr: Transition) -> Seq<
    InspectorRow,
> {
    seq![
        InspectorRow::Title(
            match source {
                TransitionSource::Any => "Transition · Any",
                TransitionSource::State(_) => "Transition",
            },
        ),
        InspectorRow::Target(tr.to),
        InspectorRow::Duration(tr.duration),
        InspectorRow::Exit(tr.exit_time is Some),
    ] + (match tr.exit_time {
        Some(exit) => seq![InspectorRow::ExitValue(exit)],
        None => Seq::empty(),
    }) + seq![InspectorRow::Title("Conditions (AND)")] + condition_rows(tr.conditions@.len()) + seq![
        InspectorRow::AddCondition,
        InspectorRow::DeleteTransition,
    ]
}

/// The rows of a selected transition; none where the machine does not have it.
pub fn transition_inspector(
    machine: &Machine,
    layer: usize,
    source: TransitionSource,
    transition: usize,
) -> (r: Vec<InspectorRow>)
    ensures
        r@ == (if machine.has_transition(layer, source, transition) {
            transition_inspector_rows(source, machine.transition_at(layer, source, transition))
        } else {
            Seq::empty()
        }),
{
    let mut out: Vec<InspectorRow> = Vec::new();
    if !machine.holds_transition(layer, source, transition) {
        return out;
    }
    let tr = match source {
        TransitionSource::Any => &machine.layers[layer].any_transitions[transition],
        TransitionSource::State(s) => &machine.layers[layer].states[s].transitions[transition],
    };
    out.push(
        InspectorRow::Title(
            match source {
                TransitionSource::Any => "Transition · Any",
                TransitionSource::State(_) => "Transition",
            },
        ),
    );
    out.push(InspectorRow::Target(tr.to));
    out.push(InspectorRow::Duration(tr.duration));
    out.push(InspectorRow::Exit(tr.exit_time.is_some()));
    if let Some(exit) = tr.exit_time {
        out.push(InspectorRow::ExitValue(exit));
    }
    out.push(InspectorRow::Title("Conditions (AND)"));
    let ghost before = out@;
    let mut i: usize = 0;
    while i < tr.conditions.len()
        invariant
            i <= tr.conditions@.len(),
            out@ =~= before + condition_rows(i as nat),
        decreases tr.conditions.len() - i,
    {
        out.push(InspectorRow::Condition(i));
        i = i + 1;
    }
    out.push(InspectorRow::AddCondition);
    out.push(InspectorRow::DeleteTransition);
    assert(out@ =~= transition_inspector_rows(source, *tr));
    out
}

/// The rows of a selected layer; none where the machine does not have it.
pub fn layer_inspector(machine: &Machine, layer: usize) -> (r: Vec<InspectorRow>)
    ensures
        r@ == (if layer < machine.layers@.len() {
            seq![
                InspectorRow::Name,
                InspectorRow::Summary {
                    states: machine.layers@[layer as int].states@.len() as usize,
                    any: machine.layers@[layer as int].any_transitions@.len() as usize,
                },
                InspectorRow::AddAnyTransition,
            ]
        } else {
            Seq::empty()
        }),
{
    let mut out: Vec<InspectorRow> = Vec::new();
    if layer >= machine.layers.len() {
        return out;
    }
    out.push(InspectorRow::Name);
    out.push(
        InspectorRow::Summary {
            states: machine.layers[layer].states.len(),
            any: machine.layers[layer].any_transitions.len(),
        },
    );
    out.push(InspectorRow::AddAnyTransition);
    out
}

/// The rows of the selection inspector; for a selection that has none, a hint
/// alone.
pub open spec fn selection_rows(machine: Machine, selection: MachineSelection) -> Seq<InspectorRow> {
    match selection {
        MachineSelection::State { layer, state } => if machine.has_state(layer, state) {
            state_rows(machine, layer, state)
        } else {
            Seq::empty()
        },
        MachineSelection::Transition { layer, source, transition } => if machine.has_transition(
            layer,
            source,
            transition,
        ) {
            transition_inspector_rows(source, machine.transition_at(layer, source, transition))
        } else {
            Seq::empty()
        },
        MachineSelection::Layer { layer } => if layer < machine.layers@.len() {
            seq![
                InspectorRow::Name,
                InspectorRow::Summary {
                    states: machine.layers@[layer as int].states@.len() as usize,
                    any: machine.layers@[layer as int].any_transitions@.len() as usize,
                },
                InspectorRow::AddAnyTransition,
            ]
        } else {
            Seq::empty()
        },
        _ => seq![InspectorRow::Title("Select a state, edge, or Any node")],
    }
}

pub fn selection_inspector(machine: &Machine, selection: MachineSelection) -> (r: Vec<
    InspectorRow,
>)
    ensures
        r@ == selection_rows(*machine, selection),
{
    match selection {
        MachineSelection::State { layer, state } => state_inspector(machine, layer, state),
        MachineSelection::Transition { layer, source, transition } => transition_inspector(
            machine,
            layer,
            source,
            transition,
        ),
        MachineSelection::Layer { layer } => layer_inspector(machine, layer),
        _ => {
            let mut out: Vec<InspectorRow> = Vec::new();
            out.push(InspectorRow::Title("Select a state, edge, or Any node"));
            out
        },
    }
}

/// The kind that a chip of the kind switch asks for.
#[derive(Clone, Copy, Debug, PartialEq, Eq, Structural)]
pub enum KindChange {
    /// What the chip "Empty" asks for.
    Empty,
    /// A clip, once at full speed.
    Clip { clip: ClipId },
    /// A blend by this input, without children.
    Blend1D { input: usize },
}

/// The kind that a state changes to: a clip starts at full speed and plays once, a
/// blend starts without children.
pub fn kind_of(change: KindChange) -> (r: StateKind)
    ensures
        match change {
            KindChange::Empty => r is Empty,
            KindChange::Clip { clip } => r == (StateKind::Clip {
                clip,
                speed: ONE,
                loop_mode: LoopMode::Once,
            }),
            KindChange::Blend1D { input } => r matches StateKind::Blend1D { input: i, children }
                && i == input && children@ == Seq::<BlendChild>::empty(),
        },
{
    match change {
        KindChange::Empty => StateKind::Empty,
        KindChange::Clip { clip } => StateKind::Clip {
            clip,
            speed: ONE,
            loop_mode: LoopMode::Once,
        },
        KindChange::Blend1D { input } => StateKind::Blend1D { input, children: Vec::new() },
    }
}

impl Session {
    /// Makes a state a clip state, where the project has a clip.
    pub fn clip_state(&mut self, first_clip: Option<ClipId>) -> (r: Option<KindChange>)
        ensures
            match first_clip {
                Some(clip) => r == Some(KindChange::Clip { clip }) && *final(self) == *old(self),
                None => r is None && *final(self) == old(self).refused(
                    "Create a clip in Assets first",
                ),
            },
    {
        match first_clip {
            Some(clip) => Some(KindChange::Clip { clip }),
            None => {
                self.refuse("Create a clip in Assets first");
                None
            },
        }
    }

    /// Makes a state a blend, where the machine has a number input.
    pub fn blend_state(&mut self, inputs: &Vec<InputDef>) -> (r: Option<KindChange>)
        ensures
            match first_number(inputs@) {
                Some(i) => {
                    &&& r == Some(KindChange::Blend1D { input: i as usize })
                    &&& *final(self) == *old(self)
                },
                None => r is None && *final(self) == old(self).refused(
                    "Add a Number input before Blend1D",
                ),
            },
    {
        match number_input_index(inputs) {
            Some(input) => Some(KindChange::Blend1D { input }),
            None => {
                self.refuse("Add a Number input before Blend1D");
                None
            },
        }
    }

    /// The child that is added to a blend, where the project has a clip: its first
    /// clip at the given threshold.
    pub fn new_blend_child(&mut self, first_clip: Option<ClipId>, threshold: u64) -> (r: Option<
        BlendChild,
    >)
        ensures
            match first_clip {
                Some(clip) => {
                    &&& r == Some(BlendChild { threshold, clip })
                    &&& *final(self) == *old(self)
                },
                None => r is None && *final(self) == old(self).refused(
                    "Create a clip in Assets first",
                ),
            },
    {
        match first_clip {
            Some(clip) => Some(BlendChild { threshold, clip }),
            None => {
                self.refuse("Create a clip in Assets first");
                None
            },
        }
    }

    /// Picks the event of the listener draft.
    pub fn pick_draft_event(&mut self, event: PointerEventKind)
        ensures
            *final(self) == (Session {
                listener_draft: ListenerDraft { event: Some(event), ..old(self).listener_draft },
                ..*old(self)
            }),
    {
        self.listener_draft.event = Some(event);
    }

    /// Picks the input of the listener draft by its name.
    pub fn pick_draft_input(&mut self, inputs: &Vec<InputDef>, name: &str)
        ensures
            final(self).listener_draft.input is Some,
            is_named_place(inputs@, name@, final(self).listener_draft.input->0 as int),
            *final(self) == (Session {
                listener_draft: ListenerDraft {
                    input: final(self).listener_draft.input,
                    ..old(self).listener_draft
                },
                ..*old(self)
            }),
    {
        let mut at: usize = 0;
        if let Some(i) = is_taken(inputs, name) {
            at = i;
        }
        self.listener_draft.input = Some(at);
    }

    /// The kind of the input that the listener draft names.
    pub open spec fn draft_kind(&self, inputs: Seq<InputDef>) -> Option<InputKind> {
        match self.listener_draft.input {
            Some(i) if i < inputs.len() => Some(inputs[i as int].kind),
            _ => None,
        }
    }

    /// The listener that the draft stands for.
    pub open spec fn drafted(&self, node: NodeId, inputs: Seq<InputDef>) -> Option<Listener> {
        let draft = self.listener_draft;
        match (draft.event, draft.input, self.draft_kind(inputs)) {
            (Some(event), Some(input), Some(kind)) => Some(
                Listener {
                    node,
                    event,
                    action: match kind {
                        InputKind::Bool { .. } => if draft.toggle {
                            ListenerAction::ToggleBool { input }
                        } else {
                            ListenerAction::SetBool { input, value: draft.bool_value }
                        },
                        InputKind::Number { .. } => ListenerAction::SetNumber {
                            input,
                            value: draft.number_value,
                        },
                        InputKind::Trigger => ListenerAction::FireTrigger { input },
                    },
                },
            ),
            _ => None,
        }
    }

    /// The listener that the draft stands for, once its event and its input are
    /// picked.
    pub fn listener_from_draft(&self, node: NodeId, inputs: &Vec<InputDef>) -> (r: Option<Listener>)
        ensures
            r == self.drafted(node, inputs@),
    {
        let draft = self.listener_draft;
        let event = match draft.event {
            Some(event) => event,
            None => {
                return None;
            },
        };
        let input = match draft.input {
            Some(input) => input,
            None => {
                return None;
            },
        };
        if input >= inputs.len() {
            return None;
        }
        let action = match inputs[input].kind {
            InputKind::Bool { .. } => {
                if draft.toggle {
                    ListenerAction::ToggleBool { input }
                } else {
                    ListenerAction::SetBool { input, value: draft.bool_value }
                }
            },
            InputKind::Number { .. } => ListenerAction::SetNumber {
                input,
                value: draft.number_value,
            },
            InputKind::Trigger => ListenerAction::FireTrigger { input },
        };
        Some(Listener { node, event, action })
    }

    /// Starts a new draft after the listener was added.
    pub fn listener_added(&mut self)
        ensures
            *final(self) == (Session { listener_draft: ListenerDraft::empty(), ..*old(self) }),
    {
        self.listener_draft = ListenerDraft::new();
    }

    /// The label of the drafted action.
    pub open spec fn draft_action_text(&self, inputs: Seq<InputDef>) -> &'static str {
        match self.draft_kind(inputs) {
            Some(InputKind::Bool { .. }) => if self.listener_draft.toggle {
                "Toggle"
            } else if self.listener_draft.bool_value {
                "Set true"
            } else {
                "Set false"
            },
            Some(InputKind::Number { .. }) => "Set number",
            Some(InputKind::Trigger) => "Fire trigger",
            None => "action",
        }
    }

    /// The labels of the add-listener row: event, input and action.
    pub fn draft_labels(&self, inputs: &Vec<InputDef>) -> (r: (&'static str, String, &'static str))
        ensures
            r.0 == (match self.listener_draft.event {
                Some(event) => event_text(event),
                None => "event",
            }),
            r.1@ == (match self.listener_draft.input {
                Some(i) => input_text(inputs@, i),
                None => "input"@,
            }),
            r.2 == self.draft_action_text(inputs@),
    {
        let event = match self.listener_draft.event {
            Some(event) => listener_event_label(event),
            None => "event",
        };
        let input = match self.listener_draft.input {
            Some(i) => input_name(inputs, i),
            None => "input".to_owned(),
        };
        let mut kind: Option<InputKind> = None;
        if let Some(i) = self.listener_draft.input {
            if i < inputs.len() {
                kind = Some(inputs[i].kind);
            }
        }
        let action = match kind {
            Some(InputKind::Bool { .. }) => {
                if self.listener_draft.toggle {
                    "Toggle"
                } else if self.listener_draft.bool_value {
                    "Set true"
                } else {
                    "Set false"
                }
            },
            Some(InputKind::Number { .. }) => "Set number",
            Some(InputKind::Trigger) => "Fire trigger",
            None => "action",
        };
        (event, input, action)
    }

    /// The actions that the draft's input offers.
    pub fn draft_actions(&self, inputs: &Vec<InputDef>) -> (r: Vec<DraftAction>)
        ensures
            r@ == offered(self.draft_kind(inputs@)),
    {
        let mut out: Vec<DraftAction> = Vec::new();
        if let Some(i) = self.listener_draft.input {
            if i < inputs.len() {
                match inputs[i].kind {
                    InputKind::Bool { .. } => {
                        out.push(DraftAction::SetTrue);
                        out.push(DraftAction::SetFalse);
                        out.push(DraftAction::Toggle);
                    },
                    InputKind::Number { .. } => {
                        out.push(DraftAction::SetNumber);
                    },
                    InputKind::Trigger => {
                        out.push(DraftAction::Fire);
                    },
                }
            }
        }
        assert(out@ =~= offered(self.draft_kind(inputs@)));
        out
    }

    /// Picks one of the offered actions.
    pub fn pick_draft_action(&mut self, action: DraftAction)
        ensures
            *final(self) == (Session {
                listener_draft: picked(old(self).listener_draft, action),
                ..*old(self)
            }),
    {
        match action {
            DraftAction::SetTrue => {
                self.listener_draft.toggle = false;
                self.listener_draft.bool_value = true;
            },
            DraftAction::SetFalse => {
                self.listener_draft.toggle = false;
                self.listener_draft.bool_value = false;
            },
            DraftAction::Toggle => {
                self.listener_draft.toggle = true;
            },
            DraftAction::SetNumber => {
                self.listener_draft.toggle = false;
                self.listener_draft.number_value = 0;
            },
            DraftAction::Fire => {
                self.listener_draft.toggle = false;
            },
        }
    }
}

/// An action that the add-listener row offers.
#[derive(Clone, Copy, Debug, PartialEq, Eq, Structural)]
pub enum DraftAction {
    SetTrue,
    SetFalse,
    Toggle,
    SetNumber,
    Fire,
}

pub open spec fn offered(kind: Option<InputKind>) -> Seq<DraftAction> {
    match kind {
        Some(InputKind::Bool { .. }) => seq![
            DraftAction::SetTrue,
            DraftAction::SetFalse,
            DraftAction::Toggle,
        ],
        Some(InputKind::Number { .. }) => seq![DraftAction::SetNumber],
        Some(InputKind::Trigger) => seq![DraftAction::Fire],
        None => Seq::empty(),
    }
}

/// The draft after an action was picked.
pub open spec fn picked(draft: ListenerDraft, action: DraftAction) -> ListenerDraft {
    match action {
        DraftAction::SetTrue => ListenerDraft { toggle: false, bool_value: true, ..draft },
        DraftAction::SetFalse => ListenerDraft { toggle: false, bool_value: false, ..draft },
        DraftAction::Toggle => ListenerDraft { toggle: true, ..draft },
        DraftAction::SetNumber => ListenerDraft { toggle: false, number_value: 0, ..draft },
        DraftAction::Fire => ListenerDraft { toggle: false, ..draft },
    }
}

/// The control that an input row shows for the live value.
#[derive(Clone, Copy, Debug, PartialEq, Eq, Structural)]
pub enum PreviewControl {
    /// On and off; which one is lit.
    Switch { on: bool },
    Number { value: u64 },
    Fire,
    /// A hint to switch the preview on.
    Hint,
}

pub open spec fn control_for(kind: InputKind, value: Option<InputValue>) -> PreviewControl {
    match (kind, value) {
        (InputKind::Bool { .. }, Some(InputValue::Bool(on))) => PreviewControl::Switch { on },
        (InputKind::Number { .. }, Some(InputValue::Number(value))) => PreviewControl::Number {
            value,
        },
        (InputKind::Trigger, _) => PreviewControl::Fire,
        _ => PreviewControl::Hint,
    }
}

pub fn preview_control(kind: InputKind, value: Option<InputValue>) -> (r: PreviewControl)
    ensures
        r == control_for(kind, value),
{
    match kind {
        InputKind::Bool { .. } => match value {
            Some(InputValue::Bool(on)) => PreviewControl::Switch { on },
            _ => PreviewControl::Hint,
        },
        InputKind::Number { .. } => match value {
            Some(InputValue::Number(value)) => PreviewControl::Number { value },
            _ => PreviewControl::Hint,
        },
        InputKind::Trigger => PreviewControl::Fire,
    }
}

/// One control of an input row.
#[derive(Clone, Copy, Debug, PartialEq, Eq)]
pub enum InputControl {
    Badge { text: &'static str },
    /// The switch of a default, and what it says.
    DefaultSwitch { on: bool, text: &'static str },
    DefaultNumber { value: u64 },
    Live { control: PreviewControl },
    Name,
    /// The button that removes the input, where nothing refers to it.
    Remove,
}

pub open spec fn default_controls(kind: InputKind) -> Seq<InputControl> {
    match kind {
        InputKind::Bool { default } => seq![
            InputControl::DefaultSwitch {
                on: default,
                text: if default {
                    "def:on"
                } else {
                    "def:off"
                },
            },
        ],
        InputKind::Number { default } => seq![InputControl::DefaultNumber { value: default }],
        InputKind::Trigger => Seq::empty(),
    }
}

/// The controls of an input row, in order.
pub open spec fn row_controls(
    kind: InputKind,
    value: Option<InputValue>,
    referenced: bool,
) -> Seq<InputControl> {
    seq![InputControl::Badge { text: badge(kind) }] + default_controls(kind) + seq![
        InputControl::Live { control: control_for(kind, value) },
        InputControl::Name,
    ] + (if referenced {
        Seq::empty()
    } else {
        seq![InputControl::Remove]
    })
}

/// The controls of an input row, in order. `value` is the live value, if the preview
/// has one.
pub fn input_row(kind: InputKind, value: Option<InputValue>, referenced: bool) -> (r: Vec<
    InputControl,
>)
    ensures
        r@ == row_controls(kind, value, referenced),
{
    let mut out: Vec<InputControl> = Vec::new();
    out.push(InputControl::Badge { text: input_kind_badge(kind) });
    match kind {
        InputKind::Bool { default } => {
            let text = if default {
                "def:on"
            } else {
                "def:off"
            };
            out.push(InputControl::DefaultSwitch { on: default, text });
        },
        InputKind::Number { default } => {
            out.push(InputControl::DefaultNumber { value: default });
        },
        InputKind::Trigger => {},
    }
    out.push(InputControl::Live { control: preview_control(kind, value) });
    out.push(InputControl::Name);
    if !referenced {
        out.push(InputControl::Remove);
    }
    assert(out@ =~= row_controls(kind, value, referenced));
    out
}

/// What the switch of a default sets: the opposite of what the machine has, or of
/// what was shown where the input is no switch any more.
pub fn flipped_default(kind: Option<InputKind>, shown: bool) -> (r: InputKind)
    ensures
        r == (InputKind::Bool {
            default: match kind {
                Some(InputKind::Bool { default }) => !default,
                _ => !shown,
            },
        }),
{
    match kind {
        Some(InputKind::Bool { default }) => InputKind::Bool { default: !default },
        _ => InputKind::Bool { default: !shown },
    }
}

/// The name that a new input of a kind starts from.
pub open spec fn new_input_base(kind: InputKind) -> &'static str {
    match kind {
        InputKind::Bool { .. } => "Boolean",
        InputKind::Number { .. } => "Number",
        InputKind::Trigger => "Trigger",
    }
}

/// The name of a new input: one that the machine does not have yet.
pub fn new_input_name(machine: Option<&Machine>, kind: InputKind) -> (r: String)
    ensures
        match machine {
            Some(m) => is_unique_name(*m, new_input_base(kind)@, r@),
            None => r@ == new_input_base(kind)@,
        },
{
    let base = match kind {
        InputKind::Bool { .. } => "Boolean",
        InputKind::Number { .. } => "Number",
        InputKind::Trigger => "Trigger",
    };
    match machine {
        Some(m) => unique_input_name(m, base),
        None => base.to_owned(),
    }
}

/// What a clip is called in a list, or a dash where it is gone.
pub fn clip_name(name: Option<&str>) -> (r: String)
    ensures
        r@ == (match name {
            Some(n) => n@,
            None => "—"@,
        }),
{
    match name {
        Some(n) => n.to_owned(),
        None => "—".to_owned(),
    }
}

/// A clip as the project lists it.
#[derive(Debug)]
pub struct ListedClip {
    pub id: ClipId,
    pub name: String,
}

/// What `clip` is called in the list; `missing` where the list does not have it.
pub open spec fn listed_name(clips: Seq<ListedClip>, clip: ClipId, missing: Seq<char>) -> Seq<char>
    decreases clips.len(),
{
    if clips.len() == 0 {
        missing
    } else if clips[0].id == clip {
        clips[0].name@
    } else {
        listed_name(clips.drop_first(), clip, missing)
    }
}

fn name_in_list(clips: &Vec<ListedClip>, clip: ClipId, missing: &str) -> (r: String)
    ensures
        r@ == listed_name(clips@, clip, missing@),
{
    let mut i: usize = 0;
    assert(clips@.skip(0) =~= clips@);
    while i < clips.len()
        invariant
            i <= clips@.len(),
            listed_name(clips@, clip, missing@) == listed_name(
                clips@.skip(i as int),
                clip,
                missing@,
            ),
        decreases clips.len() - i,
    {
        assert(clips@.skip(i as int).drop_first() =~= clips@.skip(i + 1));
        if clips[i].id == clip {
            return clips[i].name.clone();
        }
        i = i + 1;
    }
    missing.to_owned()
}

/// The label of a state's clip row.
pub fn state_clip_label(clips: &Vec<ListedClip>, clip: ClipId) -> (r: String)
    ensures
        r@ == listed_name(clips@, clip, "No clip"@),
{
    name_in_list(clips, clip, "No clip")
}

/// The label of the clip of a blend's child.
pub fn blend_clip_label(clips: &Vec<ListedClip>, clip: ClipId) -> (r: String)
    ensures
        r@ == listed_name(clips@, clip, "—"@),
{
    name_in_list(clips, clip, "—")
}

} // verus!
