//! What the preview of a machine starts from, keeps and sends.
use vstd::prelude::*;

use crate::kept::{keeps, lemma_keeps_more, lemma_keeps_none};
use crate::machine::{InputKind, InputValue, MachineId};
use crate::preview::{sent, PreviewWrite, Resync};
use crate::session::{EditorMode, EngineSwitch, Session};

verus! {

/// Whether `value` is what an input of the kind has after it was set up again: its value
/// before, where that has the same kind; else the default that its definition states. A
/// trigger is not fired.
pub open spec fn is_restored(kind: InputKind, before: Seq<InputValue>, i: int, value: InputValue) -> bool {
    match kind {
        InputKind::Bool { default } => if i < before.len() && before[i] is Bool {
            value == before[i]
        } else {
            value == InputValue::Bool(default)
        },
        InputKind::Number { default } => if i < before.len() && before[i] is Number {
            value == before[i]
        } else {
            value == InputValue::Number(default)
        },
        InputKind::Trigger => value == (InputValue::Trigger { fired: false }),
    }
}

/// Whether all inputs are set up so.
pub open spec fn all_restored(
    kinds: Seq<InputKind>,
    before: Seq<InputValue>,
    after: Seq<InputValue>,
) -> bool {
    &&& after.len() == kinds.len()
    &&& forall|i: int|
        0 <= i < kinds.len() ==> is_restored(#[trigger] kinds[i], before, i, after[i])
}

/// Setting the preview up again gives every input its value before where the kind still
/// fits, else the default of its definition, and plays the machine where the preview is
/// on, else the timeline.
pub proof fn law_inputs_start_from_their_defaults(
    a: Session,
    b: Session,
    kinds: Vec<InputKind>,
    switch: EngineSwitch,
)
    requires
        exists|s: &mut Session| #[trigger]
            call_ensures(Session::reset_machine_preview, (s, Some(&kinds)), switch) && *s == a
                && *final(s) == b,
    ensures
        a.active_machine matches Some(machine) ==> {
            &&& all_restored(kinds@, a.machine_preview_inputs@, b.machine_preview_inputs@)
            &&& a.machine_preview_enabled ==> switch == EngineSwitch::Machine(machine)
            &&& !a.machine_preview_enabled ==> switch is Timeline
        },
        a.active_machine is None ==> b.machine_preview_inputs@.len() == 0 && switch is Leave,
        b.active_machine == a.active_machine,
        b.machine_preview_enabled == a.machine_preview_enabled,
        b.dirty == a.dirty,
{
}

/// Bringing the preview up to date after an edit sets its inputs up the same way, plays
/// the machine unless it plays already, and sends every input but the triggers.
pub proof fn law_preview_follows_an_edit(
    a: Session,
    b: Session,
    kinds: Vec<InputKind>,
    playing: Option<MachineId>,
    r: Option<Resync>,
)
    requires
        exists|s: &mut Session| #[trigger]
            call_ensures(
                Session::resync_machine_preview_after_edit,
                (s, Some(&kinds), playing),
                r,
            ) && *s == a && *final(s) == b,
    ensures
        r is Some <==> a.active_machine is Some,
        r is None ==> b.machine_preview_inputs@.len() == 0,
        r matches Some(sync) ==> {
            &&& all_restored(kinds@, a.machine_preview_inputs@, b.machine_preview_inputs@)
            &&& playing == a.active_machine ==> sync.play is None
            &&& playing != a.active_machine ==> sync.play == a.active_machine
            &&& keeps(sync.writes@, writable(b.machine_preview_inputs@))
        },
{
    law_every_input_but_the_triggers_is_sent(b.machine_preview_inputs@);
}

/// The write of every input that has a value to send.
pub open spec fn writable(values: Seq<InputValue>) -> Seq<Option<PreviewWrite>> {
    Seq::new(
        values.len(),
        |i: int|
            if values[i] is Trigger {
                None
            } else {
                Some(PreviewWrite { input: i as usize, value: values[i] })
            },
    )
}

/// Every input but the triggers is sent, in order and with its own number.
pub proof fn law_every_input_but_the_triggers_is_sent(values: Seq<InputValue>)
    ensures
        keeps(sent(values), writable(values)),
    decreases values.len(),
{
    if values.len() == 0 {
        lemma_keeps_none::<PreviewWrite>();
        assert(writable(values) =~= Seq::empty());
    } else {
        let front = values.drop_last();
        law_every_input_but_the_triggers_is_sent(front);
        let next = if values.last() is Trigger {
            None
        } else {
            Some(PreviewWrite { input: (values.len() - 1) as usize, value: values.last() })
        };
        lemma_keeps_more(sent(front), writable(front), next);
        assert(writable(front).push(next) =~= writable(values));
    }
}

/// Writing a preview value changes that input alone, and only one of the same kind while
/// a machine is active.
pub proof fn law_preview_writes_change_one_input(s0: Session, input: usize)
    ensures
        forall|s: &mut Session, v: bool, told: bool|
            *s == s0 && #[trigger] call_ensures(Session::set_preview_bool, (s, input, v), told) ==> {
                let now = (*final(s)).machine_preview_inputs@;
                let was = s0.machine_preview_inputs@;
                &&& told <==> s0.active_machine is Some && input < was.len() && was[input as int]
                    is Bool
                &&& now.len() == was.len()
                &&& told ==> now[input as int] == InputValue::Bool(v)
                &&& forall|i: int|
                    0 <= i < was.len() && (i != input || !told) ==> #[trigger] now[i] == was[i]
            },
        forall|s: &mut Session, v: u64, told: bool|
            *s == s0 && #[trigger] call_ensures(Session::set_preview_number, (s, input, v), told)
                ==> {
                let now = (*final(s)).machine_preview_inputs@;
                let was = s0.machine_preview_inputs@;
                &&& told <==> s0.active_machine is Some && input < was.len() && was[input as int]
                    is Number
                &&& now.len() == was.len()
                &&& told ==> now[input as int] == InputValue::Number(v)
                &&& forall|i: int|
                    0 <= i < was.len() && (i != input || !told) ==> #[trigger] now[i] == was[i]
            },
        forall|inputs: usize, told: bool| #[trigger]
            call_ensures(Session::fire_preview_trigger, (&s0, input, inputs), told) ==> told == (
            s0.active_machine is Some && input < inputs),
{
}

/// The preview takes the engine's values over, but only as many as it has inputs.
pub proof fn law_preview_takes_the_engines_values(a: Session, values: Vec<InputValue>)
    ensures
        forall|s: &mut Session|
            *s == a && #[trigger] call_ensures(
                Session::sync_preview_inputs,
                (s, Some(&values)),
                (),
            ) ==> {
                &&& values@.len() == a.machine_preview_inputs@.len()
                    ==> (*final(s)).machine_preview_inputs@ == values@
                &&& values@.len() != a.machine_preview_inputs@.len()
                    ==> (*final(s)).machine_preview_inputs@ == a.machine_preview_inputs@
            },
{
}

/// Entering another mode takes effect at once: only animating records, designing and
/// interacting stop the playback, each mode shows its own page, and a preview runs only
/// while interacting. Entering the mode that is on does nothing.
pub proof fn law_modes(
    a: Session,
    b: Session,
    mode: EditorMode,
    kinds: Vec<InputKind>,
    switch: EngineSwitch,
)
    requires
        exists|s: &mut Session| #[trigger]
            call_ensures(Session::set_mode, (s, mode, Some(&kinds)), switch) && *s == a && *final(s)
                == b,
    ensures
        b.mode == mode,
        a.mode == mode ==> b == a && switch is Leave,
        a.mode != mode ==> {
            &&& b.record <==> mode is Animate
            &&& b.playback.head == a.playback.head && b.playback.range == a.playback.range
            &&& !(mode is Animate) && a.playing ==> b.playback.state is Stopped
            &&& mode is Animate || !a.playing ==> b.playback == a.playback
            &&& b.selection == a.selection && b.dirty == a.dirty && b.active_machine
                == a.active_machine
            &&& mode is Animate ==> b.active_page is Timeline && b.playing == a.playing
                && !b.machine_preview_enabled
            &&& mode is Design ==> !b.playing && !b.machine_preview_enabled && !(
            b.active_page is Timeline) && !(b.active_page is Interact)
            &&& mode is Design && !(a.active_page is Timeline) && !(a.active_page is Interact)
                ==> b.active_page == a.active_page
            &&& mode is Design && (a.active_page is Timeline || a.active_page is Interact)
                ==> b.active_page is Canvas
            &&& mode is Interact ==> !b.playing && b.active_page is Interact
            &&& mode is Interact && a.active_machine is Some ==> {
                &&& b.machine_preview_enabled
                &&& switch == EngineSwitch::Machine(a.active_machine->0)
                &&& all_restored(kinds@, a.machine_preview_inputs@, b.machine_preview_inputs@)
            }
            &&& !(mode is Interact) ==> (switch is Timeline <==> a.machine_preview_enabled
                || a.machine_preview_inputs@.len() > 0)
            &&& a.mode is Interact ==> b.machine_graph_gesture is None
        },
{
}

/// Ending the preview turns it off and gives the timeline back where it was used;
/// ending it twice is ending it once.
pub proof fn law_ending_the_preview(a: Session)
    ensures
        forall|s: &mut Session, switch: EngineSwitch|
            *s == a && #[trigger] call_ensures(Session::disable_machine_preview, (s,), switch) ==> {
                &&& !(*final(s)).machine_preview_enabled
                &&& (*final(s)).machine_preview_inputs == a.machine_preview_inputs
                &&& a.machine_preview_enabled || a.machine_preview_inputs@.len() > 0
                    ==> switch is Timeline
                &&& !a.machine_preview_enabled && a.machine_preview_inputs@.len() == 0
                    ==> switch is Leave && *final(s) == a
            },
{
}

/// Selecting a machine that is there makes it the active one with nothing selected in
/// it; one that is not there changes nothing.
pub proof fn law_selecting_a_machine(
    a: Session,
    machine: MachineId,
    known: bool,
    kinds: Vec<InputKind>,
)
    ensures
        forall|s: &mut Session, switch: EngineSwitch|
            *s == a && #[trigger] call_ensures(
                Session::select_machine,
                (s, machine, known, Some(&kinds)),
                switch,
            ) ==> {
                &&& !known ==> *final(s) == a && switch is Leave
                &&& known ==> {
                    &&& (*final(s)).active_machine == Some(machine)
                    &&& (*final(s)).active_machine_layer == 0
                    &&& (*final(s)).machine_selection is Nothing
                    &&& (*final(s)).machine_graph_gesture is None
                    &&& all_restored(
                        kinds@,
                        a.machine_preview_inputs@,
                        (*final(s)).machine_preview_inputs@,
                    )
                    &&& a.machine_preview_enabled ==> switch == EngineSwitch::Machine(machine)
                    &&& !a.machine_preview_enabled ==> switch is Timeline
                }
            },
        forall|s: &mut Session, playing: Option<MachineId>, switch: EngineSwitch|
            *s == a && #[trigger] call_ensures(
                Session::ensure_machine_preview_running,
                (s, Some(&kinds), playing),
                switch,
            ) ==> {
                &&& (*final(s)).machine_preview_enabled
                &&& (*final(s)).active_machine == a.active_machine
                &&& a.machine_preview_enabled ==> *final(s) == a
                &&& a.active_machine is Some && playing != a.active_machine ==> switch
                    == EngineSwitch::Machine(a.active_machine->0)
                &&& a.active_machine is None ==> switch is Leave
                &&& a.machine_preview_enabled && playing == a.active_machine ==> switch is Leave
            },
{
}

/// Scrubbing a machine field opens its transaction on the first change and only then,
/// and commits where one was opened.
pub proof fn law_scrubbing_opens_one_transaction(a: Session, origin: u64, x: u32)
    ensures
        forall|s: &mut Session| #[trigger]
            call_ensures(Session::begin_machine_field_scrub, (s, origin, x), ()) ==> {
                forall|t: &mut Session, commit: bool|
                    *t == *final(s) && #[trigger] call_ensures(
                        Session::end_machine_field_scrub,
                        (t,),
                        commit,
                    ) ==> !commit && (*final(t)).machine_drag is None
            },
        forall|
            s: &mut Session,
            t: &mut Session,
            u: &mut Session,
            r: Option<Option<&'static str>>,
            q: Option<Option<&'static str>>,
        |
            *s == a && *t == *final(s) && *u == *final(t) && a.active_machine is Some
                && #[trigger] call_ensures(Session::begin_machine_field_scrub, (s, origin, x), ())
                && #[trigger] call_ensures(Session::scrub_machine_field, (t, true), r)
                && #[trigger] call_ensures(Session::scrub_machine_field, (u, true), q) ==> {
                &&& r is Some && r->0 is Some
                &&& q is Some && q->0 is None
                &&& (*final(u)).dirty
                &&& forall|v: &mut Session, commit: bool|
                    *v == *final(u) && #[trigger] call_ensures(
                        Session::end_machine_field_scrub,
                        (v,),
                        commit,
                    ) ==> commit
            },
{
}

} // verus!
