//! What a gesture on the machine graph does from press to release, and what the machine
//! commands do to the session.
use vstd::prelude::*;

use crate::commands::{Applied, Edit, EditorCommand, Head};
use crate::graph::{is_double_click, GraphPress, GraphPressed, GraphReleased, MachineChange};
use crate::kept::{keeps, lemma_filter_keeps, passing};
use crate::machine::{ClipId, InputKind, Machine, MachineId, MachineSelection, TransitionSource};
use crate::machine_laws::{is_there, outgoing};
use crate::model::{Document, Handle, NodeId};
use crate::preview_laws::all_restored;
use crate::session::{EngineSwitch, GraphPoint, Session};
use crate::strings::trimmed;
use crate::timeline::HeadPlace;

verus! {

/// Two presses are a double click where the second is near and comes in under 350
/// milliseconds.
pub proof fn law_double_clicks_are_quick_and_near(elapsed: Option<u64>, near: bool, r: bool)
    requires
        call_ensures(is_double_click, (elapsed, near), r),
    ensures
        r <==> near && elapsed is Some && elapsed->0 <= 349,
{
}

/// Whether the press is to pan the graph: with the middle button, or with the primary one
/// while space is held.
pub open spec fn is_pan(press: GraphPress) -> bool {
    press.button is Tertiary || (press.button is Primary && press.space_held)
}

/// A state that is pressed, dragged and let go is moved to where it was let go, by the
/// offset of the press, and is selected.
pub proof fn law_dragging_moves_the_state(
    a: Session,
    press: GraphPress,
    layer: usize,
    state: usize,
    to: GraphPoint,
)
    requires
        press.state == Some((layer, state)),
        press.any is None,
        press.button is Primary,
        !press.shift && !press.double && !press.space_held,
    ensures
        forall|
            s: &mut Session,
            t: &mut Session,
            u: &mut Session,
            p: GraphPressed,
            from: Option<GraphPoint>,
            over: Option<(usize, usize)>,
            r: GraphReleased,
        |
            *s == a && *t == *final(s) && *u == *final(t)
                && #[trigger] call_ensures(Session::handle_graph_down, (s, &press), p)
                && #[trigger] call_ensures(Session::handle_graph_move, (t, to), from)
                && #[trigger] call_ensures(Session::handle_graph_up, (u, over), r) ==> {
                &&& p is Nothing && from is None
                &&& r == (GraphReleased::MoveState {
                    layer,
                    state,
                    offset: press.offset,
                    current: to,
                })
                &&& (*final(s)).machine_selection == (MachineSelection::State { layer, state })
                &&& (*final(u)).machine_selection == (MachineSelection::State { layer, state })
                &&& (*final(u)).active_machine_layer == layer
                &&& (*final(u)).machine_graph_gesture is None
                &&& (*final(u)).dirty == a.dirty
            },
{
}

/// A wire drawn with Shift from a state, or from the any node, to a state of the same
/// layer adds a transition between the two; to the state itself, to another layer or to
/// nothing it adds none.
pub proof fn law_wiring_adds_a_transition(
    a: Session,
    press: GraphPress,
    layer: usize,
    from: Option<usize>,
    over: Option<(usize, usize)>,
    to: GraphPoint,
)
    requires
        press.shift && !press.double && !is_pan(press),
        from is None ==> press.any == Some(layer),
        from matches Some(state) ==> press.any is None && press.state == Some((layer, state)),
    ensures
        forall|
            s: &mut Session,
            t: &mut Session,
            u: &mut Session,
            p: GraphPressed,
            pan: Option<GraphPoint>,
            r: GraphReleased,
        |
            *s == a && *t == *final(s) && *u == *final(t)
                && #[trigger] call_ensures(Session::handle_graph_down, (s, &press), p)
                && #[trigger] call_ensures(Session::handle_graph_move, (t, to), pan)
                && #[trigger] call_ensures(Session::handle_graph_up, (u, over), r) ==> {
                &&& over is None || (over->0).0 != layer || Some((over->0).1) == from
                    ==> r is Nothing
                &&& over is Some && (over->0).0 == layer && Some((over->0).1) != from ==> r
                    == (GraphReleased::AddTransition {
                    layer,
                    source: match from {
                        Some(state) => TransitionSource::State(state),
                        None => TransitionSource::Any,
                    },
                    to: (over->0).1,
                })
                &&& (*final(u)).machine_graph_gesture is None
                &&& (*final(u)).active_machine_layer == layer
            },
{
}

/// A pan goes on from where it was last; it selects nothing and ends with nothing to do.
pub proof fn law_panning_goes_on_from_the_last_place(
    a: Session,
    press: GraphPress,
    x: GraphPoint,
    y: GraphPoint,
)
    requires
        is_pan(press),
    ensures
        forall|
            s: &mut Session,
            t: &mut Session,
            u: &mut Session,
            v: &mut Session,
            p: GraphPressed,
            first: Option<GraphPoint>,
            second: Option<GraphPoint>,
            over: Option<(usize, usize)>,
            r: GraphReleased,
        |
            *s == a && *t == *final(s) && *u == *final(t) && *v == *final(u)
                && #[trigger] call_ensures(Session::handle_graph_down, (s, &press), p)
                && #[trigger] call_ensures(Session::handle_graph_move, (t, x), first)
                && #[trigger] call_ensures(Session::handle_graph_move, (u, y), second)
                && #[trigger] call_ensures(Session::handle_graph_up, (v, over), r) ==> {
                &&& p is Nothing && r is Nothing
                &&& first == Some(press.position)
                &&& second == Some(x)
                &&& (*final(v)).machine_selection == a.machine_selection
                &&& (*final(v)).active_machine_layer == a.active_machine_layer
            },
{
}

/// A press selects what it hits: the any node's layer before a state, a state before a
/// transition, and nothing where it hits nothing; a double press on nothing adds a state
/// to the layer that is aimed at and selects nothing new.
pub proof fn law_presses_select_what_they_hit(a: Session, press: GraphPress, aim: usize)
    requires
        !is_pan(press),
        call_ensures(Session::target_layer, (&a,), aim),
    ensures
        forall|s: &mut Session, p: GraphPressed|
            *s == a && #[trigger] call_ensures(Session::handle_graph_down, (s, &press), p) ==> {
                let now = (*final(s)).machine_selection;
                let at = (*final(s)).active_machine_layer;
                &&& press.double ==> *final(s) == a
                &&& press.double && press.state is None && press.any is None ==> p
                    == (GraphPressed::AddState { layer: aim })
                &&& !(press.double && press.state is None && press.any is None) ==> p is Nothing
                &&& !press.double ==> {
                    &&& press.any matches Some(layer) ==> now == (MachineSelection::Layer { layer })
                        && at == layer
                    &&& press.any is None ==> (press.state matches Some((layer, state)) ==> now
                        == (MachineSelection::State { layer, state }) && at == layer)
                    &&& press.any is None && press.state is None ==> (press.transition matches Some(
                        (layer, source, transition),
                    ) ==> now == (MachineSelection::Transition { layer, source, transition }) && at
                        == layer)
                    &&& press.any is None && press.state is None && press.transition is None ==> now
                        is Nothing && at == a.active_machine_layer
                    &&& !press.shift && press.any is Some ==> (*final(s)).machine_graph_gesture
                        is None
                }
            },
        forall|s: &mut Session|
            *s == a && #[trigger] call_ensures(Session::handle_graph_cancel, (s,), ()) ==> {
                &&& (*final(s)).machine_graph_gesture is None
                &&& (*final(s)).machine_selection == a.machine_selection
            },
{
}

/// What was added is selected: the last state of the layer, the last transition of the
/// source.
pub proof fn law_what_was_added_is_selected(
    a: Session,
    m: Machine,
    layer: usize,
    source: TransitionSource,
    drawn: bool,
)
    requires
        layer < m.layers@.len(),
    ensures
        forall|s: &mut Session|
            *s == a && m.layers@[layer as int].states@.len() > 0 && #[trigger] call_ensures(
                Session::state_added,
                (s, Some(&m), layer),
                (),
            ) ==> {
                &&& (*final(s)).machine_selection is State
                &&& (*final(s)).machine_selection->State_layer == layer
                &&& (*final(s)).machine_selection->state
                    == m.layers@[layer as int].states@.len() - 1
                &&& is_there(m, (*final(s)).machine_selection)
                &&& (*final(s)).active_machine_layer == layer
            },
        forall|s: &mut Session|
            *s == a && outgoing(m, layer, source) is Some && outgoing(m, layer, source)->0.len() > 0
                && #[trigger] call_ensures(
                Session::transition_added,
                (s, Some(&m), layer, source, drawn),
                (),
            ) ==> {
                &&& (*final(s)).machine_selection is Transition
                &&& (*final(s)).machine_selection->Transition_layer == layer
                &&& (*final(s)).machine_selection->source == source
                &&& (*final(s)).machine_selection->transition == outgoing(
                    m,
                    layer,
                    source,
                )->0.len() - 1
                &&& is_there(m, (*final(s)).machine_selection)
                &&& drawn ==> (*final(s)).active_machine_layer == layer
            },
{
    assert(m.layers@[layer as int].states.len() == m.layers@[layer as int].states@.len());
    assert(m.layers@[layer as int].any_transitions.len()
        == m.layers@[layer as int].any_transitions@.len());
    if let TransitionSource::State(f) = source {
        if f < m.layers@[layer as int].states@.len() {
            let st = m.layers@[layer as int].states@[f as int];
            assert(st.transitions.len() == st.transitions@.len());
        }
    }
}

/// An edit of the active machine replaces it, where it is there and the edit succeeded,
/// and is nothing otherwise.
pub proof fn law_editing_replaces_the_active_machine(
    a: Session,
    b: Session,
    change: MachineChange,
    known: bool,
    edited: Result<Handle, String>,
    r: Option<Edit>,
)
    requires
        exists|s: &mut Session| #[trigger]
            call_ensures(Session::edit_active_machine, (s, change, known, edited), r) && *s == a
                && *final(s) == b,
    ensures
        r is Some <==> a.active_machine is Some && known && edited is Ok,
        r matches Some(e) ==> {
            &&& b == a
            &&& e.commands@ == seq![
                EditorCommand::ReplaceMachine { id: a.active_machine->0, machine: edited->Ok_0 },
            ]
            &&& e.select is None
        },
        b.selection == a.selection && b.dirty == a.dirty && b.active_machine == a.active_machine,
{
}

/// A machine is renamed to the trimmed name, where anything is left of it.
pub proof fn law_machine_names_are_trimmed(a: Session, name: &str)
    ensures
        forall|r: Option<&str>| #[trigger]
            call_ensures(Session::rename_active_machine, (&a, name), r) ==> {
                &&& r is Some <==> trimmed(name@).len() > 0
                &&& r matches Some(s) ==> s@ == trimmed(name@)
            },
{
}

/// Deleting takes the selected state or transition; once a part is gone nothing of the
/// machine is selected.
pub proof fn law_deleting_takes_the_selected_part(
    a: Session,
    r: Option<(MachineChange, MachineSelection)>,
)
    requires
        call_ensures(Session::delete_machine_selection, (&a,), r),
    ensures
        r is Some <==> a.machine_selection is State || a.machine_selection is Transition,
        r matches Some((change, what)) ==> {
            &&& what == a.machine_selection
            &&& a.machine_selection is State ==> change is DeleteState
            &&& a.machine_selection is Transition ==> change is RemoveTransition
        },
        forall|s: &mut Session, layer: bool|
            *s == a && #[trigger] call_ensures(Session::machine_part_removed, (s, layer), ()) ==> {
                &&& (*final(s)).machine_selection is Nothing
                &&& layer ==> (*final(s)).active_machine_layer == 0
                &&& !layer ==> (*final(s)).active_machine_layer == a.active_machine_layer
                &&& (*final(s)).active_machine == a.active_machine
            },
{
}

/// A new clip is the last one that is listed.
pub proof fn law_new_clip_is_the_last(
    a: Session,
    b: Session,
    reply: Result<Applied, String>,
    clips: Vec<ClipId>,
    r: Option<ClipId>,
)
    requires
        exists|s: &mut Session| #[trigger]
            call_ensures(Session::create_clip, (s, reply, &clips), r) && *s == a && *final(s) == b,
    ensures
        r is Some <==> clips@.len() > 0,
        r is Some ==> r->0 == clips@[clips@.len() - 1],
        b.dirty,
        b.selection == a.selection,
        reply is Err ==> b.status is Some && b.status->0.text() == "Edit failed: "@
            + reply->Err_0@,
        reply is Ok ==> b.status == a.status,
{
}

/// A new machine becomes the active one, and the start machine where there is none.
pub proof fn law_new_machine_is_active(
    a: Session,
    b: Session,
    reply: Result<Applied, String>,
    has_start: bool,
    kinds: Vec<InputKind>,
    r: (Option<EditorCommand>, EngineSwitch),
)
    requires
        exists|s: &mut Session| #[trigger]
            call_ensures(Session::create_machine, (s, reply, has_start, Some(&kinds)), r) && *s == a
                && *final(s) == b,
    ensures
        reply is Ok ==> b.dirty,
        reply is Err ==> b.dirty == a.dirty && b.active_machine == a.active_machine && r.0 is None,
        reply is Ok && reply->Ok_0.created_machine is Some ==> {
            let machine = reply->Ok_0.created_machine->0;
            &&& b.active_machine == Some(machine)
            &&& b.machine_selection is Nothing && b.active_machine_layer == 0
            &&& has_start ==> r.0 is None
            &&& !has_start ==> r.0 == Some(EditorCommand::SetStartMachine { start: Some(machine) })
            &&& all_restored(kinds@, a.machine_preview_inputs@, b.machine_preview_inputs@)
            &&& a.mode is Interact ==> b.machine_preview_enabled && r.1 == EngineSwitch::Machine(
                machine,
            )
        },
{
}

/// Removing the active machine detaches it; the start machine, else the first one, is
/// active then, and a first one becomes the start machine where there is none.
pub proof fn law_another_machine_takes_over(
    a: Session,
    listed: bool,
    start: Option<MachineId>,
    first: Option<MachineId>,
)
    ensures
        forall|r: Option<Edit>| #[trigger]
            call_ensures(Session::remove_active_machine, (&a, listed), r) ==> {
                &&& r is Some <==> a.active_machine is Some && listed
                &&& r matches Some(e) ==> e.commands@ == seq![
                    EditorCommand::DetachMachine { id: a.active_machine->0 },
                ]
            },
        forall|s: &mut Session, r: Option<Edit>|
            *s == a && #[trigger] call_ensures(Session::machine_removed, (s, start, first), r) ==> {
                &&& start is Some ==> (*final(s)).active_machine == start && r is None
                &&& start is None ==> (*final(s)).active_machine == first
                &&& start is None && first is None ==> r is None
                &&& start is None && first is Some ==> r is Some && r->0.commands@ == seq![
                    EditorCommand::SetStartMachine { start: first },
                ]
                &&& (*final(s)).machine_selection is Nothing
                &&& (*final(s)).active_machine_layer == 0
            },
        forall|r: Option<Edit>| #[trigger]
            call_ensures(Session::set_active_as_start_machine, (&a, start), r) ==> {
                &&& r is Some <==> a.active_machine is Some && a.active_machine != start
                &&& r matches Some(e) ==> e.commands@ == seq![
                    EditorCommand::SetStartMachine { start: a.active_machine },
                ]
            },
{
}

/// Toggling the preview twice leaves it as it was; toggled on it plays the machine, off
/// the timeline.
pub proof fn law_preview_is_toggled(a: Session, kinds: Vec<InputKind>)
    ensures
        forall|s: &mut Session, t: &mut Session, on: EngineSwitch, off: EngineSwitch|
            *s == a && *t == *final(s)
                && #[trigger] call_ensures(Session::toggle_preview, (s, Some(&kinds)), on)
                && #[trigger] call_ensures(Session::toggle_preview, (t, Some(&kinds)), off) ==> {
                &&& (*final(s)).machine_preview_enabled == !a.machine_preview_enabled
                &&& (*final(t)).machine_preview_enabled == a.machine_preview_enabled
                &&& a.active_machine matches Some(machine) ==> {
                    &&& !a.machine_preview_enabled ==> on == EngineSwitch::Machine(machine) && off
                        is Timeline
                    &&& a.machine_preview_enabled ==> on is Timeline && off
                        == EngineSwitch::Machine(machine)
                }
            },
{
}

/// Whether `after` follows a step of the history: the selected nodes that are still
/// attached stay selected, in order, the others are not; the document has changed.
pub open spec fn follows(before: Session, after: Session, doc: Document) -> bool {
    &&& after.dirty
    &&& keeps(after.selection@, passing(before.selection@, |id: NodeId| doc.attached(id)))
    &&& after.clipboard == before.clipboard
    &&& after.mode == before.mode
    &&& after.active_machine == before.active_machine
}

/// Undoing follows the history, and leaves the selection where the history did not move.
pub proof fn law_history_steps_keep_the_attached_selection(
    a: Session,
    moved: bool,
    doc: Document,
    m: Machine,
    range: (i64, i64),
    place: HeadPlace,
)
    ensures
        forall|s: &mut Session, drop_keys: bool|
            *s == a && #[trigger] call_ensures(
                Session::undo_cmd,
                (s, moved, &doc, Some(&m), range, place),
                drop_keys,
            ) ==> {
                &&& drop_keys == moved
                &&& moved ==> follows(a, *final(s), doc)
                &&& moved && a.active_machine is Some && is_there(m, a.machine_selection)
                    ==> (*final(s)).machine_selection == a.machine_selection
                &&& moved && a.active_machine is Some && !is_there(m, a.machine_selection) && !(
                a.machine_selection is Transition) ==> (*final(s)).machine_selection is Nothing
                &&& !moved ==> (*final(s)).selection == a.selection && (*final(s)).dirty == a.dirty
                    && (*final(s)).machine_selection == a.machine_selection
            },
{
    lemma_filter_keeps(a.selection@, |id: NodeId| doc.attached(id));
}

/// Redoing does to the session what undoing does.
pub proof fn law_redo_follows_like_undo(
    a: Session,
    moved: bool,
    doc: Document,
    m: Machine,
    range: (i64, i64),
    place: HeadPlace,
)
    ensures
        forall|s: &mut Session, t: &mut Session, drop_keys: bool, dropped: bool|
            *s == a && *t == a && #[trigger] call_ensures(
                Session::undo_cmd,
                (s, moved, &doc, Some(&m), range, place),
                drop_keys,
            ) && #[trigger] call_ensures(
                Session::redo_cmd,
                (t, moved, &doc, Some(&m), range, place),
                dropped,
            ) ==> {
                &&& dropped == drop_keys
                &&& (*final(t)).selection@ == (*final(s)).selection@
                &&& (*final(t)).dirty == (*final(s)).dirty
                &&& (*final(t)).machine_selection == (*final(s)).machine_selection
                &&& (*final(t)).active_machine_layer == (*final(s)).active_machine_layer
                &&& (*final(t)).playback == (*final(s)).playback
            },
{
}

/// A step of the history brings the playhead into the composition's range.
pub proof fn law_history_steps_keep_the_playhead_in_range(
    a: Session,
    b: Session,
    moved: bool,
    doc: Document,
    m: Option<&Machine>,
    range: (i64, i64),
    place: HeadPlace,
    drop_keys: bool,
)
    requires
        exists|s: &mut Session| #[trigger]
            call_ensures(Session::undo_cmd, (s, moved, &doc, m, range, place), drop_keys) && *s == a
                && *final(s) == b,
    ensures
        b.playback.range == range,
        place is Inside ==> b.playback.head == a.playback.head,
        place is Before ==> b.playback.head == Head::Frame(range.0),
        place is After ==> b.playback.head == Head::Frame(range.1),
        b.playback.state == a.playback.state,
        b.playback.loop_mode == a.playback.loop_mode,
{
}

} // verus!
