//! State machines: the graph, the inspectors, the listeners and the preview.
use renamite::commands::{Applied, EditorCommand, Head};
use renamite::graph::{
    blank_clip, create_clip_edit, create_machine_edit, is_double_click, machine_change_label,
    GraphPress, GraphPressed, GraphReleased, MachineChange, PointerButton,
};
use renamite::machine::{
    BlendChild, Comparison, Condition, InputDef, InputKind, InputValue, Listener, ListenerAction,
    Machine, MachineSelection, State, StateKind, Transition, TransitionSource, ONE,
};
use renamite::machine_edit::next_comparison;
use renamite::machine_ui::{
    blend_clip_label, clip_name, comparison_label, condition_count_label, condition_label, flipped_default,
    input_kind_badge, input_name, input_row, kind_label, kind_of, layer_inspector, layer_summary,
    listener_action_label, listener_event_label, listener_line, machine_chip, new_input_name,
    number_input_index, preview_control, preview_line, selection_inspector, state_clip_label, state_inspector,
    transition_inspector, transition_label, transition_targets, unique_input_name, DraftAction,
    InputControl, InspectorRow, KindChange, ListedClip, PreviewControl,
};
use renamite::model::Document;
use renamite::preview::PreviewWrite;
use renamite::session::{
    EditorMode, EngineSwitch, GraphPoint, LoopMode, MachineGraphGesture, PanelPage, PlayState,
    PointerEventKind, Session,
};
use renamite::timeline::HeadPlace;

fn input(name: &str, kind: InputKind) -> InputDef {
    InputDef { name: name.to_string(), kind }
}

fn inputs() -> Vec<InputDef> {
    vec![
        input("on", InputKind::Bool { default: true }),
        input("speed", InputKind::Number { default: ONE }),
        input("go", InputKind::Trigger),
    ]
}

fn transition(to: usize, conditions: Vec<Condition>) -> Transition {
    Transition { to, duration: 5, exit_time: None, conditions }
}

/// One layer of two states, the first with a transition to the second.
fn machine() -> Machine {
    let mut m = Machine::blank(0);
    m.inputs = inputs();
    m.layers[0].states[0].transitions.push(transition(
        1,
        vec![
            Condition::BoolIs { input: 0, value: true },
            Condition::Number { input: 1, op: Comparison::Ge, value: 3 },
        ],
    ));
    m.layers[0].states.push(State {
        name: "Run".to_string(),
        kind: StateKind::Clip { clip: 40, speed: ONE, loop_mode: LoopMode::Loop },
        transitions: vec![],
        graph_pos: None,
    });
    m
}

fn session(machine: Option<u64>) -> Session {
    Session::new((0, 60), machine, 7)
}

fn status(s: &Session) -> String {
    match &s.status {
        Some(m) => m.to_text(),
        None => String::new(),
    }
}

fn applied(machine: Option<u64>) -> Applied {
    Applied { created: None, created_machine: machine, created_clip: None }
}

fn press(button: PointerButton) -> GraphPress {
    GraphPress {
        position: GraphPoint { x: 1, y: 2 },
        button,
        shift: false,
        space_held: false,
        double: false,
        any: None,
        state: None,
        transition: None,
        offset: GraphPoint { x: 3, y: 4 },
    }
}

#[test]
fn blank_machines_have_one_idle_state() {
    let m = Machine::blank(2);
    assert_eq!(m.name, "State Machine 3");
    assert_eq!(m.layers.len(), 1);
    assert_eq!(m.layers[0].name, "Layer 1");
    assert_eq!(m.layers[0].states[0].name, "Idle");
    assert_eq!(m.next_state_name(0), "State 2");
    assert_eq!(m.next_layer_name(), "Layer 2");
}

#[test]
fn selections_are_checked_against_the_machine() {
    let m = machine();
    assert!(m.has_selection(MachineSelection::State { layer: 0, state: 1 }));
    assert!(!m.has_selection(MachineSelection::State { layer: 0, state: 2 }));
    assert_eq!(m.transition_count(0, TransitionSource::State(0)), 1);
    assert_eq!(m.transition_count(0, TransitionSource::Any), 0);

    let mut s = session(Some(9));
    s.machine_selection = MachineSelection::State { layer: 0, state: 2 };
    s.active_machine_layer = 4;
    s.validate_machine_selection(Some(&m));
    assert_eq!(s.machine_selection, MachineSelection::Nothing);
    assert_eq!(s.active_machine_layer, 0);
    let kept = MachineSelection::Transition {
        layer: 0,
        source: TransitionSource::State(0),
        transition: 0,
    };
    s.machine_selection = kept;
    s.validate_machine_selection(Some(&m));
    assert_eq!(s.machine_selection, kept);
    assert_eq!(s.target_layer(), 0);
    s.validate_machine_selection(None);
    assert_eq!(s.machine_selection, MachineSelection::Nothing);
}

#[test]
fn double_clicks_are_quick_and_near() {
    assert!(is_double_click(Some(349), true));
    assert!(!is_double_click(Some(350), true));
    assert!(!is_double_click(Some(100), false));
    assert!(!is_double_click(None, true));
}

#[test]
fn presses_on_the_graph_pan_select_and_wire() {
    let mut s = session(Some(9));
    let middle = press(PointerButton::Tertiary);
    assert_eq!(s.handle_graph_down(&middle), GraphPressed::Nothing);
    assert_eq!(s.handle_graph_move(GraphPoint { x: 5, y: 6 }), Some(GraphPoint { x: 1, y: 2 }));
    assert_eq!(
        s.machine_graph_gesture,
        Some(MachineGraphGesture::Pan { last: GraphPoint { x: 5, y: 6 } })
    );
    assert_eq!(s.handle_graph_up(None), GraphReleased::Nothing);
    assert_eq!(s.machine_graph_gesture, None);

    let twice = GraphPress { double: true, ..press(PointerButton::Primary) };
    assert_eq!(s.handle_graph_down(&twice), GraphPressed::AddState { layer: 0 });

    let wire = GraphPress { shift: true, state: Some((0, 0)), ..press(PointerButton::Primary) };
    s.handle_graph_down(&wire);
    assert_eq!(s.machine_selection, MachineSelection::State { layer: 0, state: 0 });
    assert_eq!(
        s.handle_graph_up(Some((0, 1))),
        GraphReleased::AddTransition { layer: 0, source: TransitionSource::State(0), to: 1 }
    );
    s.handle_graph_down(&wire);
    assert_eq!(s.handle_graph_up(Some((0, 0))), GraphReleased::Nothing);
    s.handle_graph_down(&wire);
    assert_eq!(s.handle_graph_up(Some((1, 1))), GraphReleased::Nothing);

    let any = GraphPress { shift: true, any: Some(0), ..press(PointerButton::Primary) };
    s.handle_graph_down(&any);
    assert_eq!(s.machine_selection, MachineSelection::Layer { layer: 0 });
    assert_eq!(
        s.handle_graph_up(Some((0, 0))),
        GraphReleased::AddTransition { layer: 0, source: TransitionSource::Any, to: 0 }
    );
}

#[test]
fn states_are_dragged_with_the_primary_button() {
    let mut s = session(Some(9));
    let grab = GraphPress { state: Some((0, 1)), ..press(PointerButton::Primary) };
    s.handle_graph_down(&grab);
    assert_eq!(s.handle_graph_move(GraphPoint { x: 7, y: 8 }), None);
    assert_eq!(
        s.handle_graph_up(None),
        GraphReleased::MoveState {
            layer: 0,
            state: 1,
            offset: GraphPoint { x: 3, y: 4 },
            current: GraphPoint { x: 7, y: 8 },
        }
    );
    s.handle_graph_down(&grab);
    s.handle_graph_cancel();
    assert_eq!(s.machine_graph_gesture, None);
}

#[test]
fn added_parts_are_selected() {
    let m = machine();
    let mut s = session(Some(9));
    s.state_added(Some(&m), 0);
    assert_eq!(s.machine_selection, MachineSelection::State { layer: 0, state: 1 });
    s.transition_added(Some(&m), 0, TransitionSource::State(0), true);
    assert_eq!(
        s.machine_selection,
        MachineSelection::Transition { layer: 0, source: TransitionSource::State(0), transition: 0 }
    );
    assert_eq!(
        s.delete_machine_selection(),
        Some((MachineChange::RemoveTransition, s.machine_selection))
    );
    s.machine_part_removed(false);
    assert_eq!(s.machine_selection, MachineSelection::Nothing);
    assert_eq!(s.delete_machine_selection(), None);
    s.machine_selection = MachineSelection::State { layer: 0, state: 1 };
    assert_eq!(s.delete_machine_selection(), Some((MachineChange::DeleteState, s.machine_selection)));
}

#[test]
fn machine_edits_replace_the_active_machine() {
    let mut s = session(Some(9));
    let edit = s.edit_active_machine(MachineChange::RenameState, true, Ok(33)).unwrap();
    assert_eq!(edit.label, "Rename state");
    assert_eq!(edit.commands, vec![EditorCommand::ReplaceMachine { id: 9, machine: 33 }]);
    assert!(s.edit_active_machine(MachineChange::RenameState, true, Err("too long".to_string())).is_none());
    assert_eq!(status(&s), "Machine edit failed: too long");
    assert!(s.edit_active_machine(MachineChange::RenameState, false, Ok(33)).is_none());
    assert_eq!(s.rename_active_machine("  Doors "), Some("Doors"));
    assert_eq!(s.rename_active_machine("   "), None);
}

#[test]
fn machines_come_and_go() {
    let kinds = vec![InputKind::Trigger];
    let mut s = session(None);
    let (start, switch) = s.create_machine(Ok(applied(Some(4))), false, Some(&kinds));
    assert_eq!(start, Some(EditorCommand::SetStartMachine { start: Some(4) }));
    assert_eq!(switch, EngineSwitch::Timeline);
    assert_eq!(s.active_machine, Some(4));
    assert_eq!(s.machine_preview_inputs, vec![InputValue::Trigger { fired: false }]);
    let (none, leave) = s.create_machine(Err("full".to_string()), true, None);
    assert_eq!((none, leave), (None, EngineSwitch::Leave));
    assert_eq!(status(&s), "Edit failed: full");

    let remove = s.remove_active_machine(true).unwrap();
    assert_eq!(remove.commands, vec![EditorCommand::DetachMachine { id: 4 }]);
    assert!(s.remove_active_machine(false).is_none());
    let promote = s.machine_removed(None, Some(5)).unwrap();
    assert_eq!(promote.commands, vec![EditorCommand::SetStartMachine { start: Some(5) }]);
    assert_eq!(s.active_machine, Some(5));
    assert!(s.set_active_as_start_machine(Some(5)).is_none());
    assert_eq!(
        s.set_active_as_start_machine(None).unwrap().commands,
        vec![EditorCommand::SetStartMachine { start: Some(5) }]
    );
    let create = create_machine_edit(8);
    assert_eq!(create.label, "Create machine");
    assert_eq!(
        create.commands,
        vec![EditorCommand::CreateMachine { index: usize::MAX, machine: 8 }]
    );
    let clip = blank_clip("Walk".to_string());
    assert_eq!((clip.name.as_str(), clip.range), ("Walk", (0, 60)));
    assert_eq!(create_clip_edit(3).label, "Create clip");
    assert_eq!(machine_change_label(MachineChange::RetargetTransition), "Retarget transition");
    assert_eq!(s.create_clip(Ok(applied(None)), &vec![1, 2]), Some(2));
    assert!(s.dirty);
}

#[test]
fn undoing_drops_what_is_no_longer_attached() {
    let doc = Document::new(vec![], vec![], 100).unwrap();
    let m = machine();
    let mut s = session(Some(9));
    s.selection = vec![1, 2];
    s.machine_selection = MachineSelection::State { layer: 0, state: 1 };
    assert!(!s.undo_cmd(false, &doc, Some(&m), (0, 60), HeadPlace::Inside));
    assert_eq!(s.selection, vec![1, 2]);
    assert!(s.undo_cmd(true, &doc, Some(&m), (0, 30), HeadPlace::After));
    assert_eq!(s.playback.head, Head::Frame(30));
    assert_eq!(s.playback.range, (0, 30));
    assert!(s.selection.is_empty());
    assert!(s.dirty);
    assert_eq!(s.machine_selection, MachineSelection::State { layer: 0, state: 1 });
    s.redo_cmd(true, &doc, None, (0, 60), HeadPlace::Inside);
    assert_eq!(s.machine_selection, MachineSelection::Nothing);
}

#[test]
fn transitions_are_edited_in_place() {
    let from = TransitionSource::State(0);
    let mut m = machine();
    assert!(m.holds_transition(0, from, 0));
    m.toggle_exit(0, from, 0);
    assert_eq!(m.layers[0].states[0].transitions[0].exit_time, Some(ONE));
    m.toggle_exit(0, from, 0);
    assert_eq!(m.layers[0].states[0].transitions[0].exit_time, None);
    m.flip_condition(0, from, 0, 0, true);
    assert_eq!(m.condition(0, from, 0, 0), Some(Condition::BoolIs { input: 0, value: false }));
    m.cycle_comparison(0, from, 0, 1);
    m.set_condition_value(0, from, 0, 1, 8);
    assert_eq!(
        m.condition(0, from, 0, 1),
        Some(Condition::Number { input: 1, op: Comparison::Gt, value: 8 })
    );
    m.cycle_comparison(0, from, 0, 0);
    assert_eq!(m.condition(0, from, 0, 0), Some(Condition::BoolIs { input: 0, value: false }));
    assert_eq!(m.condition(0, from, 0, 2), None);
    assert_eq!(m.condition(1, from, 0, 0), None);
}

#[test]
fn comparisons_take_turns() {
    let all = [
        Comparison::Ge,
        Comparison::Gt,
        Comparison::Le,
        Comparison::Lt,
        Comparison::Eq,
        Comparison::Ne,
    ];
    let mut op = Comparison::Ge;
    for want in all {
        assert_eq!(op, want);
        op = next_comparison(op);
    }
    assert_eq!(op, Comparison::Ge);
}

#[test]
fn states_change_what_they_play() {
    let mut m = machine();
    m.set_clip(0, 0, 41);
    match &m.layers[0].states[0].kind {
        StateKind::Clip { clip, speed, loop_mode } => {
            assert_eq!((*clip, *speed, *loop_mode), (41, ONE, LoopMode::Once));
        }
        _ => panic!("not a clip"),
    }
    m.set_clip(0, 1, 42);
    m.set_clip_loop(0, 1, LoopMode::PingPong);
    m.set_clip_speed(0, 1, 6);
    match &m.layers[0].states[1].kind {
        StateKind::Clip { clip, speed, loop_mode } => {
            assert_eq!((*clip, *speed, *loop_mode), (42, 6, LoopMode::PingPong));
        }
        _ => panic!("not a clip"),
    }
    m.set_blend_input(0, 0, 1);
    m.push_blend_child(0, 0, BlendChild { threshold: 0, clip: 1 });
    m.push_blend_child(0, 0, BlendChild { threshold: 5, clip: 2 });
    m.set_blend_child_clip(0, 0, 1, 3);
    m.remove_blend_child(0, 0, 0);
    match &m.layers[0].states[0].kind {
        StateKind::Blend1D { input, children } => {
            assert_eq!(*input, 1);
            assert_eq!(*children, vec![BlendChild { threshold: 5, clip: 3 }]);
        }
        _ => panic!("not a blend"),
    }
    m.remove_blend_child(0, 0, 7);
    assert_eq!(kind_label(&m.layers[0].states[0].kind), "blend · 1");
}

#[test]
fn new_inputs_get_names_of_their_own() {
    let mut m = machine();
    assert_eq!(unique_input_name(&m, "Boolean"), "Boolean");
    m.inputs.push(input("Boolean", InputKind::Trigger));
    assert_eq!(new_input_name(Some(&m), InputKind::Bool { default: false }), "Boolean 2");
    m.inputs.push(input("Boolean 2", InputKind::Trigger));
    assert_eq!(new_input_name(Some(&m), InputKind::Bool { default: false }), "Boolean 3");
    assert_eq!(new_input_name(None, InputKind::Trigger), "Trigger");
    assert_eq!(new_input_name(None, InputKind::Number { default: 0 }), "Number");
}

#[test]
fn machine_texts() {
    let list = inputs();
    assert_eq!(input_kind_badge(InputKind::Trigger), "T");
    assert_eq!(input_kind_badge(InputKind::Bool { default: true }), "B");
    assert_eq!(input_kind_badge(InputKind::Number { default: 0 }), "N");
    assert_eq!(kind_label(&StateKind::Empty), "empty");
    assert_eq!(comparison_label(Comparison::Le), "≤");
    assert_eq!(comparison_label(Comparison::Ge), "≥");
    assert_eq!(listener_event_label(PointerEventKind::Enter), "Enter");
    assert_eq!(input_name(&list, 1), "speed");
    assert_eq!(input_name(&list, 3), "?");
    assert_eq!(
        condition_label(&list, Condition::BoolIs { input: 0, value: false }, ""),
        "on == false"
    );
    assert_eq!(
        condition_label(
            &list,
            Condition::Number { input: 1, op: Comparison::Lt, value: 0 },
            "2.50"
        ),
        "speed < 2.50"
    );
    assert_eq!(condition_label(&list, Condition::Triggered { input: 2 }, ""), "go fired");
    assert_eq!(
        listener_action_label(&list, ListenerAction::ToggleBool { input: 0 }, ""),
        "toggle on"
    );
    assert_eq!(
        listener_action_label(&list, ListenerAction::SetBool { input: 0, value: true }, ""),
        "on = true"
    );
    assert_eq!(
        listener_action_label(&list, ListenerAction::SetNumber { input: 1, value: 0 }, "4.00"),
        "speed = 4.00"
    );
    assert_eq!(
        listener_action_label(&list, ListenerAction::FireTrigger { input: 2 }, ""),
        "fire go"
    );
    assert_eq!(listener_line("Box", PointerEventKind::Click, "fire go"), "Box Click fire go");
    assert_eq!(number_input_index(&list), Some(1));
    assert_eq!(number_input_index(&vec![]), None);
    assert_eq!(condition_count_label(0), "no conditions");
    assert_eq!(condition_count_label(1), "1 condition");
    assert_eq!(condition_count_label(12), "12 conditions");
    assert_eq!(transition_label(TransitionSource::Any, "Run"), "Any → Run");
    assert_eq!(transition_label(TransitionSource::State(0), "Run"), "→ Run");
    assert_eq!(transition_targets(TransitionSource::State(1), 3), vec![0, 2]);
    assert_eq!(transition_targets(TransitionSource::Any, 2), vec![0, 1]);
    assert_eq!(layer_summary(2, 0), "2 states · 0 any-transitions");
    assert_eq!(machine_chip("Doors", true), "★ Doors");
    assert_eq!(machine_chip("Doors", false), "Doors");
    assert_eq!(preview_line("Doors", &machine(), None), "▶ Doors  ·  waiting");
    assert_eq!(preview_line("Doors", &machine(), Some(&vec![1])), "▶ Doors  ·  Run");
    assert_eq!(clip_name(None), "—");
    assert_eq!(clip_name(Some("Walk")), "Walk");
    let clips = vec![
        ListedClip { id: 3, name: "Walk".to_string() },
        ListedClip { id: 4, name: clip_name(None) },
    ];
    assert_eq!(state_clip_label(&clips, 3), "Walk");
    assert_eq!(state_clip_label(&clips, 4), "—");
    assert_eq!(state_clip_label(&clips, 5), "No clip");
    assert_eq!(blend_clip_label(&clips, 3), "Walk");
    assert_eq!(blend_clip_label(&clips, 5), "—");
}

#[test]
fn inspectors_show_what_is_selected() {
    let m = machine();
    let rows = state_inspector(&m, 0, 0);
    assert_eq!(rows[0], InspectorRow::Title("State"));
    assert_eq!(rows[1], InspectorRow::Name);
    assert_eq!(rows[2], InspectorRow::Kind { empty: true, clip: false, blend: false });
    assert_eq!(*rows.last().unwrap(), InspectorRow::AddTransition);
    assert!(rows.contains(&InspectorRow::Entry(true)));
    assert!(state_inspector(&m, 0, 5).is_empty());
    let tr = transition_inspector(&m, 0, TransitionSource::State(0), 0);
    assert_eq!(tr[0], InspectorRow::Title("Transition"));
    assert_eq!(tr[1], InspectorRow::Target(1));
    assert_eq!(tr[2], InspectorRow::Duration(5));
    assert_eq!(tr[3], InspectorRow::Exit(false));
    assert_eq!(*tr.last().unwrap(), InspectorRow::DeleteTransition);
    assert_eq!(
        layer_inspector(&m, 0),
        vec![
            InspectorRow::Name,
            InspectorRow::Summary { states: 2, any: 0 },
            InspectorRow::AddAnyTransition,
        ]
    );
    assert_eq!(selection_inspector(&m, MachineSelection::State { layer: 0, state: 0 }), rows);
}

#[test]
fn states_need_clips_and_numbers_to_play_them() {
    let mut s = session(Some(9));
    assert_eq!(s.clip_state(Some(3)), Some(KindChange::Clip { clip: 3 }));
    assert_eq!(s.clip_state(None), None);
    assert_eq!(status(&s), "Create a clip in Assets first");
    s.status = None;
    let child = s.new_blend_child(Some(3), 7).unwrap();
    assert_eq!((child.threshold, child.clip), (7, 3));
    assert!(s.status.is_none());
    assert!(s.new_blend_child(None, 7).is_none());
    assert_eq!(status(&s), "Create a clip in Assets first");
    assert_eq!(s.blend_state(&inputs()), Some(KindChange::Blend1D { input: 1 }));
    assert!(matches!(kind_of(KindChange::Empty), StateKind::Empty));
    assert!(matches!(
        kind_of(KindChange::Clip { clip: 3 }),
        StateKind::Clip { clip: 3, speed: ONE, loop_mode: LoopMode::Once }
    ));
    match kind_of(KindChange::Blend1D { input: 1 }) {
        StateKind::Blend1D { input, children } => {
            assert_eq!(input, 1);
            assert!(children.is_empty());
        }
        other => panic!("{other:?}"),
    }
    assert_eq!(s.blend_state(&vec![]), None);
    assert_eq!(status(&s), "Add a Number input before Blend1D");
}

#[test]
fn listeners_are_drafted() {
    let list = inputs();
    let mut s = session(Some(9));
    assert_eq!(s.listener_from_draft(5, &list), None);
    let (event, name, action) = s.draft_labels(&list);
    assert_eq!((event, name.as_str(), action), ("event", "input", "action"));
    s.pick_draft_event(PointerEventKind::Click);
    s.pick_draft_input(&list, "on");
    assert_eq!(s.listener_draft.input, Some(0));
    assert_eq!(
        s.draft_actions(&list),
        vec![DraftAction::SetTrue, DraftAction::SetFalse, DraftAction::Toggle]
    );
    s.pick_draft_action(DraftAction::SetTrue);
    let (event, name, action) = s.draft_labels(&list);
    assert_eq!((event, name.as_str(), action), ("Click", "on", "Set true"));
    assert_eq!(
        s.listener_from_draft(5, &list),
        Some(Listener {
            node: 5,
            event: PointerEventKind::Click,
            action: ListenerAction::SetBool { input: 0, value: true },
        })
    );
    s.pick_draft_action(DraftAction::Toggle);
    assert_eq!(
        s.listener_from_draft(5, &list).unwrap().action,
        ListenerAction::ToggleBool { input: 0 }
    );
    s.pick_draft_input(&list, "go");
    assert_eq!(s.listener_draft.input, Some(2));
    assert_eq!(s.draft_actions(&list), vec![DraftAction::Fire]);
    assert_eq!(
        s.listener_from_draft(5, &list).unwrap().action,
        ListenerAction::FireTrigger { input: 2 }
    );
    s.pick_draft_input(&list, "gone");
    assert_eq!(s.listener_draft.input, Some(0));
    s.listener_added();
    assert_eq!(s.listener_draft.event, None);
    assert_eq!(s.listener_draft.input, None);
}

#[test]
fn input_rows_show_default_and_live_value() {
    let kind = InputKind::Bool { default: true };
    assert_eq!(
        preview_control(kind, Some(InputValue::Bool(false))),
        PreviewControl::Switch { on: false }
    );
    assert_eq!(preview_control(kind, None), PreviewControl::Hint);
    assert_eq!(preview_control(InputKind::Trigger, None), PreviewControl::Fire);
    let row = input_row(kind, Some(InputValue::Bool(false)), false);
    assert_eq!(row[0], InputControl::Badge { text: "B" });
    assert_eq!(*row.last().unwrap(), InputControl::Remove);
    let kept = input_row(kind, None, true);
    assert_eq!(*kept.last().unwrap(), InputControl::Name);
    assert_eq!(flipped_default(Some(kind), true), InputKind::Bool { default: false });
    assert_eq!(flipped_default(None, false), InputKind::Bool { default: true });
}

#[test]
fn preview_inputs_fit_the_machine() {
    let kinds = vec![
        InputKind::Bool { default: true },
        InputKind::Number { default: 4 },
        InputKind::Trigger,
    ];
    let mut s = session(Some(9));
    s.machine_preview_enabled = true;
    s.machine_preview_inputs = vec![InputValue::Bool(false), InputValue::Bool(true)];
    assert_eq!(s.reset_machine_preview(Some(&kinds)), EngineSwitch::Machine(9));
    assert_eq!(
        s.machine_preview_inputs,
        vec![InputValue::Bool(false), InputValue::Number(4), InputValue::Trigger { fired: false }]
    );
    let sync = s.resync_machine_preview_after_edit(Some(&kinds), Some(9)).unwrap();
    assert_eq!(sync.play, None);
    assert_eq!(
        sync.writes,
        vec![
            PreviewWrite { input: 0, value: InputValue::Bool(false) },
            PreviewWrite { input: 1, value: InputValue::Number(4) },
        ]
    );
    assert!(s.set_preview_bool(0, true));
    assert!(!s.set_preview_bool(1, true));
    assert!(s.set_preview_number(1, 8));
    assert_eq!(s.machine_preview_inputs[1], InputValue::Number(8));
    assert!(s.fire_preview_trigger(2, 3));
    assert!(!s.fire_preview_trigger(3, 3));
    s.sync_preview_inputs(Some(&vec![InputValue::Bool(true)]));
    assert_eq!(s.machine_preview_inputs.len(), 3);
    assert_eq!(s.reset_machine_preview(None), EngineSwitch::Leave);
    assert!(s.machine_preview_inputs.is_empty());
}

#[test]
fn modes_switch_the_preview() {
    let kinds = vec![InputKind::Trigger];
    let mut s = session(Some(9));
    let before = s.revision;
    assert_eq!(s.set_mode(EditorMode::Design, Some(&kinds)), EngineSwitch::Leave);
    assert_eq!(s.revision, before);
    s.playing = true;
    assert_eq!(s.set_mode(EditorMode::Interact, Some(&kinds)), EngineSwitch::Machine(9));
    assert!(s.machine_preview_enabled);
    s.active_page = PanelPage::Interact;
    assert_eq!(s.set_mode(EditorMode::Design, Some(&kinds)), EngineSwitch::Timeline);
    assert!(!s.machine_preview_enabled);
    assert!(!s.playing);
    assert!(!s.record);
    assert_eq!(s.playback.state, PlayState::Stopped);
    assert_eq!(s.active_page, PanelPage::Canvas);
    s.set_mode(EditorMode::Animate, None);
    assert!(s.record);
}

#[test]
fn previews_start_stop_and_follow_the_active_machine() {
    let kinds = vec![InputKind::Bool { default: false }];
    let mut s = session(Some(9));
    assert_eq!(s.toggle_preview(Some(&kinds)), EngineSwitch::Machine(9));
    assert_eq!(s.ensure_machine_preview_running(Some(&kinds), Some(9)), EngineSwitch::Leave);
    assert_eq!(s.ensure_machine_preview_running(Some(&kinds), None), EngineSwitch::Machine(9));
    assert_eq!(s.disable_machine_preview(), EngineSwitch::Timeline);
    assert!(!s.machine_preview_enabled);
    s.machine_preview_inputs = vec![];
    assert_eq!(s.disable_machine_preview(), EngineSwitch::Leave);
    assert_eq!(s.select_machine(3, false, None), EngineSwitch::Leave);
    assert_eq!(s.active_machine, Some(9));
    assert_eq!(s.select_machine(3, true, Some(&kinds)), EngineSwitch::Timeline);
    assert_eq!(s.active_machine, Some(3));
}

#[test]
fn scrubbing_opens_one_transaction() {
    let mut s = session(Some(9));
    assert_eq!(s.scrub_machine_field(true), None);
    s.begin_machine_field_scrub(1, 2);
    assert_eq!(s.scrub_machine_field(true), Some(Some("Edit machine")));
    assert_eq!(s.scrub_machine_field(true), Some(None));
    assert!(s.end_machine_field_scrub());
    assert!(!s.end_machine_field_scrub());
    s.begin_preview_number_scrub(1, 5, 6);
    assert_eq!(s.scrub_preview_number(), Some((1, 5, 6)));
    s.end_preview_number_scrub();
    assert_eq!(s.scrub_preview_number(), None);
}
