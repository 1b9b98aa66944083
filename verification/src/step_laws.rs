//! What the steps of the history are called.
use vstd::prelude::*;

use crate::arrange::Move;
use crate::assets::{apply_font, remove_image, FontAssetRow, ImageAssetRow};
use crate::clipboard::{EditClosed, InsertRun};
use crate::commands::{Edit, EditorCommand};
use crate::graph::{create_clip_edit, create_machine_edit, machine_change_label, MachineChange};
use crate::inspect::toggle_keys;
use crate::layers::{toggle_lock, toggle_visibility};
use crate::machine::MachineId;
use crate::model::{CompId, Document, Handle, NodeId, Parent, StyleKind};
use crate::pathops::{Contours, DivideRun};
use crate::propedit::{
    change_dashes, set_blend, set_choice, set_composition_end, set_composition_name,
    set_composition_rate, set_composition_side, set_font, set_image_crop, set_layer_end,
    set_layer_stretch, set_node_name, set_paint, set_precomp_offset, set_precomp_source,
    set_precomp_stretch, set_switch, set_text, style_action, style_action_label, DashChange,
    NameEdit, NamedEdit, PaintKind, RangeEnd, Side, StyleAction,
};
use crate::session::Session;
use crate::strokes::StrokeRun;
use crate::styling::StyleRun;

verus! {

/// Whether an edit, where there is one, is called that.
pub open spec fn called(edit: Option<Edit>, label: &'static str) -> bool {
    edit matches Some(e) ==> e.label == label
}

/// The names of the steps that arrange the selection.
pub proof fn law_arranging_steps(
    doc: Document,
    bounded: usize,
    moves: Vec<Move>,
    values: Vec<Option<Handle>>,
)
    ensures
        forall|s: &mut Session, r: Option<Edit>| #[trigger]
            call_ensures(Session::align_selection, (s, &doc, bounded, &moves), r) ==> called(
                r,
                "Align",
            ),
        forall|s: &mut Session, r: Option<Edit>| #[trigger]
            call_ensures(Session::distribute_selection, (s, &doc, bounded, Some(&moves)), r)
                ==> called(r, "Distribute"),
        forall|s: &mut Session, r: Option<Edit>| #[trigger]
            call_ensures(Session::flip_selection, (s, &doc, &values), r) ==> called(r, "Flip"),
        forall|s: &Session, dragging: bool, r: Option<Edit>| #[trigger]
            call_ensures(Session::nudge_selection, (s, &doc, dragging, &values), r) ==> called(
                r,
                "Nudge",
            ),
        forall|s: &mut Session, dragging: bool, r: Option<Edit>| #[trigger]
            call_ensures(Session::delete_selection_nodes, (s, &doc, dragging), r) ==> called(
                r,
                "Delete",
            ),
        forall|s: &Session, placed: Option<(Handle, Handle)>, r: Option<Edit>| #[trigger]
            call_ensures(Session::center_pivot, (s, placed), r) ==> called(r, "Center pivot"),
{
}

/// The names of the steps that operate on paths.
pub proof fn law_path_steps(
    doc: Document,
    ids: Vec<NodeId>,
    c: Contours,
    run: DivideRun,
    handles: Vec<Handle>,
    simpler: Vec<Option<Handle>>,
)
    ensures
        forall|s: &mut Session, r: Option<Edit>| #[trigger]
            call_ensures(Session::reverse_selected_paths, (s, &doc), r) ==> called(
                r,
                "Reverse path",
            ),
        forall|s: &mut Session, r: Option<Edit>| #[trigger]
            call_ensures(Session::convert_selection_to_path, (s, &doc, &handles), r) ==> called(
                r,
                "Object to path",
            ),
        forall|s: &mut Session, r: Option<Edit>| #[trigger]
            call_ensures(Session::finish_divide, (s, &doc, run), r) ==> called(r, "Division"),
        forall|s: &mut Session, r: Option<Edit>| #[trigger]
            call_ensures(Session::finish_combine, (s, &ids, c), r) ==> called(r, "Combine"),
        forall|s: &mut Session, r: Option<Edit>| #[trigger]
            call_ensures(Session::break_apart_selection, (s, &doc, &handles), r) ==> called(
                r,
                "Break apart",
            ),
        forall|s: &mut Session, r: Option<Edit>| #[trigger]
            call_ensures(Session::simplify_selection, (s, &doc, &simpler), r) ==> called(
                r,
                "Simplify",
            ),
        forall|s: &Session, r: Edit| #[trigger]
            call_ensures(Session::add_ellipse_layer, (s, &doc), r) ==> r.label == "Add layer",
        forall|s: &StyleRun, r: &'static str| #[trigger]
            call_ensures(StyleRun::label, (s,), r) ==> r == "Paste style",
        forall|s: &StrokeRun, r: &'static str| #[trigger]
            call_ensures(StrokeRun::label, (s,), r) ==> r == "Stroke to path",
{
}

/// The names of the steps that take from the clipboard and from the selection.
pub proof fn law_clipboard_steps(doc: Document, open: bool)
    ensures
        forall|s: &mut Session, r: (EditClosed, Option<Edit>)| #[trigger]
            call_ensures(Session::cut_selection, (s, &doc, open), r) ==> called(r.1, "Cut"),
        forall|s: &mut Session, r: (EditClosed, Option<InsertRun>)| #[trigger]
            call_ensures(Session::duplicate_selection, (s, &doc, open), r) ==> (r.1 matches Some(
                run,
            ) ==> run.label == "Duplicate"),
{
}

/// The names of the steps that change layers, machines, keys and assets.
pub proof fn law_panel_steps(
    a: Session,
    doc: Document,
    command: EditorCommand,
    target: Option<(NodeId, Parent)>,
    row: Option<NodeId>,
    drop: Option<EditorCommand>,
    noop: bool,
    id: Option<MachineId>,
    first: Option<MachineId>,
    commands: Vec<EditorCommand>,
)
    ensures
        forall|s: &mut Session, r: Option<Edit>| #[trigger]
            call_ensures(Session::finish_layer_drag, (s, &doc, target, drop, noop), r) ==> called(
                r,
                "Reorder layer",
            ),
        forall|s: &mut Session, r: Option<Edit>| #[trigger]
            call_ensures(Session::release_layer_row, (s, &doc, row, drop, noop), r) ==> called(
                r,
                "Reorder layer",
            ),
        forall|r: Edit| #[trigger]
            call_ensures(toggle_visibility, (command,), r) ==> r.label == "Visibility",
        forall|r: Edit| #[trigger]
            call_ensures(toggle_lock, (command,), r) ==> r.label == "Lock",
        forall|r: Option<Edit>| #[trigger]
            call_ensures(Session::remove_active_machine, (&a, noop), r) ==> called(
                r,
                "Remove machine",
            ),
        forall|s: &mut Session, r: Option<Edit>| #[trigger]
            call_ensures(Session::machine_removed, (s, id, first), r) ==> called(
                r,
                "Set start machine",
            ),
        forall|r: Option<Edit>| #[trigger]
            call_ensures(Session::set_active_as_start_machine, (&a, id), r) ==> called(
                r,
                "Set start machine",
            ),
        forall|
            s: &mut Session,
            change: MachineChange,
            edited: Result<Handle, String>,
            name: &'static str,
            r: Option<Edit>,
        |
            #[trigger] call_ensures(machine_change_label, (change,), name)
                && #[trigger] call_ensures(
                Session::edit_active_machine,
                (s, change, noop, edited),
                r,
            ) ==> called(r, name),
        forall|clip: Handle, r: Edit| #[trigger]
            call_ensures(create_clip_edit, (clip,), r) ==> r.label == "Create clip",
        forall|machine: Handle, r: Edit| #[trigger]
            call_ensures(create_machine_edit, (machine,), r) ==> r.label == "Create machine",
        forall|r: Option<Edit>| #[trigger]
            call_ensures(toggle_keys, (commands,), r) ==> called(r, "Keyframe"),
        forall|image: &ImageAssetRow, r: Option<Edit>| #[trigger]
            call_ensures(remove_image, (image,), r) ==> called(r, "Remove image"),
        forall|font: &FontAssetRow, text: NodeId, family: Handle, r: Edit| #[trigger]
            call_ensures(apply_font, (font, text, family), r) ==> r.label == "Change font",
        forall|comp: CompId, start: Option<i64>, end: Option<i64>, r: Edit| #[trigger]
            call_ensures(Session::set_composition_range, (comp, start, end), r) ==> r.label
                == "Duration",
        forall|style: NodeId, stops: Option<Handle>, r: Option<Edit>| #[trigger]
            call_ensures(Session::add_stop, (&a, style, stops), r) ==> called(r, "Add stop"),
        forall|style: NodeId, index: usize, count: usize, rest: Handle, r: Option<Edit>|
            #[trigger] call_ensures(Session::remove_stop, (&a, style, index, count, rest), r)
                ==> called(r, "Remove stop"),
{
}

/// The names of the steps of the property panel.
pub proof fn law_property_steps(
    doc: Document,
    comp: CompId,
    id: NodeId,
    size: (u32, u32),
    text: &str,
    handle: Option<Handle>,
    command: Option<EditorCommand>,
)
    ensures
        forall|side: Side, r: Option<Edit>| #[trigger]
            call_ensures(set_composition_side, (comp, size, side, text), r) ==> called(
                r,
                "Set composition size",
            ),
        forall|r: Option<Edit>| #[trigger]
            call_ensures(set_composition_rate, (comp, text), r) ==> called(r, "Set frame rate"),
        forall|end: RangeEnd, r: Option<Edit>| #[trigger]
            call_ensures(set_composition_end, (comp, end, text), r) ==> called(
                r,
                "Set composition range",
            ),
        forall|r: Option<Edit>| #[trigger]
            call_ensures(set_layer_end, (id, RangeEnd::In, text), r) ==> called(r, "Set layer in"),
        forall|r: Option<Edit>| #[trigger]
            call_ensures(set_layer_end, (id, RangeEnd::Out, text), r) ==> called(
                r,
                "Set layer out",
            ),
        forall|r: Option<Edit>| #[trigger]
            call_ensures(set_layer_stretch, (id, handle), r) ==> called(r, "Set layer stretch"),
        forall|index: usize, r: Edit| #[trigger]
            call_ensures(set_blend, (id, index), r) ==> r.label == "Set blend",
        forall|r: Option<Edit>| #[trigger]
            call_ensures(set_precomp_offset, (id, text), r) ==> called(r, "Set precomp offset"),
        forall|r: Option<Edit>| #[trigger]
            call_ensures(set_precomp_stretch, (id, handle), r) ==> called(
                r,
                "Set precomp stretch",
            ),
        forall|from: CompId, to: CompId, r: Option<Edit>| #[trigger]
            call_ensures(set_precomp_source, (id, from, to), r) ==> called(
                r,
                "Set precomp source",
            ),
        forall|r: Option<Edit>| #[trigger]
            call_ensures(set_image_crop, (&doc, id, handle), r) ==> called(r, "Set image crop"),
        forall|content: Handle, r: Edit| #[trigger]
            call_ensures(set_text, (id, content), r) ==> r.label == "Edit text",
        forall|r: Edit| #[trigger]
            call_ensures(set_font, (id, handle), r) ==> r.label == "Change font",
        forall|
            current: Option<PaintKind>,
            target: PaintKind,
            turned: Handle,
            axis: Handle,
            r: Option<Edit>,
        |
            #[trigger] call_ensures(set_paint, (id, current, target, turned, axis), r) ==> called(
                r,
                "Paint",
            ),
        forall|r: Option<NameEdit>| #[trigger]
            call_ensures(set_composition_name, (comp, text), r) ==> (r matches Some(e) ==> e.label
                == "Set composition name"),
        forall|r: Option<NameEdit>| #[trigger]
            call_ensures(set_node_name, (&doc, id, text), r) ==> (r matches Some(e) ==> e.label
                == "Rename"),
        forall|commands: Vec<EditorCommand>, r: Option<NamedEdit>| #[trigger]
            call_ensures(set_choice, (text, commands), r) ==> (r matches Some(e) ==> e.label@
                == "Set "@ + text@),
        forall|commands: Vec<EditorCommand>, r: Option<NamedEdit>| #[trigger]
            call_ensures(set_switch, (text, commands), r) ==> (r matches Some(e) ==> e.label@
                == "Toggle "@ + text@),
        forall|change: DashChange, r: Option<Edit>| #[trigger]
            call_ensures(change_dashes, (change, command), r) ==> called(
                r,
                match change {
                    DashChange::Enable => "Enable dashes",
                    DashChange::AddPair => "Add dash pair",
                    DashChange::RemovePair => "Remove dash pair",
                    DashChange::Disable => "Disable dashes",
                },
            ),
        forall|action: StyleAction, name: &'static str, r: Option<Edit>|
            #[trigger] call_ensures(style_action_label, (action,), name) && #[trigger] call_ensures(
                style_action,
                (action, command),
                r,
            ) ==> called(r, name),
{
}

/// A style is called added where it is not removed, by its kind.
pub proof fn law_style_actions_are_called(r: &'static str, kind: StyleKind, remove: bool)
    requires
        call_ensures(style_action_label, (StyleAction { kind, remove },), r),
    ensures
        kind is Fill && !remove ==> r == "Add fill",
        kind is Fill && remove ==> r == "Remove fill",
        kind is Stroke && !remove ==> r == "Add stroke",
        kind is Stroke && remove ==> r == "Remove stroke",
{
}

} // verus!
