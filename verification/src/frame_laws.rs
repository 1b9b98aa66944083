//! What each operation may change of the session, and that it changes nothing else.
use vstd::prelude::*;

use crate::arrange::Move;
use crate::clipboard::{EditClosed, InsertRun};
use crate::commands::{Applied, Edit, EditorCommand, Head, Message, ToolId, ToolOutput};
use crate::files::{FileStep, OpenedFile, PendingFileOp};
use crate::graph::{GraphPress, GraphPressed, GraphReleased, MachineChange};
use crate::layers::LayerKind;
use crate::machine::{
    BlendChild, ClipId, InputDef, InputKind, InputValue, Machine, MachineId, TransitionSource,
};
use crate::machine_ui::{DraftAction, KindChange};
use crate::model::{Document, Handle, NodeId, Parent};
use crate::pathops::{BooleanRun, Contours, DivideRun, SelectionBoolean};
use crate::picker::{MenuAction, MenuStep, PickerCommit, PickerWrite};
use crate::preview::Resync;
use crate::propedit::NameEdit;
use crate::session::{
    ContextMenuState, EditorMode, EngineSwitch, GraphPoint, OutputEnd, OutputRun, OutputStep,
    PanelPage, PendingIntent, PickerTarget, PointerEventKind, Session,
};
use crate::strokes::StrokeRun;
use crate::styling::StyleRun;
use crate::timeline::HeadPlace;

verus! {

/// `align_selection` changes nothing of the session but the count of repaints and the
/// status.
pub proof fn law_frame_of_align_selection()
    ensures
        forall|
            s: &mut Session,
            doc: &Document,
            bounded: usize,
            moves: &Vec<Move>,
            r: Option<Edit>,
        | #[trigger]
            call_ensures(Session::align_selection, (s, doc, bounded, moves), r)
                ==> *final(s) == (Session {
                revision: (*final(s)).revision,
                status: (*final(s)).status,
                ..*s
            }),
{
}

/// `distribute_selection` changes nothing of the session but the count of repaints and
/// the status.
pub proof fn law_frame_of_distribute_selection()
    ensures
        forall|
            s: &mut Session,
            doc: &Document,
            bounded: usize,
            moves: Option<&Vec<Move>>,
            r: Option<Edit>,
        | #[trigger]
            call_ensures(Session::distribute_selection, (s, doc, bounded, moves), r)
                ==> *final(s) == (Session {
                revision: (*final(s)).revision,
                status: (*final(s)).status,
                ..*s
            }),
{
}

/// `flip_selection` changes nothing of the session but the count of repaints and the
/// status.
pub proof fn law_frame_of_flip_selection()
    ensures
        forall|
            s: &mut Session,
            doc: &Document,
            scales: &Vec<Option<Handle>>,
            r: Option<Edit>,
        | #[trigger]
            call_ensures(Session::flip_selection, (s, doc, scales), r) ==> *final(s) == (Session {
                revision: (*final(s)).revision,
                status: (*final(s)).status,
                ..*s
            }),
{
}

/// `delete_selection_nodes` changes nothing of the session but the count of repaints and
/// the status.
pub proof fn law_frame_of_delete_selection_nodes()
    ensures
        forall|s: &mut Session, doc: &Document, dragging: bool, r: Option<Edit>| #[trigger]
            call_ensures(Session::delete_selection_nodes, (s, doc, dragging), r)
                ==> *final(s) == (Session {
                revision: (*final(s)).revision,
                status: (*final(s)).status,
                ..*s
            }),
{
}

/// `deselect_when_idle` changes nothing of the session but the selection and the count of
/// repaints.
pub proof fn law_frame_of_deselect_when_idle()
    ensures
        forall|s: &mut Session, dragging: bool, r: bool| #[trigger]
            call_ensures(Session::deselect_when_idle, (s, dragging), r) ==> *final(s) == (Session {
                selection: (*final(s)).selection,
                revision: (*final(s)).revision,
                ..*s
            }),
{
}

/// `cycle_selection` changes nothing of the session but the selection, the count of
/// repaints and what is expanded.
pub proof fn law_frame_of_cycle_selection()
    ensures
        forall|s: &mut Session, doc: &Document, reverse: bool| #[trigger]
            call_ensures(Session::cycle_selection, (s, doc, reverse), ())
                ==> *final(s) == (Session {
                selection: (*final(s)).selection,
                revision: (*final(s)).revision,
                expanded_layers: (*final(s)).expanded_layers,
                ..*s
            }),
{
}

/// `select_all_top_level` changes nothing of the session but the selection, the count of
/// repaints and what is expanded.
pub proof fn law_frame_of_select_all_top_level()
    ensures
        forall|s: &mut Session, doc: &Document| #[trigger]
            call_ensures(Session::select_all_top_level, (s, doc), ()) ==> *final(s) == (Session {
                selection: (*final(s)).selection,
                revision: (*final(s)).revision,
                expanded_layers: (*final(s)).expanded_layers,
                ..*s
            }) && (*final(s)).revision != (*s).revision,
{
}

/// `set_all_expanded` changes nothing of the session but the count of repaints and what
/// is expanded.
pub proof fn law_frame_of_set_all_expanded()
    ensures
        forall|s: &mut Session, doc: &Document, expanded: bool| #[trigger]
            call_ensures(Session::set_all_expanded, (s, doc, expanded), ())
                ==> *final(s) == (Session {
                revision: (*final(s)).revision,
                expanded_layers: (*final(s)).expanded_layers,
                ..*s
            }),
{
}

/// `finalize_open_edit` changes nothing of the session but the mark of unsaved work, the
/// count of repaints, the drag of a layer, the drag of a number, the picker and the drag
/// in the machine panel.
pub proof fn law_frame_of_finalize_open_edit()
    ensures
        forall|s: &mut Session, transaction_open: bool, r: EditClosed| #[trigger]
            call_ensures(Session::finalize_open_edit, (s, transaction_open), r)
                ==> *final(s) == (Session {
                dirty: (*final(s)).dirty,
                revision: (*final(s)).revision,
                layer_drag: (*final(s)).layer_drag,
                inspector_drag: (*final(s)).inspector_drag,
                open_picker: (*final(s)).open_picker,
                machine_drag: (*final(s)).machine_drag,
                ..*s
            }),
{
}

/// `cut_selection` changes nothing of the session but the mark of unsaved work, the count
/// of repaints, the drag of a layer, the drag of a number, the status, the picker, the
/// clipboard and the drag in the machine panel.
pub proof fn law_frame_of_cut_selection()
    ensures
        forall|
            s: &mut Session,
            doc: &Document,
            transaction_open: bool,
            r: (EditClosed, Option<Edit>),
        | #[trigger]
            call_ensures(Session::cut_selection, (s, doc, transaction_open), r)
                ==> *final(s) == (Session {
                dirty: (*final(s)).dirty,
                revision: (*final(s)).revision,
                layer_drag: (*final(s)).layer_drag,
                inspector_drag: (*final(s)).inspector_drag,
                status: (*final(s)).status,
                open_picker: (*final(s)).open_picker,
                clipboard: (*final(s)).clipboard,
                machine_drag: (*final(s)).machine_drag,
                ..*s
            }),
{
}

/// `copy_selection` changes nothing of the session but the mark of unsaved work, the
/// count of repaints, the drag of a layer, the drag of a number, the status, the picker,
/// the clipboard and the drag in the machine panel.
pub proof fn law_frame_of_copy_selection()
    ensures
        forall|s: &mut Session, doc: &Document, transaction_open: bool, r: EditClosed| #[trigger]
            call_ensures(Session::copy_selection, (s, doc, transaction_open), r)
                ==> *final(s) == (Session {
                dirty: (*final(s)).dirty,
                revision: (*final(s)).revision,
                layer_drag: (*final(s)).layer_drag,
                inspector_drag: (*final(s)).inspector_drag,
                status: (*final(s)).status,
                open_picker: (*final(s)).open_picker,
                clipboard: (*final(s)).clipboard,
                machine_drag: (*final(s)).machine_drag,
                ..*s
            }),
{
}

/// `paste_clipboard` changes nothing of the session but the mark of unsaved work, the
/// count of repaints, the drag of a layer, the drag of a number, the status, the picker
/// and the drag in the machine panel.
pub proof fn law_frame_of_paste_clipboard()
    ensures
        forall|
            s: &mut Session,
            transaction_open: bool,
            r: Option<(EditClosed, InsertRun)>,
        | #[trigger]
            call_ensures(Session::paste_clipboard, (s, transaction_open), r)
                ==> *final(s) == (Session {
                dirty: (*final(s)).dirty,
                revision: (*final(s)).revision,
                layer_drag: (*final(s)).layer_drag,
                inspector_drag: (*final(s)).inspector_drag,
                status: (*final(s)).status,
                open_picker: (*final(s)).open_picker,
                machine_drag: (*final(s)).machine_drag,
                ..*s
            }),
{
}

/// `paste_selection` changes nothing of the session but the mark of unsaved work, the
/// count of repaints, the drag of a layer, the drag of a number, the status, the picker
/// and the drag in the machine panel.
pub proof fn law_frame_of_paste_selection()
    ensures
        forall|
            s: &mut Session,
            transaction_open: bool,
            r: Option<(EditClosed, InsertRun)>,
        | #[trigger]
            call_ensures(Session::paste_selection, (s, transaction_open), r)
                ==> *final(s) == (Session {
                dirty: (*final(s)).dirty,
                revision: (*final(s)).revision,
                layer_drag: (*final(s)).layer_drag,
                inspector_drag: (*final(s)).inspector_drag,
                status: (*final(s)).status,
                open_picker: (*final(s)).open_picker,
                machine_drag: (*final(s)).machine_drag,
                ..*s
            }),
{
}

/// `paste_clipboard_in_place` changes nothing of the session but the mark of unsaved
/// work, the count of repaints, the drag of a layer, the drag of a number, the status,
/// the picker and the drag in the machine panel.
pub proof fn law_frame_of_paste_clipboard_in_place()
    ensures
        forall|
            s: &mut Session,
            transaction_open: bool,
            r: Option<(EditClosed, InsertRun)>,
        | #[trigger]
            call_ensures(Session::paste_clipboard_in_place, (s, transaction_open), r)
                ==> *final(s) == (Session {
                dirty: (*final(s)).dirty,
                revision: (*final(s)).revision,
                layer_drag: (*final(s)).layer_drag,
                inspector_drag: (*final(s)).inspector_drag,
                status: (*final(s)).status,
                open_picker: (*final(s)).open_picker,
                machine_drag: (*final(s)).machine_drag,
                ..*s
            }),
{
}

/// `duplicate_selection` changes nothing of the session but the mark of unsaved work, the
/// count of repaints, the drag of a layer, the drag of a number, the status, the picker
/// and the drag in the machine panel.
pub proof fn law_frame_of_duplicate_selection()
    ensures
        forall|
            s: &mut Session,
            doc: &Document,
            transaction_open: bool,
            r: (EditClosed, Option<InsertRun>),
        | #[trigger]
            call_ensures(Session::duplicate_selection, (s, doc, transaction_open), r)
                ==> *final(s) == (Session {
                dirty: (*final(s)).dirty,
                revision: (*final(s)).revision,
                layer_drag: (*final(s)).layer_drag,
                inspector_drag: (*final(s)).inspector_drag,
                status: (*final(s)).status,
                open_picker: (*final(s)).open_picker,
                machine_drag: (*final(s)).machine_drag,
                ..*s
            }),
{
}

/// `finish_insert` changes nothing of the session but the mark of unsaved work, the
/// selection, the count of repaints and what is expanded.
pub proof fn law_frame_of_finish_insert()
    ensures
        forall|s: &mut Session, run: InsertRun, doc: &Document, r: bool| #[trigger]
            call_ensures(Session::finish_insert, (s, run, doc), r) ==> *final(s) == (Session {
                dirty: (*final(s)).dirty,
                selection: (*final(s)).selection,
                revision: (*final(s)).revision,
                expanded_layers: (*final(s)).expanded_layers,
                ..*s
            }),
{
}

/// `replace_file` changes nothing of the session but the mark of unsaved work, the
/// selection, the count of repaints, what is expanded, the drag of a layer, the renaming,
/// the recording, the drag of a number, the picker, the menu, the mark of an export, the
/// welcome, the clipboard, the active machine, the selection in the machine, the preview
/// inputs, the mark of the preview, the drag in the machine panel, the gesture on the
/// graph and the draft of a listener.
pub proof fn law_frame_of_replace_file()
    ensures
        forall|s: &mut Session, file: &OpenedFile| #[trigger]
            call_ensures(Session::replace_file, (s, file), ()) ==> *final(s) == (Session {
                dirty: (*final(s)).dirty,
                selection: (*final(s)).selection,
                revision: (*final(s)).revision,
                expanded_layers: (*final(s)).expanded_layers,
                layer_drag: (*final(s)).layer_drag,
                renaming: (*final(s)).renaming,
                record: (*final(s)).record,
                inspector_drag: (*final(s)).inspector_drag,
                open_picker: (*final(s)).open_picker,
                context_menu: (*final(s)).context_menu,
                exporting_png: (*final(s)).exporting_png,
                welcome: (*final(s)).welcome,
                clipboard: (*final(s)).clipboard,
                active_machine: (*final(s)).active_machine,
                machine_selection: (*final(s)).machine_selection,
                machine_preview_inputs: (*final(s)).machine_preview_inputs,
                machine_preview_enabled: (*final(s)).machine_preview_enabled,
                machine_drag: (*final(s)).machine_drag,
                machine_graph_gesture: (*final(s)).machine_graph_gesture,
                listener_draft: (*final(s)).listener_draft,
                ..*s
            }),
{
}

/// `mark_saved` changes nothing of the session but the path, the mark of unsaved work and
/// the count of repaints.
pub proof fn law_frame_of_mark_saved()
    ensures
        forall|s: &mut Session, path: Option<String>| #[trigger]
            call_ensures(Session::mark_saved, (s, path), ()) ==> *final(s) == (Session {
                current_path: (*final(s)).current_path,
                dirty: (*final(s)).dirty,
                revision: (*final(s)).revision,
                ..*s
            }) && (*final(s)).revision != (*s).revision,
{
}

/// `set_status` changes nothing of the session but the count of repaints and the status.
pub proof fn law_frame_of_set_status()
    ensures
        forall|s: &mut Session, message: Message| #[trigger]
            call_ensures(Session::set_status, (s, message), ()) ==> *final(s) == (Session {
                revision: (*final(s)).revision,
                status: (*final(s)).status,
                ..*s
            }) && (*final(s)).revision != (*s).revision,
{
}

/// `report_error` changes nothing of the session but the count of repaints and the
/// status.
pub proof fn law_frame_of_report_error()
    ensures
        forall|s: &mut Session, error: &str| #[trigger]
            call_ensures(Session::report_error, (s, error), ()) ==> *final(s) == (Session {
                revision: (*final(s)).revision,
                status: (*final(s)).status,
                ..*s
            }) && (*final(s)).revision != (*s).revision,
{
}

/// `request_discard` changes nothing of the session but the count of repaints and the
/// waiting intent.
pub proof fn law_frame_of_request_discard()
    ensures
        forall|s: &mut Session, intent: PendingIntent| #[trigger]
            call_ensures(Session::request_discard, (s, intent), ()) ==> *final(s) == (Session {
                revision: (*final(s)).revision,
                pending_intent: (*final(s)).pending_intent,
                ..*s
            }),
{
}

/// `take_pending_intent` changes nothing of the session but the waiting intent.
pub proof fn law_frame_of_take_pending_intent()
    ensures
        forall|s: &mut Session, r: Option<PendingIntent>| #[trigger]
            call_ensures(Session::take_pending_intent, (s,), r) ==> *final(s) == (Session {
                pending_intent: (*final(s)).pending_intent,
                ..*s
            }),
{
}

/// `clear_pending_intent` changes nothing of the session but the count of repaints and
/// the waiting intent.
pub proof fn law_frame_of_clear_pending_intent()
    ensures
        forall|s: &mut Session| #[trigger]
            call_ensures(Session::clear_pending_intent, (s,), ()) ==> *final(s) == (Session {
                revision: (*final(s)).revision,
                pending_intent: (*final(s)).pending_intent,
                ..*s
            }),
{
}

/// `request_guard` changes nothing of the session but the count of repaints and the
/// waiting intent.
pub proof fn law_frame_of_request_guard()
    ensures
        forall|s: &mut Session, intent: PendingIntent, r: bool| #[trigger]
            call_ensures(Session::request_guard, (s, intent), r) ==> *final(s) == (Session {
                revision: (*final(s)).revision,
                pending_intent: (*final(s)).pending_intent,
                ..*s
            }),
{
}

/// `discard_save` changes nothing of the session but the count of repaints and the
/// waiting intent.
pub proof fn law_frame_of_discard_save()
    ensures
        forall|s: &mut Session, written: bool, r: Option<PendingIntent>| #[trigger]
            call_ensures(Session::discard_save, (s, written), r) ==> *final(s) == (Session {
                revision: (*final(s)).revision,
                pending_intent: (*final(s)).pending_intent,
                ..*s
            }),
{
}

/// `discard_discard` changes nothing of the session but the waiting intent.
pub proof fn law_frame_of_discard_discard()
    ensures
        forall|s: &mut Session, r: Option<PendingIntent>| #[trigger]
            call_ensures(Session::discard_discard, (s,), r) ==> *final(s) == (Session {
                pending_intent: (*final(s)).pending_intent,
                ..*s
            }),
{
}

/// `discard_cancel` changes nothing of the session but the count of repaints and the
/// waiting intent.
pub proof fn law_frame_of_discard_cancel()
    ensures
        forall|s: &mut Session| #[trigger]
            call_ensures(Session::discard_cancel, (s,), ()) ==> *final(s) == (Session {
                revision: (*final(s)).revision,
                pending_intent: (*final(s)).pending_intent,
                ..*s
            }),
{
}

/// `new_document_inner` changes nothing of the session but the path, the mark of unsaved
/// work, the selection, the count of repaints, what is expanded, the drag of a layer, the
/// renaming, the recording, the drag of a number, the status, the picker, the menu, the
/// mark of an export, the welcome, the clipboard, the active machine, the selection in
/// the machine, the preview inputs, the mark of the preview, the drag in the machine
/// panel, the gesture on the graph and the draft of a listener.
pub proof fn law_frame_of_new_document_inner()
    ensures
        forall|s: &mut Session, file: &OpenedFile| #[trigger]
            call_ensures(Session::new_document_inner, (s, file), ()) ==> *final(s) == (Session {
                current_path: (*final(s)).current_path,
                dirty: (*final(s)).dirty,
                selection: (*final(s)).selection,
                revision: (*final(s)).revision,
                expanded_layers: (*final(s)).expanded_layers,
                layer_drag: (*final(s)).layer_drag,
                renaming: (*final(s)).renaming,
                record: (*final(s)).record,
                inspector_drag: (*final(s)).inspector_drag,
                status: (*final(s)).status,
                open_picker: (*final(s)).open_picker,
                context_menu: (*final(s)).context_menu,
                exporting_png: (*final(s)).exporting_png,
                welcome: (*final(s)).welcome,
                clipboard: (*final(s)).clipboard,
                active_machine: (*final(s)).active_machine,
                machine_selection: (*final(s)).machine_selection,
                machine_preview_inputs: (*final(s)).machine_preview_inputs,
                machine_preview_enabled: (*final(s)).machine_preview_enabled,
                machine_drag: (*final(s)).machine_drag,
                machine_graph_gesture: (*final(s)).machine_graph_gesture,
                listener_draft: (*final(s)).listener_draft,
                ..*s
            }),
{
}

/// `new_document` changes nothing of the session but the path, the mark of unsaved work,
/// the selection, the count of repaints, what is expanded, the drag of a layer, the
/// renaming, the recording, the drag of a number, the status, the waiting intent, the
/// picker, the menu, the mark of an export, the welcome, the clipboard, the active
/// machine, the selection in the machine, the preview inputs, the mark of the preview,
/// the drag in the machine panel, the gesture on the graph and the draft of a listener.
pub proof fn law_frame_of_new_document()
    ensures
        forall|s: &mut Session, file: &OpenedFile, r: bool| #[trigger]
            call_ensures(Session::new_document, (s, file), r) ==> *final(s) == (Session {
                current_path: (*final(s)).current_path,
                dirty: (*final(s)).dirty,
                selection: (*final(s)).selection,
                revision: (*final(s)).revision,
                expanded_layers: (*final(s)).expanded_layers,
                layer_drag: (*final(s)).layer_drag,
                renaming: (*final(s)).renaming,
                record: (*final(s)).record,
                inspector_drag: (*final(s)).inspector_drag,
                status: (*final(s)).status,
                pending_intent: (*final(s)).pending_intent,
                open_picker: (*final(s)).open_picker,
                context_menu: (*final(s)).context_menu,
                exporting_png: (*final(s)).exporting_png,
                welcome: (*final(s)).welcome,
                clipboard: (*final(s)).clipboard,
                active_machine: (*final(s)).active_machine,
                machine_selection: (*final(s)).machine_selection,
                machine_preview_inputs: (*final(s)).machine_preview_inputs,
                machine_preview_enabled: (*final(s)).machine_preview_enabled,
                machine_drag: (*final(s)).machine_drag,
                machine_graph_gesture: (*final(s)).machine_graph_gesture,
                listener_draft: (*final(s)).listener_draft,
                ..*s
            }),
{
}

/// `template_loaded` changes nothing of the session but the path, the mark of unsaved
/// work, the selection, the count of repaints, what is expanded, the drag of a layer, the
/// renaming, the recording, the drag of a number, the status, the picker, the menu, the
/// mark of an export, the welcome, the clipboard, the active machine, the selection in
/// the machine, the preview inputs, the mark of the preview, the drag in the machine
/// panel, the gesture on the graph and the draft of a listener.
pub proof fn law_frame_of_template_loaded()
    ensures
        forall|s: &mut Session, file: &OpenedFile, title: &str| #[trigger]
            call_ensures(Session::template_loaded, (s, file, title), ()) ==> *final(s) == (Session {
                current_path: (*final(s)).current_path,
                dirty: (*final(s)).dirty,
                selection: (*final(s)).selection,
                revision: (*final(s)).revision,
                expanded_layers: (*final(s)).expanded_layers,
                layer_drag: (*final(s)).layer_drag,
                renaming: (*final(s)).renaming,
                record: (*final(s)).record,
                inspector_drag: (*final(s)).inspector_drag,
                status: (*final(s)).status,
                open_picker: (*final(s)).open_picker,
                context_menu: (*final(s)).context_menu,
                exporting_png: (*final(s)).exporting_png,
                welcome: (*final(s)).welcome,
                clipboard: (*final(s)).clipboard,
                active_machine: (*final(s)).active_machine,
                machine_selection: (*final(s)).machine_selection,
                machine_preview_inputs: (*final(s)).machine_preview_inputs,
                machine_preview_enabled: (*final(s)).machine_preview_enabled,
                machine_drag: (*final(s)).machine_drag,
                machine_graph_gesture: (*final(s)).machine_graph_gesture,
                listener_draft: (*final(s)).listener_draft,
                ..*s
            }),
{
}

/// `file_op_arrived` changes nothing of the session but the path, the mark of unsaved
/// work, the selection, the count of repaints, what is expanded, the drag of a layer, the
/// renaming, the recording, the drag of a number, the status, the waiting intent, the
/// picker, the menu, the mark of an export, the welcome, the clipboard, the active
/// machine, the selection in the machine, the preview inputs, the mark of the preview,
/// the drag in the machine panel, the gesture on the graph and the draft of a listener.
pub proof fn law_frame_of_file_op_arrived()
    ensures
        forall|s: &mut Session, op: PendingFileOp, r: FileStep| #[trigger]
            call_ensures(Session::file_op_arrived, (s, op), r) ==> *final(s) == (Session {
                current_path: (*final(s)).current_path,
                dirty: (*final(s)).dirty,
                selection: (*final(s)).selection,
                revision: (*final(s)).revision,
                expanded_layers: (*final(s)).expanded_layers,
                layer_drag: (*final(s)).layer_drag,
                renaming: (*final(s)).renaming,
                record: (*final(s)).record,
                inspector_drag: (*final(s)).inspector_drag,
                status: (*final(s)).status,
                pending_intent: (*final(s)).pending_intent,
                open_picker: (*final(s)).open_picker,
                context_menu: (*final(s)).context_menu,
                exporting_png: (*final(s)).exporting_png,
                welcome: (*final(s)).welcome,
                clipboard: (*final(s)).clipboard,
                active_machine: (*final(s)).active_machine,
                machine_selection: (*final(s)).machine_selection,
                machine_preview_inputs: (*final(s)).machine_preview_inputs,
                machine_preview_enabled: (*final(s)).machine_preview_enabled,
                machine_drag: (*final(s)).machine_drag,
                machine_graph_gesture: (*final(s)).machine_graph_gesture,
                listener_draft: (*final(s)).listener_draft,
                ..*s
            }),
{
}

/// `import_font` changes nothing of the session but the mark of unsaved work, the count
/// of repaints and the status.
pub proof fn law_frame_of_import_font()
    ensures
        forall|s: &mut Session, reply: Result<Applied, String>, family: &str| #[trigger]
            call_ensures(Session::import_font, (s, reply, family), ()) ==> *final(s) == (Session {
                dirty: (*final(s)).dirty,
                revision: (*final(s)).revision,
                status: (*final(s)).status,
                ..*s
            }),
{
}

/// `import_image` changes nothing of the session but the mark of unsaved work, the count
/// of repaints and the status.
pub proof fn law_frame_of_import_image()
    ensures
        forall|s: &mut Session, reply: Result<Applied, String>, name: &str, r: bool| #[trigger]
            call_ensures(Session::import_image, (s, reply, name), r) ==> *final(s) == (Session {
                dirty: (*final(s)).dirty,
                revision: (*final(s)).revision,
                status: (*final(s)).status,
                ..*s
            }),
{
}

/// `save_finished` changes nothing of the session but the path, the mark of unsaved work,
/// the count of repaints and the status.
pub proof fn law_frame_of_save_finished()
    ensures
        forall|s: &mut Session, path: String, result: Result<(), String>, r: bool| #[trigger]
            call_ensures(Session::save_finished, (s, path, result), r) ==> *final(s) == (Session {
                current_path: (*final(s)).current_path,
                dirty: (*final(s)).dirty,
                revision: (*final(s)).revision,
                status: (*final(s)).status,
                ..*s
            }),
{
}

/// `may_export_png` changes nothing of the session but the count of repaints and the
/// status.
pub proof fn law_frame_of_may_export_png()
    ensures
        forall|s: &mut Session, r: bool| #[trigger]
            call_ensures(Session::may_export_png, (s,), r) ==> *final(s) == (Session {
                revision: (*final(s)).revision,
                status: (*final(s)).status,
                ..*s
            }),
{
}

/// `png_prepared` changes nothing of the session but the count of repaints, the status
/// and the mark of an export.
pub proof fn law_frame_of_png_prepared()
    ensures
        forall|s: &mut Session, result: Result<(), String>, r: bool| #[trigger]
            call_ensures(Session::png_prepared, (s, result), r) ==> *final(s) == (Session {
                revision: (*final(s)).revision,
                status: (*final(s)).status,
                exporting_png: (*final(s)).exporting_png,
                ..*s
            }),
{
}

/// `svg_written` changes nothing of the session but the count of repaints and the status.
pub proof fn law_frame_of_svg_written()
    ensures
        forall|s: &mut Session, path: &str, result: Result<(), String>| #[trigger]
            call_ensures(Session::svg_written, (s, path, result), ()) ==> *final(s) == (Session {
                revision: (*final(s)).revision,
                status: (*final(s)).status,
                ..*s
            }),
{
}

/// `handle_graph_down` changes nothing of the session but the selection in the machine,
/// the active layer of the machine and the gesture on the graph.
pub proof fn law_frame_of_handle_graph_down()
    ensures
        forall|s: &mut Session, press: &GraphPress, r: GraphPressed| #[trigger]
            call_ensures(Session::handle_graph_down, (s, press), r) ==> *final(s) == (Session {
                machine_selection: (*final(s)).machine_selection,
                active_machine_layer: (*final(s)).active_machine_layer,
                machine_graph_gesture: (*final(s)).machine_graph_gesture,
                ..*s
            }),
{
}

/// `handle_graph_move` changes nothing of the session but the gesture on the graph.
pub proof fn law_frame_of_handle_graph_move()
    ensures
        forall|s: &mut Session, position: GraphPoint, r: Option<GraphPoint>| #[trigger]
            call_ensures(Session::handle_graph_move, (s, position), r) ==> *final(s) == (Session {
                machine_graph_gesture: (*final(s)).machine_graph_gesture,
                ..*s
            }),
{
}

/// `handle_graph_up` changes nothing of the session but the selection in the machine, the
/// active layer of the machine and the gesture on the graph.
pub proof fn law_frame_of_handle_graph_up()
    ensures
        forall|s: &mut Session, state: Option<(usize, usize)>, r: GraphReleased| #[trigger]
            call_ensures(Session::handle_graph_up, (s, state), r) ==> *final(s) == (Session {
                machine_selection: (*final(s)).machine_selection,
                active_machine_layer: (*final(s)).active_machine_layer,
                machine_graph_gesture: (*final(s)).machine_graph_gesture,
                ..*s
            }),
{
}

/// `handle_graph_cancel` changes nothing of the session but the gesture on the graph.
pub proof fn law_frame_of_handle_graph_cancel()
    ensures
        forall|s: &mut Session| #[trigger]
            call_ensures(Session::handle_graph_cancel, (s,), ()) ==> *final(s) == (Session {
                machine_graph_gesture: (*final(s)).machine_graph_gesture,
                ..*s
            }),
{
}

/// `state_added` changes nothing of the session but the selection in the machine and the
/// active layer of the machine.
pub proof fn law_frame_of_state_added()
    ensures
        forall|s: &mut Session, machine: Option<&Machine>, layer: usize| #[trigger]
            call_ensures(Session::state_added, (s, machine, layer), ()) ==> *final(s) == (Session {
                machine_selection: (*final(s)).machine_selection,
                active_machine_layer: (*final(s)).active_machine_layer,
                ..*s
            }),
{
}

/// `transition_added` changes nothing of the session but the selection in the machine and
/// the active layer of the machine.
pub proof fn law_frame_of_transition_added()
    ensures
        forall|
            s: &mut Session,
            machine: Option<&Machine>,
            layer: usize,
            source: TransitionSource,
            drawn: bool,
        | #[trigger]
            call_ensures(Session::transition_added, (s, machine, layer, source, drawn), ())
                ==> *final(s) == (Session {
                machine_selection: (*final(s)).machine_selection,
                active_machine_layer: (*final(s)).active_machine_layer,
                ..*s
            }),
{
}

/// `edit_active_machine` changes nothing of the session but the count of repaints and the
/// status.
pub proof fn law_frame_of_edit_active_machine()
    ensures
        forall|
            s: &mut Session,
            change: MachineChange,
            known: bool,
            edited: Result<Handle, String>,
            r: Option<Edit>,
        | #[trigger]
            call_ensures(Session::edit_active_machine, (s, change, known, edited), r)
                ==> *final(s) == (Session {
                revision: (*final(s)).revision,
                status: (*final(s)).status,
                ..*s
            }),
{
}

/// `machine_part_removed` changes nothing of the session but the selection in the machine
/// and the active layer of the machine.
pub proof fn law_frame_of_machine_part_removed()
    ensures
        forall|s: &mut Session, layer_removed: bool| #[trigger]
            call_ensures(Session::machine_part_removed, (s, layer_removed), ())
                ==> *final(s) == (Session {
                machine_selection: (*final(s)).machine_selection,
                active_machine_layer: (*final(s)).active_machine_layer,
                ..*s
            }),
{
}

/// `create_clip` changes nothing of the session but the mark of unsaved work, the count
/// of repaints and the status.
pub proof fn law_frame_of_create_clip()
    ensures
        forall|
            s: &mut Session,
            reply: Result<Applied, String>,
            clips: &Vec<ClipId>,
            r: Option<ClipId>,
        | #[trigger]
            call_ensures(Session::create_clip, (s, reply, clips), r) ==> *final(s) == (Session {
                dirty: (*final(s)).dirty,
                revision: (*final(s)).revision,
                status: (*final(s)).status,
                ..*s
            }),
{
}

/// `create_machine` changes nothing of the session but the mark of unsaved work, the
/// count of repaints, the status, the active machine, the selection in the machine, the
/// active layer of the machine, the preview inputs and the mark of the preview.
pub proof fn law_frame_of_create_machine()
    ensures
        forall|
            s: &mut Session,
            reply: Result<Applied, String>,
            has_start: bool,
            kinds: Option<&Vec<InputKind>>,
            r: (Option<EditorCommand>, EngineSwitch),
        | #[trigger]
            call_ensures(Session::create_machine, (s, reply, has_start, kinds), r)
                ==> *final(s) == (Session {
                dirty: (*final(s)).dirty,
                revision: (*final(s)).revision,
                status: (*final(s)).status,
                active_machine: (*final(s)).active_machine,
                machine_selection: (*final(s)).machine_selection,
                active_machine_layer: (*final(s)).active_machine_layer,
                machine_preview_inputs: (*final(s)).machine_preview_inputs,
                machine_preview_enabled: (*final(s)).machine_preview_enabled,
                ..*s
            }),
{
}

/// `machine_removed` changes nothing of the session but the active machine, the selection
/// in the machine and the active layer of the machine.
pub proof fn law_frame_of_machine_removed()
    ensures
        forall|
            s: &mut Session,
            start: Option<MachineId>,
            first: Option<MachineId>,
            r: Option<Edit>,
        | #[trigger]
            call_ensures(Session::machine_removed, (s, start, first), r) ==> *final(s) == (Session {
                active_machine: (*final(s)).active_machine,
                machine_selection: (*final(s)).machine_selection,
                active_machine_layer: (*final(s)).active_machine_layer,
                ..*s
            }),
{
}

/// `toggle_preview` changes nothing of the session but the count of repaints, the preview
/// inputs and the mark of the preview.
pub proof fn law_frame_of_toggle_preview()
    ensures
        forall|s: &mut Session, kinds: Option<&Vec<InputKind>>, r: EngineSwitch| #[trigger]
            call_ensures(Session::toggle_preview, (s, kinds), r) ==> *final(s) == (Session {
                revision: (*final(s)).revision,
                machine_preview_inputs: (*final(s)).machine_preview_inputs,
                machine_preview_enabled: (*final(s)).machine_preview_enabled,
                ..*s
            }),
{
}

/// `undo_cmd` changes nothing of the session but the mark of unsaved work, the selection,
/// the playback, the selection in the machine and the active layer of the machine.
pub proof fn law_frame_of_undo_cmd()
    ensures
        forall|
            s: &mut Session,
            moved: bool,
            doc: &Document,
            machine: Option<&Machine>,
            range: (i64, i64),
            place: HeadPlace,
            r: bool,
        | #[trigger]
            call_ensures(Session::undo_cmd, (s, moved, doc, machine, range, place), r)
                ==> *final(s) == (Session {
                dirty: (*final(s)).dirty,
                selection: (*final(s)).selection,
                playback: (*final(s)).playback,
                machine_selection: (*final(s)).machine_selection,
                active_machine_layer: (*final(s)).active_machine_layer,
                ..*s
            }),
{
}

/// `redo_cmd` changes nothing of the session but the mark of unsaved work, the selection,
/// the playback, the selection in the machine and the active layer of the machine.
pub proof fn law_frame_of_redo_cmd()
    ensures
        forall|
            s: &mut Session,
            moved: bool,
            doc: &Document,
            machine: Option<&Machine>,
            range: (i64, i64),
            place: HeadPlace,
            r: bool,
        | #[trigger]
            call_ensures(Session::redo_cmd, (s, moved, doc, machine, range, place), r)
                ==> *final(s) == (Session {
                dirty: (*final(s)).dirty,
                selection: (*final(s)).selection,
                playback: (*final(s)).playback,
                machine_selection: (*final(s)).machine_selection,
                active_machine_layer: (*final(s)).active_machine_layer,
                ..*s
            }),
{
}

/// `toggle_record` changes nothing of the session but the count of repaints and the
/// recording.
pub proof fn law_frame_of_toggle_record()
    ensures
        forall|s: &mut Session| #[trigger]
            call_ensures(Session::toggle_record, (s,), ()) ==> *final(s) == (Session {
                revision: (*final(s)).revision,
                record: (*final(s)).record,
                ..*s
            }) && (*final(s)).revision != (*s).revision,
{
}

/// `use_as_current_paint` changes nothing of the session but the count of repaints, the
/// status and the paint.
pub proof fn law_frame_of_use_as_current_paint()
    ensures
        forall|s: &mut Session, paint: Handle| #[trigger]
            call_ensures(Session::use_as_current_paint, (s, paint), ()) ==> *final(s) == (Session {
                revision: (*final(s)).revision,
                status: (*final(s)).status,
                current_paint: (*final(s)).current_paint,
                ..*s
            }),
{
}

/// `press_number` changes nothing of the session but the drag of a number.
pub proof fn law_frame_of_press_number()
    ensures
        forall|
            s: &mut Session,
            path: Handle,
            channel: usize,
            ids: Vec<NodeId>,
            origins: Vec<Handle>,
            press_x: u32,
        | #[trigger]
            call_ensures(Session::press_number, (s, path, channel, ids, origins, press_x), ())
                ==> *final(s) == (Session {
                inspector_drag: (*final(s)).inspector_drag,
                ..*s
            }),
{
}

/// `drag_number` changes nothing of the session but the drag of a number.
pub proof fn law_frame_of_drag_number()
    ensures
        forall|s: &mut Session, path: Handle, channel: usize, r: Option<bool>| #[trigger]
            call_ensures(Session::drag_number, (s, path, channel), r) ==> *final(s) == (Session {
                inspector_drag: (*final(s)).inspector_drag,
                ..*s
            }),
{
}

/// `release_number` changes nothing of the session but the drag of a number.
pub proof fn law_frame_of_release_number()
    ensures
        forall|s: &mut Session, r: bool| #[trigger]
            call_ensures(Session::release_number, (s,), r) ==> *final(s) == (Session {
                inspector_drag: (*final(s)).inspector_drag,
                ..*s
            }),
{
}

/// `select_for_menu` changes nothing of the session but the selection.
pub proof fn law_frame_of_select_for_menu()
    ensures
        forall|s: &mut Session, id: NodeId| #[trigger]
            call_ensures(Session::select_for_menu, (s, id), ()) ==> *final(s) == (Session {
                selection: (*final(s)).selection,
                ..*s
            }),
{
}

/// `press_layer_row` changes nothing of the session but the count of repaints and the
/// renaming.
pub proof fn law_frame_of_press_layer_row()
    ensures
        forall|
            s: &mut Session,
            doc: &Document,
            id: NodeId,
            shift: bool,
            ctrl: bool,
            r: (Option<NameEdit>, ToolOutput),
        | #[trigger]
            call_ensures(Session::press_layer_row, (s, doc, id, shift, ctrl), r)
                ==> *final(s) == (Session {
                revision: (*final(s)).revision,
                renaming: (*final(s)).renaming,
                ..*s
            }),
{
}

/// `begin_layer_drag` changes nothing of the session but the selection, the count of
/// repaints and the drag of a layer.
pub proof fn law_frame_of_begin_layer_drag()
    ensures
        forall|s: &mut Session, id: NodeId, index: usize, window_y: u32, row_y: u32| #[trigger]
            call_ensures(Session::begin_layer_drag, (s, id, index, window_y, row_y), ())
                ==> *final(s) == (Session {
                selection: (*final(s)).selection,
                revision: (*final(s)).revision,
                layer_drag: (*final(s)).layer_drag,
                ..*s
            }),
{
}

/// `drag_layer_over` changes nothing of the session but the count of repaints and the
/// drag of a layer.
pub proof fn law_frame_of_drag_layer_over()
    ensures
        forall|
            s: &mut Session,
            index: usize,
            kind: LayerKind,
            upper_half: bool,
            far_right: bool,
        | #[trigger]
            call_ensures(Session::drag_layer_over, (s, index, kind, upper_half, far_right), ())
                ==> *final(s) == (Session {
                revision: (*final(s)).revision,
                layer_drag: (*final(s)).layer_drag,
                ..*s
            }),
{
}

/// `finish_layer_drag` changes nothing of the session but the count of repaints, what is
/// expanded and the drag of a layer.
pub proof fn law_frame_of_finish_layer_drag()
    ensures
        forall|
            s: &mut Session,
            doc: &Document,
            target: Option<(NodeId, Parent)>,
            drop: Option<EditorCommand>,
            noop: bool,
            r: Option<Edit>,
        | #[trigger]
            call_ensures(Session::finish_layer_drag, (s, doc, target, drop, noop), r)
                ==> *final(s) == (Session {
                revision: (*final(s)).revision,
                expanded_layers: (*final(s)).expanded_layers,
                layer_drag: (*final(s)).layer_drag,
                ..*s
            }),
{
}

/// `release_layer_row` changes nothing of the session but the count of repaints and the
/// drag of a layer.
pub proof fn law_frame_of_release_layer_row()
    ensures
        forall|
            s: &mut Session,
            doc: &Document,
            target: Option<NodeId>,
            drop: Option<EditorCommand>,
            noop: bool,
            r: Option<Edit>,
        | #[trigger]
            call_ensures(Session::release_layer_row, (s, doc, target, drop, noop), r)
                ==> *final(s) == (Session {
                revision: (*final(s)).revision,
                layer_drag: (*final(s)).layer_drag,
                ..*s
            }),
{
}

/// `toggle_expanded` changes nothing of the session but the count of repaints and what is
/// expanded.
pub proof fn law_frame_of_toggle_expanded()
    ensures
        forall|s: &mut Session, id: NodeId| #[trigger]
            call_ensures(Session::toggle_expanded, (s, id), ()) ==> *final(s) == (Session {
                revision: (*final(s)).revision,
                expanded_layers: (*final(s)).expanded_layers,
                ..*s
            }),
{
}

/// `begin_rename` changes nothing of the session but the renaming.
pub proof fn law_frame_of_begin_rename()
    ensures
        forall|s: &mut Session, doc: &Document, id: NodeId, name: &str| #[trigger]
            call_ensures(Session::begin_rename, (s, doc, id, name), ()) ==> *final(s) == (Session {
                renaming: (*final(s)).renaming,
                ..*s
            }),
{
}

/// `commit_rename` changes nothing of the session but the count of repaints and the
/// renaming.
pub proof fn law_frame_of_commit_rename()
    ensures
        forall|s: &mut Session, doc: &Document, r: Option<NameEdit>| #[trigger]
            call_ensures(Session::commit_rename, (s, doc), r) ==> *final(s) == (Session {
                revision: (*final(s)).revision,
                renaming: (*final(s)).renaming,
                ..*s
            }),
{
}

/// `cancel_rename` changes nothing of the session but the count of repaints and the
/// renaming.
pub proof fn law_frame_of_cancel_rename()
    ensures
        forall|s: &mut Session| #[trigger]
            call_ensures(Session::cancel_rename, (s,), ()) ==> *final(s) == (Session {
                revision: (*final(s)).revision,
                renaming: (*final(s)).renaming,
                ..*s
            }),
{
}

/// `draft_rename` changes nothing of the session but the count of repaints and the
/// renaming.
pub proof fn law_frame_of_draft_rename()
    ensures
        forall|s: &mut Session, text: &str| #[trigger]
            call_ensures(Session::draft_rename, (s, text), ()) ==> *final(s) == (Session {
                revision: (*final(s)).revision,
                renaming: (*final(s)).renaming,
                ..*s
            }),
{
}

/// `validate_machine_selection` changes nothing of the session but the selection in the
/// machine and the active layer of the machine.
pub proof fn law_frame_of_validate_machine_selection()
    ensures
        forall|s: &mut Session, machine: Option<&Machine>| #[trigger]
            call_ensures(Session::validate_machine_selection, (s, machine), ())
                ==> *final(s) == (Session {
                machine_selection: (*final(s)).machine_selection,
                active_machine_layer: (*final(s)).active_machine_layer,
                ..*s
            }),
{
}

/// `clip_state` changes nothing of the session but the count of repaints and the status.
pub proof fn law_frame_of_clip_state()
    ensures
        forall|s: &mut Session, first_clip: Option<ClipId>, r: Option<KindChange>| #[trigger]
            call_ensures(Session::clip_state, (s, first_clip), r) ==> *final(s) == (Session {
                revision: (*final(s)).revision,
                status: (*final(s)).status,
                ..*s
            }),
{
}

/// `blend_state` changes nothing of the session but the count of repaints and the status.
pub proof fn law_frame_of_blend_state()
    ensures
        forall|s: &mut Session, inputs: &Vec<InputDef>, r: Option<KindChange>| #[trigger]
            call_ensures(Session::blend_state, (s, inputs), r) ==> *final(s) == (Session {
                revision: (*final(s)).revision,
                status: (*final(s)).status,
                ..*s
            }),
{
}

/// `new_blend_child` changes nothing of the session but the count of repaints and the
/// status.
pub proof fn law_frame_of_new_blend_child()
    ensures
        forall|
            s: &mut Session,
            first_clip: Option<ClipId>,
            threshold: u64,
            r: Option<BlendChild>,
        | #[trigger]
            call_ensures(Session::new_blend_child, (s, first_clip, threshold), r)
                ==> *final(s) == (Session {
                revision: (*final(s)).revision,
                status: (*final(s)).status,
                ..*s
            }),
{
}

/// `pick_draft_event` changes nothing of the session but the draft of a listener.
pub proof fn law_frame_of_pick_draft_event()
    ensures
        forall|s: &mut Session, event: PointerEventKind| #[trigger]
            call_ensures(Session::pick_draft_event, (s, event), ()) ==> *final(s) == (Session {
                listener_draft: (*final(s)).listener_draft,
                ..*s
            }),
{
}

/// `pick_draft_input` changes nothing of the session but the draft of a listener.
pub proof fn law_frame_of_pick_draft_input()
    ensures
        forall|s: &mut Session, inputs: &Vec<InputDef>, name: &str| #[trigger]
            call_ensures(Session::pick_draft_input, (s, inputs, name), ())
                ==> *final(s) == (Session {
                listener_draft: (*final(s)).listener_draft,
                ..*s
            }),
{
}

/// `listener_added` changes nothing of the session but the draft of a listener.
pub proof fn law_frame_of_listener_added()
    ensures
        forall|s: &mut Session| #[trigger]
            call_ensures(Session::listener_added, (s,), ()) ==> *final(s) == (Session {
                listener_draft: (*final(s)).listener_draft,
                ..*s
            }),
{
}

/// `pick_draft_action` changes nothing of the session but the draft of a listener.
pub proof fn law_frame_of_pick_draft_action()
    ensures
        forall|s: &mut Session, action: DraftAction| #[trigger]
            call_ensures(Session::pick_draft_action, (s, action), ()) ==> *final(s) == (Session {
                listener_draft: (*final(s)).listener_draft,
                ..*s
            }),
{
}

/// `reverse_selected_paths` changes nothing of the session but the count of repaints and
/// the status.
pub proof fn law_frame_of_reverse_selected_paths()
    ensures
        forall|s: &mut Session, doc: &Document, r: Option<Edit>| #[trigger]
            call_ensures(Session::reverse_selected_paths, (s, doc), r) ==> *final(s) == (Session {
                revision: (*final(s)).revision,
                status: (*final(s)).status,
                ..*s
            }),
{
}

/// `convert_selection_to_path` changes nothing of the session but the count of repaints
/// and the status.
pub proof fn law_frame_of_convert_selection_to_path()
    ensures
        forall|s: &mut Session, doc: &Document, traced: &Vec<Handle>, r: Option<Edit>| #[trigger]
            call_ensures(Session::convert_selection_to_path, (s, doc, traced), r)
                ==> *final(s) == (Session {
                revision: (*final(s)).revision,
                status: (*final(s)).status,
                ..*s
            }),
{
}

/// `fail_geometry` changes nothing of the session but the count of repaints and the
/// status.
pub proof fn law_frame_of_fail_geometry()
    ensures
        forall|s: &mut Session, message: String| #[trigger]
            call_ensures(Session::fail_geometry, (s, message), ()) ==> *final(s) == (Session {
                revision: (*final(s)).revision,
                status: (*final(s)).status,
                ..*s
            }) && (*final(s)).revision != (*s).revision,
{
}

/// `boolean_selection` changes nothing of the session but the count of repaints and the
/// status.
pub proof fn law_frame_of_boolean_selection()
    ensures
        forall|s: &mut Session, doc: &Document, r: Option<Vec<NodeId>>| #[trigger]
            call_ensures(Session::boolean_selection, (s, doc), r) ==> *final(s) == (Session {
                revision: (*final(s)).revision,
                status: (*final(s)).status,
                ..*s
            }),
{
}

/// `boolean_subject` changes nothing of the session but the count of repaints and the
/// status.
pub proof fn law_frame_of_boolean_subject()
    ensures
        forall|
            s: &mut Session,
            operation: SelectionBoolean,
            ids: Vec<NodeId>,
            subject: Contours,
            r: Option<BooleanRun>,
        | #[trigger]
            call_ensures(Session::boolean_subject, (s, operation, ids, subject), r)
                ==> *final(s) == (Session {
                revision: (*final(s)).revision,
                status: (*final(s)).status,
                ..*s
            }),
{
}

/// `divide_selection` changes nothing of the session but the count of repaints and the
/// status.
pub proof fn law_frame_of_divide_selection()
    ensures
        forall|
            s: &mut Session,
            doc: &Document,
            closed: &Vec<bool>,
            r: Option<Vec<NodeId>>,
        | #[trigger]
            call_ensures(Session::divide_selection, (s, doc, closed), r) ==> *final(s) == (Session {
                revision: (*final(s)).revision,
                status: (*final(s)).status,
                ..*s
            }),
{
}

/// `finish_divide` changes nothing of the session but the count of repaints and the
/// status.
pub proof fn law_frame_of_finish_divide()
    ensures
        forall|s: &mut Session, doc: &Document, run: DivideRun, r: Option<Edit>| #[trigger]
            call_ensures(Session::finish_divide, (s, doc, run), r) ==> *final(s) == (Session {
                revision: (*final(s)).revision,
                status: (*final(s)).status,
                ..*s
            }),
{
}

/// `combine_selection` changes nothing of the session but the count of repaints and the
/// status.
pub proof fn law_frame_of_combine_selection()
    ensures
        forall|s: &mut Session, doc: &Document, r: Option<Vec<NodeId>>| #[trigger]
            call_ensures(Session::combine_selection, (s, doc), r) ==> *final(s) == (Session {
                revision: (*final(s)).revision,
                status: (*final(s)).status,
                ..*s
            }),
{
}

/// `finish_combine` changes nothing of the session but the count of repaints and the
/// status.
pub proof fn law_frame_of_finish_combine()
    ensures
        forall|s: &mut Session, ids: &Vec<NodeId>, contours: Contours, r: Option<Edit>| #[trigger]
            call_ensures(Session::finish_combine, (s, ids, contours), r) ==> *final(s) == (Session {
                revision: (*final(s)).revision,
                status: (*final(s)).status,
                ..*s
            }),
{
}

/// `break_apart_selection` changes nothing of the session but the count of repaints and
/// the status.
pub proof fn law_frame_of_break_apart_selection()
    ensures
        forall|s: &mut Session, doc: &Document, contours: &Vec<Handle>, r: Option<Edit>| #[trigger]
            call_ensures(Session::break_apart_selection, (s, doc, contours), r)
                ==> *final(s) == (Session {
                revision: (*final(s)).revision,
                status: (*final(s)).status,
                ..*s
            }),
{
}

/// `simplify_selection` changes nothing of the session but the count of repaints and the
/// status.
pub proof fn law_frame_of_simplify_selection()
    ensures
        forall|
            s: &mut Session,
            doc: &Document,
            simpler: &Vec<Option<Handle>>,
            r: Option<Edit>,
        | #[trigger]
            call_ensures(Session::simplify_selection, (s, doc, simpler), r)
                ==> *final(s) == (Session {
                revision: (*final(s)).revision,
                status: (*final(s)).status,
                ..*s
            }),
{
}

/// `finish_add_layer` changes nothing of the session but the mark of unsaved work, the
/// selection, the count of repaints, what is expanded and the status.
pub proof fn law_frame_of_finish_add_layer()
    ensures
        forall|s: &mut Session, reply: Result<Applied, String>, doc: &Document| #[trigger]
            call_ensures(Session::finish_add_layer, (s, reply, doc), ()) ==> *final(s) == (Session {
                dirty: (*final(s)).dirty,
                selection: (*final(s)).selection,
                revision: (*final(s)).revision,
                expanded_layers: (*final(s)).expanded_layers,
                status: (*final(s)).status,
                ..*s
            }),
{
}

/// `open_context_menu` changes nothing of the session but the count of repaints, the
/// paint, the picker and the menu.
pub proof fn law_frame_of_open_context_menu()
    ensures
        forall|s: &mut Session, menu: ContextMenuState, r: bool| #[trigger]
            call_ensures(Session::open_context_menu, (s, menu), r) ==> *final(s) == (Session {
                revision: (*final(s)).revision,
                current_paint: (*final(s)).current_paint,
                open_picker: (*final(s)).open_picker,
                context_menu: (*final(s)).context_menu,
                ..*s
            }) && (*final(s)).revision != (*s).revision,
{
}

/// `close_context_menu` changes nothing of the session but the count of repaints and the
/// menu.
pub proof fn law_frame_of_close_context_menu()
    ensures
        forall|s: &mut Session| #[trigger]
            call_ensures(Session::close_context_menu, (s,), ()) ==> *final(s) == (Session {
                revision: (*final(s)).revision,
                context_menu: (*final(s)).context_menu,
                ..*s
            }),
{
}

/// `open_color_picker` changes nothing of the session but the count of repaints, the
/// paint, the picker and the menu.
pub proof fn law_frame_of_open_color_picker()
    ensures
        forall|
            s: &mut Session,
            target: PickerTarget,
            color: Handle,
            anchor: Handle,
            r: bool,
        | #[trigger]
            call_ensures(Session::open_color_picker, (s, target, color, anchor), r)
                ==> *final(s) == (Session {
                revision: (*final(s)).revision,
                current_paint: (*final(s)).current_paint,
                open_picker: (*final(s)).open_picker,
                context_menu: (*final(s)).context_menu,
                ..*s
            }),
{
}

/// `close_color_picker` changes nothing of the session but the count of repaints, the
/// paint and the picker.
pub proof fn law_frame_of_close_color_picker()
    ensures
        forall|s: &mut Session, r: bool| #[trigger]
            call_ensures(Session::close_color_picker, (s,), r) ==> *final(s) == (Session {
                revision: (*final(s)).revision,
                current_paint: (*final(s)).current_paint,
                open_picker: (*final(s)).open_picker,
                ..*s
            }) && (*final(s)).revision != (*s).revision,
{
}

/// `apply_picker_change` changes nothing of the session but the count of repaints, the
/// status, the paint and the picker.
pub proof fn law_frame_of_apply_picker_change()
    ensures
        forall|s: &mut Session, paint: Handle, transaction_open: bool, r: PickerWrite| #[trigger]
            call_ensures(Session::apply_picker_change, (s, paint, transaction_open), r)
                ==> *final(s) == (Session {
                revision: (*final(s)).revision,
                status: (*final(s)).status,
                current_paint: (*final(s)).current_paint,
                open_picker: (*final(s)).open_picker,
                ..*s
            }),
{
}

/// `commit_picker_color` changes nothing of the session but the count of repaints and the
/// picker.
pub proof fn law_frame_of_commit_picker_color()
    ensures
        forall|s: &mut Session, r: PickerCommit| #[trigger]
            call_ensures(Session::commit_picker_color, (s,), r) ==> *final(s) == (Session {
                revision: (*final(s)).revision,
                open_picker: (*final(s)).open_picker,
                ..*s
            }),
{
}

/// `finish_color_picker` changes nothing of the session but the count of repaints and the
/// picker.
pub proof fn law_frame_of_finish_color_picker()
    ensures
        forall|s: &mut Session, r: PickerCommit| #[trigger]
            call_ensures(Session::finish_color_picker, (s,), r) ==> *final(s) == (Session {
                revision: (*final(s)).revision,
                open_picker: (*final(s)).open_picker,
                ..*s
            }),
{
}

/// `add_swatch` changes nothing of the session but the count of repaints.
pub proof fn law_frame_of_add_swatch()
    ensures
        forall|s: &mut Session, r: usize| #[trigger]
            call_ensures(Session::add_swatch, (s,), r) ==> *final(s) == (Session {
                revision: (*final(s)).revision,
                ..*s
            }) && (*final(s)).revision != (*s).revision,
{
}

/// `press_swatch` changes nothing of the session but the count of repaints, the paint,
/// the picker and the menu.
pub proof fn law_frame_of_press_swatch()
    ensures
        forall|s: &mut Session, color: Handle, anchor: Handle, r: bool| #[trigger]
            call_ensures(Session::press_swatch, (s, color, anchor), r) ==> *final(s) == (Session {
                revision: (*final(s)).revision,
                current_paint: (*final(s)).current_paint,
                open_picker: (*final(s)).open_picker,
                context_menu: (*final(s)).context_menu,
                ..*s
            }),
{
}

/// `run_menu_action` changes nothing of the session but the count of repaints, the
/// renaming and the menu.
pub proof fn law_frame_of_run_menu_action()
    ensures
        forall|s: &mut Session, action: MenuAction, doc: &Document, r: MenuStep| #[trigger]
            call_ensures(Session::run_menu_action, (s, action, doc), r) ==> *final(s) == (Session {
                revision: (*final(s)).revision,
                renaming: (*final(s)).renaming,
                context_menu: (*final(s)).context_menu,
                ..*s
            }),
{
}

/// `reset_machine_preview` changes nothing of the session but the count of repaints and
/// the preview inputs.
pub proof fn law_frame_of_reset_machine_preview()
    ensures
        forall|s: &mut Session, kinds: Option<&Vec<InputKind>>, r: EngineSwitch| #[trigger]
            call_ensures(Session::reset_machine_preview, (s, kinds), r) ==> *final(s) == (Session {
                revision: (*final(s)).revision,
                machine_preview_inputs: (*final(s)).machine_preview_inputs,
                ..*s
            }),
{
}

/// `resync_machine_preview_after_edit` changes nothing of the session but the count of
/// repaints and the preview inputs.
pub proof fn law_frame_of_resync_machine_preview_after_edit()
    ensures
        forall|
            s: &mut Session,
            kinds: Option<&Vec<InputKind>>,
            playing: Option<MachineId>,
            r: Option<Resync>,
        | #[trigger]
            call_ensures(Session::resync_machine_preview_after_edit, (s, kinds, playing), r)
                ==> *final(s) == (Session {
                revision: (*final(s)).revision,
                machine_preview_inputs: (*final(s)).machine_preview_inputs,
                ..*s
            }),
{
}

/// `disable_machine_preview` changes nothing of the session but the mark of the preview
/// and the drag in the machine panel.
pub proof fn law_frame_of_disable_machine_preview()
    ensures
        forall|s: &mut Session, r: EngineSwitch| #[trigger]
            call_ensures(Session::disable_machine_preview, (s,), r) ==> *final(s) == (Session {
                machine_preview_enabled: (*final(s)).machine_preview_enabled,
                machine_drag: (*final(s)).machine_drag,
                ..*s
            }),
{
}

/// `set_mode` changes nothing of the session but the page, the mode, the playback, the
/// mark of playing, the count of repaints, the recording, the preview inputs, the mark of
/// the preview, the drag in the machine panel and the gesture on the graph.
pub proof fn law_frame_of_set_mode()
    ensures
        forall|
            s: &mut Session,
            mode: EditorMode,
            kinds: Option<&Vec<InputKind>>,
            r: EngineSwitch,
        | #[trigger]
            call_ensures(Session::set_mode, (s, mode, kinds), r) ==> *final(s) == (Session {
                active_page: (*final(s)).active_page,
                mode: (*final(s)).mode,
                playback: (*final(s)).playback,
                playing: (*final(s)).playing,
                revision: (*final(s)).revision,
                record: (*final(s)).record,
                machine_preview_inputs: (*final(s)).machine_preview_inputs,
                machine_preview_enabled: (*final(s)).machine_preview_enabled,
                machine_drag: (*final(s)).machine_drag,
                machine_graph_gesture: (*final(s)).machine_graph_gesture,
                ..*s
            }),
{
}

/// `select_machine` changes nothing of the session but the count of repaints, the active
/// machine, the selection in the machine, the active layer of the machine, the preview
/// inputs and the gesture on the graph.
pub proof fn law_frame_of_select_machine()
    ensures
        forall|
            s: &mut Session,
            machine: MachineId,
            known: bool,
            kinds: Option<&Vec<InputKind>>,
            r: EngineSwitch,
        | #[trigger]
            call_ensures(Session::select_machine, (s, machine, known, kinds), r)
                ==> *final(s) == (Session {
                revision: (*final(s)).revision,
                active_machine: (*final(s)).active_machine,
                machine_selection: (*final(s)).machine_selection,
                active_machine_layer: (*final(s)).active_machine_layer,
                machine_preview_inputs: (*final(s)).machine_preview_inputs,
                machine_graph_gesture: (*final(s)).machine_graph_gesture,
                ..*s
            }),
{
}

/// `ensure_machine_preview_running` changes nothing of the session but the count of
/// repaints, the preview inputs and the mark of the preview.
pub proof fn law_frame_of_ensure_machine_preview_running()
    ensures
        forall|
            s: &mut Session,
            kinds: Option<&Vec<InputKind>>,
            playing: Option<MachineId>,
            r: EngineSwitch,
        | #[trigger]
            call_ensures(Session::ensure_machine_preview_running, (s, kinds, playing), r)
                ==> *final(s) == (Session {
                revision: (*final(s)).revision,
                machine_preview_inputs: (*final(s)).machine_preview_inputs,
                machine_preview_enabled: (*final(s)).machine_preview_enabled,
                ..*s
            }),
{
}

/// `set_preview_bool` changes nothing of the session but the preview inputs.
pub proof fn law_frame_of_set_preview_bool()
    ensures
        forall|s: &mut Session, input: usize, value: bool, r: bool| #[trigger]
            call_ensures(Session::set_preview_bool, (s, input, value), r)
                ==> *final(s) == (Session {
                machine_preview_inputs: (*final(s)).machine_preview_inputs,
                ..*s
            }),
{
}

/// `set_preview_number` changes nothing of the session but the preview inputs.
pub proof fn law_frame_of_set_preview_number()
    ensures
        forall|s: &mut Session, input: usize, value: u64, r: bool| #[trigger]
            call_ensures(Session::set_preview_number, (s, input, value), r)
                ==> *final(s) == (Session {
                machine_preview_inputs: (*final(s)).machine_preview_inputs,
                ..*s
            }),
{
}

/// `sync_preview_inputs` changes nothing of the session but the count of repaints and the
/// preview inputs.
pub proof fn law_frame_of_sync_preview_inputs()
    ensures
        forall|s: &mut Session, inputs: Option<&Vec<InputValue>>| #[trigger]
            call_ensures(Session::sync_preview_inputs, (s, inputs), ()) ==> *final(s) == (Session {
                revision: (*final(s)).revision,
                machine_preview_inputs: (*final(s)).machine_preview_inputs,
                ..*s
            }),
{
}

/// `begin_machine_field_scrub` changes nothing of the session but the drag in the machine
/// panel.
pub proof fn law_frame_of_begin_machine_field_scrub()
    ensures
        forall|s: &mut Session, origin: u64, press_x: u32| #[trigger]
            call_ensures(Session::begin_machine_field_scrub, (s, origin, press_x), ())
                ==> *final(s) == (Session {
                machine_drag: (*final(s)).machine_drag,
                ..*s
            }),
{
}

/// `scrub_machine_field` changes nothing of the session but the mark of unsaved work, the
/// count of repaints and the drag in the machine panel.
pub proof fn law_frame_of_scrub_machine_field()
    ensures
        forall|s: &mut Session, known: bool, r: Option<Option<&'static str>>| #[trigger]
            call_ensures(Session::scrub_machine_field, (s, known), r) ==> *final(s) == (Session {
                dirty: (*final(s)).dirty,
                revision: (*final(s)).revision,
                machine_drag: (*final(s)).machine_drag,
                ..*s
            }),
{
}

/// `end_machine_field_scrub` changes nothing of the session but the drag in the machine
/// panel.
pub proof fn law_frame_of_end_machine_field_scrub()
    ensures
        forall|s: &mut Session, r: bool| #[trigger]
            call_ensures(Session::end_machine_field_scrub, (s,), r) ==> *final(s) == (Session {
                machine_drag: (*final(s)).machine_drag,
                ..*s
            }),
{
}

/// `begin_preview_number_scrub` changes nothing of the session but the drag in the
/// machine panel.
pub proof fn law_frame_of_begin_preview_number_scrub()
    ensures
        forall|s: &mut Session, input: usize, origin: u64, press_x: u32| #[trigger]
            call_ensures(Session::begin_preview_number_scrub, (s, input, origin, press_x), ())
                ==> *final(s) == (Session {
                machine_drag: (*final(s)).machine_drag,
                ..*s
            }),
{
}

/// `end_preview_number_scrub` changes nothing of the session but the drag in the machine
/// panel.
pub proof fn law_frame_of_end_preview_number_scrub()
    ensures
        forall|s: &mut Session| #[trigger]
            call_ensures(Session::end_preview_number_scrub, (s,), ()) ==> *final(s) == (Session {
                machine_drag: (*final(s)).machine_drag,
                ..*s
            }),
{
}

/// `apply_output` changes nothing of the session but the mark of unsaved work, the
/// selection, the tool, the playback, what is expanded and the paint.
pub proof fn law_frame_of_apply_output()
    ensures
        forall|
            s: &mut Session,
            run: &mut OutputRun,
            out: ToolOutput,
            doc: &Document,
            transaction_open: bool,
            r: OutputStep,
        | #[trigger]
            call_ensures(Session::apply_output, (s, run, out, doc, transaction_open), r)
                ==> *final(s) == (Session {
                dirty: (*final(s)).dirty,
                selection: (*final(s)).selection,
                active_tool: (*final(s)).active_tool,
                playback: (*final(s)).playback,
                expanded_layers: (*final(s)).expanded_layers,
                current_paint: (*final(s)).current_paint,
                ..*s
            }),
{
}

/// `commands_applied` changes nothing of the session but the mark of unsaved work, the
/// selection, what is expanded and the status.
pub proof fn law_frame_of_commands_applied()
    ensures
        forall|
            s: &mut Session,
            run: &mut OutputRun,
            replies: Vec<Result<Applied, String>>,
            doc: &Document,
            transaction_open: bool,
        | #[trigger]
            call_ensures(Session::commands_applied, (s, run, replies, doc, transaction_open), ())
                ==> *final(s) == (Session {
                dirty: (*final(s)).dirty,
                selection: (*final(s)).selection,
                expanded_layers: (*final(s)).expanded_layers,
                status: (*final(s)).status,
                ..*s
            }),
{
}

/// `outputs_done` changes nothing of the session but the mark of unsaved work and the
/// count of repaints.
pub proof fn law_frame_of_outputs_done()
    ensures
        forall|s: &mut Session, run: &OutputRun, r: OutputEnd| #[trigger]
            call_ensures(Session::outputs_done, (s, run), r) ==> *final(s) == (Session {
                dirty: (*final(s)).dirty,
                revision: (*final(s)).revision,
                ..*s
            }),
{
}

/// `history_apply_full` changes nothing of the session but the mark of unsaved work and
/// the status.
pub proof fn law_frame_of_history_apply_full()
    ensures
        forall|s: &mut Session, reply: Result<Applied, String>, r: Option<Applied>| #[trigger]
            call_ensures(Session::history_apply_full, (s, reply), r) ==> *final(s) == (Session {
                dirty: (*final(s)).dirty,
                status: (*final(s)).status,
                ..*s
            }),
{
}

/// `history_apply` changes nothing of the session but the mark of unsaved work and the
/// status.
pub proof fn law_frame_of_history_apply()
    ensures
        forall|s: &mut Session, reply: Result<Applied, String>, r: Option<NodeId>| #[trigger]
            call_ensures(Session::history_apply, (s, reply), r) ==> *final(s) == (Session {
                dirty: (*final(s)).dirty,
                status: (*final(s)).status,
                ..*s
            }),
{
}

/// `ensure_selection_visible` changes nothing of the session but what is expanded.
pub proof fn law_frame_of_ensure_selection_visible()
    ensures
        forall|s: &mut Session, doc: &Document| #[trigger]
            call_ensures(Session::ensure_selection_visible, (s, doc), ())
                ==> *final(s) == (Session {
                expanded_layers: (*final(s)).expanded_layers,
                ..*s
            }),
{
}

/// `repaint` changes nothing of the session but the count of repaints.
pub proof fn law_frame_of_repaint()
    ensures
        forall|s: &mut Session| #[trigger]
            call_ensures(Session::repaint, (s,), ()) ==> *final(s) == (Session {
                revision: (*final(s)).revision,
                ..*s
            }) && (*final(s)).revision != (*s).revision,
{
}

/// `set_active_page` changes nothing of the session but the page and the count of
/// repaints.
pub proof fn law_frame_of_set_active_page()
    ensures
        forall|s: &mut Session, page: PanelPage| #[trigger]
            call_ensures(Session::set_active_page, (s, page), ()) ==> *final(s) == (Session {
                active_page: (*final(s)).active_page,
                revision: (*final(s)).revision,
                ..*s
            }) && (*final(s)).revision != (*s).revision,
{
}

/// `select_tool` changes nothing of the session but the tool and the count of repaints.
pub proof fn law_frame_of_select_tool()
    ensures
        forall|s: &mut Session, tool: ToolId| #[trigger]
            call_ensures(Session::select_tool, (s, tool), ()) ==> *final(s) == (Session {
                active_tool: (*final(s)).active_tool,
                revision: (*final(s)).revision,
                ..*s
            }) && (*final(s)).revision != (*s).revision,
{
}

/// `toggle_playback` changes nothing of the session but the playback and the mark of
/// playing.
pub proof fn law_frame_of_toggle_playback()
    ensures
        forall|s: &mut Session| #[trigger]
            call_ensures(Session::toggle_playback, (s,), ()) ==> *final(s) == (Session {
                playback: (*final(s)).playback,
                playing: (*final(s)).playing,
                ..*s
            }),
{
}

/// `take_status` changes nothing of the session but the status.
pub proof fn law_frame_of_take_status()
    ensures
        forall|s: &mut Session, r: Option<Message>| #[trigger]
            call_ensures(Session::take_status, (s,), r) ==> *final(s) == (Session {
                status: (*final(s)).status,
                ..*s
            }),
{
}

/// `refuse` changes nothing of the session but the count of repaints and the status.
pub proof fn law_frame_of_refuse()
    ensures
        forall|s: &mut Session, text: &'static str| #[trigger]
            call_ensures(Session::refuse, (s, text), ()) ==> *final(s) == (Session {
                revision: (*final(s)).revision,
                status: (*final(s)).status,
                ..*s
            }),
{
}

/// `stroke_selection_to_path` changes nothing of the session but the mark of unsaved
/// work, the count of repaints, the drag of a layer, the drag of a number, the status,
/// the picker and the drag in the machine panel.
pub proof fn law_frame_of_stroke_selection_to_path()
    ensures
        forall|
            s: &mut Session,
            doc: &Document,
            outlines: &Vec<Option<Handle>>,
            transaction_open: bool,
            r: Option<(EditClosed, StrokeRun)>,
        | #[trigger]
            call_ensures(Session::stroke_selection_to_path, (s, doc, outlines, transaction_open), r)
                ==> *final(s) == (Session {
                dirty: (*final(s)).dirty,
                revision: (*final(s)).revision,
                layer_drag: (*final(s)).layer_drag,
                inspector_drag: (*final(s)).inspector_drag,
                status: (*final(s)).status,
                open_picker: (*final(s)).open_picker,
                machine_drag: (*final(s)).machine_drag,
                ..*s
            }),
{
}

/// `finish_stroke_to_path` changes nothing of the session but the mark of unsaved work,
/// the count of repaints and the status.
pub proof fn law_frame_of_finish_stroke_to_path()
    ensures
        forall|s: &mut Session, failed: bool| #[trigger]
            call_ensures(Session::finish_stroke_to_path, (s, failed), ())
                ==> *final(s) == (Session {
                dirty: (*final(s)).dirty,
                revision: (*final(s)).revision,
                status: (*final(s)).status,
                ..*s
            }) && (*final(s)).revision != (*s).revision,
{
}

/// `paste_style` changes nothing of the session but the mark of unsaved work, the count
/// of repaints, the drag of a layer, the drag of a number, the status, the picker and the
/// drag in the machine panel.
pub proof fn law_frame_of_paste_style()
    ensures
        forall|
            s: &mut Session,
            doc: &Document,
            transaction_open: bool,
            r: Option<(EditClosed, StyleRun)>,
        | #[trigger]
            call_ensures(Session::paste_style, (s, doc, transaction_open), r)
                ==> *final(s) == (Session {
                dirty: (*final(s)).dirty,
                revision: (*final(s)).revision,
                layer_drag: (*final(s)).layer_drag,
                inspector_drag: (*final(s)).inspector_drag,
                status: (*final(s)).status,
                open_picker: (*final(s)).open_picker,
                machine_drag: (*final(s)).machine_drag,
                ..*s
            }),
{
}

/// `finish_paste_style` changes nothing of the session but the mark of unsaved work, the
/// count of repaints and the status.
pub proof fn law_frame_of_finish_paste_style()
    ensures
        forall|s: &mut Session, failed: bool| #[trigger]
            call_ensures(Session::finish_paste_style, (s, failed), ()) ==> *final(s) == (Session {
                dirty: (*final(s)).dirty,
                revision: (*final(s)).revision,
                status: (*final(s)).status,
                ..*s
            }) && (*final(s)).revision != (*s).revision,
{
}

/// `cycle_loop_mode` changes nothing of the session but the playback and the count of
/// repaints.
pub proof fn law_frame_of_cycle_loop_mode()
    ensures
        forall|s: &mut Session| #[trigger]
            call_ensures(Session::cycle_loop_mode, (s,), ()) ==> *final(s) == (Session {
                playback: (*final(s)).playback,
                revision: (*final(s)).revision,
                ..*s
            }) && (*final(s)).revision != (*s).revision,
{
}

/// `set_head` changes nothing of the session but the playback and the count of repaints.
pub proof fn law_frame_of_set_head()
    ensures
        forall|s: &mut Session, head: Head| #[trigger]
            call_ensures(Session::set_head, (s, head), ()) ==> *final(s) == (Session {
                playback: (*final(s)).playback,
                revision: (*final(s)).revision,
                ..*s
            }) && (*final(s)).revision != (*s).revision,
{
}

/// `step_to_keyframe` changes nothing of the session but the playback and the count of
/// repaints.
pub proof fn law_frame_of_step_to_keyframe()
    ensures
        forall|
            s: &mut Session,
            keys: &Vec<Vec<i64>>,
            frame: i64,
            direction: i64,
            range: (i64, i64),
            r: i64,
        | #[trigger]
            call_ensures(Session::step_to_keyframe, (s, keys, frame, direction, range), r)
                ==> *final(s) == (Session {
                playback: (*final(s)).playback,
                revision: (*final(s)).revision,
                ..*s
            }),
{
}

/// `sync_playback_range` changes nothing of the session but the playback.
pub proof fn law_frame_of_sync_playback_range()
    ensures
        forall|s: &mut Session, range: (i64, i64), place: HeadPlace| #[trigger]
            call_ensures(Session::sync_playback_range, (s, range, place), ())
                ==> *final(s) == (Session {
                playback: (*final(s)).playback,
                ..*s
            }),
{
}

/// `tick_playback` changes nothing of the session but the playback and the count of
/// repaints.
pub proof fn law_frame_of_tick_playback()
    ensures
        forall|s: &mut Session, head: Head, r: bool| #[trigger]
            call_ensures(Session::tick_playback, (s, head), r) ==> *final(s) == (Session {
                playback: (*final(s)).playback,
                revision: (*final(s)).revision,
                ..*s
            }),
{
}

/// `select_below` changes nothing of the session but the selection.
pub proof fn law_frame_of_select_below()
    ensures
        forall|s: &mut Session, hit: Option<NodeId>, shift: bool| #[trigger]
            call_ensures(Session::select_below, (s, hit, shift), ()) ==> *final(s) == (Session {
                selection: (*final(s)).selection,
                ..*s
            }),
{
}

/// `dismiss_welcome` changes nothing of the session but the count of repaints and the
/// welcome.
pub proof fn law_frame_of_dismiss_welcome()
    ensures
        forall|s: &mut Session| #[trigger]
            call_ensures(Session::dismiss_welcome, (s,), ()) ==> *final(s) == (Session {
                revision: (*final(s)).revision,
                welcome: (*final(s)).welcome,
                ..*s
            }) && (*final(s)).revision != (*s).revision,
{
}

} // verus!
