//! What opening, saving, importing and exporting do to the session, and when unsaved work
//! is asked about.
use vstd::prelude::*;
use vstd::utf8::{decode_utf8, valid_utf8};

use crate::commands::{Applied, Message};
use crate::files::{
    decoded_asset, font_asset, font_result, image_asset, image_result, import_result, listed,
    open_result, png_result, ren_source, texts, FileStep, FontAsset, ImageAsset, ImportKind,
    OpenedFile, PendingFileOp, RenSource, Rendering, SaveTarget,
};
use crate::machine_ui_laws::strung;
use crate::model::NodeId;
use crate::paths::{file_part, is_binary, path_stem};
use crate::session::{PendingIntent, Session};
use crate::strings::decimal;

verus! {

/// Whether the session starts afresh on the file: nothing selected, copied, open, dragged
/// or expanded, no preview, and the file's start machine active, else its first.
pub open spec fn is_fresh(s: Session, file: OpenedFile) -> bool {
    &&& s.selection@.len() == 0
    &&& s.clipboard is None
    &&& s.open_picker is None && s.context_menu is None && s.renaming is None
    &&& s.layer_drag is None && s.inspector_drag is None && s.machine_drag is None
    &&& s.machine_graph_gesture is None
    &&& s.machine_selection is Nothing
    &&& s.machine_preview_inputs@.len() == 0 && !s.machine_preview_enabled
    &&& forall|x: NodeId| !#[trigger] s.expanded_layers@.contains(x)
    &&& !s.record
    &&& !s.exporting_png
    &&& s.listener_draft.event is None && s.listener_draft.input is None
    &&& file.start_machine is Some ==> s.active_machine == file.start_machine
    &&& file.start_machine is None && file.machine_order@.len() > 0 ==> s.active_machine == Some(
        file.machine_order@[0],
    )
    &&& file.start_machine is None && file.machine_order@.len() == 0 ==> s.active_machine is None
}

/// A file that is opened replaces everything; a new document has no path and welcomes, a
/// template is unsaved, an opened file has the path that it was opened from.
pub proof fn law_opened_files_start_afresh(a: Session, file: OpenedFile, title: &str)
    ensures
        forall|s: &mut Session|
            *s == a && #[trigger] call_ensures(Session::replace_file, (s, &file), ()) ==> is_fresh(
                *final(s),
                file,
            ) && !(*final(s)).dirty && !(*final(s)).welcome && (*final(s)).current_path
                == a.current_path && (*final(s)).mode == a.mode,
        forall|s: &mut Session|
            *s == a && #[trigger] call_ensures(Session::new_document_inner, (s, &file), ())
                ==> is_fresh(*final(s), file) && !(*final(s)).dirty && (*final(s)).welcome && (
            *final(s)).current_path is None,
        forall|s: &mut Session|
            *s == a && #[trigger] call_ensures(Session::template_loaded, (s, &file, title), ())
                ==> is_fresh(*final(s), file) && (*final(s)).dirty && !(*final(s)).welcome && (
            *final(s)).current_path is None,
{
}

/// An operation that has come in: an opened file replaces the session's and takes its
/// path, a save takes the path and leaves nothing unsaved, a failure changes no file, and
/// what was imported or rendered is handed on as it is.
pub proof fn law_file_operations_arrive(a: Session, op: PendingFileOp)
    ensures
        forall|s: &mut Session, r: FileStep|
            *s == a && #[trigger] call_ensures(Session::file_op_arrived, (s, op), r) ==> {
                &&& op matches PendingFileOp::OpenDone { file, path, message, warnings } ==> {
                    &&& r == (FileStep::Load { content: file.content })
                    &&& is_fresh(*final(s), file)
                    &&& !(*final(s)).dirty
                    &&& (*final(s)).current_path == path
                    &&& warnings@.len() == 0 ==> (*final(s)).status is Some
                        && (*final(s)).status->0.text() == message@
                    &&& warnings@.len() > 0 ==> (*final(s)).status is Some
                        && (*final(s)).status->0.text() == message@ + " ("@
                        + decimal(warnings@.len()) + (
                    if warnings@.len() == 1 {
                        " warning: "@
                    } else {
                        " warnings: "@
                    }) + strung(
                        texts(warnings@).take(
                            if warnings@.len() <= 3 {
                                warnings@.len() as int
                            } else {
                                3
                            },
                        ),
                        "; "@,
                    ) + ")"@
                }
                &&& op matches PendingFileOp::SaveOutcome { ok, path } ==> {
                    &&& ok ==> !(*final(s)).dirty && (*final(s)).current_path == path && (r
                        is RunIntent <==> a.pending_intent is Some) && (*final(s)).pending_intent
                        == a.pending_intent
                    &&& !ok ==> (*final(s)).dirty == a.dirty && (*final(s)).current_path
                        == a.current_path && r is Done && (*final(s)).pending_intent is None
                }
                &&& op matches PendingFileOp::ExportPngReady { bytes, suggested_name } ==> r
                    == (FileStep::SavePng { bytes, suggested_name }) && !(*final(s)).exporting_png
                &&& op matches PendingFileOp::SaveOutcome { ok, .. } ==> (*final(s)).status == Some(
                    Message::Fixed(
                        if ok {
                            "Saved"
                        } else {
                            "Save canceled"
                        },
                    ),
                )
                &&& op is Exported ==> (*final(s)).status == Some(Message::Fixed("Exported")) && r
                    is Done
                &&& op matches PendingFileOp::ExportFinished { message } ==> (*final(s)).status
                    == Some(message)
                &&& op matches PendingFileOp::Failed { message } ==> (*final(s)).status is Some && (
                *final(s)).status->0.text() == "Error: "@ + message.text()
                &&& op is ExportFinished ==> !(*final(s)).exporting_png && r is Done
                &&& op is Failed ==> !(*final(s)).exporting_png && r is Done
                    && (*final(s)).pending_intent is None
                    && (*final(s)).current_path == a.current_path
                &&& op matches PendingFileOp::ImportImageDone { asset } ==> r
                    == (FileStep::AddImage { asset }) && *final(s) == a
                &&& op matches PendingFileOp::ImportFontDone { name, bytes } ==> (r
                    matches FileStep::AddFont { asset } && asset.name@ == name@ && asset.bytes@
                    == bytes@) && *final(s) == a
                &&& !(op is OpenDone) && !(op is SaveOutcome) ==> (*final(s)).dirty == a.dirty && (
                *final(s)).selection == a.selection
            },
{
    assert forall|w: Seq<Seq<char>>| #[trigger] listed(w) == strung(w, "; "@) by {
        lemma_listed(w);
    }
}

proof fn lemma_listed(parts: Seq<Seq<char>>)
    ensures
        listed(parts) == strung(parts, "; "@),
    decreases parts.len(),
{
    if parts.len() > 1 {
        lemma_listed(parts.drop_last());
    }
}

/// With unsaved work an intent is asked about and waits; discarding or saving lets it go
/// on, once, cancelling drops it. Without unsaved work it goes on at once.
pub proof fn law_unsaved_work_is_asked_about(a: Session, intent: PendingIntent, file: OpenedFile)
    ensures
        forall|s: &mut Session, go: bool|
            *s == a && #[trigger] call_ensures(Session::request_guard, (s, intent), go) ==> {
                &&& go <==> !a.dirty
                &&& go ==> *final(s) == a
                &&& !go ==> (*final(s)).pending_intent == Some(intent) && (*final(s)).dirty
            },
        forall|
            s: &mut Session,
            t: &mut Session,
            u: &mut Session,
            go: bool,
            first: Option<PendingIntent>,
            second: Option<PendingIntent>,
        |
            *s == a && *t == *final(s) && *u == *final(t) && a.dirty
                && #[trigger] call_ensures(Session::request_guard, (s, intent), go)
                && #[trigger] call_ensures(Session::discard_discard, (t,), first)
                && #[trigger] call_ensures(Session::discard_discard, (u,), second) ==> first
                == Some(intent) && second is None,
        forall|s: &mut Session, t: &mut Session, go: bool, r: Option<PendingIntent>, written: bool|
            *s == a && *t == *final(s) && a.dirty
                && #[trigger] call_ensures(Session::request_guard, (s, intent), go)
                && #[trigger] call_ensures(Session::discard_save, (t, written), r) ==> {
                &&& (*final(t)).pending_intent is None
                &&& written ==> r == Some(intent)
                &&& !written ==> r is None
            },
        forall|s: &mut Session, t: &mut Session, go: bool|
            *s == a && *t == *final(s) && a.dirty
                && #[trigger] call_ensures(Session::request_guard, (s, intent), go)
                && #[trigger] call_ensures(Session::discard_cancel, (t,), ())
                    ==> (*final(t)).pending_intent is None && (*final(t)).dirty
                    && (*final(t)).selection == a.selection
                && (*final(t)).current_path == a.current_path,
        forall|s: &mut Session, r: bool|
            *s == a && #[trigger] call_ensures(Session::new_document, (s, &file), r) ==> {
                &&& r <==> !a.dirty
                &&& r ==> is_fresh(*final(s), file) && (*final(s)).current_path is None
                &&& !r ==> (*final(s)).pending_intent == Some(PendingIntent::New)
                    && (*final(s)).selection == a.selection && (*final(s)).clipboard == a.clipboard
            },
        forall|s: &mut Session, r: Option<PendingIntent>|
            *s == a && #[trigger] call_ensures(Session::take_pending_intent, (s,), r) ==> r
                == a.pending_intent && (*final(s)).pending_intent is None,
        forall|s: &mut Session|
            *s == a && #[trigger] call_ensures(Session::request_discard, (s, intent), ()) ==> (
            *final(s)).pending_intent == Some(intent) && (*final(s)).dirty == a.dirty,
        forall|s: &mut Session|
            *s == a && #[trigger] call_ensures(Session::clear_pending_intent, (s,), ())
                ==> (*final(s)).pending_intent is None && (*final(s)).dirty == a.dirty,
{
}

/// Saving takes the path and leaves nothing unsaved where it succeeds; a save that fails
/// leaves the work unsaved.
pub proof fn law_saving_leaves_nothing_unsaved(
    a: Session,
    path: String,
    result: Result<(), String>,
)
    ensures
        forall|s: &mut Session, r: bool|
            *s == a && #[trigger] call_ensures(Session::save_finished, (s, path, result), r) ==> {
                &&& r <==> result is Ok
                &&& r ==> !(*final(s)).dirty && (*final(s)).current_path == Some(path)
                &&& !r ==> (*final(s)).dirty == a.dirty && (*final(s)).current_path
                    == a.current_path && (*final(s)).status is Some
                        && (*final(s)).status->0.text() == "Error: "@ + result->Err_0@
                &&& (*final(s)).selection == a.selection
            },
        forall|s: &mut Session|
            *s == a && #[trigger] call_ensures(Session::mark_saved, (s, Some(path)), ()) ==> !(
            *final(s)).dirty && (*final(s)).current_path == Some(path),
{
}

/// A file with a path is written there, packed where its extension says so; one without is
/// asked for, offering its name.
pub proof fn law_files_are_saved_where_they_are(a: Session, meta: &str, r: SaveTarget)
    requires
        call_ensures(Session::save_target, (&a, meta), r),
    ensures
        a.current_path matches Some(p) ==> {
            &&& r is Write && r->path@ == p@
            &&& r->binary <==> file_part(p@) is Some && crate::paths::extension(file_part(p@)->0)
                is Some && crate::path_name_laws::is_renb(
                crate::paths::extension(file_part(p@)->0)->0,
            )
        },
        a.current_path is None ==> r is Ask && r->suggested@ == meta@ + ".ren"@,
{
    if let Some(p) = a.current_path {
        if let Some(e) = crate::paths::path_extension(p@) {
            crate::path_name_laws::lemma_renb(e);
        }
    }
}

/// A document is called what its path names, else what it calls itself; the title marks
/// unsaved work, and the line below shows the status, else the path.
pub proof fn law_documents_are_called_by_their_path(a: Session, meta: &str, ext: &str)
    ensures
        forall|r: String| #[trigger]
            call_ensures(Session::window_title, (&a, meta), r) ==> {
                let name = if a.current_path is Some && file_part(a.current_path->0@) is Some {
                    file_part(a.current_path->0@)->0
                } else {
                    meta@
                };
                &&& a.dirty ==> r@ == name + " *"@
                &&& !a.dirty ==> r@ == name
            },
        forall|r: String, q: String|
            #[trigger] call_ensures(Session::document_stem, (&a, meta), r)
                && #[trigger] call_ensures(Session::suggested_name, (&a, meta, ext), q) ==> {
                &&& q@ == r@ + ext@
                &&& a.current_path is None ==> r@ == meta@
                &&& a.current_path is Some && path_stem(a.current_path->0@) is Some && path_stem(
                    a.current_path->0@,
                )->0.len() > 0 ==> r@ == path_stem(a.current_path->0@)->0
            },
        forall|r: String| #[trigger]
            call_ensures(Session::window_subtitle, (&a,), r) ==> {
                &&& a.status matches Some(m) ==> r@ == m.text()
                &&& a.status is None && a.current_path is Some ==> r@ == a.current_path->0@
                &&& a.status is None && a.current_path is None ==> r@ == "Unsaved"@
            },
{
}

/// One image is rendered at a time: while one is, no other starts, and the end of it lets
/// the next one start.
pub proof fn law_one_image_is_rendered_at_a_time(a: Session, message: Message)
    ensures
        forall|s: &mut Session, r: bool|
            *s == a && #[trigger] call_ensures(Session::may_export_png, (s,), r) ==> (r
                <==> !a.exporting_png) && (*final(s)).exporting_png == a.exporting_png,
        forall|
            s: &mut Session,
            t: &mut Session,
            u: &mut Session,
            v: &mut Session,
            r: bool,
            again: bool,
            step: FileStep,
            then: bool,
        |
            *s == a && *t == *final(s) && *u == *final(t) && *v == *final(u)
                && #[trigger] call_ensures(
                Session::png_prepared,
                (s, Ok::<(), String>(())),
                r,
            ) && #[trigger] call_ensures(Session::may_export_png, (t,), again)
                && #[trigger] call_ensures(
                Session::file_op_arrived,
                (u, PendingFileOp::ExportFinished { message }),
                step,
            ) && #[trigger] call_ensures(Session::may_export_png, (v,), then) ==> r && !again
                && then,
        forall|s: &mut Session, e: String, r: bool|
            *s == a && #[trigger] call_ensures(
                Session::png_prepared,
                (s, Err::<(), String>(e)),
                r,
            ) ==> !r && (*final(s)).exporting_png == a.exporting_png,
{
}

/// What was read becomes an operation that carries it on unchanged; what failed becomes
/// one that says so.
pub proof fn law_results_become_operations(
    file: Result<OpenedFile, String>,
    path: Option<String>,
    warnings: Vec<String>,
    image: Result<ImageAsset, String>,
    name: String,
    read: Result<Vec<u8>, String>,
)
    ensures
        forall|r: PendingFileOp| #[trigger]
            call_ensures(open_result, (file, path), r) ==> {
                &&& file is Ok ==> r is OpenDone && r->file == file->Ok_0 && r->OpenDone_path
                    == path && r->warnings@.len() == 0
                &&& file is Err ==> r is Failed
            },
        forall|kind: ImportKind, r: PendingFileOp| #[trigger]
            call_ensures(import_result, (kind, file, warnings), r) ==> {
                &&& file is Ok ==> r is OpenDone && r->file == file->Ok_0 && r->OpenDone_path
                    is None && r->warnings == warnings
                &&& file is Err ==> r is Failed
            },
        forall|r: PendingFileOp| #[trigger]
            call_ensures(image_result, (image,), r) ==> {
                &&& image is Ok ==> r is ImportImageDone && r->asset == image->Ok_0
                &&& image is Err ==> r is Failed
            },
        forall|r: PendingFileOp| #[trigger]
            call_ensures(font_result, (Some(name), read), r) ==> {
                &&& read is Ok ==> r is ImportFontDone && r->name@ == name@
                    && r->ImportFontDone_bytes == read->Ok_0
                &&& read is Err ==> r is Failed
            },
        forall|bytes: Vec<u8>, target: String, r: PendingFileOp| #[trigger]
            call_ensures(png_result, (Rendering::Ready(bytes), target), r) ==> r
                == (PendingFileOp::ExportPngReady { bytes, suggested_name: target }),
{
}

/// A project file is packed where its extension says so, and text otherwise.
pub proof fn law_project_files_are_packed_or_text(
    name: &str,
    data: &[u8],
    packed: bool,
    r: Result<RenSource, String>,
)
    requires
        call_ensures(is_binary, (name,), packed),
        call_ensures(ren_source, (name, data), r),
    ensures
        packed <==> r is Ok && r->Ok_0 is Binary,
        !packed && valid_utf8(data@) ==> r is Ok && r->Ok_0 is Text && r->Ok_0->Text_0@
            == decode_utf8(data@),
        !packed && !valid_utf8(data@) ==> r is Err,
{
}

/// An imported image keeps its name, its bytes and its size, and has the type that its
/// extension stands for.
pub proof fn law_imported_images_keep_their_bytes(
    name: String,
    bytes: Vec<u8>,
    width: u32,
    height: u32,
)
    ensures
        forall|r: ImageAsset| #[trigger]
            call_ensures(image_asset, (name, bytes, width, height), r) ==> {
                &&& r.name == name && r.bytes == bytes && r.width == width && r.height == height
                &&& r.srgb
                &&& crate::paths::has_extension(name@, "png"@) ==> r.mime@ == "image/png"@
                &&& crate::paths::has_extension(name@, "webp"@) && !crate::paths::has_extension(
                    name@,
                    "png"@,
                ) && !crate::paths::has_extension(name@, "jpg"@) && !crate::paths::has_extension(
                    name@,
                    "jpeg"@,
                ) ==> r.mime@ == "image/webp"@
            },
        forall|size: Result<(u32, u32), String>, r: Result<ImageAsset, String>| #[trigger]
            call_ensures(decoded_asset, (name, bytes, size), r) ==> {
                &&& r is Ok <==> size is Ok
                &&& size is Ok ==> r->Ok_0.name == name && r->Ok_0.bytes == bytes && r->Ok_0.width
                    == size->Ok_0.0 && r->Ok_0.height == size->Ok_0.1
                &&& size is Err ==> r->Err_0 == size->Err_0
            },
        forall|r: FontAsset| #[trigger]
            call_ensures(font_asset, (name, bytes), r) ==> r.name@ == name@ && r.bytes@ == bytes@,
{
}

/// An imported asset that was added marks the document as changed and names it; one that
/// was not leaves it.
pub proof fn law_imports_dirty_the_document(
    a: Session,
    reply: Result<Applied, String>,
    name: &str,
)
    ensures
        forall|s: &mut Session, r: bool|
            *s == a && #[trigger] call_ensures(Session::import_image, (s, reply, name), r) ==> {
                &&& r <==> reply is Ok
                &&& r ==> (*final(s)).dirty && (*final(s)).status is Some
                    && (*final(s)).status->0.text() == "Imported image: "@ + name@
                &&& !r ==> (*final(s)).dirty == a.dirty
            },
        forall|s: &mut Session|
            *s == a && #[trigger] call_ensures(Session::import_font, (s, reply, name), ()) ==> {
                &&& reply is Ok ==> (*final(s)).dirty
                &&& reply is Err ==> (*final(s)).dirty == a.dirty
                &&& reply is Ok && reply->Ok_0.created is Some ==> (*final(s)).status is Some && (
                *final(s)).status->0.text() == "Imported font: "@ + name@
            },
{
}

} // verus!
