//! What lines of text and single edits are made of.
use vstd::prelude::*;

use crate::assets::{font_line, image_line, nothing_yet, place_image, FontAssetRow, ImageAssetRow};
use crate::commands::{Applied, Edit, EditorCommand, Message, TreeSource};
use crate::files::{
    add_asset, font_family, import_stem, lottie_saved, mime_for, panic_payload, png_saved,
    svg_saved, PendingFileOp,
};
use crate::graph::{blank_clip, create_clip_edit, create_machine_edit, BlankClip};
use crate::inspect::{
    can_remove_stop, has_diamond, row_editor, segment_is_active, stop_base, PropKind, RowEditor,
    ValueKind,
};
use crate::layers::{toggle_lock, toggle_visibility};
use crate::machine::{Machine, StateKind, TransitionSource};
use crate::machine_ui::{
    condition_count_label, kind_label, layer_inspector, layer_summary, listener_line, machine_chip,
    transition_label, InspectorRow,
};
use crate::model::{Document, Handle, NodeId, Parent};
use crate::paths::{extension_is, path_stem};
use crate::pathops::{contours_in_subject_space, piece_name, DivideRun};
use crate::propedit::{
    add_modifier, change_dashes, set_font, set_layer_stretch, set_precomp_stretch, set_text,
    style_action, DashChange, ModifierKind, StyleAction,
};
use crate::session::{MachineDrag, PointerEventKind, Session};
use crate::strings::{decimal, signed};
use crate::timeline::{drag_label, frame_label, range_label, row_label};

verus! {

/// Whether the edit is this one command and leaves the selection.
pub open spec fn is_one(edit: Edit, command: EditorCommand) -> bool {
    edit.commands@ == seq![command] && edit.select is None
}

/// Edits of a single command carry just that one.
pub proof fn law_single_edits(
    label: &'static str,
    command: EditorCommand,
    id: NodeId,
    handle: Handle,
    machine: Handle,
)
    ensures
        forall|r: Edit| #[trigger]
            call_ensures(Edit::single, (label, command), r) ==> is_one(r, command) && r.label
                == label,
        forall|r: Edit| #[trigger]
            call_ensures(toggle_visibility, (command,), r) ==> is_one(r, command),
        forall|r: Edit| #[trigger] call_ensures(toggle_lock, (command,), r) ==> is_one(r, command),
        forall|r: Option<Edit>| #[trigger]
            call_ensures(place_image, (Some(command),), r) ==> r is Some && is_one(r->0, command),
        forall|r: Option<Edit>| #[trigger]
            call_ensures(place_image, (None::<EditorCommand>,), r) ==> r is None,
        forall|kind: ModifierKind, r: Option<Edit>| #[trigger]
            call_ensures(add_modifier, (kind, Some(command)), r) ==> r is Some && is_one(
                r->0,
                command,
            ),
        forall|change: DashChange, r: Option<Edit>| #[trigger]
            call_ensures(change_dashes, (change, Some(command)), r) ==> r is Some && is_one(
                r->0,
                command,
            ),
        forall|action: StyleAction, r: Option<Edit>| #[trigger]
            call_ensures(style_action, (action, Some(command)), r) ==> r is Some && is_one(
                r->0,
                command,
            ),
        forall|r: Edit| #[trigger]
            call_ensures(set_text, (id, handle), r) ==> is_one(
                r,
                EditorCommand::SetTextContent { id, text: handle },
            ),
        forall|font: Option<Handle>, r: Edit| #[trigger]
            call_ensures(set_font, (id, font), r) ==> is_one(
                r,
                EditorCommand::SetTextFont { id, font },
            ),
        forall|stretch: Option<Handle>, r: Option<Edit>| #[trigger]
            call_ensures(set_layer_stretch, (id, stretch), r) ==> {
                &&& r is Some <==> stretch is Some
                &&& r matches Some(e) ==> is_one(
                    e,
                    EditorCommand::SetLayerProps {
                        id,
                        in_frame: None,
                        out_frame: None,
                        stretch,
                        blend: None,
                    },
                )
            },
        forall|stretch: Option<Handle>, r: Option<Edit>| #[trigger]
            call_ensures(set_precomp_stretch, (id, stretch), r) ==> {
                &&& r is Some <==> stretch is Some
                &&& r matches Some(e) ==> is_one(
                    e,
                    EditorCommand::SetPrecompTimeMap { id, offset: None, stretch },
                )
            },
        forall|r: Edit| #[trigger]
            call_ensures(create_clip_edit, (handle,), r) ==> is_one(
                r,
                EditorCommand::CreateClip { index: usize::MAX, clip: handle },
            ),
        forall|r: Edit| #[trigger]
            call_ensures(create_machine_edit, (machine,), r) ==> is_one(
                r,
                EditorCommand::CreateMachine { index: usize::MAX, machine },
            ),
        forall|r: EditorCommand| #[trigger]
            call_ensures(add_asset, (handle,), r) ==> r == (EditorCommand::AddAsset {
                index: usize::MAX,
                asset: handle,
            }),
{
}

/// Lines of the asset panel: an image's size and a font's name, and how often it is used.
pub proof fn law_asset_lines(
    image: ImageAssetRow,
    font: FontAssetRow,
    fonts: Vec<FontAssetRow>,
    images: Vec<ImageAssetRow>,
)
    ensures
        forall|r: String| #[trigger]
            call_ensures(image_line, (&image,), r) ==> r@ == decimal(image.width as nat) + "×"@
                + decimal(image.height as nat) + " · "@ + (decimal(image.usage_count as nat) + (
            if image.usage_count == 1 {
                " use"@
            } else {
                " uses"@
            })),
        forall|r: String| #[trigger]
            call_ensures(font_line, (&font,), r) ==> r@ == font.name@ + " · "@ + (decimal(
                font.usage_count as nat,
            ) + (if font.usage_count == 1 {
                " use"@
            } else {
                " uses"@
            })),
        forall|r: bool| #[trigger]
            call_ensures(nothing_yet, (&fonts, &images), r) ==> (r <==> fonts@.len() == 0
                && images@.len() == 0),
{
}

/// Lines of the timeline: a row's node and property, a frame, a range, and how far keys
/// are dragged, with its sign.
pub proof fn law_timeline_lines(node: &str, prop: &str, frame: i64, range: (i64, i64))
    ensures
        forall|r: String| #[trigger]
            call_ensures(row_label, (node, Some(prop)), r) ==> r@ == node@ + " · "@ + prop@,
        forall|r: String| #[trigger]
            call_ensures(row_label, (node, None::<&str>), r) ==> r@ == node@,
        forall|r: String| #[trigger]
            call_ensures(frame_label, (frame,), r) ==> r@ == "Frame "@ + signed(frame as int),
        forall|r: String| #[trigger]
            call_ensures(range_label, (range,), r) ==> r@ == "Range "@ + signed(range.0 as int)
                + "–"@ + signed(range.1 as int),
        forall|r: Option<String>| #[trigger]
            call_ensures(drag_label, (frame,), r) ==> {
                &&& r is None <==> frame == 0
                &&& frame > 0 ==> r->0@ == "+"@ + signed(frame as int) + "f"@
                &&& frame < 0 ==> r->0@ == signed(frame as int) + "f"@
            },
{
}

/// Lines of the machine panel.
pub proof fn law_machine_lines(
    name: &str,
    other: &str,
    n: u64,
    m: u64,
    kind: StateKind,
    source: TransitionSource,
    machine: Machine,
    layer: usize,
)
    ensures
        forall|r: String| #[trigger]
            call_ensures(machine_chip, (name, true), r) ==> r@ == "★ "@ + name@,
        forall|r: String| #[trigger]
            call_ensures(machine_chip, (name, false), r) ==> r@ == name@,
        forall|r: String| #[trigger]
            call_ensures(layer_summary, (n, m), r) ==> r@ == decimal(n as nat) + " states · "@
                + decimal(m as nat) + " any-transitions"@,
        forall|r: String| #[trigger]
            call_ensures(condition_count_label, (n,), r) ==> {
                &&& n == 0 ==> r@ == "no conditions"@
                &&& n == 1 ==> r@ == decimal(1) + " condition"@ + ""@
                &&& n > 1 ==> r@ == decimal(n as nat) + " condition"@ + "s"@
            },
        forall|r: String| #[trigger]
            call_ensures(transition_label, (source, name), r) ==> {
                &&& source is Any ==> r@ == "Any →"@ + " "@ + name@
                &&& source is State ==> r@ == "→"@ + " "@ + name@
            },
        forall|r: String| #[trigger]
            call_ensures(kind_label, (&kind,), r) ==> {
                &&& kind is Empty ==> r@ == "empty"@
                &&& kind is Clip ==> r@ == "clip"@
                &&& kind matches StateKind::Blend1D { children, .. }
                    ==> r@ == "blend · "@ + decimal(
                    children@.len(),
                )
            },
        forall|event: PointerEventKind, r: String| #[trigger]
            call_ensures(listener_line, (name, event, other), r) ==> r@ == name@ + " "@ + (
            match event {
                PointerEventKind::Down => "Down"@,
                PointerEventKind::Up => "Up"@,
                PointerEventKind::Click => "Click"@,
                PointerEventKind::Enter => "Enter"@,
                PointerEventKind::Exit => "Exit"@,
            }) + " "@ + other@,
        forall|r: Vec<InspectorRow>| #[trigger]
            call_ensures(layer_inspector, (&machine, layer), r) ==> {
                &&& machine.layers@.len() <= layer ==> r@.len() == 0
                &&& machine.layers@.len() > layer ==> r@.len() == 3 && r@[1]
                    == (InspectorRow::Summary {
                    states: machine.layers@[layer as int].states.len(),
                    any: machine.layers@[layer as int].any_transitions.len(),
                })
            },
{
}

/// A blank clip spans sixty frames; a piece is called after its node and numbered.
pub proof fn law_new_clips_and_pieces(name: String, base: &str, number: u64)
    ensures
        forall|r: BlankClip| #[trigger]
            call_ensures(blank_clip, (name,), r) ==> r.name == name && r.range.0 == 0 && r.range.1
                == 60,
        forall|r: String| #[trigger]
            call_ensures(piece_name, (base, number), r) ==> r@ == base@ + " "@ + decimal(
                number as nat,
            ),
{
}

/// A shape takes part in an operation where it is there, is a shape and has a place.
pub proof fn law_only_placed_shapes_take_part(
    doc: Document,
    id: NodeId,
    placed: bool,
    r: Result<(), &'static str>,
    run: DivideRun,
)
    requires
        call_ensures(contours_in_subject_space, (&doc, id, placed), r),
    ensures
        r is Ok <==> doc.nodes().contains_key(id) && doc.nodes()[id].kind is Shape && placed,
        forall|more: bool| #[trigger]
            call_ensures(DivideRun::has_material, (&run,), more) ==> (more <==> run.remaining.count
                > 0),
{
}

/// A new ellipse goes to the top of the main composition, at its centre and with the
/// current paint, and is selected.
pub proof fn law_new_ellipse(a: Session, doc: Document, id: NodeId, r: Edit)
    requires
        doc.wf(),
        doc.comp(doc.main_id()) is Some,
        call_ensures(Session::add_ellipse_layer, (&a, &doc), r),
    ensures
        is_one(
            r,
            EditorCommand::InsertNode {
                parent: Parent::Comp(doc.main_id()),
                index: 0,
                tree: TreeSource::Ellipse {
                    doubled_center: doc.comp(doc.main_id())->0.size,
                    paint: a.current_paint,
                },
            },
        ),
        forall|s: &mut Session, applied: Applied|
            *s == a && applied.created == Some(id) && #[trigger] call_ensures(
                Session::finish_add_layer,
                (s, Ok::<Applied, String>(applied), &doc),
                (),
            ) ==> (*final(s)).selection@ == seq![id] && (*final(s)).dirty,
        forall|s: &mut Session, e: String|
            *s == a && #[trigger] call_ensures(
                Session::finish_add_layer,
                (s, Err::<Applied, String>(e), &doc),
                (),
            ) ==> (*final(s)).selection == a.selection && (*final(s)).status is Some
                && (*final(s)).status->0.text() == "Edit failed: "@ + e@,
{
}

/// The editor of a row fits the property and its value; only plain rows have a diamond.
pub proof fn law_row_editors_fit(kind: PropKind, value: ValueKind, r: RowEditor)
    requires
        call_ensures(row_editor, (kind, value), r),
    ensures
        r is Number <==> (kind is Number && value is Number) || (kind is Angle && (value is Angle
            || value is Number)),
        r is Pair <==> kind is Point && value is Point,
        r is Color <==> kind is Color && value is Color,
        r is Switch <==> kind is Switch && value is Switch,
        kind is TwoChoices && value is Whole ==> r == (RowEditor::Segments { count: 2 }),
        kind is ThreeChoices && value is Whole ==> r == (RowEditor::Segments { count: 3 }),
        r is Segments ==> value is Whole && (kind is TwoChoices || kind is ThreeChoices),
        forall|d: bool| #[trigger]
            call_ensures(has_diamond, (r,), d) ==> (d <==> !(r is Segments) && !(r is Switch)),
        forall|v: i64, i: usize, on: bool| #[trigger]
            call_ensures(segment_is_active, (v, i), on) ==> (on <==> v == i),
        forall|i: usize, stops: usize, may: bool| #[trigger]
            call_ensures(can_remove_stop, (i, stops), may) ==> (may <==> stops > 2 && i < stops),
        forall|i: usize, c: usize|
            i * 5 + 4 <= usize::MAX && #[trigger] call_ensures(stop_base, (i,), c) ==> c == 5 * i,
{
}

/// The title of the panel is the node's name, or how many layers are selected; using a
/// paint makes it the current one.
pub proof fn law_panel_titles(a: Session, doc: Document)
    requires
        a.selection@.len() > 0,
    ensures
        forall|r: String| #[trigger]
            call_ensures(Session::properties_title, (&a, &doc), r) ==> {
                &&& a.selection@.len() > 1 ==> r@ == decimal(a.selection@.len()) + " layers"@
                &&& a.selection@.len() == 1 && doc.nodes().contains_key(a.selection@[0]) ==> r@
                    == doc.nodes()[a.selection@[0]].name@
            },
        forall|s: &mut Session, paint: Handle|
            *s == a && #[trigger] call_ensures(Session::use_as_current_paint, (s, paint), ()) ==> (
            *final(s)).current_paint == paint && (*final(s)).dirty == a.dirty,
        forall|r: bool| #[trigger]
            call_ensures(Session::diamonds_are_quiet, (&a,), r) ==> (r <==> a.mode is Design),
        forall|r: Option<&'static str>| #[trigger]
            call_ensures(Session::record_tip, (&a,), r) ==> (r is None <==> a.mode is Design),
{
}

/// A message reads as its text.
pub proof fn law_messages_read_as_their_text(m: Message, r: String)
    requires
        call_ensures(Message::to_text, (&m,), r),
    ensures
        m matches Message::Fixed(s) ==> r@ == s@,
        m matches Message::Built(s) ==> r@ == s@,
{
}

/// Messages of files: what was saved, what was not, what an import is called, what a
/// panic said, and the type that an extension stands for.
pub proof fn law_file_messages(a: Session, text: &str, ok: bool)
    ensures
        forall|s: &mut Session, m: Message|
            *s == a && #[trigger] call_ensures(Session::set_status, (s, m), ())
                ==> (*final(s)).status == Some(m) && (*final(s)).dirty == a.dirty,
        forall|s: &mut Session|
            *s == a && #[trigger] call_ensures(Session::report_error, (s, text), ())
                ==> (*final(s)).status is Some
                && (*final(s)).status->0.text() == "Error: "@ + text@
                && (*final(s)).dirty == a.dirty,
        forall|s: &mut Session, result: Result<(), String>|
            *s == a && #[trigger] call_ensures(Session::svg_written, (s, text, result), ()) ==> {
                &&& (*final(s)).status is Some
                &&& result is Ok ==> (*final(s)).status->0.text() == "Exported "@ + text@
                &&& result is Err ==> (*final(s)).status->0.text() == "Error: "@ + result->Err_0@
            },
        forall|r: PendingFileOp| #[trigger]
            call_ensures(lottie_saved, (ok,), r) ==> (r is Exported <==> ok) && (r is Failed
                <==> !ok),
        forall|r: Option<PendingFileOp>| #[trigger]
            call_ensures(svg_saved, (ok,), r) ==> (r is Some <==> ok),
        forall|r: PendingFileOp| #[trigger]
            call_ensures(png_saved, (ok,), r) ==> r is ExportFinished,
        forall|r: String| #[trigger]
            call_ensures(import_stem, (text,), r) ==> {
                &&& path_stem(text@) matches Some(s) ==> r@ == s
                &&& path_stem(text@) is None ==> r@ == "Imported"@
            },
        forall|own: String, r: String| #[trigger]
            call_ensures(font_family, (text, Some(own)), r) ==> r@ == own@,
        forall|r: String| #[trigger]
            call_ensures(font_family, (text, None::<String>), r) ==> (path_stem(text@) matches Some(
                s,
            ) ==> r@ == s),
        forall|r: String| #[trigger]
            call_ensures(panic_payload, (Some(text),), r) ==> r@ == text@,
        forall|r: &'static str, png: bool|
            #[trigger] call_ensures(mime_for, (text,), r) && #[trigger] call_ensures(
                extension_is,
                (text, "png"),
                png,
            ) ==> (png ==> r@ == "image/png"@),
{
}

/// Scrubbing a preview number keeps the input, the value and the place of the press, and
/// ends without them.
pub proof fn law_preview_numbers_are_scrubbed(a: Session, input: usize, origin: u64, x: u32)
    ensures
        forall|s: &mut Session, t: &mut Session|
            *s == a && *t == *final(s) && #[trigger] call_ensures(
                Session::begin_preview_number_scrub,
                (s, input, origin, x),
                (),
            ) && #[trigger] call_ensures(Session::end_preview_number_scrub, (t,), ()) ==> {
                &&& forall|r: Option<(usize, u64, u32)>| #[trigger]
                    call_ensures(Session::scrub_preview_number, (final(s),), r) ==> r == Some(
                        (input, origin, x),
                    )
                &&& (*final(t)).machine_drag is None
                &&& (*final(t)).machine_preview_inputs == a.machine_preview_inputs
            },
        forall|s: &mut Session|
            *s == a && !(a.machine_drag matches Some(MachineDrag::PreviewNumber { .. }))
                && #[trigger] call_ensures(Session::end_preview_number_scrub, (s,), ())
                    ==> *final(s) == a,
{
}

/// The lines over the canvas: while recording only that and the frame, otherwise the
/// size, the frame, the tool and how many nodes are selected.
pub proof fn law_hud_lines(a: Session, width: u32, height: u32, frame: i64, r: Vec<String>)
    requires
        call_ensures(Session::hud_lines, (&a, width, height, frame), r),
    ensures
        a.record ==> r@.len() == 2 && r@[1]@ == "Frame "@ + signed(frame as int),
        !a.record ==> {
            &&& r@.len() == 5
            &&& r@[1]@ == decimal(width as nat) + "×"@ + decimal(height as nat)
            &&& r@[2]@ == "Frame "@ + signed(frame as int)
            &&& r@[4]@ == decimal(a.selection@.len()) + " selected"@
        },
{
    let shown = crate::files::texts(r@);
    assert(shown.len() == r@.len());
    assert(shown == a.hud_texts(width, height, frame));
    assert forall|i: int| 0 <= i < r@.len() implies shown[i] == r@[i]@ by {}
    assert(shown[1] == r@[1]@);
    if !a.record {
        assert(shown[2] == r@[2]@);
        assert(shown[4] == r@[4]@);
    }
}

} // verus!
