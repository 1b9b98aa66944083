//! What a refused request is answered: the reason, and nothing else changes.
use vstd::prelude::*;

use crate::arrange::Move;
use crate::arrange_laws::is_open;
use crate::clipboard::{EditClosed, InsertRun};
use crate::commands::{Edit, Message};
use crate::machine::{BlendChild, ClipId, InputDef};
use crate::machine_ui::KindChange;
use crate::model::{Document, Handle, NodeId, NodeKind, ShapeKind, StyleKind};
use crate::pathops::{Contours, DivideRun, SelectionBoolean};
use crate::picker::PickerWrite;
use crate::session::{PickerTarget, Session};
use crate::strokes::StrokeRun;
use crate::styling::{first_style, StyleRun};

verus! {

/// Whether the session only says the text: the document, the selection, the clipboard and
/// everything else but the count of repaints stay.
pub open spec fn only_says(a: Session, b: Session, text: &'static str) -> bool {
    &&& b.status == Some(Message::Fixed(text))
    &&& b == (Session { status: b.status, revision: b.revision, ..a })
    &&& b.revision != a.revision
}

/// What arranging answers where it cannot: nothing to a request without a selection,
/// otherwise that nothing can be aligned, distributed or flipped, that there are too few
/// objects, or that locked layers stay.
pub proof fn law_arranging_says_why_not(
    a: Session,
    doc: Document,
    bounded: usize,
    moves: Vec<Move>,
    scales: Vec<Option<Handle>>,
    roots: Vec<NodeId>,
)
    requires
        doc.wf(),
        call_ensures(Document::selected_roots, (&doc, &a.selection), roots),
        scales@.len() == roots@.len(),
    ensures
        forall|s: &mut Session, r: Option<Edit>|
            *s == a && #[trigger] call_ensures(
                Session::align_selection,
                (s, &doc, bounded, &moves),
                r,
            ) && r is None ==> {
                &&& roots@.len() == 0 ==> *final(s) == a
                &&& roots@.len() > 0 ==> only_says(a, *final(s), "Nothing to align")
            },
        forall|s: &mut Session, r: Option<Edit>|
            *s == a && #[trigger] call_ensures(
                Session::distribute_selection,
                (s, &doc, bounded, Some(&moves)),
                r,
            ) && r is None ==> {
                &&& roots@.len() < 3 ==> only_says(
                    a,
                    *final(s),
                    "Select 3+ objects to distribute",
                )
                &&& roots@.len() >= 3 && bounded < 3 ==> only_says(
                    a,
                    *final(s),
                    "Select 3+ visible objects to distribute",
                )
                &&& roots@.len() >= 3 && bounded >= 3 ==> only_says(
                    a,
                    *final(s),
                    "Nothing to distribute",
                )
            },
        forall|s: &mut Session, r: Option<Edit>|
            *s == a && #[trigger] call_ensures(Session::flip_selection, (s, &doc, &scales), r) && r
                is None ==> {
                &&& roots@.len() == 0 ==> *final(s) == a
                &&& roots@.len() > 0 ==> only_says(
                    a,
                    *final(s),
                    "Flip does not apply to the selection",
                )
            },
        forall|s: &mut Session, dragging: bool, r: Option<Edit>|
            *s == a && #[trigger] call_ensures(
                Session::delete_selection_nodes,
                (s, &doc, dragging),
                r,
            ) && r is None ==> {
                &&& dragging || a.selection@.len() == 0 ==> *final(s) == a
                &&& !dragging && a.selection@.len() > 0 ==> only_says(
                    a,
                    *final(s),
                    "Locked layers cannot be deleted",
                )
            },
{
}

/// What the clipboard answers: that there is nothing to copy or to duplicate, or that it
/// is empty.
pub proof fn law_clipboard_says_why_not(
    a: Session,
    doc: Document,
    roots: Vec<NodeId>,
)
    requires
        doc.wf(),
        call_ensures(Document::selected_roots, (&doc, &a.selection), roots),
        forall|i: int| 0 <= i < roots@.len() ==> !is_open(doc, #[trigger] roots@[i]),
        a.open_picker is None,
        a.inspector_drag is None && a.layer_drag is None && a.machine_drag is None,
    ensures
        forall|s: &mut Session, r: EditClosed|
            *s == a && #[trigger] call_ensures(Session::copy_selection, (s, &doc, false), r)
                ==> only_says(a, *final(s), "Nothing to copy: selection is empty or locked"),
        forall|s: &mut Session, r: (EditClosed, Option<Edit>)|
            *s == a && #[trigger] call_ensures(Session::cut_selection, (s, &doc, false), r)
                ==> only_says(a, *final(s), "Nothing to copy: selection is empty or locked") && r.1
                is None,
        forall|s: &mut Session, r: (EditClosed, Option<InsertRun>)|
            *s == a && #[trigger] call_ensures(Session::duplicate_selection, (s, &doc, false), r)
                ==> only_says(
                a,
                *final(s),
                "Nothing to duplicate: selection is empty or locked",
            ) && r.1 is None,
{
    let taken = |id: NodeId| doc.located(id) is Some && doc.is_free(id);
    let free = |id: NodeId| doc.is_free(id);
    assert forall|i: int| 0 <= i < roots@.len() implies !taken(#[trigger] roots@[i]) && !free(
        roots@[i],
    ) by {
        assert(!is_open(doc, roots@[i]));
    }
    lemma_nothing_left(roots@, taken);
    lemma_nothing_left(roots@, free);
    assert(doc.copyable(a.selection@) == roots@.filter(taken));
    assert(doc.duplicable(a.selection@) == roots@.filter(free));
}

proof fn lemma_nothing_left(s: Seq<NodeId>, test: spec_fn(NodeId) -> bool)
    requires
        forall|i: int| 0 <= i < s.len() ==> !test(#[trigger] s[i]),
    ensures
        s.filter(test).len() == 0,
    decreases s.len(),
{
    reveal(Seq::filter);
    if s.len() > 0 {
        assert forall|i: int| 0 <= i < s.drop_last().len() implies !test(
            #[trigger] s.drop_last()[i],
        ) by {
            assert(s.drop_last()[i] == s[i]);
        }
        lemma_nothing_left(s.drop_last(), test);
        assert(!test(s[s.len() - 1]));
    }
}

/// An empty clipboard is said to be empty; so is one without a style, and a style is not
/// pasted onto nothing.
pub proof fn law_pasting_says_why_not(a: Session, doc: Document, open: bool)
    requires
        doc.wf(),
    ensures
        a.clipboard is None || a.clipboard->0.items@.len() == 0 ==> {
            &&& forall|s: &mut Session, r: Option<(EditClosed, InsertRun)>|
                *s == a && #[trigger] call_ensures(Session::paste_clipboard, (s, open), r)
                    ==> only_says(a, *final(s), "Clipboard empty")
            &&& forall|s: &mut Session, r: Option<(EditClosed, InsertRun)>|
                *s == a && #[trigger] call_ensures(Session::paste_selection, (s, open), r) ==> r
                    is None && only_says(a, *final(s), "Clipboard empty")
            &&& forall|s: &mut Session, r: Option<(EditClosed, InsertRun)>|
                *s == a && #[trigger] call_ensures(Session::paste_clipboard_in_place, (s, open), r)
                    ==> only_says(a, *final(s), "Clipboard empty")
        },
        forall|s: &mut Session, r: Option<(EditClosed, StyleRun)>|
            *s == a && #[trigger] call_ensures(Session::paste_style, (s, &doc, open), r) ==> {
                let fill = first_style(a.clipboard->0.style_nodes@, StyleKind::Fill);
                let stroke = first_style(a.clipboard->0.style_nodes@, StyleKind::Stroke);
                &&& a.clipboard is None ==> r is None && only_says(a, *final(s), "Clipboard empty")
                &&& a.clipboard is Some && fill is None && stroke is None ==> only_says(
                    a,
                    *final(s),
                    "No style on the clipboard",
                )
                &&& a.clipboard is Some && (fill is Some || stroke is Some) && a.selection@.len()
                    == 0 ==> only_says(a, *final(s), "Select objects to paste the style onto")
                &&& a.clipboard is Some && (fill is Some || stroke is Some)
                    && a.selection@.len() > 0
                    && r is None ==> only_says(a, *final(s), "Nothing to paste")
            },
{
}

/// What the operations on paths answer where they cannot.
pub proof fn law_path_operations_say_why_not(
    a: Session,
    doc: Document,
    ids: Vec<NodeId>,
    closed: Vec<bool>,
    traced: Vec<Handle>,
    simpler: Vec<Option<Handle>>,
    contours: Vec<Handle>,
    outlines: Vec<Option<Handle>>,
    open: bool,
)
    requires
        doc.wf(),
        call_ensures(Document::selected_shape_roots_in_z_order, (&doc, &a.selection), ids),
        closed@.len() == ids@.len(),
        simpler@.len() == a.selection@.len(),
    ensures
        forall|s: &mut Session, r: Option<Edit>|
            *s == a && #[trigger] call_ensures(Session::reverse_selected_paths, (s, &doc), r) && r
                is None ==> only_says(a, *final(s), "Select a path to reverse"),
        forall|s: &mut Session, r: Option<Edit>|
            *s == a && #[trigger] call_ensures(
                Session::convert_selection_to_path,
                (s, &doc, &traced),
                r,
            ) && r is None ==> only_says(a, *final(s), "Select a primitive shape to convert"),
        forall|s: &mut Session, r: Option<Vec<NodeId>>|
            *s == a && #[trigger] call_ensures(Session::boolean_selection, (s, &doc), r) && r
                is None ==> only_says(a, *final(s), "Select at least two closed shapes"),
        forall|s: &mut Session, r: Option<Vec<NodeId>>|
            *s == a && #[trigger] call_ensures(Session::combine_selection, (s, &doc), r) && r
                is None ==> only_says(a, *final(s), "Select at least two objects to combine"),
        forall|s: &mut Session, r: Option<Vec<NodeId>>|
            *s == a && #[trigger] call_ensures(Session::divide_selection, (s, &doc, &closed), r)
                && r is None ==> {
                &&& ids@.len() < 2 ==> only_says(
                    a,
                    *final(s),
                    "Select at least two closed shapes to divide",
                )
                &&& ids@.len() >= 2 ==> only_says(
                    a,
                    *final(s),
                    "Division requires closed shapes (open cutting not supported)",
                )
            },
        forall|s: &mut Session, r: Option<Edit>|
            *s == a && #[trigger] call_ensures(
                Session::simplify_selection,
                (s, &doc, &simpler),
                r,
            ) && r is None ==> {
                &&& a.selection@.len() == 0 ==> only_says(
                    a,
                    *final(s),
                    "Select a path to simplify",
                )
                &&& a.selection@.len() > 0 ==> only_says(
                    a,
                    *final(s),
                    "Select vector paths to simplify",
                )
            },
        forall|s: &mut Session, r: Option<Edit>|
            *s == a && #[trigger] call_ensures(
                Session::break_apart_selection,
                (s, &doc, &contours),
                r,
            ) ==> {
                let id = a.selection@[0];
                let compound = doc.nodes().contains_key(id) && doc.nodes()[id].kind
                    == NodeKind::Shape(ShapeKind::CompoundPath);
                &&& a.selection@.len() != 1 ==> only_says(
                    a,
                    *final(s),
                    "Select one combined path to break apart",
                )
                &&& a.selection@.len() == 1 && !compound ==> only_says(
                    a,
                    *final(s),
                    "Break apart requires a compound path",
                )
                &&& a.selection@.len() == 1 && compound && contours@.len() < 2 ==> only_says(
                    a,
                    *final(s),
                    "The compound path has a single contour",
                )
                &&& a.selection@.len() == 1 && compound && contours@.len() >= 2
                    && doc.nodes()[id].location is None ==> only_says(
                    a,
                    *final(s),
                    "Node is not attached",
                )
            },
        forall|s: &mut Session, r: Option<(EditClosed, StrokeRun)>|
            *s == a && #[trigger] call_ensures(
                Session::stroke_selection_to_path,
                (s, &doc, &outlines, open),
                r,
            ) && r is None ==> {
                &&& a.selection@.len() == 0 ==> only_says(
                    a,
                    *final(s),
                    "Select stroked shapes to convert",
                )
                &&& a.selection@.len() > 0 ==> only_says(a, *final(s), "No stroked shapes found")
            },
{
}

/// What the ends of these operations answer where nothing came of them.
pub proof fn law_empty_results_are_said(
    a: Session,
    doc: Document,
    operation: SelectionBoolean,
    ids: Vec<NodeId>,
    c: Contours,
    run: DivideRun,
)
    ensures
        forall|s: &mut Session, r: Option<crate::pathops::BooleanRun>|
            *s == a && c.count == 0 && #[trigger] call_ensures(
                Session::boolean_subject,
                (s, operation, ids, c),
                r,
            ) ==> only_says(a, *final(s), "The subject has no geometry"),
        forall|s: &mut Session, r: Option<Edit>|
            *s == a && c.count == 0 && #[trigger] call_ensures(
                Session::finish_combine,
                (s, &ids, c),
                r,
            ) ==> only_says(a, *final(s), "Nothing to combine"),
        forall|s: &mut Session, r: Option<Edit>|
            *s == a && #[trigger] call_ensures(Session::finish_divide, (s, &doc, run), r) && r
                is None ==> {
                &&& run.pieces@.len() == 0 && run.remaining.count == 0 ==> only_says(
                    a,
                    *final(s),
                    "Division produced no geometry",
                )
                &&& run.pieces@.len() > 0 || run.remaining.count > 0 ==> only_says(
                    a,
                    *final(s),
                    "Subject is not attached",
                )
            },
        forall|s: &mut Session, message: String|
            *s == a && #[trigger] call_ensures(Session::fail_geometry, (s, message), ()) ==> {
                &&& (*final(s)).status is Some && (*final(s)).status->0.text() == message@
                &&& *final(s) == (Session {
                    status: (*final(s)).status,
                    revision: (*final(s)).revision,
                    ..a
                })
            },
        forall|s: &mut Session, failed: bool|
            *s == a && #[trigger] call_ensures(Session::finish_paste_style, (s, failed), ()) ==> {
                &&& (*final(s)).dirty
                &&& failed ==> (*final(s)).status == Some(
                    Message::Fixed("Paste style failed on part of the selection"),
                )
                &&& !failed ==> (*final(s)).status == a.status
                &&& (*final(s)).selection == a.selection
            },
        forall|s: &mut Session, failed: bool|
            *s == a && #[trigger] call_ensures(Session::finish_stroke_to_path, (s, failed), ())
                ==> {
                &&& (*final(s)).dirty
                &&& failed ==> (*final(s)).status == Some(
                    Message::Fixed("Stroke to path failed on part of the selection"),
                )
                &&& !failed ==> (*final(s)).status == a.status
                &&& (*final(s)).selection == a.selection
            },
{
}

/// Without a clip a state becomes no clip and a blend gets no child.
pub proof fn law_missing_clips_are_said(a: Session, clip: Option<ClipId>, threshold: u64)
    requires
        clip is None,
    ensures
        forall|s: &mut Session, r: Option<KindChange>|
            *s == a && #[trigger] call_ensures(Session::clip_state, (s, clip), r) ==> only_says(
                a,
                *final(s),
                "Create a clip in Assets first",
            ),
        forall|s: &mut Session, r: Option<BlendChild>|
            *s == a && #[trigger] call_ensures(Session::new_blend_child, (s, clip, threshold), r)
                ==> only_says(a, *final(s), "Create a clip in Assets first"),
{
}

/// Without a number among the inputs a state becomes no blend.
pub proof fn law_missing_numbers_are_said(
    a: Session,
    b: Session,
    inputs: Vec<InputDef>,
    r: Option<KindChange>,
)
    requires
        exists|s: &mut Session| #[trigger]
            call_ensures(Session::blend_state, (s, &inputs), r) && *s == a && *final(s) == b,
        r is None,
    ensures
        only_says(a, b, "Add a Number input before Blend1D"),
{
}

/// A colour is not changed while another edit is under way.
pub proof fn law_busy_colors_are_refused(a: Session, b: Session, paint: Handle, r: PickerWrite)
    requires
        a.open_picker is Some,
        a.open_picker->0.target != PickerTarget::CurrentPaint,
        !a.open_picker->0.transaction_open,
        exists|s: &mut Session| #[trigger]
            call_ensures(Session::apply_picker_change, (s, paint, true), r) && *s == a && *final(s)
                == b,
    ensures
        r is Nothing,
        b.status == Some(Message::Fixed("Finish the active edit before changing a color")),
        b == (Session { status: b.status, ..a }),
{
}

/// While an image is rendered, another one is refused.
pub proof fn law_second_rendering_is_refused(a: Session, b: Session, r: bool)
    requires
        a.exporting_png,
        exists|s: &mut Session| #[trigger]
            call_ensures(Session::may_export_png, (s,), r) && *s == a && *final(s) == b,
    ensures
        !r,
        only_says(a, b, "PNG export already in progress"),
{
}

} // verus!
