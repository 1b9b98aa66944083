//! What typed values and chips of the property panels write.
use vstd::prelude::*;

use crate::commands::{BlendMode, Edit, EditorCommand};
use crate::model::{CompId, Document, Handle, NodeId, ShapeKind};
use crate::propedit::{
    blend_index, can_remove_dash_pair, dash_label, dash_path, duration_line, font_chips,
    modifier_chips, optional_edit, set_blend, set_choice, set_composition_end, set_composition_name,
    set_composition_rate, set_composition_side, set_image_crop, set_layer_end, set_node_name,
    set_paint, set_precomp_offset, set_precomp_source, set_switch, style_actions, ModifierKind,
    NameEdit, NamedEdit, PaintKind, RangeEnd, Side, StyleAction,
};
use crate::strings::{decimal, parse_i64, parse_u32, trim};

verus! {

/// A number, but one at least.
pub open spec fn at_least_one(n: u32) -> int {
    if n >= 1 {
        n as int
    } else {
        1
    }
}

/// A typed size or rate is read from the trimmed text and is one at least; the other side
/// stays, and a text that is no number writes nothing.
pub proof fn law_typed_sizes_are_written(
    comp: CompId,
    size: (u32, u32),
    text: &str,
    core_text: &str,
    n: Option<u32>,
)
    requires
        call_ensures(trim, (text,), core_text),
        call_ensures(parse_u32, (core_text,), n),
    ensures
        forall|side: Side, r: Option<Edit>| #[trigger]
            call_ensures(set_composition_side, (comp, size, side, text), r) ==> {
                &&& r is Some <==> n is Some
                &&& r matches Some(e) ==> {
                    &&& e.commands@.len() == 1 && e.select is None
                    &&& e.commands@[0] matches EditorCommand::SetCompositionSize {
                        comp: c,
                        width,
                        height,
                    } && {
                        &&& c == comp
                        &&& side is Width ==> width == at_least_one(n->0) && height == at_least_one(
                            size.1,
                        )
                        &&& side is Height ==> width == at_least_one(size.0) && height
                            == at_least_one(n->0)
                    }
                }
            },
        forall|r: Option<Edit>| #[trigger]
            call_ensures(set_composition_rate, (comp, text), r) ==> {
                &&& r is Some <==> n is Some
                &&& r matches Some(e) ==> {
                    &&& e.commands@.len() == 1 && e.select is None
                    &&& e.commands@[0] matches EditorCommand::SetCompositionRate { comp: c, rate }
                        && c == comp && rate == at_least_one(n->0)
                }
            },
{
}

/// A typed frame is read from the trimmed text and sets the end that it was typed for,
/// and that one alone.
pub proof fn law_typed_frames_are_written(
    comp: CompId,
    id: NodeId,
    text: &str,
    core_text: &str,
    n: Option<i64>,
)
    requires
        call_ensures(trim, (text,), core_text),
        call_ensures(parse_i64, (core_text,), n),
    ensures
        forall|end: RangeEnd, r: Option<Edit>| #[trigger]
            call_ensures(set_composition_end, (comp, end, text), r) ==> {
                &&& r is Some <==> n is Some
                &&& r matches Some(e) ==> {
                    &&& e.commands@.len() == 1 && e.select is None
                    &&& e.commands@[0] matches EditorCommand::SetCompositionRange {
                        comp: c,
                        start,
                        end: to,
                    } && {
                        &&& c == comp
                        &&& end is In ==> start == n && to is None
                        &&& end is Out ==> start is None && to == n
                    }
                }
            },
        forall|end: RangeEnd, r: Option<Edit>| #[trigger]
            call_ensures(set_layer_end, (id, end, text), r) ==> {
                &&& r is Some <==> n is Some
                &&& r matches Some(e) ==> {
                    &&& e.commands@.len() == 1 && e.select is None
                    &&& e.commands@[0] matches EditorCommand::SetLayerProps {
                        id: x,
                        in_frame,
                        out_frame,
                        stretch,
                        blend,
                    } && {
                        &&& x == id && stretch is None && blend is None
                        &&& end is In ==> in_frame == n && out_frame is None
                        &&& end is Out ==> in_frame is None && out_frame == n
                    }
                }
            },
        forall|r: Option<Edit>| #[trigger]
            call_ensures(set_precomp_offset, (id, text), r) ==> {
                &&& r is Some <==> n is Some
                &&& r matches Some(e) ==> e.commands@ == seq![
                    EditorCommand::SetPrecompTimeMap { id, offset: n, stretch: None },
                ]
            },
{
}

/// A typed name is the trimmed text, where anything is left of it; a node that is locked
/// or gone is not renamed.
pub proof fn law_typed_names_are_trimmed(
    comp: CompId,
    doc: Document,
    id: NodeId,
    text: &str,
    core_text: &str,
)
    requires
        call_ensures(trim, (text,), core_text),
    ensures
        forall|r: Option<NameEdit>| #[trigger]
            call_ensures(set_composition_name, (comp, text), r) ==> {
                &&& r is Some <==> core_text@.len() > 0
                &&& r matches Some(e) ==> e.id == comp && e.name@ == core_text@
            },
        forall|r: Option<NameEdit>| #[trigger]
            call_ensures(set_node_name, (&doc, id, text), r) ==> {
                &&& r is Some <==> core_text@.len() > 0 && doc.nodes().contains_key(id)
                    && !doc.nodes()[id].locked
                &&& r matches Some(e) ==> e.id == id && e.name@ == core_text@
            },
{
}

/// The blend mode that stands at a mode's own index is that mode; every index up to
/// sixteen is one mode's.
pub proof fn law_blend_modes_are_set_by_index(
    id: NodeId,
    blend: BlendMode,
    other: BlendMode,
    index: usize,
    elsewhere: usize,
)
    requires
        call_ensures(blend_index, (blend,), index),
        call_ensures(blend_index, (other,), elsewhere),
    ensures
        index < 16,
        index == elsewhere ==> blend == other,
        forall|r: Edit| #[trigger]
            call_ensures(set_blend, (id, index), r) ==> r.commands@ == seq![
                EditorCommand::SetLayerProps {
                    id,
                    in_frame: None,
                    out_frame: None,
                    stretch: None,
                    blend: Some(blend),
                },
            ],
{
}

/// A precomposition gets another source only; an image alone is cropped.
pub proof fn law_sources_and_crops(
    doc: Document,
    id: NodeId,
    current: CompId,
    comp: CompId,
    crop: Handle,
)
    ensures
        forall|r: Option<Edit>| #[trigger]
            call_ensures(set_precomp_source, (id, current, comp), r) ==> {
                &&& r is Some <==> comp != current
                &&& r matches Some(e) ==> e.commands@ == seq![
                    EditorCommand::SetPrecompComp { id, comp },
                ]
            },
        forall|r: Option<Edit>| #[trigger]
            call_ensures(set_image_crop, (&doc, id, Some(crop)), r) ==> {
                &&& r is Some <==> doc.nodes().contains_key(id) && doc.nodes()[id].kind is Image
                &&& r matches Some(e) ==> e.commands@ == seq![
                    EditorCommand::SetImageCrop { id, crop },
                ]
            },
{
}

/// Exactly the chip of the font that is set is lit; the first chip stands for none.
pub proof fn law_one_font_chip_is_lit(families: Vec<String>, font: &str, r: Vec<bool>, i: int)
    requires
        call_ensures(font_chips, (&families, Some(font)), r),
        0 <= i < families@.len(),
    ensures
        r@.len() == families@.len() + 1,
        !r@[0],
        r@[i + 1] <==> families@[i]@ == font@,
{
    assert(r@[i + 1] == (families@[i]@ == font@));
}

/// What a shape has is offered for removal, what it lacks to be added.
pub proof fn law_style_actions_fit(has_fill: bool, has_stroke: bool, r: (StyleAction, StyleAction))
    requires
        call_ensures(style_actions, (has_fill, has_stroke), r),
    ensures
        r.0.kind is Fill && r.1.kind is Stroke,
        r.0.remove <==> has_fill,
        r.1.remove <==> has_stroke,
{
}

/// Every modifier is offered, once; rounded corners only for rectangles and paths.
pub proof fn law_modifiers_fit_the_shape(shape: ShapeKind, kind: ModifierKind, r: Vec<ModifierKind>)
    requires
        call_ensures(modifier_chips, (shape,), r),
    ensures
        r@.contains(kind) <==> !(kind is RoundCorners) || shape is Rect || shape is Path,
        r@.no_duplicates(),
{
    let k: int = match kind {
        ModifierKind::TrimPath => 0,
        ModifierKind::OffsetPath => 1,
        ModifierKind::RoundCorners => 2,
        ModifierKind::Repeater => 3,
        ModifierKind::ZigZag => 4,
        ModifierKind::PuckerBloat => 5,
    };
    if r@.len() == 6 {
        assert(r@[k] == kind);
    } else if k < 2 {
        assert(r@[k] == kind);
    } else if k > 2 {
        assert(r@[k - 1] == kind);
    }
}

/// An edit that has no command is no edit.
pub proof fn law_no_command_is_no_edit(
    label: &'static str,
    path: &str,
    command: Option<EditorCommand>,
    commands: Vec<EditorCommand>,
)
    ensures
        forall|r: Option<Edit>| #[trigger]
            call_ensures(optional_edit, (label, command), r) ==> {
                &&& r is Some <==> command is Some
                &&& r matches Some(e) ==> e.commands@ == seq![command->0] && e.select is None
            },
        forall|r: Option<NamedEdit>| #[trigger]
            call_ensures(set_choice, (path, commands), r) ==> {
                &&& r is Some <==> commands@.len() > 0
                &&& r matches Some(e) ==> e.commands == commands
            },
        forall|r: Option<NamedEdit>| #[trigger]
            call_ensures(set_switch, (path, commands), r) ==> {
                &&& r is Some <==> commands@.len() > 0
                &&& r matches Some(e) ==> e.commands == commands
            },
{
}

/// Setting the paint of a style writes what leads from the one kind to the other, and
/// nothing for the gradient that it has.
pub proof fn law_paint_is_converted(
    style: NodeId,
    current: PaintKind,
    target: PaintKind,
    turned: Handle,
    axis: Handle,
    r: Option<Edit>,
)
    requires
        call_ensures(set_paint, (style, Some(current), target, turned, axis), r),
    ensures
        r is None <==> target is Gradient && current == target,
        r matches Some(e) ==> {
            &&& e.commands@.len() == 1
            &&& target is Solid ==> e.commands@[0] == (EditorCommand::ConvertToSolid { id: style })
            &&& target matches PaintKind::Gradient(kind) ==> {
                &&& current is Solid ==> e.commands@[0] == (EditorCommand::ConvertToGradient {
                    id: style,
                    kind,
                    axis,
                })
                &&& current is Gradient ==> e.commands@[0] == (EditorCommand::SetPaint {
                    id: style,
                    paint: turned,
                })
            }
        },
{
}

/// Dashes and gaps take turns, a pair shares its number, counted from one, and one pair
/// always stays.
pub proof fn law_dashes_come_in_pairs(pair: usize, dashes: usize)
    requires
        2 * pair + 1 <= usize::MAX,
    ensures
        forall|r: String| #[trigger]
            call_ensures(dash_label, ((2 * pair) as usize,), r) ==> r@ == "Dash "@ + decimal(
                (pair + 1) as nat,
            ),
        forall|r: String| #[trigger]
            call_ensures(dash_label, ((2 * pair + 1) as usize,), r) ==> r@ == "Gap "@ + decimal(
                (pair + 1) as nat,
            ),
        forall|r: String| #[trigger]
            call_ensures(dash_path, (dashes,), r) ==> r@ == "stroke.dash."@ + decimal(
                dashes as nat,
            ),
        forall|r: bool| #[trigger]
            call_ensures(can_remove_dash_pair, (dashes,), r) ==> (r <==> dashes >= 3),
{
    assert((2 * pair) / 2 == pair && (2 * pair) % 2 == 0);
    assert((2 * pair + 1) / 2 == pair && (2 * pair + 1) % 2 == 1);
}

/// The duration is how many frames the range spans, none where it runs backward.
pub proof fn law_durations_span_the_range(range: (i64, i64), r: String)
    requires
        call_ensures(duration_line, (range,), r),
    ensures
        range.0 <= range.1 ==> r@ == decimal((range.1 - range.0) as nat) + " frames"@,
        range.1 < range.0 ==> r@ == decimal(0) + " frames"@,
{
}

} // verus!
