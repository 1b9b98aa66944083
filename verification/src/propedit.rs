//! The edits that the properties panel offers. Texts that spell decimal numbers
//! with a fraction are read by the host, which hands over the number of the value,
//! or nothing where the text spells none.
use vstd::prelude::*;
use vstd::string::StringExecFns;

use crate::commands::{BlendMode, Edit, EditorCommand, GradientKind};
use crate::model::{CompId, Document, Handle, NodeId, NodeKind, ShapeKind, StyleKind};
use crate::strings::{
    append_decimal, decimal, joined, number, parse_i64, parse_u32, same_text, trim, trimmed,
};

verus! {

/// A new name, and the step that gives it.
#[derive(Debug)]
pub struct NameEdit {
    pub label: &'static str,
    pub id: u64,
    pub name: String,
}

/// The name that a text gives: without its margins, and only where something is
/// left.
pub open spec fn given_name(text: Seq<char>) -> Option<Seq<char>> {
    if trimmed(text).len() == 0 {
        None
    } else {
        Some(trimmed(text))
    }
}

/// The title of a composition's properties.
pub fn composition_title(name: &str) -> (r: String)
    ensures
        r@ == "Composition · "@ + name@,
{
    joined("Composition · ", name)
}

/// The edit that names a composition.
pub fn set_composition_name(comp: CompId, text: &str) -> (r: Option<NameEdit>)
    ensures
        match given_name(text@) {
            Some(n) => r matches Some(e) && e.label == "Set composition name" && e.id == comp
                && e.name@ == n,
            None => r is None,
        },
{
    let name = trim(text);
    if name.is_empty() {
        return None;
    }
    Some(NameEdit { label: "Set composition name", id: comp, name: name.to_owned() })
}

/// The edit that names a node, unless the node is locked or gone.
pub fn set_node_name(doc: &Document, id: NodeId, text: &str) -> (r: Option<NameEdit>)
    ensures
        match given_name(text@) {
            Some(n) if doc.has(id) && !doc.node(id).locked => r matches Some(e) && e.label
                == "Rename" && e.id == id && e.name@ == n,
            _ => r is None,
        },
{
    let name = trim(text);
    if name.is_empty() {
        return None;
    }
    let locked = match doc.get(id) {
        Some(n) => n.locked,
        None => true,
    };
    if locked {
        return None;
    }
    Some(NameEdit { label: "Rename", id, name: name.to_owned() })
}

/// The number that a text spells, if it is not negative and fits.
pub open spec fn spelled_u32(text: Seq<char>) -> Option<u32> {
    match number(trimmed(text), false) {
        Some(n) if n <= u32::MAX => Some(n as u32),
        _ => None,
    }
}

/// The number that a text spells, if it fits.
pub open spec fn spelled_i64(text: Seq<char>) -> Option<i64> {
    match number(trimmed(text), true) {
        Some(n) if i64::MIN <= n <= i64::MAX => Some(n as i64),
        _ => None,
    }
}

fn read_u32(text: &str) -> (r: Option<u32>)
    ensures
        r == spelled_u32(text@),
{
    parse_u32(trim(text))
}

fn read_i64(text: &str) -> (r: Option<i64>)
    ensures
        r == spelled_i64(text@),
{
    parse_i64(trim(text))
}

pub open spec fn positive(n: u32) -> u32 {
    if n == 0 {
        1
    } else {
        n
    }
}

fn at_least_one(n: u32) -> (r: u32)
    ensures
        r == positive(n),
{
    if n == 0 {
        1
    } else {
        n
    }
}

/// One side of a composition.
#[derive(Clone, Copy, Debug, PartialEq, Eq, Structural)]
pub enum Side {
    Width,
    Height,
}

/// The edit that sets one side of a composition; neither side goes below one.
pub fn set_composition_side(comp: CompId, size: (u32, u32), side: Side, text: &str) -> (r: Option<
    Edit,
>)
    ensures
        match spelled_u32(text@) {
            Some(n) => r matches Some(e) && e.carries(
                "Set composition size",
                seq![
                    EditorCommand::SetCompositionSize {
                        comp,
                        width: positive(
                            if side == Side::Width {
                                n
                            } else {
                                size.0
                            },
                        ),
                        height: positive(
                            if side == Side::Width {
                                size.1
                            } else {
                                n
                            },
                        ),
                    },
                ],
            ),
            None => r is None,
        },
{
    let n = match read_u32(text) {
        Some(n) => n,
        None => {
            return None;
        },
    };
    let (width, height) = match side {
        Side::Width => (n, size.1),
        Side::Height => (size.0, n),
    };
    Some(
        Edit::single(
            "Set composition size",
            EditorCommand::SetCompositionSize {
                comp,
                width: at_least_one(width),
                height: at_least_one(height),
            },
        ),
    )
}

/// The edit that sets a composition's frame rate, in whole frames of at least one.
pub fn set_composition_rate(comp: CompId, text: &str) -> (r: Option<Edit>)
    ensures
        match spelled_u32(text@) {
            Some(n) => r matches Some(e) && e.carries(
                "Set frame rate",
                seq![EditorCommand::SetCompositionRate { comp, rate: positive(n) }],
            ),
            None => r is None,
        },
{
    match read_u32(text) {
        Some(n) => Some(
            Edit::single(
                "Set frame rate",
                EditorCommand::SetCompositionRate { comp, rate: at_least_one(n) },
            ),
        ),
        None => None,
    }
}

/// One end of a range.
#[derive(Clone, Copy, Debug, PartialEq, Eq, Structural)]
pub enum RangeEnd {
    In,
    Out,
}

/// The edit that sets one end of a composition's range.
pub fn set_composition_end(comp: CompId, end: RangeEnd, text: &str) -> (r: Option<Edit>)
    ensures
        match spelled_i64(text@) {
            Some(n) => r matches Some(e) && e.carries(
                "Set composition range",
                seq![
                    EditorCommand::SetCompositionRange {
                        comp,
                        start: if end == RangeEnd::In {
                            Some(n)
                        } else {
                            None
                        },
                        end: if end == RangeEnd::In {
                            None
                        } else {
                            Some(n)
                        },
                    },
                ],
            ),
            None => r is None,
        },
{
    let n = match read_i64(text) {
        Some(n) => n,
        None => {
            return None;
        },
    };
    let (start, stop) = match end {
        RangeEnd::In => (Some(n), None),
        RangeEnd::Out => (None, Some(n)),
    };
    Some(
        Edit::single(
            "Set composition range",
            EditorCommand::SetCompositionRange { comp, start, end: stop },
        ),
    )
}

/// How long a range is, never below nothing.
pub open spec fn duration(range: (i64, i64)) -> int {
    if range.1 < range.0 {
        0
    } else {
        range.1 - range.0
    }
}

/// The line below a composition's range.
pub fn duration_line(range: (i64, i64)) -> (r: String)
    ensures
        r@ == decimal(duration(range) as nat) + " frames"@,
{
    let frames: u128 = if range.1 < range.0 {
        0
    } else {
        (range.1 as i128 - range.0 as i128) as u128
    };
    let mut out = "".to_owned();
    proof {
        reveal_strlit("");
    }
    append_decimal(&mut out, frames);
    assert(out@ =~= decimal(duration(range) as nat));
    out.append(" frames");
    out
}

/// The edit that sets one end of a layer.
pub fn set_layer_end(id: NodeId, end: RangeEnd, text: &str) -> (r: Option<Edit>)
    ensures
        match spelled_i64(text@) {
            Some(n) => r matches Some(e) && e.carries(
                if end == RangeEnd::In {
                    "Set layer in"
                } else {
                    "Set layer out"
                },
                seq![
                    EditorCommand::SetLayerProps {
                        id,
                        in_frame: if end == RangeEnd::In {
                            Some(n)
                        } else {
                            None
                        },
                        out_frame: if end == RangeEnd::In {
                            None
                        } else {
                            Some(n)
                        },
                        stretch: None,
                        blend: None,
                    },
                ],
            ),
            None => r is None,
        },
{
    let n = match read_i64(text) {
        Some(n) => n,
        None => {
            return None;
        },
    };
    match end {
        RangeEnd::In => Some(
            Edit::single(
                "Set layer in",
                EditorCommand::SetLayerProps {
                    id,
                    in_frame: Some(n),
                    out_frame: None,
                    stretch: None,
                    blend: None,
                },
            ),
        ),
        RangeEnd::Out => Some(
            Edit::single(
                "Set layer out",
                EditorCommand::SetLayerProps {
                    id,
                    in_frame: None,
                    out_frame: Some(n),
                    stretch: None,
                    blend: None,
                },
            ),
        ),
    }
}

/// The edit that stretches a layer in time, by the number that was typed, if any.
pub fn set_layer_stretch(id: NodeId, stretch: Option<Handle>) -> (r: Option<Edit>)
    ensures
        match stretch {
            Some(v) => r matches Some(e) && e.carries(
                "Set layer stretch",
                seq![
                    EditorCommand::SetLayerProps {
                        id,
                        in_frame: None,
                        out_frame: None,
                        stretch: Some(v),
                        blend: None,
                    },
                ],
            ),
            None => r is None,
        },
{
    match stretch {
        Some(v) => Some(
            Edit::single(
                "Set layer stretch",
                EditorCommand::SetLayerProps {
                    id,
                    in_frame: None,
                    out_frame: None,
                    stretch: Some(v),
                    blend: None,
                },
            ),
        ),
        None => None,
    }
}

/// The place of a blend mode among the chips.
pub open spec fn blend_place(blend: BlendMode) -> usize {
    match blend {
        BlendMode::Normal => 0,
        BlendMode::Multiply => 1,
        BlendMode::Screen => 2,
        BlendMode::Overlay => 3,
        BlendMode::Darken => 4,
        BlendMode::Lighten => 5,
        BlendMode::ColorDodge => 6,
        BlendMode::ColorBurn => 7,
        BlendMode::HardLight => 8,
        BlendMode::SoftLight => 9,
        BlendMode::Difference => 10,
        BlendMode::Exclusion => 11,
        BlendMode::Hue => 12,
        BlendMode::Saturation => 13,
        BlendMode::Color => 14,
        BlendMode::Luminosity => 15,
    }
}

/// The blend mode at a place among the chips; places beyond them mean the normal
/// one.
pub open spec fn blend_at(index: usize) -> BlendMode {
    match index {
        1 => BlendMode::Multiply,
        2 => BlendMode::Screen,
        3 => BlendMode::Overlay,
        4 => BlendMode::Darken,
        5 => BlendMode::Lighten,
        6 => BlendMode::ColorDodge,
        7 => BlendMode::ColorBurn,
        8 => BlendMode::HardLight,
        9 => BlendMode::SoftLight,
        10 => BlendMode::Difference,
        11 => BlendMode::Exclusion,
        12 => BlendMode::Hue,
        13 => BlendMode::Saturation,
        14 => BlendMode::Color,
        15 => BlendMode::Luminosity,
        _ => BlendMode::Normal,
    }
}

/// The place of a blend mode among the chips.
pub fn blend_index(blend: BlendMode) -> (r: usize)
    ensures
        r == blend_place(blend),
        r < 16,
{
    match blend {
        BlendMode::Normal => 0,
        BlendMode::Multiply => 1,
        BlendMode::Screen => 2,
        BlendMode::Overlay => 3,
        BlendMode::Darken => 4,
        BlendMode::Lighten => 5,
        BlendMode::ColorDodge => 6,
        BlendMode::ColorBurn => 7,
        BlendMode::HardLight => 8,
        BlendMode::SoftLight => 9,
        BlendMode::Difference => 10,
        BlendMode::Exclusion => 11,
        BlendMode::Hue => 12,
        BlendMode::Saturation => 13,
        BlendMode::Color => 14,
        BlendMode::Luminosity => 15,
    }
}

fn blend_of(index: usize) -> (r: BlendMode)
    ensures
        r == blend_at(index),
{
    match index {
        1 => BlendMode::Multiply,
        2 => BlendMode::Screen,
        3 => BlendMode::Overlay,
        4 => BlendMode::Darken,
        5 => BlendMode::Lighten,
        6 => BlendMode::ColorDodge,
        7 => BlendMode::ColorBurn,
        8 => BlendMode::HardLight,
        9 => BlendMode::SoftLight,
        10 => BlendMode::Difference,
        11 => BlendMode::Exclusion,
        12 => BlendMode::Hue,
        13 => BlendMode::Saturation,
        14 => BlendMode::Color,
        15 => BlendMode::Luminosity,
        _ => BlendMode::Normal,
    }
}

/// What a blend mode is called on its chip.
pub fn blend_label(blend: BlendMode) -> (r: &'static str)
    ensures
        r == (match blend {
            BlendMode::Normal => "Normal",
            BlendMode::Multiply => "Multiply",
            BlendMode::Screen => "Screen",
            BlendMode::Overlay => "Overlay",
            BlendMode::Darken => "Darken",
            BlendMode::Lighten => "Lighten",
            BlendMode::ColorDodge => "ColorDodge",
            BlendMode::ColorBurn => "ColorBurn",
            BlendMode::HardLight => "HardLight",
            BlendMode::SoftLight => "SoftLight",
            BlendMode::Difference => "Difference",
            BlendMode::Exclusion => "Exclusion",
            BlendMode::Hue => "Hue",
            BlendMode::Saturation => "Saturation",
            BlendMode::Color => "Color",
            BlendMode::Luminosity => "Luminosity",
        }),
{
    match blend {
        BlendMode::Normal => "Normal",
        BlendMode::Multiply => "Multiply",
        BlendMode::Screen => "Screen",
        BlendMode::Overlay => "Overlay",
        BlendMode::Darken => "Darken",
        BlendMode::Lighten => "Lighten",
        BlendMode::ColorDodge => "ColorDodge",
        BlendMode::ColorBurn => "ColorBurn",
        BlendMode::HardLight => "HardLight",
        BlendMode::SoftLight => "SoftLight",
        BlendMode::Difference => "Difference",
        BlendMode::Exclusion => "Exclusion",
        BlendMode::Hue => "Hue",
        BlendMode::Saturation => "Saturation",
        BlendMode::Color => "Color",
        BlendMode::Luminosity => "Luminosity",
    }
}

/// The edit behind a blend chip.
pub fn set_blend(id: NodeId, index: usize) -> (r: Edit)
    ensures
        r.carries(
            "Set blend",
            seq![
                EditorCommand::SetLayerProps {
                    id,
                    in_frame: None,
                    out_frame: None,
                    stretch: None,
                    blend: Some(blend_at(index)),
                },
            ],
        ),
{
    Edit::single(
        "Set blend",
        EditorCommand::SetLayerProps {
            id,
            in_frame: None,
            out_frame: None,
            stretch: None,
            blend: Some(blend_of(index)),
        },
    )
}

/// The chip that is shown as active is the one that would set the mode again, and
/// each of the sixteen chips sets a mode of its own.
pub proof fn law_blend_chips_match_modes(blend: BlendMode, index: usize)
    ensures
        blend_at(blend_place(blend)) == blend,
        index < 16 ==> blend_place(blend_at(index)) == index,
{
}

/// The edit that moves a precomposition in time.
pub fn set_precomp_offset(id: NodeId, text: &str) -> (r: Option<Edit>)
    ensures
        match spelled_i64(text@) {
            Some(n) => r matches Some(e) && e.carries(
                "Set precomp offset",
                seq![EditorCommand::SetPrecompTimeMap { id, offset: Some(n), stretch: None }],
            ),
            None => r is None,
        },
{
    match read_i64(text) {
        Some(n) => Some(
            Edit::single(
                "Set precomp offset",
                EditorCommand::SetPrecompTimeMap { id, offset: Some(n), stretch: None },
            ),
        ),
        None => None,
    }
}

/// The edit that stretches a precomposition in time, by the number that was typed,
/// if any.
pub fn set_precomp_stretch(id: NodeId, stretch: Option<Handle>) -> (r: Option<Edit>)
    ensures
        match stretch {
            Some(v) => r matches Some(e) && e.carries(
                "Set precomp stretch",
                seq![EditorCommand::SetPrecompTimeMap { id, offset: None, stretch: Some(v) }],
            ),
            None => r is None,
        },
{
    match stretch {
        Some(v) => Some(
            Edit::single(
                "Set precomp stretch",
                EditorCommand::SetPrecompTimeMap { id, offset: None, stretch: Some(v) },
            ),
        ),
        None => None,
    }
}

/// The edit behind a source chip, unless it is the source already.
pub fn set_precomp_source(id: NodeId, current: CompId, comp: CompId) -> (r: Option<Edit>)
    ensures
        r is Some == (comp != current),
        r matches Some(e) ==> e.carries(
            "Set precomp source",
            seq![EditorCommand::SetPrecompComp { id, comp }],
        ),
{
    if comp == current {
        return None;
    }
    Some(Edit::single("Set precomp source", EditorCommand::SetPrecompComp { id, comp }))
}

/// The edit that crops an image: `crop` is the image's crop with the typed number
/// in its place, if one was typed. Nothing where the node is no image any more.
pub fn set_image_crop(doc: &Document, id: NodeId, crop: Option<Handle>) -> (r: Option<Edit>)
    ensures
        match crop {
            Some(c) if doc.has(id) && doc.node(id).kind == NodeKind::Image => r matches Some(e)
                && e.carries("Set image crop", seq![EditorCommand::SetImageCrop { id, crop: c }]),
            _ => r is None,
        },
{
    let is_image = match doc.get(id) {
        Some(n) => n.kind == NodeKind::Image,
        None => false,
    };
    if !is_image {
        return None;
    }
    match crop {
        Some(c) => Some(
            Edit::single("Set image crop", EditorCommand::SetImageCrop { id, crop: c }),
        ),
        None => None,
    }
}

/// The size of an image, in words.
pub fn dimensions_line(width: u32, height: u32) -> (r: String)
    ensures
        r@ == decimal(width as nat) + "×"@ + decimal(height as nat) + " px"@,
{
    let mut out = "".to_owned();
    proof {
        reveal_strlit("");
    }
    append_decimal(&mut out, width as u128);
    assert(out@ =~= decimal(width as nat));
    out.append("×");
    append_decimal(&mut out, height as u128);
    out.append(" px");
    out
}

/// The edit that replaces a text's content.
pub fn set_text(id: NodeId, text: Handle) -> (r: Edit)
    ensures
        r.carries("Edit text", seq![EditorCommand::SetTextContent { id, text }]),
{
    Edit::single("Edit text", EditorCommand::SetTextContent { id, text })
}

/// The edit behind a font chip; nothing stands for the default font.
pub fn set_font(id: NodeId, font: Option<Handle>) -> (r: Edit)
    ensures
        r.carries("Change font", seq![EditorCommand::SetTextFont { id, font }]),
{
    Edit::single("Change font", EditorCommand::SetTextFont { id, font })
}

/// Which font chips are active: the one for the default, then one for each family.
pub fn font_chips(families: &Vec<String>, font: Option<&str>) -> (r: Vec<bool>)
    ensures
        r@.len() == families@.len() + 1,
        r@[0] == (font is None),
        forall|i: int|
            0 <= i < families@.len() ==> #[trigger] r@[i + 1] == (font matches Some(f) && f@
                == families@[i]@),
{
    let mut out: Vec<bool> = Vec::new();
    out.push(font.is_none());
    let mut i: usize = 0;
    while i < families.len()
        invariant
            i <= families@.len(),
            out@.len() == i + 1,
            out@[0] == (font is None),
            forall|j: int|
                0 <= j < i ==> #[trigger] out@[j + 1] == (font matches Some(f) && f@
                    == families@[j]@),
        decreases families.len() - i,
    {
        out.push(
            match font {
                Some(f) => same_text(f, &families[i]),
                None => false,
            },
        );
        i = i + 1;
    }
    out
}

/// What a style chip does.
#[derive(Clone, Copy, Debug, PartialEq, Eq, Structural)]
pub struct StyleAction {
    pub kind: StyleKind,
    pub remove: bool,
}

/// What a style chip is called, and its step.
pub open spec fn style_action_text(action: StyleAction) -> &'static str {
    match (action.remove, action.kind) {
        (false, StyleKind::Fill) => "Add fill",
        (false, StyleKind::Stroke) => "Add stroke",
        (true, StyleKind::Fill) => "Remove fill",
        (true, StyleKind::Stroke) => "Remove stroke",
    }
}

/// What a style chip is called.
pub fn style_action_label(action: StyleAction) -> (r: &'static str)
    ensures
        r == style_action_text(action),
{
    match (action.remove, action.kind) {
        (false, StyleKind::Fill) => "Add fill",
        (false, StyleKind::Stroke) => "Add stroke",
        (true, StyleKind::Fill) => "Remove fill",
        (true, StyleKind::Stroke) => "Remove stroke",
    }
}

/// The edit of one command that the host could build, or nothing.
pub fn optional_edit(label: &'static str, command: Option<EditorCommand>) -> (r: Option<Edit>)
    ensures
        match command {
            Some(c) => r matches Some(e) && e.carries(label, seq![c]),
            None => r is None,
        },
{
    match command {
        Some(c) => Some(Edit::single(label, c)),
        None => None,
    }
}

/// The edit behind a style chip.
pub fn style_action(action: StyleAction, command: Option<EditorCommand>) -> (r: Option<Edit>)
    ensures
        match command {
            Some(c) => r matches Some(e) && e.carries(style_action_text(action), seq![c]),
            None => r is None,
        },
{
    optional_edit(style_action_label(action), command)
}

/// The style chips of a shape: each style is offered for removal where the shape
/// has it, else for addition.
pub fn style_actions(has_fill: bool, has_stroke: bool) -> (r: (StyleAction, StyleAction))
    ensures
        r == (
            StyleAction { kind: StyleKind::Fill, remove: has_fill },
            StyleAction { kind: StyleKind::Stroke, remove: has_stroke },
        ),
{
    (
        StyleAction { kind: StyleKind::Fill, remove: has_fill },
        StyleAction { kind: StyleKind::Stroke, remove: has_stroke },
    )
}

/// A modifier that can be put on a shape.
#[derive(Clone, Copy, Debug, PartialEq, Eq, Structural)]
pub enum ModifierKind {
    TrimPath,
    OffsetPath,
    RoundCorners,
    Repeater,
    ZigZag,
    PuckerBloat,
}

/// The modifiers offered for a shape: only rectangles and paths have corners to
/// round.
pub open spec fn modifiers_for(shape: ShapeKind) -> Seq<ModifierKind> {
    if shape == ShapeKind::Rect || shape == ShapeKind::Path {
        seq![
            ModifierKind::TrimPath,
            ModifierKind::OffsetPath,
            ModifierKind::RoundCorners,
            ModifierKind::Repeater,
            ModifierKind::ZigZag,
            ModifierKind::PuckerBloat,
        ]
    } else {
        seq![
            ModifierKind::TrimPath,
            ModifierKind::OffsetPath,
            ModifierKind::Repeater,
            ModifierKind::ZigZag,
            ModifierKind::PuckerBloat,
        ]
    }
}

/// The modifiers offered for a shape.
pub fn modifier_chips(shape: ShapeKind) -> (r: Vec<ModifierKind>)
    ensures
        r@ == modifiers_for(shape),
{
    let mut out: Vec<ModifierKind> = Vec::new();
    out.push(ModifierKind::TrimPath);
    out.push(ModifierKind::OffsetPath);
    if shape == ShapeKind::Rect || shape == ShapeKind::Path {
        out.push(ModifierKind::RoundCorners);
    }
    out.push(ModifierKind::Repeater);
    out.push(ModifierKind::ZigZag);
    out.push(ModifierKind::PuckerBloat);
    assert(out@ =~= modifiers_for(shape));
    out
}

/// What a modifier is called on its chip.
pub fn modifier_label(kind: ModifierKind) -> (r: &'static str)
    ensures
        r == (match kind {
            ModifierKind::TrimPath => "Trim Path",
            ModifierKind::OffsetPath => "Offset Path",
            ModifierKind::RoundCorners => "Round Corners",
            ModifierKind::Repeater => "Repeater",
            ModifierKind::ZigZag => "Zig Zag",
            ModifierKind::PuckerBloat => "Pucker & Bloat",
        }),
{
    match kind {
        ModifierKind::TrimPath => "Trim Path",
        ModifierKind::OffsetPath => "Offset Path",
        ModifierKind::RoundCorners => "Round Corners",
        ModifierKind::Repeater => "Repeater",
        ModifierKind::ZigZag => "Zig Zag",
        ModifierKind::PuckerBloat => "Pucker & Bloat",
    }
}

/// The step that puts a modifier on a shape.
pub open spec fn modifier_step(kind: ModifierKind) -> &'static str {
    match kind {
        ModifierKind::TrimPath => "Add Trim Path",
        ModifierKind::OffsetPath => "Add Offset Path",
        ModifierKind::RoundCorners => "Add Round Corners",
        ModifierKind::Repeater => "Add Repeater",
        ModifierKind::ZigZag => "Add Zig Zag",
        ModifierKind::PuckerBloat => "Add Pucker & Bloat",
    }
}

/// The edit behind a modifier chip, where the host could build its command.
pub fn add_modifier(kind: ModifierKind, command: Option<EditorCommand>) -> (r: Option<Edit>)
    ensures
        match command {
            Some(c) => r matches Some(e) && e.carries(modifier_step(kind), seq![c]),
            None => r is None,
        },
{
    let label = match kind {
        ModifierKind::TrimPath => "Add Trim Path",
        ModifierKind::OffsetPath => "Add Offset Path",
        ModifierKind::RoundCorners => "Add Round Corners",
        ModifierKind::Repeater => "Add Repeater",
        ModifierKind::ZigZag => "Add Zig Zag",
        ModifierKind::PuckerBloat => "Add Pucker & Bloat",
    };
    optional_edit(label, command)
}

/// One undo step with a name of its own.
#[derive(Debug)]
pub struct NamedEdit {
    pub label: String,
    pub commands: Vec<EditorCommand>,
}

/// The edit behind a segment of a choice: it sets the property of every node that
/// has it, if any has.
pub fn set_choice(path: &str, commands: Vec<EditorCommand>) -> (r: Option<NamedEdit>)
    ensures
        r is Some == (commands@.len() > 0),
        r matches Some(e) ==> e.label@ == "Set "@ + path@ && e.commands == commands,
{
    if commands.len() == 0 {
        return None;
    }
    Some(NamedEdit { label: joined("Set ", path), commands })
}

/// The edit behind a segment of a switch.
pub fn set_switch(row_label: &str, commands: Vec<EditorCommand>) -> (r: Option<NamedEdit>)
    ensures
        r is Some == (commands@.len() > 0),
        r matches Some(e) ==> e.label@ == "Toggle "@ + row_label@ && e.commands == commands,
{
    if commands.len() == 0 {
        return None;
    }
    Some(NamedEdit { label: joined("Toggle ", row_label), commands })
}

/// What the sides of a switch are called.
pub open spec fn switch_text(path: Seq<char>, value: bool) -> &'static str {
    if path == "mask.inverted"@ {
        if value {
            "Inverted"
        } else {
            "Normal"
        }
    } else if path == "zigzag.smooth"@ {
        if value {
            "Smooth"
        } else {
            "Corner"
        }
    } else {
        if value {
            "On"
        } else {
            "Off"
        }
    }
}

/// What the sides of a switch are called.
pub fn switch_label(path: &str, value: bool) -> (r: &'static str)
    ensures
        r == switch_text(path@, value),
{
    if same_text(path, "mask.inverted") {
        if value {
            "Inverted"
        } else {
            "Normal"
        }
    } else if same_text(path, "zigzag.smooth") {
        if value {
            "Smooth"
        } else {
            "Corner"
        }
    } else {
        if value {
            "On"
        } else {
            "Off"
        }
    }
}

/// A paint, as far as the panel tells paints apart.
#[derive(Clone, Copy, Debug, PartialEq, Eq, Structural)]
pub enum PaintKind {
    Solid,
    Gradient(GradientKind),
}

/// The command behind a paint segment. A gradient keeps its stops and axis when it
/// changes its kind (`turned`), and a new one runs along `axis`.
pub open spec fn paint_command(
    style: NodeId,
    current: PaintKind,
    target: PaintKind,
    turned: Handle,
    axis: Handle,
) -> Option<EditorCommand> {
    match (target, current) {
        (PaintKind::Solid, _) => Some(EditorCommand::ConvertToSolid { id: style }),
        (PaintKind::Gradient(k), PaintKind::Gradient(c)) => if k == c {
            None
        } else {
            Some(EditorCommand::SetPaint { id: style, paint: turned })
        },
        (PaintKind::Gradient(k), PaintKind::Solid) => Some(
            EditorCommand::ConvertToGradient { id: style, kind: k, axis },
        ),
    }
}

/// The edit behind a paint segment. `current` is absent where the node is no style
/// any more.
pub fn set_paint(
    style: NodeId,
    current: Option<PaintKind>,
    target: PaintKind,
    turned: Handle,
    axis: Handle,
) -> (r: Option<Edit>)
    ensures
        match current {
            None => r is None,
            Some(p) => match paint_command(style, p, target, turned, axis) {
                Some(c) => r matches Some(e) && e.carries("Paint", seq![c]),
                None => r is None,
            },
        },
{
    let paint = match current {
        Some(p) => p,
        None => {
            return None;
        },
    };
    let command = match (target, paint) {
        (PaintKind::Solid, _) => EditorCommand::ConvertToSolid { id: style },
        (PaintKind::Gradient(k), PaintKind::Gradient(c)) => {
            if k == c {
                return None;
            }
            EditorCommand::SetPaint { id: style, paint: turned }
        },
        (PaintKind::Gradient(k), PaintKind::Solid) => EditorCommand::ConvertToGradient {
            id: style,
            kind: k,
            axis,
        },
    };
    Some(Edit::single("Paint", command))
}

/// What the ends of a gradient's axis are called.
pub fn axis_labels(kind: GradientKind) -> (r: (&'static str, &'static str))
    ensures
        r == (match kind {
            GradientKind::Linear => ("Start", "End"),
            GradientKind::Radial => ("Center", "Edge"),
        }),
{
    match kind {
        GradientKind::Linear => ("Start", "End"),
        GradientKind::Radial => ("Center", "Edge"),
    }
}

/// What a dash row is called: dashes and gaps take turns, and each pair has a
/// number.
pub open spec fn dash_text(index: nat) -> Seq<char> {
    (if index % 2 == 0 {
        "Dash "@
    } else {
        "Gap "@
    }) + decimal(index / 2 + 1)
}

/// What a dash row is called.
pub fn dash_label(index: usize) -> (r: String)
    ensures
        r@ == dash_text(index as nat),
{
    let mut out = if index % 2 == 0 {
        "Dash ".to_owned()
    } else {
        "Gap ".to_owned()
    };
    append_decimal(&mut out, index as u128 / 2 + 1);
    out
}

/// The property of a dash row.
pub fn dash_path(index: usize) -> (r: String)
    ensures
        r@ == "stroke.dash."@ + decimal(index as nat),
{
    let mut out = "stroke.dash.".to_owned();
    append_decimal(&mut out, index as u128);
    out
}

/// Whether the last dash and gap can go: the first pair stays.
pub fn can_remove_dash_pair(dashes: usize) -> (r: bool)
    ensures
        r == (dashes > 2),
{
    dashes > 2
}

/// A change to a stroke's dashes.
#[derive(Clone, Copy, Debug, PartialEq, Eq, Structural)]
pub enum DashChange {
    Enable,
    AddPair,
    RemovePair,
    Disable,
}

/// The edit of a change to a stroke's dashes, where the host could build its
/// command.
pub fn change_dashes(change: DashChange, command: Option<EditorCommand>) -> (r: Option<Edit>)
    ensures
        match command {
            Some(c) => r matches Some(e) && e.carries(
                (match change {
                    DashChange::Enable => "Enable dashes",
                    DashChange::AddPair => "Add dash pair",
                    DashChange::RemovePair => "Remove dash pair",
                    DashChange::Disable => "Disable dashes",
                }),
                seq![c],
            ),
            None => r is None,
        },
{
    let label = match change {
        DashChange::Enable => "Enable dashes",
        DashChange::AddPair => "Add dash pair",
        DashChange::RemovePair => "Remove dash pair",
        DashChange::Disable => "Disable dashes",
    };
    optional_edit(label, command)
}

} // verus!
