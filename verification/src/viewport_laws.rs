//! What the pointer, the keys and the overlays of the viewport do.
use vstd::prelude::*;

use crate::commands::ToolId;
use crate::exports::clamp_export_size;
use crate::graph::PointerButton;
use crate::model::NodeId;
use crate::session::{EditorMode, GraphPoint, Session};
use crate::tree_laws::lemma_contains_add;
use crate::viewport::{
    checker_size, handle_marks, key_consumed, launcher_cols, launcher_tile_cols, overlay_marks,
    path_marks, stage_key, tile_is_light, AnchorTangents, CanvasContext, CanvasKey, KeyAction, Mark,
    PressRoute, Snap, StageKey, ToolOverlay, ViewportState,
};

verus! {

/// A press goes to the menu, to a pan or to the tool by its button; a pan goes on from
/// where the pointer was last and ends when it is let go.
pub proof fn law_presses_pan_or_draw(v: ViewportState, button: PointerButton, p: GraphPoint)
    ensures
        forall|s: &mut ViewportState, r: PressRoute|
            *s == v && #[trigger] call_ensures(ViewportState::pointer_pressed, (s, button, p), r)
                ==> {
                &&& r is Menu <==> button is Secondary
                &&& r is Pan <==> button is Tertiary || (button is Primary && v.space_held)
                &&& r is Tool <==> button is Primary && !v.space_held
                &&& r is Pan ==> (*final(s)).pan_last == Some(p)
                &&& !(r is Pan) ==> (*final(s)).pan_last == v.pan_last
                &&& (*final(s)).last_pointer == p
                &&& (*final(s)).show_grid == v.show_grid && (*final(s)).guides == v.guides
            },
        forall|
            s: &mut ViewportState,
            t: &mut ViewportState,
            u: &mut ViewportState,
            w: &mut ViewportState,
            x: GraphPoint,
            y: GraphPoint,
            first: Option<GraphPoint>,
            second: Option<GraphPoint>,
            panned: bool,
        |
            *s == v && *t == *final(s) && *u == *final(t) && *w == *final(u)
                && #[trigger] call_ensures(ViewportState::begin_pan, (s, p), ())
                && #[trigger] call_ensures(ViewportState::pointer_moved, (t, x), first)
                && #[trigger] call_ensures(ViewportState::pointer_moved, (u, y), second)
                && #[trigger] call_ensures(ViewportState::pointer_released, (w,), panned) ==> {
                &&& first == Some(p) && second == Some(x) && panned
                &&& (*final(w)).pan_last is None
                &&& (*final(w)).last_pointer == y
            },
        forall|s: &mut ViewportState, x: GraphPoint, r: Option<GraphPoint>|
            *s == v && #[trigger] call_ensures(ViewportState::pointer_moved, (s, x), r) ==> r
                == v.pan_last && ((*final(s)).pan_last is Some <==> v.pan_last is Some),
        forall|s: &mut ViewportState, x: GraphPoint, r: Option<GraphPoint>|
            *s == v && #[trigger] call_ensures(ViewportState::update_pan, (s, x), r) ==> {
                &&& r == v.pan_last
                &&& v.pan_last is Some ==> (*final(s)).pan_last == Some(x)
                &&& v.pan_last is None ==> *final(s) == v
            },
        forall|s: &mut ViewportState, r: bool|
            *s == v && #[trigger] call_ensures(ViewportState::pointer_released, (s,), r) ==> (r
                <==> v.pan_last is Some) && (*final(s)).pan_last is None,
        forall|s: &mut ViewportState|
            *s == v && #[trigger] call_ensures(ViewportState::end_pan, (s,), ())
                ==> (*final(s)).pan_last is None,
        forall|r: bool| #[trigger]
            call_ensures(ViewportState::is_panning, (&v,), r) ==> (r <==> v.pan_last is Some),
        forall|r: bool| #[trigger]
            call_ensures(ViewportState::may_fit, (&v,), r) ==> (r <==> v.pan_last is None),
        forall|s: &mut ViewportState|
            *s == v && #[trigger] call_ensures(ViewportState::request_fit, (s,), ())
                ==> (*final(s)).fit_pending && (*final(s)).pan_last == v.pan_last,
        forall|s: &mut ViewportState|
            *s == v && #[trigger] call_ensures(ViewportState::file_replaced, (s,), ())
                ==> (*final(s)).fit_pending && (*final(s)).pan_last is None
                && (*final(s)).show_grid == v.show_grid
                && (*final(s)).guides == v.guides && (*final(s)).snapping_enabled
                == v.snapping_enabled,
{
}

/// Snapping is off altogether or goes to the anchors, and to the grid and the guides
/// where they are shown.
pub proof fn law_snapping_goes_to_what_is_shown(v: ViewportState, a: Session, r: Snap)
    requires
        call_ensures(ViewportState::snap, (&v,), r),
    ensures
        r.anchor <==> v.snapping_enabled,
        r.grid <==> v.show_grid && v.snapping_enabled,
        r.guide <==> v.show_guides && v.snapping_enabled,
        forall|c: CanvasContext| #[trigger]
            call_ensures(Session::dispatch_canvas, (&a, &v), c) ==> {
                &&& c.snap == r
                &&& c.tool == a.active_tool && c.paint == a.current_paint
                &&& c.record <==> a.record && a.mode is Animate
            },
{
}

/// The letter of a key, small and large.
pub open spec fn is_key(c: char, small: u32) -> bool {
    c as u32 == small || c as u32 + 32 == small
}

/// Keys do what stands on them, small or large: editing keys with the command key, tools
/// without, and neither while interacting; a key that is let go does nothing, but for
/// space.
pub proof fn law_keys_do_what_stands_on_them(
    mode: EditorMode,
    c: char,
    down: bool,
    command: bool,
    r: KeyAction,
)
    requires
        call_ensures(stage_key, (mode, StageKey::Character(c), down, command), r),
    ensures
        !down ==> r is Ignored,
        down ==> {
            let editing = !(mode is Interact);
            &&& r is Fit <==> is_key(c, 102)
            &&& r is Duplicate <==> is_key(c, 100) && command
            &&& r is Cut <==> is_key(c, 120) && command && editing
            &&& r is Copy <==> is_key(c, 99) && command && editing
            &&& r is Paste <==> is_key(c, 118) && command && editing
            &&& r == KeyAction::Tool(ToolId::Select) <==> is_key(c, 118) && !command && editing
            &&& r == KeyAction::Tool(ToolId::Pen) <==> is_key(c, 112) && !command && editing
            &&& r == KeyAction::Tool(ToolId::Text) <==> is_key(c, 116) && !command && editing
            &&& r == KeyAction::Tool(ToolId::Rect) <==> is_key(c, 114) && !command && editing
            &&& r == KeyAction::Tool(ToolId::Ellipse) <==> is_key(c, 101) && !command && editing
        },
        forall|used: bool| #[trigger]
            call_ensures(key_consumed, (r,), used) ==> (used <==> !(r is Ignored)),
{
    lemma_key(c, 'f');
    lemma_key(c, 'd');
    lemma_key(c, 'x');
    lemma_key(c, 'c');
    lemma_key(c, 'v');
    lemma_key(c, 'p');
    lemma_key(c, 't');
    lemma_key(c, 'r');
    lemma_key(c, 'e');
}

proof fn lemma_key(c: char, small: char)
    requires
        97 <= small as u32 <= 122,
    ensures
        crate::viewport::is_letter(c, small) <==> is_key(c, small as u32),
{
    let l = crate::strings::lower(c);
    assert(l as u32 == (if 65 <= c as u32 <= 90 {
        (c as u32 + 32) as u32
    } else {
        c as u32
    }));
}

/// Space is held while it is down; the canvas gets its own keys, but not while
/// interacting, where no one else gets them either.
pub proof fn law_canvas_keys_go_to_the_canvas(mode: EditorMode, key: StageKey, down: bool, command: bool, r: KeyAction)
    requires
        call_ensures(stage_key, (mode, key, down, command), r),
    ensures
        key is Space ==> r == KeyAction::HoldSpace(down),
        key is Escape && !(mode is Interact) ==> r == KeyAction::Canvas(CanvasKey::Escape),
        key is Enter && !(mode is Interact) ==> r == KeyAction::Canvas(CanvasKey::Enter),
        key is Delete && !(mode is Interact) ==> r == KeyAction::Canvas(CanvasKey::Delete),
        key is Backspace && !(mode is Interact) ==> r == KeyAction::Canvas(CanvasKey::Backspace),
        (key is Escape || key is Enter || key is Delete || key is Backspace) && mode is Interact
            ==> r is Swallowed,
        key is Other ==> r is Ignored,
{
}

/// A menu on the canvas is about what lies below it: that is selected, alone unless it
/// was selected before; on nothing the selection is cleared, but for Shift.
pub proof fn law_menus_select_what_lies_below(a: Session, id: NodeId, shift: bool)
    ensures
        forall|s: &mut Session|
            *s == a && #[trigger] call_ensures(Session::select_below, (s, Some(id), shift), ())
                ==> {
                &&& (*final(s)).selection@.contains(id)
                &&& a.selection@.contains(id) ==> (*final(s)).selection@ == a.selection@
                &&& !a.selection@.contains(id) ==> (*final(s)).selection@ == seq![id]
            },
        forall|s: &mut Session|
            *s == a && #[trigger] call_ensures(
                Session::select_below,
                (s, None::<NodeId>, shift),
                (),
            ) ==> {
                &&& shift ==> (*final(s)).selection@ == a.selection@
                &&& !shift ==> (*final(s)).selection@.len() == 0
            },
{
    assert(seq![id][0] == id);
}

/// As many columns as have room, one at least and four at most.
pub proof fn law_columns_have_room(width: u64, cols: usize, tiles: usize)
    requires
        call_ensures(launcher_cols, (width,), cols),
        call_ensures(launcher_tile_cols, (width,), tiles),
    ensures
        1 <= cols <= 4,
        cols > 1 ==> cols * 272 <= width,
        cols < 4 ==> width < (cols + 1) * 272,
        1 <= tiles <= 4,
        tiles > 1 ==> tiles * 192 <= width,
        tiles < 4 ==> width < (tiles + 1) * 192,
{
}

/// The checkerboard covers the artboard with tiles of thirty-two pixels and no more, and
/// neighbours differ.
pub proof fn law_checkerboard_covers_the_artboard(width: u32, height: u32, r: (u32, u32))
    requires
        call_ensures(checker_size, (width, height), r),
    ensures
        r.0 * 32 >= width,
        width > 0 ==> (r.0 - 1) * 32 < width,
        r.1 * 32 >= height,
        height > 0 ==> (r.1 - 1) * 32 < height,
        forall|x: u32, y: u32, light: bool| #[trigger]
            call_ensures(tile_is_light, (x, y), light) ==> (light <==> x as int % 2 == y as int
                % 2),
{
}

proof fn lemma_handle_marks(i: int, t: AnchorTangents, active: Option<usize>, m: Mark)
    requires
        0 <= i <= usize::MAX,
    ensures
        handle_marks(i, t, active).contains(m) <==> {
            ||| m == Mark::ActiveAnchor(i as usize) && active == Some(i as usize)
            ||| m == Mark::Anchor(i as usize) && active != Some(i as usize)
            ||| m == Mark::TangentIn(i as usize) && t.has_in
            ||| m == Mark::TangentOut(i as usize) && t.has_out
        },
{
    let first = seq![
        if active == Some(i as usize) {
            Mark::ActiveAnchor(i as usize)
        } else {
            Mark::Anchor(i as usize)
        },
    ];
    let second = if t.has_in {
        seq![Mark::TangentIn(i as usize)]
    } else {
        Seq::empty()
    };
    let third = if t.has_out {
        seq![Mark::TangentOut(i as usize)]
    } else {
        Seq::empty()
    };
    lemma_contains_add(first, second, m);
    lemma_contains_add(first + second, third, m);
    assert(first[0] == first[0]);
    assert(first.contains(first[0]));
    if t.has_in {
        assert(second[0] == Mark::TangentIn(i as usize));
    }
    if t.has_out {
        assert(third[0] == Mark::TangentOut(i as usize));
    }
}

proof fn lemma_path_marks(anchors: Seq<AnchorTangents>, active: Option<usize>, m: Mark)
    requires
        anchors.len() <= usize::MAX,
    ensures
        path_marks(anchors, active).contains(m) <==> {
            ||| m matches Mark::ActiveAnchor(k) && k < anchors.len() && active == Some(k)
            ||| m matches Mark::Anchor(k) && k < anchors.len() && active != Some(k)
            ||| m matches Mark::TangentIn(k) && k < anchors.len() && anchors[k as int].has_in
            ||| m matches Mark::TangentOut(k) && k < anchors.len() && anchors[k as int].has_out
        },
    decreases anchors.len(),
{
    if anchors.len() > 0 {
        let front = anchors.drop_last();
        lemma_path_marks(front, active, m);
        lemma_handle_marks(anchors.len() - 1, anchors.last(), active, m);
        lemma_contains_add(
            path_marks(front, active),
            handle_marks(anchors.len() - 1, anchors.last(), active),
            m,
        );
        assert forall|k: int| 0 <= k < front.len() implies #[trigger] front[k] == anchors[k] by {}
    }
}

/// The handles of a path: a mark on every anchor, a full one on the active, and one for
/// every tangent that has a length, and no other.
pub proof fn law_every_anchor_is_marked(
    anchors: Vec<AnchorTangents>,
    active: Option<usize>,
    m: Mark,
    r: Vec<Mark>,
)
    requires
        call_ensures(overlay_marks, (&ToolOverlay::PathHandles { anchors, active },), r),
    ensures
        r@.contains(m) <==> {
            ||| m matches Mark::ActiveAnchor(k) && k < anchors@.len() && active == Some(k)
            ||| m matches Mark::Anchor(k) && k < anchors@.len() && active != Some(k)
            ||| m matches Mark::TangentIn(k) && k < anchors@.len() && anchors@[k as int].has_in
            ||| m matches Mark::TangentOut(k) && k < anchors@.len() && anchors@[k as int].has_out
        },
{
    assert(anchors.len() == anchors@.len());
    lemma_path_marks(anchors@, active, m);
}

/// The other overlays: a selection has its handles and a pivot where asked for, a pen
/// preview a mark on every anchor and one under the pointer, and a gradient's line is
/// left out where it is too short.
pub proof fn law_overlays_have_their_marks(
    pivot: bool,
    anchors: usize,
    hover: bool,
    radial: bool,
    short: bool,
)
    ensures
        forall|r: Vec<Mark>| #[trigger]
            call_ensures(overlay_marks, (&ToolOverlay::Selection { pivot },), r) ==> {
                &&& r@.len() == (if pivot {
                    4int
                } else {
                    3int
                })
                &&& r@[0] is Bounds && r@[1] is RotateHandle && r@[2] is ScaleHandle
                &&& pivot ==> r@[3] is Pivot
            },
        forall|r: Vec<Mark>| #[trigger]
            call_ensures(overlay_marks, (&ToolOverlay::PenPreview { anchors, hover },), r) ==> {
                &&& r@.len() == anchors + (if hover {
                    1int
                } else {
                    0int
                })
                &&& forall|i: int|
                    0 <= i < anchors ==> #[trigger] r@[i] == Mark::Anchor(i as usize)
                &&& hover ==> r@.last() is Hover
            },
        forall|r: Vec<Mark>| #[trigger]
            call_ensures(overlay_marks, (&ToolOverlay::GradientLine { radial, short },), r) ==> {
                &&& short ==> r@.len() == 0
                &&& !short ==> r@ == seq![Mark::Line, Mark::StartDot, Mark::EndDot { radial }]
            },
        forall|r: Vec<Mark>| #[trigger]
            call_ensures(overlay_marks, (&ToolOverlay::Nothing,), r) ==> r@.len() == 0,
        forall|r: Vec<Mark>| #[trigger]
            call_ensures(overlay_marks, (&ToolOverlay::RubberBand,), r) ==> r@ == seq![
                Mark::Bounds,
            ],
        forall|r: Vec<Mark>| #[trigger]
            call_ensures(overlay_marks, (&ToolOverlay::ShapePreview,), r) ==> r@ == seq![
                Mark::Bounds,
                Mark::Outline,
            ],
{
}

/// An exported image has the artboard's size where neither side is over the limit; a
/// larger one is scaled down until the longer side is at the limit, the shorter side to the
/// nearest pixel.
pub proof fn law_exports_keep_the_proportions(w: u32, h: u32, r: (u32, u32))
    requires
        call_ensures(clamp_export_size, ((w, h),), r),
        w > 0,
        h > 0,
    ensures
        w <= 4096 && h <= 4096 ==> r == (w, h),
        r.0 <= 4096 && r.1 <= 4096,
        r.0 <= w && r.1 <= h,
        w > 4096 && w >= h ==> r.0 == 4096,
        h > 4096 && h >= w ==> r.1 == 4096,
        w == h ==> r.0 == r.1,
        -(w + h) <= 2 * (r.0 * h - r.1 * w) <= w + h,
        w > 4096 && w >= h ==> -(w as int) <= 2 * (r.1 * w) - 2 * (4096 * h) <= w,
        h > 4096 && h >= w ==> -(h as int) <= 2 * (r.0 * h) - 2 * (4096 * w) <= h,
{
    if w > 4096 && w >= h && r.0 != 4096 {
        assert(r.1 == 4096);
        lemma_times(r.0 as int, 4095, h as int);
        assert(r.1 * w == 4096 * w);
    }
    if h > 4096 && h >= w && r.1 != 4096 {
        assert(r.0 == 4096);
        lemma_times(r.1 as int, 4095, w as int);
        assert(r.0 * h == 4096 * h);
    }
}

proof fn lemma_times(a: int, b: int, c: int)
    requires
        0 <= a <= b,
        0 <= c,
    ensures
        a * c <= b * c,
{
    assert(a * c <= b * c) by (nonlinear_arith)
        requires
            0 <= a <= b,
            0 <= c,
    ;
}

} // verus!
