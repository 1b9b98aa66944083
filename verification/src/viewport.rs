//! The stage: which key or pointer event does what, what the tools may snap to,
//! and what is drawn over the scene. Coordinates are carried by their bits.
use vstd::prelude::*;
use vstd::string::StringExecFns;

use crate::commands::ToolId;
use crate::graph::PointerButton;
use crate::model::{Handle, NodeId};
use crate::seqs::holds;
use crate::session::{next_revision, EditorMode, GraphPoint, Guide, Session};
use crate::shell::ShellClass;
use crate::strings::{append_decimal, append_signed, decimal, signed};

verus! {

/// What the stage remembers. The view transform is the host's.
#[derive(Debug)]
pub struct ViewportState {
    /// The artboard is to be fitted at the next layout.
    pub fit_pending: bool,
    pub pan_last: Option<GraphPoint>,
    pub space_held: bool,
    pub pointer_down: bool,
    /// Set at a pointer's press while a machine is previewed: to the engine, or to
    /// the tools.
    pub pointer_route: Option<bool>,
    pub last_pointer: GraphPoint,
    pub has_pointer: bool,
    pub show_grid: bool,
    pub snapping_enabled: bool,
    pub show_guides: bool,
    pub guides: Vec<Guide>,
}

/// What tools snap to.
#[derive(Clone, Copy, Debug, PartialEq, Eq, Structural)]
pub struct Snap {
    pub grid: bool,
    pub anchor: bool,
    pub guide: bool,
}

/// What a canvas tool goes by when it handles an event, besides the document, the
/// scene and the view.
#[derive(Clone, Copy, Debug, PartialEq, Eq, Structural)]
pub struct CanvasContext {
    pub tool: ToolId,
    /// Whether what the tool writes is written as keyframes.
    pub record: bool,
    pub snap: Snap,
    pub paint: Handle,
}

/// What a press on the stage does.
#[derive(Clone, Copy, Debug, PartialEq, Eq, Structural)]
pub enum PressRoute {
    /// Pick what lies below, then open the menu.
    Menu,
    Pan,
    Tool,
}

/// The origin.
pub open spec fn origin() -> GraphPoint {
    GraphPoint { x: 0, y: 0 }
}

impl ViewportState {
    /// A stage as it is before the first layout.
    pub fn new() -> (r: ViewportState)
        ensures
            r == (ViewportState {
                fit_pending: true,
                pan_last: None,
                space_held: false,
                pointer_down: false,
                pointer_route: None,
                last_pointer: origin(),
                has_pointer: false,
                show_grid: false,
                snapping_enabled: true,
                show_guides: true,
                guides: r.guides,
            }),
            r.guides@ == Seq::<Guide>::empty(),
    {
        ViewportState {
            fit_pending: true,
            pan_last: None,
            space_held: false,
            pointer_down: false,
            pointer_route: None,
            last_pointer: GraphPoint { x: 0, y: 0 },
            has_pointer: false,
            show_grid: false,
            snapping_enabled: true,
            show_guides: true,
            guides: Vec::new(),
        }
    }

    /// Asks for the artboard to be fitted at the next layout.
    pub fn request_fit(&mut self)
        ensures
            *final(self) == (ViewportState { fit_pending: true, ..*old(self) }),
    {
        self.fit_pending = true;
    }

    /// Whether a layout may fit the artboard: not while the view is being dragged.
    pub fn may_fit(&self) -> (r: bool)
        ensures
            r == (self.pan_last is None),
    {
        self.pan_last.is_none()
    }

    pub fn begin_pan(&mut self, position: GraphPoint)
        ensures
            *final(self) == (ViewportState { pan_last: Some(position), ..*old(self) }),
    {
        self.pan_last = Some(position);
    }

    /// Where the drag came from, if there is one; it is at `position` now.
    pub fn update_pan(&mut self, position: GraphPoint) -> (r: Option<GraphPoint>)
        ensures
            r == old(self).pan_last,
            *final(self) == (if r is Some {
                ViewportState { pan_last: Some(position), ..*old(self) }
            } else {
                *old(self)
            }),
    {
        let previous = self.pan_last;
        if previous.is_some() {
            self.pan_last = Some(position);
        }
        previous
    }

    pub fn end_pan(&mut self)
        ensures
            *final(self) == (ViewportState { pan_last: None, ..*old(self) }),
    {
        self.pan_last = None;
    }

    /// Another project is on the stage.
    pub fn file_replaced(&mut self)
        ensures
            *final(self) == (ViewportState {
                fit_pending: true,
                pan_last: None,
                last_pointer: origin(),
                ..*old(self)
            }),
    {
        self.request_fit();
        self.end_pan();
        self.last_pointer = GraphPoint { x: 0, y: 0 };
    }

    /// What tools snap to: nothing where snapping is off, and to the grid and the
    /// guides only where they are shown.
    pub fn snap(&self) -> (r: Snap)
        ensures
            r == (Snap {
                grid: self.show_grid && self.snapping_enabled,
                anchor: self.snapping_enabled,
                guide: self.show_guides && self.snapping_enabled,
            }),
    {
        Snap {
            grid: self.show_grid && self.snapping_enabled,
            anchor: self.snapping_enabled,
            guide: self.show_guides && self.snapping_enabled,
        }
    }

    /// A press on the stage: what it does. The host carries out the rest.
    pub fn pointer_pressed(&mut self, button: PointerButton, position: GraphPoint) -> (r: PressRoute)
        ensures
            r == (match button {
                PointerButton::Secondary => PressRoute::Menu,
                PointerButton::Tertiary => PressRoute::Pan,
                PointerButton::Primary => if old(self).space_held {
                    PressRoute::Pan
                } else {
                    PressRoute::Tool
                },
            }),
            *final(self) == (ViewportState {
                last_pointer: position,
                pan_last: if r == PressRoute::Pan {
                    Some(position)
                } else {
                    old(self).pan_last
                },
                ..*old(self)
            }),
    {
        self.last_pointer = position;
        let route = match button {
            PointerButton::Secondary => PressRoute::Menu,
            PointerButton::Tertiary => PressRoute::Pan,
            PointerButton::Primary => if self.space_held {
                PressRoute::Pan
            } else {
                PressRoute::Tool
            },
        };
        if route == PressRoute::Pan {
            self.begin_pan(position);
        }
        route
    }

    /// A pointer's move: where a drag of the view came from, else it is the tool's.
    pub fn pointer_moved(&mut self, position: GraphPoint) -> (r: Option<GraphPoint>)
        ensures
            r == old(self).pan_last,
            *final(self) == (ViewportState {
                last_pointer: position,
                pan_last: if r is Some {
                    Some(position)
                } else {
                    None
                },
                ..*old(self)
            }),
    {
        self.last_pointer = position;
        self.update_pan(position)
    }

    /// A release: whether it ended a drag of the view; else it is the tool's.
    pub fn pointer_released(&mut self) -> (r: bool)
        ensures
            r == (old(self).pan_last is Some),
            *final(self) == (ViewportState { pan_last: None, ..*old(self) }),
    {
        let panning = self.pan_last.is_some();
        if panning {
            self.end_pan();
        }
        panning
    }

    /// Whether the pointer shows that the view is being dragged.
    pub fn is_panning(&self) -> (r: bool)
        ensures
            r == (self.pan_last is Some),
    {
        self.pan_last.is_some()
    }
}

/// A key, as far as the stage tells keys apart.
#[derive(Clone, Copy, Debug, PartialEq, Eq, Structural)]
pub enum StageKey {
    Space,
    Character(char),
    Escape,
    Enter,
    Delete,
    Backspace,
    Other,
}

/// A key that tools understand.
#[derive(Clone, Copy, Debug, PartialEq, Eq, Structural)]
pub enum CanvasKey {
    Escape,
    Enter,
    Delete,
    Backspace,
}

/// What a key does on the stage.
#[derive(Clone, Copy, Debug, PartialEq, Eq, Structural)]
pub enum KeyAction {
    /// Nothing; someone else may have it.
    Ignored,
    /// Nothing, and no one else gets it.
    Swallowed,
    HoldSpace(bool),
    Fit,
    Cut,
    Copy,
    Paste,
    Duplicate,
    Tool(ToolId),
    Canvas(CanvasKey),
}

/// The key that tools understand, if it is one.
pub open spec fn canvas_key(key: StageKey) -> Option<CanvasKey> {
    match key {
        StageKey::Escape => Some(CanvasKey::Escape),
        StageKey::Enter => Some(CanvasKey::Enter),
        StageKey::Delete => Some(CanvasKey::Delete),
        StageKey::Backspace => Some(CanvasKey::Backspace),
        _ => None,
    }
}

/// The key that tools understand, if it is one.
pub fn map_key(key: StageKey) -> (r: Option<CanvasKey>)
    ensures
        r == canvas_key(key),
{
    match key {
        StageKey::Escape => Some(CanvasKey::Escape),
        StageKey::Enter => Some(CanvasKey::Enter),
        StageKey::Delete => Some(CanvasKey::Delete),
        StageKey::Backspace => Some(CanvasKey::Backspace),
        _ => None,
    }
}

/// Whether `c` is the letter `small`, in either case.
pub open spec fn is_letter(c: char, small: char) -> bool {
    crate::strings::lower(c) == small
}

/// What a letter does while it goes down. Outside the interaction mode letters
/// choose tools and, with the command key, edit; fitting and duplicating work in
/// every mode.
pub open spec fn letter_action(c: char, command: bool, interact: bool) -> KeyAction {
    if is_letter(c, 'f') {
        KeyAction::Fit
    } else if is_letter(c, 'd') && command {
        KeyAction::Duplicate
    } else if interact {
        KeyAction::Ignored
    } else if command {
        if is_letter(c, 'x') {
            KeyAction::Cut
        } else if is_letter(c, 'c') {
            KeyAction::Copy
        } else if is_letter(c, 'v') {
            KeyAction::Paste
        } else {
            KeyAction::Ignored
        }
    } else if is_letter(c, 'v') {
        KeyAction::Tool(ToolId::Select)
    } else if is_letter(c, 'p') {
        KeyAction::Tool(ToolId::Pen)
    } else if is_letter(c, 't') {
        KeyAction::Tool(ToolId::Text)
    } else if is_letter(c, 'r') {
        KeyAction::Tool(ToolId::Rect)
    } else if is_letter(c, 'e') {
        KeyAction::Tool(ToolId::Ellipse)
    } else {
        KeyAction::Ignored
    }
}

/// What a key does on the stage.
pub open spec fn key_action(mode: EditorMode, key: StageKey, down: bool, command: bool) -> KeyAction {
    match key {
        StageKey::Space => KeyAction::HoldSpace(down),
        StageKey::Character(c) => if down {
            letter_action(c, command, mode == EditorMode::Interact)
        } else {
            KeyAction::Ignored
        },
        _ => match canvas_key(key) {
            Some(k) => if mode == EditorMode::Interact {
                KeyAction::Swallowed
            } else {
                KeyAction::Canvas(k)
            },
            None => KeyAction::Ignored,
        },
    }
}

/// What a key does on the stage.
pub fn stage_key(mode: EditorMode, key: StageKey, down: bool, command: bool) -> (r: KeyAction)
    ensures
        r == key_action(mode, key, down, command),
{
    let interact = mode == EditorMode::Interact;
    match key {
        StageKey::Space => {
            return KeyAction::HoldSpace(down);
        },
        StageKey::Character(c) => {
            if !down {
                return KeyAction::Ignored;
            }
            if c == 'f' || c == 'F' {
                return KeyAction::Fit;
            }
            if (c == 'd' || c == 'D') && command {
                return KeyAction::Duplicate;
            }
            if interact {
                return KeyAction::Ignored;
            }
            if command {
                if c == 'x' || c == 'X' {
                    return KeyAction::Cut;
                }
                if c == 'c' || c == 'C' {
                    return KeyAction::Copy;
                }
                if c == 'v' || c == 'V' {
                    return KeyAction::Paste;
                }
                return KeyAction::Ignored;
            }
            if c == 'v' || c == 'V' {
                return KeyAction::Tool(ToolId::Select);
            }
            if c == 'p' || c == 'P' {
                return KeyAction::Tool(ToolId::Pen);
            }
            if c == 't' || c == 'T' {
                return KeyAction::Tool(ToolId::Text);
            }
            if c == 'r' || c == 'R' {
                return KeyAction::Tool(ToolId::Rect);
            }
            if c == 'e' || c == 'E' {
                return KeyAction::Tool(ToolId::Ellipse);
            }
            KeyAction::Ignored
        },
        _ => match map_key(key) {
            Some(k) => if interact {
                KeyAction::Swallowed
            } else {
                KeyAction::Canvas(k)
            },
            None => KeyAction::Ignored,
        },
    }
}

/// Whether a key goes no further.
pub fn key_consumed(action: KeyAction) -> (r: bool)
    ensures
        r == (action != KeyAction::Ignored),
{
    action != KeyAction::Ignored
}

/// While a machine is tried out, the keys for cutting, copying, pasting and the tools
/// are off: only the view's keys and the duplicate shortcut are left.
pub proof fn law_interaction_leaves_tools_alone(key: StageKey, down: bool, command: bool)
    ensures
        match key_action(EditorMode::Interact, key, down, command) {
            KeyAction::Ignored
            | KeyAction::Swallowed
            | KeyAction::HoldSpace(_)
            | KeyAction::Fit
            | KeyAction::Duplicate => true,
            _ => false,
        },
        key_action(EditorMode::Interact, key, down, command) == KeyAction::Duplicate ==> command,
{
}

impl Session {
    /// The selection before the stage's menu opens: what lies below the pointer,
    /// unless it is selected already; nothing where nothing lies there, unless
    /// shift is held.
    pub open spec fn selection_for_menu(self, hit: Option<NodeId>, shift: bool) -> Seq<NodeId> {
        match hit {
            Some(id) => if self.selection@.contains(id) {
                self.selection@
            } else {
                seq![id]
            },
            None => if shift {
                self.selection@
            } else {
                Seq::empty()
            },
        }
    }

    /// What the active tool goes by when an event of the stage is handed to it; its
    /// outputs are then applied.
    pub fn dispatch_canvas(&self, viewport: &ViewportState) -> (r: CanvasContext)
        ensures
            r == (CanvasContext {
                tool: self.active_tool,
                record: self.record && self.mode == EditorMode::Animate,
                snap: Snap {
                    grid: viewport.show_grid && viewport.snapping_enabled,
                    anchor: viewport.snapping_enabled,
                    guide: viewport.show_guides && viewport.snapping_enabled,
                },
                paint: self.current_paint,
            }),
    {
        CanvasContext {
            tool: self.active_tool,
            record: self.record && self.mode == EditorMode::Animate,
            snap: viewport.snap(),
            paint: self.current_paint,
        }
    }

    /// Selects what lies below the pointer, before the stage's menu opens.
    pub fn select_below(&mut self, hit: Option<NodeId>, shift: bool)
        ensures
            final(self).selection@ == old(self).selection_for_menu(hit, shift),
            *final(self) == (Session { selection: final(self).selection, ..*old(self) }),
    {
        match hit {
            Some(id) => {
                if !holds(&self.selection, id) {
                    let mut one: Vec<NodeId> = Vec::new();
                    one.push(id);
                    assert(one@ =~= seq![id]);
                    self.selection = one;
                }
            },
            None => {
                if !shift {
                    self.selection = Vec::new();
                }
            },
        }
    }

    /// Puts the welcome screen away.
    pub fn dismiss_welcome(&mut self)
        ensures
            *final(self) == (Session {
                welcome: false,
                revision: next_revision(old(self).revision),
                ..*old(self)
            }),
    {
        self.welcome = false;
        self.repaint();
    }

    /// The lines of the stage's corner, on a composition of this size, at this
    /// frame.
    pub open spec fn hud_texts(self, width: u32, height: u32, frame: i64) -> Seq<Seq<char>> {
        if self.record {
            seq!["● REC"@, "Frame "@ + signed(frame as int)]
        } else {
            seq![
                "Main"@,
                decimal(width as nat) + "×"@ + decimal(height as nat),
                "Frame "@ + signed(frame as int),
                hud_tool_name(self.active_tool)@,
                decimal(self.selection@.len()) + " selected"@,
            ]
        }
    }

    /// The lines of the stage's corner: that it records, or what is shown and
    /// selected.
    pub fn hud_lines(&self, width: u32, height: u32, frame: i64) -> (r: Vec<String>)
        ensures
            crate::files::texts(r@) == self.hud_texts(width, height, frame),
    {
        let mut frame_line = "Frame ".to_owned();
        append_signed(&mut frame_line, frame);
        let mut out: Vec<String> = Vec::new();
        if self.record {
            out.push("● REC".to_owned());
            out.push(frame_line);
        } else {
            out.push("Main".to_owned());
            let mut size = "".to_owned();
            proof {
                reveal_strlit("");
            }
            append_decimal(&mut size, width as u128);
            size.append("×");
            append_decimal(&mut size, height as u128);
            assert(size@ =~= decimal(width as nat) + "×"@ + decimal(height as nat));
            out.push(size);
            out.push(frame_line);
            out.push(hud_tool_label(self.active_tool).to_owned());
            let mut count = "".to_owned();
            append_decimal(&mut count, self.selection.len() as u128);
            count.append(" selected");
            assert(count@ =~= decimal(self.selection@.len()) + " selected"@);
            out.push(count);
        }
        assert(crate::files::texts(out@) =~= self.hud_texts(width, height, frame));
        out
    }
}

/// What a tool is called in the stage's corner.
pub open spec fn hud_tool_name(tool: ToolId) -> &'static str {
    match tool {
        ToolId::Select => "Select",
        ToolId::Transform => "Transform",
        ToolId::Pen => "Pen",
        ToolId::PathEdit => "Path Edit",
        ToolId::Rect => "Rectangle",
        ToolId::Ellipse => "Ellipse",
        ToolId::Star => "Star",
        ToolId::Text => "Text",
        ToolId::Gradient => "Gradient",
        ToolId::Fill => "Fill",
    }
}

/// What a tool is called in the stage's corner.
pub fn hud_tool_label(tool: ToolId) -> (r: &'static str)
    ensures
        r == hud_tool_name(tool),
{
    match tool {
        ToolId::Select => "Select",
        ToolId::Transform => "Transform",
        ToolId::Pen => "Pen",
        ToolId::PathEdit => "Path Edit",
        ToolId::Rect => "Rectangle",
        ToolId::Ellipse => "Ellipse",
        ToolId::Star => "Star",
        ToolId::Text => "Text",
        ToolId::Gradient => "Gradient",
        ToolId::Fill => "Fill",
    }
}

/// Whether the stage shows its hint: the compact layout has its tools there.
pub fn shows_hint(class: ShellClass) -> (r: bool)
    ensures
        r == (class != ShellClass::Compact),
{
    class != ShellClass::Compact
}

/// How many columns of `least` pixels fit, between one and four.
pub open spec fn columns(width: nat, least: nat) -> nat {
    let n = width / least;
    if n < 1 {
        1
    } else if n > 4 {
        4
    } else {
        n
    }
}

/// The columns of template cards in this many whole pixels.
pub fn launcher_cols(width: u64) -> (r: usize)
    ensures
        r == columns(width as nat, 272),
{
    let n: u64 = width / 272;
    if n < 1 {
        1
    } else if n > 4 {
        4
    } else {
        n as usize
    }
}

/// The columns of launcher tiles in this many whole pixels.
pub fn launcher_tile_cols(width: u64) -> (r: usize)
    ensures
        r == columns(width as nat, 192),
{
    let n: u64 = width / 192;
    if n < 1 {
        1
    } else if n > 4 {
        4
    } else {
        n as usize
    }
}

/// The checkerboard behind a composition: how many tiles of 32 units it takes each
/// way, the last ones reaching over the edge.
pub fn checker_size(width: u32, height: u32) -> (r: (u32, u32))
    ensures
        r.0 * 32 >= width > r.0 * 32 - 32,
        r.1 * 32 >= height > r.1 * 32 - 32,
{
    (
        width / 32 + if width % 32 == 0 {
            0
        } else {
            1
        },
        height / 32 + if height % 32 == 0 {
            0
        } else {
            1
        },
    )
}

/// Whether a tile of the checkerboard is a light one.
pub open spec fn light(x: nat, y: nat) -> bool {
    (x + y) % 2 == 0
}

/// Whether a tile of the checkerboard is a light one.
pub fn tile_is_light(x: u32, y: u32) -> (r: bool)
    ensures
        r == light(x as nat, y as nat),
{
    (x as u64 + y as u64) % 2 == 0
}

/// Neighbouring tiles always differ.
pub proof fn law_neighbouring_tiles_differ(x: nat, y: nat)
    ensures
        light(x, y) != light(x + 1, y),
        light(x, y) != light(x, y + 1),
{
}

/// Which tangents of an anchor have a length.
#[derive(Clone, Copy, Debug, PartialEq, Eq, Structural)]
pub struct AnchorTangents {
    pub has_in: bool,
    pub has_out: bool,
}

/// What a tool shows over the scene.
#[allow(inconsistent_fields)]
#[derive(Debug)]
pub enum ToolOverlay {
    Nothing,
    RubberBand,
    Selection { pivot: bool },
    ShapePreview,
    PenPreview { anchors: usize, hover: bool },
    PathHandles { anchors: Vec<AnchorTangents>, active: Option<usize> },
    /// `short` where its ends are less than a pixel apart.
    GradientLine { radial: bool, short: bool },
}

/// One thing to draw for an overlay.
#[derive(Clone, Copy, Debug, PartialEq, Eq, Structural)]
pub enum Mark {
    Bounds,
    RotateHandle,
    ScaleHandle,
    Pivot,
    /// The outline of the shape under way.
    Outline,
    /// A hollow square on an anchor.
    Anchor(usize),
    /// A full square on an anchor.
    ActiveAnchor(usize),
    TangentIn(usize),
    TangentOut(usize),
    Hover,
    Line,
    StartDot,
    EndDot { radial: bool },
}

/// The first `n` anchors as hollow squares.
pub open spec fn hollow_anchors(n: nat) -> Seq<Mark> {
    Seq::new(n, |i: int| Mark::Anchor(i as usize))
}

/// An anchor of a path: its square, full where it is the active one, then its
/// tangents.
pub open spec fn handle_marks(i: int, t: AnchorTangents, active: Option<usize>) -> Seq<Mark> {
    seq![
        if active == Some(i as usize) {
            Mark::ActiveAnchor(i as usize)
        } else {
            Mark::Anchor(i as usize)
        },
    ] + (if t.has_in {
        seq![Mark::TangentIn(i as usize)]
    } else {
        Seq::empty()
    }) + (if t.has_out {
        seq![Mark::TangentOut(i as usize)]
    } else {
        Seq::empty()
    })
}

pub open spec fn path_marks(anchors: Seq<AnchorTangents>, active: Option<usize>) -> Seq<Mark>
    decreases anchors.len(),
{
    if anchors.len() == 0 {
        Seq::empty()
    } else {
        path_marks(anchors.drop_last(), active) + handle_marks(
            anchors.len() - 1,
            anchors.last(),
            active,
        )
    }
}

/// What is drawn for an overlay, in order.
pub open spec fn marks(overlay: ToolOverlay) -> Seq<Mark> {
    match overlay {
        ToolOverlay::Nothing => Seq::empty(),
        ToolOverlay::RubberBand => seq![Mark::Bounds],
        ToolOverlay::Selection { pivot } => seq![
            Mark::Bounds,
            Mark::RotateHandle,
            Mark::ScaleHandle,
        ] + (if pivot {
            seq![Mark::Pivot]
        } else {
            Seq::empty()
        }),
        ToolOverlay::ShapePreview => seq![Mark::Bounds, Mark::Outline],
        ToolOverlay::PenPreview { anchors, hover } => hollow_anchors(anchors as nat) + (if hover {
            seq![Mark::Hover]
        } else {
            Seq::empty()
        }),
        ToolOverlay::PathHandles { anchors, active } => path_marks(anchors@, active),
        ToolOverlay::GradientLine { radial, short } => if short {
            Seq::empty()
        } else {
            seq![Mark::Line, Mark::StartDot, Mark::EndDot { radial }]
        },
    }
}

/// What is drawn for an overlay, in order.
pub fn overlay_marks(overlay: &ToolOverlay) -> (r: Vec<Mark>)
    ensures
        r@ == marks(*overlay),
{
    let mut out: Vec<Mark> = Vec::new();
    match overlay {
        ToolOverlay::Nothing => {},
        ToolOverlay::RubberBand => {
            out.push(Mark::Bounds);
        },
        ToolOverlay::Selection { pivot } => {
            out.push(Mark::Bounds);
            out.push(Mark::RotateHandle);
            out.push(Mark::ScaleHandle);
            if *pivot {
                out.push(Mark::Pivot);
            }
        },
        ToolOverlay::ShapePreview => {
            out.push(Mark::Bounds);
            out.push(Mark::Outline);
        },
        ToolOverlay::PenPreview { anchors, hover } => {
            let mut i: usize = 0;
            while i < *anchors
                invariant
                    i <= *anchors,
                    out@ == hollow_anchors(i as nat),
                decreases *anchors - i,
            {
                out.push(Mark::Anchor(i));
                i = i + 1;
                assert(out@ =~= hollow_anchors(i as nat));
            }
            if *hover {
                out.push(Mark::Hover);
            }
        },
        ToolOverlay::PathHandles { anchors, active } => {
            let mut i: usize = 0;
            assert(anchors@.take(0) =~= Seq::empty());
            while i < anchors.len()
                invariant
                    i <= anchors@.len(),
                    out@ == path_marks(anchors@.take(i as int), *active),
                decreases anchors.len() - i,
            {
                let ghost before = out@;
                let t = anchors[i];
                let is_active = match active {
                    Some(a) => *a == i,
                    None => false,
                };
                if is_active {
                    out.push(Mark::ActiveAnchor(i));
                } else {
                    out.push(Mark::Anchor(i));
                }
                if t.has_in {
                    out.push(Mark::TangentIn(i));
                }
                if t.has_out {
                    out.push(Mark::TangentOut(i));
                }
                assert(out@ =~= before + handle_marks(i as int, t, *active));
                assert(anchors@.take(i + 1).drop_last() =~= anchors@.take(i as int));
                i = i + 1;
            }
            assert(anchors@.take(i as int) =~= anchors@);
        },
        ToolOverlay::GradientLine { radial, short } => {
            if !*short {
                out.push(Mark::Line);
                out.push(Mark::StartDot);
                out.push(Mark::EndDot { radial: *radial });
            }
        },
    }
    assert(out@ =~= marks(*overlay));
    out
}

} // verus!
