//! What the editor asks of the history: commands, the outputs that tools and
//! panels produce, and the replies that come back.
use vstd::prelude::*;

use crate::machine::{ClipId, MachineId};
use crate::model::{CompId, Handle, NodeId, Parent, StyleKind};

verus! {

/// A line for the status bar.
#[derive(Debug, PartialEq, Eq)]
pub enum Message {
    Fixed(&'static str),
    Built(String),
}

impl Message {
    pub open spec fn text(&self) -> Seq<char> {
        match *self {
            Message::Fixed(s) => s@,
            Message::Built(s) => s@,
        }
    }

    /// The line as a string of its own.
    pub fn to_text(&self) -> (r: String)
        ensures
            r@ == self.text(),
    {
        match self {
            Message::Fixed(s) => (*s).to_owned(),
            Message::Built(s) => s.clone(),
        }
    }
}

/// The name that an undo step goes by.
#[derive(Clone, Copy, Debug, PartialEq, Eq)]
pub enum Label {
    Text(&'static str),
    /// A name that the host keeps.
    Host(Handle),
}

#[derive(Clone, Copy, Debug, PartialEq, Eq, Structural)]
pub enum BlendMode {
    Normal,
    Multiply,
    Screen,
    Overlay,
    Darken,
    Lighten,
    ColorDodge,
    ColorBurn,
    HardLight,
    SoftLight,
    Difference,
    Exclusion,
    Hue,
    Saturation,
    Color,
    Luminosity,
}

#[derive(Clone, Copy, Debug, PartialEq, Eq, Structural)]
pub enum GradientKind {
    Linear,
    Radial,
}

/// What an inserted node is made of.
#[allow(inconsistent_fields)]
#[derive(Clone, Copy, Debug, PartialEq, Eq)]
pub enum TreeSource {
    /// The tree of the numbered item of the insertion under way, moved by the
    /// paste offset where `shifted`.
    Item { item: usize, shifted: bool },
    /// A group without children.
    Group { name: &'static str },
    /// A style node that paints as the style numbered `content` does.
    Style { kind: StyleKind, content: Handle },
    /// A non-zero fill that paints with the paint of the stroke numbered `content`.
    FillOfStroke { content: Handle },
    /// A copy of the node `template` without its children, named after it with
    /// `number` behind, whose kind is `kind`.
    Piece { template: NodeId, number: usize, kind: KindSource },
    /// An ellipse named after its kind, 120 wide and 120 high, whose centre is half
    /// of `doubled_center`. Below it stands a non-zero fill with the paint `paint`.
    Ellipse { doubled_center: (u32, u32), paint: Handle },
    /// A node that the host builds: what `content` numbers.
    Host { content: Handle },
}

/// What a node's kind is replaced by.
#[allow(inconsistent_fields)]
#[derive(Clone, Copy, Debug, PartialEq, Eq)]
pub enum KindSource {
    /// A path with one contour.
    Path { contour: Handle },
    /// A compound path; `contours` numbers the list.
    Compound { contours: Handle },
    /// The style numbered `content`.
    Style { kind: StyleKind, content: Handle },
    /// A non-zero fill with the paint of the stroke numbered `content`.
    FillOfStroke { content: Handle },
    /// A kind that the host builds.
    Host { content: Handle },
}

/// A property of a node.
#[allow(inconsistent_fields)]
#[derive(Clone, Copy, Debug, PartialEq, Eq)]
pub enum Property {
    /// The one with this path.
    Path(&'static str),
    /// One that the host lists: its number.
    Listed(Handle),
}

#[allow(inconsistent_fields)]
#[derive(Clone, Copy, Debug, PartialEq, Eq)]
pub enum EditorCommand {
    InsertNode { parent: Parent, index: usize, tree: TreeSource },
    RemoveNode { id: NodeId },
    MoveNode { id: NodeId, new_parent: Parent, index: usize },
    SetNodeKind { id: NodeId, kind: KindSource },
    ReversePath { id: NodeId },
    /// A property write: a key at the playhead where `keyed`, else a static value.
    SetProperty { id: NodeId, prop: Property, value: Handle, keyed: bool },
    SetStatic { id: NodeId, prop: &'static str, value: Handle },
    SetCompositionRange { comp: CompId, start: Option<i64>, end: Option<i64> },
    SetCompositionSize { comp: CompId, width: u32, height: u32 },
    SetCompositionRate { comp: CompId, rate: u32 },
    SetTextFont { id: NodeId, font: Option<Handle> },
    SetTextContent { id: NodeId, text: Handle },
    SetLayerProps {
        id: NodeId,
        in_frame: Option<i64>,
        out_frame: Option<i64>,
        stretch: Option<Handle>,
        blend: Option<BlendMode>,
    },
    SetPaint { id: NodeId, paint: Handle },
    ConvertToSolid { id: NodeId },
    ConvertToGradient { id: NodeId, kind: GradientKind, axis: Handle },
    SetImageCrop { id: NodeId, crop: Handle },
    SetPrecompTimeMap { id: NodeId, offset: Option<i64>, stretch: Option<Handle> },
    SetPrecompComp { id: NodeId, comp: CompId },
    AddAsset { index: usize, asset: Handle },
    DetachAsset { asset: Handle },
    ReplaceMachine { id: MachineId, machine: Handle },
    CreateMachine { index: usize, machine: Handle },
    DetachMachine { id: MachineId },
    SetStartMachine { start: Option<MachineId> },
    CreateClip { index: usize, clip: Handle },
}

#[derive(Debug)]
pub enum SelectionChange {
    Replace(Vec<NodeId>),
    Toggle(NodeId),
}

#[derive(Clone, Copy, Debug, PartialEq, Eq, Structural)]
pub enum ToolId {
    Select,
    Transform,
    Pen,
    PathEdit,
    Rect,
    Ellipse,
    Star,
    Text,
    Fill,
    Gradient,
}

/// Where the playhead stands: on a whole frame, or between two, at the number
/// with these bits.
#[derive(Clone, Copy, Debug, PartialEq, Eq, Structural)]
pub enum Head {
    Frame(i64),
    Between { bits: u64 },
}

/// One output of a tool or a panel.
#[derive(Debug)]
pub enum ToolOutput {
    BeginTransaction(Label),
    CommitTransaction,
    CancelTransaction,
    Commands(Vec<EditorCommand>),
    SetPlayhead(Head),
    SwitchTool(ToolId),
    Invalidate,
    SetCurrentPaint(Handle),
    RequestSelection(SelectionChange),
    /// An output that the editor has no use for.
    Other,
}

/// One undo step: its commands, and the selection that follows it.
#[derive(Debug)]
pub struct Edit {
    pub label: &'static str,
    pub commands: Vec<EditorCommand>,
    pub select: Option<Vec<NodeId>>,
}

impl Edit {
    /// Whether the step goes by this name, has these commands and leaves the
    /// selection alone.
    pub open spec fn carries(self, label: &'static str, commands: Seq<EditorCommand>) -> bool {
        self.label == label && self.commands@ == commands && self.select is None
    }

    /// A step of one command.
    pub fn single(label: &'static str, command: EditorCommand) -> (r: Edit)
        ensures
            r.carries(label, seq![command]),
    {
        let mut commands: Vec<EditorCommand> = Vec::new();
        commands.push(command);
        assert(commands@ =~= seq![command]);
        Edit { label, commands, select: None }
    }

    /// The outputs that carry the step out.
    pub fn outputs(self) -> (r: Vec<ToolOutput>)
        ensures
            r@ == (match self.select {
                None => seq![
                    ToolOutput::BeginTransaction(Label::Text(self.label)),
                    ToolOutput::Commands(self.commands),
                    ToolOutput::CommitTransaction,
                ],
                Some(ids) => seq![
                    ToolOutput::BeginTransaction(Label::Text(self.label)),
                    ToolOutput::Commands(self.commands),
                    ToolOutput::CommitTransaction,
                    ToolOutput::RequestSelection(SelectionChange::Replace(ids)),
                ],
            }),
    {
        let mut out: Vec<ToolOutput> = Vec::new();
        out.push(ToolOutput::BeginTransaction(Label::Text(self.label)));
        out.push(ToolOutput::Commands(self.commands));
        out.push(ToolOutput::CommitTransaction);
        if let Some(ids) = self.select {
            out.push(ToolOutput::RequestSelection(SelectionChange::Replace(ids)));
        }
        out
    }
}

/// What the history says of a command that it has carried out.
#[derive(Clone, Copy, Debug, PartialEq, Eq)]
pub struct Applied {
    pub created: Option<NodeId>,
    pub created_machine: Option<MachineId>,
    pub created_clip: Option<ClipId>,
}

} // verus!
