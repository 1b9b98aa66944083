//! The session: what the editor remembers between two events, and how tool
//! outputs, modes and selection change it.
//!
//! A frame is asked for whenever `revision` moves; the host watches it.
use std::collections::HashSet;

use vstd::prelude::*;

use crate::commands::{Applied, Edit, Head, Label, Message, SelectionChange, ToolId, ToolOutput};
use crate::machine::{InputValue, MachineId, MachineSelection};
use crate::model::{Document, Handle, NodeId, Parent};
use crate::seqs::{first_index, lemma_first_index, position};
use crate::tree::TreeRow;

verus! {

broadcast use vstd::std_specs::hash::group_hash_axioms;

#[derive(Clone, Copy, Debug, PartialEq, Eq, Structural)]
pub enum PanelPage {
    Canvas,
    Layers,
    Timeline,
    Inspect,
    Assets,
    Interact,
}

#[derive(Clone, Copy, Debug, PartialEq, Eq, Structural)]
pub enum EditorMode {
    Design,
    Animate,
    Interact,
}

/// What waits for the unsaved-changes question to be answered.
#[derive(Clone, Copy, Debug, PartialEq, Eq, Structural)]
pub enum PendingIntent {
    New,
    Open,
    ImportLottie,
    ImportSvg,
}

#[derive(Clone, Copy, Debug, PartialEq, Eq, Structural)]
pub enum GuideAxis {
    Horizontal,
    Vertical,
}

/// A ruler guide; its position is carried by its bits.
#[derive(Clone, Copy, Debug, PartialEq, Eq, Structural)]
pub struct Guide {
    pub axis: GuideAxis,
    pub position: u64,
}

#[derive(Clone, Copy, Debug, PartialEq, Eq, Structural)]
pub enum PlayState {
    Playing,
    Stopped,
}

#[derive(Clone, Copy, Debug, PartialEq, Eq, Structural)]
pub enum LoopMode {
    Once,
    Loop,
    PingPong,
}

/// The timeline's transport.
#[derive(Clone, Copy, Debug, PartialEq, Eq)]
pub struct Playback {
    pub state: PlayState,
    pub head: Head,
    pub loop_mode: LoopMode,
    pub range: (i64, i64),
}

/// A copied subtree and where it was taken from.
#[derive(Debug)]
pub struct ClipboardItem {
    pub tree: Vec<TreeRow>,
    pub source_parent: Parent,
    pub source_index: usize,
}

/// A copied style: what kind it is and which style node it was taken from.
#[derive(Clone, Copy, Debug, PartialEq, Eq, Structural)]
pub struct StyleCopy {
    pub kind: crate::model::StyleKind,
    pub content: Handle,
}

#[derive(Debug)]
pub struct ClipboardPayload {
    pub items: Vec<ClipboardItem>,
    pub style_nodes: Vec<StyleCopy>,
}

/// A drag in the machine panel; numbers are carried by their bits.
#[allow(inconsistent_fields)]
#[derive(Clone, Copy, Debug, PartialEq, Eq, Structural)]
pub enum MachineDrag {
    PreviewNumber { input: usize, origin: u64, press_x: u32 },
    MachineField { origin: u64, press_x: u32, txn: bool },
}

/// A point on the machine graph, by the bits of its coordinates.
#[derive(Clone, Copy, Debug, PartialEq, Eq, Structural)]
pub struct GraphPoint {
    pub x: u64,
    pub y: u64,
}

/// A gesture on the machine graph.
#[derive(Clone, Copy, Debug, PartialEq, Eq, Structural)]
pub enum MachineGraphGesture {
    WireTransition { layer: usize, from_state: Option<usize>, current: GraphPoint },
    Pan { last: GraphPoint },
    DragState { layer: usize, state: usize, offset: GraphPoint, current: GraphPoint },
}

/// What a pointer did, as machine listeners tell it.
#[derive(Clone, Copy, Debug, PartialEq, Eq, Structural)]
pub enum PointerEventKind {
    Down,
    Up,
    Click,
    Enter,
    Exit,
}

/// The listener that is being put together.
#[derive(Clone, Copy, Debug, PartialEq, Eq, Structural)]
pub struct ListenerDraft {
    pub event: Option<PointerEventKind>,
    pub input: Option<usize>,
    pub toggle: bool,
    pub bool_value: bool,
    pub number_value: u64,
}

impl ListenerDraft {
    pub open spec fn empty() -> ListenerDraft {
        ListenerDraft { event: None, input: None, toggle: false, bool_value: false, number_value: 0 }
    }

    pub fn new() -> (r: ListenerDraft)
        ensures
            r == ListenerDraft::empty(),
    {
        ListenerDraft { event: None, input: None, toggle: false, bool_value: false, number_value: 0 }
    }
}

/// A property drag in the inspector.
#[derive(Debug)]
pub struct InspectorDrag {
    pub path: Handle,
    pub channel: usize,
    pub ids: Vec<NodeId>,
    pub origins: Vec<Handle>,
    pub press_x: u32,
    pub txn: bool,
}

/// A layer row on its way to another place.
#[derive(Clone, Copy, Debug, PartialEq, Eq, Structural)]
pub struct LayerDragState {
    pub id: NodeId,
    pub hover_row: usize,
    pub before: bool,
    pub as_child: bool,
    /// The bits of the window's y at the press.
    pub press_window_y: u32,
    /// The number of the dragged row at the press.
    pub press_index: usize,
    /// The bits of the y within the pressed row.
    pub grab_offset_y: u32,
}

/// What the open colour picker writes to.
#[allow(inconsistent_fields)]
#[derive(Clone, Copy, Debug, PartialEq, Eq, Structural)]
pub enum PickerTarget {
    CurrentPaint,
    StyleColor { style_id: NodeId },
    GradientStop { style_id: NodeId, index: usize },
    Prop { id: NodeId, path: Handle },
}

/// The open colour picker. `color` numbers its colour, `anchor` its place.
#[derive(Clone, Copy, Debug, PartialEq, Eq, Structural)]
pub struct OpenPicker {
    pub target: PickerTarget,
    pub color: Handle,
    pub anchor: Handle,
    pub transaction_open: bool,
    pub cancel_current_paint: Option<Handle>,
}

/// Where a context menu was opened.
#[derive(Clone, Copy, Debug, PartialEq, Eq, Structural)]
pub enum ContextMenuSource {
    Layers { row: NodeId },
    Canvas { world: GraphPoint },
}

/// The open context menu; `entries` numbers its lines.
#[derive(Clone, Copy, Debug, PartialEq, Eq, Structural)]
pub struct ContextMenuState {
    pub screen_pos: GraphPoint,
    pub entries: Handle,
    pub source: ContextMenuSource,
}

pub struct Session {
    pub current_path: Option<String>,
    pub dirty: bool,
    pub selection: Vec<NodeId>,
    pub active_tool: ToolId,
    pub active_page: PanelPage,
    pub mode: EditorMode,
    pub playback: Playback,
    pub playing: bool,
    pub revision: u64,
    pub expanded_layers: HashSet<NodeId>,
    pub layer_drag: Option<LayerDragState>,
    pub renaming: Option<(NodeId, String)>,
    pub record: bool,
    pub inspector_drag: Option<InspectorDrag>,
    pub status: Option<Message>,
    pub pending_intent: Option<PendingIntent>,
    pub current_paint: Handle,
    pub open_picker: Option<OpenPicker>,
    pub context_menu: Option<ContextMenuState>,
    pub exporting_png: bool,
    pub welcome: bool,
    pub clipboard: Option<ClipboardPayload>,
    pub active_machine: Option<MachineId>,
    pub machine_selection: MachineSelection,
    pub active_machine_layer: usize,
    pub machine_preview_inputs: Vec<InputValue>,
    pub machine_preview_enabled: bool,
    pub machine_drag: Option<MachineDrag>,
    pub machine_graph_gesture: Option<MachineGraphGesture>,
    pub listener_draft: ListenerDraft,
}

/// The revision after `r`.
pub open spec fn next_revision(r: u64) -> u64 {
    if r == u64::MAX {
        0
    } else {
        (r + 1) as u64
    }
}

/// What a run of tool outputs has done so far.
#[derive(Clone, Copy, Debug, PartialEq, Eq, Structural)]
pub struct OutputRun {
    pub document_changed: bool,
    pub needs_evaluation: bool,
    pub needs_repaint: bool,
    pub in_transaction: bool,
    pub txn_mutated: bool,
    pub mutated_outside_transaction: bool,
}

impl OutputRun {
    pub open spec fn fresh() -> OutputRun {
        OutputRun {
            document_changed: false,
            needs_evaluation: false,
            needs_repaint: false,
            in_transaction: false,
            txn_mutated: false,
            mutated_outside_transaction: false,
        }
    }

    pub fn new() -> (r: OutputRun)
        ensures
            r == OutputRun::fresh(),
    {
        OutputRun {
            document_changed: false,
            needs_evaluation: false,
            needs_repaint: false,
            in_transaction: false,
            txn_mutated: false,
            mutated_outside_transaction: false,
        }
    }
}

/// What the host does for one output.
#[derive(Clone, Copy, Debug, PartialEq, Eq)]
pub enum OutputStep {
    Done,
    Begin(Label),
    Commit,
    Cancel,
    /// Carry out the commands one by one and hand the replies to
    /// `commands_applied`.
    Apply,
    Scrub(Head),
}

/// What the host does after the last output.
#[derive(Clone, Copy, Debug, PartialEq, Eq, Structural)]
pub struct OutputEnd {
    /// Drop key selections that are gone and take over the composition's range.
    pub sync_timeline: bool,
    pub reevaluate: bool,
}

/// The selection with `id` put in, or taken out where it was in.
pub open spec fn toggled(sel: Seq<NodeId>, id: NodeId) -> Seq<NodeId> {
    match first_index(sel, id) {
        Some(i) => sel.remove(i),
        None => sel.push(id),
    }
}

/// The selection after the replies: the last node that a command created.
pub open spec fn selection_after(
    sel: Seq<NodeId>,
    replies: Seq<Result<Applied, String>>,
) -> Seq<NodeId>
    decreases replies.len(),
{
    if replies.len() == 0 {
        sel
    } else {
        match replies.last() {
            Ok(Applied { created: Some(id), .. }) => seq![id],
            _ => selection_after(sel, replies.drop_last()),
        }
    }
}

pub open spec fn some_applied(replies: Seq<Result<Applied, String>>) -> bool {
    exists|i: int| 0 <= i < replies.len() && (#[trigger] replies[i]) is Ok
}

/// The message of the last command that failed.
pub open spec fn last_failure(replies: Seq<Result<Applied, String>>) -> Option<Seq<char>>
    decreases replies.len(),
{
    if replies.len() == 0 {
        None
    } else {
        match replies.last() {
            Err(e) => Some("Edit failed: "@ + e@),
            Ok(_) => last_failure(replies.drop_last()),
        }
    }
}

/// Whether `status` reads `text`.
pub open spec fn reads(status: Option<Message>, text: Seq<char>) -> bool {
    status matches Some(m) && m.text() == text
}

/// What taking one output of a tool does to the session and to the run, and what the
/// host does about it. `transaction_open` says whether the history has a transaction
/// open.
pub open spec fn output_taken(
    before: Session,
    run: OutputRun,
    out: ToolOutput,
    doc: Document,
    transaction_open: bool,
    after: Session,
    run_after: OutputRun,
    step: OutputStep,
) -> bool {
    match out {
        ToolOutput::BeginTransaction(label) => {
            &&& step == OutputStep::Begin(label)
            &&& after == before
            &&& run_after == (OutputRun {
                in_transaction: true,
                txn_mutated: false,
                ..run
            })
        },
        ToolOutput::CommitTransaction => {
            let commits = run.in_transaction || transaction_open;
            let dirties = if run.in_transaction {
                run.txn_mutated
            } else {
                transaction_open
            };
            &&& step == (if commits {
                OutputStep::Commit
            } else {
                OutputStep::Done
            })
            &&& after == (Session { dirty: before.dirty || dirties, ..before })
            &&& run_after == (OutputRun {
                in_transaction: false,
                document_changed: run.document_changed || run.txn_mutated
                    || after.dirty,
                ..run
            })
        },
        ToolOutput::CancelTransaction => {
            &&& step == OutputStep::Cancel
            &&& after == before
            &&& run_after == (OutputRun {
                in_transaction: false,
                document_changed: true,
                needs_evaluation: true,
                ..run
            })
        },
        ToolOutput::Commands(_) => {
            &&& step == OutputStep::Apply
            &&& after == before
            &&& run_after == run
        },
        ToolOutput::SetPlayhead(head) => {
            &&& step == (if before.machine_preview_enabled {
                OutputStep::Done
            } else {
                OutputStep::Scrub(head)
            })
            &&& after == (Session {
                playback: if before.machine_preview_enabled {
                    before.playback
                } else {
                    Playback { head, ..before.playback }
                },
                ..before
            })
            &&& run_after == (OutputRun { needs_repaint: true, ..run })
        },
        ToolOutput::SwitchTool(tool) => {
            &&& step == OutputStep::Done
            &&& after == (Session { active_tool: tool, ..before })
            &&& run_after == (OutputRun { needs_repaint: true, ..run })
        },
        ToolOutput::Invalidate => {
            &&& step == OutputStep::Done
            &&& after == before
            &&& run_after == (OutputRun { needs_repaint: true, ..run })
        },
        ToolOutput::SetCurrentPaint(paint) => {
            &&& step == OutputStep::Done
            &&& after == (Session { current_paint: paint, ..before })
            &&& run_after == (OutputRun { needs_repaint: true, ..run })
        },
        ToolOutput::RequestSelection(change) => {
            &&& step == OutputStep::Done
            &&& after.selection@ == (match change {
                SelectionChange::Replace(ids) => ids@,
                SelectionChange::Toggle(id) => toggled(before.selection@, id),
            })
            &&& after.expanded_layers@ == before.expanded_layers@.union(
                doc.ancestors_of(after.selection@),
            )
            &&& after == (Session {
                selection: after.selection,
                expanded_layers: after.expanded_layers,
                ..before
            })
            &&& run_after == (OutputRun { needs_repaint: true, ..run })
        },
        ToolOutput::Other => {
            &&& step == OutputStep::Done
            &&& after == before
            &&& run_after == run
        },
    }
}

/// What the replies to the commands of one output do to the session and to the run.
/// `doc` is the document after the commands.
pub open spec fn replies_taken(
    before: Session,
    run: OutputRun,
    replies: Seq<Result<Applied, String>>,
    doc: Document,
    transaction_open: bool,
    after: Session,
    run_after: OutputRun,
) -> bool {
    &&& after.dirty == (before.dirty || some_applied(replies))
    &&& after.selection@ == selection_after(before.selection@, replies)
    &&& match last_failure(replies) {
        Some(text) => reads(after.status, text),
        None => after.status == before.status,
    }
    &&& after.expanded_layers@ == before.expanded_layers@.union(
        doc.ancestors_of(after.selection@),
    )
    &&& after == (Session {
        dirty: after.dirty,
        selection: after.selection,
        status: after.status,
        expanded_layers: after.expanded_layers,
        ..before
    })
    &&& run_after == (if run.in_transaction || transaction_open {
        OutputRun { document_changed: true, needs_evaluation: true, txn_mutated: true, ..run }
    } else {
        OutputRun {
            document_changed: true,
            needs_evaluation: true,
            mutated_outside_transaction: true,
            ..run
        }
    })
}

/// What the end of a run of outputs does.
pub open spec fn outputs_ended(
    before: Session,
    run: OutputRun,
    after: Session,
    end: OutputEnd,
) -> bool {
    &&& end == (OutputEnd { sync_timeline: run.document_changed, reevaluate: run.needs_evaluation })
    &&& after == (Session {
        dirty: before.dirty || run.mutated_outside_transaction,
        revision: if run.document_changed || run.needs_evaluation || run.needs_repaint {
            next_revision(before.revision)
        } else {
            before.revision
        },
        ..before
    })
}

/// What the engine plays next.
#[derive(Clone, Copy, Debug, PartialEq, Eq, Structural)]
pub enum EngineSwitch {
    /// What it plays now.
    Leave,
    /// The timeline, looping.
    Timeline,
    /// The machine, from the preview inputs.
    Machine(MachineId),
}

/// The transport of a session that has stopped playing.
pub open spec fn stopped(playback: Playback, playing: bool) -> Playback {
    if playing {
        Playback { state: PlayState::Stopped, ..playback }
    } else {
        playback
    }
}

impl Session {
    /// A session on a document whose main composition covers `range`.
    pub fn new(range: (i64, i64), active_machine: Option<MachineId>, paint: Handle) -> (r: Session)
        ensures
            r.current_path is None,
            !r.dirty,
            r.selection@ == Seq::<NodeId>::empty(),
            r.active_tool == ToolId::Select,
            r.active_page == PanelPage::Canvas,
            r.mode == EditorMode::Design,
            r.playback == (Playback {
                state: PlayState::Stopped,
                head: Head::Frame(range.0),
                loop_mode: LoopMode::Loop,
                range,
            }),
            !r.playing,
            r.revision == 0,
            r.expanded_layers@ == Set::<NodeId>::empty(),
            r.layer_drag is None,
            r.renaming is None,
            !r.record,
            r.inspector_drag is None,
            r.status is None,
            r.pending_intent is None,
            r.current_paint == paint,
            r.open_picker is None,
            r.context_menu is None,
            !r.exporting_png,
            r.welcome,
            r.clipboard is None,
            r.active_machine == active_machine,
            r.machine_selection == MachineSelection::Nothing,
            r.active_machine_layer == 0,
            r.machine_preview_inputs@ == Seq::<InputValue>::empty(),
            !r.machine_preview_enabled,
            r.machine_drag is None,
            r.machine_graph_gesture is None,
            r.listener_draft == ListenerDraft::empty(),
    {
        Session {
            current_path: None,
            dirty: false,
            selection: Vec::new(),
            active_tool: ToolId::Select,
            active_page: PanelPage::Canvas,
            mode: EditorMode::Design,
            playback: Playback {
                state: PlayState::Stopped,
                head: Head::Frame(range.0),
                loop_mode: LoopMode::Loop,
                range,
            },
            playing: false,
            revision: 0,
            expanded_layers: HashSet::new(),
            layer_drag: None,
            renaming: None,
            record: false,
            inspector_drag: None,
            status: None,
            pending_intent: None,
            current_paint: paint,
            open_picker: None,
            context_menu: None,
            exporting_png: false,
            welcome: true,
            clipboard: None,
            active_machine,
            machine_selection: MachineSelection::Nothing,
            active_machine_layer: 0,
            machine_preview_inputs: Vec::new(),
            machine_preview_enabled: false,
            machine_drag: None,
            machine_graph_gesture: None,
            listener_draft: ListenerDraft::new(),
        }
    }

    /// Takes one output of a tool. `transaction_open` says whether the history
    /// has a transaction open.
    #[verifier::rlimit(50)]
    pub fn apply_output(
        &mut self,
        run: &mut OutputRun,
        out: ToolOutput,
        doc: &Document,
        transaction_open: bool,
    ) -> (step: OutputStep)
        requires
            doc.wf(),
        ensures
            output_taken(
                *old(self),
                *old(run),
                out,
                *doc,
                transaction_open,
                *final(self),
                *final(run),
                step,
            ),
    {
        match out {
            ToolOutput::BeginTransaction(label) => {
                run.in_transaction = true;
                run.txn_mutated = false;
                OutputStep::Begin(label)
            },
            ToolOutput::CommitTransaction => self.take_commit(run, transaction_open),
            ToolOutput::CancelTransaction => {
                run.document_changed = true;
                run.needs_evaluation = true;
                run.in_transaction = false;
                OutputStep::Cancel
            },
            ToolOutput::Commands(_) => OutputStep::Apply,
            ToolOutput::SetPlayhead(head) => {
                run.needs_repaint = true;
                if self.machine_preview_enabled {
                    OutputStep::Done
                } else {
                    self.playback.head = head;
                    OutputStep::Scrub(head)
                }
            },
            ToolOutput::SwitchTool(tool) => {
                self.active_tool = tool;
                run.needs_repaint = true;
                OutputStep::Done
            },
            ToolOutput::Invalidate => {
                run.needs_repaint = true;
                OutputStep::Done
            },
            ToolOutput::SetCurrentPaint(paint) => {
                self.current_paint = paint;
                run.needs_repaint = true;
                OutputStep::Done
            },
            ToolOutput::RequestSelection(change) => {
                self.take_selection(change, doc);
                run.needs_repaint = true;
                OutputStep::Done
            },
            ToolOutput::Other => OutputStep::Done,
        }
    }

    fn take_commit(&mut self, run: &mut OutputRun, transaction_open: bool) -> (step: OutputStep)
        ensures
            step == (if old(run).in_transaction || transaction_open {
                OutputStep::Commit
            } else {
                OutputStep::Done
            }),
            *final(self) == (Session {
                dirty: old(self).dirty || (if old(run).in_transaction {
                    old(run).txn_mutated
                } else {
                    transaction_open
                }),
                ..*old(self)
            }),
            *final(run) == (OutputRun {
                in_transaction: false,
                document_changed: old(run).document_changed || old(run).txn_mutated
                    || final(self).dirty,
                ..*old(run)
            }),
    {
        let mut step = OutputStep::Done;
        if run.in_transaction {
            step = OutputStep::Commit;
            if run.txn_mutated {
                self.dirty = true;
            }
            run.in_transaction = false;
        } else if transaction_open {
            step = OutputStep::Commit;
            self.dirty = true;
        }
        if run.txn_mutated || self.dirty {
            run.document_changed = true;
        }
        step
    }

    fn take_selection(&mut self, change: SelectionChange, doc: &Document)
        requires
            doc.wf(),
        ensures
            final(self).selection@ == (match change {
                SelectionChange::Replace(ids) => ids@,
                SelectionChange::Toggle(id) => toggled(old(self).selection@, id),
            }),
            final(self).expanded_layers@ == old(self).expanded_layers@.union(
                doc.ancestors_of(final(self).selection@),
            ),
            *final(self) == (Session {
                selection: final(self).selection,
                expanded_layers: final(self).expanded_layers,
                ..*old(self)
            }),
    {
        match change {
            SelectionChange::Replace(ids) => {
                self.selection = ids;
            },
            SelectionChange::Toggle(id) => {
                self.toggle_selected(id);
            },
        }
        self.ensure_selection_visible(doc);
    }

    fn toggle_selected(&mut self, id: NodeId)
        ensures
            final(self).selection@ == toggled(old(self).selection@, id),
            *final(self) == (Session { selection: final(self).selection, ..*old(self) }),
    {
        proof {
            lemma_first_index(self.selection@, id);
        }
        match position(&self.selection, id) {
            Some(i) => {
                self.selection.remove(i);
            },
            None => {
                self.selection.push(id);
            },
        }
    }

    /// Takes what the history said of the commands of one output. `doc` is the
    /// document after them.
    pub fn commands_applied(
        &mut self,
        run: &mut OutputRun,
        replies: Vec<Result<Applied, String>>,
        doc: &Document,
        transaction_open: bool,
    )
        requires
            doc.wf(),
        ensures
            replies_taken(
                *old(self),
                *old(run),
                replies@,
                *doc,
                transaction_open,
                *final(self),
                *final(run),
            ),
    {
        let ghost all = replies@;
        let ghost start = *self;
        let mut i: usize = 0;
        assert(all.take(0) =~= Seq::empty());
        while i < replies.len()
            invariant
                i <= replies@.len(),
                all == replies@,
                self.dirty == (start.dirty || some_applied(all.take(i as int))),
                self.selection@ == selection_after(start.selection@, all.take(i as int)),
                match last_failure(all.take(i as int)) {
                    Some(text) => reads(self.status, text),
                    None => self.status == start.status,
                },
                *self == (Session {
                    dirty: self.dirty,
                    selection: self.selection,
                    status: self.status,
                    ..start
                }),
            decreases replies.len() - i,
        {
            let ghost before = all.take(i as int);
            let ghost now = all.take(i + 1);
            assert(now.drop_last() =~= before);
            assert(now.last() == all[i as int]);
            proof {
                if some_applied(before) {
                    let k = choose|k: int| 0 <= k < before.len() && (#[trigger] before[k]) is Ok;
                    assert(now[k] is Ok);
                }
                if some_applied(now) && !(all[i as int] is Ok) {
                    let k = choose|k: int| 0 <= k < now.len() && (#[trigger] now[k]) is Ok;
                    assert(before[k] is Ok);
                }
                assert(now[i as int] == all[i as int]);
            }
            match &replies[i] {
                Ok(applied) => {
                    self.dirty = true;
                    if let Some(id) = applied.created {
                        let mut one: Vec<NodeId> = Vec::new();
                        one.push(id);
                        self.selection = one;
                    }
                },
                Err(error) => {
                    self.status = Some(Message::Built(crate::strings::joined("Edit failed: ", error)));
                },
            }
            i = i + 1;
        }
        assert(all.take(all.len() as int) =~= all);
        self.ensure_selection_visible(doc);
        run.document_changed = true;
        run.needs_evaluation = true;
        if run.in_transaction || transaction_open {
            run.txn_mutated = true;
        } else {
            run.mutated_outside_transaction = true;
        }
    }

    /// Ends a run of outputs.
    pub fn outputs_done(&mut self, run: &OutputRun) -> (end: OutputEnd)
        ensures
            outputs_ended(*old(self), *run, *final(self), end),
    {
        if run.mutated_outside_transaction {
            self.dirty = true;
        }
        if run.document_changed || run.needs_evaluation || run.needs_repaint {
            self.repaint();
        }
        OutputEnd { sync_timeline: run.document_changed, reevaluate: run.needs_evaluation }
    }

    /// Takes what the history said of one command.
    pub fn history_apply_full(&mut self, reply: Result<Applied, String>) -> (r: Option<Applied>)
        ensures
            match reply {
                Ok(applied) => {
                    &&& r == Some(applied)
                    &&& *final(self) == (Session { dirty: true, ..*old(self) })
                },
                Err(e) => {
                    &&& r is None
                    &&& reads(final(self).status, "Edit failed: "@ + e@)
                    &&& *final(self) == (Session { status: final(self).status, ..*old(self) })
                },
            },
    {
        match reply {
            Ok(applied) => {
                self.dirty = true;
                Some(applied)
            },
            Err(error) => {
                self.status = Some(Message::Built(crate::strings::joined("Edit failed: ", &error)));
                None
            },
        }
    }

    /// The same, for the node that the command created.
    pub fn history_apply(&mut self, reply: Result<Applied, String>) -> (r: Option<NodeId>)
        ensures
            match reply {
                Ok(applied) => {
                    &&& r == applied.created
                    &&& *final(self) == (Session { dirty: true, ..*old(self) })
                },
                Err(e) => {
                    &&& r is None
                    &&& reads(final(self).status, "Edit failed: "@ + e@)
                    &&& *final(self) == (Session { status: final(self).status, ..*old(self) })
                },
            },
    {
        match self.history_apply_full(reply) {
            Some(applied) => applied.created,
            None => None,
        }
    }

    /// Opens the layer rows above the selected nodes.
    pub fn ensure_selection_visible(&mut self, doc: &Document)
        requires
            doc.wf(),
        ensures
            final(self).expanded_layers@ == old(self).expanded_layers@.union(
                doc.ancestors_of(old(self).selection@),
            ),
            *final(self) == (Session {
                expanded_layers: final(self).expanded_layers,
                ..*old(self)
            }),
    {
        doc.reveal_selection(&self.selection, &mut self.expanded_layers);
    }

    /// Asks for a frame.
    pub fn repaint(&mut self)
        ensures
            *final(self) == (Session { revision: next_revision(old(self).revision), ..*old(self) }),
    {
        self.revision = self.revision.wrapping_add(1);
    }

    pub fn set_active_page(&mut self, page: PanelPage)
        ensures
            *final(self) == (Session {
                active_page: page,
                revision: next_revision(old(self).revision),
                ..*old(self)
            }),
    {
        self.active_page = page;
        self.repaint();
    }

    /// Picks a tool.
    pub fn select_tool(&mut self, tool: ToolId)
        ensures
            *final(self) == (Session {
                active_tool: tool,
                revision: next_revision(old(self).revision),
                ..*old(self)
            }),
    {
        self.active_tool = tool;
        self.repaint();
    }

    /// Stops playing.
    pub(crate) fn stop_timeline_playback(&mut self)
        ensures
            *final(self) == (Session {
                playing: false,
                playback: stopped(old(self).playback, old(self).playing),
                ..*old(self)
            }),
    {
        if self.playing {
            self.playing = false;
            self.playback.state = PlayState::Stopped;
        }
    }

    /// Starts or stops playing.
    pub fn toggle_playback(&mut self)
        ensures
            *final(self) == (Session {
                playing: !old(self).playing,
                playback: Playback {
                    state: if old(self).playing {
                        PlayState::Stopped
                    } else {
                        PlayState::Playing
                    },
                    ..old(self).playback
                },
                ..*old(self)
            }),
    {
        self.playing = !self.playing;
        self.playback.state = if self.playing {
            PlayState::Playing
        } else {
            PlayState::Stopped
        };
    }

    /// Whether property writes make keyframes in `mode`.
    pub open spec fn records(mode: EditorMode) -> bool {
        mode == EditorMode::Animate
    }

    fn record_for_mode(mode: EditorMode) -> (r: bool)
        ensures
            r == Session::records(mode),
    {
        matches!(mode, EditorMode::Animate)
    }

    /// Whether property writes make keyframes now: outside Animate they never do.
    pub fn record_for_writes(&self) -> (r: bool)
        ensures
            r == self.writes_keys(),
    {
        self.record && Self::record_for_mode(self.mode)
    }

    pub open spec fn writes_keys(&self) -> bool {
        self.record && Session::records(self.mode)
    }

    /// The line for the status bar, taken to be shown.
    pub fn take_status(&mut self) -> (r: Option<Message>)
        ensures
            r == old(self).status,
            *final(self) == (Session { status: None, ..*old(self) }),
    {
        self.status.take()
    }

    /// Shows `text` in the status bar and asks for a frame.
    pub fn refuse(&mut self, text: &'static str)
        ensures
            *final(self) == old(self).refused(text),
    {
        self.status = Some(Message::Fixed(text));
        self.repaint();
    }

    /// The session after it has shown `text`.
    pub open spec fn refused(self, text: &'static str) -> Session {
        Session {
            status: Some(Message::Fixed(text)),
            revision: next_revision(self.revision),
            ..self
        }
    }
}

} // verus!
