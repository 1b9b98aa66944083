//! What the session makes of the outputs of a tool and of the replies to its commands.
use vstd::prelude::*;

use crate::assets::{
    apply_font, font_is_active, remove_font, remove_image, FontAssetRow, ImageAssetRow,
};
use crate::commands::{
    Applied, Edit, EditorCommand, Head, Label, Message, SelectionChange, ToolId, ToolOutput,
};
use crate::fields::{NameField, NameFrame};
use crate::machine::MachineId;
use crate::model::{Document, Handle, NodeId};
use crate::session::{
    last_failure, selection_after, toggled, OutputEnd, OutputRun, OutputStep, PanelPage, Session,
};
use crate::strings::trimmed;

verus! {

/// Whether the reply created a node.
pub open spec fn creates(reply: Result<Applied, String>) -> bool {
    reply is Ok && reply->Ok_0.created is Some
}

proof fn lemma_selection_after(sel: Seq<NodeId>, replies: Seq<Result<Applied, String>>, k: int)
    ensures
        0 <= k < replies.len() && creates(replies[k]) && (forall|j: int|
            k < j < replies.len() ==> !creates(#[trigger] replies[j])) ==> selection_after(
            sel,
            replies,
        ) == seq![replies[k]->Ok_0.created->0],
        (forall|j: int| 0 <= j < replies.len() ==> !creates(#[trigger] replies[j]))
            ==> selection_after(sel, replies) == sel,
    decreases replies.len(),
{
    if replies.len() > 0 {
        let front = replies.drop_last();
        lemma_selection_after(sel, front, k);
        assert(replies[replies.len() - 1] == replies.last());
        assert forall|j: int| 0 <= j < front.len() implies #[trigger] front[j] == replies[j] by {}
    }
}

proof fn lemma_last_failure(replies: Seq<Result<Applied, String>>, k: int)
    ensures
        0 <= k < replies.len() && replies[k] is Err && (forall|j: int|
            k < j < replies.len() ==> (#[trigger] replies[j]) is Ok) ==> last_failure(replies)
            == Some("Edit failed: "@ + replies[k]->Err_0@),
        (forall|j: int| 0 <= j < replies.len() ==> (#[trigger] replies[j]) is Ok) ==> last_failure(
            replies,
        ) is None,
    decreases replies.len(),
{
    if replies.len() > 0 {
        let front = replies.drop_last();
        lemma_last_failure(front, k);
        assert(replies[replies.len() - 1] == replies.last());
        assert forall|j: int| 0 <= j < front.len() implies #[trigger] front[j] == replies[j] by {}
    }
}

/// Replies to commands: the document has changed where one was applied, the node that was
/// created last is selected, and the failure that came last is shown.
pub proof fn law_replies_are_taken(
    a: Session,
    b: Session,
    run: OutputRun,
    after: OutputRun,
    replies: Vec<Result<Applied, String>>,
    doc: Document,
    transaction_open: bool,
    k: int,
)
    requires
        doc.wf(),
        exists|s: &mut Session, o: &mut OutputRun| #[trigger]
            call_ensures(
                Session::commands_applied,
                (s, o, replies, &doc, transaction_open),
                (),
            ) && *s == a && *final(s) == b && *o == run && *final(o) == after,
    ensures
        b.dirty <==> a.dirty || exists|j: int|
            0 <= j < replies@.len() && (#[trigger] replies@[j]) is Ok,
        0 <= k < replies@.len() && creates(replies@[k]) && (forall|j: int|
            k < j < replies@.len() ==> !creates(#[trigger] replies@[j])) ==> b.selection@ == seq![
            replies@[k]->Ok_0.created->0,
        ],
        (forall|j: int| 0 <= j < replies@.len() ==> !creates(#[trigger] replies@[j]))
            ==> b.selection@ == a.selection@,
        0 <= k < replies@.len() && replies@[k] is Err && (forall|j: int|
            k < j < replies@.len() ==> (#[trigger] replies@[j]) is Ok) ==> b.status is Some
            && b.status->0.text() == "Edit failed: "@ + replies@[k]->Err_0@,
        (forall|j: int| 0 <= j < replies@.len() ==> (#[trigger] replies@[j]) is Ok) ==> b.status
            == a.status,
        after.document_changed && after.needs_evaluation,
        run.in_transaction || transaction_open ==> after.txn_mutated
            && after.mutated_outside_transaction == run.mutated_outside_transaction,
        !run.in_transaction && !transaction_open ==> after.mutated_outside_transaction,
        after.in_transaction == run.in_transaction,
        forall|x: NodeId| #[trigger]
            b.expanded_layers@.contains(x) <==> a.expanded_layers@.contains(x) || exists|i: int|
                0 <= i < b.selection@.len()
                    && doc.ancestors(#[trigger] b.selection@[i]).contains(x),
{
    lemma_selection_after(a.selection@, replies@, k);
    lemma_last_failure(replies@, k);
}

/// An output of a tool does what it says: it begins, commits or cancels a transaction,
/// moves the playhead unless the preview runs, switches the tool, sets the paint or the
/// selection, and nothing else.
pub proof fn law_outputs_do_what_they_say(
    a: Session,
    b: Session,
    run: OutputRun,
    after: OutputRun,
    out: ToolOutput,
    doc: Document,
    open: bool,
    step: OutputStep,
)
    requires
        doc.wf(),
        exists|s: &mut Session, o: &mut OutputRun| #[trigger]
            call_ensures(Session::apply_output, (s, o, out, &doc, open), step) && *s == a
                && *final(s)
                == b && *o == run && *final(o) == after,
    ensures
        out matches ToolOutput::BeginTransaction(label) ==> step == OutputStep::Begin(label) && b
            == a && after.in_transaction && !after.txn_mutated,
        out is CommitTransaction ==> {
            &&& step is Commit <==> run.in_transaction || open
            &&& step is Done <==> !run.in_transaction && !open
            &&& !after.in_transaction
            &&& run.in_transaction ==> b.dirty == (a.dirty || run.txn_mutated)
            &&& !run.in_transaction ==> b.dirty == (a.dirty || open)
        },
        out is CancelTransaction ==> step is Cancel && b == a && !after.in_transaction
            && after.document_changed && after.needs_evaluation,
        out is Commands ==> step is Apply && b == a && after == run,
        out matches ToolOutput::SetPlayhead(head) ==> {
            &&& !a.machine_preview_enabled ==> step == OutputStep::Scrub(head) && b.playback.head
                == head
            &&& a.machine_preview_enabled ==> step is Done && b.playback == a.playback
        },
        out matches ToolOutput::SwitchTool(tool) ==> b.active_tool == tool && step is Done,
        out matches ToolOutput::SetCurrentPaint(paint) ==> b.current_paint == paint && step is Done,
        out matches ToolOutput::RequestSelection(SelectionChange::Replace(ids)) ==> b.selection@
            == ids@,
        out matches ToolOutput::RequestSelection(SelectionChange::Toggle(id)) ==> (
        !a.selection@.contains(id) ==> b.selection@ == a.selection@.push(id)),
        out matches ToolOutput::RequestSelection(SelectionChange::Toggle(id)) ==> b.selection@
            == toggled(a.selection@, id),
        out is RequestSelection ==> forall|x: NodeId| #[trigger]
            b.expanded_layers@.contains(x) <==> a.expanded_layers@.contains(x) || exists|i: int|
                0 <= i < b.selection@.len()
                    && doc.ancestors(#[trigger] b.selection@[i]).contains(x),
        out is SetPlayhead || out is SwitchTool || out is Invalidate
            || out is SetCurrentPaint || out
            is RequestSelection ==> after == (OutputRun { needs_repaint: true, ..run }),
        out is Other ==> step is Done && b == a && after == run,
        out is Invalidate ==> step is Done && b == a,
        out is CommitTransaction ==> after.document_changed == (run.document_changed
            || run.txn_mutated || b.dirty) && after.needs_evaluation == run.needs_evaluation
            && after.needs_repaint == run.needs_repaint,
        !(out is RequestSelection) ==> b.selection == a.selection && b.expanded_layers
            == a.expanded_layers,
        !(out is SwitchTool) ==> b.active_tool == a.active_tool,
        !(out is SetCurrentPaint) ==> b.current_paint == a.current_paint,
        !(out is SetPlayhead) ==> b.playback == a.playback,
        !(out is CommitTransaction) ==> b.dirty == a.dirty,
        b.clipboard == a.clipboard && b.mode == a.mode && b.status == a.status,
{
    if let ToolOutput::RequestSelection(SelectionChange::Toggle(id)) = out {
        crate::seqs::lemma_first_index(a.selection@, id);
    }
}

/// Toggling a selected node takes its first occurrence out and leaves the order of the
/// others; toggling another one adds it at the end.
pub proof fn law_toggle_keeps_the_order(sel: Seq<NodeId>, id: NodeId, i: int)
    ensures
        0 <= i < sel.len() && sel[i] == id && (forall|j: int| 0 <= j < i ==> sel[j] != id)
            ==> toggled(sel, id) == sel.take(i) + sel.skip(i + 1),
        !sel.contains(id) ==> toggled(sel, id) == sel.push(id),
{
    crate::seqs::lemma_first_index(sel, id);
    if 0 <= i < sel.len() && sel[i] == id && (forall|j: int| 0 <= j < i ==> sel[j] != id) {
        crate::seqs::lemma_first_index_is(sel, id, i);
        assert(sel.remove(i) =~= sel.take(i) + sel.skip(i + 1));
    }
}

/// An edit is carried out in one transaction: it begins it, carries out its commands,
/// commits it and selects what it says.
pub proof fn law_an_edit_is_one_transaction(e: Edit, r: Vec<ToolOutput>)
    requires
        call_ensures(Edit::outputs, (e,), r),
    ensures
        r@.len() == (if e.select is Some {
            4int
        } else {
            3int
        }),
        r@[0] == ToolOutput::BeginTransaction(Label::Text(e.label)),
        r@[1] == ToolOutput::Commands(e.commands),
        r@[2] is CommitTransaction,
        e.select matches Some(ids) ==> r@[3] == ToolOutput::RequestSelection(
            SelectionChange::Replace(ids),
        ),
{
}

/// An edit of its outputs, its commands answered: a session that was clean is changed
/// exactly where a command ran, nothing stays open, and the scene is evaluated anew.
pub proof fn law_carrying_out_an_edit_dirties_the_session(
    a: Session,
    run: OutputRun,
    label: Label,
    commands: Vec<EditorCommand>,
    replies: Vec<Result<Applied, String>>,
    doc: Document,
)
    requires
        doc.wf(),
        run == OutputRun::fresh(),
    ensures
        forall|
            s: &mut Session,
            t: &mut Session,
            u: &mut Session,
            v: &mut Session,
            o: &mut OutputRun,
            p: &mut OutputRun,
            q: &mut OutputRun,
            begin: OutputStep,
            commit: OutputStep,
            end: OutputEnd,
        |
            *s == a && *t == *final(s) && *u == *final(t) && *v == *final(u) && *o == run && *p
                == *final(o) && *q == *final(p) && #[trigger] call_ensures(
                Session::apply_output,
                (s, o, ToolOutput::BeginTransaction(label), &doc, false),
                begin,
            ) && #[trigger] call_ensures(
                Session::commands_applied,
                (t, p, replies, &doc, true),
                (),
            ) && #[trigger] call_ensures(
                Session::apply_output,
                (u, q, ToolOutput::CommitTransaction, &doc, true),
                commit,
            ) && #[trigger] call_ensures(Session::outputs_done, (v, final(q)), end) ==> {
                &&& begin == OutputStep::Begin(label)
                &&& commit is Commit
                &&& !(*final(q)).in_transaction
                &&& (*final(v)).dirty
                &&& end.reevaluate && end.sync_timeline
            },
{
}

/// The end of a run of outputs asks for what happened in it.
pub proof fn law_outputs_end_with_what_happened(a: Session, run: OutputRun)
    ensures
        forall|s: &mut Session, end: OutputEnd|
            *s == a && #[trigger] call_ensures(Session::outputs_done, (s, &run), end) ==> {
                &&& end.sync_timeline == run.document_changed
                &&& end.reevaluate == run.needs_evaluation
                &&& (*final(s)).dirty == (a.dirty || run.mutated_outside_transaction)
                &&& (*final(s)).selection == a.selection
                &&& !run.document_changed && !run.needs_evaluation && !run.needs_repaint
                    ==> (*final(s)).revision == a.revision
                &&& run.document_changed || run.needs_evaluation || run.needs_repaint
                    ==> (*final(s)).revision != a.revision
            },
{
}

/// An applied command marks the document as changed and hands on what it created; a
/// failed one only says so.
pub proof fn law_applied_commands_dirty_the_document(a: Session, reply: Result<Applied, String>)
    ensures
        forall|s: &mut Session, r: Option<NodeId>|
            *s == a && #[trigger] call_ensures(Session::history_apply, (s, reply), r) ==> {
                &&& reply is Ok ==> (*final(s)).dirty && r == reply->Ok_0.created
                    && (*final(s)).status == a.status
                &&& reply is Err ==> r is None && (*final(s)).dirty == a.dirty && (*final(s)).status
                    is Some && (*final(s)).status->0.text() == "Edit failed: "@ + reply->Err_0@
                &&& (*final(s)).selection == a.selection
            },
        forall|s: &mut Session, r: Option<Applied>|
            *s == a && #[trigger] call_ensures(Session::history_apply_full, (s, reply), r) ==> {
                &&& reply is Ok ==> (*final(s)).dirty && r == Some(reply->Ok_0)
                &&& reply is Err ==> r is None && (*final(s)).dirty == a.dirty
                &&& (*final(s)).selection == a.selection
            },
{
}

/// Toggling the playback twice leaves it as it was; the two marks of playing agree.
pub proof fn law_playback_is_toggled(a: Session)
    ensures
        forall|s: &mut Session, t: &mut Session|
            *s == a && *t == *final(s)
                && #[trigger] call_ensures(Session::toggle_playback, (s,), ())
                && #[trigger] call_ensures(Session::toggle_playback, (t,), ()) ==> {
                &&& (*final(s)).playing == !a.playing
                &&& (*final(s)).playing <==> (*final(s)).playback.state is Playing
                &&& (*final(t)).playing == a.playing
                &&& (*final(s)).playback.head == a.playback.head
                &&& (*final(s)).playback.range == a.playback.range
                &&& (*final(s)).playback.loop_mode == a.playback.loop_mode
            },
{
}

/// A new session has nothing selected, copied, open or unsaved, designs, stands at the
/// start of its range and plays nothing.
pub proof fn law_new_sessions_are_empty(
    range: (i64, i64),
    machine: Option<MachineId>,
    paint: Handle,
    r: Session,
)
    requires
        call_ensures(Session::new, (range, machine, paint), r),
    ensures
        r.selection@.len() == 0 && r.clipboard is None && r.current_path is None && !r.dirty,
        r.mode is Design && !r.record && !r.playing && r.playback.state is Stopped,
        r.playback.head == Head::Frame(range.0) && r.playback.range == range,
        r.active_tool is Select && r.active_page is Canvas && r.welcome && r.current_paint == paint,
        r.active_machine == machine && r.machine_selection is Nothing,
        r.machine_preview_inputs@.len() == 0 && !r.machine_preview_enabled,
        r.open_picker is None && r.context_menu is None && r.status is None && r.renaming is None,
        r.pending_intent is None && !r.exporting_png,
        forall|run: OutputRun| #[trigger]
            call_ensures(OutputRun::new, (), run) ==> !run.document_changed
                && !run.needs_evaluation && !run.needs_repaint && !run.in_transaction
                && !run.txn_mutated && !run.mutated_outside_transaction,
{
}

/// Small changes of the session: the page, the tool, the status that is taken once, and
/// when edits write keys.
pub proof fn law_small_changes(a: Session)
    ensures
        forall|s: &mut Session, page: PanelPage|
            *s == a && #[trigger] call_ensures(Session::set_active_page, (s, page), ())
                ==> (*final(s)).active_page == page && (*final(s)).mode == a.mode,
        forall|s: &mut Session, tool: ToolId|
            *s == a && #[trigger] call_ensures(Session::select_tool, (s, tool), ())
                ==> (*final(s)).active_tool == tool && (*final(s)).selection == a.selection,
        forall|s: &mut Session, t: &mut Session, first: Option<Message>, second: Option<Message>|
            *s == a && *t == *final(s)
                && #[trigger] call_ensures(Session::take_status, (s,), first)
                && #[trigger] call_ensures(Session::take_status, (t,), second) ==> first == a.status
                && second is None,
        forall|r: bool| #[trigger]
            call_ensures(Session::record_for_writes, (&a,), r) ==> (r <==> a.record && a.mode
                is Animate),
        forall|s: &mut Session, text: &'static str|
            *s == a && #[trigger] call_ensures(Session::refuse, (s, text), ()) ==> {
                &&& (*final(s)).status == Some(Message::Fixed(text))
                &&& (*final(s)).dirty == a.dirty && (*final(s)).selection == a.selection
                &&& (*final(s)).clipboard == a.clipboard
            },
{
}

/// A name field keeps what is typed while it has the focus, shows the value otherwise,
/// and commits the value, trimmed, once when it loses the focus.
pub proof fn law_name_fields_commit_on_leaving(f: NameField, value: &str)
    ensures
        forall|s: &mut NameField, focused: bool, r: NameFrame|
            *s == f && #[trigger] call_ensures(NameField::frame, (s, value, focused), r) ==> {
                &&& focused ==> r.shown@ == f.draft@ && r.commit is None && (*final(s)).draft@
                    == f.draft@
                &&& !focused ==> r.shown@ == value@ && (*final(s)).draft@ == value@
                &&& r.commit is Some <==> f.was_focused && !focused
                &&& r.commit matches Some(text) ==> text@ == trimmed(value@)
                &&& (*final(s)).was_focused == focused
            },
        forall|s: &mut NameField, kept: String, reply: Result<(), String>|
            *s == f && #[trigger] call_ensures(NameField::committed, (s, kept, reply), ()) ==> {
                &&& reply is Ok ==> (*final(s)).draft == kept && (*final(s)).error is None
                &&& reply is Err ==> (*final(s)).draft == f.draft && (*final(s)).error == Some(
                    reply->Err_0,
                )
            },
        forall|s: &mut NameField, text: String|
            *s == f && #[trigger] call_ensures(NameField::edited, (s, text), ())
                ==> (*final(s)).draft == text && (*final(s)).error == f.error,
        forall|r: String| #[trigger]
            call_ensures(NameField::submitted, (value,), r) ==> r@ == trimmed(value@),
{
}

/// Only what nothing uses is removed, and no bundled font; a font is applied by its
/// family, the default one by none.
pub proof fn law_only_unused_assets_are_removed(
    image: ImageAssetRow,
    font: FontAssetRow,
    text: NodeId,
    family: Handle,
)
    requires
        !font.bundled && font.usage_count == 0 ==> font.id is Some,
    ensures
        forall|r: Option<Edit>| #[trigger]
            call_ensures(remove_image, (&image,), r) ==> {
                &&& r is Some <==> image.usage_count == 0
                &&& r matches Some(e) ==> e.commands@ == seq![
                    EditorCommand::DetachAsset { asset: image.id },
                ]
            },
        forall|r: Option<Edit>| #[trigger]
            call_ensures(remove_font, (&font,), r) ==> {
                &&& r is Some <==> font.usage_count == 0 && !font.bundled
                &&& r matches Some(e) ==> e.commands@ == seq![
                    EditorCommand::DetachAsset { asset: font.id->0 },
                ]
            },
        forall|r: Edit| #[trigger]
            call_ensures(apply_font, (&font, text, family), r) ==> {
                &&& font.family@ == "default"@ ==> r.commands@ == seq![
                    EditorCommand::SetTextFont { id: text, font: None },
                ]
                &&& font.family@ != "default"@ ==> r.commands@ == seq![
                    EditorCommand::SetTextFont { id: text, font: Some(family) },
                ]
            },
        forall|selected: bool, name: &str, r: bool| #[trigger]
            call_ensures(font_is_active, (&font, selected, Some(name)), r) ==> (r <==> selected
                && font.family@ == name@),
{
}

} // verus!
