//! What holds of the editor as a whole: facts that relate several of its functions,
//! stated over the spec functions of their contracts.
use vstd::prelude::*;

use crate::arrange::Move;
use crate::clipboard::{paste_order, pasted_before, same_items, InsertRun};
use crate::commands::{Applied, Edit, EditorCommand, Label, ToolOutput};
use crate::font::{family_name, FontRegistry};
use crate::graph::history_followed;
use crate::inspect::value_writes;
use crate::machine::{selectable, stray_transition, Comparison, InputKind, InputValue, Machine};
use crate::machine_edit::comparison_after;
use crate::model::{Document, Handle, NodeId, Parent, StyleKind};
use crate::preview::{restored_all, value_at};
use crate::seqs::{lemma_filter_contains, lemma_first_index, lemma_first_index_is};
use crate::session::{
    next_revision, output_taken, outputs_ended, replies_taken, selection_after, toggled,
    ClipboardItem, EditorMode, EngineSwitch, LoopMode, OpenPicker, OutputEnd, OutputRun, OutputStep,
    PickerTarget, Session,
};
use crate::strings::{decimal, number, signed};
use crate::timeline::loop_after;
use crate::tree::{dedup, meets};

verus! {

proof fn lemma_ancestors_step(doc: Document, id: NodeId, above: NodeId, top: NodeId)
    requires
        doc.wf(),
        doc.ancestors(id).contains(above),
        doc.ancestors(above).contains(top),
    ensures
        doc.ancestors(id).contains(top),
    decreases doc.rank(id),
{
    let p = doc.node(id).parent->0;
    assert(doc.ancestors(id) =~= seq![p] + doc.ancestors(p));
    let i = choose|i: int| 0 <= i < doc.ancestors(id).len() && doc.ancestors(id)[i] == above;
    if i > 0 {
        assert(doc.ancestors(p)[i - 1] == above);
        lemma_ancestors_step(doc, p, above, top);
    }
    let j = choose|j: int| 0 <= j < doc.ancestors(p).len() && doc.ancestors(p)[j] == top;
    assert(doc.ancestors(id)[j + 1] == top);
}

proof fn lemma_ancestor_rank(doc: Document, id: NodeId, above: NodeId)
    requires
        doc.wf(),
        doc.ancestors(id).contains(above),
    ensures
        doc.rank(above) < doc.rank(id),
        doc.has(id),
    decreases doc.rank(id),
{
    let p = doc.node(id).parent->0;
    assert(doc.ancestors(id) =~= seq![p] + doc.ancestors(p));
    let i = choose|i: int| 0 <= i < doc.ancestors(id).len() && doc.ancestors(id)[i] == above;
    if i > 0 {
        assert(doc.ancestors(p)[i - 1] == above);
        lemma_ancestor_rank(doc, p, above);
    }
}

/// No node contains itself, and containment goes only one way.
pub proof fn law_nothing_contains_itself(doc: Document, id: NodeId, other: NodeId)
    requires
        doc.wf(),
    ensures
        !doc.ancestors(id).contains(id),
        doc.ancestors(id).contains(other) ==> !doc.ancestors(other).contains(id),
{
    if doc.ancestors(id).contains(id) {
        lemma_ancestor_rank(doc, id, id);
    }
    if doc.ancestors(id).contains(other) && doc.ancestors(other).contains(id) {
        lemma_ancestor_rank(doc, id, other);
        lemma_ancestor_rank(doc, other, id);
    }
}

/// No root of a selection contains another one.
pub proof fn law_roots_do_not_contain_each_other(
    doc: Document,
    sel: Seq<NodeId>,
    a: NodeId,
    b: NodeId,
)
    requires
        doc.wf(),
        doc.roots(sel).contains(a),
        doc.roots(sel).contains(b),
    ensures
        !doc.ancestors(a).contains(b),
{
    let keep = |id: NodeId| !doc.covered(sel, id);
    lemma_filter_contains(sel, keep, a);
    lemma_filter_contains(sel, keep, b);
    if doc.ancestors(a).contains(b) {
        let i = choose|i: int| 0 <= i < doc.ancestors(a).len() && doc.ancestors(a)[i] == b;
        assert(sel.contains(doc.ancestors(a)[i]));
        assert(meets(sel, doc.ancestors(a)));
    }
}

/// Every selected node is a root of the selection or stands below one.
pub proof fn law_roots_cover_the_selection(doc: Document, sel: Seq<NodeId>, id: NodeId) -> (root:
    NodeId)
    requires
        doc.wf(),
        sel.contains(id),
    ensures
        doc.roots(sel).contains(root),
        root == id || doc.ancestors(id).contains(root),
    decreases doc.rank(id),
{
    let keep = |id: NodeId| !doc.covered(sel, id);
    lemma_filter_contains(sel, keep, id);
    if doc.covered(sel, id) {
        let i = choose|i: int|
            0 <= i < doc.ancestors(id).len() && sel.contains(#[trigger] doc.ancestors(id)[i]);
        let above = doc.ancestors(id)[i];
        assert(doc.ancestors(id).contains(above));
        lemma_ancestor_rank(doc, id, above);
        let root = law_roots_cover_the_selection(doc, sel, above);
        if root != above {
            lemma_ancestors_step(doc, id, above, root);
        }
        root
    } else {
        id
    }
}

/// The roots of the roots are the roots: what a command takes is settled.
pub proof fn law_roots_are_settled(doc: Document, sel: Seq<NodeId>)
    requires
        doc.wf(),
    ensures
        doc.roots(doc.roots(sel)) == doc.roots(sel),
{
    let roots = doc.roots(sel);
    let keep = |id: NodeId| !doc.covered(roots, id);
    assert forall|i: int| 0 <= i < roots.len() implies keep(#[trigger] roots[i]) by {
        let id = roots[i];
        assert(roots.contains(id));
        if doc.covered(roots, id) {
            let j = choose|j: int|
                0 <= j < doc.ancestors(id).len() && roots.contains(#[trigger] doc.ancestors(id)[j]);
            law_roots_do_not_contain_each_other(doc, sel, id, doc.ancestors(id)[j]);
            assert(doc.ancestors(id).contains(doc.ancestors(id)[j]));
        }
    }
    lemma_filter_all(roots, keep);
}

proof fn lemma_filter_all(s: Seq<NodeId>, keep: spec_fn(NodeId) -> bool)
    requires
        forall|i: int| 0 <= i < s.len() ==> keep(#[trigger] s[i]),
    ensures
        s.filter(keep) == s,
    decreases s.len(),
{
    reveal(Seq::filter);
    if s.len() > 0 {
        let front = s.drop_last();
        assert forall|i: int| 0 <= i < front.len() implies keep(#[trigger] front[i]) by {
            assert(front[i] == s[i]);
        }
        lemma_filter_all(front, keep);
        assert(keep(s[s.len() - 1]));
        assert(s.filter(keep) =~= front.push(s.last()));
        assert(front.push(s.last()) =~= s);
    } else {
        assert(s.filter(keep) =~= s);
    }
}

/// Dropping later copies leaves each element exactly once.
pub proof fn law_dedup_keeps_each_once(s: Seq<NodeId>)
    ensures
        dedup(s).no_duplicates(),
        forall|x: NodeId| #[trigger] dedup(s).contains(x) <==> s.contains(x),
    decreases s.len(),
{
    if s.len() > 0 {
        let front = dedup(s.drop_last());
        law_dedup_keeps_each_once(s.drop_last());
        assert forall|x: NodeId| #[trigger] dedup(s).contains(x) <==> s.contains(x) by {
            assert(front.contains(x) <==> s.drop_last().contains(x));
            if s.contains(x) {
                let i = choose|i: int| 0 <= i < s.len() && s[i] == x;
                if i < s.len() - 1 {
                    assert(s.drop_last()[i] == x);
                    assert(front.contains(x));
                }
                if front.contains(x) && !front.contains(s.last()) {
                    let j = choose|j: int| 0 <= j < front.len() && front[j] == x;
                    assert(front.push(s.last())[j] == x);
                }
                if x == s.last() && !front.contains(x) {
                    assert(front.push(x)[front.len() as int] == x);
                }
            }
            if dedup(s).contains(x) {
                if front.contains(x) {
                    let i = choose|i: int| 0 <= i < s.drop_last().len() && s.drop_last()[i] == x;
                    assert(s[i] == x);
                } else {
                    let j = choose|j: int| 0 <= j < dedup(s).len() && dedup(s)[j] == x;
                    if j < front.len() {
                        assert(front[j] == x);
                    }
                    assert(s[s.len() - 1] == x);
                }
            }
        }
    }
}

/// Toggling puts a node into a selection or takes it out, and toggling a node that
/// was not in it twice changes nothing.
pub proof fn law_toggle(sel: Seq<NodeId>, id: NodeId)
    requires
        sel.no_duplicates(),
    ensures
        toggled(sel, id).no_duplicates(),
        toggled(sel, id).contains(id) == !sel.contains(id),
        !sel.contains(id) ==> toggled(toggled(sel, id), id) == sel,
        forall|x: NodeId| x != id ==> toggled(sel, id).contains(x) == sel.contains(x),
{
    lemma_first_index(sel, id);
    let after = toggled(sel, id);
    match crate::seqs::first_index(sel, id) {
        Some(i) => {
            assert(sel.contains(id));
            assert(!after.contains(id)) by {
                if after.contains(id) {
                    let j = choose|j: int| 0 <= j < after.len() && after[j] == id;
                    if j < i {
                        assert(sel[j] == id);
                    } else {
                        assert(sel[j + 1] == id);
                    }
                }
            }
            assert forall|x: NodeId| x != id implies after.contains(x) == sel.contains(x) by {
                if sel.contains(x) {
                    let j = choose|j: int| 0 <= j < sel.len() && sel[j] == x;
                    if j < i {
                        assert(after[j] == x);
                    } else {
                        assert(after[j - 1] == x);
                    }
                }
                if after.contains(x) {
                    let j = choose|j: int| 0 <= j < after.len() && after[j] == x;
                    if j < i {
                        assert(sel[j] == x);
                    } else {
                        assert(sel[j + 1] == x);
                    }
                }
            }
        },
        None => {
            assert(after == sel.push(id));
            assert(after[sel.len() as int] == id);
            assert forall|j: int| 0 <= j < sel.len() implies after[j] != id by {
                assert(sel.contains(sel[j]));
            }
            lemma_first_index_is(after, id, sel.len() as int);
            assert(after.remove(sel.len() as int) =~= sel);
            assert forall|x: NodeId| x != id implies after.contains(x) == sel.contains(x) by {
                if sel.contains(x) {
                    let j = choose|j: int| 0 <= j < sel.len() && sel[j] == x;
                    assert(after[j] == x);
                }
                if after.contains(x) {
                    let j = choose|j: int| 0 <= j < after.len() && after[j] == x;
                    assert(sel[j] == x);
                }
            }
        },
    }
}

/// Stepping through the top-level nodes forward and back again ends where it began.
pub proof fn law_cycling_back_undoes_cycling(children: Seq<NodeId>, id: NodeId)
    requires
        children.no_duplicates(),
        children.contains(id),
    ensures
        crate::arrange::neighbour(
            children,
            seq![crate::arrange::neighbour(children, seq![id], false)],
            true,
        ) == id,
        crate::arrange::neighbour(
            children,
            seq![crate::arrange::neighbour(children, seq![id], true)],
            false,
        ) == id,
{
    let n = children.len() as int;
    let i = choose|i: int| 0 <= i < n && children[i] == id;
    lemma_first_index_is(children, id, i);
    crate::arrange::lemma_turn(i, n);
    let next = children[(i + 1) % n];
    let before = children[(i + (n - 1)) % n];
    lemma_first_index_is(children, next, (i + 1) % n);
    lemma_first_index_is(children, before, (i + (n - 1)) % n);
    crate::arrange::lemma_turn((i + 1) % n, n);
    crate::arrange::lemma_turn((i + (n - 1)) % n, n);
}

/// Whether a command makes a key.
pub open spec fn makes_key(command: EditorCommand) -> bool {
    command matches EditorCommand::SetProperty { keyed, .. } && keyed
}

pub open spec fn makes_no_key(commands: Seq<EditorCommand>) -> bool {
    forall|i: int| 0 <= i < commands.len() ==> !makes_key(#[trigger] commands[i])
}

/// Outside the animation mode, and without the record button, no property write makes
/// a key: not aligning, distributing, flipping or nudging, not a row of the inspector,
/// not a picked colour and not the stops of a gradient.
pub proof fn law_keys_are_written_only_while_animating(
    session: Session,
    doc: Document,
    prop: &'static str,
    moves: Seq<Move>,
    path: Handle,
    target: PickerTarget,
    node: NodeId,
    value: Handle,
)
    requires
        session.mode != EditorMode::Animate || !session.record,
    ensures
        makes_no_key(doc.writes(prop, moves, session.writes_keys())),
        makes_no_key(session.row_written(path, moves)),
        session.picked_write(doc, target, value) matches Some(c) ==> !makes_key(c),
        !makes_key(session.stops_written(node, value)),
{
    lemma_static_moves(doc, prop, moves);
    lemma_static_rows(path, moves);
}

proof fn lemma_static_moves(doc: Document, prop: &'static str, moves: Seq<Move>)
    ensures
        makes_no_key(doc.writes(prop, moves, false)),
    decreases moves.len(),
{
    if moves.len() > 0 {
        lemma_static_moves(doc, prop, moves.drop_last());
    }
}

proof fn lemma_static_rows(path: Handle, values: Seq<Move>)
    ensures
        makes_no_key(value_writes(path, values, false)),
    decreases values.len(),
{
    if values.len() > 0 {
        lemma_static_rows(path, values.drop_last());
    }
}

/// In the design mode nothing moves: entering it ends playback, the machine preview
/// and recording, and leaves a page that the mode does not have.
pub proof fn law_design_is_still(
    before: Session,
    after: Session,
    kinds: Option<Seq<InputKind>>,
    switch: EngineSwitch,
)
    requires
        before.mode != EditorMode::Design,
        before.mode_set(EditorMode::Design, kinds, after, switch),
    ensures
        after.mode == EditorMode::Design,
        !after.playing,
        !after.machine_preview_enabled,
        !after.record,
        !after.writes_keys(),
        after.selection == before.selection,
        after.dirty == before.dirty,
{
}

/// Entering the mode that is already on changes nothing.
pub proof fn law_same_mode_changes_nothing(
    before: Session,
    after: Session,
    kinds: Option<Seq<InputKind>>,
    switch: EngineSwitch,
)
    requires
        before.mode_set(before.mode, kinds, after, switch),
    ensures
        after == before,
        switch == EngineSwitch::Leave,
{
}

/// The loop modes take turns: the third is followed by the first.
pub proof fn law_loop_modes_take_turns(mode: LoopMode)
    ensures
        loop_after(mode) != mode,
        loop_after(loop_after(loop_after(mode))) == mode,
{
}

/// The comparisons take turns: six steps lead round.
pub proof fn law_comparisons_take_turns(op: Comparison)
    ensures
        comparison_after(op) != op,
        comparison_after(comparison_after(comparison_after(op))) != op,
        comparison_after(
            comparison_after(
                comparison_after(comparison_after(comparison_after(comparison_after(op)))),
            ),
        ) == op,
{
}

/// Whether a value is of an input's kind.
pub open spec fn fits(kind: InputKind, value: InputValue) -> bool {
    match kind {
        InputKind::Bool { .. } => value is Bool,
        InputKind::Number { .. } => value is Number,
        InputKind::Trigger => value == (InputValue::Trigger { fired: false }),
    }
}

/// After a machine was rebuilt every preview input has a value of its kind, a value
/// that still fits stays, and no trigger is fired.
pub proof fn law_preview_inputs_fit(kinds: Seq<InputKind>, before: Seq<InputValue>)
    ensures
        restored_all(kinds, before).len() == kinds.len(),
        forall|i: int|
            0 <= i < kinds.len() ==> fits(kinds[i], #[trigger] restored_all(kinds, before)[i]),
        forall|i: int|
            0 <= i < kinds.len() && i < before.len() && fits(kinds[i], before[i])
                ==> #[trigger] restored_all(kinds, before)[i] == before[i],
        restored_all(kinds, restored_all(kinds, before)) == restored_all(kinds, before),
{
    let once = restored_all(kinds, before);
    let twice = restored_all(kinds, once);
    assert forall|i: int| 0 <= i < kinds.len() implies twice[i] == once[i] by {
        assert(value_at(once, i) == Some(once[i]));
    }
    assert(twice =~= once);
}

/// Cancelling the colour picker on the current paint brings back the paint that was
/// current when it was opened, whatever was picked meanwhile.
pub proof fn law_cancelled_picker_restores_paint(
    before: Session,
    opened: Session,
    color: Handle,
    anchor: Handle,
    picked: Handle,
)
    requires
        before.open_picker is None,
        before.context_menu is None,
        opened == (Session {
            open_picker: Some(
                OpenPicker {
                    target: PickerTarget::CurrentPaint,
                    color,
                    anchor,
                    transaction_open: false,
                    cancel_current_paint: Some(before.current_paint),
                },
            ),
            revision: opened.revision,
            ..before
        }),
    ensures
        (Session { current_paint: picked, ..opened }).picker_cancelled() == (Session {
            revision: opened.revision,
            ..before
        }),
{
}

/// After an undo or a redo exactly those nodes stay selected that are still attached, and
/// what is selected of the active machine is there or names a layer that is gone.
pub proof fn law_history_keeps_what_is_attached(
    before: Session,
    doc: Document,
    machine: Option<&Machine>,
    after: Session,
    id: NodeId,
)
    requires
        history_followed(before, doc, machine, after),
    ensures
        after.selection@.contains(id) <==> before.selection@.contains(id) && doc.attached(id),
        after.selection@.len() <= before.selection@.len(),
        after.dirty,
        machine matches Some(m) ==> selectable(*m, after.machine_selection) || stray_transition(
            *m,
            after.machine_selection,
        ),
{
    let keep = |id: NodeId| doc.attached(id);
    lemma_filter_contains(before.selection@, keep, id);
    lemma_filter_len(before.selection@, keep);
}

proof fn lemma_filter_len(s: Seq<NodeId>, keep: spec_fn(NodeId) -> bool)
    ensures
        s.filter(keep).len() <= s.len(),
    decreases s.len(),
{
    reveal(Seq::filter);
    if s.len() > 0 {
        lemma_filter_len(s.drop_last(), keep);
    }
}

/// The style that is found for a shape is a style of the wanted kind.
pub proof fn law_nearest_style_is_of_its_kind(doc: Document, id: NodeId, kind: StyleKind)
    requires
        doc.wf(),
    ensures
        doc.nearest(doc.scopes(id), kind) matches Some(s) ==> doc.is_style(s, kind),
        doc.carried_style(id, kind) matches Some(s) ==> doc.is_style(s, kind),
{
    doc.lemma_nearest(doc.scopes(id), kind);
    doc.lemma_carried(id, kind);
}

/// Something can be hung from a node exactly where the node itself is reachable.
pub proof fn law_parents_are_attached_nodes(doc: Document, id: NodeId)
    ensures
        doc.parent_attached(Parent::Node(id)) == doc.attached(id),
{
}

/// What is pasted after a copy or a cut is what was selected: one tree for each root
/// of the selection that could be copied, node for node, from where it stood.
pub proof fn law_paste_gives_back_the_copy(
    before: Session,
    copied: Session,
    edit: Option<Edit>,
    doc: Document,
    cut: bool,
    transaction_open: bool,
    run: InsertRun,
)
    requires
        before.edit_closed(transaction_open).copy_effect(copied, edit, doc, cut),
        doc.copyable(before.selection@).len() > 0,
        same_items(run.items@, copied.clipboard->0.items@),
    ensures
        run.items@.len() == doc.copyable(before.selection@).len(),
        forall|k: int|
            0 <= k < run.items@.len() ==> doc.copy_of(
                #[trigger] run.items@[k],
                doc.copyable(before.selection@)[k],
            ),
{
    let ids = doc.copyable(before.selection@);
    let kept = copied.clipboard->0.items@;
    assert forall|k: int| 0 <= k < run.items@.len() implies doc.copy_of(
        #[trigger] run.items@[k],
        ids[k],
    ) by {
        assert(doc.copy_of(kept[k], ids[k]));
    }
}

/// A cut keeps what a copy keeps, and removes exactly the nodes that it kept.
pub proof fn law_cut_is_copy_and_removal(
    before: Session,
    copied: Session,
    cut: Session,
    edit: Edit,
    doc: Document,
    transaction_open: bool,
)
    requires
        doc.copyable(before.selection@).len() > 0,
        before.edit_closed(transaction_open).copy_effect(copied, None, doc, false),
        before.edit_closed(transaction_open).copy_effect(cut, Some(edit), doc, true),
    ensures
        copied.clipboard->0.items@.len() == cut.clipboard->0.items@.len(),
        forall|k: int|
            0 <= k < cut.clipboard->0.items@.len() ==> (#[trigger] cut.clipboard->0.items@[k]).tree@
                == copied.clipboard->0.items@[k].tree@,
        copied.clipboard->0.style_nodes@ == cut.clipboard->0.style_nodes@,
        edit.commands@.len() == cut.clipboard->0.items@.len(),
        copied.selection == before.selection,
{
    let ids = doc.copyable(before.selection@);
    assert forall|k: int|
        0 <= k < cut.clipboard->0.items@.len() implies (#[trigger] cut.clipboard->0.items@[k]).tree@
        == copied.clipboard->0.items@[k].tree@ by {
        assert(doc.copy_of(cut.clipboard->0.items@[k], ids[k]));
        assert(doc.copy_of(copied.clipboard->0.items@[k], ids[k]));
    }
}

/// Pasting in place takes every copied item exactly once.
pub proof fn law_paste_takes_every_item_once(items: Seq<ClipboardItem>, order: Seq<usize>)
    requires
        paste_order(items, order),
    ensures
        order.no_duplicates(),
        forall|k: usize| k < items.len() ==> #[trigger] order.contains(k),
{
    assert forall|i: int, j: int| 0 <= i < order.len() && 0 <= j < order.len() && i != j implies order[
        i
    ] != order[j] by {
        if i < j {
            assert(pasted_before(items, order[i] as int, order[j] as int));
        } else {
            assert(pasted_before(items, order[j] as int, order[i] as int));
        }
    }
    assert forall|k: usize| k < items.len() implies #[trigger] order.contains(k) by {
        if !order.contains(k) {
            let n = items.len() as int;
            let image = Seq::new(n as nat, |i: int| order[i] as int);
            assert forall|i: int, j: int| 0 <= i < n && 0 <= j < n && i != j implies image[i]
                != image[j] by {
                assert(order[i] != order[j]);
            }
            assert(image.no_duplicates());
            image.unique_seq_to_set();
            vstd::set_lib::lemma_int_range(0, n);
            let rest = vstd::set_lib::set_int_range(0, n).remove(k as int);
            assert forall|y: int| image.to_set().contains(y) implies rest.contains(y) by {
                let i = choose|i: int| 0 <= i < n && image[i] == y;
                assert(order.contains(order[i]));
            }
            vstd::set_lib::lemma_len_subset(image.to_set(), rest);
        }
    }
}

/// A number that a field shows reads back as the same number.
pub proof fn law_shown_numbers_read_back(n: int)
    ensures
        number(signed(n), true) == Some(n),
        n >= 0 ==> number(signed(n), false) == Some(n),
{
    reveal_strlit("-");
    let m: nat = if n < 0 {
        (-n) as nat
    } else {
        n as nat
    };
    crate::machine_ui::lemma_decimal_value(m);
    lemma_decimal_starts(m);
    if n < 0 {
        assert(signed(n)[0] == '-');
        assert(signed(n).drop_first() =~= decimal(m));
    }
}

proof fn lemma_decimal_starts(n: nat)
    ensures
        decimal(n).len() > 0,
        decimal(n)[0] != '-' && decimal(n)[0] != '+',
    decreases n,
{
    if n >= 10 {
        lemma_decimal_starts(n / 10);
    }
}

/// Without a family, and under its own family in a new registry, the bundled font is
/// found; so it is under any family that is not registered.
pub proof fn law_default_font_is_found(registry: FontRegistry, name: Seq<char>)
    ensures
        registry.resolve(None) == registry.default_bytes(),
        !registry.fonts().contains_key(name) ==> registry.resolve(Some(name))
            == registry.default_bytes(),
        (registry.fonts() == Map::<Seq<char>, Seq<u8>>::empty().insert(
            name,
            registry.default_bytes(),
        )) ==> registry.resolve(Some(name)) == registry.resolve(None),
{
}

/// A registered font is found under the family that it reports, and the other
/// families stay as they were.
pub proof fn law_registered_font_is_found(
    before: FontRegistry,
    after: FontRegistry,
    bytes: Seq<u8>,
    family: Seq<char>,
    other: Seq<char>,
)
    requires
        family_name(bytes) == Some(family),
        after.default_bytes() == before.default_bytes(),
        after.fonts() == before.fonts().insert(family, bytes),
    ensures
        after.resolve(Some(family)) == bytes,
        other != family ==> after.resolve(Some(other)) == before.resolve(Some(other)),
        after.resolve(None) == before.resolve(None),
{
}

/// An edit is carried out as one undo step: its transaction is begun under its name,
/// its commands are applied, the transaction is committed and nothing stays open. The
/// document is then unsaved, one frame is asked for, and what a command created last
/// is selected.
pub proof fn law_edit_is_one_undo_step(
    edit: Edit,
    replies: Seq<Result<Applied, String>>,
    doc: Document,
    changed: Document,
    open_before: bool,
    sessions: Seq<Session>,
    runs: Seq<OutputRun>,
    steps: Seq<OutputStep>,
    end: OutputEnd,
)
    requires
        sessions.len() == 6,
        runs.len() == 5,
        steps.len() == 3,
        runs[0] == OutputRun::fresh(),
        output_taken(
            sessions[0],
            runs[0],
            ToolOutput::BeginTransaction(Label::Text(edit.label)),
            doc,
            open_before,
            sessions[1],
            runs[1],
            steps[0],
        ),
        output_taken(
            sessions[1],
            runs[1],
            ToolOutput::Commands(edit.commands),
            doc,
            true,
            sessions[2],
            runs[2],
            steps[1],
        ),
        replies_taken(sessions[2], runs[2], replies, changed, true, sessions[3], runs[3]),
        output_taken(
            sessions[3],
            runs[3],
            ToolOutput::CommitTransaction,
            changed,
            true,
            sessions[4],
            runs[4],
            steps[2],
        ),
        outputs_ended(sessions[4], runs[4], sessions[5], end),
    ensures
        steps == seq![
            OutputStep::Begin(Label::Text(edit.label)),
            OutputStep::Apply,
            OutputStep::Commit,
        ],
        !runs[4].in_transaction,
        end == (OutputEnd { sync_timeline: true, reevaluate: true }),
        sessions[5].dirty,
        sessions[5].revision == next_revision(sessions[0].revision),
        sessions[5].selection@ == selection_after(sessions[0].selection@, replies),
{
    assert(steps =~= seq![
        OutputStep::Begin(Label::Text(edit.label)),
        OutputStep::Apply,
        OutputStep::Commit,
    ]);
}

/// A transaction in which nothing was written leaves a saved document saved.
pub proof fn law_empty_transaction_changes_nothing(
    label: Label,
    doc: Document,
    open_before: bool,
    before: Session,
    begun: Session,
    after: Session,
    run: OutputRun,
    run_begun: OutputRun,
    run_after: OutputRun,
    begin: OutputStep,
    commit: OutputStep,
)
    requires
        output_taken(
            before,
            run,
            ToolOutput::BeginTransaction(label),
            doc,
            open_before,
            begun,
            run_begun,
            begin,
        ),
        output_taken(
            begun,
            run_begun,
            ToolOutput::CommitTransaction,
            doc,
            true,
            after,
            run_after,
            commit,
        ),
    ensures
        after == before,
        begin == OutputStep::Begin(label),
        commit == OutputStep::Commit,
        !before.dirty && !run.document_changed ==> !run_after.document_changed,
{
}

} // verus!
