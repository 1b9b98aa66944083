//! What arranging the selection writes and selects.
use vstd::prelude::*;

use crate::arrange::{nudge_step, paired, Modifiers, Move, POSITION, SCALE};
use crate::commands::{Edit, EditorCommand, Property};
use crate::kept::{
    keeps, lemma_filter_keeps, lemma_keeps_holds, lemma_keeps_more, lemma_keeps_none, passing,
};
use crate::model::{Document, Handle, NodeId};
use crate::session::Session;

verus! {

/// Whether the node is there and not locked.
pub open spec fn is_open(doc: Document, id: NodeId) -> bool {
    doc.nodes().contains_key(id) && !doc.nodes()[id].locked
}

/// The write of one value: none without a value, and none to a node that is not there or
/// is locked.
pub open spec fn write_of(
    doc: Document,
    prop: &'static str,
    id: NodeId,
    value: Option<Handle>,
    keyed: bool,
) -> Option<EditorCommand> {
    match value {
        Some(value) if is_open(doc, id) => Some(
            EditorCommand::SetProperty { id, prop: Property::Path(prop), value, keyed },
        ),
        _ => None,
    }
}

/// The writes of the moves, each by itself.
pub open spec fn moved(
    doc: Document,
    prop: &'static str,
    moves: Seq<Move>,
    keyed: bool,
) -> Seq<Option<EditorCommand>> {
    Seq::new(moves.len(), |i: int| write_of(doc, prop, moves[i].id, moves[i].value, keyed))
}

/// The writes of one value to each node.
pub open spec fn given(
    doc: Document,
    prop: &'static str,
    ids: Seq<NodeId>,
    values: Seq<Option<Handle>>,
    keyed: bool,
) -> Seq<Option<EditorCommand>> {
    Seq::new(ids.len(), |i: int| write_of(doc, prop, ids[i], values[i], keyed))
}

/// Every move that has a value and whose node is there and not locked is written, in
/// order, and nothing else is.
pub proof fn law_every_move_is_written(
    doc: Document,
    prop: &'static str,
    moves: Seq<Move>,
    keyed: bool,
)
    ensures
        keeps(doc.writes(prop, moves, keyed), moved(doc, prop, moves, keyed)),
    decreases moves.len(),
{
    if moves.len() == 0 {
        lemma_keeps_none::<EditorCommand>();
        assert(moved(doc, prop, moves, keyed) =~= Seq::empty());
    } else {
        let front = moves.drop_last();
        let last = moves.last();
        law_every_move_is_written(doc, prop, front, keyed);
        lemma_keeps_more(
            doc.writes(prop, front, keyed),
            moved(doc, prop, front, keyed),
            write_of(doc, prop, last.id, last.value, keyed),
        );
        assert(moved(doc, prop, front, keyed).push(
            write_of(doc, prop, last.id, last.value, keyed),
        ) =~= moved(doc, prop, moves, keyed));
    }
}

/// Writing two lists of moves writes the first, then the second; each move that can be
/// written adds one command.
pub proof fn law_writes_join(
    doc: Document,
    prop: &'static str,
    a: Seq<Move>,
    b: Seq<Move>,
    m: Move,
    keyed: bool,
)
    ensures
        doc.writes(prop, a + b, keyed) == doc.writes(prop, a, keyed) + doc.writes(prop, b, keyed),
        doc.writes(prop, a.push(m), keyed).len() == doc.writes(prop, a, keyed).len() + (if m.value
            is Some && is_open(doc, m.id) {
            1int
        } else {
            0int
        }),
    decreases b.len(),
{
    assert(a.push(m).drop_last() =~= a);
    if b.len() == 0 {
        assert(a + b =~= a);
        assert(doc.writes(prop, a, keyed) + doc.writes(prop, b, keyed) =~= doc.writes(
            prop,
            a,
            keyed,
        ));
    } else {
        assert((a + b).drop_last() =~= a + b.drop_last());
        assert((a + b).last() == b.last());
        law_writes_join(doc, prop, a, b.drop_last(), m, keyed);
        assert(doc.writes(prop, a + b, keyed) =~= doc.writes(prop, a, keyed) + doc.writes(
            prop,
            b,
            keyed,
        ));
    }
}

/// Whether `edit` writes exactly what is wanted and leaves the selection.
pub open spec fn edits(edit: Option<Edit>, wanted: Seq<Option<EditorCommand>>) -> bool {
    edit matches Some(e) && keeps(e.commands@, wanted) && e.select is None
}

/// Whether nothing is wanted.
pub open spec fn is_idle(wanted: Seq<Option<EditorCommand>>) -> bool {
    forall|i: int| 0 <= i < wanted.len() ==> #[trigger] wanted[i] is None
}

/// Aligning writes the position of every move that has one and whose node is open; it
/// writes nothing only where nothing is selected, nothing has bounds or no move can be
/// written.
pub proof fn law_aligning_writes_every_position(
    a: Session,
    b: Session,
    doc: Document,
    bounded: usize,
    moves: Vec<Move>,
    roots: Vec<NodeId>,
    r: Option<Edit>,
)
    requires
        doc.wf(),
        call_ensures(Document::selected_roots, (&doc, &a.selection), roots),
        exists|s: &mut Session| #[trigger]
            call_ensures(Session::align_selection, (s, &doc, bounded, &moves), r) && *s == a
                && *final(s) == b,
    ensures
        ({
            let wanted = moved(doc, "transform.position", moves@, a.writes_keys());
            if roots@.len() > 0 && bounded > 0 && !is_idle(wanted) {
                edits(r, wanted) && b == a
            } else {
                r is None
            }
        }),
{
    law_every_move_is_written(doc, POSITION, moves@, a.writes_keys());
    lemma_keeps_holds(
        doc.writes(POSITION, moves@, a.writes_keys()),
        moved(doc, POSITION, moves@, a.writes_keys()),
    );
}

/// Distributing does so too, for three roots or more of which three have bounds.
pub proof fn law_distributing_writes_every_position(
    a: Session,
    b: Session,
    doc: Document,
    bounded: usize,
    moves: Vec<Move>,
    roots: Vec<NodeId>,
    r: Option<Edit>,
)
    requires
        doc.wf(),
        call_ensures(Document::selected_roots, (&doc, &a.selection), roots),
        exists|s: &mut Session| #[trigger]
            call_ensures(Session::distribute_selection, (s, &doc, bounded, Some(&moves)), r) && *s
                == a && *final(s) == b,
    ensures
        ({
            let wanted = moved(doc, "transform.position", moves@, a.writes_keys());
            if roots@.len() >= 3 && bounded >= 3 && !is_idle(wanted) {
                edits(r, wanted) && b == a
            } else {
                r is None
            }
        }),
{
    law_every_move_is_written(doc, POSITION, moves@, a.writes_keys());
    lemma_keeps_holds(
        doc.writes(POSITION, moves@, a.writes_keys()),
        moved(doc, POSITION, moves@, a.writes_keys()),
    );
}

proof fn lemma_paired(
    doc: Document,
    prop: &'static str,
    ids: Seq<NodeId>,
    values: Seq<Option<Handle>>,
    keyed: bool,
)
    ensures
        keeps(doc.writes(prop, paired(ids, values), keyed), given(doc, prop, ids, values, keyed)),
        doc.writes(prop, paired(ids, values), keyed).len() == 0 <==> is_idle(
            given(doc, prop, ids, values, keyed),
        ),
{
    law_every_move_is_written(doc, prop, paired(ids, values), keyed);
    assert(moved(doc, prop, paired(ids, values), keyed) =~= given(doc, prop, ids, values, keyed));
    lemma_keeps_holds(
        doc.writes(prop, paired(ids, values), keyed),
        given(doc, prop, ids, values, keyed),
    );
}

/// Flipping writes the scale of every selected root that has one and is open, each the
/// one that belongs to it.
pub proof fn law_flipping_writes_every_scale(
    a: Session,
    b: Session,
    doc: Document,
    scales: Vec<Option<Handle>>,
    roots: Vec<NodeId>,
    r: Option<Edit>,
)
    requires
        doc.wf(),
        call_ensures(Document::selected_roots, (&doc, &a.selection), roots),
        scales@.len() == roots@.len(),
        exists|s: &mut Session| #[trigger]
            call_ensures(Session::flip_selection, (s, &doc, &scales), r) && *s == a && *final(s)
                == b,
    ensures
        ({
            let wanted = given(doc, "transform.scale", roots@, scales@, a.writes_keys());
            if !is_idle(wanted) {
                edits(r, wanted) && b == a
            } else {
                r is None
            }
        }),
{
    lemma_paired(doc, SCALE, roots@, scales@, a.writes_keys());
}

/// Nudging writes the position of every selected root that has one and is open, unless
/// something is dragged.
pub proof fn law_nudging_writes_every_position(
    a: Session,
    doc: Document,
    dragging: bool,
    positions: Vec<Option<Handle>>,
    roots: Vec<NodeId>,
    r: Option<Edit>,
)
    requires
        doc.wf(),
        call_ensures(Document::selected_roots, (&doc, &a.selection), roots),
        positions@.len() == roots@.len(),
        call_ensures(Session::nudge_selection, (&a, &doc, dragging, &positions), r),
    ensures
        ({
            let wanted = given(doc, "transform.position", roots@, positions@, a.writes_keys());
            if !dragging && !is_idle(wanted) {
                edits(r, wanted)
            } else {
                r is None
            }
        }),
{
    lemma_paired(doc, POSITION, roots@, positions@, a.writes_keys());
    if a.selection@.len() == 0 && !is_idle(
        given(doc, POSITION, roots@, positions@, a.writes_keys()),
    ) {
        crate::tree_laws::law_roots_are_the_uppermost(doc, a.selection, roots);
        assert(roots@.contains(roots@[0]));
    }
}

/// Deleting removes every selected root that is open, once and in order, and clears the
/// selection; locked nodes stay.
pub proof fn law_deleting_removes_every_open_root(
    a: Session,
    b: Session,
    doc: Document,
    dragging: bool,
    roots: Vec<NodeId>,
    r: Option<Edit>,
)
    requires
        doc.wf(),
        call_ensures(Document::selected_roots, (&doc, &a.selection), roots),
        exists|s: &mut Session| #[trigger]
            call_ensures(Session::delete_selection_nodes, (s, &doc, dragging), r) && *s == a
                && *final(s) == b,
    ensures
        ({
            let wanted = Seq::new(
                roots@.len(),
                |i: int|
                    if is_open(doc, roots@[i]) {
                        Some(EditorCommand::RemoveNode { id: roots@[i] })
                    } else {
                        None
                    },
            );
            if !dragging && !is_idle(wanted) {
                &&& b == a
                &&& r matches Some(e) && keeps(e.commands@, wanted)
                &&& r->0.select matches Some(s) && s@.len() == 0
            } else {
                r is None
            }
        }),
{
    let test = |id: NodeId| doc.is_free(id);
    let ids = roots@.filter(test);
    lemma_filter_keeps(roots@, test);
    lemma_keeps_holds(ids, passing(roots@, test));
    let wanted = Seq::new(
        roots@.len(),
        |i: int|
            if is_open(doc, roots@[i]) {
                Some(EditorCommand::RemoveNode { id: roots@[i] })
            } else {
                None
            },
    );
    let commands = crate::clipboard::removals(ids);
    let at = choose|at: Seq<int>| #[trigger]
        crate::kept::keeps_at(ids, passing(roots@, test), at);
    assert forall|i: int| 0 <= i < wanted.len() implies (#[trigger] wanted[i] is Some <==> passing(
        roots@,
        test,
    )[i] is Some) by {}
    assert(crate::kept::keeps_at(commands, wanted, at));
    lemma_keeps_holds(commands, wanted);
    if a.selection@.len() == 0 && !is_idle(wanted) {
        crate::tree_laws::law_roots_are_the_uppermost(doc, a.selection, roots);
        assert(roots@.contains(roots@[0]));
    }
}

/// A key press nudges by one pixel with Alt, by twenty with Shift alone, by two
/// otherwise.
pub proof fn law_nudge_steps(mods: Modifiers, r: u32)
    requires
        call_ensures(nudge_step, (mods,), r),
    ensures
        mods.alt ==> r == 1,
        !mods.alt && mods.shift ==> r == 20,
        !mods.alt && !mods.shift ==> r == 2,
{
}

/// Stepping forward selects the child behind the first selected one, stepping back the
/// one before it, each round the ends; from nothing it starts at the first child.
pub proof fn law_stepping_goes_round(
    a: Session,
    b: Session,
    doc: Document,
    reverse: bool,
    i: int,
)
    requires
        doc.wf(),
        doc.comp(doc.main_id()) is Some,
        exists|s: &mut Session| #[trigger]
            call_ensures(Session::cycle_selection, (s, &doc, reverse), ()) && *s == a && *final(s)
                == b,
    ensures
        ({
            let children = doc.comp(doc.main_id())->0.children@;
            let n = children.len() as int;
            &&& n == 0 ==> b == a
            &&& n > 0 && (a.selection@.len() == 0 || !children.contains(a.selection@[0]))
                ==> b.selection@ == seq![children[0]]
            &&& a.selection@.len() > 0 && 0 <= i < n && children[i] == a.selection@[0] && (forall|
                j: int,
            |
                0 <= j < i ==> children[j] != a.selection@[0]) ==> {
                &&& !reverse && i < n - 1 ==> b.selection@ == seq![children[i + 1]]
                &&& !reverse && i == n - 1 ==> b.selection@ == seq![children[0]]
                &&& reverse && i > 0 ==> b.selection@ == seq![children[i - 1]]
                &&& reverse && i == 0 ==> b.selection@ == seq![children[n - 1]]
            }
        }),
{
    let children = doc.comp(doc.main_id())->0.children@;
    if a.selection@.len() > 0 {
        crate::seqs::lemma_first_index(children, a.selection@[0]);
        if 0 <= i < children.len() && children[i] == a.selection@[0] && (forall|j: int|
            0 <= j < i ==> children[j] != a.selection@[0]) {
            crate::arrange::lemma_turn(i, children.len() as int);
        }
    }
}

/// Selecting all selects the children of the main composition; deselecting selects
/// nothing; neither touches anything else but what is shown.
pub proof fn law_selecting_all_and_nothing(doc: Document)
    requires
        doc.wf(),
        doc.comp(doc.main_id()) is Some,
    ensures
        forall|s: &mut Session| #[trigger]
            call_ensures(Session::select_all_top_level, (s, &doc), ()) ==> {
                &&& (*final(s)).selection@ == doc.comp(doc.main_id())->0.children@
                &&& (*final(s)).dirty == (*s).dirty
                &&& (*final(s)).clipboard == (*s).clipboard
            },
        forall|s: &mut Session, dragging: bool, r: bool| #[trigger]
            call_ensures(Session::deselect_when_idle, (s, dragging), r) ==> {
                &&& dragging ==> *final(s) == *s && !r
                &&& !dragging ==> (*final(s)).selection@.len() == 0 && (r <==> (*s).selection@.len()
                    > 0)
                &&& (*final(s)).dirty == (*s).dirty
            },
{
}

/// Centring the pivot of one selected node writes its anchor and its position.
pub proof fn law_centring_writes_anchor_and_position(
    a: Session,
    placed: Option<(Handle, Handle)>,
    r: Option<Edit>,
)
    requires
        call_ensures(Session::center_pivot, (&a, placed), r),
    ensures
        r is Some <==> placed is Some && a.selection@.len() == 1,
        r matches Some(e) ==> {
            &&& e.commands@ == seq![
                EditorCommand::SetStatic {
                    id: a.selection@[0],
                    prop: "transform.anchor",
                    value: (placed->0).0,
                },
                EditorCommand::SetStatic {
                    id: a.selection@[0],
                    prop: "transform.position",
                    value: (placed->0).1,
                },
            ]
            &&& e.select is None
        },
{
}

} // verus!
