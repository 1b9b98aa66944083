//! What the timeline lists, and where the playhead goes.
use std::collections::HashSet;
use vstd::prelude::*;

use crate::commands::{Edit, EditorCommand, Head};
use crate::kept::{keeps, lemma_keeps_more, lemma_keeps_none};
use crate::model::{CompId, Document, NodeId};
use crate::session::Session;
use crate::timeline::{
    find_key, key_selected, prop_rows, props_of, ruler_ticks, HeadPlace, KeyRef, ListedProp,
    ListedProps, Tick, TimelineEventKind, TimelineRoute, TimelineRow,
};

verus! {

/// Whether one of the lists holds the frame.
pub open spec fn has_key(keys: Seq<Vec<i64>>, frame: i64) -> bool {
    exists|r: int| 0 <= r < keys.len() && (#[trigger] keys[r])@.contains(frame)
}

proof fn lemma_has_key(keys: Seq<Vec<i64>>, r: int, i: int)
    requires
        0 <= r < keys.len(),
        0 <= i < keys[r]@.len(),
    ensures
        has_key(keys, keys[r]@[i]),
{
    assert(keys[r]@.contains(keys[r]@[i]));
}

/// The key that is found is the nearest one on that side of the frame: no key stands
/// between the two, and none is found only where that side has none.
pub proof fn law_found_key_is_the_nearest(
    keys: Vec<Vec<i64>>,
    frame: i64,
    direction: i64,
    r: Option<i64>,
)
    requires
        call_ensures(find_key, (&keys, frame, direction), r),
    ensures
        direction >= 0 ==> match r {
            Some(f) => has_key(keys@, f) && f > frame && forall|k: i64| #[trigger]
                has_key(keys@, k) ==> k <= frame || k >= f,
            None => forall|k: i64| #[trigger] has_key(keys@, k) ==> k <= frame,
        },
        direction < 0 ==> match r {
            Some(f) => has_key(keys@, f) && f < frame && forall|k: i64| #[trigger]
                has_key(keys@, k) ==> k >= frame || k <= f,
            None => forall|k: i64| #[trigger] has_key(keys@, k) ==> k >= frame,
        },
{
    lemma_nearest(keys@, frame, direction, match r {
        Some(f) => Some(f as int),
        None => None,
    });
}

proof fn lemma_nearest(keys: Seq<Vec<i64>>, frame: i64, direction: i64, found: Option<int>)
    requires
        crate::timeline::nearest_key(keys, frame as int, direction as int, found),
    ensures
        forall|k: i64| #[trigger]
            has_key(keys, k) ==> (match found {
                Some(f) => if direction < 0 {
                    k >= frame || k <= f
                } else {
                    k <= frame || k >= f
                },
                None => if direction < 0 {
                    k >= frame
                } else {
                    k <= frame
                },
            }),
        found matches Some(f) ==> (exists|k: i64| #[trigger] has_key(keys, k) && k == f) && (
        if direction < 0 {
            f < frame
        } else {
            f > frame
        }),
{
    assert forall|k: i64| #[trigger] has_key(keys, k) implies (match found {
        Some(f) => if direction < 0 {
            k >= frame || k <= f
        } else {
            k <= frame || k >= f
        },
        None => if direction < 0 {
            k >= frame
        } else {
            k <= frame
        },
    }) by {
        let r = choose|r: int| 0 <= r < keys.len() && (#[trigger] keys[r])@.contains(k);
        let i = choose|i: int| 0 <= i < keys[r]@.len() && keys[r]@[i] == k;
        assert(keys[r]@[i] == k);
    }
    if let Some(f) = found {
        let (r, i) = choose|r: int, i: int|
            0 <= r < keys.len() && 0 <= i < keys[r]@.len() && #[trigger] keys[r]@[i] == f;
        lemma_has_key(keys, r, i);
    }
}

/// Stepping to a key puts the playhead on the nearest one on that side, or on the end of
/// the range where there is none, and leaves the rest of the playback.
pub proof fn law_stepping_goes_to_the_nearest_key(
    a: Session,
    b: Session,
    keys: Vec<Vec<i64>>,
    frame: i64,
    direction: i64,
    range: (i64, i64),
    target: i64,
)
    requires
        exists|s: &mut Session| #[trigger]
            call_ensures(Session::step_to_keyframe, (s, &keys, frame, direction, range), target)
                && *s == a && *final(s) == b,
    ensures
        b.playback.head == Head::Frame(target),
        b.playback.state == a.playback.state && b.playback.range == a.playback.range
            && b.playback.loop_mode == a.playback.loop_mode,
        direction >= 0 && (exists|k: i64| #[trigger] has_key(keys@, k) && k > frame) ==> has_key(
            keys@,
            target,
        ) && target > frame && forall|k: i64| #[trigger] has_key(keys@, k) ==> k <= frame || k
            >= target,
        direction < 0 && (exists|k: i64| #[trigger] has_key(keys@, k) && k < frame) ==> has_key(
            keys@,
            target,
        ) && target < frame && forall|k: i64| #[trigger] has_key(keys@, k) ==> k >= frame || k
            <= target,
        direction >= 0 && (forall|k: i64| #[trigger] has_key(keys@, k) ==> k <= frame) ==> target
            == range.1,
        direction < 0 && (forall|k: i64| #[trigger] has_key(keys@, k) ==> k >= frame) ==> target
            == range.0,
{
    let found = choose|found: Option<int>| #[trigger]
        crate::timeline::nearest_key(keys@, frame as int, direction as int, found) && target == (
        match found {
            Some(f) => f,
            None => if direction < 0 {
                range.0 as int
            } else {
                range.1 as int
            },
        });
    lemma_nearest(keys@, frame, direction, found);
}

/// The ruler has one tick for every frame of the range, in order, and every tenth is a
/// major one.
pub proof fn law_ruler_has_every_frame(range: (i64, i64), r: Vec<Tick>)
    requires
        call_ensures(ruler_ticks, (range,), r),
    ensures
        range.1 < range.0 ==> r@.len() == 0,
        range.0 <= range.1 ==> {
            &&& r@.len() == range.1 - range.0 + 1
            &&& r@[0].frame == range.0
            &&& r@.last().frame == range.1
            &&& forall|i: int|
                0 <= i < r@.len() - 1 ==> (#[trigger] r@[i + 1]).frame == r@[i].frame + 1
        },
        forall|i: int|
            0 <= i < r@.len() ==> ((#[trigger] r@[i]).major <==> r@[i].frame as int % 10 == 0),
{
}

/// The row of every property that is an animated opacity.
pub open spec fn listed_rows(id: NodeId, listed: Seq<ListedProp>) -> Seq<Option<TimelineRow>> {
    Seq::new(
        listed.len(),
        |i: int|
            if listed[i].opacity && listed[i].animated {
                Some(TimelineRow { node: id, prop: listed[i].prop })
            } else {
                None
            },
    )
}

proof fn lemma_prop_rows(id: NodeId, listed: Seq<ListedProp>)
    ensures
        keeps(prop_rows(id, listed), listed_rows(id, listed)),
    decreases listed.len(),
{
    if listed.len() == 0 {
        lemma_keeps_none::<TimelineRow>();
        assert(listed_rows(id, listed) =~= Seq::empty());
    } else {
        let front = listed.drop_last();
        lemma_prop_rows(id, front);
        let next = listed_rows(id, listed).last();
        lemma_keeps_more(prop_rows(id, front), listed_rows(id, front), next);
        assert(listed_rows(id, front).push(next) =~= listed_rows(id, listed));
    }
}

/// A node has a row for each of its properties that is an animated opacity, in order;
/// below them, where it is open, stand the rows of its children.
pub proof fn law_open_nodes_show_their_childrens_rows(
    doc: Document,
    id: NodeId,
    open: Set<NodeId>,
    props: Map<NodeId, Vec<ListedProp>>,
)
    requires
        doc.wf(),
    ensures
        ({
            let own = prop_rows(id, props_of(props, id));
            let below = doc.rows_of(doc.nodes()[id].children@, open, props);
            &&& props.contains_key(id) ==> keeps(own, listed_rows(id, props[id]@))
            &&& !props.contains_key(id) ==> own.len() == 0
            &&& open.contains(id) && doc.nodes().contains_key(id) ==> doc.rows_at(id, open, props)
                == own + below
            &&& !open.contains(id) || !doc.nodes().contains_key(id) ==> doc.rows_at(
                id,
                open,
                props,
            ) == own
        }),
{
    let own = prop_rows(id, props_of(props, id));
    lemma_prop_rows(id, props_of(props, id));
    assert(own + Seq::<TimelineRow>::empty() =~= own);
    if open.contains(id) && doc.has(id) {
        lemma_rows_under(doc, id, 0, open, props);
        assert(doc.node(id).children@.skip(0) =~= doc.node(id).children@);
    }
}

proof fn lemma_rows_under(
    doc: Document,
    id: NodeId,
    k: int,
    open: Set<NodeId>,
    props: Map<NodeId, Vec<ListedProp>>,
)
    requires
        doc.wf(),
        doc.has(id),
        0 <= k <= doc.node(id).children@.len(),
    ensures
        doc.rows_under(id, k, open, props) == doc.rows_of(
            doc.node(id).children@.skip(k),
            open,
            props,
        ),
    decreases doc.node(id).children@.len() - k,
{
    let children = doc.node(id).children@;
    if k < children.len() {
        lemma_rows_under(doc, id, k + 1, open, props);
        assert(children.skip(k) =~= seq![children[k]] + children.skip(k + 1));
        law_timeline_rows_join(doc, seq![children[k]], children.skip(k + 1), open, props);
        reveal_with_fuel(Document::rows_of, 3);
        assert(seq![children[k]].drop_last() =~= Seq::<NodeId>::empty());
        assert(doc.rows_of(seq![children[k]], open, props) =~= doc.rows_at(
            children[k],
            open,
            props,
        ));
    } else {
        assert(children.skip(k) =~= Seq::<NodeId>::empty());
    }
}

/// The rows of two lists of nodes are those of the first, then those of the second.
pub proof fn law_timeline_rows_join(
    doc: Document,
    a: Seq<NodeId>,
    b: Seq<NodeId>,
    open: Set<NodeId>,
    props: Map<NodeId, Vec<ListedProp>>,
)
    ensures
        doc.rows_of(a + b, open, props) == doc.rows_of(a, open, props) + doc.rows_of(
            b,
            open,
            props,
        ),
    decreases b.len(),
{
    if b.len() == 0 {
        assert(a + b =~= a);
        assert(doc.rows_of(a, open, props) + doc.rows_of(b, open, props) =~= doc.rows_of(
            a,
            open,
            props,
        ));
    } else {
        assert((a + b).drop_last() =~= a + b.drop_last());
        assert((a + b).last() == b.last());
        law_timeline_rows_join(doc, a, b.drop_last(), open, props);
        assert(doc.rows_of(a + b, open, props) =~= doc.rows_of(a, open, props) + doc.rows_of(
            b,
            open,
            props,
        ));
    }
}

/// The timeline lists the rows of each child of the main composition, in order.
pub proof fn law_timeline_lists_the_main_composition(
    doc: Document,
    open: HashSet<NodeId>,
    props: ListedProps,
    r: Vec<TimelineRow>,
    i: int,
)
    requires
        doc.wf(),
        call_ensures(Document::timeline_rows, (&doc, &open, &props), r),
    ensures
        doc.comp(doc.main_id()) is None ==> r@.len() == 0,
        doc.comp(doc.main_id()) matches Some(c) ==> (0 <= i < c.children@.len() ==> {
            let before = doc.rows_of(c.children@.take(i), open@, props@);
            let own = doc.rows_at(c.children@[i], open@, props@);
            &&& before.len() + own.len() <= r@.len()
            &&& r@.subrange(before.len() as int, (before.len() + own.len()) as int) == own
        }),
{
    if let Some(c) = doc.comp(doc.main_id()) {
        if 0 <= i < c.children@.len() {
            let before = doc.rows_of(c.children@.take(i), open@, props@);
            let own = doc.rows_at(c.children@[i], open@, props@);
            let rest = c.children@.skip(i + 1);
            assert(c.children@ =~= c.children@.take(i + 1) + rest);
            law_timeline_rows_join(doc, c.children@.take(i + 1), rest, open@, props@);
            assert(c.children@.take(i + 1).drop_last() =~= c.children@.take(i));
            assert(doc.rows_of(c.children@.take(i + 1), open@, props@) == before + own);
            assert(r@.subrange(before.len() as int, (before.len() + own.len()) as int) =~= own);
        }
    }
}

/// The loop modes follow each other in a ring of three; three steps change nothing else.
pub proof fn law_loop_modes_go_round(a: Session)
    ensures
        forall|s: &mut Session, t: &mut Session, u: &mut Session|
            *s == a && *t == *final(s) && *u == *final(t)
                && #[trigger] call_ensures(Session::cycle_loop_mode, (s,), ())
                && #[trigger] call_ensures(Session::cycle_loop_mode, (t,), ())
                && #[trigger] call_ensures(Session::cycle_loop_mode, (u,), ()) ==> {
                &&& (*final(u)).playback == a.playback
                &&& (*final(s)).playback.loop_mode != a.playback.loop_mode
                &&& (*final(t)).playback.loop_mode != (*final(s)).playback.loop_mode
                &&& a.playback.loop_mode is Once ==> (*final(s)).playback.loop_mode is Loop
                    && (*final(t)).playback.loop_mode is PingPong
                &&& (*final(s)).playback.head == a.playback.head && (*final(s)).playback.range
                    == a.playback.range && (*final(s)).playback.state == a.playback.state
            },
{
}

/// The playhead stays where it is inside a new range, and goes to the nearer end of it
/// otherwise.
pub proof fn law_playhead_stays_in_range(a: Session, range: (i64, i64), place: HeadPlace)
    ensures
        forall|s: &mut Session|
            *s == a && #[trigger] call_ensures(Session::sync_playback_range, (s, range, place), ())
                ==> {
                &&& (*final(s)).playback.range == range
                &&& place is Inside ==> (*final(s)).playback.head == a.playback.head
                &&& place is Before ==> (*final(s)).playback.head == Head::Frame(range.0)
                &&& place is After ==> (*final(s)).playback.head == Head::Frame(range.1)
                &&& (*final(s)).playback.state == a.playback.state
                &&& (*final(s)).playback.loop_mode == a.playback.loop_mode
            },
        forall|s: &mut Session, head: Head|
            *s == a && #[trigger] call_ensures(Session::set_head, (s, head), ()) ==> {
                &&& (*final(s)).playback.head == head
                &&& (*final(s)).playback.range == a.playback.range
                &&& (*final(s)).playback.state == a.playback.state
                &&& (*final(s)).playback.loop_mode == a.playback.loop_mode
            },
        forall|s: &mut Session, head: Head, moved: bool|
            *s == a && #[trigger] call_ensures(Session::tick_playback, (s, head), moved) ==> {
                &&& moved <==> a.playing || a.machine_preview_enabled
                &&& moved ==> (*final(s)).playback.head == head && (*final(s)).playback.range
                    == a.playback.range
                &&& !moved ==> *final(s) == a
            },
        forall|comp: CompId, start: Option<i64>, end: Option<i64>, r: Edit| #[trigger]
            call_ensures(Session::set_composition_range, (comp, start, end), r) ==> r.commands@
                == seq![EditorCommand::SetCompositionRange { comp, start, end }],
{
}

/// Events on the timeline go to the playhead while it is scrubbed, and on the ruler while
/// no keys are active; else to the keys, and nowhere while the preview runs.
pub proof fn law_timeline_events_are_routed(
    a: Session,
    event: TimelineEventKind,
    scrubbing: bool,
    keys_active: bool,
    in_ruler: bool,
    r: TimelineRoute,
)
    requires
        call_ensures(
            Session::dispatch_timeline,
            (&a, event, scrubbing, keys_active, in_ruler),
            r,
        ),
    ensures
        r is Ignored <==> a.machine_preview_enabled,
        r is Scrub ==> event is Pointer && (scrubbing || (in_ruler && !keys_active)),
        !a.machine_preview_enabled && event is Pointer && scrubbing ==> r is Scrub,
        !a.machine_preview_enabled && event is Pointer && in_ruler && !keys_active ==> r is Scrub,
{
}

/// A key is selected where the selection holds its node, its property and its frame.
pub proof fn law_keys_are_selected_by_place(
    selected: Vec<KeyRef>,
    row: TimelineRow,
    frame: i64,
    r: bool,
)
    requires
        call_ensures(key_selected, (&selected, row, frame), r),
    ensures
        r <==> exists|i: int|
            0 <= i < selected@.len() && (#[trigger] selected@[i]).node == row.node
                && selected@[i].prop == row.prop && selected@[i].frame == frame,
{
    if r {
        let i = choose|i: int|
            0 <= i < selected@.len() && selected@[i] == (KeyRef {
                node: row.node,
                prop: row.prop,
                frame,
            });
        assert(selected@[i].node == row.node);
    }
    if exists|i: int|
        0 <= i < selected@.len() && (#[trigger] selected@[i]).node == row.node && selected@[i].prop
            == row.prop && selected@[i].frame == frame {
        let i = choose|i: int|
            0 <= i < selected@.len() && (#[trigger] selected@[i]).node == row.node
                && selected@[i].prop == row.prop && selected@[i].frame == frame;
        assert(selected@[i] == (KeyRef { node: row.node, prop: row.prop, frame }));
    }
}

} // verus!
