//! The timeline: its rows, its ruler, and moving the playhead.
use std::collections::{HashMap, HashSet};

use vstd::prelude::*;
use vstd::string::StringExecFns;

use crate::commands::{Edit, EditorCommand, Head};
use crate::model::{CompId, Document, Handle, NodeId};
use crate::session::{next_revision, LoopMode, Playback, Session};
use crate::strings::{append_signed, signed};

verus! {

broadcast use vstd::std_specs::hash::group_hash_axioms;

/// One row: the animated opacity of a node.
#[derive(Clone, Copy, Debug, PartialEq, Eq, Structural)]
pub struct TimelineRow {
    pub node: NodeId,
    pub prop: Handle,
}

/// A selected keyframe.
#[derive(Clone, Copy, Debug, PartialEq, Eq, Structural)]
pub struct KeyRef {
    pub node: NodeId,
    pub prop: Handle,
    pub frame: i64,
}

/// A property as the inspector lists it.
#[derive(Clone, Copy, Debug, PartialEq, Eq, Structural)]
pub struct ListedProp {
    pub prop: Handle,
    /// Whether it is the node's opacity.
    pub opacity: bool,
    /// Whether it has keys.
    pub animated: bool,
}

impl ListedProp {
    /// Whether the timeline has a row for the property: for an opacity with keys and
    /// for no other.
    pub open spec fn has_row(self) -> bool {
        self.opacity && self.animated
    }
}

/// The properties of each node, in the inspector's order.
pub type ListedProps = HashMap<NodeId, Vec<ListedProp>>;

pub open spec fn props_of(props: Map<NodeId, Vec<ListedProp>>, id: NodeId) -> Seq<ListedProp> {
    if props.contains_key(id) {
        props[id]@
    } else {
        Seq::empty()
    }
}

/// The rows of one node for the properties `listed`, in their order.
pub open spec fn prop_rows(id: NodeId, listed: Seq<ListedProp>) -> Seq<TimelineRow>
    decreases listed.len(),
{
    if listed.len() == 0 {
        Seq::empty()
    } else {
        let front = prop_rows(id, listed.drop_last());
        if listed.last().has_row() {
            front.push(TimelineRow { node: id, prop: listed.last().prop })
        } else {
            front
        }
    }
}

pub open spec fn own_rows(props: Map<NodeId, Vec<ListedProp>>, id: NodeId) -> Seq<TimelineRow> {
    prop_rows(id, props_of(props, id))
}

impl Document {
    /// The rows of `id` and, where it is open, of what is below it.
    pub open spec fn rows_at(
        &self,
        id: NodeId,
        open: Set<NodeId>,
        props: Map<NodeId, Vec<ListedProp>>,
    ) -> Seq<TimelineRow>
        decreases self.height(id), self.node(id).children@.len() + 1,
        when self.wf()
    {
        own_rows(props, id) + (if open.contains(id) && self.has(id) {
            self.rows_under(id, 0, open, props)
        } else {
            Seq::empty()
        })
    }

    pub open spec fn rows_under(
        &self,
        id: NodeId,
        k: int,
        open: Set<NodeId>,
        props: Map<NodeId, Vec<ListedProp>>,
    ) -> Seq<TimelineRow>
        decreases self.height(id), self.node(id).children@.len() - k,
        when self.wf() && self.has(id) && 0 <= k
    {
        if k >= self.node(id).children@.len() {
            Seq::empty()
        } else {
            self.rows_at(self.node(id).children@[k], open, props) + self.rows_under(
                id,
                k + 1,
                open,
                props,
            )
        }
    }

    pub open spec fn rows_of(
        &self,
        s: Seq<NodeId>,
        open: Set<NodeId>,
        props: Map<NodeId, Vec<ListedProp>>,
    ) -> Seq<TimelineRow>
        decreases s.len(),
    {
        if s.len() == 0 {
            Seq::empty()
        } else {
            self.rows_of(s.drop_last(), open, props) + self.rows_at(s.last(), open, props)
        }
    }

    fn append_timeline_rows_for_node(
        &self,
        id: NodeId,
        open: &HashSet<NodeId>,
        props: &ListedProps,
        out: &mut Vec<TimelineRow>,
    )
        requires
            self.wf(),
        ensures
            final(out)@ == old(out)@ + self.rows_at(id, open@, props@),
        decreases self.height(id),
    {
        let ghost start = out@;
        let ghost own = own_rows(props@, id);
        if let Some(list) = props.get(&id) {
            let mut i: usize = 0;
            assert(list@.take(0) =~= Seq::<ListedProp>::empty());
            while i < list.len()
                invariant
                    i <= list@.len(),
                    list@ == props_of(props@, id),
                    out@ =~= start + prop_rows(id, list@.take(i as int)),
                decreases list.len() - i,
            {
                assert(list@.take(i + 1).drop_last() =~= list@.take(i as int));
                let listed = list[i];
                if listed.opacity && listed.animated {
                    out.push(TimelineRow { node: id, prop: listed.prop });
                }
                i = i + 1;
            }
            assert(list@.take(list@.len() as int) =~= list@);
        }
        assert(out@ =~= start + own);
        let ghost head = out@;
        if open.contains(&id) {
            if let Some(n) = self.get(id) {
                let mut k: usize = 0;
                assert(out@ + self.rows_under(id, 0, open@, props@) =~= start + self.rows_at(
                    id,
                    open@,
                    props@,
                ));
                while k < n.children.len()
                    invariant
                        self.wf(),
                        self.has(id),
                        *n == self.node(id),
                        k <= n.children@.len(),
                        out@ + self.rows_under(id, k as int, open@, props@) == start + self.rows_at(
                            id,
                            open@,
                            props@,
                        ),
                    decreases n.children.len() - k,
                {
                    let ghost before = out@;
                    let child = n.children[k];
                    assert(child == self.node(id).children@[k as int]);
                    self.append_timeline_rows_for_node(child, open, props, out);
                    assert(before + self.rows_under(id, k as int, open@, props@) =~= out@
                        + self.rows_under(id, k + 1, open@, props@));
                    k = k + 1;
                }
                assert(out@ + self.rows_under(id, k as int, open@, props@) =~= out@);
                return ;
            }
        }
        assert(out@ =~= start + self.rows_at(id, open@, props@));
    }

    /// The timeline's rows: the animated opacities of the main composition's nodes,
    /// and of what is below the open ones.
    pub fn timeline_rows(&self, open: &HashSet<NodeId>, props: &ListedProps) -> (r: Vec<
        TimelineRow,
    >)
        requires
            self.wf(),
        ensures
            r@ == (match self.comp(self.main_id()) {
                Some(c) => self.rows_of(c.children@, open@, props@),
                None => Seq::empty(),
            }),
    {
        let mut out: Vec<TimelineRow> = Vec::new();
        if let Some(c) = self.composition(self.main()) {
            let s = &c.children;
            let mut i: usize = 0;
            assert(s@.take(0) =~= Seq::<NodeId>::empty());
            while i < s.len()
                invariant
                    self.wf(),
                    i <= s@.len(),
                    out@ == self.rows_of(s@.take(i as int), open@, props@),
                decreases s.len() - i,
            {
                assert(s@.take(i + 1).drop_last() =~= s@.take(i as int));
                self.append_timeline_rows_for_node(s[i], open, props, &mut out);
                i = i + 1;
            }
            assert(s@.take(s@.len() as int) =~= s@);
        }
        out
    }
}

/// Whether `row` is one of an opacity with keys that the inspector lists for its
/// node.
pub open spec fn is_opacity_row(row: TimelineRow, props: Map<NodeId, Vec<ListedProp>>) -> bool {
    exists|i: int|
        0 <= i < props_of(props, row.node).len() && {
            let listed = #[trigger] props_of(props, row.node)[i];
            listed.prop == row.prop && listed.opacity && listed.animated
        }
}

pub open spec fn are_opacity_rows(rows: Seq<TimelineRow>, props: Map<NodeId, Vec<ListedProp>>) -> bool {
    forall|i: int| 0 <= i < rows.len() ==> is_opacity_row(#[trigger] rows[i], props)
}

proof fn lemma_prop_rows(id: NodeId, props: Map<NodeId, Vec<ListedProp>>, n: int)
    requires
        0 <= n <= props_of(props, id).len(),
    ensures
        are_opacity_rows(prop_rows(id, props_of(props, id).take(n)), props),
    decreases n,
{
    let listed = props_of(props, id).take(n);
    if n > 0 {
        lemma_prop_rows(id, props, n - 1);
        assert(listed.drop_last() =~= props_of(props, id).take(n - 1));
        let last = props_of(props, id)[n - 1];
        assert(listed.last() == last);
        let before = prop_rows(id, listed.drop_last());
        let rows = prop_rows(id, listed);
        assert forall|i: int| 0 <= i < rows.len() implies is_opacity_row(
            #[trigger] rows[i],
            props,
        ) by {
            if i < before.len() {
                assert(rows[i] == before[i]);
            } else {
                assert(props_of(props, rows[i].node)[n - 1] == last);
            }
        }
    }
}

impl Document {
    proof fn lemma_rows_at(&self, id: NodeId, open: Set<NodeId>, props: Map<NodeId, Vec<ListedProp>>)
        requires
            self.wf(),
        ensures
            are_opacity_rows(self.rows_at(id, open, props), props),
        decreases self.height(id), self.node(id).children@.len() + 1,
    {
        let listed = props_of(props, id);
        lemma_prop_rows(id, props, listed.len() as int);
        assert(listed.take(listed.len() as int) =~= listed);
        if open.contains(id) && self.has(id) {
            self.lemma_rows_under(id, 0, open, props);
        }
    }

    proof fn lemma_rows_under(
        &self,
        id: NodeId,
        k: int,
        open: Set<NodeId>,
        props: Map<NodeId, Vec<ListedProp>>,
    )
        requires
            self.wf(),
            self.has(id),
            0 <= k,
        ensures
            are_opacity_rows(self.rows_under(id, k, open, props), props),
        decreases self.height(id), self.node(id).children@.len() - k,
    {
        if k < self.node(id).children@.len() {
            self.lemma_rows_at(self.node(id).children@[k], open, props);
            self.lemma_rows_under(id, k + 1, open, props);
        }
    }

    /// The timeline has rows for opacities with keys and for nothing else.
    pub proof fn law_rows_are_opacities(
        &self,
        s: Seq<NodeId>,
        open: Set<NodeId>,
        props: Map<NodeId, Vec<ListedProp>>,
    )
        requires
            self.wf(),
        ensures
            are_opacity_rows(self.rows_of(s, open, props), props),
        decreases s.len(),
    {
        if s.len() > 0 {
            self.law_rows_are_opacities(s.drop_last(), open, props);
            self.lemma_rows_at(s.last(), open, props);
        }
    }
}

/// Whether `found` is the nearest of `keys` strictly before `frame`, or strictly
/// after it.
pub open spec fn nearest_key(
    keys: Seq<Vec<i64>>,
    frame: int,
    direction: int,
    found: Option<int>,
) -> bool {
    match found {
        Some(f) => {
            &&& exists|r: int, i: int|
                0 <= r < keys.len() && 0 <= i < keys[r]@.len() && #[trigger] keys[r]@[i] == f
            &&& if direction < 0 {
                f < frame
            } else {
                f > frame
            }
            &&& forall|r: int, i: int|
                0 <= r < keys.len() && 0 <= i < keys[r]@.len() ==> {
                    let k = #[trigger] keys[r]@[i];
                    if direction < 0 {
                        k < frame ==> k <= f
                    } else {
                        k > frame ==> k >= f
                    }
                }
        },
        None => forall|r: int, i: int|
            0 <= r < keys.len() && 0 <= i < keys[r]@.len() ==> {
                let k = #[trigger] keys[r]@[i];
                if direction < 0 {
                    k >= frame
                } else {
                    k <= frame
                }
            },
    }
}

/// The nearest key strictly before `frame`, or strictly after it.
pub fn find_key(keys: &Vec<Vec<i64>>, frame: i64, direction: i64) -> (r: Option<i64>)
    ensures
        nearest_key(
            keys@,
            frame as int,
            direction as int,
            match r {
                Some(f) => Some(f as int),
                None => None,
            },
        ),
{
    let mut best: Option<i64> = None;
    let ghost mut at: (int, int) = (0, 0);
    let mut r: usize = 0;
    while r < keys.len()
        invariant
            r <= keys@.len(),
            match best {
                Some(f) => {
                    &&& 0 <= at.0 < keys@.len() && 0 <= at.1 < keys@[at.0]@.len()
                        && keys@[at.0]@[at.1] == f
                    &&& if direction < 0 {
                        f < frame
                    } else {
                        f > frame
                    }
                },
                None => true,
            },
            forall|a: int, b: int|
                0 <= a < r && 0 <= b < keys@[a]@.len() ==> {
                    let k = #[trigger] keys@[a]@[b];
                    if direction < 0 {
                        k < frame ==> (best matches Some(f) && k <= f)
                    } else {
                        k > frame ==> (best matches Some(f) && k >= f)
                    }
                },
        decreases keys.len() - r,
    {
        let row = &keys[r];
        let mut i: usize = 0;
        while i < row.len()
            invariant
                r < keys@.len(),
                *row == keys@[r as int],
                i <= row@.len(),
                match best {
                    Some(f) => {
                        &&& 0 <= at.0 < keys@.len() && 0 <= at.1 < keys@[at.0]@.len()
                            && keys@[at.0]@[at.1] == f
                        &&& if direction < 0 {
                            f < frame
                        } else {
                            f > frame
                        }
                    },
                    None => true,
                },
                forall|a: int, b: int|
                    0 <= a < r && 0 <= b < keys@[a]@.len() ==> {
                        let k = #[trigger] keys@[a]@[b];
                        if direction < 0 {
                            k < frame ==> (best matches Some(f) && k <= f)
                        } else {
                            k > frame ==> (best matches Some(f) && k >= f)
                        }
                    },
                forall|b: int|
                    0 <= b < i ==> {
                        let k = #[trigger] keys@[r as int]@[b];
                        if direction < 0 {
                            k < frame ==> (best matches Some(f) && k <= f)
                        } else {
                            k > frame ==> (best matches Some(f) && k >= f)
                        }
                    },
            decreases row.len() - i,
        {
            let key = row[i];
            let closer = match best {
                Some(b) => if direction < 0 {
                    key > b
                } else {
                    key < b
                },
                None => true,
            };
            let beyond = if direction < 0 {
                key < frame
            } else {
                key > frame
            };
            if beyond && closer {
                best = Some(key);
                proof {
                    at = (r as int, i as int);
                }
            }
            i = i + 1;
        }
        r = r + 1;
    }
    proof {
        if let Some(f) = best {
            assert(keys@[at.0]@[at.1] == f);
        }
    }
    best
}

/// Where the playhead stands against a range.
#[derive(Clone, Copy, Debug, PartialEq, Eq, Structural)]
pub enum HeadPlace {
    Before,
    Inside,
    After,
}

/// The transport on this range, its playhead brought into it.
pub open spec fn in_range(playback: Playback, range: (i64, i64), place: HeadPlace) -> Playback {
    Playback {
        range,
        head: match place {
            HeadPlace::Before => Head::Frame(range.0),
            HeadPlace::Inside => playback.head,
            HeadPlace::After => Head::Frame(range.1),
        },
        ..playback
    }
}

/// What kind of timeline event it is.
#[derive(Clone, Copy, Debug, PartialEq, Eq, Structural)]
pub enum TimelineEventKind {
    Pointer,
    Other,
}

/// What takes a timeline event.
#[derive(Clone, Copy, Debug, PartialEq, Eq, Structural)]
pub enum TimelineRoute {
    /// Nothing: the machine preview runs.
    Ignored,
    /// The playhead.
    Scrub,
    /// The keyframes.
    Keys,
}

impl Session {
    /// The next loop mode; the engine gets the transport.
    pub fn cycle_loop_mode(&mut self)
        ensures
            *final(self) == (Session {
                playback: Playback {
                    loop_mode: loop_after(old(self).playback.loop_mode),
                    ..old(self).playback
                },
                revision: next_revision(old(self).revision),
                ..*old(self)
            }),
    {
        self.playback.loop_mode = match self.playback.loop_mode {
            LoopMode::Once => LoopMode::Loop,
            LoopMode::Loop => LoopMode::PingPong,
            LoopMode::PingPong => LoopMode::Once,
        };
        self.repaint();
    }

    /// Puts the playhead at `head`; the engine scrubs there.
    pub fn set_head(&mut self, head: Head)
        ensures
            *final(self) == (Session {
                playback: Playback { head, ..old(self).playback },
                revision: next_revision(old(self).revision),
                ..*old(self)
            }),
    {
        self.playback.head = head;
        self.repaint();
    }

    /// Steps to the nearest keyframe before or after `frame`, else to the end of
    /// the composition's range. `keys` are the key frames of the timeline's rows.
    pub fn step_to_keyframe(
        &mut self,
        keys: &Vec<Vec<i64>>,
        frame: i64,
        direction: i64,
        range: (i64, i64),
    ) -> (target: i64)
        ensures
            exists|found: Option<int>| #[trigger]
                nearest_key(keys@, frame as int, direction as int, found) && target == (
                match found {
                    Some(f) => f,
                    None => if direction < 0 {
                        range.0 as int
                    } else {
                        range.1 as int
                    },
                }),
            *final(self) == (Session {
                playback: Playback { head: Head::Frame(target), ..old(self).playback },
                revision: next_revision(old(self).revision),
                ..*old(self)
            }),
    {
        let found = find_key(keys, frame, direction);
        let ghost wide: Option<int> = match found {
            Some(f) => Some(f as int),
            None => None,
        };
        assert(nearest_key(keys@, frame as int, direction as int, wide));
        let target: i64 = match found {
            Some(f) => f,
            None => if direction < 0 {
                range.0
            } else {
                range.1
            },
        };
        self.set_head(Head::Frame(target));
        target
    }

    /// Takes over the composition's range and brings the playhead into it. The
    /// engine then gets the transport.
    pub fn sync_playback_range(&mut self, range: (i64, i64), place: HeadPlace)
        ensures
            *final(self) == (Session {
                playback: in_range(old(self).playback, range, place),
                ..*old(self)
            }),
    {
        self.playback.range = range;
        match place {
            HeadPlace::Before => {
                self.playback.head = Head::Frame(range.0);
            },
            HeadPlace::Inside => {},
            HeadPlace::After => {
                self.playback.head = Head::Frame(range.1);
            },
        }
    }

    /// The undo step that sets the ends of the composition's range.
    pub fn set_composition_range(comp: CompId, start: Option<i64>, end: Option<i64>) -> (r: Edit)
        ensures
            crate::arrange::is_edit(
                Some(r),
                "Duration",
                seq![EditorCommand::SetCompositionRange { comp, start, end }],
            ),
    {
        let mut commands: Vec<EditorCommand> = Vec::new();
        commands.push(EditorCommand::SetCompositionRange { comp, start, end });
        Edit { label: "Duration", commands, select: None }
    }

    /// Whether a tick moves anything; the head is then where the engine says.
    pub fn tick_playback(&mut self, head: Head) -> (moved: bool)
        ensures
            moved == (old(self).playing || old(self).machine_preview_enabled),
            *final(self) == (if moved {
                Session {
                    playback: Playback { head, ..old(self).playback },
                    revision: next_revision(old(self).revision),
                    ..*old(self)
                }
            } else {
                *old(self)
            }),
    {
        if !self.playing && !self.machine_preview_enabled {
            return false;
        }
        self.set_head(head);
        true
    }

    /// What takes a timeline event: a drag keeps what it has; else a press in the
    /// ruler moves the playhead.
    pub fn dispatch_timeline(
        &self,
        event: TimelineEventKind,
        scrubbing: bool,
        keys_active: bool,
        in_ruler: bool,
    ) -> (r: TimelineRoute)
        ensures
            r == (if self.machine_preview_enabled {
                TimelineRoute::Ignored
            } else if event == TimelineEventKind::Pointer && (scrubbing || (!keys_active
                && in_ruler)) {
                TimelineRoute::Scrub
            } else {
                TimelineRoute::Keys
            }),
    {
        if self.machine_preview_enabled {
            return TimelineRoute::Ignored;
        }
        match event {
            TimelineEventKind::Pointer => if scrubbing {
                TimelineRoute::Scrub
            } else if keys_active {
                TimelineRoute::Keys
            } else if in_ruler {
                TimelineRoute::Scrub
            } else {
                TimelineRoute::Keys
            },
            TimelineEventKind::Other => TimelineRoute::Keys,
        }
    }
}

/// The loop mode that follows.
pub open spec fn loop_after(mode: LoopMode) -> LoopMode {
    match mode {
        LoopMode::Once => LoopMode::Loop,
        LoopMode::Loop => LoopMode::PingPong,
        LoopMode::PingPong => LoopMode::Once,
    }
}

/// A mark on the ruler: every tenth frame is a major one, with a number.
#[derive(Clone, Copy, Debug, PartialEq, Eq, Structural)]
pub struct Tick {
    pub frame: i64,
    pub major: bool,
}

pub open spec fn ticks(range: (i64, i64)) -> Seq<Tick> {
    Seq::new(
        if range.1 < range.0 {
            0
        } else {
            (range.1 - range.0 + 1) as nat
        },
        |i: int| Tick { frame: (range.0 + i) as i64, major: (range.0 + i) % 10 == 0 },
    )
}

/// The marks of the ruler over `range`, both ends included.
pub fn ruler_ticks(range: (i64, i64)) -> (r: Vec<Tick>)
    ensures
        r@ == ticks(range),
{
    let mut out: Vec<Tick> = Vec::new();
    let count: i128 = range.1 as i128 - range.0 as i128 + 1;
    let mut i: i128 = 0;
    while i < count
        invariant
            count == range.1 - range.0 + 1,
            0 <= i,
            i <= count || i == 0,
            out@ =~= ticks(range).take(i as int),
            i <= ticks(range).len(),
        decreases count - i,
    {
        let frame = (range.0 as i128 + i) as i64;
        out.push(Tick { frame, major: frame % 10 == 0 });
        i = i + 1;
    }
    assert(ticks(range).take(i as int) =~= ticks(range));
    out
}

/// Whether the key is among the selected ones.
pub fn key_selected(selected: &Vec<KeyRef>, row: TimelineRow, frame: i64) -> (r: bool)
    ensures
        r == selected@.contains(KeyRef { node: row.node, prop: row.prop, frame }),
{
    let mut i: usize = 0;
    let ghost wanted = KeyRef { node: row.node, prop: row.prop, frame };
    while i < selected.len()
        invariant
            i <= selected@.len(),
            wanted == (KeyRef { node: row.node, prop: row.prop, frame }),
            forall|j: int| 0 <= j < i ==> selected@[j] != wanted,
        decreases selected.len() - i,
    {
        let k = selected[i];
        if k.node == row.node && k.prop == row.prop && k.frame == frame {
            assert(selected@[i as int] == wanted);
            return true;
        }
        i = i + 1;
    }
    false
}

/// The label of a row: the node's name, and the property's where it has one.
pub fn row_label(node: &str, prop: Option<&str>) -> (r: String)
    ensures
        r@ == (match prop {
            Some(p) => node@ + " · "@ + p@,
            None => node@,
        }),
{
    let mut out = node.to_owned();
    if let Some(p) = prop {
        out.append(" · ");
        out.append(p);
    }
    out
}

/// "Frame 12".
pub fn frame_label(frame: i64) -> (r: String)
    ensures
        r@ == "Frame "@ + signed(frame as int),
{
    let mut out = "Frame ".to_owned();
    append_signed(&mut out, frame);
    out
}

/// The line behind the chips of the timeline.
pub fn info_line(record: bool) -> (r: &'static str)
    ensures
        r == (if record {
            "● REC — edits add keys"
        } else {
            "One row per keyed property"
        }),
{
    if record {
        "● REC — edits add keys"
    } else {
        "One row per keyed property"
    }
}

/// "Range 0–60".
pub fn range_label(range: (i64, i64)) -> (r: String)
    ensures
        r@ == "Range "@ + signed(range.0 as int) + "–"@ + signed(range.1 as int),
{
    let mut out = "Range ".to_owned();
    append_signed(&mut out, range.0);
    out.append("–");
    append_signed(&mut out, range.1);
    out
}

/// How far the selected keys were dragged: "+3f", "-2f"; nothing for no distance.
pub fn drag_label(frames: i64) -> (r: Option<String>)
    ensures
        match r {
            Some(s) => frames != 0 && s@ == (if frames > 0 {
                "+"@ + signed(frames as int) + "f"@
            } else {
                signed(frames as int) + "f"@
            }),
            None => frames == 0,
        },
{
    if frames == 0 {
        return None;
    }
    let mut out = String::new();
    if frames > 0 {
        out.append("+");
        assert(out@ =~= "+"@);
    }
    let ghost sign = out@;
    append_signed(&mut out, frames);
    assert(frames <= 0 ==> out@ =~= signed(frames as int));
    out.append("f");
    Some(out)
}

} // verus!
