//! Gradient stops: their order, and where a new one goes. An offset is given by a
//! key, a number that orders as the offset does.
use vstd::prelude::*;

use crate::commands::{Edit, EditorCommand, Property};
use crate::inspect::can_remove_stop;
use crate::model::{Handle, NodeId};
use crate::session::Session;

verus! {

/// Whether stop `a` stands before stop `b`: by its offset, and where those are
/// equal by its place.
pub open spec fn stands_before(keys: Seq<i64>, a: usize, b: usize) -> bool {
    keys[a as int] < keys[b as int] || (keys[a as int] == keys[b as int] && a < b)
}

/// The places of the first `n` stops, in the order of their offsets.
pub open spec fn is_order(keys: Seq<i64>, n: int, order: Seq<usize>) -> bool {
    &&& order.len() == n
    &&& forall|i: int| 0 <= i < n ==> (#[trigger] order[i]) < n
    &&& forall|i: int, j: int|
        0 <= i < j < n ==> stands_before(keys, #[trigger] order[i], #[trigger] order[j])
}

/// The places of the stops, in the order of their offsets; equal ones keep their
/// order.
pub fn stop_order(keys: &Vec<i64>) -> (r: Vec<usize>)
    ensures
        is_order(keys@, keys@.len() as int, r@),
{
    let mut order: Vec<usize> = Vec::new();
    let mut n: usize = 0;
    while n < keys.len()
        invariant
            n <= keys@.len(),
            is_order(keys@, n as int, order@),
        decreases keys.len() - n,
    {
        let ghost before = order@;
        let mut at: usize = n;
        while at > 0 && keys[order[at - 1]] > keys[n]
            invariant
                at <= n < keys@.len(),
                order@ == before,
                is_order(keys@, n as int, before),
                forall|i: int| at <= i < n ==> keys@[(#[trigger] before[i]) as int] > keys@[n as int],
            decreases at,
        {
            at = at - 1;
        }
        order.insert(at, n);
        assert forall|i: int, j: int| 0 <= i < j < n + 1 implies stands_before(
            keys@,
            #[trigger] order@[i],
            #[trigger] order@[j],
        ) by {
            if j < at {
                assert(stands_before(keys@, before[i], before[j]));
            } else if j == at {
                assert(order@[i] == before[i]);
                if i < at - 1 {
                    assert(stands_before(keys@, before[i], before[at - 1]));
                }
            } else if i < at {
                assert(stands_before(keys@, before[i], before[j - 1]));
            } else if i == at {
                assert(order@[j] == before[j - 1]);
            } else {
                assert(stands_before(keys@, before[i - 1], before[j - 1]));
            }
        }
        assert forall|i: int| 0 <= i < n + 1 implies (#[trigger] order@[i]) < n + 1 by {
            if i < at {
                assert(order@[i] == before[i]);
            } else if i > at {
                assert(order@[i] == before[i - 1]);
            }
        }
        n = n + 1;
    }
    order
}

/// Sorting leaves every stop in its place exactly once, and there is only one such
/// order.
pub proof fn law_stop_order_is_unique(keys: Seq<i64>, a: Seq<usize>, b: Seq<usize>)
    requires
        is_order(keys, keys.len() as int, a),
        is_order(keys, keys.len() as int, b),
    ensures
        a.no_duplicates(),
        a == b,
{
    assert(a.no_duplicates()) by {
        assert forall|i: int, j: int| 0 <= i < a.len() && 0 <= j < a.len() && i != j implies a[i]
            != a[j] by {
            if i < j {
                assert(stands_before(keys, a[i], a[j]));
            } else {
                assert(stands_before(keys, a[j], a[i]));
            }
        }
    }
    lemma_same_order(keys, a, b, keys.len() as int);
    assert(a =~= b);
}

/// Where `x` stands in an order of all stops.
proof fn lemma_order_holds(keys: Seq<i64>, order: Seq<usize>, x: usize) -> (i: int)
    requires
        is_order(keys, keys.len() as int, order),
        x < keys.len(),
    ensures
        0 <= i < order.len(),
        order[i] == x,
{
    let n = keys.len() as int;
    if forall|i: int| 0 <= i < n ==> order[i] != x {
        let image = Seq::new(n as nat, |i: int| order[i] as int);
        assert(image.no_duplicates()) by {
            assert forall|i: int, j: int|
                0 <= i < n && 0 <= j < n && i != j implies image[i] != image[j] by {
                if i < j {
                    assert(stands_before(keys, order[i], order[j]));
                } else {
                    assert(stands_before(keys, order[j], order[i]));
                }
            }
        }
        let all = vstd::set_lib::set_int_range(0, n);
        vstd::set_lib::lemma_int_range(0, n);
        image.unique_seq_to_set();
        let rest = all.remove(x as int);
        assert(image.to_set().subset_of(rest)) by {
            assert forall|y: int| image.to_set().contains(y) implies rest.contains(y) by {
                let i = choose|i: int| 0 <= i < n && image[i] == y;
                assert(order[i] == y);
            }
        }
        vstd::set_lib::lemma_len_subset(image.to_set(), rest);
        assert(false);
    }
    choose|i: int| 0 <= i < n && order[i] == x
}

proof fn lemma_same_order(keys: Seq<i64>, a: Seq<usize>, b: Seq<usize>, k: int)
    requires
        is_order(keys, keys.len() as int, a),
        is_order(keys, keys.len() as int, b),
        0 <= k <= keys.len(),
    ensures
        forall|i: int| 0 <= i < k ==> a[i] == b[i],
    decreases k,
{
    if k > 0 {
        lemma_same_order(keys, a, b, k - 1);
        let m = k - 1;
        if a[m] != b[m] {
            let i = lemma_order_holds(keys, b, a[m]);
            let j = lemma_order_holds(keys, a, b[m]);
            if i < m {
                assert(a[i] == b[i]);
                assert(stands_before(keys, a[i], a[m]));
            }
            if j < m {
                assert(a[j] == b[j]);
                assert(stands_before(keys, b[j], b[m]));
            }
            assert(stands_before(keys, b[m], b[i]));
            assert(stands_before(keys, a[m], a[j]));
        }
    }
}

/// The first of the widest gaps.
pub open spec fn is_widest(gaps: Seq<i64>, at: int) -> bool {
    &&& 0 <= at < gaps.len()
    &&& forall|i: int| 0 <= i < gaps.len() ==> gaps[i] <= gaps[at]
    &&& forall|i: int| 0 <= i < at ==> gaps[i] < gaps[at]
}

/// The first of the widest gaps.
pub fn widest_gap(gaps: &Vec<i64>) -> (r: usize)
    requires
        gaps@.len() > 0,
    ensures
        is_widest(gaps@, r as int),
{
    let mut best: usize = 0;
    let mut i: usize = 1;
    while i < gaps.len()
        invariant
            best < i <= gaps@.len(),
            forall|j: int| 0 <= j < i ==> gaps@[j] <= gaps@[best as int],
            forall|j: int| 0 <= j < best ==> gaps@[j] < gaps@[best as int],
        decreases gaps.len() - i,
    {
        if gaps[i] > gaps[best] {
            best = i;
        }
        i = i + 1;
    }
    best
}

/// Where a new stop goes.
#[allow(inconsistent_fields)]
#[derive(Clone, Copy, Debug, PartialEq, Eq, Structural)]
pub enum NewStop {
    /// There are none: black at the beginning and white at the end.
    Both,
    /// There is one: its colour, in the middle.
    Middle { of: usize },
    /// Half way between two neighbours.
    Between { first: usize, second: usize },
}

/// Where a new stop goes: into the widest gap. `order` is the stops' order, and
/// `gaps` has a key for the gap behind each of them but the last.
pub fn insert_gradient_stop(order: &Vec<usize>, gaps: &Vec<i64>) -> (r: NewStop)
    requires
        order@.len() >= 2 ==> gaps@.len() == order@.len() - 1,
    ensures
        order@.len() == 0 ==> r == NewStop::Both,
        order@.len() == 1 ==> r == (NewStop::Middle { of: order@[0] }),
        order@.len() >= 2 ==> exists|at: int| #[trigger]
            is_widest(gaps@, at) && r == (NewStop::Between {
                first: order@[at],
                second: order@[at + 1],
            }),
{
    if order.len() == 0 {
        return NewStop::Both;
    }
    if order.len() == 1 {
        return NewStop::Middle { of: order[0] };
    }
    let at = widest_gap(gaps);
    assert(is_widest(gaps@, at as int));
    NewStop::Between { first: order[at], second: order[at + 1] }
}

/// The path of a gradient's stops.
pub const STOPS: &'static str = "grad.stops";

impl Session {
    /// The write of a gradient's stops: a key while animating with the record button
    /// on, else a static value.
    pub open spec fn stops_written(&self, style: NodeId, value: Handle) -> EditorCommand {
        EditorCommand::SetProperty {
            id: style,
            prop: Property::Path(STOPS),
            value,
            keyed: self.writes_keys(),
        }
    }

    /// The step that adds a stop to a gradient. `stops` numbers the stops with the
    /// new one among them; there are none where the style has no gradient.
    pub fn add_stop(&self, style: NodeId, stops: Option<Handle>) -> (r: Option<Edit>)
        ensures
            match stops {
                Some(value) => r matches Some(e) && e.carries(
                    "Add stop",
                    seq![self.stops_written(style, value)],
                ),
                None => r is None,
            },
    {
        match stops {
            Some(value) => Some(
                Edit::single(
                    "Add stop",
                    EditorCommand::SetProperty {
                        id: style,
                        prop: Property::Path(STOPS),
                        value,
                        keyed: self.record_for_writes(),
                    },
                ),
            ),
            None => None,
        }
    }

    /// The step that removes stop `index` of a gradient of `count` stops: two stay in
    /// any case. `rest` numbers the other stops.
    pub fn remove_stop(&self, style: NodeId, index: usize, count: usize, rest: Handle) -> (r: Option<
        Edit,
    >)
        ensures
            r is Some == (index < count && count > 2),
            r matches Some(e) ==> e.carries(
                "Remove stop",
                seq![self.stops_written(style, rest)],
            ),
    {
        if !can_remove_stop(index, count) {
            return None;
        }
        Some(
            Edit::single(
                "Remove stop",
                EditorCommand::SetProperty {
                    id: style,
                    prop: Property::Path(STOPS),
                    value: rest,
                    keyed: self.record_for_writes(),
                },
            ),
        )
    }
}

} // verus!
