//! Lists that hold, in order, exactly what is there of a list of optional entries.
use vstd::prelude::*;

verus! {

/// Whether `list` holds the entries of `wanted` that are there, all of them, in order and
/// nothing else.
pub open spec fn keeps<A>(list: Seq<A>, wanted: Seq<Option<A>>) -> bool {
    exists|at: Seq<int>| #[trigger] keeps_at(list, wanted, at)
}

/// Whether `list[k]` is the entry `at[k]` of `wanted`, for entries that go up and leave
/// out only what is not there.
pub open spec fn keeps_at<A>(list: Seq<A>, wanted: Seq<Option<A>>, at: Seq<int>) -> bool {
    &&& at.len() == list.len()
    &&& forall|k: int|
        0 <= k < at.len() ==> 0 <= #[trigger] at[k] < wanted.len() && wanted[at[k]] == Some(list[k])
    &&& forall|k: int, l: int| 0 <= k < l < at.len() ==> #[trigger] at[k] < #[trigger] at[l]
    &&& forall|i: int|
        0 <= i < wanted.len() && #[trigger] wanted[i] is Some ==> at.contains(i)
}

pub proof fn lemma_keeps_none<A>()
    ensures
        keeps(Seq::<A>::empty(), Seq::<Option<A>>::empty()),
{
    assert(keeps_at(Seq::<A>::empty(), Seq::<Option<A>>::empty(), Seq::<int>::empty()));
}

pub proof fn lemma_keeps_more<A>(list: Seq<A>, wanted: Seq<Option<A>>, next: Option<A>)
    requires
        keeps(list, wanted),
    ensures
        next is None ==> keeps(list, wanted.push(next)),
        next is Some ==> keeps(list.push(next->0), wanted.push(next)),
{
    let at = choose|at: Seq<int>| #[trigger] keeps_at(list, wanted, at);
    let more = wanted.push(next);
    match next {
        None => {
            assert forall|i: int| 0 <= i < more.len() && #[trigger] more[i] is Some implies at.contains(
                i,
            ) by {
                assert(wanted[i] == more[i]);
            }
            assert(keeps_at(list, more, at));
        },
        Some(a) => {
            let at2 = at.push(wanted.len() as int);
            let list2 = list.push(a);
            assert forall|i: int| 0 <= i < more.len() && #[trigger] more[i] is Some implies at2.contains(
                i,
            ) by {
                if i < wanted.len() {
                    assert(wanted[i] == more[i]);
                    assert(at.contains(i));
                    let k = choose|k: int| 0 <= k < at.len() && at[k] == i;
                    assert(at2[k] == i);
                } else {
                    assert(at2[at2.len() - 1] == i);
                }
            }
            assert forall|k: int| 0 <= k < at2.len() implies 0 <= #[trigger] at2[k] < more.len()
                && more[at2[k]] == Some(list2[k]) by {
                if k < at.len() {
                    assert(0 <= at[k] < wanted.len());
                }
            }
            assert(keeps_at(list2, more, at2));
        },
    }
}

/// What such a list holds is what is there, and it is empty where nothing is.
pub proof fn lemma_keeps_holds<A>(list: Seq<A>, wanted: Seq<Option<A>>)
    requires
        keeps(list, wanted),
    ensures
        forall|x: A| #[trigger] list.contains(x) <==> wanted.contains(Some(x)),
        list.len() <= wanted.len(),
        list.len() == 0 <==> forall|i: int| 0 <= i < wanted.len() ==> #[trigger] wanted[i] is None,
    decreases wanted.len(),
{
    let at = choose|at: Seq<int>| #[trigger] keeps_at(list, wanted, at);
    assert forall|x: A| #[trigger] list.contains(x) <==> wanted.contains(Some(x)) by {
        if list.contains(x) {
            let k = choose|k: int| 0 <= k < list.len() && list[k] == x;
            assert(wanted[at[k]] == Some(x));
        }
        if wanted.contains(Some(x)) {
            let i = choose|i: int| 0 <= i < wanted.len() && wanted[i] == Some(x);
            assert(at.contains(i));
            let k = choose|k: int| 0 <= k < at.len() && at[k] == i;
            assert(list[k] == x);
        }
    }
    if list.len() > 0 {
        assert(wanted[at[0]] is Some);
    } else {
        assert forall|i: int| 0 <= i < wanted.len() implies #[trigger] wanted[i] is None by {
            if wanted[i] is Some {
                assert(at.contains(i));
            }
        }
    }
    lemma_rising(at, list.len() as int);
    if list.len() > 0 {
        assert(at[at.len() - 1] >= at.len() - 1);
    }
}

proof fn lemma_rising(at: Seq<int>, n: int)
    requires
        n <= at.len(),
        forall|k: int| 0 <= k < at.len() ==> 0 <= #[trigger] at[k],
        forall|k: int, l: int| 0 <= k < l < at.len() ==> #[trigger] at[k] < #[trigger] at[l],
    ensures
        forall|k: int| 0 <= k < n ==> #[trigger] at[k] >= k,
    decreases n,
{
    if n > 1 {
        lemma_rising(at, n - 1);
        assert(at[n - 1] > at[n - 2]);
    }
}

/// The entries of `s` that pass the test.
pub open spec fn passing<A>(s: Seq<A>, test: spec_fn(A) -> bool) -> Seq<Option<A>> {
    Seq::new(
        s.len(),
        |i: int|
            if test(s[i]) {
                Some(s[i])
            } else {
                None
            },
    )
}

pub proof fn lemma_filter_keeps<A>(s: Seq<A>, test: spec_fn(A) -> bool)
    ensures
        keeps(s.filter(test), passing(s, test)),
    decreases s.len(),
{
    reveal(Seq::filter);
    if s.len() == 0 {
        lemma_keeps_none::<A>();
        assert(passing(s, test) =~= Seq::<Option<A>>::empty());
        assert(s.filter(test) =~= Seq::<A>::empty());
    } else {
        let front = s.drop_last();
        lemma_filter_keeps(front, test);
        let next = if test(s.last()) {
            Some(s.last())
        } else {
            None
        };
        lemma_keeps_more(front.filter(test), passing(front, test), next);
        assert(passing(front, test).push(next) =~= passing(s, test));
    }
}

} // verus!
