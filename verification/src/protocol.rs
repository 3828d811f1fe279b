//! The construction protocol.
//!
//! A builder in flight is a vector of slots, one per field in canonical
//! order, each either empty or holding a stored value representation.
//! Setter calls rewrite single slots; construction consumes every slot in
//! field order, resolving each representation in turn, and aborts on the
//! first validator failure without producing any record. The asynchronous
//! entry point additionally records at which fields it suspends, in
//! order.

use vstd::prelude::*;

use crate::setter::Setter;

verus! {

/// The verdict of resolving one stored representation at construction
/// time.
pub open spec fn spec_resolve<T, E>(s: Setter<T, E>) -> Result<T, E> {
    match s {
        Setter::Default(v) => Ok(v),
        Setter::LateBoundDefault(v) => Ok(v),
        Setter::Value(v) => Ok(v),
        Setter::Lazy(v) => Ok(v),
        Setter::LazyValidated(r) => r,
        Setter::Async(v) => Ok(v),
        Setter::AsyncValidated(r) => r,
    }
}

/// The record's field values, or the first validator failure in field
/// order.
pub open spec fn spec_build<T, E>(slots: Seq<Setter<T, E>>) -> Result<Seq<T>, E>
    decreases slots.len(),
{
    if slots.len() == 0 {
        Ok(Seq::empty())
    } else {
        match spec_resolve(slots[0]) {
            Ok(v) => match spec_build(slots.skip(1)) {
                Ok(vs) => Ok(seq![v] + vs),
                Err(e) => Err(e),
            },
            Err(e) => Err(e),
        }
    }
}

/// The fields at which the asynchronous entry point suspends, in the
/// order it reaches them: every asynchronous representation before, and
/// including, the first failing one.
pub open spec fn spec_await_trace<T, E>(slots: Seq<Setter<T, E>>) -> Seq<int>
    decreases slots.len(),
{
    if slots.len() == 0 {
        Seq::empty()
    } else {
        let head: Seq<int> = if slots[0].spec_is_async() {
            seq![0]
        } else {
            Seq::empty()
        };
        if spec_resolve(slots[0]) is Ok {
            head + spec_await_trace(slots.skip(1)).map_values(|v: int| v + 1)
        } else {
            head
        }
    }
}

/// Resolves one stored representation: the value it yields, or its
/// validator's failure.
pub fn resolve_setter<T, E>(s: Setter<T, E>) -> (r: Result<T, E>)
    ensures
        r == spec_resolve(s),
{
    match s {
        Setter::Default(v) => Ok(v),
        Setter::LateBoundDefault(v) => Ok(v),
        Setter::Value(v) => Ok(v),
        Setter::Lazy(v) => Ok(v),
        Setter::LazyValidated(r) => r,
        Setter::Async(v) => Ok(v),
        Setter::AsyncValidated(r) => r,
    }
}

/// Consumes every stored representation in field order and assembles the
/// record's field values; the first validator failure aborts
/// construction, and no partial record is produced.
#[verifier::loop_isolation(false)]
pub fn build_record<T, E>(slots: Vec<Setter<T, E>>) -> (r: Result<Vec<T>, E>)
    ensures
        match r {
            Ok(vals) => spec_build(slots@) == Ok::<Seq<T>, E>(vals@),
            Err(e) => spec_build(slots@) == Err::<Seq<T>, E>(e),
        },
{
    let ghost sv = slots@;
    let n0 = slots.len();
    let mut rest = slots;
    let mut vals: Vec<T> = Vec::new();
    proof {
        assert(sv.skip(0) =~= sv);
    }
    while rest.len() > 0
        invariant
            sv.len() == n0,
            rest@.len() <= sv.len(),
            rest@ == sv.skip(sv.len() - rest@.len()),
            vals@.len() == sv.len() - rest@.len(),
            spec_build(sv) == (match spec_build(rest@) {
                Ok(vs) => Ok::<Seq<T>, E>(vals@ + vs),
                Err(e) => Err::<Seq<T>, E>(e),
            }),
        decreases rest@.len(),
    {
        let ghost pre = rest@;
        let ghost pre_vals = vals@;
        let s = rest.remove(0);
        proof {
            assert(s == pre[0]);
            assert(pre.remove(0) =~= pre.skip(1));
            assert(sv.skip(sv.len() - pre.len()).skip(1) =~= sv.skip(sv.len() - pre.len() + 1));
        }
        match resolve_setter(s) {
            Ok(v) => {
                vals.push(v);
                proof {
                    assert(spec_build(pre) == (match spec_build(pre.skip(1)) {
                        Ok(vs) => Ok::<Seq<T>, E>(seq![v] + vs),
                        Err(e) => Err::<Seq<T>, E>(e),
                    }));
                    assert forall|vs: Seq<T>| pre_vals + (seq![v] + vs) =~= vals@ + vs by {
                        assert(vals@ == pre_vals.push(v));
                    }
                    if spec_build(pre.skip(1)) is Ok {
                        let vs = spec_build(pre.skip(1))->Ok_0;
                        assert(pre_vals + (seq![v] + vs) =~= vals@ + vs);
                    }
                }
            },
            Err(e) => {
                proof {
                    assert(spec_build(pre) == Err::<Seq<T>, E>(e));
                }
                return Err(e);
            },
        }
    }
    proof {
        assert(rest@ =~= Seq::<Setter<T, E>>::empty());
        assert(spec_build(rest@) == Ok::<Seq<T>, E>(Seq::empty()));
        assert(vals@ + Seq::<T>::empty() =~= vals@);
    }
    Ok(vals)
}

/// The asynchronous construction path: like [`build_record`], and it
/// also reports the fields at which it suspended, in the order it
/// reached them.
#[verifier::loop_isolation(false)]
pub fn build_record_async<T, E>(slots: Vec<Setter<T, E>>) -> (r: (Result<Vec<T>, E>, Vec<usize>))
    ensures
        match r.0 {
            Ok(vals) => spec_build(slots@) == Ok::<Seq<T>, E>(vals@),
            Err(e) => spec_build(slots@) == Err::<Seq<T>, E>(e),
        },
        r.1@.map_values(|v: usize| v as int) == spec_await_trace(slots@),
{
    let ghost sv = slots@;
    let n0 = slots.len();
    let mut rest = slots;
    let mut vals: Vec<T> = Vec::new();
    let mut trace: Vec<usize> = Vec::new();
    let mut i: usize = 0;
    proof {
        assert(sv.skip(0) =~= sv);
        assert(trace@.map_values(|v: usize| v as int) =~= Seq::<int>::empty());
    }
    while rest.len() > 0
        invariant
            sv.len() == n0,
            i == sv.len() - rest@.len(),
            rest@ == sv.skip(i as int),
            rest@.len() <= sv.len(),
            vals@.len() == i,
            spec_build(sv) == (match spec_build(rest@) {
                Ok(vs) => Ok::<Seq<T>, E>(vals@ + vs),
                Err(e) => Err::<Seq<T>, E>(e),
            }),
            spec_await_trace(sv) =~= trace@.map_values(|v: usize| v as int) + spec_await_trace(
                rest@,
            ).map_values(|v: int| v + i),
        decreases rest@.len(),
    {
        let ghost pre = rest@;
        let ghost pre_vals = vals@;
        let ghost pre_trace = trace@;
        let s = rest.remove(0);
        proof {
            assert(s == pre[0]);
            assert(pre.remove(0) =~= pre.skip(1));
            assert(sv.skip(i as int).skip(1) =~= sv.skip(i + 1));
        }
        let is_async = matches!(s, Setter::Async(_)) || matches!(s, Setter::AsyncValidated(_));
        if is_async {
            trace.push(i);
        }
        match resolve_setter(s) {
            Ok(v) => {
                vals.push(v);
                proof {
                    assert(spec_build(pre) == (match spec_build(pre.skip(1)) {
                        Ok(vs) => Ok::<Seq<T>, E>(seq![v] + vs),
                        Err(e) => Err::<Seq<T>, E>(e),
                    }));
                    assert forall|vs: Seq<T>| pre_vals + (seq![v] + vs) =~= vals@ + vs by {
                        assert(vals@ == pre_vals.push(v));
                    }
                    if spec_build(pre.skip(1)) is Ok {
                        let vs = spec_build(pre.skip(1))->Ok_0;
                        assert(pre_vals + (seq![v] + vs) =~= vals@ + vs);
                    }
                    lemma_trace_step(sv, pre, pre_trace, trace@, i, is_async);
                }
            },
            Err(e) => {
                proof {
                    assert(spec_build(pre) == Err::<Seq<T>, E>(e));
                    assert(spec_await_trace(pre) =~= (if is_async {
                        seq![0int]
                    } else {
                        Seq::<int>::empty()
                    }));
                    if is_async {
                        assert(spec_await_trace(pre).map_values(|v: int| v + i) =~= seq![i as int]);
                        assert(trace@ == pre_trace.push(i));
                        assert(trace@.map_values(|v: usize| v as int) =~= pre_trace.map_values(
                            |v: usize| v as int,
                        ) + seq![i as int]);
                    } else {
                        assert(spec_await_trace(pre).map_values(|v: int| v + i) =~= Seq::<
                            int,
                        >::empty());
                        assert(pre_trace.map_values(|v: usize| v as int) + Seq::<int>::empty()
                            =~= pre_trace.map_values(|v: usize| v as int));
                    }
                    assert(spec_await_trace(sv) =~= trace@.map_values(|v: usize| v as int));
                }
                return (Err(e), trace);
            },
        }
        i += 1;
    }
    proof {
        assert(rest@ =~= Seq::<Setter<T, E>>::empty());
        assert(spec_build(rest@) == Ok::<Seq<T>, E>(Seq::empty()));
        assert(vals@ + Seq::<T>::empty() =~= vals@);
        assert(spec_await_trace(rest@) =~= Seq::<int>::empty());
        assert(spec_await_trace(rest@).map_values(|v: int| v + i) =~= Seq::<int>::empty());
        assert(spec_await_trace(sv) =~= trace@.map_values(|v: usize| v as int));
    }
    (Ok(vals), trace)
}

proof fn lemma_trace_step<T, E>(
    sv: Seq<Setter<T, E>>,
    pre: Seq<Setter<T, E>>,
    pre_trace: Seq<usize>,
    cur_trace: Seq<usize>,
    i: usize,
    is_async: bool,
)
    requires
        pre.len() > 0,
        i == sv.len() - pre.len(),
        pre == sv.skip(i as int),
        spec_resolve(pre[0]) is Ok,
        is_async == pre[0].spec_is_async(),
        cur_trace == if is_async {
            pre_trace.push(i)
        } else {
            pre_trace
        },
        spec_await_trace(sv) =~= pre_trace.map_values(|v: usize| v as int) + spec_await_trace(
            pre,
        ).map_values(|v: int| v + i),
    ensures
        spec_await_trace(sv) =~= cur_trace.map_values(|v: usize| v as int) + spec_await_trace(
            pre.skip(1),
        ).map_values(|v: int| v + i + 1),
{
    let head: Seq<int> = if is_async {
        seq![0int]
    } else {
        Seq::empty()
    };
    assert(spec_await_trace(pre) =~= head + spec_await_trace(pre.skip(1)).map_values(
        |v: int| v + 1,
    ));
    assert(spec_await_trace(pre).map_values(|v: int| v + i) =~= head.map_values(
        |v: int| v + i,
    ) + spec_await_trace(pre.skip(1)).map_values(|v: int| v + 1).map_values(|v: int| v + i));
    assert(spec_await_trace(pre.skip(1)).map_values(|v: int| v + 1).map_values(|v: int| v + i)
        =~= spec_await_trace(pre.skip(1)).map_values(|v: int| v + i + 1));
    if is_async {
        assert(head.map_values(|v: int| v + i) =~= seq![i as int]);
        assert(cur_trace.map_values(|v: usize| v as int) =~= pre_trace.map_values(
            |v: usize| v as int,
        ) + seq![i as int]);
    } else {
        assert(head.map_values(|v: int| v + i) =~= Seq::<int>::empty());
        assert(pre_trace.map_values(|v: usize| v as int) + Seq::<int>::empty() =~= pre_trace
            .map_values(|v: usize| v as int));
    }
}

/// A setter call: stores `rep` in slot `index` and leaves every other
/// slot unchanged.
pub fn set_slot<T, E>(slots: Vec<Option<Setter<T, E>>>, index: usize, rep: Setter<T, E>) -> (r:
    Vec<Option<Setter<T, E>>>)
    requires
        index < slots@.len(),
    ensures
        r@ == slots@.update(index as int, Some(rep)),
{
    let mut s = slots;
    s.set(index, Some(rep));
    s
}

/// The immediate validator gate: `checked` is the validator's verdict on
/// the supplied value. On success the builder advances, storing the
/// transformed value; on failure the error is returned from the setter
/// itself and no builder state advances to set.
pub fn set_value_validated<T, E>(
    slots: Vec<Option<Setter<T, E>>>,
    index: usize,
    checked: Result<T, E>,
) -> (r: Result<Vec<Option<Setter<T, E>>>, E>)
    requires
        index < slots@.len(),
    ensures
        match r {
            Ok(ns) => checked is Ok && ns@ == slots@.update(
                index as int,
                Some(Setter::Value(checked->Ok_0)),
            ),
            Err(e) => checked == Err::<T, E>(e),
        },
{
    match checked {
        Ok(v) => Ok(set_slot(slots, index, Setter::Value(v))),
        Err(e) => Err(e),
    }
}

/// The builder's slots after a sequence of setter calls, each a slot
/// index with the representation it stores.
pub open spec fn spec_apply_events<T, E>(
    slots: Seq<Option<Setter<T, E>>>,
    events: Seq<(int, Setter<T, E>)>,
) -> Seq<Option<Setter<T, E>>>
    decreases events.len(),
{
    if events.len() == 0 {
        slots
    } else {
        spec_apply_events(slots.update(events[0].0, Some(events[0].1)), events.skip(1))
    }
}

/// Whether some event targets slot `i`.
pub open spec fn spec_events_touch<T, E>(events: Seq<(int, Setter<T, E>)>, i: int) -> bool {
    exists|k: int| 0 <= k < events.len() && (#[trigger] events[k]).0 == i
}

/// A slot no event targets keeps its contents.
pub proof fn lemma_apply_events_untouched<T, E>(
    slots: Seq<Option<Setter<T, E>>>,
    events: Seq<(int, Setter<T, E>)>,
    i: int,
)
    requires
        forall|k: int| 0 <= k < events.len() ==> 0 <= (#[trigger] events[k]).0 < slots.len(),
        !spec_events_touch(events, i),
    ensures
        spec_apply_events(slots, events).len() == slots.len(),
        0 <= i < slots.len() ==> spec_apply_events(slots, events)[i] == slots[i],
    decreases events.len(),
{
    if events.len() > 0 {
        let next = slots.update(events[0].0, Some(events[0].1));
        assert(forall|k: int|
            0 <= k < events.skip(1).len() ==> events.skip(1)[k] == events[k + 1]);
        assert(events[0].0 != i) by {
            if events[0].0 == i {
                assert(spec_events_touch(events, i));
            }
        }
        assert forall|k: int| 0 <= k < events.skip(1).len() implies (#[trigger] events.skip(
            1,
        )[k]).0 != i by {
            if events.skip(1)[k].0 == i {
                assert(events[k + 1].0 == i);
                assert(spec_events_touch(events, i));
            }
        }
        lemma_apply_events_untouched(next, events.skip(1), i);
    }
}

/// The slot an event targets ends holding that event's representation,
/// provided no two events target the same slot.
pub proof fn lemma_apply_events_targeted<T, E>(
    slots: Seq<Option<Setter<T, E>>>,
    events: Seq<(int, Setter<T, E>)>,
    k: int,
)
    requires
        forall|m: int| 0 <= m < events.len() ==> 0 <= (#[trigger] events[m]).0 < slots.len(),
        forall|m1: int, m2: int|
            0 <= m1 < m2 < events.len() ==> (#[trigger] events[m1]).0 != (
            #[trigger] events[m2]).0,
        0 <= k < events.len(),
    ensures
        spec_apply_events(slots, events)[events[k].0] == Some(events[k].1),
    decreases events.len(),
{
    let next = slots.update(events[0].0, Some(events[0].1));
    assert(forall|m: int| 0 <= m < events.skip(1).len() ==> events.skip(1)[m] == events[m + 1]);
    if k == 0 {
        assert forall|m: int| 0 <= m < events.skip(1).len() implies (#[trigger] events.skip(
            1,
        )[m]).0 != events[0].0 by {
            assert(events[m + 1].0 != events[0].0);
        }
        assert(!spec_events_touch(events.skip(1), events[0].0)) by {
            if spec_events_touch(events.skip(1), events[0].0) {
                let m = choose|m: int|
                    0 <= m < events.skip(1).len() && (#[trigger] events.skip(1)[m]).0 == events[0].0;
                assert(events.skip(1)[m].0 != events[0].0);
            }
        }
        lemma_apply_events_untouched(next, events.skip(1), events[0].0);
    } else {
        lemma_apply_events_targeted(next, events.skip(1), k - 1);
        assert(events.skip(1)[k - 1] == events[k]);
    }
}

/// Order independence: two sequences of setter calls that store the
/// same representations into the same slots, in any order, leave the
/// builder in the same state, so the constructed record's field values
/// are identical.
pub proof fn lemma_order_independence_events<T, E>(
    slots: Seq<Option<Setter<T, E>>>,
    events1: Seq<(int, Setter<T, E>)>,
    events2: Seq<(int, Setter<T, E>)>,
)
    requires
        forall|m: int| 0 <= m < events1.len() ==> 0 <= (#[trigger] events1[m]).0 < slots.len(),
        forall|m: int| 0 <= m < events2.len() ==> 0 <= (#[trigger] events2[m]).0 < slots.len(),
        forall|m1: int, m2: int|
            0 <= m1 < m2 < events1.len() ==> (#[trigger] events1[m1]).0 != (
            #[trigger] events1[m2]).0,
        forall|m1: int, m2: int|
            0 <= m1 < m2 < events2.len() ==> (#[trigger] events2[m1]).0 != (
            #[trigger] events2[m2]).0,
        forall|p: (int, Setter<T, E>)| events1.contains(p) <==> events2.contains(p),
    ensures
        spec_apply_events(slots, events1) == spec_apply_events(slots, events2),
{
    let r1 = spec_apply_events(slots, events1);
    let r2 = spec_apply_events(slots, events2);
    lemma_apply_events_len(slots, events1);
    lemma_apply_events_len(slots, events2);
    assert forall|i: int| 0 <= i < slots.len() implies r1[i] == r2[i] by {
        if spec_events_touch(events1, i) {
            let k1 = choose|k1: int| 0 <= k1 < events1.len() && (#[trigger] events1[k1]).0 == i;
            lemma_apply_events_targeted(slots, events1, k1);
            assert(events1.contains(events1[k1]));
            assert(events2.contains(events1[k1]));
            let k2 = choose|k2: int|
                0 <= k2 < events2.len() && #[trigger] events2[k2] == events1[k1];
            lemma_apply_events_targeted(slots, events2, k2);
        } else {
            assert(!spec_events_touch(events2, i)) by {
                if spec_events_touch(events2, i) {
                    let k2 = choose|k2: int|
                        0 <= k2 < events2.len() && (#[trigger] events2[k2]).0 == i;
                    assert(events2.contains(events2[k2]));
                    assert(events1.contains(events2[k2]));
                    let k1 = choose|k1: int|
                        0 <= k1 < events1.len() && #[trigger] events1[k1] == events2[k2];
                    assert(spec_events_touch(events1, i));
                }
            }
            lemma_apply_events_untouched(slots, events1, i);
            lemma_apply_events_untouched(slots, events2, i);
        }
    }
    assert(r1 =~= r2);
}

proof fn lemma_apply_events_len<T, E>(
    slots: Seq<Option<Setter<T, E>>>,
    events: Seq<(int, Setter<T, E>)>,
)
    requires
        forall|m: int| 0 <= m < events.len() ==> 0 <= (#[trigger] events[m]).0 < slots.len(),
    ensures
        spec_apply_events(slots, events).len() == slots.len(),
    decreases events.len(),
{
    if events.len() > 0 {
        assert(forall|m: int| 0 <= m < events.skip(1).len() ==> events.skip(1)[m] == events[m + 1]);
        lemma_apply_events_len(slots.update(events[0].0, Some(events[0].1)), events.skip(1));
    }
}

/// When every representation resolves, construction succeeds and each
/// field's value is its representation's resolved value.
pub proof fn lemma_build_values<T, E>(slots: Seq<Setter<T, E>>)
    requires
        forall|j: int| 0 <= j < slots.len() ==> spec_resolve(#[trigger] slots[j]) is Ok,
    ensures
        spec_build(slots) is Ok,
        spec_build(slots)->Ok_0.len() == slots.len(),
        forall|j: int|
            0 <= j < slots.len() ==> spec_build(slots)->Ok_0[j] == spec_resolve(
                #[trigger] slots[j],
            )->Ok_0,
    decreases slots.len(),
{
    if slots.len() > 0 {
        assert(forall|j: int| 0 <= j < slots.skip(1).len() ==> slots.skip(1)[j] == slots[j + 1]);
        lemma_build_values(slots.skip(1));
        assert(spec_resolve(slots[0]) is Ok);
        let v = spec_resolve(slots[0])->Ok_0;
        let vs = spec_build(slots.skip(1))->Ok_0;
        assert(spec_build(slots) == Ok::<Seq<T>, E>(seq![v] + vs));
        assert forall|j: int| 0 <= j < slots.len() implies spec_build(slots)->Ok_0[j]
            == spec_resolve(#[trigger] slots[j])->Ok_0 by {
            if j == 0 {
                assert((seq![v] + vs)[0] == v);
            } else {
                assert((seq![v] + vs)[j] == vs[j - 1]);
                assert(slots.skip(1)[j - 1] == slots[j]);
                assert(vs[j - 1] == spec_resolve(slots.skip(1)[j - 1])->Ok_0);
            }
        }
    }
}

/// Default substitution: when construction succeeds, a field whose slot
/// still holds its immediate default gets exactly that default value.
pub proof fn lemma_default_substitution<T, E>(slots: Seq<Setter<T, E>>, i: int)
    requires
        forall|j: int| 0 <= j < slots.len() ==> spec_resolve(#[trigger] slots[j]) is Ok,
        0 <= i < slots.len(),
        slots[i] is Default,
    ensures
        spec_build(slots) is Ok,
        spec_build(slots)->Ok_0[i] == slots[i]->Default_0,
{
    lemma_build_values(slots);
}

/// The deferred validator gate: when every field before `i` resolves and
/// field `i`'s deferred validator fails, construction returns exactly
/// that failure, and no record is produced.
pub proof fn lemma_deferred_validator_gate<T, E>(slots: Seq<Setter<T, E>>, i: int, e: E)
    requires
        0 <= i < slots.len(),
        forall|j: int| 0 <= j < i ==> spec_resolve(#[trigger] slots[j]) is Ok,
        spec_resolve(slots[i]) == Err::<T, E>(e),
    ensures
        spec_build(slots) == Err::<Seq<T>, E>(e),
    decreases i,
{
    if i == 0 {
    } else {
        assert(forall|j: int| 0 <= j < slots.skip(1).len() ==> slots.skip(1)[j] == slots[j + 1]);
        lemma_deferred_validator_gate(slots.skip(1), i - 1, e);
    }
}

/// The asynchronous resolution order: the await trace is strictly
/// ascending, every entry names an asynchronous representation, and on a
/// failure-free path it holds exactly the asynchronous fields. Hence of
/// two asynchronous fields, the one declared first is always resolved
/// first.
pub proof fn lemma_await_trace_ordered<T, E>(slots: Seq<Setter<T, E>>)
    ensures
        forall|k1: int, k2: int|
            0 <= k1 < k2 < spec_await_trace(slots).len() ==> #[trigger] spec_await_trace(
                slots,
            )[k1] < #[trigger] spec_await_trace(slots)[k2],
        forall|k: int|
            0 <= k < spec_await_trace(slots).len() ==> 0 <= #[trigger] spec_await_trace(slots)[k]
                < slots.len() && slots[spec_await_trace(slots)[k]].spec_is_async(),
        (forall|j: int| 0 <= j < slots.len() ==> spec_resolve(#[trigger] slots[j]) is Ok) ==> (
        forall|j: int|
            0 <= j < slots.len() && (#[trigger] slots[j]).spec_is_async()
                ==> spec_await_trace(slots).contains(j)),
    decreases slots.len(),
{
    if slots.len() == 0 {
    } else {
        lemma_await_trace_ordered(slots.skip(1));
        let tail = spec_await_trace(slots.skip(1)).map_values(|v: int| v + 1);
        let head: Seq<int> = if slots[0].spec_is_async() {
            seq![0int]
        } else {
            Seq::empty()
        };
        assert(forall|j: int| 0 <= j < slots.skip(1).len() ==> slots.skip(1)[j] == slots[j + 1]);
        if spec_resolve(slots[0]) is Ok {
            assert(spec_await_trace(slots) == head + tail);
            if forall|j: int| 0 <= j < slots.len() ==> spec_resolve(#[trigger] slots[j]) is Ok {
                assert forall|j: int|
                    0 <= j < slots.len() && (#[trigger] slots[j]).spec_is_async() implies
                    spec_await_trace(slots).contains(j) by {
                    if j == 0 {
                        assert(spec_await_trace(slots)[0] == 0);
                    } else {
                        assert(slots.skip(1)[j - 1].spec_is_async());
                        assert(spec_await_trace(slots.skip(1)).contains(j - 1));
                        let m = choose|m: int|
                            0 <= m < spec_await_trace(slots.skip(1)).len()
                                && #[trigger] spec_await_trace(slots.skip(1))[m] == j - 1;
                        assert(tail[m] == j);
                        assert(spec_await_trace(slots)[head.len() + m] == j);
                    }
                }
            }
        } else {
            assert(spec_await_trace(slots) == head);
        }
    }
}

} // verus!
