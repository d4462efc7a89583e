//! Several callers on one cache.
//!
//! Each caller has an operation of its own; the cache is shared. A driver
//! takes the steps of the operations one at a time, in any order, so a run of
//! the whole is a schedule: who is given which event, step after step.
use crate::errors::KmsAeadError;
use crate::model::{
    step, ActionView, CacheView, CurrentKeyUseView, EventView, KeyPlanView, OperationView,
    OutcomeView, SessionKeyPairView,
};
use vstd::prelude::*;

verus! {

/// One step of a schedule: the event `event` is given to the operation of
/// caller number `caller`.
pub struct DeliveryView {
    pub caller: int,
    pub event: EventView,
}

/// The callers' operations, the cache they share, the result that each
/// caller has had so far, and how many requests to wrap a key have gone to
/// the backend.
pub struct SharedView {
    pub operations: Seq<OperationView>,
    pub cache: CacheView,
    pub results: Seq<Option<Result<OutcomeView, KmsAeadError>>>,
    pub wraps: nat,
}

impl SharedView {
    /// `callers` callers who each call `get_or_create_current`, none of whom
    /// has taken a step, on a cache that holds no key.
    pub open spec fn first_access(callers: nat) -> SharedView {
        SharedView {
            operations: Seq::new(callers, |i: int| OperationView::get_or_create_current()),
            cache: CacheView::empty(),
            results: Seq::new(callers, |i: int| None),
            wraps: 0,
        }
    }

    /// The whole after one delivery. A delivery to a caller that does not
    /// exist changes nothing.
    pub open spec fn deliver(self, delivery: DeliveryView) -> SharedView {
        if 0 <= delivery.caller < self.operations.len() {
            let next = step(self.operations[delivery.caller], self.cache, delivery.event);
            SharedView {
                operations: self.operations.update(delivery.caller, next.operation),
                cache: next.cache,
                results: match next.action {
                    ActionView::Done(result) => self.results.update(delivery.caller, Some(result)),
                    _ => self.results,
                },
                wraps: if next.action is Wrap {
                    self.wraps + 1
                } else {
                    self.wraps
                },
            }
        } else {
            self
        }
    }

    /// The whole after the deliveries of `schedule`, in their order.
    pub open spec fn play(self, schedule: Seq<DeliveryView>) -> SharedView
        decreases schedule.len(),
    {
        if schedule.len() == 0 {
            self
        } else {
            self.play(schedule.drop_last()).deliver(schedule.last())
        }
    }
}

/// Whether the cache is held by exactly one of the operations when it is
/// busy, and by none when it is free.
pub open spec fn one_holder(shared: SharedView) -> bool {
    if shared.cache.busy {
        exists|holder: int|
            0 <= holder < shared.operations.len() && #[trigger] shared.operations[holder].holds_cache()
                && forall|i: int|
                0 <= i < shared.operations.len() && i != holder
                    ==> !#[trigger] shared.operations[i].holds_cache()
    } else {
        forall|i: int|
            0 <= i < shared.operations.len() ==> !#[trigger] shared.operations[i].holds_cache()
    }
}

/// One delivery keeps the cache with one holder or none.
proof fn lemma_delivery_keeps_one_holder(shared: SharedView, delivery: DeliveryView)
    requires
        one_holder(shared),
    ensures
        one_holder(shared.deliver(delivery)),
{
    let after = shared.deliver(delivery);
    let callers = shared.operations.len();
    if 0 <= delivery.caller < callers {
        let me = delivery.caller;
        if shared.cache.busy {
            let holder = choose|holder: int|
                0 <= holder < callers && #[trigger] shared.operations[holder].holds_cache()
                    && forall|i: int|
                    0 <= i < callers && i != holder ==> !#[trigger] shared.operations[i].holds_cache();
            if me != holder {
                assert(!shared.operations[me].holds_cache());
            }
            if after.cache.busy {
                assert(after.operations[holder].holds_cache());
                assert forall|i: int| 0 <= i < callers && i != holder implies !#[trigger] after.operations[i].holds_cache() by {
                    assert(!shared.operations[i].holds_cache());
                }
            } else {
                assert forall|i: int| 0 <= i < callers implies !#[trigger] after.operations[i].holds_cache() by {
                    if i != holder {
                        assert(!shared.operations[i].holds_cache());
                    }
                }
            }
        } else {
            assert(!shared.operations[me].holds_cache());
            if after.cache.busy {
                assert(after.operations[me].holds_cache());
                assert forall|i: int| 0 <= i < callers && i != me implies !#[trigger] after.operations[i].holds_cache() by {
                    assert(!shared.operations[i].holds_cache());
                }
            } else {
                assert forall|i: int| 0 <= i < callers implies !#[trigger] after.operations[i].holds_cache() by {
                    assert(!shared.operations[i].holds_cache());
                }
            }
        }
    }
}

/// Mutual exclusion. Let operations share a cache that is free, none of
/// them holding it, or that is held by one of them. Then after any
/// schedule, whatever the events, the cache is busy exactly when one of the
/// operations generates and wraps the key that will be the current one, and
/// no second operation does so at the same time: creating the first key and
/// rotating exclude each other and themselves.
pub proof fn law_one_sequence_at_a_time(shared: SharedView, schedule: Seq<DeliveryView>)
    requires
        one_holder(shared),
    ensures
        one_holder(shared.play(schedule)),
    decreases schedule.len(),
{
    if schedule.len() > 0 {
        law_one_sequence_at_a_time(shared, schedule.drop_last());
        lemma_delivery_keeps_one_holder(shared.play(schedule.drop_last()), schedule.last());
    }
}

/// Whether the delivery ends the operation of its caller with an error.
pub open spec fn fails(shared: SharedView, delivery: DeliveryView) -> bool {
    0 <= delivery.caller < shared.operations.len() && step(
        shared.operations[delivery.caller],
        shared.cache,
        delivery.event,
    ).action matches ActionView::Done(Err(_))
}

/// Whether caller `i` has failed.
pub open spec fn failed(shared: SharedView, i: int) -> bool {
    shared.operations[i] is Finished && shared.results[i] matches Some(Err(_))
}

/// Whether an operation is the one that creates the first key, with `wraps`
/// requests to wrap made so far.
pub open spec fn creating(operation: OperationView, wraps: nat) -> bool {
    match operation {
        OperationView::Generating(plan) => plan == KeyPlanView::Current(CurrentKeyUseView::Hand)
            && wraps == 0,
        OperationView::Wrapping(plan, _) => plan == KeyPlanView::Current(CurrentKeyUseView::Hand)
            && wraps == 1,
        _ => false,
    }
}

/// Whether caller `i` has not been served yet.
pub open spec fn waiting(shared: SharedView, i: int) -> bool {
    shared.operations[i] == OperationView::get_or_create_current() && shared.results[i] is None
}

/// Whether caller `i` has been given `pair`.
pub open spec fn served(shared: SharedView, i: int, pair: SessionKeyPairView) -> bool {
    shared.operations[i] is Finished && shared.results[i] == Some(
        Ok::<OutcomeView, KmsAeadError>(OutcomeView::CurrentKey(pair)),
    )
}

/// Where callers of first access can stand: nobody has begun; or one of
/// them creates the key and the others wait; or the key is there and each
/// caller either waits still or has been given it.
pub open spec fn first_access_stands(callers: nat, shared: SharedView) -> bool {
    &&& shared.operations.len() == callers
    &&& shared.results.len() == callers
    &&& match shared.cache.current {
        None => if shared.cache.busy {
            exists|creator: int|
                0 <= creator < callers && #[trigger] creating(
                    shared.operations[creator],
                    shared.wraps,
                ) && shared.results[creator] is None && forall|i: int|
                    0 <= i < callers && i != creator ==> #[trigger] waiting(shared, i)
        } else {
            shared.wraps == 0 && forall|i: int| 0 <= i < callers ==> #[trigger] waiting(shared, i)
        },
        Some(pair) => {
            &&& !shared.cache.busy
            &&& shared.wraps == 1
            &&& forall|i: int|
                0 <= i < callers ==> #[trigger] waiting(shared, i) || served(shared, i, pair)
        },
    }
}

/// One delivery that does not fail keeps callers of first access where they
/// can stand.
proof fn lemma_delivery_stands(callers: nat, shared: SharedView, delivery: DeliveryView)
    requires
        first_access_stands(callers, shared),
        !fails(shared, delivery),
    ensures
        first_access_stands(callers, shared.deliver(delivery)),
{
    let after = shared.deliver(delivery);
    if 0 <= delivery.caller < callers {
        let me = delivery.caller;
        match shared.cache.current {
            None => {
                if shared.cache.busy {
                    let creator = choose|creator: int|
                        0 <= creator < callers && #[trigger] creating(
                            shared.operations[creator],
                            shared.wraps,
                        ) && shared.results[creator] is None && forall|i: int|
                            0 <= i < callers && i != creator ==> #[trigger] waiting(shared, i);
                    if me == creator {
                        match after.cache.current {
                            None => {
                                assert(creating(after.operations[creator], after.wraps));
                                assert forall|i: int|
                                    0 <= i < callers && i != creator implies #[trigger] waiting(
                                    after,
                                    i,
                                ) by {
                                    assert(waiting(shared, i));
                                }
                            },
                            Some(pair) => {
                                assert forall|i: int| 0 <= i < callers implies #[trigger] waiting(
                                    after,
                                    i,
                                ) || served(after, i, pair) by {
                                    if i != creator {
                                        assert(waiting(shared, i));
                                    }
                                }
                            },
                        }
                    } else {
                        assert(waiting(shared, me));
                        assert(creating(after.operations[creator], after.wraps));
                        assert forall|i: int|
                            0 <= i < callers && i != creator implies #[trigger] waiting(after, i) by {
                            assert(waiting(shared, i));
                        }
                    }
                } else {
                    assert(waiting(shared, me));
                    if delivery.event == EventView::Resume {
                        assert(creating(after.operations[me], after.wraps));
                        assert forall|i: int| 0 <= i < callers && i != me implies #[trigger] waiting(
                            after,
                            i,
                        ) by {
                            assert(waiting(shared, i));
                        }
                    } else {
                        assert forall|i: int| 0 <= i < callers implies #[trigger] waiting(after, i) by {
                            assert(waiting(shared, i));
                        }
                    }
                }
            },
            Some(pair) => {
                assert(waiting(shared, me) || served(shared, me, pair));
                assert forall|i: int| 0 <= i < callers implies #[trigger] waiting(after, i) || served(
                    after,
                    i,
                    pair,
                ) by {
                    assert(waiting(shared, i) || served(shared, i, pair));
                }
            },
        }
    }
}

/// After every schedule, a caller of first access has failed, or the callers
/// are where they can stand.
proof fn lemma_play_stands(callers: nat, schedule: Seq<DeliveryView>)
    ensures
        SharedView::first_access(callers).play(schedule).operations.len() == callers,
        SharedView::first_access(callers).play(schedule).results.len() == callers,
        first_access_stands(callers, SharedView::first_access(callers).play(schedule)) || exists|
            i: int,
        |
            0 <= i < callers && #[trigger] failed(
                SharedView::first_access(callers).play(schedule),
                i,
            ),
    decreases schedule.len(),
{
    if schedule.len() == 0 {
        let shared = SharedView::first_access(callers);
        assert forall|i: int| 0 <= i < callers implies #[trigger] waiting(shared, i) by {}
    } else {
        lemma_play_stands(callers, schedule.drop_last());
        let earlier = SharedView::first_access(callers).play(schedule.drop_last());
        let after = earlier.deliver(schedule.last());
        if first_access_stands(callers, earlier) {
            if fails(earlier, schedule.last()) {
                assert(failed(after, schedule.last().caller));
            } else {
                lemma_delivery_stands(callers, earlier, schedule.last());
            }
        } else {
            let i = choose|i: int| 0 <= i < callers && #[trigger] failed(earlier, i);
            assert(failed(after, i));
        }
    }
}

/// First access under concurrency. Let any number of callers call
/// `get_or_create_current` on a cache that holds no key, their steps
/// interleaved in any order and the events being any at all, and let no
/// caller have failed. Then at most one request to wrap a key has gone to
/// the backend, and exactly one once any caller has its result; every caller
/// that has a result has the same pair, which is the pair in the cache.
pub proof fn law_first_access_creates_one_key(callers: nat, schedule: Seq<DeliveryView>)
    requires
        forall|i: int|
            0 <= i < callers ==> !(#[trigger] SharedView::first_access(callers).play(
                schedule,
            ).results[i] matches Some(Err(_))),
    ensures
        SharedView::first_access(callers).play(schedule).wraps <= 1,
        forall|i: int, j: int|
            #![trigger
                SharedView::first_access(callers).play(schedule).results[i],
                SharedView::first_access(callers).play(schedule).results[j]
            ]
            0 <= i < callers && 0 <= j < callers && SharedView::first_access(callers).play(
                schedule,
            ).results[i] is Some && SharedView::first_access(callers).play(schedule).results[j]
                is Some ==> SharedView::first_access(callers).play(schedule).results[i]
                == SharedView::first_access(callers).play(schedule).results[j],
        forall|i: int|
            0 <= i < callers ==> (#[trigger] SharedView::first_access(callers).play(
                schedule,
            ).results[i] matches Some(result) ==> {
                &&& SharedView::first_access(callers).play(schedule).wraps == 1
                &&& result matches Ok(OutcomeView::CurrentKey(pair))
                &&& SharedView::first_access(callers).play(schedule).cache.current == Some(pair)
            }),
{
    lemma_play_stands(callers, schedule);
    let end = SharedView::first_access(callers).play(schedule);
    assert(first_access_stands(callers, end)) by {
        if exists|i: int| 0 <= i < callers && #[trigger] failed(end, i) {
            let i = choose|i: int| 0 <= i < callers && #[trigger] failed(end, i);
            assert(end.results[i] matches Some(Err(_)));
        }
    }
    assert forall|i: int| 0 <= i < callers && end.results[i] is Some implies (
    end.cache.current matches Some(pair) && served(end, i, pair)) by {
        match end.cache.current {
            None => {
                if end.cache.busy {
                    let creator = choose|creator: int|
                        0 <= creator < callers && #[trigger] creating(
                            end.operations[creator],
                            end.wraps,
                        ) && end.results[creator] is None && forall|k: int|
                            0 <= k < callers && k != creator ==> #[trigger] waiting(end, k);
                    if i != creator {
                        assert(waiting(end, i));
                    }
                } else {
                    assert(waiting(end, i));
                }
            },
            Some(pair) => {
                assert(waiting(end, i) || served(end, i, pair));
            },
        }
    }
    if end.cache.current is None && end.cache.busy {
        let creator = choose|creator: int|
            0 <= creator < callers && #[trigger] creating(end.operations[creator], end.wraps)
                && end.results[creator] is None && forall|k: int|
                0 <= k < callers && k != creator ==> #[trigger] waiting(end, k);
    }
}

} // verus!
