//! Pending request map, transaction-id allocation, and cleanup guard.
//!
//! A caller that waits for a response is known here by a number, its waiter.

use std::collections::HashMap;

use vstd::prelude::*;

use crate::error::{ErrorView, IoError, IoErrorKind, IoErrorView, ModbusError};

verus! {

/// Most transaction ids that one allocation tries.
pub const MAX_TID_PROBES: u32 = 256;

/// The transaction id `steps` after `start`, with wrap-around.
pub open spec fn tid_after(start: u16, steps: int) -> u16 {
    ((start + steps) % 0x1_0000) as u16
}

/// The first of the `probes` transaction ids from `start` on that is not taken.
pub open spec fn first_free(taken: Set<u16>, start: u16, probes: nat) -> Option<u16>
    decreases probes,
{
    if probes == 0 {
        None
    } else if !taken.contains(start) {
        Some(start)
    } else {
        first_free(taken, tid_after(start, 1), (probes - 1) as nat)
    }
}

/// The transaction id after `tid`, with wrap-around.
pub fn next_transaction_id(tid: u16) -> (next: u16)
    ensures
        next == tid_after(tid, 1),
{
    if tid == u16::MAX {
        0
    } else {
        tid + 1
    }
}

/// Where an allocation that finds `found` leaves the counter.
pub open spec fn counter_after(start: u16, probes: nat, found: Option<u16>) -> u16 {
    match found {
        Some(tid) => tid_after(tid, 1),
        None => tid_after(start, probes as int),
    }
}

/// An allocation gives an id that is not taken, and skips only ids that are.
pub proof fn allocated_id_is_free(taken: Set<u16>, start: u16, probes: nat)
    requires
        probes <= 0x1_0000,
    ensures
        match first_free(taken, start, probes) {
            Some(tid) => {
                &&& !taken.contains(tid)
                &&& exists|steps: int|
                    0 <= steps < probes && tid == tid_after(start, steps) && forall|k: int|
                        0 <= k < steps ==> taken.contains(#[trigger] tid_after(start, k))
            },
            None => forall|k: int|
                0 <= k < probes ==> taken.contains(#[trigger] tid_after(start, k)),
        },
    decreases probes,
{
    if probes > 0 {
        assert(tid_after(start, 0) == start);
        let next = tid_after(start, 1);
        assert forall|k: int| 0 <= k < probes - 1 implies #[trigger] tid_after(next, k)
            == tid_after(start, k + 1) by {}
        if taken.contains(start) {
            allocated_id_is_free(taken, next, (probes - 1) as nat);
            match first_free(taken, next, (probes - 1) as nat) {
                Some(tid) => {
                    let steps = choose|steps: int|
                        0 <= steps < probes - 1 && tid == tid_after(next, steps) && forall|k: int|
                            0 <= k < steps ==> taken.contains(#[trigger] tid_after(next, k));
                    assert(tid == tid_after(start, steps + 1));
                    assert forall|k: int| 0 <= k < steps + 1 implies taken.contains(
                        #[trigger] tid_after(start, k),
                    ) by {
                        if k > 0 {
                            assert(tid_after(start, k) == tid_after(next, k - 1));
                        }
                    }
                },
                None => {
                    assert forall|k: int| 0 <= k < probes implies taken.contains(
                        #[trigger] tid_after(start, k),
                    ) by {
                        if k > 0 {
                            assert(tid_after(start, k) == tid_after(next, k - 1));
                        }
                    }
                },
            }
        }
    }
}

/// An allocation that may try every id fails only if every id is taken.
pub proof fn allocation_fails_only_when_all_ids_are_taken(taken: Set<u16>, start: u16)
    ensures
        first_free(taken, start, 0x1_0000) is None <==> forall|tid: u16| taken.contains(tid),
{
    allocated_id_is_free(taken, start, 0x1_0000);
    if first_free(taken, start, 0x1_0000) is None {
        assert forall|tid: u16| taken.contains(tid) by {
            let steps = (tid - start) % 0x1_0000;
            assert(tid_after(start, steps) == tid);
        }
    }
}

/// Allocates and inserts the next available transaction id into the pending map.
///
/// # Arguments
/// * `transaction_id` - Counter containing the next transaction id probe.
/// * `pending` - Map of in-flight transaction ids.
/// * `waiter` - Caller to store for the allocated transaction id.
///
/// # Returns
/// Returns the allocated transaction id.
///
/// # Errors
/// Returns [`ModbusError::NoFreeTransactionId`] if no id is free after the probe limit.
pub fn allocate_transaction_id(
    transaction_id: &mut u16,
    pending: &mut HashMap<u16, u64>,
    waiter: u64,
) -> (result: Result<u16, ModbusError>)
    ensures
        ({
            let found = first_free(
                old(pending)@.dom(),
                *old(transaction_id),
                MAX_TID_PROBES as nat,
            );
            &&& *final(transaction_id) == counter_after(
                *old(transaction_id),
                MAX_TID_PROBES as nat,
                found,
            )
            &&& match found {
                Some(tid) => {
                    &&& result == Ok::<u16, ModbusError>(tid)
                    &&& final(pending)@ == old(pending)@.insert(tid, waiter)
                },
                None => {
                    &&& result matches Err(e) && e@ == ErrorView::NoFreeTransactionId
                    &&& final(pending)@ == old(pending)@
                },
            }
        }),
{
    let ghost start = *transaction_id;
    let ghost taken = pending@.dom();
    let mut probed: u32 = 0;
    while probed < MAX_TID_PROBES
        invariant
            probed <= MAX_TID_PROBES,
            start == *old(transaction_id),
            taken == pending@.dom(),
            pending@ == old(pending)@,
            *transaction_id == tid_after(start, probed as int),
            first_free(taken, start, MAX_TID_PROBES as nat) == first_free(
                taken,
                *transaction_id,
                (MAX_TID_PROBES - probed) as nat,
            ),
        decreases MAX_TID_PROBES - probed,
    {
        let tid: u16 = *transaction_id;
        *transaction_id = next_transaction_id(tid);
        if !pending.contains_key(&tid) {
            pending.insert(tid, waiter);
            return Ok(tid);
        }
        probed = probed + 1;
    }
    Err(ModbusError::NoFreeTransactionId)
}

/// The error for a pending map that cannot be reached any more.
pub fn pending_map_poisoned() -> (error: ModbusError)
    ensures
        error@ == ErrorView::ReadError(
            IoErrorView::new(IoErrorKind::Other, "pending map poisoned"@),
        ),
{
    ModbusError::ReadError(
        std::sync::Arc::new(IoError::new(IoErrorKind::Other, "pending map poisoned")),
    )
}

/// Cleanup for one pending transaction-id entry.
///
/// The guard is armed after a request inserts its waiter into the pending map.
/// If the request is cancelled before a response arrives, releasing the armed
/// guard removes that entry so a later stray response is ignored instead of
/// holding stale state. Once the reader has matched the response and removed the
/// entry, callers must disarm the guard.
#[derive(Debug)]
pub struct PendingGuard {
    /// Transaction id allocated for the guarded request.
    pub tid: u16,
    /// Whether release should remove `tid` from the pending map.
    pub armed: bool,
}

impl PendingGuard {
    /// An armed guard of `tid`.
    pub fn new(tid: u16) -> (guard: PendingGuard)
        ensures
            guard.tid == tid,
            guard.armed,
    {
        PendingGuard { tid, armed: true }
    }

    /// Disables automatic pending-map removal on release.
    ///
    /// Call this after the reader has already removed the entry and delivered the
    /// response.
    pub fn disarm(&mut self)
        ensures
            !final(self).armed,
            final(self).tid == old(self).tid,
    {
        self.armed = false;
    }

    /// Ends the guard: an armed one removes its entry from the map.
    pub fn release(self, pending: &mut HashMap<u16, u64>)
        ensures
            final(pending)@ == if self.armed {
                old(pending)@.remove(self.tid)
            } else {
                old(pending)@
            },
    {
        if self.armed {
            pending.remove(&self.tid);
        }
    }
}

/// A request that was cancelled leaves the pending map as it was before its
/// transaction id was allocated.
pub proof fn cancelled_request_leaves_no_trace(pending: Map<u16, u64>, tid: u16, waiter: u64)
    requires
        !pending.contains_key(tid),
    ensures
        pending.insert(tid, waiter).remove(tid) == pending,
{
    assert(pending.insert(tid, waiter).remove(tid) =~= pending);
}

/// `order` lists each id of `ids` exactly once.
pub open spec fn lists(order: Seq<u16>, ids: Set<u16>) -> bool {
    &&& order.no_duplicates()
    &&& order.to_set() == ids
}

/// The transaction ids of `table`, each exactly once.
pub fn transaction_ids<V>(table: &HashMap<u16, V>) -> (tids: Vec<u16>)
    ensures
        lists(tids@, table@.dom()),
        tids@.len() == table@.dom().len(),
{
    let mut tids: Vec<u16> = Vec::new();
    for tid in iter: table.keys()
        invariant
            tids@.len() == iter.index(),
            forall|i: int| 0 <= i < iter.index() ==> tids@[i] == *(#[trigger] iter.seq()[i]),
    {
        tids.push(*tid);
    }
    proof {
        let keys = vstd::std_specs::iter::IteratorSpec::remaining(
            &vstd::std_specs::hash::spec_keys_iter(table),
        );
        assert(tids@ =~= keys.unref());
    }
    tids
}

/// How many ids lie from `start` to `tid`, counted upwards with wrap-around.
pub open spec fn distance(start: u16, tid: u16) -> int {
    if tid >= start {
        tid - start
    } else {
        tid - start + 65536
    }
}

/// Ids count up by one, and after the largest one comes zero.
pub proof fn ids_wrap_around(tid: u16)
    ensures
        tid < 65535 ==> tid_after(tid, 1) == tid + 1,
        tid == 65535 ==> tid_after(tid, 1) == 0,
{
}

/// An allocation gives the free id that comes first after the start, upwards with
/// wrap-around. It fails if all the ids that it may try are taken, and only then.
pub proof fn nearest_free_id_is_allocated(taken: Set<u16>, start: u16, probes: nat)
    requires
        probes <= 65536,
    ensures
        match first_free(taken, start, probes) {
            Some(tid) => {
                &&& !taken.contains(tid)
                &&& distance(start, tid) < probes
                &&& forall|other: u16|
                    #![trigger taken.contains(other)]
                    distance(start, other) < distance(start, tid) ==> taken.contains(other)
            },
            None => forall|other: u16|
                #![trigger taken.contains(other)]
                distance(start, other) < probes ==> taken.contains(other),
        },
{
    allocated_id_is_free(taken, start, probes);
    match first_free(taken, start, probes) {
        Some(tid) => {
            let steps = choose|steps: int|
                0 <= steps < probes && tid == tid_after(start, steps) && forall|k: int|
                    0 <= k < steps ==> taken.contains(#[trigger] tid_after(start, k));
            assert(steps == distance(start, tid));
            assert forall|other: u16|
                #![trigger taken.contains(other)]
                distance(start, other) < distance(start, tid) implies taken.contains(other) by {
                assert(tid_after(start, distance(start, other)) == other);
            }
        },
        None => {
            assert forall|other: u16|
                #![trigger taken.contains(other)]
                distance(start, other) < probes implies taken.contains(other) by {
                assert(tid_after(start, distance(start, other)) == other);
            }
        },
    }
}

/// One allocation into a pending map tries 256 ids.
pub proof fn allocation_tries_that_many_ids(taken: Set<u16>, start: u16, free: u16)
    requires
        !taken.contains(free),
    ensures
        distance(start, free) < 256 ==> first_free(taken, start, MAX_TID_PROBES as nat) is Some,
        first_free(taken, start, MAX_TID_PROBES as nat) matches Some(tid) ==> distance(start, tid)
            < 256 && distance(start, tid) <= distance(start, free),
{
    nearest_free_id_is_allocated(taken, start, MAX_TID_PROBES as nat);
}

/// The counter goes on after the id that was given out or, where none was, after those
/// that were tried.
pub proof fn counter_goes_on_after_the_last_try(start: u16, probes: nat, tid: u16)
    requires
        probes <= 65536,
    ensures
        tid < 65535 ==> counter_after(start, probes, Some(tid)) == tid + 1,
        tid == 65535 ==> counter_after(start, probes, Some(tid)) == 0,
        start + probes <= 65535 ==> counter_after(start, probes, None) == start + probes,
        start + probes >= 65536 ==> counter_after(start, probes, None) == start + probes - 65536,
{
}

/// A list of ids holds each of them at exactly one place, and no other id.
pub proof fn listed_ids_have_one_place(order: Seq<u16>, ids: Set<u16>)
    ensures
        lists(order, ids) <==> {
            &&& forall|i: int, j: int|
                0 <= i < order.len() && 0 <= j < order.len() && order[i] == order[j] ==> i == j
            &&& forall|i: int| 0 <= i < order.len() ==> ids.contains(#[trigger] order[i])
            &&& forall|tid: u16| #[trigger] ids.contains(tid) ==> order.contains(tid)
        },
        lists(order, ids) ==> order.len() == ids.len(),
{
    if lists(order, ids) {
        order.unique_seq_to_set();
        assert forall|i: int| 0 <= i < order.len() implies ids.contains(#[trigger] order[i]) by {
            assert(order.to_set().contains(order[i]));
        }
        assert forall|tid: u16| #[trigger] ids.contains(tid) implies order.contains(tid) by {
            assert(order.to_set().contains(tid));
        }
    }
    if forall|i: int| 0 <= i < order.len() ==> ids.contains(#[trigger] order[i]) {
        assert forall|tid: u16| order.to_set().contains(tid) implies ids.contains(tid) by {
            let i = choose|i: int| 0 <= i < order.len() && order[i] == tid;
            assert(ids.contains(order[i]));
        }
        if forall|tid: u16| #[trigger] ids.contains(tid) ==> order.contains(tid) {
            assert forall|tid: u16| ids.contains(tid) implies order.to_set().contains(tid) by {
                assert(order.contains(tid));
            }
            assert(order.to_set() =~= ids);
        }
    }
}

} // verus!
