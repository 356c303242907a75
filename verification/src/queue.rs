//! The commands on the queue of offline operations: its summary, the list
//! of what is still open, and the manual retry.

use crate::models::{OfflineOperation, OperationStatus, OperationView, SyncStatus};
use crate::sequences::{first_n, lemma_filter_next};
use crate::store::{is_failed, operation_views, store_after_retry};
use crate::strings::{clone_opt, opt_text};
use crate::AppState;
use vstd::prelude::*;

verus! {

/// How many open operations a listing shows at most.
pub const LISTING_LIMIT: usize = 50;

/// The test that a pending operation passes.
pub open spec fn is_pending() -> spec_fn(OperationView) -> bool {
    |o: OperationView| o.status == OperationStatus::Pending
}

/// The test that an open operation passes: it is pending or failed.
pub open spec fn is_open() -> spec_fn(OperationView) -> bool {
    |o: OperationView| o.status == OperationStatus::Pending || o.status == OperationStatus::Failed
}

/// A count as a signed number, held at the largest one where it would not
/// fit.
pub open spec fn as_count(n: nat) -> i64 {
    if n <= i64::MAX {
        n as i64
    } else {
        i64::MAX
    }
}

/// The open operations that a listing shows: newest first, and at most
/// [`LISTING_LIMIT`] of them.
pub open spec fn open_operations(ops: Seq<OperationView>) -> Seq<OperationView> {
    first_n(ops.filter(is_open()).reverse(), LISTING_LIMIT as nat)
}

fn count_with(ops: &Vec<OfflineOperation>, wanted: OperationStatus) -> (n: usize)
    ensures
        wanted == OperationStatus::Pending ==> n == operation_views(ops@).filter(
            is_pending(),
        ).len(),
        wanted == OperationStatus::Failed ==> n == operation_views(ops@).filter(is_failed()).len(),
{
    let ghost all = operation_views(ops@);
    let mut n: usize = 0;
    let mut i: usize = 0;
    proof {
        if ops.len() > 0 {
            lemma_filter_next(all, is_pending(), 0);
            lemma_filter_next(all, is_failed(), 0);
        } else {
            reveal(Seq::filter);
        }
    }
    while i < ops.len()
        invariant
            i <= ops.len(),
            n <= i,
            all == operation_views(ops@),
            wanted == OperationStatus::Pending ==> n == all.take(i as int).filter(
                is_pending(),
            ).len(),
            wanted == OperationStatus::Failed ==> n == all.take(i as int).filter(is_failed()).len(),
        decreases ops.len() - i,
    {
        proof {
            lemma_filter_next(all, is_pending(), i as int);
            lemma_filter_next(all, is_failed(), i as int);
        }
        if ops[i].status == wanted {
            n = n + 1;
        }
        i = i + 1;
    }
    assert(all.take(ops.len() as int) =~= all);
    n
}

fn to_count(n: usize) -> (r: i64)
    ensures
        r == as_count(n as nat),
{
    let m = n as u64;
    if m > 0x7fff_ffff_ffff_ffffu64 {
        i64::MAX
    } else {
        m as i64
    }
}

/// The summary of the queue: how many operations are pending, how many have
/// failed, when the last pull completed, whether a cycle is running and
/// whether the last probe found the remote service.
pub fn get_sync_status(state: &AppState) -> (r: SyncStatus)
    ensures
        r.is_syncing == (state.sync@.phase != crate::engine::Phase::Idle),
        r.connection_online == state.sync@.online,
        opt_text(r.last_sync_at) == state.db@.identity.last_sync_at,
        r.pending_count == as_count(state.db@.operations.filter(is_pending()).len()),
        r.failed_count == as_count(state.db@.operations.filter(is_failed()).len()),
{
    let ops = state.db.operations();
    SyncStatus {
        is_syncing: state.sync.is_syncing(),
        last_sync_at: clone_opt(&state.db.identity().last_sync_at),
        pending_count: to_count(count_with(ops, OperationStatus::Pending)),
        failed_count: to_count(count_with(ops, OperationStatus::Failed)),
        connection_online: state.sync.is_online(),
    }
}

/// The operations that are pending or failed, newest first, at most
/// [`LISTING_LIMIT`] of them.
pub fn get_pending_operations(state: &AppState) -> (r: Vec<OfflineOperation>)
    ensures
        operation_views(r@) == open_operations(state.db@.operations),
{
    let ops = state.db.operations();
    let ghost all = operation_views(ops@);
    let mut kept: Vec<OfflineOperation> = Vec::new();
    let mut i: usize = 0;
    proof {
        if ops.len() > 0 {
            lemma_filter_next(all, is_open(), 0);
        } else {
            reveal(Seq::filter);
        }
        assert(operation_views(kept@) =~= Seq::empty());
    }
    while i < ops.len()
        invariant
            i <= ops.len(),
            all == operation_views(ops@),
            operation_views(kept@) == all.take(i as int).filter(is_open()),
        decreases ops.len() - i,
    {
        proof {
            lemma_filter_next(all, is_open(), i as int);
        }
        let ghost before = operation_views(kept@);
        let open = match ops[i].status {
            OperationStatus::Done => false,
            _ => true,
        };
        if open {
            kept.push(ops[i].clone());
            assert(operation_views(kept@) =~= before.push(ops@[i as int]@));
        }
        i = i + 1;
    }
    assert(all.take(ops.len() as int) =~= all);
    let ghost forward = operation_views(kept@);
    let mut out: Vec<OfflineOperation> = Vec::new();
    while kept.len() > 0 && out.len() < LISTING_LIMIT
        invariant
            out.len() <= LISTING_LIMIT,
            operation_views(out@) + operation_views(kept@).reverse() == forward.reverse(),
        decreases kept.len(),
    {
        let ghost k = operation_views(kept@);
        let ghost o = operation_views(out@);
        let op = kept.pop().unwrap();
        out.push(op);
        assert(operation_views(out@) + operation_views(kept@).reverse() =~= o + k.reverse());
    }
    proof {
        let rev = forward.reverse();
        let o = operation_views(out@);
        let k = operation_views(kept@).reverse();
        assert(o + k == rev);
        if kept.len() == 0 {
            assert(o =~= rev);
        } else {
            assert(rev.take(LISTING_LIMIT as int) =~= o);
        }
    }
    out
}

/// Makes every failed operation pending again, so that the next cycle takes
/// it up, and says how many there were. Starting that cycle is left to the
/// caller.
pub fn retry_failed_operations(state: &mut AppState) -> (count: u64)
    requires
        old(state).db.wf(),
    ensures
        final(state).db.wf(),
        final(state).sync == old(state).sync,
        final(state).db@ == store_after_retry(old(state).db@),
        count == old(state).db@.operations.filter(is_failed()).len(),
{
    state.db.reset_failed()
}

} // verus!
