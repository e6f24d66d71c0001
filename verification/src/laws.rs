//! What holds of the bookkeeping as a whole, beyond what each function says
//! of itself.
use vstd::prelude::*;
use crate::instructions::claim_v0::{ClaimV0, TWELVE_PREC};
use crate::instructions::close_wallet_share_v0::CloseWalletShareV0;
use crate::instructions::update_wallet_share_v0::{UpdateWalletShareV0, UpdateWalletShareV0Args};
use crate::slots::{
    ascending, lemma_allocate_release, lemma_allocate_wf, lemma_ascending_no_duplicates,
    lemma_ascending_unique, lemma_release_wf, SlotPool,
};
use crate::state::{FanoutV0, TokenInflowV0};

verus! {

/// The token inflow after a series of updates, each with the balance seen
/// and the fanout as it was then. An update that cannot be made changes
/// nothing.
pub open spec fn after_updates(inflow: TokenInflowV0, updates: Seq<(u64, FanoutV0)>)
    -> TokenInflowV0
    decreases updates.len(),
{
    if updates.len() == 0 {
        inflow
    } else {
        let before = after_updates(inflow, updates.drop_last());
        let (new_balance, fanout) = updates.last();
        if before.can_update(new_balance, fanout) {
            before.updated(new_balance, fanout)
        } else {
            before
        }
    }
}

/// An update never lowers the total inflow.
pub proof fn lemma_update_never_lowers(inflow: TokenInflowV0, new_balance: u64, fanout: FanoutV0)
    requires
        inflow.can_update(new_balance, fanout),
    ensures
        inflow.updated(new_balance, fanout).total_inflow >= inflow.total_inflow,
{
    let new_inflow = new_balance - inflow.last_snapshot_amount;
    let unissued = fanout.total_shares - fanout.total_shares_issued;
    assert(new_inflow * unissued >= 0) by (nonlinear_arith)
        requires
            new_inflow >= 0,
            unissued >= 0,
    ;
}

/// No series of updates lowers the total inflow.
pub proof fn lemma_total_inflow_never_falls(inflow: TokenInflowV0, updates: Seq<(u64, FanoutV0)>)
    ensures
        after_updates(inflow, updates).total_inflow >= inflow.total_inflow,
    decreases updates.len(),
{
    if updates.len() > 0 {
        lemma_total_inflow_never_falls(inflow, updates.drop_last());
        let before = after_updates(inflow, updates.drop_last());
        let (new_balance, fanout) = updates.last();
        if before.can_update(new_balance, fanout) {
            lemma_update_never_lowers(before, new_balance, fanout);
        }
    }
}

/// One step in the life of the shares of a fanout: a wallet share is set,
/// or a wallet share is closed.
pub open spec fn share_step(before: FanoutV0, after: FanoutV0) -> bool {
    ||| exists|ctx: UpdateWalletShareV0, args: UpdateWalletShareV0Args|
        ctx.fanout.data == before && ctx.refusal(args).is_none() && ctx.updated(args).fanout.data
            == after
    ||| exists|ctx: CloseWalletShareV0|
        ctx.fanout.data == before && ctx.closable() && ctx.closed().fanout.data == after
}

/// The states of a fanout from a time when it had issued no more shares
/// than it has, each a step after the one before.
pub open spec fn share_history(states: Seq<FanoutV0>) -> bool {
    &&& states.len() > 0
    &&& states[0].shares_wf()
    &&& forall|i: int|
        0 <= i < states.len() - 1 ==> share_step(states[i], #[trigger] states[i + 1])
}

/// However wallet shares are set and closed: the fanout keeps the shares
/// that it has, and never has issued more of them.
pub proof fn lemma_issued_shares_stay_within_total(states: Seq<FanoutV0>, at: int)
    requires
        share_history(states),
        0 <= at < states.len(),
    ensures
        states[at].total_shares_issued <= states[at].total_shares,
        states[at].total_shares == states[0].total_shares,
    decreases at,
{
    if at > 0 {
        lemma_issued_shares_stay_within_total(states, at - 1);
        let before = states[at - 1];
        let after = states[at - 1 + 1];
        assert(share_step(before, after));
    }
}

/// One step in the life of a pool of ids: an id is taken, or an id that was
/// handed out before comes back.
pub open spec fn slot_step(before: SlotPool, after: SlotPool) -> bool {
    ||| exists|id: u32| before.allocates(id, after)
    ||| exists|id: u32| id < before.next_id && after == before.release(id)
}

/// The states of a pool of ids from its beginning, when no id had been
/// handed out, each a step after the one before.
pub open spec fn slot_history(states: Seq<SlotPool>) -> bool {
    &&& states.len() > 0
    &&& states[0].next_id == 0
    &&& states[0].free == Set::<u32>::empty()
    &&& forall|i: int| 0 <= i < states.len() - 1 ==> slot_step(states[i], #[trigger] states[i + 1])
}

/// Whatever is taken and given back, in whatever order: no free id is ever
/// at or above the counter.
pub proof fn lemma_pool_stays_well_formed(states: Seq<SlotPool>, at: int)
    requires
        slot_history(states),
        0 <= at < states.len(),
    ensures
        states[at].wf(),
    decreases at,
{
    if at > 0 {
        lemma_pool_stays_well_formed(states, at - 1);
        let before = states[at - 1];
        let after = states[at - 1 + 1];
        assert(slot_step(before, after));
        if exists|id: u32| before.allocates(id, after) {
            let id = choose|id: u32| before.allocates(id, after);
            lemma_allocate_wf(before, id, after);
        } else {
            let id = choose|id: u32| id < before.next_id && after == before.release(id);
            lemma_release_wf(before, id);
        }
    }
}

/// In a well-formed fanout, every free cron transaction id is below the
/// counter, and none is in the list twice.
pub proof fn lemma_free_ids_are_below_the_counter(fanout: FanoutV0)
    requires
        fanout.slots_wf(),
    ensures
        forall|i: int|
            0 <= i < fanout.available_cron_transaction_ides@.len()
                ==> fanout.available_cron_transaction_ides@[i] < fanout.next_cron_transaction_id,
        fanout.available_cron_transaction_ides@.no_duplicates(),
{
    let ids = fanout.available_cron_transaction_ides@;
    assert forall|i: int| 0 <= i < ids.len() implies ids[i]
        < fanout.next_cron_transaction_id by {
        assert(ids.contains(ids[i]));
        assert(fanout.slot_pool().free.contains(ids[i]));
    }
    lemma_ascending_no_duplicates(ids);
}

/// A cron transaction id that is taken from a fanout and given back at once
/// leaves the counter and the list of free ids as they were: `taken` is the
/// fanout after `get_next_cron_transaction_id` gave `index`, and `after` the
/// fanout after `return_cron_transaction_id_to_pool` took it back.
pub proof fn lemma_take_and_return(before: FanoutV0, index: u32, taken: FanoutV0, after: FanoutV0)
    requires
        before.slots_wf(),
        before.slot_pool().allocates(index, taken.slot_pool()),
        after.slot_pool() == taken.slot_pool().release(index),
        ascending(after.available_cron_transaction_ides@),
    ensures
        after.next_cron_transaction_id == before.next_cron_transaction_id,
        after.available_cron_transaction_ides@ == before.available_cron_transaction_ides@,
        after.slots_wf(),
{
    lemma_allocate_release(before.slot_pool(), index, taken.slot_pool());
    lemma_ascending_unique(
        after.available_cron_transaction_ides@,
        before.available_cron_transaction_ides@,
    );
}

/// A claim on a voucher that has claimed all of the inflow, made when
/// nothing new has come in, pays nothing and leaves the voucher and the
/// token inflow as they were.
pub proof fn lemma_claim_again_changes_nothing(ctx: ClaimV0)
    requires
        0 < ctx.fanout.data.total_shares_issued <= ctx.fanout.data.total_shares,
        ctx.fanout_token_account.data.amount == ctx.token_inflow.data.last_snapshot_amount,
        ctx.voucher.data.last_claimed_inflow == ctx.token_inflow.data.total_inflow,
        ctx.voucher.data.total_dust < 2 * TWELVE_PREC,
    ensures
        ctx.claimable(),
        ctx.amount() == 0,
        ctx.distributed() == ctx,
{
    let unissued = ctx.fanout.data.total_shares - ctx.fanout.data.total_shares_issued;
    assert(0 * unissued == 0);
    assert(ctx.total_inflow() == ctx.token_inflow.data.total_inflow);
    assert(ctx.total_inflow_change() == 0);
    let shares = ctx.voucher.data.shares as int;
    assert(0 * TWELVE_PREC * shares == 0) by (nonlinear_arith);
}

/// Once a claim has paid and is settled, the voucher has claimed all of the
/// inflow, nothing new has come in, and less than two tokens of dust are
/// left: a claim made again then changes nothing.
pub proof fn lemma_settled_claim_is_complete(ctx: ClaimV0, amount: u64)
    requires
        ctx.claimable(),
        ctx.amount() > 0,
    ensures
        ({
            let settled = ctx.distributed().settled(amount);
            &&& settled.voucher.data.last_claimed_inflow == settled.token_inflow.data.total_inflow
            &&& settled.fanout_token_account.data.amount
                == settled.token_inflow.data.last_snapshot_amount
            &&& settled.voucher.data.total_dust < 2 * TWELVE_PREC
            &&& settled.voucher.data.last_claimed_inflow >= ctx.voucher.data.last_claimed_inflow
        }),
{
    let dust = crate::instructions::claim_v0::new_dust(
        ctx.total_inflow_change(),
        ctx.voucher.data.shares as int,
        ctx.fanout.data.total_shares as int,
        ctx.voucher.data.total_dust as int,
    );
    vstd::arithmetic::div_mod::lemma_fundamental_div_mod(dust, TWELVE_PREC as int);
}

} // verus!
