//! The records of a fanout, and the two pieces of bookkeeping that they own:
//! the running total of a token inflow, and the pool of cron transaction ids.
use vstd::prelude::*;
use crate::errors::ErrorCode;
use crate::pubkey::Pubkey;
use crate::slots::{
    ascending, lemma_compact_wf, lemma_drop_last_to_set, lemma_insert_to_set, SlotPool,
};

verus! {

/// The one record that binds the authority to the scheduler's task queue.
#[derive(Clone, Copy, Debug, PartialEq, Eq, Default)]
pub struct GlobalStateV0 {
    pub authority: Pubkey,
    pub task_queue: Pubkey,
    pub bump: u8,
}

/// A fanout: the shares it has, the shares it has issued, and the cron
/// transaction ids that its vouchers use.
#[derive(Clone, Debug, PartialEq, Eq, Default)]
pub struct FanoutV0 {
    /// The authority that can modify the fanout configuration
    pub authority: Pubkey,
    pub cron_job: Pubkey,
    /// Total SOL that has flowed into this fanout
    pub total_inflow: u64,
    /// Last snapshotted amount for calculating distributions
    pub last_snapshot_amount: u64,
    /// Total shares across all members
    pub total_shares: u32,
    /// Total shares issued to wallets
    pub total_shares_issued: u32,
    pub next_share_id: u32,
    pub next_cron_transaction_id: u32,
    /// Bump seed for PDA derivation
    pub bump: u8,
    /// Name of the fanout for identification
    pub name: String,
    /// Available cron transaction indexes that can be reused, in ascending order
    pub available_cron_transaction_ides: Vec<u32>,
    /// Bump seed for queue authority PDA derivation
    pub queue_authority_bump: u8,
    /// Number of active token inflows for this fanout
    pub num_inflows: u32,
}

/// What has flowed into a fanout in one token.
#[derive(Clone, Copy, Debug, PartialEq, Eq, Default)]
pub struct TokenInflowV0 {
    /// The fanout this inflow belongs to
    pub fanout: Pubkey,
    /// The mint of the token being tracked
    pub mint: Pubkey,
    /// Total amount of tokens that have flowed into this fanout
    pub total_inflow: u64,
    /// Last snapshotted amount for calculating distributions
    pub last_snapshot_amount: u64,
    pub bump: u8,
    /// The account that will receive rent when this account is closed
    pub rent_refund: Pubkey,
    /// Number of active vouchers for this token inflow
    pub num_vouchers: u32,
}

/// The shares that one wallet holds in a fanout.
#[derive(Clone, Copy, Debug, PartialEq, Eq, Default)]
pub struct WalletShareV0 {
    /// The fanout this share belongs to
    pub fanout: Pubkey,
    pub index: u32,
    /// The wallet that owns these shares
    pub wallet: Pubkey,
    /// Number of shares allocated to this wallet
    pub shares: u32,
    /// The account that will receive rent when this account is closed
    pub rent_refund: Pubkey,
}

/// How far one wallet share has claimed one token inflow.
#[derive(Clone, Copy, Debug, PartialEq, Eq, Default)]
pub struct VoucherV0 {
    /// The wallet share this voucher belongs to
    pub wallet_share: Pubkey,
    /// The wallet that can claim this voucher
    pub wallet: Pubkey,
    pub cron_transaction_id: u32,
    /// The fanout this voucher belongs to
    pub fanout: Pubkey,
    /// The token mint this voucher is for
    pub mint: Pubkey,
    pub last_claimed_inflow: u64,
    /// What a claim could not pay out because it was less than one token,
    /// in units of one part in 10^12 of a token
    pub total_dust: u64,
    /// The number of shares at the time this voucher was created or last claimed
    pub shares: u32,
    /// The account that will receive rent when this account is closed
    pub rent_refund: Pubkey,
}

impl FanoutV0 {
    /// The cron transaction ids of this fanout.
    pub open spec fn slot_pool(self) -> SlotPool {
        SlotPool {
            next_id: self.next_cron_transaction_id,
            free: self.available_cron_transaction_ides@.to_set(),
        }
    }

    /// The list of free ids is sorted, holds no id at or above the counter,
    /// and not the one just below it.
    pub open spec fn slots_wf(self) -> bool {
        &&& ascending(self.available_cron_transaction_ides@)
        &&& self.slot_pool().wf()
    }

    /// No more shares are issued than there are.
    pub open spec fn shares_wf(self) -> bool {
        self.total_shares_issued <= self.total_shares
    }

    /// The record is well formed: in its cron transaction ids and in its
    /// shares.
    pub open spec fn wf(self) -> bool {
        &&& self.slots_wf()
        &&& self.shares_wf()
    }

    /// This fanout with the cron transaction ids of `other`.
    pub open spec fn with_slots_of(self, other: FanoutV0) -> FanoutV0 {
        FanoutV0 {
            next_cron_transaction_id: other.next_cron_transaction_id,
            available_cron_transaction_ides: other.available_cron_transaction_ides,
            ..self
        }
    }

    /// Whether the record is well formed.
    pub fn is_well_formed(&self) -> (r: bool)
        ensures
            r == self.wf(),
    {
        self.total_shares_issued <= self.total_shares && self.has_well_formed_slots()
    }

    /// Whether the cron transaction ids of the record are well formed.
    pub fn has_well_formed_slots(&self) -> (r: bool)
        ensures
            r == self.slots_wf(),
    {
        let n = self.available_cron_transaction_ides.len();
        let mut i: usize = 0;
        while i < n
            invariant
                n == self.available_cron_transaction_ides.len(),
                0 <= i <= n,
                ascending(self.available_cron_transaction_ides@.subrange(0, i as int)),
                forall|j: int|
                    0 <= j < i ==> self.available_cron_transaction_ides@[j]
                        < self.next_cron_transaction_id,
                forall|j: int|
                    0 <= j < i ==> self.available_cron_transaction_ides@[j]
                        != self.next_cron_transaction_id - 1,
            decreases n - i,
        {
            let id = self.available_cron_transaction_ides[i];
            let ghost ids = self.available_cron_transaction_ides@;
            if id >= self.next_cron_transaction_id || id == self.next_cron_transaction_id - 1 {
                assert(ids[i as int] == id);
                assert(ids.contains(id));
                assert(self.slot_pool().free.contains(id));
                assert(!self.slot_pool().wf());
                return false;
            }
            if i > 0 && self.available_cron_transaction_ides[i - 1] >= id {
                assert(!ascending(ids)) by {
                    if ascending(ids) {
                        assert(ids[i - 1] < ids[i as int]);
                    }
                }
                return false;
            }
            proof {
                let before = ids.subrange(0, i as int);
                let now = ids.subrange(0, i + 1);
                assert forall|a: int, b: int| 0 <= a < b < now.len() implies now[a] < now[b] by {
                    if b < i {
                        assert(before[a] < before[b]);
                    } else if a < i - 1 {
                        assert(before[a] < before[i - 1]);
                    }
                }
            }
            i += 1;
        }
        proof {
            let ids = self.available_cron_transaction_ides@;
            assert(ids.subrange(0, n as int) =~= ids);
            assert forall|x: u32| self.slot_pool().free.contains(x) implies x
                < self.next_cron_transaction_id && x != self.next_cron_transaction_id - 1 by {
                let j = choose|j: int| 0 <= j < ids.len() && ids[j] == x;
                assert(ids[j] < self.next_cron_transaction_id);
            }
        }
        true
    }

    /// Hands out a cron transaction id: the largest free one, or else a new
    /// one.
    pub fn get_next_cron_transaction_id(&mut self) -> (index: u32)
        requires
            old(self).slots_wf(),
            old(self).available_cron_transaction_ides.len() > 0 || old(
                self,
            ).next_cron_transaction_id < u32::MAX,
        ensures
            old(self).slot_pool().allocates(index, final(self).slot_pool()),
            final(self).slots_wf(),
            *final(self) == old(self).with_slots_of(*final(self)),
            old(self).available_cron_transaction_ides.len() > 0 ==> index == old(
                self,
            ).available_cron_transaction_ides@.last()
                && final(self).available_cron_transaction_ides@ == old(
                self,
            ).available_cron_transaction_ides@.drop_last(),
            old(self).available_cron_transaction_ides.len() == 0
                ==> final(self).available_cron_transaction_ides@ == old(
                self,
            ).available_cron_transaction_ides@,
    {
        let ghost ids = self.available_cron_transaction_ides@;
        if let Some(index) = self.available_cron_transaction_ides.pop() {
            proof {
                assert(self.available_cron_transaction_ides@ =~= ids.drop_last());
                lemma_drop_last_to_set(ids);
                assert(ids.to_set().contains(ids.last()));
                assert forall|other: u32| ids.to_set().contains(other) implies other <= index by {
                    let j = choose|j: int| 0 <= j < ids.len() && ids[j] == other;
                    if j < ids.len() - 1 {
                        assert(ids[j] < ids[ids.len() - 1]);
                    }
                }
            }
            index
        } else {
            let index = self.next_cron_transaction_id;
            self.next_cron_transaction_id = index + 1;
            proof {
                assert(ids.to_set() =~= Set::<u32>::empty());
            }
            index
        }
    }

    /// Takes a cron transaction id back. One that is free already changes
    /// nothing. The counter then falls as long as the id below it is free.
    pub fn return_cron_transaction_id_to_pool(&mut self, index: u32)
        requires
            old(self).slots_wf(),
        ensures
            final(self).slot_pool() == old(self).slot_pool().release(index),
            ascending(final(self).available_cron_transaction_ides@),
            index < old(self).next_cron_transaction_id ==> final(self).slots_wf(),
            *final(self) == old(self).with_slots_of(*final(self)),
    {
        let ghost ids = self.available_cron_transaction_ides@;
        let ghost before = self.slot_pool();
        // Keep the list sorted
        match search(&self.available_cron_transaction_ides, index) {
            Ok(_) => {
                proof {
                    assert(before.free.insert(index) =~= before.free);
                    assert(before.release(index) == before.compact());
                    assert(before.compact() == before);
                }
                return ;
            },
            Err(pos) => {
                self.available_cron_transaction_ides.insert(pos, index);
                proof {
                    lemma_insert_to_set(ids, pos as int, index);
                }
            },
        }
        let ghost target = SlotPool { free: before.free.insert(index), ..before };
        assert(self.slot_pool() == target);
        // If the highest id is free, lower the counter
        while self.next_cron_transaction_id > 0 && self.available_cron_transaction_ides.len() > 0
            && self.available_cron_transaction_ides[self.available_cron_transaction_ides.len()
            - 1] == self.next_cron_transaction_id - 1
            invariant
                before.wf(),
                before.next_id == old(self).next_cron_transaction_id,
                target == (SlotPool { free: before.free.insert(index), ..before }),
                ascending(self.available_cron_transaction_ides@),
                self.slot_pool().compact() == target.compact(),
                *self == old(self).with_slots_of(*self),
                self.next_cron_transaction_id <= old(self).next_cron_transaction_id,
                index < old(self).next_cron_transaction_id ==> forall|x: u32|
                    self.slot_pool().free.contains(x) ==> x < self.next_cron_transaction_id,
                index >= old(self).next_cron_transaction_id ==> self.slot_pool() == target,
            decreases self.next_cron_transaction_id,
        {
            let ghost now = self.available_cron_transaction_ides@;
            let ghost pool = self.slot_pool();
            proof {
                assert(now.to_set().contains(now.last()));
                if index >= old(self).next_cron_transaction_id {
                    // Nothing below the counter is free but what was free before.
                    assert(pool == target);
                    assert(pool.free.contains(now.last()));
                    assert(target.free.contains(now.last()));
                    assert(before.free.contains(now.last()));
                    assert(false);
                }
                lemma_drop_last_to_set(now);
            }
            self.next_cron_transaction_id -= 1;
            self.available_cron_transaction_ides.pop();
            proof {
                assert(self.available_cron_transaction_ides@ =~= now.drop_last());
                assert(self.slot_pool() == SlotPool {
                    next_id: (pool.next_id - 1) as u32,
                    free: pool.free.remove((pool.next_id - 1) as u32),
                });
            }
        }
        proof {
            let now = self.available_cron_transaction_ides@;
            let pool = self.slot_pool();
            if pool.next_id > 0 && pool.free.contains((pool.next_id - 1) as u32) {
                let j = choose|j: int| 0 <= j < now.len() && now[j] == pool.next_id - 1;
                if index < old(self).next_cron_transaction_id {
                    assert(now.to_set().contains(now.last()));
                    if j < now.len() - 1 {
                        assert(now[j] < now[now.len() - 1]);
                    }
                } else {
                    assert(target.free.contains((pool.next_id - 1) as u32));
                }
                assert(false);
            }
            assert(pool.compact() == pool);
            if index < old(self).next_cron_transaction_id {
                assert forall|id: u32| target.free.contains(id) implies id < target.next_id by {
                    if id != index {
                        assert(before.free.contains(id));
                    }
                }
                lemma_compact_wf(target);
            }
        }
    }
}

/// Where `id` stands in a sorted list, or where it would have to go.
fn search(ids: &Vec<u32>, id: u32) -> (r: Result<usize, usize>)
    requires
        ascending(ids@),
    ensures
        match r {
            Ok(pos) => pos < ids.len() && ids@[pos as int] == id,
            Err(pos) => {
                &&& pos <= ids.len()
                &&& !ids@.contains(id)
                &&& forall|i: int| 0 <= i < pos ==> ids@[i] < id
                &&& forall|i: int| pos <= i < ids.len() ==> id < ids@[i]
            },
        },
{
    let mut low: usize = 0;
    let mut high: usize = ids.len();
    while low < high
        invariant
            ascending(ids@),
            0 <= low <= high <= ids.len(),
            forall|i: int| 0 <= i < low ==> ids@[i] < id,
            forall|i: int| high <= i < ids.len() ==> id < ids@[i],
        decreases high - low,
    {
        let mid = low + (high - low) / 2;
        let value = ids[mid];
        if value == id {
            return Ok(mid);
        } else if value < id {
            assert forall|i: int| 0 <= i < mid + 1 implies ids@[i] < id by {
                if i < mid {
                    assert(ids@[i] < ids@[mid as int]);
                }
            }
            low = mid + 1;
        } else {
            assert forall|i: int| mid <= i < ids.len() implies id < ids@[i] by {
                if mid < i {
                    assert(ids@[mid as int] < ids@[i]);
                }
            }
            high = mid;
        }
    }
    Err(low)
}

/// What the shares that nobody holds yet add to an inflow: the issued shares
/// are credited as if they were all the shares there are.
pub open spec fn unissued_correction(new_inflow: int, total_shares: int, issued: int) -> int {
    new_inflow * (total_shares - issued) / issued
}

impl TokenInflowV0 {
    /// The total inflow once the token account is seen to hold `new_balance`.
    pub open spec fn inflow_after(self, new_balance: u64, fanout: FanoutV0) -> int {
        let new_inflow = new_balance - self.last_snapshot_amount;
        self.total_inflow + new_inflow + unissued_correction(
            new_inflow,
            fanout.total_shares as int,
            fanout.total_shares_issued as int,
        )
    }

    /// Whether the total can be brought up to `new_balance`: the balance did
    /// not fall, some but not too many shares are issued, and the new total
    /// fits.
    pub open spec fn can_update(self, new_balance: u64, fanout: FanoutV0) -> bool {
        &&& 0 < fanout.total_shares_issued <= fanout.total_shares
        &&& self.last_snapshot_amount <= new_balance
        &&& self.inflow_after(new_balance, fanout) <= u64::MAX
    }

    /// The record after a successful update.
    pub open spec fn updated(self, new_balance: u64, fanout: FanoutV0) -> TokenInflowV0 {
        TokenInflowV0 {
            total_inflow: self.inflow_after(new_balance, fanout) as u64,
            last_snapshot_amount: new_balance,
            ..self
        }
    }

    /// Brings the total inflow up to date with the balance of the fanout's
    /// token account.
    pub fn update_total_inflow(&mut self, new_balance: u64, fanout: &FanoutV0) -> (r: Result<
        (),
        ErrorCode,
    >)
        ensures
            match r {
                Ok(()) => old(self).can_update(new_balance, *fanout) && *final(self) == old(
                    self,
                ).updated(new_balance, *fanout),
                Err(e) => e == ErrorCode::ArithmeticError && !old(self).can_update(
                    new_balance,
                    *fanout,
                ) && *final(self) == *old(self),
            },
            final(self).total_inflow >= old(self).total_inflow,
    {
        let tsi = fanout.total_shares_issued;
        if tsi == 0 || tsi > fanout.total_shares || new_balance < self.last_snapshot_amount {
            return Err(ErrorCode::ArithmeticError);
        }
        let shares_diff: u32 = fanout.total_shares - tsi;
        let new_inflow: u64 = new_balance - self.last_snapshot_amount;
        assert(new_inflow * shares_diff <= 0xffff_ffff_ffff_ffff * 0xffff_ffff) by (nonlinear_arith)
            requires
                0 <= new_inflow <= 0xffff_ffff_ffff_ffff,
                0 <= shares_diff <= 0xffff_ffff,
        ;
        let product: u128 = (new_inflow as u128) * (shares_diff as u128);
        let unissued_correction_factor: u128 = product / (tsi as u128);
        assert(unissued_correction_factor == unissued_correction(
            new_inflow as int,
            fanout.total_shares as int,
            tsi as int,
        ));
        let total: u128 = (self.total_inflow as u128) + (new_inflow as u128)
            + unissued_correction_factor;
        if total > u64::MAX as u128 {
            return Err(ErrorCode::ArithmeticError);
        }
        self.total_inflow = total as u64;
        self.last_snapshot_amount = new_balance;
        Ok(())
    }
}

} // verus!
