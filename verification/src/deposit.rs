use vstd::prelude::*;

use crate::address::{RecordId, RecordIdView};
use crate::errors::ErrorCode;
use crate::keys::Pubkey;
use crate::ledger::{LedgerReply, MintRequest, MintRequestView};
use crate::state::{
    DepositRecord, DepositRecordView, GlobalState, GlobalStateView, SmartContainer,
    SmartContainerView, UserProfile, UserProfileView, GRAMS_PER_KG,
};

verus! {

/// The reward for a deposit: weight times rate, divided by the grams in a
/// kilogram and rounded down.
pub open spec fn reward(weight_grams: nat, ecoc_per_kg: nat) -> nat {
    (weight_grams * ecoc_per_kg) / (GRAMS_PER_KG as nat)
}

/// A timestamp read as an unsigned 64-bit number, a negative one counted back
/// from 2^64.
pub open spec fn audit_tag(now: int) -> nat {
    if now >= 0 {
        now as nat
    } else {
        (now + 0x1_0000_0000_0000_0000) as nat
    }
}

/// The records that a deposit reads and writes.
#[derive(Clone, Debug, PartialEq, Eq)]
pub struct ProcessDeposit {
    /// The global configuration.
    pub global_state: GlobalState,
    /// The container that receives the deposit.
    pub container: SmartContainer,
    /// The key under which that container is stored.
    pub container_key: Pubkey,
    /// The account of the depositing user.
    pub user_profile: UserProfile,
    /// The place of the deposit's record: `None` while no record is there.
    pub deposit_record: Option<DepositRecord>,
    /// The depositing user.
    pub user: Pubkey,
    /// Bump seed of the deposit record's derived address.
    pub bump: u8,
}

/// What a [`ProcessDeposit`] stands for.
pub struct ProcessDepositView {
    pub global_state: GlobalStateView,
    pub container: SmartContainerView,
    pub container_key: Seq<u8>,
    pub user_profile: UserProfileView,
    pub deposit_record: Option<DepositRecordView>,
    pub user: Seq<u8>,
    pub bump: nat,
}

impl View for ProcessDeposit {
    type V = ProcessDepositView;

    open spec fn view(&self) -> ProcessDepositView {
        ProcessDepositView {
            global_state: self.global_state@,
            container: self.container@,
            container_key: self.container_key@,
            user_profile: self.user_profile@,
            deposit_record: match self.deposit_record {
                Some(record) => Some(record@),
                None => None,
            },
            user: self.user@,
            bump: self.bump as nat,
        }
    }
}

impl ProcessDepositView {
    /// The id of the record that the deposit writes, and so the place for
    /// which `deposit_record` stands: that of the deposit which the user
    /// makes when the global count of deposits is what it is now.
    pub open spec fn record_id(self) -> RecordIdView {
        RecordIdView::Deposit { user: self.user, sequence: self.global_state.total_deposits }
    }

    /// The reward for a deposit of `weight_grams` at the configured rate.
    pub open spec fn reward(self, weight_grams: nat) -> nat {
        reward(weight_grams, self.global_state.ecoc_per_kg)
    }

    /// Some number that the deposit computes does not fit in 64 bits: the
    /// product of weight and rate, or one of the counters it raises.
    pub open spec fn overflows(self, weight_grams: nat) -> bool {
        ||| weight_grams * self.global_state.ecoc_per_kg > u64::MAX
        ||| self.container.current_weight + weight_grams > u64::MAX
        ||| self.container.total_deposits + 1 > u64::MAX
        ||| self.user_profile.total_deposits + 1 > u64::MAX
        ||| self.user_profile.total_pet_weight + weight_grams > u64::MAX
        ||| self.user_profile.total_ecoc_earned + self.reward(weight_grams) > u64::MAX
        ||| self.global_state.total_pet_collected + weight_grams > u64::MAX
        ||| self.global_state.total_deposits + 1 > u64::MAX
    }

    /// Why the deposit is refused before anything is asked of the token
    /// ledger, if it is. The conditions are tried in this order and the first
    /// that fails decides.
    pub open spec fn rejection(self, weight_grams: nat) -> Option<ErrorCode> {
        if !self.container.is_active {
            Some(ErrorCode::ContainerInactive)
        } else if weight_grams < self.global_state.min_deposit_weight {
            Some(ErrorCode::WeightTooLow)
        } else if self.container.current_weight + weight_grams > self.container.capacity_grams() {
            Some(ErrorCode::ContainerFull)
        } else if self.deposit_record is Some {
            Some(ErrorCode::RecordAlreadyExists)
        } else if self.overflows(weight_grams) {
            Some(ErrorCode::ArithmeticOverflow)
        } else {
            None
        }
    }

    /// Why the deposit fails, if it does, once the ledger has answered.
    pub open spec fn failure(self, weight_grams: nat, reply: LedgerReply) -> Option<ErrorCode> {
        match self.rejection(weight_grams) {
            Some(error) => Some(error),
            None => if reply == LedgerReply::Refused {
                Some(ErrorCode::LedgerFailure)
            } else {
                None
            },
        }
    }

    /// What an accepted deposit asks of the token ledger.
    pub open spec fn mint_request(self, weight_grams: nat) -> MintRequestView {
        MintRequestView {
            to: self.user,
            amount: self.reward(weight_grams),
            authority_bump: self.global_state.bump,
        }
    }

    /// What is asked of the token ledger: nothing when the deposit is refused.
    pub open spec fn requested(self, weight_grams: nat) -> Option<MintRequestView> {
        if self.rejection(weight_grams) is Some {
            None
        } else {
            Some(self.mint_request(weight_grams))
        }
    }

    /// The record that an accepted deposit writes.
    pub open spec fn record(self, weight_grams: nat, now: int) -> DepositRecordView {
        DepositRecordView {
            user: self.user,
            container: self.container_key,
            weight_grams,
            ecoc_reward: self.reward(weight_grams),
            timestamp: now,
            tx_signature: audit_tag(now),
            bump: self.bump,
        }
    }

    /// The records after an accepted deposit.
    pub open spec fn applied(self, weight_grams: nat, now: int) -> ProcessDepositView {
        ProcessDepositView {
            global_state: GlobalStateView {
                total_pet_collected: self.global_state.total_pet_collected + weight_grams,
                total_deposits: self.global_state.total_deposits + 1,
                ..self.global_state
            },
            container: SmartContainerView {
                current_weight: self.container.current_weight + weight_grams,
                total_deposits: self.container.total_deposits + 1,
                ..self.container
            },
            user_profile: UserProfileView {
                total_deposits: self.user_profile.total_deposits + 1,
                total_pet_weight: self.user_profile.total_pet_weight + weight_grams,
                total_ecoc_earned: self.user_profile.total_ecoc_earned + self.reward(weight_grams),
                ..self.user_profile
            },
            deposit_record: Some(self.record(weight_grams, now)),
            ..self
        }
    }

    /// The records after the operation: as they were when it fails, else
    /// with the deposit applied.
    pub open spec fn after(self, weight_grams: nat, now: int, reply: LedgerReply) -> ProcessDepositView {
        if self.failure(weight_grams, reply) is Some {
            self
        } else {
            self.applied(weight_grams, now)
        }
    }
}

impl ProcessDeposit {
    /// The id of the record that the deposit writes.
    pub fn record_id(&self) -> (id: RecordId)
        ensures
            id@ == self@.record_id(),
    {
        RecordId::Deposit { user: self.user, sequence: self.global_state.total_deposits }
    }
}

/// The numbers that an accepted deposit writes, each checked to fit.
struct DepositPlan {
    reward: u64,
    container_weight: u64,
    container_deposits: u64,
    user_deposits: u64,
    user_weight: u64,
    user_earned: u64,
    global_weight: u64,
    global_deposits: u64,
}

impl DepositPlan {
    spec fn matches_deposit(self, ctx: ProcessDepositView, weight_grams: nat) -> bool {
        &&& self.reward == ctx.reward(weight_grams)
        &&& self.container_weight == ctx.container.current_weight + weight_grams
        &&& self.container_deposits == ctx.container.total_deposits + 1
        &&& self.user_deposits == ctx.user_profile.total_deposits + 1
        &&& self.user_weight == ctx.user_profile.total_pet_weight + weight_grams
        &&& self.user_earned == ctx.user_profile.total_ecoc_earned + ctx.reward(weight_grams)
        &&& self.global_weight == ctx.global_state.total_pet_collected + weight_grams
        &&& self.global_deposits == ctx.global_state.total_deposits + 1
    }
}

fn sum_or_overflow(a: u64, b: u64) -> (r: Result<u64, ErrorCode>)
    ensures
        a + b <= u64::MAX ==> r == Ok::<u64, ErrorCode>((a + b) as u64),
        a + b > u64::MAX ==> r == Err::<u64, ErrorCode>(ErrorCode::ArithmeticOverflow),
{
    match a.checked_add(b) {
        Some(sum) => Ok(sum),
        None => Err(ErrorCode::ArithmeticOverflow),
    }
}

fn plan_deposit(ctx: &ProcessDeposit, weight_grams: u64) -> (r: Result<DepositPlan, ErrorCode>)
    ensures
        match ctx@.rejection(weight_grams as nat) {
            Some(error) => r == Err::<DepositPlan, ErrorCode>(error),
            None => r is Ok && r->Ok_0.matches_deposit(ctx@, weight_grams as nat),
        },
{
    if !ctx.container.is_active {
        return Err(ErrorCode::ContainerInactive);
    }
    if weight_grams < ctx.global_state.min_deposit_weight {
        return Err(ErrorCode::WeightTooLow);
    }
    let filled: u128 = ctx.container.current_weight as u128 + weight_grams as u128;
    let capacity: u128 = ctx.container.capacity_kg as u128 * (GRAMS_PER_KG as u128);
    if filled > capacity {
        return Err(ErrorCode::ContainerFull);
    }
    if ctx.deposit_record.is_some() {
        return Err(ErrorCode::RecordAlreadyExists);
    }
    let product: u64 = match weight_grams.checked_mul(ctx.global_state.ecoc_per_kg) {
        Some(product) => product,
        None => { return Err(ErrorCode::ArithmeticOverflow); },
    };
    let reward: u64 = product / GRAMS_PER_KG;
    let container_weight: u64 = sum_or_overflow(ctx.container.current_weight, weight_grams)?;
    let container_deposits: u64 = sum_or_overflow(ctx.container.total_deposits, 1)?;
    let user_deposits: u64 = sum_or_overflow(ctx.user_profile.total_deposits, 1)?;
    let user_weight: u64 = sum_or_overflow(ctx.user_profile.total_pet_weight, weight_grams)?;
    let user_earned: u64 = sum_or_overflow(ctx.user_profile.total_ecoc_earned, reward)?;
    let global_weight: u64 = sum_or_overflow(ctx.global_state.total_pet_collected, weight_grams)?;
    let global_deposits: u64 = sum_or_overflow(ctx.global_state.total_deposits, 1)?;
    Ok(
        DepositPlan {
            reward,
            container_weight,
            container_deposits,
            user_deposits,
            user_weight,
            user_earned,
            global_weight,
            global_deposits,
        },
    )
}

/// The timestamp as the audit tag of a record.
fn audit_tag_of(now: i64) -> (tag: u64)
    ensures
        tag == audit_tag(now as int),
{
    if now >= 0 {
        now as u64
    } else {
        u64::MAX - ((-(now + 1)) as u64)
    }
}

/// What a deposit of `weight_grams` asks of the token ledger, or why the
/// deposit is refused without asking. Nothing is changed either way.
pub fn deposit_mint_request(ctx: &ProcessDeposit, weight_grams: u64) -> (r: Result<
    MintRequest,
    ErrorCode,
>)
    ensures
        match ctx@.rejection(weight_grams as nat) {
            Some(error) => r == Err::<MintRequest, ErrorCode>(error),
            None => r is Ok && r->Ok_0@ == ctx@.mint_request(weight_grams as nat),
        },
        r is Ok <==> ctx@.requested(weight_grams as nat) is Some,
{
    let plan = plan_deposit(ctx, weight_grams)?;
    Ok(
        MintRequest {
            to: ctx.user,
            amount: plan.reward,
            authority_bump: ctx.global_state.bump,
        },
    )
}

/// Carries out a deposit of `weight_grams` made at `now`, given the token
/// ledger's answer to the request that [`deposit_mint_request`] returns for
/// it.
///
/// The deposit is refused, in this order, when the container is out of
/// service, when the weight is below the minimum, when the container would
/// hold more than its capacity, when a record is already in the deposit's
/// place, and when the product of weight and rate or a counter would not fit
/// in 64 bits; it fails when the ledger refused to mint. In all these cases
/// no record is changed. Otherwise the record of the deposit is written, the
/// counters of container, user and configuration are raised, and the request
/// that the ledger carried out is returned. The capacity is compared in
/// grams and exactly, however large the numbers.
pub fn process_deposit(
    ctx: &mut ProcessDeposit,
    weight_grams: u64,
    now: i64,
    reply: LedgerReply,
) -> (r: Result<MintRequest, ErrorCode>)
    ensures
        match old(ctx)@.failure(weight_grams as nat, reply) {
            Some(error) => r == Err::<MintRequest, ErrorCode>(error) && *final(ctx) == *old(ctx),
            None => r is Ok && r->Ok_0@ == old(ctx)@.mint_request(weight_grams as nat),
        },
        final(ctx)@ == old(ctx)@.after(weight_grams as nat, now as int, reply),
{
    let plan = plan_deposit(ctx, weight_grams)?;
    match reply {
        LedgerReply::Refused => { return Err(ErrorCode::LedgerFailure); },
        LedgerReply::Accepted => {},
    }
    ctx.deposit_record = Some(
        DepositRecord {
            user: ctx.user,
            container: ctx.container_key,
            weight_grams,
            ecoc_reward: plan.reward,
            timestamp: now,
            tx_signature: audit_tag_of(now),
            bump: ctx.bump,
        },
    );
    ctx.container.current_weight = plan.container_weight;
    ctx.container.total_deposits = plan.container_deposits;
    ctx.user_profile.total_deposits = plan.user_deposits;
    ctx.user_profile.total_pet_weight = plan.user_weight;
    ctx.user_profile.total_ecoc_earned = plan.user_earned;
    ctx.global_state.total_pet_collected = plan.global_weight;
    ctx.global_state.total_deposits = plan.global_deposits;
    Ok(
        MintRequest {
            to: ctx.user,
            amount: plan.reward,
            authority_bump: ctx.global_state.bump,
        },
    )
}

} // verus!
