use vstd::prelude::*;

use crate::address::{seeds_out_of_bounds, RecordIdView};
use crate::admin::{
    InitializeView, RegisterContainerView, RegisterUserView, ToggleContainerStatusView,
    UpdateConfigView,
};
use crate::collection::CollectContainerView;
use crate::deposit::{reward, ProcessDepositView};
use crate::errors::ErrorCode;
use crate::ledger::{BurnRequestView, LedgerReply};
use crate::redemption::RedeemTokensView;
use crate::state::{utf8_len, GRAMS_PER_KG, MAX_PRODUCT_ID_LEN, MAX_USERNAME_LEN};

verus! {

/// The reward is the floor of weight times rate over 1000: the one number
/// `r` with `1000 r <= weight * rate < 1000 (r + 1)`. What is left of the
/// product below a full thousand is dropped, never rounded up.
pub proof fn lemma_reward_is_floor(weight_grams: nat, ecoc_per_kg: nat)
    ensures
        GRAMS_PER_KG * reward(weight_grams, ecoc_per_kg) <= weight_grams * ecoc_per_kg,
        weight_grams * ecoc_per_kg < GRAMS_PER_KG * (reward(weight_grams, ecoc_per_kg) + 1),
{
}

/// A newly registered container holds nothing, so it is within its capacity.
pub proof fn lemma_new_container_within_capacity(
    ctx: RegisterContainerView,
    container_id: Seq<char>,
    location: Seq<char>,
    capacity_kg: nat,
    now: int,
)
    requires
        ctx.rejection(container_id, location) is None,
    ensures
        ctx.after(container_id, location, capacity_kg, now).container is Some,
        ctx.after(container_id, location, capacity_kg, now).container->Some_0.well_formed(),
{
}

/// A container that is within its capacity is still within it after a
/// deposit, whether the deposit was carried out or not; and after a deposit
/// that was carried out it is within it whatever it held before.
pub proof fn lemma_deposit_keeps_capacity(
    ctx: ProcessDepositView,
    weight_grams: nat,
    now: int,
    reply: LedgerReply,
)
    ensures
        ctx.container.within_capacity() ==> ctx.after(
            weight_grams,
            now,
            reply,
        ).container.within_capacity(),
        ctx.failure(weight_grams, reply) is None ==> ctx.after(
            weight_grams,
            now,
            reply,
        ).container.within_capacity(),
        ctx.container.well_formed() ==> ctx.after(weight_grams, now, reply).container.well_formed(),
        ctx.user_profile.well_formed() ==> ctx.after(
            weight_grams,
            now,
            reply,
        ).user_profile.well_formed(),
{
}

/// A container that is within its capacity is still within it after a
/// collection, whether the collection was carried out or not; and after a
/// collection that was carried out it is within it whatever it held before.
pub proof fn lemma_collection_keeps_capacity(ctx: CollectContainerView, now: int)
    ensures
        ctx.container.within_capacity() ==> ctx.after(now).container.within_capacity(),
        ctx.container.well_formed() ==> ctx.after(now).container.well_formed(),
        ctx.rejection() is None ==> ctx.after(now).container.within_capacity(),
{
}

/// A container that is within its capacity is still within it after it was
/// taken out of service or back into it.
pub proof fn lemma_toggle_keeps_capacity(ctx: ToggleContainerStatusView)
    ensures
        ctx.container.within_capacity() ==> ctx.after().container.within_capacity(),
        ctx.container.well_formed() ==> ctx.after().container.well_formed(),
{
}

/// A deposit that is carried out writes a record with the floor of weight
/// times rate over 1000 as its reward, asks the ledger to mint exactly that
/// to the depositing user, and raises the user's earnings by exactly that,
/// the user's and the global weight by exactly the weight deposited, and
/// each count of deposits by one.
pub proof fn lemma_deposit_rewards_floor(
    ctx: ProcessDepositView,
    weight_grams: nat,
    now: int,
    reply: LedgerReply,
)
    requires
        ctx.failure(weight_grams, reply) is None,
    ensures
        ({
            let paid = (weight_grams * ctx.global_state.ecoc_per_kg) / 1000;
            let next = ctx.after(weight_grams, now, reply);
            &&& next.deposit_record is Some
            &&& next.deposit_record->Some_0.ecoc_reward == paid
            &&& next.deposit_record->Some_0.weight_grams == weight_grams
            &&& ctx.requested(weight_grams) is Some
            &&& ctx.requested(weight_grams)->Some_0.amount == paid
            &&& ctx.requested(weight_grams)->Some_0.to == ctx.user
            &&& next.user_profile.total_ecoc_earned == ctx.user_profile.total_ecoc_earned + paid
            &&& next.user_profile.total_pet_weight == ctx.user_profile.total_pet_weight
                + weight_grams
            &&& next.user_profile.total_deposits == ctx.user_profile.total_deposits + 1
            &&& next.global_state.total_pet_collected == ctx.global_state.total_pet_collected
                + weight_grams
            &&& next.global_state.total_deposits == ctx.global_state.total_deposits + 1
            &&& next.container.current_weight == ctx.container.current_weight + weight_grams
            &&& next.container.total_deposits == ctx.container.total_deposits + 1
            &&& next.deposit_record->Some_0.weight_grams >= ctx.global_state.min_deposit_weight
        }),
{
}

/// A deposit below the minimum weight always fails, whatever the ledger
/// would answer: no record changes and nothing is asked of the ledger. Into
/// a container that is in service it fails for being too light.
pub proof fn lemma_light_deposit_changes_nothing(
    ctx: ProcessDepositView,
    weight_grams: nat,
    now: int,
    reply: LedgerReply,
)
    requires
        weight_grams < ctx.global_state.min_deposit_weight,
    ensures
        ctx.failure(weight_grams, reply) is Some,
        ctx.container.is_active ==> ctx.failure(weight_grams, reply) == Some(
            ErrorCode::WeightTooLow,
        ),
        ctx.after(weight_grams, now, reply) == ctx,
        ctx.requested(weight_grams) is None,
{
}

/// A deposit that would take the container over its capacity always fails,
/// whatever the ledger would answer: no record changes and nothing is asked
/// of the ledger. Into a container that is in service, and at or above the
/// minimum weight, it fails for the container being full.
pub proof fn lemma_overfull_deposit_changes_nothing(
    ctx: ProcessDepositView,
    weight_grams: nat,
    now: int,
    reply: LedgerReply,
)
    requires
        ctx.container.current_weight + weight_grams > ctx.container.capacity_kg * 1000,
    ensures
        ctx.failure(weight_grams, reply) is Some,
        ctx.container.is_active && weight_grams >= ctx.global_state.min_deposit_weight
            ==> ctx.failure(weight_grams, reply) == Some(ErrorCode::ContainerFull),
        ctx.after(weight_grams, now, reply) == ctx,
        ctx.requested(weight_grams) is None,
{
}

/// A deposit that the ledger refused to mint for changes no record.
pub proof fn lemma_unminted_deposit_changes_nothing(
    ctx: ProcessDepositView,
    weight_grams: nat,
    now: int,
)
    ensures
        ctx.failure(weight_grams, LedgerReply::Refused) is Some,
        ctx.after(weight_grams, now, LedgerReply::Refused) == ctx,
{
}

/// A collection that is carried out leaves the container empty and its
/// count of deposits as it was, and certifies the weight that the container
/// held, which is more than nothing. A collection tried next on the
/// container as it then is, with nothing deposited in between, fails for
/// the container being empty.
pub proof fn lemma_collection_empties_container(
    ctx: CollectContainerView,
    now: int,
    next: CollectContainerView,
)
    requires
        ctx.rejection() is None,
        next.container == ctx.after(now).container,
    ensures
        ctx.after(now).container.current_weight == 0,
        ctx.after(now).container.total_deposits == ctx.container.total_deposits,
        ctx.after(now).container.last_collection == now,
        ctx.after(now).collection_record is Some,
        ctx.after(now).collection_record->Some_0.weight_collected == ctx.container.current_weight,
        ctx.after(now).collection_record->Some_0.well_formed(),
        next.rejection() == Some(ErrorCode::ContainerEmpty),
{
}

/// A redemption that is carried out asks the ledger to burn exactly the
/// amount from the redeeming user, and raises the user's total spent by
/// exactly the amount.
pub proof fn lemma_redemption_spends_exactly(
    ctx: RedeemTokensView,
    amount: nat,
    product_id: Seq<char>,
    now: int,
    reply: LedgerReply,
)
    requires
        ctx.failure(amount, product_id, reply) is None,
    ensures
        ctx.requested(amount, product_id) == Some(BurnRequestView { from: ctx.user, amount }),
        ctx.after(amount, product_id, now, reply).user_profile.total_ecoc_spent
            == ctx.user_profile.total_ecoc_spent + amount,
        ctx.after(amount, product_id, now, reply).redemption_record is Some,
        ctx.after(amount, product_id, now, reply).redemption_record->Some_0.amount == amount,
        ctx.after(amount, product_id, now, reply).redemption_record->Some_0.well_formed(),
        amount <= ctx.user_token_balance,
{
}

/// A redemption of more than the user's balance always fails, whatever the
/// ledger would answer: the user's total spent stays as it was, as does
/// every record, and nothing is asked of the ledger. With a product id that
/// fits, it fails for want of tokens.
pub proof fn lemma_overdrawn_redemption_changes_nothing(
    ctx: RedeemTokensView,
    amount: nat,
    product_id: Seq<char>,
    now: int,
    reply: LedgerReply,
)
    requires
        amount > ctx.user_token_balance,
    ensures
        ctx.failure(amount, product_id, reply) is Some,
        utf8_len(product_id) <= MAX_PRODUCT_ID_LEN ==> ctx.failure(amount, product_id, reply)
            == Some(ErrorCode::InsufficientTokens),
        ctx.after(amount, product_id, now, reply) == ctx,
        ctx.after(amount, product_id, now, reply).user_profile.total_ecoc_spent
            == ctx.user_profile.total_ecoc_spent,
        ctx.requested(amount, product_id) is None,
{
}

/// A redemption that the ledger refused to burn for changes no record.
pub proof fn lemma_unburned_redemption_changes_nothing(
    ctx: RedeemTokensView,
    amount: nat,
    product_id: Seq<char>,
    now: int,
)
    ensures
        ctx.failure(amount, product_id, LedgerReply::Refused) is Some,
        ctx.after(amount, product_id, now, LedgerReply::Refused) == ctx,
{
}

/// A user registers once. Where an account is already in the user's place,
/// a registration fails and leaves the account as it is; so a registration
/// that follows one that was carried out fails, and the account keeps the
/// name and the date of the first. With a name that fits, the failure is
/// that the record exists.
pub proof fn lemma_user_registers_once(
    ctx: RegisterUserView,
    first_name: Seq<char>,
    first_now: int,
    second_name: Seq<char>,
    second_now: int,
)
    requires
        ctx.user_profile is Some || ctx.rejection(first_name) is None,
    ensures
        ({
            let registered = ctx.after(first_name, first_now);
            &&& registered.user_profile is Some
            &&& registered.rejection(second_name) is Some
            &&& utf8_len(second_name) <= MAX_USERNAME_LEN ==> registered.rejection(second_name)
                == Some(ErrorCode::RecordAlreadyExists)
            &&& registered.after(second_name, second_now) == registered
        }),
{
}

/// The ledger is set up once. A set-up that follows one that was carried
/// out fails, and the configuration keeps the values of the first.
pub proof fn lemma_ledger_initializes_once(
    ctx: InitializeView,
    first_rate: nat,
    first_min: nat,
    second_rate: nat,
    second_min: nat,
)
    ensures
        ({
            let initialized = ctx.after(first_rate, first_min);
            &&& initialized.global_state is Some
            &&& initialized.rejection() == Some(ErrorCode::RecordAlreadyExists)
            &&& initialized.after(second_rate, second_min) == initialized
        }),
{
}

/// No operation lowers a total of the global configuration.
pub proof fn lemma_global_totals_never_fall(
    deposit: ProcessDepositView,
    weight_grams: nat,
    now: int,
    reply: LedgerReply,
    user: RegisterUserView,
    username: Seq<char>,
    container: RegisterContainerView,
    container_id: Seq<char>,
    location: Seq<char>,
    capacity_kg: nat,
)
    ensures
        ({
            let before = deposit.global_state;
            let after = deposit.after(weight_grams, now, reply).global_state;
            &&& before.total_pet_collected <= after.total_pet_collected
            &&& before.total_deposits <= after.total_deposits
            &&& before.total_users == after.total_users
            &&& before.total_containers == after.total_containers
        }),
        ({
            let before = user.global_state;
            let after = user.after(username, now).global_state;
            &&& before.total_users <= after.total_users
            &&& before.total_pet_collected == after.total_pet_collected
            &&& before.total_deposits == after.total_deposits
            &&& before.total_containers == after.total_containers
        }),
        ({
            let before = container.global_state;
            let after = container.after(container_id, location, capacity_kg, now).global_state;
            &&& before.total_containers <= after.total_containers
            &&& before.total_pet_collected == after.total_pet_collected
            &&& before.total_deposits == after.total_deposits
            &&& before.total_users == after.total_users
        }),
{
}

/// Each deposit has a place of its own. The count from which the place is
/// taken is raised by the deposit that fills it, so the next deposit of the
/// same user, and every later one, is looked for elsewhere; and the bytes
/// hashed for the two places differ.
pub proof fn lemma_deposits_take_fresh_places(
    ctx: ProcessDepositView,
    weight_grams: nat,
    now: int,
    reply: LedgerReply,
)
    requires
        ctx.failure(weight_grams, reply) is None,
        ctx.record_id().well_formed(),
    ensures
        ctx.after(weight_grams, now, reply).record_id() == (RecordIdView::Deposit {
            user: ctx.user,
            sequence: ctx.global_state.total_deposits + 1,
        }),
        ctx.after(weight_grams, now, reply).record_id() != ctx.record_id(),
        ctx.after(weight_grams, now, reply).record_id().hashed_bytes()
            != ctx.record_id().hashed_bytes(),
{
    let next = ctx.after(weight_grams, now, reply).record_id();
    if next.hashed_bytes() == ctx.record_id().hashed_bytes() {
        next.lemma_hashed_bytes_tell_ids_apart(ctx.record_id());
    }
}

/// Each redemption of some tokens has a place of its own: the total from
/// which the place is taken grows by the amount redeemed. A redemption of
/// no tokens leaves the total, and with it the place, as it was.
pub proof fn lemma_redemptions_take_fresh_places(
    ctx: RedeemTokensView,
    amount: nat,
    product_id: Seq<char>,
    now: int,
    reply: LedgerReply,
)
    requires
        ctx.failure(amount, product_id, reply) is None,
        ctx.record_id().well_formed(),
    ensures
        ctx.after(amount, product_id, now, reply).record_id() == (RecordIdView::Redemption {
            user: ctx.user,
            sequence: ctx.user_profile.total_ecoc_spent + amount,
        }),
        amount > 0 ==> ctx.after(amount, product_id, now, reply).record_id().hashed_bytes()
            != ctx.record_id().hashed_bytes(),
{
    let next = ctx.after(amount, product_id, now, reply).record_id();
    if amount > 0 && next.hashed_bytes() == ctx.record_id().hashed_bytes() {
        next.lemma_hashed_bytes_tell_ids_apart(ctx.record_id());
    }
}

/// A collection leaves its own place filled and the count from which the
/// place is taken as it was; it is the next deposit into the container that
/// moves the place of the next collection.
pub proof fn lemma_deposit_moves_place_of_collection(
    collection: CollectContainerView,
    collected_at: int,
    deposit: ProcessDepositView,
    weight_grams: nat,
    deposited_at: int,
    reply: LedgerReply,
    next: CollectContainerView,
)
    requires
        collection.rejection() is None,
        collection.record_id().well_formed(),
        deposit.container == collection.after(collected_at).container,
        deposit.failure(weight_grams, reply) is None,
        next.container == deposit.after(weight_grams, deposited_at, reply).container,
        next.container_key == collection.container_key,
    ensures
        collection.after(collected_at).record_id() == collection.record_id(),
        collection.after(collected_at).collection_record is Some,
        next.record_id() != collection.record_id(),
        next.record_id().hashed_bytes() != collection.record_id().hashed_bytes(),
{
    if next.record_id().hashed_bytes() == collection.record_id().hashed_bytes() {
        next.record_id().lemma_hashed_bytes_tell_ids_apart(collection.record_id());
    }
}

/// A container that is registered has an id from which an address can be
/// derived: its seeds are within the bounds of the derivation.
pub proof fn lemma_registered_container_has_seeds_in_bounds(
    ctx: RegisterContainerView,
    container_id: Seq<char>,
    location: Seq<char>,
)
    requires
        ctx.rejection(container_id, location) is None,
    ensures
        !seeds_out_of_bounds(ctx.record_id(container_id).seeds()),
{
    ctx.record_id(container_id).lemma_seeds_within_bounds();
}

/// A user who is registered has an account with a name that fits and with
/// every total at 0.
pub proof fn lemma_new_user_well_formed(ctx: RegisterUserView, username: Seq<char>, now: int)
    requires
        ctx.rejection(username) is None,
    ensures
        ctx.after(username, now).user_profile is Some,
        ctx.after(username, now).user_profile->Some_0.well_formed(),
        ctx.after(username, now).user_profile->Some_0.owner == ctx.user,
        ctx.after(username, now).user_profile->Some_0.total_ecoc_earned == 0,
        ctx.after(username, now).user_profile->Some_0.total_ecoc_spent == 0,
        ctx.after(username, now).global_state.total_users == ctx.global_state.total_users + 1,
{
}

/// A record that is written stays as it was written: an operation that
/// finds a record in the place of the one it would create changes nothing.
pub proof fn lemma_records_are_written_once(
    deposit: ProcessDepositView,
    weight_grams: nat,
    redemption: RedeemTokensView,
    amount: nat,
    product_id: Seq<char>,
    collection: CollectContainerView,
    now: int,
    reply: LedgerReply,
)
    ensures
        deposit.deposit_record is Some ==> deposit.after(weight_grams, now, reply) == deposit,
        redemption.redemption_record is Some ==> redemption.after(amount, product_id, now, reply)
            == redemption,
        collection.collection_record is Some ==> collection.after(now) == collection,
{
}

/// The reward rate and the minimum weight change only by the authority's
/// hand: a caller who is not the authority changes nothing, and a deposit or
/// a registration leaves both as they were.
pub proof fn lemma_only_authority_changes_configuration(
    update: UpdateConfigView,
    new_ecoc_per_kg: Option<nat>,
    new_min_weight: Option<nat>,
    deposit: ProcessDepositView,
    weight_grams: nat,
    now: int,
    reply: LedgerReply,
    user: RegisterUserView,
    username: Seq<char>,
    container: RegisterContainerView,
    container_id: Seq<char>,
    location: Seq<char>,
    capacity_kg: nat,
)
    ensures
        update.authority != update.global_state.authority ==> update.after(
            new_ecoc_per_kg,
            new_min_weight,
        ) == update,
        update.after(new_ecoc_per_kg, new_min_weight).global_state.authority
            == update.global_state.authority,
        ({
            let before = deposit.global_state;
            let after = deposit.after(weight_grams, now, reply).global_state;
            &&& after.ecoc_per_kg == before.ecoc_per_kg
            &&& after.min_deposit_weight == before.min_deposit_weight
            &&& after.authority == before.authority
        }),
        ({
            let before = user.global_state;
            let after = user.after(username, now).global_state;
            &&& after.ecoc_per_kg == before.ecoc_per_kg
            &&& after.min_deposit_weight == before.min_deposit_weight
            &&& after.authority == before.authority
        }),
        ({
            let before = container.global_state;
            let after = container.after(container_id, location, capacity_kg, now).global_state;
            &&& after.ecoc_per_kg == before.ecoc_per_kg
            &&& after.min_deposit_weight == before.min_deposit_weight
            &&& after.authority == before.authority
        }),
{
}

/// A container's weight falls only when it is collected: a deposit never
/// lowers it, and taking the container in or out of service leaves it.
pub proof fn lemma_weight_falls_only_on_collection(
    deposit: ProcessDepositView,
    weight_grams: nat,
    now: int,
    reply: LedgerReply,
    toggle: ToggleContainerStatusView,
)
    ensures
        deposit.after(weight_grams, now, reply).container.current_weight
            >= deposit.container.current_weight,
        toggle.after().container.current_weight == toggle.container.current_weight,
        toggle.after().container.total_deposits == toggle.container.total_deposits,
{
}

} // verus!
