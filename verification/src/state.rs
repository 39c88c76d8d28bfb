use vstd::prelude::*;
use vstd::utf8::encode_utf8;

use crate::keys::Pubkey;

verus! {

/// Grams in one kilogram: capacities are kept in kilograms, weights in grams.
pub const GRAMS_PER_KG: u64 = 1000;

/// Most bytes a user name may take.
pub const MAX_USERNAME_LEN: usize = 32;

/// Most bytes a container id may take.
pub const MAX_CONTAINER_ID_LEN: usize = 32;

/// Most bytes a location may take.
pub const MAX_LOCATION_LEN: usize = 64;

/// Most bytes a product id may take.
pub const MAX_PRODUCT_ID_LEN: usize = 32;

/// The number of bytes that a text takes once encoded as UTF-8, which is the
/// length that the limits above bound.
pub open spec fn utf8_len(text: Seq<char>) -> nat {
    encode_utf8(text).len()
}

/// The length of `text` in bytes.
pub fn text_len(text: &String) -> (n: usize)
    ensures
        n == utf8_len(text@),
{
    text.as_str().as_bytes().len()
}

/// The global configuration: one per ledger.
#[derive(Clone, Copy, Debug, PartialEq, Eq)]
pub struct GlobalState {
    /// The one principal that may register containers and change the configuration.
    pub authority: Pubkey,
    /// Reward tokens granted per kilogram deposited.
    pub ecoc_per_kg: u64,
    /// Least weight of a deposit, in grams.
    pub min_deposit_weight: u64,
    /// Grams deposited so far, over all containers.
    pub total_pet_collected: u64,
    /// Deposits made so far.
    pub total_deposits: u64,
    /// Users registered so far.
    pub total_users: u64,
    /// Containers registered so far.
    pub total_containers: u64,
    /// Bump seed of the record's derived address.
    pub bump: u8,
}

/// What a [`GlobalState`] stands for.
pub struct GlobalStateView {
    pub authority: Seq<u8>,
    pub ecoc_per_kg: nat,
    pub min_deposit_weight: nat,
    pub total_pet_collected: nat,
    pub total_deposits: nat,
    pub total_users: nat,
    pub total_containers: nat,
    pub bump: nat,
}

impl View for GlobalState {
    type V = GlobalStateView;

    open spec fn view(&self) -> GlobalStateView {
        GlobalStateView {
            authority: self.authority@,
            ecoc_per_kg: self.ecoc_per_kg as nat,
            min_deposit_weight: self.min_deposit_weight as nat,
            total_pet_collected: self.total_pet_collected as nat,
            total_deposits: self.total_deposits as nat,
            total_users: self.total_users as nat,
            total_containers: self.total_containers as nat,
            bump: self.bump as nat,
        }
    }
}

impl GlobalState {
    /// Bytes that the record takes when stored.
    pub const LEN: usize = 32 + 8 + 8 + 8 + 8 + 8 + 8 + 1;
}

/// A user's account: what they deposited, earned and spent.
#[derive(Clone, Debug, PartialEq, Eq)]
pub struct UserProfile {
    /// The user to whom the account belongs.
    pub owner: Pubkey,
    /// Display name, at most 32 bytes.
    pub username: String,
    /// Deposits made by the user.
    pub total_deposits: u64,
    /// Grams deposited by the user.
    pub total_pet_weight: u64,
    /// Reward tokens earned by the user.
    pub total_ecoc_earned: u64,
    /// Reward tokens redeemed by the user.
    pub total_ecoc_spent: u64,
    /// When the account was registered.
    pub created_at: i64,
    /// Bump seed of the record's derived address.
    pub bump: u8,
}

/// What a [`UserProfile`] stands for.
pub struct UserProfileView {
    pub owner: Seq<u8>,
    pub username: Seq<char>,
    pub total_deposits: nat,
    pub total_pet_weight: nat,
    pub total_ecoc_earned: nat,
    pub total_ecoc_spent: nat,
    pub created_at: int,
    pub bump: nat,
}

impl View for UserProfile {
    type V = UserProfileView;

    open spec fn view(&self) -> UserProfileView {
        UserProfileView {
            owner: self.owner@,
            username: self.username@,
            total_deposits: self.total_deposits as nat,
            total_pet_weight: self.total_pet_weight as nat,
            total_ecoc_earned: self.total_ecoc_earned as nat,
            total_ecoc_spent: self.total_ecoc_spent as nat,
            created_at: self.created_at as int,
            bump: self.bump as nat,
        }
    }
}

impl UserProfileView {
    /// The name fits its limit.
    pub open spec fn well_formed(self) -> bool {
        utf8_len(self.username) <= MAX_USERNAME_LEN
    }
}

impl UserProfile {
    /// Bytes that the record takes when stored.
    pub const LEN: usize = 32 + (4 + 32) + 8 + 8 + 8 + 8 + 8 + 1;
}

/// A physical container into which material is deposited.
#[derive(Clone, Debug, PartialEq, Eq)]
pub struct SmartContainer {
    /// Identifier of the container, at most 32 bytes.
    pub container_id: String,
    /// Where the container stands, at most 64 bytes.
    pub location: String,
    /// Who registered the container.
    pub authority: Pubkey,
    /// Capacity in kilograms.
    pub capacity_kg: u64,
    /// Grams held now.
    pub current_weight: u64,
    /// Deposits received over the container's life; a collection does not reset it.
    pub total_deposits: u64,
    /// Whether the container is in service.
    pub is_active: bool,
    /// When the container was registered.
    pub created_at: i64,
    /// When the container was last emptied; 0 before the first collection.
    pub last_collection: i64,
    /// Bump seed of the record's derived address.
    pub bump: u8,
}

/// What a [`SmartContainer`] stands for.
pub struct SmartContainerView {
    pub container_id: Seq<char>,
    pub location: Seq<char>,
    pub authority: Seq<u8>,
    pub capacity_kg: nat,
    pub current_weight: nat,
    pub total_deposits: nat,
    pub is_active: bool,
    pub created_at: int,
    pub last_collection: int,
    pub bump: nat,
}

impl View for SmartContainer {
    type V = SmartContainerView;

    open spec fn view(&self) -> SmartContainerView {
        SmartContainerView {
            container_id: self.container_id@,
            location: self.location@,
            authority: self.authority@,
            capacity_kg: self.capacity_kg as nat,
            current_weight: self.current_weight as nat,
            total_deposits: self.total_deposits as nat,
            is_active: self.is_active,
            created_at: self.created_at as int,
            last_collection: self.last_collection as int,
            bump: self.bump as nat,
        }
    }
}

impl SmartContainerView {
    /// The capacity in grams.
    pub open spec fn capacity_grams(self) -> nat {
        self.capacity_kg * (GRAMS_PER_KG as nat)
    }

    /// The container holds no more than its capacity.
    pub open spec fn within_capacity(self) -> bool {
        self.current_weight <= self.capacity_grams()
    }

    /// The container holds no more than its capacity, and its texts fit their limits.
    pub open spec fn well_formed(self) -> bool {
        &&& self.within_capacity()
        &&& utf8_len(self.container_id) <= MAX_CONTAINER_ID_LEN
        &&& utf8_len(self.location) <= MAX_LOCATION_LEN
    }
}

impl SmartContainer {
    /// Bytes that the record takes when stored.
    pub const LEN: usize = (4 + 32) + (4 + 64) + 32 + 8 + 8 + 8 + 1 + 8 + 8 + 1;
}

/// The trace of one deposit. Written once, never changed.
#[derive(Clone, Copy, Debug, PartialEq, Eq)]
pub struct DepositRecord {
    /// Who deposited.
    pub user: Pubkey,
    /// Key of the container that received the deposit.
    pub container: Pubkey,
    /// Grams deposited.
    pub weight_grams: u64,
    /// Reward tokens granted for the deposit.
    pub ecoc_reward: u64,
    /// When the deposit was made.
    pub timestamp: i64,
    /// An audit tag: the timestamp, read as an unsigned number.
    pub tx_signature: u64,
    /// Bump seed of the record's derived address.
    pub bump: u8,
}

/// What a [`DepositRecord`] stands for.
pub struct DepositRecordView {
    pub user: Seq<u8>,
    pub container: Seq<u8>,
    pub weight_grams: nat,
    pub ecoc_reward: nat,
    pub timestamp: int,
    pub tx_signature: nat,
    pub bump: nat,
}

impl View for DepositRecord {
    type V = DepositRecordView;

    open spec fn view(&self) -> DepositRecordView {
        DepositRecordView {
            user: self.user@,
            container: self.container@,
            weight_grams: self.weight_grams as nat,
            ecoc_reward: self.ecoc_reward as nat,
            timestamp: self.timestamp as int,
            tx_signature: self.tx_signature as nat,
            bump: self.bump as nat,
        }
    }
}

impl DepositRecord {
    /// Bytes that the record takes when stored.
    pub const LEN: usize = 32 + 32 + 8 + 8 + 8 + 8 + 1;
}

/// The trace of one redemption. Written once, never changed.
#[derive(Clone, Debug, PartialEq, Eq)]
pub struct RedemptionRecord {
    /// Who redeemed.
    pub user: Pubkey,
    /// The product redeemed for, at most 32 bytes; no catalogue is consulted.
    pub product_id: String,
    /// Reward tokens burned.
    pub amount: u64,
    /// When the redemption was made.
    pub timestamp: i64,
    /// Bump seed of the record's derived address.
    pub bump: u8,
}

/// What a [`RedemptionRecord`] stands for.
pub struct RedemptionRecordView {
    pub user: Seq<u8>,
    pub product_id: Seq<char>,
    pub amount: nat,
    pub timestamp: int,
    pub bump: nat,
}

impl View for RedemptionRecord {
    type V = RedemptionRecordView;

    open spec fn view(&self) -> RedemptionRecordView {
        RedemptionRecordView {
            user: self.user@,
            product_id: self.product_id@,
            amount: self.amount as nat,
            timestamp: self.timestamp as int,
            bump: self.bump as nat,
        }
    }
}

impl RedemptionRecordView {
    /// The product id fits its limit.
    pub open spec fn well_formed(self) -> bool {
        utf8_len(self.product_id) <= MAX_PRODUCT_ID_LEN
    }
}

impl RedemptionRecord {
    /// Bytes that the record takes when stored.
    pub const LEN: usize = 32 + (4 + 32) + 8 + 8 + 1;
}

/// The certificate of one collection. Written once, never changed.
#[derive(Clone, Copy, Debug, PartialEq, Eq)]
pub struct CollectionRecord {
    /// Key of the container that was emptied.
    pub container: Pubkey,
    /// Who emptied it.
    pub collector: Pubkey,
    /// Grams taken away.
    pub weight_collected: u64,
    /// When the container was emptied.
    pub timestamp: i64,
    /// Set on every record this library writes.
    pub verified: bool,
    /// Bump seed of the record's derived address.
    pub bump: u8,
}

/// What a [`CollectionRecord`] stands for.
pub struct CollectionRecordView {
    pub container: Seq<u8>,
    pub collector: Seq<u8>,
    pub weight_collected: nat,
    pub timestamp: int,
    pub verified: bool,
    pub bump: nat,
}

impl View for CollectionRecord {
    type V = CollectionRecordView;

    open spec fn view(&self) -> CollectionRecordView {
        CollectionRecordView {
            container: self.container@,
            collector: self.collector@,
            weight_collected: self.weight_collected as nat,
            timestamp: self.timestamp as int,
            verified: self.verified,
            bump: self.bump as nat,
        }
    }
}

impl CollectionRecordView {
    /// Something was collected, and the record is marked verified.
    pub open spec fn well_formed(self) -> bool {
        self.weight_collected > 0 && self.verified
    }
}

impl CollectionRecord {
    /// Bytes that the record takes when stored.
    pub const LEN: usize = 32 + 32 + 8 + 8 + 1 + 1;
}

} // verus!
