use vstd::prelude::*;

use crate::address::{RecordId, RecordIdView};
use crate::errors::ErrorCode;
use crate::keys::Pubkey;
use crate::state::{
    text_len, utf8_len, GlobalState, GlobalStateView, SmartContainer, SmartContainerView,
    UserProfile, UserProfileView, MAX_CONTAINER_ID_LEN, MAX_LOCATION_LEN, MAX_USERNAME_LEN,
};

verus! {

/// What the one-time set-up of the ledger reads and writes.
#[derive(Clone, Copy, Debug, PartialEq, Eq)]
pub struct Initialize {
    /// The place of the global configuration: `None` while the ledger is not set up.
    pub global_state: Option<GlobalState>,
    /// Who sets the ledger up, and becomes its authority.
    pub authority: Pubkey,
    /// Bump seed of the configuration's derived address.
    pub bump: u8,
}

/// What an [`Initialize`] stands for.
pub struct InitializeView {
    pub global_state: Option<GlobalStateView>,
    pub authority: Seq<u8>,
    pub bump: nat,
}

impl View for Initialize {
    type V = InitializeView;

    open spec fn view(&self) -> InitializeView {
        InitializeView {
            global_state: match self.global_state {
                Some(state) => Some(state@),
                None => None,
            },
            authority: self.authority@,
            bump: self.bump as nat,
        }
    }
}

impl InitializeView {
    /// The id of the global configuration, for whose place `global_state` stands.
    pub open spec fn record_id(self) -> RecordIdView {
        RecordIdView::GlobalState
    }

    /// Why the set-up is refused, if it is: the ledger is set up already.
    pub open spec fn rejection(self) -> Option<ErrorCode> {
        if self.global_state is Some {
            Some(ErrorCode::RecordAlreadyExists)
        } else {
            None
        }
    }

    /// The configuration that the set-up writes: the given rate and minimum,
    /// the caller as authority, every total at 0.
    pub open spec fn created(self, ecoc_per_kg: nat, min_deposit_weight: nat) -> GlobalStateView {
        GlobalStateView {
            authority: self.authority,
            ecoc_per_kg,
            min_deposit_weight,
            total_pet_collected: 0,
            total_deposits: 0,
            total_users: 0,
            total_containers: 0,
            bump: self.bump,
        }
    }

    /// The records after the operation.
    pub open spec fn after(self, ecoc_per_kg: nat, min_deposit_weight: nat) -> InitializeView {
        if self.rejection() is Some {
            self
        } else {
            InitializeView {
                global_state: Some(self.created(ecoc_per_kg, min_deposit_weight)),
                ..self
            }
        }
    }
}

impl Initialize {
    /// The id of the global configuration.
    pub fn record_id(&self) -> (id: RecordId)
        ensures
            id@ == self@.record_id(),
    {
        RecordId::GlobalState
    }
}

/// Sets the ledger up, once: writes the global configuration with the given
/// reward rate and minimum weight. Where a configuration is already there
/// the call is refused and the configuration stays as it was.
pub fn initialize(ctx: &mut Initialize, ecoc_per_kg: u64, min_deposit_weight: u64) -> (r: Result<
    (),
    ErrorCode,
>)
    ensures
        match old(ctx)@.rejection() {
            Some(error) => r == Err::<(), ErrorCode>(error) && *final(ctx) == *old(ctx),
            None => r is Ok,
        },
        final(ctx)@ == old(ctx)@.after(ecoc_per_kg as nat, min_deposit_weight as nat),
{
    if ctx.global_state.is_some() {
        return Err(ErrorCode::RecordAlreadyExists);
    }
    ctx.global_state = Some(
        GlobalState {
            authority: ctx.authority,
            ecoc_per_kg,
            min_deposit_weight,
            total_pet_collected: 0,
            total_deposits: 0,
            total_users: 0,
            total_containers: 0,
            bump: ctx.bump,
        },
    );
    Ok(())
}

/// What the registration of a user reads and writes.
#[derive(Clone, Debug, PartialEq, Eq)]
pub struct RegisterUser {
    /// The place of the user's account: `None` while the user has none.
    pub user_profile: Option<UserProfile>,
    /// The global configuration.
    pub global_state: GlobalState,
    /// The user who registers.
    pub user: Pubkey,
    /// Bump seed of the account's derived address.
    pub bump: u8,
}

/// What a [`RegisterUser`] stands for.
pub struct RegisterUserView {
    pub user_profile: Option<UserProfileView>,
    pub global_state: GlobalStateView,
    pub user: Seq<u8>,
    pub bump: nat,
}

impl View for RegisterUser {
    type V = RegisterUserView;

    open spec fn view(&self) -> RegisterUserView {
        RegisterUserView {
            user_profile: match self.user_profile {
                Some(profile) => Some(profile@),
                None => None,
            },
            global_state: self.global_state@,
            user: self.user@,
            bump: self.bump as nat,
        }
    }
}

impl RegisterUserView {
    /// The id of the user's account, for whose place `user_profile` stands.
    pub open spec fn record_id(self) -> RecordIdView {
        RecordIdView::UserProfile { user: self.user }
    }

    /// Why the registration is refused, if it is. The conditions are tried in
    /// this order and the first that fails decides.
    pub open spec fn rejection(self, username: Seq<char>) -> Option<ErrorCode> {
        if utf8_len(username) > MAX_USERNAME_LEN {
            Some(ErrorCode::UsernameTooLong)
        } else if self.user_profile is Some {
            Some(ErrorCode::RecordAlreadyExists)
        } else if self.global_state.total_users + 1 > u64::MAX {
            Some(ErrorCode::ArithmeticOverflow)
        } else {
            None
        }
    }

    /// The account that the registration writes: every total at 0.
    pub open spec fn created(self, username: Seq<char>, now: int) -> UserProfileView {
        UserProfileView {
            owner: self.user,
            username,
            total_deposits: 0,
            total_pet_weight: 0,
            total_ecoc_earned: 0,
            total_ecoc_spent: 0,
            created_at: now,
            bump: self.bump,
        }
    }

    /// The records after the operation.
    pub open spec fn after(self, username: Seq<char>, now: int) -> RegisterUserView {
        if self.rejection(username) is Some {
            self
        } else {
            RegisterUserView {
                user_profile: Some(self.created(username, now)),
                global_state: GlobalStateView {
                    total_users: self.global_state.total_users + 1,
                    ..self.global_state
                },
                ..self
            }
        }
    }
}

impl RegisterUser {
    /// The id of the user's account.
    pub fn record_id(&self) -> (id: RecordId)
        ensures
            id@ == self@.record_id(),
    {
        RecordId::UserProfile { user: self.user }
    }
}

/// Registers the user under `username` at `now`.
///
/// The registration is refused, in this order, when the name takes more than
/// 32 bytes, when the user already has an account, and when the count of
/// users would overflow; no record is then changed, and an account that is
/// there is never overwritten. Otherwise the account is written with every
/// total at 0 and the count of users grows by one.
pub fn register_user(ctx: &mut RegisterUser, username: String, now: i64) -> (r: Result<
    (),
    ErrorCode,
>)
    ensures
        match old(ctx)@.rejection(username@) {
            Some(error) => r == Err::<(), ErrorCode>(error) && *final(ctx) == *old(ctx),
            None => r is Ok,
        },
        final(ctx)@ == old(ctx)@.after(username@, now as int),
{
    if text_len(&username) > MAX_USERNAME_LEN {
        return Err(ErrorCode::UsernameTooLong);
    }
    if ctx.user_profile.is_some() {
        return Err(ErrorCode::RecordAlreadyExists);
    }
    let total_users: u64 = match ctx.global_state.total_users.checked_add(1) {
        Some(total) => total,
        None => { return Err(ErrorCode::ArithmeticOverflow); },
    };
    ctx.user_profile = Some(
        UserProfile {
            owner: ctx.user,
            username,
            total_deposits: 0,
            total_pet_weight: 0,
            total_ecoc_earned: 0,
            total_ecoc_spent: 0,
            created_at: now,
            bump: ctx.bump,
        },
    );
    ctx.global_state.total_users = total_users;
    Ok(())
}

/// What the registration of a container reads and writes.
#[derive(Clone, Debug, PartialEq, Eq)]
pub struct RegisterContainer {
    /// The place of the container: `None` while no container has the id.
    pub container: Option<SmartContainer>,
    /// The global configuration.
    pub global_state: GlobalState,
    /// The caller, who must be the configured authority.
    pub authority: Pubkey,
    /// Bump seed of the container's derived address.
    pub bump: u8,
}

/// What a [`RegisterContainer`] stands for.
pub struct RegisterContainerView {
    pub container: Option<SmartContainerView>,
    pub global_state: GlobalStateView,
    pub authority: Seq<u8>,
    pub bump: nat,
}

impl View for RegisterContainer {
    type V = RegisterContainerView;

    open spec fn view(&self) -> RegisterContainerView {
        RegisterContainerView {
            container: match self.container {
                Some(container) => Some(container@),
                None => None,
            },
            global_state: self.global_state@,
            authority: self.authority@,
            bump: self.bump as nat,
        }
    }
}

impl RegisterContainerView {
    /// The id of the container named `container_id`, for whose place
    /// `container` stands when that is the name to register.
    pub open spec fn record_id(self, container_id: Seq<char>) -> RecordIdView {
        RecordIdView::Container { container_id }
    }

    /// Why the registration is refused, if it is. The conditions are tried in
    /// this order and the first that fails decides.
    pub open spec fn rejection(self, container_id: Seq<char>, location: Seq<char>) -> Option<
        ErrorCode,
    > {
        if self.authority != self.global_state.authority {
            Some(ErrorCode::Unauthorized)
        } else if utf8_len(container_id) > MAX_CONTAINER_ID_LEN {
            Some(ErrorCode::ContainerIdTooLong)
        } else if utf8_len(location) > MAX_LOCATION_LEN {
            Some(ErrorCode::LocationTooLong)
        } else if self.container is Some {
            Some(ErrorCode::RecordAlreadyExists)
        } else if self.global_state.total_containers + 1 > u64::MAX {
            Some(ErrorCode::ArithmeticOverflow)
        } else {
            None
        }
    }

    /// The container that the registration writes: empty and in service.
    pub open spec fn created(
        self,
        container_id: Seq<char>,
        location: Seq<char>,
        capacity_kg: nat,
        now: int,
    ) -> SmartContainerView {
        SmartContainerView {
            container_id,
            location,
            authority: self.authority,
            capacity_kg,
            current_weight: 0,
            total_deposits: 0,
            is_active: true,
            created_at: now,
            last_collection: 0,
            bump: self.bump,
        }
    }

    /// The records after the operation.
    pub open spec fn after(
        self,
        container_id: Seq<char>,
        location: Seq<char>,
        capacity_kg: nat,
        now: int,
    ) -> RegisterContainerView {
        if self.rejection(container_id, location) is Some {
            self
        } else {
            RegisterContainerView {
                container: Some(self.created(container_id, location, capacity_kg, now)),
                global_state: GlobalStateView {
                    total_containers: self.global_state.total_containers + 1,
                    ..self.global_state
                },
                ..self
            }
        }
    }
}

impl RegisterContainer {
    /// The id of the container named `container_id`.
    pub fn record_id(&self, container_id: &String) -> (id: RecordId)
        ensures
            id@ == self@.record_id(container_id@),
    {
        RecordId::Container { container_id: container_id.clone() }
    }
}

/// Registers a container of `capacity_kg` kilograms under `container_id` at
/// `now`.
///
/// The registration is refused, in this order, when the caller is not the
/// configured authority, when the id takes more than 32 bytes, when the
/// location takes more than 64 bytes, when a container with the id is
/// already there, and when the count of containers would overflow; no record
/// is then changed. Otherwise the container is written, empty and in
/// service, and the count of containers grows by one.
pub fn register_container(
    ctx: &mut RegisterContainer,
    container_id: String,
    location: String,
    capacity_kg: u64,
    now: i64,
) -> (r: Result<(), ErrorCode>)
    ensures
        match old(ctx)@.rejection(container_id@, location@) {
            Some(error) => r == Err::<(), ErrorCode>(error) && *final(ctx) == *old(ctx),
            None => r is Ok,
        },
        final(ctx)@ == old(ctx)@.after(container_id@, location@, capacity_kg as nat, now as int),
{
    if ctx.authority != ctx.global_state.authority {
        return Err(ErrorCode::Unauthorized);
    }
    if text_len(&container_id) > MAX_CONTAINER_ID_LEN {
        return Err(ErrorCode::ContainerIdTooLong);
    }
    if text_len(&location) > MAX_LOCATION_LEN {
        return Err(ErrorCode::LocationTooLong);
    }
    if ctx.container.is_some() {
        return Err(ErrorCode::RecordAlreadyExists);
    }
    let total_containers: u64 = match ctx.global_state.total_containers.checked_add(1) {
        Some(total) => total,
        None => { return Err(ErrorCode::ArithmeticOverflow); },
    };
    ctx.container = Some(
        SmartContainer {
            container_id,
            location,
            authority: ctx.authority,
            capacity_kg,
            current_weight: 0,
            total_deposits: 0,
            is_active: true,
            created_at: now,
            last_collection: 0,
            bump: ctx.bump,
        },
    );
    ctx.global_state.total_containers = total_containers;
    Ok(())
}

/// What a change of the configuration reads and writes.
#[derive(Clone, Copy, Debug, PartialEq, Eq)]
pub struct UpdateConfig {
    /// The global configuration.
    pub global_state: GlobalState,
    /// The caller, who must be the configured authority.
    pub authority: Pubkey,
}

/// What an [`UpdateConfig`] stands for.
pub struct UpdateConfigView {
    pub global_state: GlobalStateView,
    pub authority: Seq<u8>,
}

impl View for UpdateConfig {
    type V = UpdateConfigView;

    open spec fn view(&self) -> UpdateConfigView {
        UpdateConfigView { global_state: self.global_state@, authority: self.authority@ }
    }
}

impl UpdateConfigView {
    /// Why the change is refused, if it is: the caller is not the authority.
    pub open spec fn rejection(self) -> Option<ErrorCode> {
        if self.authority != self.global_state.authority {
            Some(ErrorCode::Unauthorized)
        } else {
            None
        }
    }

    /// The records after the operation: each value that is given replaces
    /// the configured one, each that is absent leaves it.
    pub open spec fn after(self, new_ecoc_per_kg: Option<nat>, new_min_weight: Option<nat>) -> UpdateConfigView {
        if self.rejection() is Some {
            self
        } else {
            UpdateConfigView {
                global_state: GlobalStateView {
                    ecoc_per_kg: match new_ecoc_per_kg {
                        Some(rate) => rate,
                        None => self.global_state.ecoc_per_kg,
                    },
                    min_deposit_weight: match new_min_weight {
                        Some(weight) => weight,
                        None => self.global_state.min_deposit_weight,
                    },
                    ..self.global_state
                },
                ..self
            }
        }
    }
}

/// An optional amount as a natural number.
pub open spec fn amount_view(amount: Option<u64>) -> Option<nat> {
    match amount {
        Some(value) => Some(value as nat),
        None => None,
    }
}

/// Changes the reward rate, the minimum weight, both or neither.
///
/// The change is refused when the caller is not the configured authority,
/// and the configuration then stays as it was. Otherwise each value that is
/// given replaces the configured one, whatever it is, and each that is
/// absent leaves it.
pub fn update_config(
    ctx: &mut UpdateConfig,
    new_ecoc_per_kg: Option<u64>,
    new_min_weight: Option<u64>,
) -> (r: Result<(), ErrorCode>)
    ensures
        match old(ctx)@.rejection() {
            Some(error) => r == Err::<(), ErrorCode>(error) && *final(ctx) == *old(ctx),
            None => r is Ok,
        },
        final(ctx)@ == old(ctx)@.after(amount_view(new_ecoc_per_kg), amount_view(new_min_weight)),
{
    if ctx.authority != ctx.global_state.authority {
        return Err(ErrorCode::Unauthorized);
    }
    if let Some(rate) = new_ecoc_per_kg {
        ctx.global_state.ecoc_per_kg = rate;
    }
    if let Some(weight) = new_min_weight {
        ctx.global_state.min_deposit_weight = weight;
    }
    Ok(())
}

/// What taking a container out of service, or back into it, reads and writes.
#[derive(Clone, Debug, PartialEq, Eq)]
pub struct ToggleContainerStatus {
    /// The container.
    pub container: SmartContainer,
    /// The global configuration.
    pub global_state: GlobalState,
    /// The caller, who must be the configured authority.
    pub authority: Pubkey,
}

/// What a [`ToggleContainerStatus`] stands for.
pub struct ToggleContainerStatusView {
    pub container: SmartContainerView,
    pub global_state: GlobalStateView,
    pub authority: Seq<u8>,
}

impl View for ToggleContainerStatus {
    type V = ToggleContainerStatusView;

    open spec fn view(&self) -> ToggleContainerStatusView {
        ToggleContainerStatusView {
            container: self.container@,
            global_state: self.global_state@,
            authority: self.authority@,
        }
    }
}

impl ToggleContainerStatusView {
    /// Why the change is refused, if it is: the caller is not the authority.
    pub open spec fn rejection(self) -> Option<ErrorCode> {
        if self.authority != self.global_state.authority {
            Some(ErrorCode::Unauthorized)
        } else {
            None
        }
    }

    /// The records after the operation: the container in service if it was
    /// out, out if it was in.
    pub open spec fn after(self) -> ToggleContainerStatusView {
        if self.rejection() is Some {
            self
        } else {
            ToggleContainerStatusView {
                container: SmartContainerView {
                    is_active: !self.container.is_active,
                    ..self.container
                },
                ..self
            }
        }
    }
}

/// Takes the container out of service if it is in, and back in if it is out.
/// The change is refused when the caller is not the configured authority,
/// and the container then stays as it was.
pub fn toggle_container_status(ctx: &mut ToggleContainerStatus) -> (r: Result<(), ErrorCode>)
    ensures
        match old(ctx)@.rejection() {
            Some(error) => r == Err::<(), ErrorCode>(error) && *final(ctx) == *old(ctx),
            None => r is Ok,
        },
        final(ctx)@ == old(ctx)@.after(),
{
    if ctx.authority != ctx.global_state.authority {
        return Err(ErrorCode::Unauthorized);
    }
    ctx.container.is_active = !ctx.container.is_active;
    Ok(())
}

} // verus!
