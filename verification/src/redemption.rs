use vstd::prelude::*;

use crate::address::{RecordId, RecordIdView};
use crate::errors::ErrorCode;
use crate::keys::Pubkey;
use crate::ledger::{BurnRequest, BurnRequestView, LedgerReply};
use crate::state::{
    text_len, utf8_len, RedemptionRecord, RedemptionRecordView, UserProfile, UserProfileView,
    MAX_PRODUCT_ID_LEN,
};

verus! {

/// The records that a redemption reads and writes, and the balance that the
/// token ledger reported for the user before the operation.
#[derive(Clone, Debug, PartialEq, Eq)]
pub struct RedeemTokens {
    /// The account of the redeeming user.
    pub user_profile: UserProfile,
    /// The place of the redemption's record: `None` while no record is there.
    pub redemption_record: Option<RedemptionRecord>,
    /// The redeeming user.
    pub user: Pubkey,
    /// The user's balance of reward tokens, as the token ledger holds it.
    pub user_token_balance: u64,
    /// Bump seed of the redemption record's derived address.
    pub bump: u8,
}

/// What a [`RedeemTokens`] stands for.
pub struct RedeemTokensView {
    pub user_profile: UserProfileView,
    pub redemption_record: Option<RedemptionRecordView>,
    pub user: Seq<u8>,
    pub user_token_balance: nat,
    pub bump: nat,
}

impl View for RedeemTokens {
    type V = RedeemTokensView;

    open spec fn view(&self) -> RedeemTokensView {
        RedeemTokensView {
            user_profile: self.user_profile@,
            redemption_record: match self.redemption_record {
                Some(record) => Some(record@),
                None => None,
            },
            user: self.user@,
            user_token_balance: self.user_token_balance as nat,
            bump: self.bump as nat,
        }
    }
}

impl RedeemTokensView {
    /// The id of the record that the redemption writes, and so the place
    /// for which `redemption_record` stands: that of the redemption which
    /// the user makes when their total spent is what it is now.
    pub open spec fn record_id(self) -> RecordIdView {
        RecordIdView::Redemption { user: self.user, sequence: self.user_profile.total_ecoc_spent }
    }

    /// Why the redemption is refused before anything is asked of the token
    /// ledger, if it is. The conditions are tried in this order and the first
    /// that fails decides.
    pub open spec fn rejection(self, amount: nat, product_id: Seq<char>) -> Option<ErrorCode> {
        if utf8_len(product_id) > MAX_PRODUCT_ID_LEN {
            Some(ErrorCode::ProductIdTooLong)
        } else if self.user_token_balance < amount {
            Some(ErrorCode::InsufficientTokens)
        } else if self.redemption_record is Some {
            Some(ErrorCode::RecordAlreadyExists)
        } else if self.user_profile.total_ecoc_spent + amount > u64::MAX {
            Some(ErrorCode::ArithmeticOverflow)
        } else {
            None
        }
    }

    /// Why the redemption fails, if it does, once the ledger has answered.
    pub open spec fn failure(self, amount: nat, product_id: Seq<char>, reply: LedgerReply) -> Option<
        ErrorCode,
    > {
        match self.rejection(amount, product_id) {
            Some(error) => Some(error),
            None => if reply == LedgerReply::Refused {
                Some(ErrorCode::LedgerFailure)
            } else {
                None
            },
        }
    }

    /// What an accepted redemption asks of the token ledger.
    pub open spec fn burn_request(self, amount: nat) -> BurnRequestView {
        BurnRequestView { from: self.user, amount }
    }

    /// What is asked of the token ledger: nothing when the redemption is refused.
    pub open spec fn requested(self, amount: nat, product_id: Seq<char>) -> Option<BurnRequestView> {
        if self.rejection(amount, product_id) is Some {
            None
        } else {
            Some(self.burn_request(amount))
        }
    }

    /// The record that an accepted redemption writes.
    pub open spec fn record(self, amount: nat, product_id: Seq<char>, now: int) -> RedemptionRecordView {
        RedemptionRecordView { user: self.user, product_id, amount, timestamp: now, bump: self.bump }
    }

    /// The records after an accepted redemption.
    pub open spec fn applied(self, amount: nat, product_id: Seq<char>, now: int) -> RedeemTokensView {
        RedeemTokensView {
            user_profile: UserProfileView {
                total_ecoc_spent: self.user_profile.total_ecoc_spent + amount,
                ..self.user_profile
            },
            redemption_record: Some(self.record(amount, product_id, now)),
            ..self
        }
    }

    /// The records after the operation: as they were when it fails, else
    /// with the redemption applied.
    pub open spec fn after(
        self,
        amount: nat,
        product_id: Seq<char>,
        now: int,
        reply: LedgerReply,
    ) -> RedeemTokensView {
        if self.failure(amount, product_id, reply) is Some {
            self
        } else {
            self.applied(amount, product_id, now)
        }
    }
}

impl RedeemTokens {
    /// The id of the record that the redemption writes.
    pub fn record_id(&self) -> (id: RecordId)
        ensures
            id@ == self@.record_id(),
    {
        RecordId::Redemption { user: self.user, sequence: self.user_profile.total_ecoc_spent }
    }
}

/// The user's new total of tokens spent, or why the redemption is refused.
fn plan_redemption(ctx: &RedeemTokens, amount: u64, product_id: &String) -> (r: Result<
    u64,
    ErrorCode,
>)
    ensures
        match ctx@.rejection(amount as nat, product_id@) {
            Some(error) => r == Err::<u64, ErrorCode>(error),
            None => r == Ok::<u64, ErrorCode>((ctx.user_profile.total_ecoc_spent + amount) as u64),
        },
{
    if text_len(product_id) > MAX_PRODUCT_ID_LEN {
        return Err(ErrorCode::ProductIdTooLong);
    }
    if ctx.user_token_balance < amount {
        return Err(ErrorCode::InsufficientTokens);
    }
    if ctx.redemption_record.is_some() {
        return Err(ErrorCode::RecordAlreadyExists);
    }
    match ctx.user_profile.total_ecoc_spent.checked_add(amount) {
        Some(spent) => Ok(spent),
        None => Err(ErrorCode::ArithmeticOverflow),
    }
}

/// What a redemption of `amount` asks of the token ledger, or why the
/// redemption is refused without asking. Nothing is changed either way.
pub fn redemption_burn_request(ctx: &RedeemTokens, amount: u64, product_id: &String) -> (r: Result<
    BurnRequest,
    ErrorCode,
>)
    ensures
        match ctx@.rejection(amount as nat, product_id@) {
            Some(error) => r == Err::<BurnRequest, ErrorCode>(error),
            None => r is Ok && r->Ok_0@ == ctx@.burn_request(amount as nat),
        },
        r is Ok <==> ctx@.requested(amount as nat, product_id@) is Some,
{
    let _spent = plan_redemption(ctx, amount, product_id)?;
    Ok(BurnRequest { from: ctx.user, amount })
}

/// Carries out a redemption of `amount` tokens for `product_id` made at
/// `now`, given the token ledger's answer to the request that
/// [`redemption_burn_request`] returns for it.
///
/// The redemption is refused, in this order, when the product id is too
/// long, when the balance is below the amount, when a record is already in
/// the redemption's place, and when the user's total spent would overflow; it
/// fails when the ledger refused to burn. In all these cases no record is
/// changed. Otherwise the record of the redemption is written, the user's
/// total spent grows by `amount`, and the request that the ledger carried out
/// is returned. Any product id that fits is taken: no catalogue is consulted.
pub fn redeem_tokens(
    ctx: &mut RedeemTokens,
    amount: u64,
    product_id: String,
    now: i64,
    reply: LedgerReply,
) -> (r: Result<BurnRequest, ErrorCode>)
    ensures
        match old(ctx)@.failure(amount as nat, product_id@, reply) {
            Some(error) => r == Err::<BurnRequest, ErrorCode>(error) && *final(ctx) == *old(ctx),
            None => r is Ok && r->Ok_0@ == old(ctx)@.burn_request(amount as nat),
        },
        final(ctx)@ == old(ctx)@.after(amount as nat, product_id@, now as int, reply),
{
    let spent = plan_redemption(ctx, amount, &product_id)?;
    match reply {
        LedgerReply::Refused => { return Err(ErrorCode::LedgerFailure); },
        LedgerReply::Accepted => {},
    }
    ctx.redemption_record = Some(
        RedemptionRecord { user: ctx.user, product_id, amount, timestamp: now, bump: ctx.bump },
    );
    ctx.user_profile.total_ecoc_spent = spent;
    Ok(BurnRequest { from: ctx.user, amount })
}

} // verus!
