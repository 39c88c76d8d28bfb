use vstd::prelude::*;

use crate::keys::Pubkey;

verus! {

/// A request to the token ledger to create reward tokens. The ledger is to
/// take it as signed by the system itself, under the derived address of the
/// global configuration, and never by the user who receives the tokens.
#[derive(Clone, Copy, Debug, PartialEq, Eq)]
pub struct MintRequest {
    /// The user whose balance grows.
    pub to: Pubkey,
    /// Tokens to create.
    pub amount: u64,
    /// Bump seed of the system's derived address, which signs the request.
    pub authority_bump: u8,
}

/// What a [`MintRequest`] stands for.
pub struct MintRequestView {
    pub to: Seq<u8>,
    pub amount: nat,
    pub authority_bump: nat,
}

impl View for MintRequest {
    type V = MintRequestView;

    open spec fn view(&self) -> MintRequestView {
        MintRequestView {
            to: self.to@,
            amount: self.amount as nat,
            authority_bump: self.authority_bump as nat,
        }
    }
}

/// A request to the token ledger to destroy reward tokens. The ledger is to
/// take it as signed by `from`, the holder of the tokens.
#[derive(Clone, Copy, Debug, PartialEq, Eq)]
pub struct BurnRequest {
    /// The user whose balance shrinks, and who signs the request.
    pub from: Pubkey,
    /// Tokens to destroy.
    pub amount: u64,
}

/// What a [`BurnRequest`] stands for.
pub struct BurnRequestView {
    pub from: Seq<u8>,
    pub amount: nat,
}

impl View for BurnRequest {
    type V = BurnRequestView;

    open spec fn view(&self) -> BurnRequestView {
        BurnRequestView { from: self.from@, amount: self.amount as nat }
    }
}

/// The token ledger's answer to a request.
#[derive(Clone, Copy, Debug, PartialEq, Eq, Structural, Hash)]
pub enum LedgerReply {
    /// The ledger did what was asked.
    Accepted,
    /// The ledger did nothing: the signer lacked authority, the balance was
    /// too low, or an amount overflowed.
    Refused,
}

} // verus!
