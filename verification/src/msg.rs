//! Requests into the state machine, the errors it reports, and the
//! settlement instructions it emits for the external ledger to carry out.

use vstd::prelude::*;

verus! {

/// The creation request: the two parties, the terms of the sale and the
/// stake percentages. `state_percent` is the buyer's percentage.
#[derive(Debug)]
pub struct InstantiateMsg {
    pub buyer: String,
    pub seller: String,
    pub sale_price: u128,
    pub state_percent: u64,
    pub seller_percent: u64,
    pub title: String,
    pub description: String,
}

/// One transition request. The caller's identity travels beside it.
#[derive(Debug)]
pub enum ExecuteMsg {
    Stake {},
    RevokeStake {},
    Cancel {},
    RevokeCancellation {},
    Confirm {},
    StakeWithBabylon { babylon_stake_token: String, amount: u128 },
}

/// Read-only queries.
#[derive(Debug)]
pub enum QueryMsg {
    GetStatus {},
}

/// Payload of a call to the external stake-attestation collaborator.
#[derive(Debug)]
pub enum BabylonMsg {
    VerifyStake { user: String, amount: u128 },
}

/// Everything a transition can fail with. Every failure leaves the
/// escrow context unchanged.
#[derive(Debug, Clone, Copy, PartialEq, Eq, Structural)]
pub enum EscrowError {
    /// Creation named the same identity as buyer and seller.
    InvalidAgreement,
    /// The caller is neither the buyer nor the seller.
    Unauthorized,
    /// The caller has no stake posted to revoke.
    NoStakeToRevoke,
    /// The caller has no cancellation asserted to revoke.
    NoCancellationToRevoke,
    /// Confirmation was attempted before both parties posted their stake.
    StakeIncomplete,
    /// No agreement has been stored; a configuration error of the
    /// surrounding runtime, never produced by the machine itself.
    NotInitialized,
}

/// One instruction to the external settlement ledger. The machine only
/// emits these; executing them, and any failure while doing so, is the
/// ledger's business.
#[derive(Debug)]
pub enum SettlementInstruction {
    /// Pay `amount` of `denom` out of escrow to `to`.
    Pay { to: String, amount: u128, denom: String },
    /// Demand `amount` of `denom` from `from` into escrow.
    Deposit { from: String, amount: u128, denom: String },
    /// Fire-and-forget call to an external collaborator contract.
    CallExternal { contract: String, msg: BabylonMsg },
}

/// The settlement currency every instruction is denominated in.
pub open spec fn settlement_denom() -> Seq<char> {
    "ujuno"@
}

/// The address of the external stake-attestation collaborator.
pub open spec fn attestation_contract() -> Seq<char> {
    "babylon_staking_contract_address"@
}

} // verus!
