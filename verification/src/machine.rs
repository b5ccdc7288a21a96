//! The escrow state machine: who may trigger each transition, which
//! precondition guards it, how it changes the records, and which
//! settlement instructions it emits. `step_result` is the mathematical
//! transition relation; every executable transition is proved against it.

use vstd::prelude::*;

use crate::msg::{
    attestation_contract, settlement_denom, BabylonMsg, EscrowError, ExecuteMsg, InstantiateMsg,
    SettlementInstruction,
};
use crate::state::{
    lemma_stake_of_bounds, stake_amount, stake_of, CancelRecord, Escrow, StakeRecord, State,
};

verus! {

/// The caller's standing with respect to one agreement.
#[derive(Debug, Clone, Copy, PartialEq, Eq, Structural)]
pub enum Role {
    Buyer,
    Seller,
    Outsider,
}

/// Which party, if either, the caller is. The parties of a well-formed
/// agreement are distinct, so at most one branch can match.
pub open spec fn spec_role(state: State, caller: Seq<char>) -> Role {
    if caller == state.buyer@ {
        Role::Buyer
    } else if caller == state.seller@ {
        Role::Seller
    } else {
        Role::Outsider
    }
}

/// Resolves the caller's role by comparing identities.
pub fn role(state: &State, caller: &String) -> (r: Role)
    ensures
        r == spec_role(*state, caller@),
{
    if *caller == state.buyer {
        Role::Buyer
    } else if *caller == state.seller {
        Role::Seller
    } else {
        Role::Outsider
    }
}

/// The stake record of the given party.
pub open spec fn party_stake(esc: Escrow, r: Role) -> StakeRecord
    recommends
        r != Role::Outsider,
{
    if r == Role::Buyer {
        esc.buyer_stake
    } else {
        esc.seller_stake
    }
}

/// The cancellation record of the given party.
pub open spec fn party_cancel(esc: Escrow, r: Role) -> CancelRecord
    recommends
        r != Role::Outsider,
{
    if r == Role::Buyer {
        esc.buyer_cancel
    } else {
        esc.seller_cancel
    }
}

/// The escrow with the given party's `posted` flag replaced; everything
/// else, the stake amounts included, is untouched.
pub open spec fn with_stake_posted(esc: Escrow, r: Role, posted: bool) -> Escrow
    recommends
        r != Role::Outsider,
{
    if r == Role::Buyer {
        Escrow {
            buyer_stake: StakeRecord { posted: posted, amount: esc.buyer_stake.amount },
            ..esc
        }
    } else {
        Escrow {
            seller_stake: StakeRecord { posted: posted, amount: esc.seller_stake.amount },
            ..esc
        }
    }
}

/// The escrow with the given party's `asserted` flag replaced.
pub open spec fn with_cancel_asserted(esc: Escrow, r: Role, asserted: bool) -> Escrow
    recommends
        r != Role::Outsider,
{
    if r == Role::Buyer {
        Escrow { buyer_cancel: CancelRecord { asserted: asserted }, ..esc }
    } else {
        Escrow { seller_cancel: CancelRecord { asserted: asserted }, ..esc }
    }
}

/// The transition relation: the escrow after the request, and the error
/// the request fails with, if any. A failing request leaves the escrow
/// exactly as it was; authorization is checked before any precondition.
pub open spec fn step_result(esc: Escrow, caller: Seq<char>, msg: ExecuteMsg) -> (Escrow, Option<
    EscrowError,
>) {
    let r = spec_role(esc.state, caller);
    if r == Role::Outsider {
        (esc, Some(EscrowError::Unauthorized))
    } else {
        match msg {
            ExecuteMsg::Stake {  } => (with_stake_posted(esc, r, true), None),
            ExecuteMsg::RevokeStake {  } => {
                if !party_stake(esc, r).posted {
                    (esc, Some(EscrowError::NoStakeToRevoke))
                } else {
                    (with_stake_posted(esc, r, false), None)
                }
            },
            ExecuteMsg::Cancel {  } => (with_cancel_asserted(esc, r, true), None),
            ExecuteMsg::RevokeCancellation {  } => {
                if !party_cancel(esc, r).asserted {
                    (esc, Some(EscrowError::NoCancellationToRevoke))
                } else {
                    (with_cancel_asserted(esc, r, false), None)
                }
            },
            ExecuteMsg::Confirm {  } => {
                if esc.buyer_stake.posted && esc.seller_stake.posted {
                    (esc, None)
                } else {
                    (esc, Some(EscrowError::StakeIncomplete))
                }
            },
            ExecuteMsg::StakeWithBabylon { .. } => (with_stake_posted(esc, r, true), None),
        }
    }
}

/// The error a transition result carries, if any.
pub open spec fn err_of(r: Result<Vec<SettlementInstruction>, EscrowError>) -> Option<
    EscrowError,
> {
    match r {
        Ok(_) => None,
        Err(e) => Some(e),
    }
}

/// A refund out of escrow: `amount` of the settlement currency to `to`.
pub open spec fn is_refund(i: SettlementInstruction, to: Seq<char>, amount: u128) -> bool {
    i matches SettlementInstruction::Pay { to: t, amount: a, denom: d } && t@ == to && a == amount
        && d@ == settlement_denom()
}

/// A stake deposit demanded of `from` into escrow.
pub open spec fn is_deposit(i: SettlementInstruction, from: Seq<char>, amount: u128) -> bool {
    i matches SettlementInstruction::Deposit { from: f, amount: a, denom: d } && f@ == from
        && a == amount && d@ == settlement_denom()
}

/// A stake-verification request for `(user, amount)` addressed to the
/// attestation collaborator.
pub open spec fn is_attestation_call(i: SettlementInstruction, user: Seq<char>, amount: u128) -> bool {
    match i {
        SettlementInstruction::CallExternal { contract, msg } => {
            &&& contract@ == attestation_contract()
            &&& msg matches BabylonMsg::VerifyStake { user: u, amount: a } && u@ == user && a
                == amount
        },
        _ => false,
    }
}

/// What creation yields: rejection when the parties coincide, else a fresh
/// escrow with the terms as requested, both stakes unposted at their
/// derived amounts, and no cancellation asserted.
pub open spec fn creation_outcome(msg: InstantiateMsg) -> Result<Escrow, EscrowError> {
    if msg.buyer@ == msg.seller@ {
        Err(EscrowError::InvalidAgreement)
    } else {
        Ok(
            Escrow {
                state: State {
                    buyer: msg.buyer,
                    seller: msg.seller,
                    sale_price: msg.sale_price,
                    state_percent: msg.state_percent,
                    seller_percent: msg.seller_percent,
                    title: msg.title,
                    description: msg.description,
                    is_active: true,
                    is_cancelled: false,
                },
                buyer_stake: StakeRecord {
                    posted: false,
                    amount: stake_of(msg.sale_price as int, msg.state_percent as int) as u128,
                },
                seller_stake: StakeRecord {
                    posted: false,
                    amount: stake_of(msg.sale_price as int, msg.seller_percent as int) as u128,
                },
                buyer_cancel: CancelRecord { asserted: false },
                seller_cancel: CancelRecord { asserted: false },
            },
        )
    }
}

/// Creates an agreement. Fails, and persists nothing, exactly when buyer
/// and seller are the same identity; otherwise the returned escrow is
/// well-formed, active, uncancelled, with both stakes computed and unposted.
pub fn instantiate(msg: InstantiateMsg) -> (r: Result<Escrow, EscrowError>)
    requires
        msg.state_percent <= 100,
        msg.seller_percent <= 100,
    ensures
        r == creation_outcome(msg),
        r is Err <==> msg.buyer@ == msg.seller@,
        (r matches Ok(e) ==> e.wf()),
{
    if msg.buyer == msg.seller {
        return Err(EscrowError::InvalidAgreement);
    }
    proof {
        lemma_stake_of_bounds(msg.sale_price as int, msg.state_percent as int);
        lemma_stake_of_bounds(msg.sale_price as int, msg.seller_percent as int);
    }
    let buyer_amount = stake_amount(msg.sale_price, msg.state_percent);
    let seller_amount = stake_amount(msg.sale_price, msg.seller_percent);
    Ok(
        Escrow {
            state: State {
                buyer: msg.buyer,
                seller: msg.seller,
                sale_price: msg.sale_price,
                state_percent: msg.state_percent,
                seller_percent: msg.seller_percent,
                title: msg.title,
                description: msg.description,
                is_active: true,
                is_cancelled: false,
            },
            buyer_stake: StakeRecord { posted: false, amount: buyer_amount },
            seller_stake: StakeRecord { posted: false, amount: seller_amount },
            buyer_cancel: CancelRecord { asserted: false },
            seller_cancel: CancelRecord { asserted: false },
        },
    )
}

/// Posts the caller's stake and demands the matching deposit from them.
/// Only a party to the agreement may post; nothing else changes.
pub fn execute_stake(esc: &mut Escrow, sender: &String) -> (r: Result<
    Vec<SettlementInstruction>,
    EscrowError,
>)
    requires
        old(esc).wf(),
    ensures
        final(esc).wf(),
        *final(esc) == step_result(*old(esc), sender@, (ExecuteMsg::Stake {  })).0,
        err_of(r) == step_result(*old(esc), sender@, (ExecuteMsg::Stake {  })).1,
        (r matches Ok(v) ==> v@.len() == 1 && is_deposit(
            v@[0],
            sender@,
            party_stake(*old(esc), spec_role(old(esc).state, sender@)).amount,
        )),
{
    let rl = role(&esc.state, sender);
    match rl {
        Role::Outsider => Err(EscrowError::Unauthorized),
        Role::Buyer => {
            esc.buyer_stake.posted = true;
            let mut v: Vec<SettlementInstruction> = Vec::new();
            v.push(
                SettlementInstruction::Deposit {
                    from: sender.clone(),
                    amount: esc.buyer_stake.amount,
                    denom: "ujuno".to_owned(),
                },
            );
            Ok(v)
        },
        Role::Seller => {
            esc.seller_stake.posted = true;
            let mut v: Vec<SettlementInstruction> = Vec::new();
            v.push(
                SettlementInstruction::Deposit {
                    from: sender.clone(),
                    amount: esc.seller_stake.amount,
                    denom: "ujuno".to_owned(),
                },
            );
            Ok(v)
        },
    }
}

/// Withdraws the caller's posted stake and refunds exactly its amount in
/// the settlement currency. Fails when no stake of theirs is posted.
pub fn execute_revoke_stake(esc: &mut Escrow, sender: &String) -> (r: Result<
    Vec<SettlementInstruction>,
    EscrowError,
>)
    requires
        old(esc).wf(),
    ensures
        final(esc).wf(),
        *final(esc) == step_result(*old(esc), sender@, (ExecuteMsg::RevokeStake {  })).0,
        err_of(r) == step_result(*old(esc), sender@, (ExecuteMsg::RevokeStake {  })).1,
        (r matches Ok(v) ==> v@.len() == 1 && is_refund(
            v@[0],
            sender@,
            party_stake(*old(esc), spec_role(old(esc).state, sender@)).amount,
        )),
{
    let rl = role(&esc.state, sender);
    match rl {
        Role::Outsider => Err(EscrowError::Unauthorized),
        Role::Buyer => {
            if !esc.buyer_stake.posted {
                return Err(EscrowError::NoStakeToRevoke);
            }
            esc.buyer_stake.posted = false;
            let mut v: Vec<SettlementInstruction> = Vec::new();
            v.push(
                SettlementInstruction::Pay {
                    to: sender.clone(),
                    amount: esc.buyer_stake.amount,
                    denom: "ujuno".to_owned(),
                },
            );
            Ok(v)
        },
        Role::Seller => {
            if !esc.seller_stake.posted {
                return Err(EscrowError::NoStakeToRevoke);
            }
            esc.seller_stake.posted = false;
            let mut v: Vec<SettlementInstruction> = Vec::new();
            v.push(
                SettlementInstruction::Pay {
                    to: sender.clone(),
                    amount: esc.seller_stake.amount,
                    denom: "ujuno".to_owned(),
                },
            );
            Ok(v)
        },
    }
}

/// Asserts the caller's cancellation. Idempotent: asserting again changes
/// nothing further.
pub fn execute_cancel(esc: &mut Escrow, sender: &String) -> (r: Result<
    Vec<SettlementInstruction>,
    EscrowError,
>)
    requires
        old(esc).wf(),
    ensures
        final(esc).wf(),
        *final(esc) == step_result(*old(esc), sender@, (ExecuteMsg::Cancel {  })).0,
        err_of(r) == step_result(*old(esc), sender@, (ExecuteMsg::Cancel {  })).1,
        (r matches Ok(v) ==> v@.len() == 0),
{
    let rl = role(&esc.state, sender);
    match rl {
        Role::Outsider => Err(EscrowError::Unauthorized),
        Role::Buyer => {
            esc.buyer_cancel.asserted = true;
            Ok(Vec::new())
        },
        Role::Seller => {
            esc.seller_cancel.asserted = true;
            Ok(Vec::new())
        },
    }
}

/// Withdraws the caller's cancellation. Fails when none of theirs is
/// currently asserted.
pub fn execute_revoke_cancellation(esc: &mut Escrow, sender: &String) -> (r: Result<
    Vec<SettlementInstruction>,
    EscrowError,
>)
    requires
        old(esc).wf(),
    ensures
        final(esc).wf(),
        *final(esc) == step_result(*old(esc), sender@, (ExecuteMsg::RevokeCancellation {  })).0,
        err_of(r) == step_result(*old(esc), sender@, (ExecuteMsg::RevokeCancellation {  })).1,
        (r matches Ok(v) ==> v@.len() == 0),
{
    let rl = role(&esc.state, sender);
    match rl {
        Role::Outsider => Err(EscrowError::Unauthorized),
        Role::Buyer => {
            if !esc.buyer_cancel.asserted {
                return Err(EscrowError::NoCancellationToRevoke);
            }
            esc.buyer_cancel.asserted = false;
            Ok(Vec::new())
        },
        Role::Seller => {
            if !esc.seller_cancel.asserted {
                return Err(EscrowError::NoCancellationToRevoke);
            }
            esc.seller_cancel.asserted = false;
            Ok(Vec::new())
        },
    }
}

/// Confirms the agreement: allowed to either party, but only once both
/// parties' stakes are posted. Changes no record.
pub fn execute_confirm(esc: &mut Escrow, sender: &String) -> (r: Result<
    Vec<SettlementInstruction>,
    EscrowError,
>)
    requires
        old(esc).wf(),
    ensures
        final(esc).wf(),
        *final(esc) == step_result(*old(esc), sender@, (ExecuteMsg::Confirm {  })).0,
        err_of(r) == step_result(*old(esc), sender@, (ExecuteMsg::Confirm {  })).1,
        (r matches Ok(v) ==> v@.len() == 0),
{
    let rl = role(&esc.state, sender);
    if let Role::Outsider = rl {
        return Err(EscrowError::Unauthorized);
    }
    if esc.buyer_stake.posted && esc.seller_stake.posted {
        Ok(Vec::new())
    } else {
        Err(EscrowError::StakeIncomplete)
    }
}

/// Requests stake verification from the external attestation collaborator
/// and, independently of any response, marks the caller's stake posted.
/// The token reference is recorded nowhere: the collaborator address is
/// fixed and the request carries only the caller and the amount.
pub fn execute_stake_with_babylon(
    esc: &mut Escrow,
    sender: &String,
    babylon_stake_token: String,
    amount: u128,
) -> (r: Result<Vec<SettlementInstruction>, EscrowError>)
    requires
        old(esc).wf(),
    ensures
        final(esc).wf(),
        *final(esc) == step_result(
            *old(esc),
            sender@,
            (ExecuteMsg::StakeWithBabylon { babylon_stake_token: babylon_stake_token, amount: amount }),
        ).0,
        err_of(r) == step_result(
            *old(esc),
            sender@,
            (ExecuteMsg::StakeWithBabylon { babylon_stake_token: babylon_stake_token, amount: amount }),
        ).1,
        (r matches Ok(v) ==> v@.len() == 1 && is_attestation_call(v@[0], sender@, amount)),
{
    let rl = role(&esc.state, sender);
    match rl {
        Role::Outsider => Err(EscrowError::Unauthorized),
        Role::Buyer => {
            esc.buyer_stake.posted = true;
            let mut v: Vec<SettlementInstruction> = Vec::new();
            v.push(
                SettlementInstruction::CallExternal {
                    contract: "babylon_staking_contract_address".to_owned(),
                    msg: BabylonMsg::VerifyStake { user: sender.clone(), amount: amount },
                },
            );
            Ok(v)
        },
        Role::Seller => {
            esc.seller_stake.posted = true;
            let mut v: Vec<SettlementInstruction> = Vec::new();
            v.push(
                SettlementInstruction::CallExternal {
                    contract: "babylon_staking_contract_address".to_owned(),
                    msg: BabylonMsg::VerifyStake { user: sender.clone(), amount: amount },
                },
            );
            Ok(v)
        },
    }
}

/// Dispatches one transition request. The escrow afterwards, and the error
/// if any, are exactly those of the transition relation; a successful
/// request emits the instructions its transition owes.
pub fn execute(esc: &mut Escrow, sender: &String, msg: ExecuteMsg) -> (r: Result<
    Vec<SettlementInstruction>,
    EscrowError,
>)
    requires
        old(esc).wf(),
    ensures
        final(esc).wf(),
        *final(esc) == step_result(*old(esc), sender@, msg).0,
        err_of(r) == step_result(*old(esc), sender@, msg).1,
        (r matches Ok(v) ==> match msg {
            ExecuteMsg::Stake {  } => v@.len() == 1 && is_deposit(
                v@[0],
                sender@,
                party_stake(*old(esc), spec_role(old(esc).state, sender@)).amount,
            ),
            ExecuteMsg::RevokeStake {  } => v@.len() == 1 && is_refund(
                v@[0],
                sender@,
                party_stake(*old(esc), spec_role(old(esc).state, sender@)).amount,
            ),
            ExecuteMsg::StakeWithBabylon { babylon_stake_token: _, amount } => v@.len() == 1
                && is_attestation_call(v@[0], sender@, amount),
            _ => v@.len() == 0,
        }),
{
    match msg {
        ExecuteMsg::Stake {  } => execute_stake(esc, sender),
        ExecuteMsg::RevokeStake {  } => execute_revoke_stake(esc, sender),
        ExecuteMsg::Cancel {  } => execute_cancel(esc, sender),
        ExecuteMsg::RevokeCancellation {  } => execute_revoke_cancellation(esc, sender),
        ExecuteMsg::Confirm {  } => execute_confirm(esc, sender),
        ExecuteMsg::StakeWithBabylon { babylon_stake_token, amount } => execute_stake_with_babylon(
            esc,
            sender,
            babylon_stake_token,
            amount,
        ),
    }
}

} // verus!
