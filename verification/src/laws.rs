//! The laws of the escrow machine, each proved once and for all over the
//! transition relation `step_result` and the creation outcome.

use vstd::prelude::*;

use crate::machine::{
    creation_outcome, party_cancel, spec_role, step_result, with_cancel_asserted, Role,
};
use crate::msg::{EscrowError, ExecuteMsg, InstantiateMsg};
use crate::state::{lemma_stake_of_bounds, Escrow};

verus! {

/// A creation request naming the same identity as buyer and seller fails
/// with `InvalidAgreement`, and no agreement comes into being.
pub proof fn lemma_creation_rejects_same_party(msg: InstantiateMsg)
    requires
        msg.buyer@ == msg.seller@,
    ensures
        creation_outcome(msg) == Err::<Escrow, EscrowError>(EscrowError::InvalidAgreement),
{
}

/// Every valid creation request yields stakes of exactly the sale price
/// times each party's percentage, divided by one hundred with truncation.
pub proof fn lemma_creation_stake_amounts(msg: InstantiateMsg)
    requires
        msg.buyer@ != msg.seller@,
        msg.state_percent <= 100,
        msg.seller_percent <= 100,
    ensures
        creation_outcome(msg) matches Ok(e) && e.buyer_stake.amount == msg.sale_price as int
            * msg.state_percent as int / 100 && e.seller_stake.amount == msg.sale_price as int
            * msg.seller_percent as int / 100,
{
    lemma_stake_of_bounds(msg.sale_price as int, msg.state_percent as int);
    lemma_stake_of_bounds(msg.sale_price as int, msg.seller_percent as int);
}

/// A caller who is neither buyer nor seller is turned away with
/// `Unauthorized`, whatever they ask, and the escrow does not change.
pub proof fn lemma_authorization_gate(esc: Escrow, caller: Seq<char>, msg: ExecuteMsg)
    requires
        spec_role(esc.state, caller) == Role::Outsider,
    ensures
        step_result(esc, caller, msg).0 == esc,
        step_result(esc, caller, msg).1 == Some(EscrowError::Unauthorized),
{
}

/// Revoking a stake twice in a row cannot succeed twice: whatever the
/// first request did, the second fails with `NoStakeToRevoke`.
pub proof fn lemma_revoke_stake_twice_fails(esc: Escrow, caller: Seq<char>)
    requires
        spec_role(esc.state, caller) != Role::Outsider,
    ensures
        ({
            let once = step_result(esc, caller, (ExecuteMsg::RevokeStake {  })).0;
            step_result(once, caller, (ExecuteMsg::RevokeStake {  })).1 == Some(
                EscrowError::NoStakeToRevoke,
            )
        }),
{
}

/// Cancelling and then revoking the cancellation succeeds and returns the
/// party's cancellation flag to `false`; nothing else moves, so an escrow
/// whose flag was already down comes back exactly as it was.
pub proof fn lemma_cancel_round_trip(esc: Escrow, caller: Seq<char>)
    requires
        spec_role(esc.state, caller) != Role::Outsider,
    ensures
        ({
            let rl = spec_role(esc.state, caller);
            let cancelled = step_result(esc, caller, (ExecuteMsg::Cancel {  })).0;
            let reverted = step_result(cancelled, caller, (ExecuteMsg::RevokeCancellation {  }));
            &&& reverted.1 is None
            &&& party_cancel(reverted.0, rl).asserted == false
            &&& reverted.0 == with_cancel_asserted(esc, rl, false)
            &&& (!party_cancel(esc, rl).asserted ==> reverted.0 == esc)
        }),
{
}

/// Asserting a cancellation is idempotent: asserting it again succeeds
/// and has no further effect.
pub proof fn lemma_cancel_idempotent(esc: Escrow, caller: Seq<char>)
    requires
        spec_role(esc.state, caller) != Role::Outsider,
    ensures
        ({
            let once = step_result(esc, caller, (ExecuteMsg::Cancel {  }));
            let twice = step_result(once.0, caller, (ExecuteMsg::Cancel {  }));
            once.1 is None && twice.1 is None && twice.0 == once.0
        }),
{
}

/// Revoking a cancellation that was never asserted fails with
/// `NoCancellationToRevoke` and changes nothing.
pub proof fn lemma_revoke_cancellation_needs_cancel(esc: Escrow, caller: Seq<char>)
    requires
        spec_role(esc.state, caller) != Role::Outsider,
        !party_cancel(esc, spec_role(esc.state, caller)).asserted,
    ensures
        step_result(esc, caller, (ExecuteMsg::RevokeCancellation {  })).0 == esc,
        step_result(esc, caller, (ExecuteMsg::RevokeCancellation {  })).1 == Some(
            EscrowError::NoCancellationToRevoke,
        ),
{
}

/// Confirmation never changes the escrow, succeeds exactly when both
/// parties' stakes are posted, and otherwise fails with `StakeIncomplete`.
pub proof fn lemma_confirm_needs_both_stakes(esc: Escrow, caller: Seq<char>)
    requires
        spec_role(esc.state, caller) != Role::Outsider,
    ensures
        step_result(esc, caller, (ExecuteMsg::Confirm {  })).0 == esc,
        step_result(esc, caller, (ExecuteMsg::Confirm {  })).1 is None <==> esc.buyer_stake.posted
            && esc.seller_stake.posted,
        !(esc.buyer_stake.posted && esc.seller_stake.posted) ==> step_result(
            esc,
            caller,
            (ExecuteMsg::Confirm {  }),
        ).1 == Some(EscrowError::StakeIncomplete),
{
}

/// The agreement terms and both stake amounts are set at creation and
/// never touched again: every transition carries them over unchanged.
pub proof fn lemma_step_preserves_terms(esc: Escrow, caller: Seq<char>, msg: ExecuteMsg)
    ensures
        step_result(esc, caller, msg).0.state == esc.state,
        step_result(esc, caller, msg).0.buyer_stake.amount == esc.buyer_stake.amount,
        step_result(esc, caller, msg).0.seller_stake.amount == esc.seller_stake.amount,
{
}

/// Transitions are all-or-nothing: one that reports an error leaves the
/// escrow exactly as it was, and one that succeeds leaves it well-formed.
pub proof fn lemma_step_all_or_nothing(esc: Escrow, caller: Seq<char>, msg: ExecuteMsg)
    requires
        esc.wf(),
    ensures
        step_result(esc, caller, msg).0.wf(),
        step_result(esc, caller, msg).1 is Some ==> step_result(esc, caller, msg).0 == esc,
{
}

} // verus!
