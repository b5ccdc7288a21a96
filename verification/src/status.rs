//! Read-only projection of one escrow into a single queryable snapshot.

use vstd::prelude::*;

use crate::msg::QueryMsg;
use crate::state::Escrow;

verus! {

/// The externally visible snapshot: the agreement terms, both parties'
/// current stake and cancellation flags, and the agreement's own address.
#[derive(Debug)]
pub struct ContractStatus {
    pub buyer: String,
    pub seller: String,
    pub sale_price: u128,
    pub state_percent: u64,
    pub seller_percent: u64,
    pub title: String,
    pub description: String,
    pub buyer_stake: bool,
    pub seller_stake: bool,
    pub buyer_cancel: bool,
    pub seller_cancel: bool,
    pub active: bool,
    pub cancelled: bool,
    pub agreement_address: String,
}

/// The snapshot reports the escrow, flag for flag and field for field,
/// with the given address as the agreement's own.
pub open spec fn reflects(s: ContractStatus, esc: Escrow, address: Seq<char>) -> bool {
    &&& s.buyer@ == esc.state.buyer@
    &&& s.seller@ == esc.state.seller@
    &&& s.sale_price == esc.state.sale_price
    &&& s.state_percent == esc.state.state_percent
    &&& s.seller_percent == esc.state.seller_percent
    &&& s.title@ == esc.state.title@
    &&& s.description@ == esc.state.description@
    &&& s.buyer_stake == esc.buyer_stake.posted
    &&& s.seller_stake == esc.seller_stake.posted
    &&& s.buyer_cancel == esc.buyer_cancel.asserted
    &&& s.seller_cancel == esc.seller_cancel.asserted
    &&& s.active == esc.state.is_active
    &&& s.cancelled == esc.state.is_cancelled
    &&& s.agreement_address@ == address
}

/// Assembles the status snapshot. Never fails and mutates nothing.
pub fn query_status(esc: &Escrow, agreement_address: &String) -> (s: ContractStatus)
    ensures
        reflects(s, *esc, agreement_address@),
{
    ContractStatus {
        buyer: esc.state.buyer.clone(),
        seller: esc.state.seller.clone(),
        sale_price: esc.state.sale_price,
        state_percent: esc.state.state_percent,
        seller_percent: esc.state.seller_percent,
        title: esc.state.title.clone(),
        description: esc.state.description.clone(),
        buyer_stake: esc.buyer_stake.posted,
        seller_stake: esc.seller_stake.posted,
        buyer_cancel: esc.buyer_cancel.asserted,
        seller_cancel: esc.seller_cancel.asserted,
        active: esc.state.is_active,
        cancelled: esc.state.is_cancelled,
        agreement_address: agreement_address.clone(),
    }
}

/// Answers a read-only query; the status snapshot is the only one.
pub fn query(esc: &Escrow, agreement_address: &String, msg: &QueryMsg) -> (s: ContractStatus)
    ensures
        reflects(s, *esc, agreement_address@),
{
    match msg {
        QueryMsg::GetStatus {  } => query_status(esc, agreement_address),
    }
}

} // verus!
