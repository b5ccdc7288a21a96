use escrow::{
    execute, execute_cancel, execute_confirm, execute_revoke_cancellation, execute_revoke_stake,
    execute_stake, execute_stake_with_babylon, instantiate, query, query_status, role, BabylonMsg,
    Escrow, EscrowError, ExecuteMsg, InstantiateMsg, QueryMsg, Role, SettlementInstruction,
};

fn msg_with(buyer: &str, seller: &str, price: u128, buyer_pct: u64, seller_pct: u64) -> InstantiateMsg {
    InstantiateMsg {
        buyer: buyer.to_string(),
        seller: seller.to_string(),
        sale_price: price,
        state_percent: buyer_pct,
        seller_percent: seller_pct,
        title: "sale of one boat".to_string(),
        description: "as seen".to_string(),
    }
}

fn fresh_escrow() -> Escrow {
    instantiate(msg_with("alice", "bob", 1000, 10, 20)).unwrap()
}

#[test]
fn creation_rejects_same_party() {
    let r = instantiate(msg_with("alice", "alice", 1000, 10, 20));
    assert_eq!(r.unwrap_err(), EscrowError::InvalidAgreement);
}

#[test]
fn creation_computes_stake_amounts() {
    let e = fresh_escrow();
    assert_eq!(e.buyer_stake.amount, 100);
    assert_eq!(e.seller_stake.amount, 200);
    assert!(!e.buyer_stake.posted);
    assert!(!e.seller_stake.posted);
    assert!(!e.buyer_cancel.asserted);
    assert!(!e.seller_cancel.asserted);
    assert!(e.state.is_active);
    assert!(!e.state.is_cancelled);
}

#[test]
fn creation_truncates_stake_amounts() {
    let e = instantiate(msg_with("alice", "bob", 999, 10, 33)).unwrap();
    assert_eq!(e.buyer_stake.amount, 99);
    assert_eq!(e.seller_stake.amount, 329);
}

#[test]
fn creation_handles_extreme_percentages() {
    let e = instantiate(msg_with("alice", "bob", 12345, 0, 100)).unwrap();
    assert_eq!(e.buyer_stake.amount, 0);
    assert_eq!(e.seller_stake.amount, 12345);
}

#[test]
fn creation_handles_huge_price_without_overflow() {
    let e = instantiate(msg_with("alice", "bob", u128::MAX, 100, 0)).unwrap();
    assert_eq!(e.buyer_stake.amount, u128::MAX);
    assert_eq!(e.seller_stake.amount, 0);
    let e = instantiate(msg_with(
        "alice",
        "bob",
        170141183460469231731687303715884105728,
        10,
        20,
    ))
    .unwrap();
    assert_eq!(e.buyer_stake.amount, 17014118346046923173168730371588410572);
    assert_eq!(e.seller_stake.amount, 34028236692093846346337460743176821145);
}

#[test]
fn role_resolution() {
    let e = fresh_escrow();
    assert_eq!(role(&e.state, &"alice".to_string()), Role::Buyer);
    assert_eq!(role(&e.state, &"bob".to_string()), Role::Seller);
    assert_eq!(role(&e.state, &"carol".to_string()), Role::Outsider);
}

fn assert_unchanged_fresh(e: &Escrow) {
    let s = query_status(e, &"contract".to_string());
    assert!(!s.buyer_stake);
    assert!(!s.seller_stake);
    assert!(!s.buyer_cancel);
    assert!(!s.seller_cancel);
    assert_eq!(s.sale_price, 1000);
}

#[test]
fn outsiders_are_turned_away_from_every_transition() {
    let carol = "carol".to_string();
    let requests = vec![
        ExecuteMsg::Stake {},
        ExecuteMsg::RevokeStake {},
        ExecuteMsg::Cancel {},
        ExecuteMsg::RevokeCancellation {},
        ExecuteMsg::Confirm {},
        ExecuteMsg::StakeWithBabylon {
            babylon_stake_token: "token".to_string(),
            amount: 5,
        },
    ];
    for req in requests {
        let mut e = fresh_escrow();
        let r = execute(&mut e, &carol, req);
        assert_eq!(r.unwrap_err(), EscrowError::Unauthorized);
        assert_unchanged_fresh(&e);
    }
}

#[test]
fn stake_posts_and_demands_deposit() {
    let mut e = fresh_escrow();
    let v = execute_stake(&mut e, &"bob".to_string()).unwrap();
    assert!(e.seller_stake.posted);
    assert!(!e.buyer_stake.posted);
    assert_eq!(v.len(), 1);
    match &v[0] {
        SettlementInstruction::Deposit { from, amount, denom } => {
            assert_eq!(from, "bob");
            assert_eq!(*amount, 200);
            assert_eq!(denom, "ujuno");
        }
        other => panic!("expected a deposit instruction, got {:?}", other),
    }
}

#[test]
fn revoke_stake_refunds_and_then_fails_again() {
    let mut e = fresh_escrow();
    execute_stake(&mut e, &"alice".to_string()).unwrap();
    let v = execute_revoke_stake(&mut e, &"alice".to_string()).unwrap();
    assert!(!e.buyer_stake.posted);
    assert_eq!(v.len(), 1);
    match &v[0] {
        SettlementInstruction::Pay { to, amount, denom } => {
            assert_eq!(to, "alice");
            assert_eq!(*amount, 100);
            assert_eq!(denom, "ujuno");
        }
        other => panic!("expected a refund instruction, got {:?}", other),
    }
    let second = execute_revoke_stake(&mut e, &"alice".to_string());
    assert_eq!(second.unwrap_err(), EscrowError::NoStakeToRevoke);
}

#[test]
fn revoke_stake_without_stake_fails() {
    let mut e = fresh_escrow();
    let r = execute_revoke_stake(&mut e, &"bob".to_string());
    assert_eq!(r.unwrap_err(), EscrowError::NoStakeToRevoke);
    assert_unchanged_fresh(&e);
}

#[test]
fn cancel_round_trip() {
    let mut e = fresh_escrow();
    execute_cancel(&mut e, &"alice".to_string()).unwrap();
    assert!(e.buyer_cancel.asserted);
    assert!(!e.seller_cancel.asserted);
    execute_revoke_cancellation(&mut e, &"alice".to_string()).unwrap();
    assert!(!e.buyer_cancel.asserted);
    assert_unchanged_fresh(&e);
}

#[test]
fn cancel_is_idempotent() {
    let mut e = fresh_escrow();
    execute_cancel(&mut e, &"bob".to_string()).unwrap();
    execute_cancel(&mut e, &"bob".to_string()).unwrap();
    assert!(e.seller_cancel.asserted);
    execute_revoke_cancellation(&mut e, &"bob".to_string()).unwrap();
    assert!(!e.seller_cancel.asserted);
}

#[test]
fn revoke_cancellation_without_cancel_fails() {
    let mut e = fresh_escrow();
    let r = execute_revoke_cancellation(&mut e, &"bob".to_string());
    assert_eq!(r.unwrap_err(), EscrowError::NoCancellationToRevoke);
    assert_unchanged_fresh(&e);
}

#[test]
fn confirm_requires_both_stakes() {
    let mut e = fresh_escrow();
    let r = execute_confirm(&mut e, &"alice".to_string());
    assert_eq!(r.unwrap_err(), EscrowError::StakeIncomplete);
    execute_stake(&mut e, &"alice".to_string()).unwrap();
    let r = execute_confirm(&mut e, &"alice".to_string());
    assert_eq!(r.unwrap_err(), EscrowError::StakeIncomplete);
    execute_stake(&mut e, &"bob".to_string()).unwrap();
    let v = execute_confirm(&mut e, &"alice".to_string()).unwrap();
    assert!(v.is_empty());
    let v = execute_confirm(&mut e, &"bob".to_string()).unwrap();
    assert!(v.is_empty());
}

#[test]
fn stake_with_babylon_requests_attestation_and_posts() {
    let mut e = fresh_escrow();
    let v = execute_stake_with_babylon(&mut e, &"alice".to_string(), "token-7".to_string(), 42)
        .unwrap();
    assert!(e.buyer_stake.posted);
    assert_eq!(v.len(), 1);
    match &v[0] {
        SettlementInstruction::CallExternal { contract, msg } => {
            assert_eq!(contract, "babylon_staking_contract_address");
            match msg {
                BabylonMsg::VerifyStake { user, amount } => {
                    assert_eq!(user, "alice");
                    assert_eq!(*amount, 42);
                }
            }
        }
        other => panic!("expected an attestation call, got {:?}", other),
    }
}

#[test]
fn execute_dispatches_each_request() {
    let mut e = fresh_escrow();
    let alice = "alice".to_string();
    let bob = "bob".to_string();
    execute(&mut e, &alice, ExecuteMsg::Stake {}).unwrap();
    assert!(e.buyer_stake.posted);
    execute(
        &mut e,
        &bob,
        ExecuteMsg::StakeWithBabylon {
            babylon_stake_token: "token".to_string(),
            amount: 9,
        },
    )
    .unwrap();
    assert!(e.seller_stake.posted);
    execute(&mut e, &alice, ExecuteMsg::Confirm {}).unwrap();
    execute(&mut e, &bob, ExecuteMsg::Cancel {}).unwrap();
    assert!(e.seller_cancel.asserted);
    execute(&mut e, &bob, ExecuteMsg::RevokeCancellation {}).unwrap();
    assert!(!e.seller_cancel.asserted);
    let v = execute(&mut e, &alice, ExecuteMsg::RevokeStake {}).unwrap();
    assert!(!e.buyer_stake.posted);
    assert_eq!(v.len(), 1);
}

#[test]
fn status_reports_every_field() {
    let mut e = fresh_escrow();
    execute_stake(&mut e, &"alice".to_string()).unwrap();
    execute_cancel(&mut e, &"bob".to_string()).unwrap();
    let s = query(&e, &"contract-address".to_string(), &QueryMsg::GetStatus {});
    assert_eq!(s.buyer, "alice");
    assert_eq!(s.seller, "bob");
    assert_eq!(s.sale_price, 1000);
    assert_eq!(s.state_percent, 10);
    assert_eq!(s.seller_percent, 20);
    assert_eq!(s.title, "sale of one boat");
    assert_eq!(s.description, "as seen");
    assert!(s.buyer_stake);
    assert!(!s.seller_stake);
    assert!(!s.buyer_cancel);
    assert!(s.seller_cancel);
    assert!(s.active);
    assert!(!s.cancelled);
    assert_eq!(s.agreement_address, "contract-address");
}

#[test]
fn end_to_end_scenario() {
    let alice = "alice".to_string();
    let bob = "bob".to_string();
    let mut e = instantiate(msg_with("alice", "bob", 1000, 10, 20)).unwrap();
    assert_eq!(e.buyer_stake.amount, 100);
    assert_eq!(e.seller_stake.amount, 200);

    execute_stake(&mut e, &alice).unwrap();
    let r = execute_confirm(&mut e, &alice);
    assert_eq!(r.unwrap_err(), EscrowError::StakeIncomplete);

    execute_stake(&mut e, &bob).unwrap();
    execute_confirm(&mut e, &alice).unwrap();
    execute_confirm(&mut e, &bob).unwrap();

    let v = execute_revoke_stake(&mut e, &bob).unwrap();
    match &v[0] {
        SettlementInstruction::Pay { to, amount, denom } => {
            assert_eq!(to, "bob");
            assert_eq!(*amount, 200);
            assert_eq!(denom, "ujuno");
        }
        other => panic!("expected a refund instruction, got {:?}", other),
    }
    assert!(!e.seller_stake.posted);
    assert!(e.buyer_stake.posted);
}
