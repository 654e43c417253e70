//! Lockup lifecycle: monotonic ids, the maturity gate, the pinning
//! invariant, partial force-withdrawals and paginated listings.

use cw_vault_standard::error::VaultError;
use cw_vault_standard::lockup::{LockupRegistry, DEFAULT_LIMIT, MAX_LIMIT};
use cw_vault_standard::msg::{Coin, InstantiateMsg};
use cw_vault_standard::vault::{VaultInstruction, VaultState};

fn s(x: &str) -> String {
    x.to_string()
}

fn vault_coin(v: &VaultState, amount: u128) -> Vec<Coin> {
    vec![Coin { denom: v.config.vault_token.clone(), amount }]
}

/// A vault seeded with 1000 shares against 1000 reserve tokens, locking
/// for 3600 seconds.
fn seeded_vault() -> VaultState {
    let mut v = VaultState::instantiate(
        InstantiateMsg { base_token: s("uosmo") },
        &s("osmo1vaultaddr"),
        s("osmo1admin"),
        3600,
    );
    v.deposit(1000, None, &s("seed"), 1000).unwrap();
    v
}

#[test]
fn unlock_burns_shares_and_pins_amount() {
    let mut v = seeded_vault();
    let funds = vault_coin(&v, 100);
    let r = v.unlock(100, &s("alice"), &funds, 1000, 1000).unwrap();
    assert_eq!(r.created_lockup_id, Some(0));
    assert_eq!(r.instructions, vec![VaultInstruction::BurnShares { amount: 100 }]);
    assert_eq!(v.vault_token_supply, 900);
    let p = v.lockups.unlocking_position(0).unwrap();
    assert_eq!(p.id, 0);
    assert_eq!(p.owner, "alice");
    assert_eq!(p.release_at, 4600);
    assert_eq!(p.base_token_amount, 100);
}

#[test]
fn unlock_demands_exact_vault_token_funds() {
    let mut v = seeded_vault();
    // No funds at all.
    let none: Vec<Coin> = vec![];
    assert_eq!(
        v.unlock(100, &s("alice"), &none, 1000, 1000),
        Err(VaultError::InvalidFunds)
    );
    // The wrong token.
    let wrong = vec![Coin { denom: s("uosmo"), amount: 100 }];
    assert_eq!(
        v.unlock(100, &s("alice"), &wrong, 1000, 1000),
        Err(VaultError::InvalidFunds)
    );
    // The wrong amount.
    let short = vault_coin(&v, 99);
    assert_eq!(
        v.unlock(100, &s("alice"), &short, 1000, 1000),
        Err(VaultError::InvalidFunds)
    );
    // Two coins.
    let mut two = vault_coin(&v, 100);
    two.push(Coin { denom: s("uosmo"), amount: 1 });
    assert_eq!(
        v.unlock(100, &s("alice"), &two, 1000, 1000),
        Err(VaultError::InvalidFunds)
    );
    assert_eq!(v.vault_token_supply, 1000);
}

#[test]
fn sequential_unlock_ids_strictly_increase() {
    let mut v = seeded_vault();
    let mut ids: Vec<u64> = vec![];
    for i in 0..3u128 {
        let funds = vault_coin(&v, 10 + i);
        let r = v.unlock(10 + i, &s("alice"), &funds, 1000, 1000).unwrap();
        ids.push(r.created_lockup_id.unwrap());
    }
    assert_eq!(ids, vec![0, 1, 2]);
    // Withdraw one in the middle; the counter does not run backwards.
    v.force_withdraw_unlocking(1, None, None, &s("admin"))
        .unwrap_err();
    v.withdraw_unlocked(1, None, &s("alice"), 5000).unwrap();
    let funds = vault_coin(&v, 7);
    let r = v.unlock(7, &s("alice"), &funds, 1000, 1000).unwrap();
    // The freed id 1 is never reused.
    assert_eq!(r.created_lockup_id, Some(3));
}

#[test]
fn maturity_gate_not_matured_then_exactly_once() {
    let mut v = seeded_vault();
    let funds = vault_coin(&v, 100);
    let id = v
        .unlock(100, &s("alice"), &funds, 1000, 1000)
        .unwrap()
        .created_lockup_id
        .unwrap();
    // One second before the release time.
    assert_eq!(
        v.withdraw_unlocked(id, None, &s("alice"), 4599),
        Err(VaultError::NotMatured)
    );
    // Only the owner may withdraw.
    assert_eq!(
        v.withdraw_unlocked(id, None, &s("mallory"), 4600),
        Err(VaultError::Unauthorized)
    );
    // At the release time it succeeds, exactly once.
    let r = v.withdraw_unlocked(id, None, &s("alice"), 4600).unwrap();
    assert_eq!(
        r.instructions,
        vec![VaultInstruction::TransferReserve { amount: 100, recipient: s("alice") }]
    );
    assert_eq!(
        v.withdraw_unlocked(id, None, &s("alice"), 4600),
        Err(VaultError::NotFound)
    );
}

#[test]
fn withdraw_unknown_id_not_found() {
    let mut v = seeded_vault();
    assert_eq!(
        v.withdraw_unlocked(42, None, &s("alice"), 9999),
        Err(VaultError::NotFound)
    );
}

#[test]
fn payout_is_pinned_at_unlock_time() {
    let mut v = seeded_vault();
    // At unlock time the rate is 1500 reserve / 1000 shares.
    let funds = vault_coin(&v, 100);
    let id = v
        .unlock(100, &s("alice"), &funds, 1000, 1500)
        .unwrap()
        .created_lockup_id
        .unwrap();
    let pinned = 100 * 1500 / 1000;
    assert_eq!(
        v.lockups.unlocking_position(id).unwrap().base_token_amount,
        pinned
    );
    // The reserve then doubles and the supply moves: the payout is
    // still the amount computed at unlock time.
    v.deposit(600, None, &s("bob"), 3600).unwrap();
    let r = v.withdraw_unlocked(id, Some(s("carol")), &s("alice"), 4600).unwrap();
    assert_eq!(
        r.instructions,
        vec![VaultInstruction::TransferReserve { amount: pinned, recipient: s("carol") }]
    );
}

#[test]
fn partial_force_withdraw_keeps_position_in_place() {
    let mut v = seeded_vault();
    let admin = s("osmo1admin");
    let liquidator = s("liq");
    v.update_whitelist(&vec![liquidator.clone()], &vec![], &admin).unwrap();
    let funds = vault_coin(&v, 100);
    let id = v
        .unlock(100, &s("alice"), &funds, 1000, 1000)
        .unwrap()
        .created_lockup_id
        .unwrap();
    // More than the pinned amount is refused.
    assert_eq!(
        v.force_withdraw_unlocking(id, Some(101), None, &liquidator),
        Err(VaultError::InsufficientPosition)
    );
    // A part leaves the remainder in place, same id and release time.
    let r = v.force_withdraw_unlocking(id, Some(40), None, &liquidator).unwrap();
    assert_eq!(
        r.instructions,
        vec![VaultInstruction::TransferReserve { amount: 40, recipient: liquidator.clone() }]
    );
    let p = v.lockups.unlocking_position(id).unwrap();
    assert_eq!(p.base_token_amount, 60);
    assert_eq!(p.release_at, 4600);
    assert_eq!(p.owner, "alice");
    // Without an amount the rest is paid and the position removed,
    // before its release time.
    let r2 = v.force_withdraw_unlocking(id, None, Some(s("dave")), &liquidator).unwrap();
    assert_eq!(
        r2.instructions,
        vec![VaultInstruction::TransferReserve { amount: 60, recipient: s("dave") }]
    );
    assert_eq!(
        v.lockups.unlocking_position(id),
        Err(VaultError::NotFound)
    );
}

#[test]
fn force_withdraw_unknown_id_not_found() {
    let mut v = seeded_vault();
    let admin = s("osmo1admin");
    let liquidator = s("liq");
    v.update_whitelist(&vec![liquidator.clone()], &vec![], &admin).unwrap();
    assert_eq!(
        v.force_withdraw_unlocking(9, None, None, &liquidator),
        Err(VaultError::NotFound)
    );
}

fn registry_with_positions() -> LockupRegistry {
    let mut reg = LockupRegistry::new();
    // alice: ids 0, 2, 4, ...; bob: odd ids.
    for i in 0..12u64 {
        let owner = if i % 2 == 0 { s("alice") } else { s("bob") };
        reg.create_position(owner, 100 + i as u128, 5000 + i);
    }
    reg
}

#[test]
fn listing_filters_by_owner_in_ascending_id_order() {
    let reg = registry_with_positions();
    let page = reg.unlocking_positions(&s("alice"), None, None);
    let ids: Vec<u64> = page.iter().map(|p| p.id).collect();
    assert_eq!(ids, vec![0, 2, 4, 6, 8, 10]);
    for p in &page {
        assert_eq!(p.owner, "alice");
    }
}

#[test]
fn listing_start_after_is_exclusive() {
    let reg = registry_with_positions();
    let page = reg.unlocking_positions(&s("alice"), Some(4), None);
    let ids: Vec<u64> = page.iter().map(|p| p.id).collect();
    assert_eq!(ids, vec![6, 8, 10]);
    // Resuming from the last id seen walks the rest.
    let next = reg.unlocking_positions(&s("alice"), Some(10), None);
    assert!(next.is_empty());
}

#[test]
fn listing_applies_default_and_maximum_limits() {
    let mut reg = LockupRegistry::new();
    for i in 0..40u64 {
        reg.create_position(s("alice"), 1, 5000 + i);
    }
    // The caller's limit.
    assert_eq!(reg.unlocking_positions(&s("alice"), None, Some(5)).len(), 5);
    // No limit: the default.
    assert_eq!(
        reg.unlocking_positions(&s("alice"), None, None).len(),
        DEFAULT_LIMIT as usize
    );
    // An oversized limit is capped.
    assert_eq!(
        reg.unlocking_positions(&s("alice"), None, Some(100)).len(),
        MAX_LIMIT as usize
    );
    // Zero is honoured.
    assert_eq!(reg.unlocking_positions(&s("alice"), None, Some(0)).len(), 0);
}

#[test]
fn listing_of_unknown_owner_is_empty() {
    let reg = registry_with_positions();
    assert!(reg.unlocking_positions(&s("carol"), None, None).is_empty());
}
