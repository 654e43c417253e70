//! The whitelist gate: who may force-redeem and force-withdraw, and how
//! the admin changes the set.

use cw_vault_standard::error::VaultError;
use cw_vault_standard::msg::{Coin, InstantiateMsg};
use cw_vault_standard::vault::{VaultInstruction, VaultState};
use cw_vault_standard::whitelist::WhitelistStore;

fn s(x: &str) -> String {
    x.to_string()
}

fn vault_coin(v: &VaultState, amount: u128) -> Vec<Coin> {
    vec![Coin { denom: v.config.vault_token.clone(), amount }]
}

fn seeded_vault() -> VaultState {
    let mut v = VaultState::instantiate(
        InstantiateMsg { base_token: s("uosmo") },
        &s("osmo1vaultaddr"),
        s("osmo1admin"),
        3600,
    );
    v.deposit(1000, None, &s("seed"), 1000).unwrap();
    v
}

#[test]
fn force_redeem_gated_on_whitelist() {
    let mut v = seeded_vault();
    let funds = vault_coin(&v, 100);
    // A non-whitelisted caller is refused, funds or not.
    assert_eq!(
        v.force_redeem(100, None, None, &s("liq"), &funds, 1000),
        Err(VaultError::Unauthorized)
    );
    // Whitelisted, the call behaves exactly like an immediate redeem.
    v.update_whitelist(&vec![s("liq")], &vec![], &s("osmo1admin")).unwrap();
    let r = v.force_redeem(100, None, None, &s("liq"), &funds, 1000).unwrap();
    assert_eq!(
        r.instructions,
        vec![
            VaultInstruction::BurnShares { amount: 100 },
            VaultInstruction::TransferReserve { amount: 100, recipient: s("liq") },
        ]
    );
    assert_eq!(v.vault_token_supply, 900);
    assert_eq!(r.created_lockup_id, None);
}

#[test]
fn force_redeem_still_checks_funds() {
    let mut v = seeded_vault();
    v.update_whitelist(&vec![s("liq")], &vec![], &s("osmo1admin")).unwrap();
    let wrong = vec![Coin { denom: s("uosmo"), amount: 100 }];
    assert_eq!(
        v.force_redeem(100, None, None, &s("liq"), &wrong, 1000),
        Err(VaultError::InvalidFunds)
    );
}

#[test]
fn force_redeem_into_foreign_denom_unsupported() {
    let mut v = seeded_vault();
    v.update_whitelist(&vec![s("liq")], &vec![], &s("osmo1admin")).unwrap();
    let funds = vault_coin(&v, 100);
    assert_eq!(
        v.force_redeem(100, None, Some(vec![s("uatom")]), &s("liq"), &funds, 1000),
        Err(VaultError::DenomUnsupported)
    );
    // The vault's own base token is accepted.
    let r = v
        .force_redeem(100, None, Some(vec![s("uosmo")]), &s("liq"), &funds, 1000)
        .unwrap();
    assert_eq!(r.instructions.len(), 2);
}

#[test]
fn force_withdraw_unlocking_gated_on_whitelist() {
    let mut v = seeded_vault();
    let funds = vault_coin(&v, 100);
    let id = v
        .unlock(100, &s("alice"), &funds, 1000, 1000)
        .unwrap()
        .created_lockup_id
        .unwrap();
    // Even the position's owner cannot force without the whitelist.
    assert_eq!(
        v.force_withdraw_unlocking(id, None, None, &s("alice")),
        Err(VaultError::Unauthorized)
    );
    v.update_whitelist(&vec![s("liq")], &vec![], &s("osmo1admin")).unwrap();
    let r = v.force_withdraw_unlocking(id, None, None, &s("liq")).unwrap();
    assert_eq!(
        r.instructions,
        vec![VaultInstruction::TransferReserve { amount: 100, recipient: s("liq") }]
    );
}

#[test]
fn whitelist_update_admin_only() {
    let mut v = seeded_vault();
    assert_eq!(
        v.update_whitelist(&vec![s("liq")], &vec![], &s("mallory")),
        Err(VaultError::Unauthorized)
    );
    // The refused update changed nothing.
    let funds = vault_coin(&v, 10);
    assert_eq!(
        v.force_redeem(10, None, None, &s("liq"), &funds, 1000),
        Err(VaultError::Unauthorized)
    );
}

#[test]
fn whitelist_changes_observed_by_subsequent_calls() {
    let mut v = seeded_vault();
    let admin = s("osmo1admin");
    v.update_whitelist(&vec![s("liq")], &vec![], &admin).unwrap();
    let funds = vault_coin(&v, 10);
    assert!(v.force_redeem(10, None, None, &s("liq"), &funds, 1000).is_ok());
    // Removal is observed too.
    v.update_whitelist(&vec![], &vec![s("liq")], &admin).unwrap();
    assert_eq!(
        v.force_redeem(10, None, None, &s("liq"), &funds, 990),
        Err(VaultError::Unauthorized)
    );
}

#[test]
fn whitelist_remove_wins_over_add_in_one_call() {
    let mut v = seeded_vault();
    let admin = s("osmo1admin");
    v.update_whitelist(&vec![s("liq")], &vec![s("liq")], &admin).unwrap();
    let funds = vault_coin(&v, 10);
    assert_eq!(
        v.force_redeem(10, None, None, &s("liq"), &funds, 1000),
        Err(VaultError::Unauthorized)
    );
    // An address already present and named in both lists is removed.
    v.update_whitelist(&vec![s("liq")], &vec![], &admin).unwrap();
    v.update_whitelist(&vec![s("liq")], &vec![s("liq")], &admin).unwrap();
    assert_eq!(
        v.force_redeem(10, None, None, &s("liq"), &funds, 1000),
        Err(VaultError::Unauthorized)
    );
}

#[test]
fn whitelist_store_membership() {
    let mut wl = WhitelistStore::new(s("admin"));
    assert!(!wl.is_whitelisted(&s("a")));
    wl.update(&s("admin"), &vec![s("a"), s("b")], &vec![]).unwrap();
    assert!(wl.is_whitelisted(&s("a")));
    assert!(wl.is_whitelisted(&s("b")));
    assert!(!wl.is_whitelisted(&s("c")));
    // Adding an address twice then removing it once removes it.
    wl.update(&s("admin"), &vec![s("a")], &vec![]).unwrap();
    wl.update(&s("admin"), &vec![], &vec![s("a")]).unwrap();
    assert!(!wl.is_whitelisted(&s("a")));
    assert!(wl.is_whitelisted(&s("b")));
}
