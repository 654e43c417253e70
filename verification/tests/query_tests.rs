//! Queries, the execute dispatcher, and instantiation.

use cw_vault_standard::error::VaultError;
use cw_vault_standard::lockup::{LockupExecuteMsg, LockupQueryMsg};
use cw_vault_standard::msg::{
    Coin, ExtensionExecuteMsg, ExtensionQueryMsg, ForceUnlockExecuteMsg, InstantiateMsg,
    VaultStandardExecuteMsg, VaultStandardQueryMsg,
};
use cw_vault_standard::vault::{
    MessageInfo, QueryResponse, VaultInstruction, VaultState, RATE_SCALE,
};

fn s(x: &str) -> String {
    x.to_string()
}

fn fresh_vault() -> VaultState {
    VaultState::instantiate(
        InstantiateMsg { base_token: s("uosmo") },
        &s("osmo1vaultaddr"),
        s("osmo1admin"),
        3600,
    )
}

fn seeded_vault() -> VaultState {
    let mut v = fresh_vault();
    v.deposit(1000, None, &s("seed"), 1000).unwrap();
    v
}

#[test]
fn instantiate_derives_vault_token_denom() {
    let v = fresh_vault();
    assert_eq!(v.config.base_token, "uosmo");
    assert_eq!(v.config.vault_token, "factory/osmo1vaultaddr/vault-token");
    assert_eq!(v.vault_token_supply, 0);
    assert_eq!(v.lockup_duration, 3600);
}

#[test]
fn query_info_returns_token_denoms() {
    let v = fresh_vault();
    let r = v.query(VaultStandardQueryMsg::Info {}, 0).unwrap();
    match r {
        QueryResponse::Info(info) => {
            assert_eq!(info.base_token, "uosmo");
            assert_eq!(info.vault_token, "factory/osmo1vaultaddr/vault-token");
        },
        other => panic!("unexpected response {other:?}"),
    }
}

#[test]
fn query_standard_info_lists_extensions() {
    let v = fresh_vault();
    let r = v.query(VaultStandardQueryMsg::VaultStandardInfo {}, 0).unwrap();
    match r {
        QueryResponse::StandardInfo(info) => {
            assert_eq!(info.version, "1.0.0");
            assert_eq!(info.extensions, vec![s("lockup"), s("force_unlock")]);
        },
        other => panic!("unexpected response {other:?}"),
    }
}

#[test]
fn query_totals_report_snapshot_and_supply() {
    let v = seeded_vault();
    assert_eq!(
        v.query(VaultStandardQueryMsg::TotalAssets {}, 1500),
        Ok(QueryResponse::Amount(1500))
    );
    assert_eq!(
        v.query(VaultStandardQueryMsg::TotalVaultTokenSupply {}, 1500),
        Ok(QueryResponse::Amount(1000))
    );
}

#[test]
fn query_conversions_use_current_rate() {
    let v = seeded_vault();
    // 1000 shares against 1500 reserve.
    assert_eq!(
        v.query(VaultStandardQueryMsg::ConvertToShares { amount: 300 }, 1500),
        Ok(QueryResponse::Amount(200))
    );
    assert_eq!(
        v.query(VaultStandardQueryMsg::ConvertToAssets { amount: 200 }, 1500),
        Ok(QueryResponse::Amount(300))
    );
    assert_eq!(
        v.query(VaultStandardQueryMsg::PreviewDeposit { amount: 300 }, 1500),
        Ok(QueryResponse::Amount(200))
    );
    assert_eq!(
        v.query(VaultStandardQueryMsg::PreviewRedeem { amount: 200 }, 1500),
        Ok(QueryResponse::Amount(300))
    );
}

#[test]
fn query_exchange_rate_scaled_and_gated() {
    let v = seeded_vault();
    // 1500 reserve over 1000 shares: 1.5, scaled.
    assert_eq!(
        v.query(
            VaultStandardQueryMsg::VaultTokenExchangeRate { quote_denom: s("uosmo") },
            1500
        ),
        Ok(QueryResponse::ExchangeRate(RATE_SCALE / 2 * 3))
    );
    // A foreign quote denom is not offered.
    assert_eq!(
        v.query(
            VaultStandardQueryMsg::VaultTokenExchangeRate { quote_denom: s("uatom") },
            1500
        ),
        Err(VaultError::DenomUnsupported)
    );
    // An empty vault quotes 1:1.
    let empty = fresh_vault();
    assert_eq!(
        empty.query(
            VaultStandardQueryMsg::VaultTokenExchangeRate { quote_denom: s("uosmo") },
            0
        ),
        Ok(QueryResponse::ExchangeRate(RATE_SCALE))
    );
    // A reserve too large to scale is reported as overflow.
    assert_eq!(
        v.query(
            VaultStandardQueryMsg::VaultTokenExchangeRate { quote_denom: s("uosmo") },
            u128::MAX / RATE_SCALE + 1
        ),
        Err(VaultError::ArithmeticOverflow)
    );
}

#[test]
fn query_unlocking_positions_through_dispatcher() {
    let mut v = seeded_vault();
    let funds = vec![Coin { denom: v.config.vault_token.clone(), amount: 100 }];
    let id = v
        .unlock(100, &s("alice"), &funds, 1000, 1000)
        .unwrap()
        .created_lockup_id
        .unwrap();
    let r = v
        .query(
            VaultStandardQueryMsg::VaultExtension(ExtensionQueryMsg::Lockup(
                LockupQueryMsg::UnlockingPositions {
                    owner: s("alice"),
                    start_after: None,
                    limit: None,
                },
            )),
            1000,
        )
        .unwrap();
    match r {
        QueryResponse::Positions(ps) => {
            assert_eq!(ps.len(), 1);
            assert_eq!(ps[0].id, id);
            assert_eq!(ps[0].owner, "alice");
        },
        other => panic!("unexpected response {other:?}"),
    }
    let single = v
        .query(
            VaultStandardQueryMsg::VaultExtension(ExtensionQueryMsg::Lockup(
                LockupQueryMsg::UnlockingPosition { lockup_id: id },
            )),
            1000,
        )
        .unwrap();
    match single {
        QueryResponse::Position(p) => assert_eq!(p.base_token_amount, 100),
        other => panic!("unexpected response {other:?}"),
    }
    assert_eq!(
        v.query(
            VaultStandardQueryMsg::VaultExtension(ExtensionQueryMsg::Lockup(
                LockupQueryMsg::UnlockingPosition { lockup_id: 99 },
            )),
            1000,
        ),
        Err(VaultError::NotFound)
    );
    assert_eq!(
        v.query(
            VaultStandardQueryMsg::VaultExtension(ExtensionQueryMsg::Lockup(
                LockupQueryMsg::LockupDuration {},
            )),
            1000,
        ),
        Ok(QueryResponse::Duration(3600))
    );
}

#[test]
fn execute_dispatches_deposit_and_redeem() {
    let mut v = fresh_vault();
    let info = MessageInfo { sender: s("alice"), funds: vec![] };
    let r = v
        .execute(
            VaultStandardExecuteMsg::Deposit { amount: 500, recipient: Some(s("bob")) },
            info,
            1000,
            500,
        )
        .unwrap();
    assert_eq!(
        r.instructions,
        vec![
            VaultInstruction::MintShares { amount: 500 },
            VaultInstruction::TransferShares { amount: 500, recipient: s("bob") },
        ]
    );
    assert_eq!(v.vault_token_supply, 500);

    let funds = vec![Coin { denom: v.config.vault_token.clone(), amount: 200 }];
    let info = MessageInfo { sender: s("bob"), funds };
    let r = v
        .execute(
            VaultStandardExecuteMsg::Redeem { recipient: None, amount: 200 },
            info,
            1000,
            500,
        )
        .unwrap();
    assert_eq!(
        r.instructions,
        vec![
            VaultInstruction::BurnShares { amount: 200 },
            VaultInstruction::TransferReserve { amount: 200, recipient: s("bob") },
        ]
    );
    assert_eq!(v.vault_token_supply, 300);
}

#[test]
fn execute_dispatches_lockup_and_force_unlock() {
    let mut v = seeded_vault();
    let admin_info = MessageInfo { sender: s("osmo1admin"), funds: vec![] };
    v.execute(
        VaultStandardExecuteMsg::VaultExtension(ExtensionExecuteMsg::ForceUnlock(
            ForceUnlockExecuteMsg::UpdateForceWithdrawWhitelist {
                add_addresses: vec![s("liq")],
                remove_addresses: vec![],
            },
        )),
        admin_info,
        1000,
        1000,
    )
    .unwrap();

    let funds = vec![Coin { denom: v.config.vault_token.clone(), amount: 100 }];
    let info = MessageInfo { sender: s("alice"), funds };
    let r = v
        .execute(
            VaultStandardExecuteMsg::VaultExtension(ExtensionExecuteMsg::Lockup(
                LockupExecuteMsg::Unlock { amount: 100 },
            )),
            info,
            1000,
            1000,
        )
        .unwrap();
    let id = r.created_lockup_id.unwrap();
    assert_eq!(id, 0);

    let info = MessageInfo { sender: s("liq"), funds: vec![] };
    let r = v
        .execute(
            VaultStandardExecuteMsg::VaultExtension(ExtensionExecuteMsg::ForceUnlock(
                ForceUnlockExecuteMsg::ForceWithdrawUnlocking {
                    lockup_id: id,
                    amount: Some(30),
                    recipient: None,
                },
            )),
            info,
            1000,
            1000,
        )
        .unwrap();
    assert_eq!(
        r.instructions,
        vec![VaultInstruction::TransferReserve { amount: 30, recipient: s("liq") }]
    );

    let info = MessageInfo { sender: s("alice"), funds: vec![] };
    let r = v
        .execute(
            VaultStandardExecuteMsg::VaultExtension(ExtensionExecuteMsg::Lockup(
                LockupExecuteMsg::WithdrawUnlocked { recipient: None, lockup_id: id },
            )),
            info,
            4600,
            1000,
        )
        .unwrap();
    assert_eq!(
        r.instructions,
        vec![VaultInstruction::TransferReserve { amount: 70, recipient: s("alice") }]
    );
}

#[test]
fn deposit_overflow_paths_report_errors() {
    let mut v = fresh_vault();
    // The reported balance cannot be below the deposit to deduct.
    assert_eq!(
        v.deposit(100, None, &s("alice"), 50),
        Err(VaultError::ArithmeticOverflow)
    );
    // A ratio multiplication that leaves u128.
    let mut big = fresh_vault();
    big.deposit(u128::MAX / 2, None, &s("alice"), u128::MAX / 2).unwrap();
    assert_eq!(
        big.deposit(u128::MAX / 2, None, &s("alice"), u128::MAX - 1),
        Err(VaultError::ArithmeticOverflow)
    );
}

#[test]
fn redeem_more_than_supply_reports_overflow() {
    let mut v = seeded_vault();
    let funds = vec![Coin { denom: v.config.vault_token.clone(), amount: 2000 }];
    assert_eq!(
        v.redeem(2000, None, &s("alice"), &funds, 4000),
        Err(VaultError::ArithmeticOverflow)
    );
}
