//! Message and response types for the vault's operations and queries,
//! over plain values: amounts are `u128`, times are `u64`, identities and
//! token denominations are `String`s. The host environment decodes wire
//! messages into these shapes and encodes the responses.

use vstd::prelude::*;

use crate::lockup::{LockupExecuteMsg, LockupQueryMsg};

verus! {

/// An amount of a named token denomination, as attached to a call in its
/// funds.
#[derive(Debug, PartialEq, Eq)]
pub struct Coin {
    /// The token denomination.
    pub denom: String,
    /// The amount of that token.
    pub amount: u128,
}

/// What a caller sends at instantiation.
#[derive(Debug, PartialEq, Eq)]
pub struct InstantiateMsg {
    /// The token that is accepted for deposits and withdrawals and used
    /// for accounting in the vault.
    pub base_token: String,
}

/// The vault's static configuration.
#[derive(Debug, PartialEq, Eq)]
pub struct Config {
    /// The reserve token the vault accounts in.
    pub base_token: String,
    /// The share token the vault issues.
    pub vault_token: String,
}

/// The default ExecuteMsg variants that all vaults must implement.
#[derive(Debug, PartialEq, Eq)]
pub enum VaultStandardExecuteMsg {
    /// Called to deposit base tokens into the vault.
    Deposit {
        /// The amount of base tokens to deposit.
        amount: u128,
        /// The optional recipient of the vault tokens. If not set, the
        /// caller address is used instead.
        recipient: Option<String>,
    },
    /// Called to redeem vault tokens and receive base tokens back from
    /// the vault. The vault tokens must be passed in the funds.
    Redeem {
        /// An optional recipient of the withdrawn base tokens. If not
        /// set, the caller address is used instead.
        recipient: Option<String>,
        /// The amount of vault tokens sent to the contract.
        amount: u128,
    },
    /// Called to execute functionality of any enabled extensions.
    VaultExtension(ExtensionExecuteMsg),
}

/// Contains the ExecuteMsgs of all enabled extensions.
#[derive(Debug, PartialEq, Eq)]
pub enum ExtensionExecuteMsg {
    /// The lockup extension: deferred redemption.
    Lockup(LockupExecuteMsg),
    /// The force-unlock extension: the whitelisted lockup bypass.
    ForceUnlock(ForceUnlockExecuteMsg),
}

/// Additional ExecuteMsg variants for vaults that enable the ForceUnlock
/// extension.
#[derive(Debug, PartialEq, Eq)]
pub enum ForceUnlockExecuteMsg {
    /// Can be called by whitelisted addresses to bypass the lockup and
    /// immediately redeem, used in the event of liquidation. The caller
    /// must pass the vault tokens in the funds.
    ForceRedeem {
        /// The address which should receive the withdrawn base tokens.
        /// If not set, the caller address is used instead.
        recipient: Option<String>,
        /// The amount of vault tokens to redeem.
        amount: u128,
        /// The denoms of the assets to be withdrawn. If not set, the
        /// vault pays out in its base token; the vault supports no other
        /// asset and returns an error for any other request.
        redeem_into: Option<Vec<String>>,
    },
    /// Force withdraw from a position that is already unlocking (Unlock
    /// has already been called).
    ForceWithdrawUnlocking {
        /// The ID of the unlocking position from which to force withdraw.
        lockup_id: u64,
        /// The optional amount of base tokens to be force withdrawn. If
        /// not set, the entire position is withdrawn and removed.
        amount: Option<u128>,
        /// The address which should receive the withdrawn base tokens.
        /// If not set, they are sent to the caller.
        recipient: Option<String>,
    },
    /// Update the whitelist of addresses that can call ForceRedeem and
    /// ForceWithdrawUnlocking.
    UpdateForceWithdrawWhitelist {
        /// Addresses to add to the whitelist.
        add_addresses: Vec<String>,
        /// Addresses to remove from the whitelist; removal wins over
        /// addition for an address named in both lists.
        remove_addresses: Vec<String>,
    },
}

/// The default QueryMsg variants that all vaults must implement.
#[derive(Debug, PartialEq, Eq)]
pub enum VaultStandardQueryMsg {
    /// Returns `VaultStandardInfoResponse` with information on the
    /// version of the vault standard used as well as any enabled
    /// extensions.
    VaultStandardInfo {},
    /// Returns `VaultInfoResponse` with the vault's token denoms.
    Info {},
    /// Returns the amount of vault tokens a deposit of `amount` base
    /// tokens would mint in the same transaction.
    PreviewDeposit {
        /// The amount of base tokens to preview depositing.
        amount: u128,
    },
    /// Returns the amount of base tokens a redemption of `amount` vault
    /// tokens would pay out in the same transaction.
    PreviewRedeem {
        /// The amount of vault tokens to preview redeeming.
        amount: u128,
    },
    /// Returns the amount of base tokens managed by the vault.
    TotalAssets {},
    /// Returns the total amount of vault tokens in circulation.
    TotalVaultTokenSupply {},
    /// Returns the exchange rate of one vault token quoted in
    /// `quote_denom`, as a fixed-point number scaled by `RATE_SCALE`.
    VaultTokenExchangeRate {
        /// The quote denom to quote the exchange rate in.
        quote_denom: String,
    },
    /// Returns the amount of vault tokens that stand for `amount` base
    /// tokens under the current exchange rate.
    ConvertToShares {
        /// The amount of base tokens to convert to vault tokens.
        amount: u128,
    },
    /// Returns the amount of base tokens that stand for `amount` vault
    /// tokens under the current exchange rate.
    ConvertToAssets {
        /// The amount of vault tokens to convert to base tokens.
        amount: u128,
    },
    /// Handle queries of any enabled extensions.
    VaultExtension(ExtensionQueryMsg),
}

/// Contains the QueryMsgs of all enabled extensions.
#[derive(Debug, PartialEq, Eq)]
pub enum ExtensionQueryMsg {
    /// The lockup extension's queries.
    Lockup(LockupQueryMsg),
}

/// Returned from VaultStandardQueryMsg::VaultStandardInfo with
/// information about the used version of the vault standard and any
/// extensions used.
#[derive(Debug, PartialEq, Eq)]
pub struct VaultStandardInfoResponse {
    /// The version of the vault standard used by the vault, a semver
    /// compliant string.
    pub version: String,
    /// A list of vault standard extensions used by the vault.
    pub extensions: Vec<String>,
}

/// Returned by VaultStandardQueryMsg::Info and contains information
/// about this vault.
#[derive(Debug, PartialEq, Eq)]
pub struct VaultInfoResponse {
    /// The token that is accepted for deposits, withdrawals and used for
    /// accounting in the vault.
    pub base_token: String,
    /// The vault's share token.
    pub vault_token: String,
}

/// Information about the used version of the vault standard, in the
/// numbered form kept for raw storage reads.
#[derive(Debug, PartialEq, Eq)]
pub struct VaultStandardInfo {
    /// The version of the vault standard used, a number.
    pub version: u16,
    /// A list of vault standard extensions used by the vault.
    pub extensions: Vec<String>,
}

} // verus!
