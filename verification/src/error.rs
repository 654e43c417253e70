use vstd::prelude::*;

verus! {

/// Errors returned by the vault's operations.
///
/// Every failure path is synchronous and observable to the caller; an
/// error aborts the whole operation with no partial state change.
#[derive(Clone, Copy, Debug, PartialEq, Eq, Structural)]
pub enum VaultError {
    /// The caller supplied the wrong token or the wrong amount of funds.
    InvalidFunds,
    /// An intermediate computation exceeded the numeric range.
    ArithmeticOverflow,
    /// The whitelist, owner or admin check failed.
    Unauthorized,
    /// No unlocking position exists under the given lockup id.
    NotFound,
    /// The unlocking position has not reached its release time yet.
    NotMatured,
    /// A partial force-withdraw asked for more than the position holds.
    InsufficientPosition,
    /// The requested redeem-into or quote asset is not offered by the vault.
    DenomUnsupported,
}

} // verus!
