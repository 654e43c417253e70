//! The vault core: orchestrates share accounting, the lockup registry
//! and the whitelist for the public operations and the whitelisted
//! overrides, enforcing authorization and invariants and emitting the
//! mint/burn/transfer instructions that the external token-movement
//! collaborator settles after the call returns.
//!
//! Every operation works against a pre-operation oracle snapshot
//! (`total_staked_bt`, the vault's reserve balance, and `now`, the
//! clock) taken once per call and handed in as plain values; an
//! operation either completes or fails with no partial state change.

use vstd::prelude::*;
use vstd::string::*;

use crate::error::VaultError;
use crate::lockup::{
    spec_effective_limit, spec_has_id, spec_index_of_id, spec_page, spec_position_of_id,
    LockupExecuteMsg, LockupQueryMsg, LockupRegistry, UnlockingPosition,
};
use crate::msg::{
    Coin, Config, ExtensionExecuteMsg, ExtensionQueryMsg, ForceUnlockExecuteMsg, InstantiateMsg,
    VaultInfoResponse, VaultStandardExecuteMsg, VaultStandardInfoResponse, VaultStandardQueryMsg,
};
use crate::shares::{
    calculate_base_tokens, calculate_vault_tokens, spec_base_tokens, spec_vault_tokens,
};
use crate::whitelist::{spec_contains_name, WhitelistStore};

verus! {

/// Exchange rates are fixed-point numbers scaled by this constant: a
/// rate of `RATE_SCALE` means one vault token trades 1:1 for one base
/// token.
pub const RATE_SCALE: u128 = 1_000_000_000_000_000_000;

/// One instruction to the external token-movement collaborator. The
/// collaborator settles emitted instructions after the operation
/// returns; the vault computes its state optimistically and never
/// re-reads its own just-emitted effects.
#[derive(Debug, PartialEq, Eq)]
pub enum VaultInstruction {
    /// Mint `amount` new vault tokens to the vault itself.
    MintShares {
        /// The amount of vault tokens to mint.
        amount: u128,
    },
    /// Send `amount` vault tokens held by the vault to `recipient`.
    TransferShares {
        /// The amount of vault tokens to send.
        amount: u128,
        /// The receiving address.
        recipient: String,
    },
    /// Burn `amount` vault tokens held by the vault.
    BurnShares {
        /// The amount of vault tokens to burn.
        amount: u128,
    },
    /// Send `amount` base tokens to `recipient`.
    TransferReserve {
        /// The amount of base tokens to send.
        amount: u128,
        /// The receiving address.
        recipient: String,
    },
}

/// What a successful operation hands back: the outbound instruction
/// queue, and the id of the position a successful `Unlock` created.
#[derive(Debug, PartialEq, Eq)]
pub struct ExecuteResponse {
    /// The emitted instructions, in order.
    pub instructions: Vec<VaultInstruction>,
    /// The id of the new unlocking position, on `Unlock` alone.
    pub created_lockup_id: Option<u64>,
}

/// A query's answer, as plain values.
#[derive(Debug, PartialEq, Eq)]
pub enum QueryResponse {
    /// The vault standard version and extensions.
    StandardInfo(VaultStandardInfoResponse),
    /// The vault's token denominations.
    Info(VaultInfoResponse),
    /// A plain token amount.
    Amount(u128),
    /// An exchange rate, scaled by `RATE_SCALE`.
    ExchangeRate(u128),
    /// A page of unlocking positions.
    Positions(Vec<UnlockingPosition>),
    /// A single unlocking position.
    Position(UnlockingPosition),
    /// A lockup duration, in seconds.
    Duration(u64),
}

/// The caller's identity and the funds attached to the call.
#[derive(Debug, PartialEq, Eq)]
pub struct MessageInfo {
    /// The calling address.
    pub sender: String,
    /// The coins sent along with the call.
    pub funds: Vec<Coin>,
}

/// The whole state of one vault.
pub struct VaultState {
    /// The vault's token denominations.
    pub config: Config,
    /// The total amount of vault tokens outstanding.
    pub vault_token_supply: u128,
    /// How long a new unlocking position takes to mature, in seconds.
    pub lockup_duration: u64,
    /// The pending unlocking positions.
    pub lockups: LockupRegistry,
    /// The addresses allowed to bypass the lockup.
    pub whitelist: WhitelistStore,
}

/// The address a payout goes to: the named recipient, or the caller.
pub open spec fn spec_recipient(recipient: Option<String>, sender: Seq<char>) -> Seq<char> {
    match recipient {
        Option::Some(r) => r@,
        Option::None => sender,
    }
}

/// Whether `funds` is exactly one coin of `denom` over `amount`: what
/// `Redeem`, `Unlock` and `ForceRedeem` demand of their callers.
pub open spec fn spec_funds_exact(funds: Seq<Coin>, denom: Seq<char>, amount: int) -> bool {
    &&& funds.len() == 1
    &&& funds[0].denom@ == denom
    &&& funds[0].amount == amount
}

/// Whether `ins` mints `amount` vault tokens.
pub open spec fn spec_is_mint_shares(ins: VaultInstruction, amount: int) -> bool {
    ins matches VaultInstruction::MintShares { amount: a } && a == amount
}

/// Whether `ins` sends `amount` vault tokens to `to`.
pub open spec fn spec_is_transfer_shares(ins: VaultInstruction, amount: int, to: Seq<char>) -> bool {
    ins matches VaultInstruction::TransferShares { amount: a, recipient: rc } && a == amount && rc@
        == to
}

/// Whether `ins` burns `amount` vault tokens.
pub open spec fn spec_is_burn_shares(ins: VaultInstruction, amount: int) -> bool {
    ins matches VaultInstruction::BurnShares { amount: a } && a == amount
}

/// Whether `ins` sends `amount` base tokens to `to`.
pub open spec fn spec_is_transfer_reserve(ins: VaultInstruction, amount: int, to: Seq<char>) -> bool {
    ins matches VaultInstruction::TransferReserve { amount: a, recipient: rc } && a == amount && rc@
        == to
}

/// Everything but the vault token supply is untouched.
pub open spec fn spec_only_supply_changed(pre: VaultState, post: VaultState) -> bool {
    &&& post.config == pre.config
    &&& post.lockup_duration == pre.lockup_duration
    &&& post.lockups == pre.lockups
    &&& post.whitelist == pre.whitelist
}

/// Everything but the lockup registry's positions is untouched; the id
/// counter never moves backwards.
pub open spec fn spec_only_positions_changed(pre: VaultState, post: VaultState) -> bool {
    &&& post.config == pre.config
    &&& post.lockup_duration == pre.lockup_duration
    &&& post.vault_token_supply == pre.vault_token_supply
    &&& post.lockups.next_id == pre.lockups.next_id
    &&& post.whitelist == pre.whitelist
}

/// What `deposit` does: minting `spec_vault_tokens` of the amount at the
/// pre-deposit exchange rate (the deposit itself is already part of the
/// reported balance and is deducted first), growing the supply by the
/// same amount, and emitting a mint of the new vault tokens and their
/// transfer to the recipient. Fails only on numeric overflow: when the
/// reported balance is below the deposit, when the ratio multiplication
/// leaves `u128`, or when the supply would.
pub open spec fn spec_deposit_result(
    pre: VaultState,
    post: VaultState,
    r: Result<ExecuteResponse, VaultError>,
    amount: u128,
    recipient: Option<String>,
    sender: String,
    total_staked_bt: u128,
) -> bool {
    let minted = spec_vault_tokens(
        amount as int,
        pre.vault_token_supply as int,
        total_staked_bt - amount,
    );
    let overflow = (total_staked_bt < amount) || (pre.vault_token_supply != 0 && total_staked_bt
        - amount != 0 && amount * pre.vault_token_supply > u128::MAX) || (pre.vault_token_supply
        + minted > u128::MAX);
    if overflow {
        &&& r == Err::<ExecuteResponse, VaultError>(VaultError::ArithmeticOverflow)
        &&& post == pre
    } else {
        &&& r is Ok
        &&& (r->Ok_0).created_lockup_id is None
        &&& (r->Ok_0).instructions@.len() == 2
        &&& spec_is_mint_shares((r->Ok_0).instructions@[0], minted)
        &&& spec_is_transfer_shares(
            (r->Ok_0).instructions@[1],
            minted,
            spec_recipient(recipient, sender@),
        )
        &&& post.vault_token_supply == pre.vault_token_supply + minted
        &&& spec_only_supply_changed(pre, post)
    }
}

/// What `redeem` does: demanding the redeemed vault tokens as the only
/// attached funds, paying out `spec_base_tokens` of the amount at the
/// current exchange rate, shrinking the supply, and emitting a burn of
/// the vault tokens and the transfer of the payout.
pub open spec fn spec_redeem_result(
    pre: VaultState,
    post: VaultState,
    r: Result<ExecuteResponse, VaultError>,
    amount: u128,
    recipient: Option<String>,
    sender: String,
    funds: Seq<Coin>,
    total_staked_bt: u128,
) -> bool {
    let payout = spec_base_tokens(
        amount as int,
        pre.vault_token_supply as int,
        total_staked_bt as int,
    );
    if !spec_funds_exact(funds, pre.config.vault_token@, amount as int) {
        &&& r == Err::<ExecuteResponse, VaultError>(VaultError::InvalidFunds)
        &&& post == pre
    } else if (pre.vault_token_supply != 0 && total_staked_bt != 0 && amount * total_staked_bt
        > u128::MAX) || amount > pre.vault_token_supply {
        &&& r == Err::<ExecuteResponse, VaultError>(VaultError::ArithmeticOverflow)
        &&& post == pre
    } else {
        &&& r is Ok
        &&& (r->Ok_0).created_lockup_id is None
        &&& (r->Ok_0).instructions@.len() == 2
        &&& spec_is_burn_shares((r->Ok_0).instructions@[0], amount as int)
        &&& spec_is_transfer_reserve(
            (r->Ok_0).instructions@[1],
            payout,
            spec_recipient(recipient, sender@),
        )
        &&& post.vault_token_supply == pre.vault_token_supply - amount
        &&& spec_only_supply_changed(pre, post)
    }
}

/// What `unlock` does: demanding the surrendered vault tokens as the
/// only attached funds, pinning their base-token value at the current
/// exchange rate, burning them from circulation, and storing a new
/// unlocking position under the next id, maturing one lockup duration
/// from now. The new id is returned in the response, and the counter
/// advances by one, so sequential unlocks receive strictly increasing,
/// never-reused ids.
pub open spec fn spec_unlock_result(
    pre: VaultState,
    post: VaultState,
    r: Result<ExecuteResponse, VaultError>,
    amount: u128,
    sender: String,
    funds: Seq<Coin>,
    now: u64,
    total_staked_bt: u128,
) -> bool {
    let pinned = spec_base_tokens(
        amount as int,
        pre.vault_token_supply as int,
        total_staked_bt as int,
    );
    if !spec_funds_exact(funds, pre.config.vault_token@, amount as int) {
        &&& r == Err::<ExecuteResponse, VaultError>(VaultError::InvalidFunds)
        &&& post == pre
    } else if (pre.vault_token_supply != 0 && total_staked_bt != 0 && amount * total_staked_bt
        > u128::MAX) || amount > pre.vault_token_supply || now + pre.lockup_duration > u64::MAX
        || pre.lockups.next_id == u64::MAX {
        &&& r == Err::<ExecuteResponse, VaultError>(VaultError::ArithmeticOverflow)
        &&& post == pre
    } else {
        &&& r is Ok
        &&& (r->Ok_0).created_lockup_id == Some(pre.lockups.next_id)
        &&& (r->Ok_0).instructions@.len() == 1
        &&& spec_is_burn_shares((r->Ok_0).instructions@[0], amount as int)
        &&& post.lockups.next_id == pre.lockups.next_id + 1
        &&& post.lockups.positions@ == pre.lockups.positions@.push(
            (UnlockingPosition {
                id: pre.lockups.next_id,
                owner: sender,
                release_at: (now + pre.lockup_duration) as u64,
                base_token_amount: pinned as u128,
            }),
        )
        &&& post.vault_token_supply == pre.vault_token_supply - amount
        &&& post.config == pre.config
        &&& post.lockup_duration == pre.lockup_duration
        &&& post.whitelist == pre.whitelist
    }
}

/// What `withdraw_unlocked` does: paying out exactly the pinned amount
/// of a matured position owned by the caller, and removing the position,
/// so that a second withdrawal of the same id fails with `NotFound`.
/// Before the release time it fails with `NotMatured`; for anyone but
/// the owner, with `Unauthorized`; and the vault token supply does not
/// move, since the shares were already burnt at unlock time.
pub open spec fn spec_withdraw_unlocked_result(
    pre: VaultState,
    post: VaultState,
    r: Result<ExecuteResponse, VaultError>,
    lockup_id: u64,
    recipient: Option<String>,
    sender: String,
    now: u64,
) -> bool {
    let ps = pre.lockups.positions@;
    if !spec_has_id(ps, lockup_id) {
        &&& r == Err::<ExecuteResponse, VaultError>(VaultError::NotFound)
        &&& post == pre
    } else {
        let p = spec_position_of_id(ps, lockup_id);
        if now < p.release_at {
            &&& r == Err::<ExecuteResponse, VaultError>(VaultError::NotMatured)
            &&& post == pre
        } else if p.owner@ != sender@ {
            &&& r == Err::<ExecuteResponse, VaultError>(VaultError::Unauthorized)
            &&& post == pre
        } else {
            &&& r is Ok
            &&& (r->Ok_0).created_lockup_id is None
            &&& (r->Ok_0).instructions@.len() == 1
            &&& spec_is_transfer_reserve(
                (r->Ok_0).instructions@[0],
                p.base_token_amount as int,
                spec_recipient(recipient, sender@),
            )
            &&& post.lockups.positions@ == ps.remove(spec_index_of_id(ps, lockup_id))
            &&& spec_only_positions_changed(pre, post)
        }
    }
}

/// What `force_redeem` does: for a whitelisted caller, exactly what an
/// immediate `redeem` does, bypassing any lock, with no unlocking
/// position ever created; for anyone else, `Unauthorized`. A requested
/// redeem-into asset other than the vault's base token fails with
/// `DenomUnsupported`.
pub open spec fn spec_force_redeem_result(
    pre: VaultState,
    post: VaultState,
    r: Result<ExecuteResponse, VaultError>,
    amount: u128,
    recipient: Option<String>,
    redeem_into: Option<Vec<String>>,
    sender: String,
    funds: Seq<Coin>,
    total_staked_bt: u128,
) -> bool {
    if !spec_contains_name(pre.whitelist.members@, sender@) {
        &&& r == Err::<ExecuteResponse, VaultError>(VaultError::Unauthorized)
        &&& post == pre
    } else if !(match redeem_into {
        Option::None => true,
        Option::Some(v) => v@.len() == 1 && v@[0]@ == pre.config.base_token@,
    }) {
        &&& r == Err::<ExecuteResponse, VaultError>(VaultError::DenomUnsupported)
        &&& post == pre
    } else {
        spec_redeem_result(pre, post, r, amount, recipient, sender, funds, total_staked_bt)
    }
}

/// What `force_withdraw_unlocking` does: for a whitelisted caller, an
/// immediate payout from an unlocking position, bypassing the maturity
/// and owner checks. Without an amount the whole pinned amount is paid
/// and the position removed; with one, that much is deducted (at most
/// the remainder, else `InsufficientPosition`) and the position stays,
/// with the same id and release time. This is the one operation that
/// mutates a position in place.
pub open spec fn spec_force_withdraw_result(
    pre: VaultState,
    post: VaultState,
    r: Result<ExecuteResponse, VaultError>,
    lockup_id: u64,
    amount: Option<u128>,
    recipient: Option<String>,
    sender: String,
) -> bool {
    let ps = pre.lockups.positions@;
    if !spec_contains_name(pre.whitelist.members@, sender@) {
        &&& r == Err::<ExecuteResponse, VaultError>(VaultError::Unauthorized)
        &&& post == pre
    } else if !spec_has_id(ps, lockup_id) {
        &&& r == Err::<ExecuteResponse, VaultError>(VaultError::NotFound)
        &&& post == pre
    } else {
        let i = spec_index_of_id(ps, lockup_id);
        let p = ps[i];
        match amount {
            Option::None => {
                &&& r is Ok
                &&& (r->Ok_0).created_lockup_id is None
                &&& (r->Ok_0).instructions@.len() == 1
                &&& spec_is_transfer_reserve(
                    (r->Ok_0).instructions@[0],
                    p.base_token_amount as int,
                    spec_recipient(recipient, sender@),
                )
                &&& post.lockups.positions@ == ps.remove(i)
                &&& spec_only_positions_changed(pre, post)
            },
            Option::Some(a) => {
                if a > p.base_token_amount {
                    &&& r == Err::<ExecuteResponse, VaultError>(VaultError::InsufficientPosition)
                    &&& post == pre
                } else {
                    &&& r is Ok
                    &&& (r->Ok_0).created_lockup_id is None
                    &&& (r->Ok_0).instructions@.len() == 1
                    &&& spec_is_transfer_reserve(
                        (r->Ok_0).instructions@[0],
                        a as int,
                        spec_recipient(recipient, sender@),
                    )
                    &&& post.lockups.positions@ == ps.update(
                        i,
                        (UnlockingPosition {
                            id: p.id,
                            owner: p.owner,
                            release_at: p.release_at,
                            base_token_amount: (p.base_token_amount - a) as u128,
                        }),
                    )
                    &&& spec_only_positions_changed(pre, post)
                }
            },
        }
    }
}

/// What `update_whitelist` does: for the vault admin, one atomic set
/// update applying the add-list and then the remove-list, so that an
/// address in both ends up removed; for anyone else, `Unauthorized`.
/// Subsequent calls observe the change through the whitelist gate.
pub open spec fn spec_update_whitelist_result(
    pre: VaultState,
    post: VaultState,
    r: Result<ExecuteResponse, VaultError>,
    add: Seq<String>,
    remove: Seq<String>,
    sender: String,
) -> bool {
    if pre.whitelist.admin@ != sender@ {
        &&& r == Err::<ExecuteResponse, VaultError>(VaultError::Unauthorized)
        &&& post == pre
    } else {
        &&& r is Ok
        &&& (r->Ok_0).created_lockup_id is None
        &&& (r->Ok_0).instructions@.len() == 0
        &&& post.config == pre.config
        &&& post.lockup_duration == pre.lockup_duration
        &&& post.vault_token_supply == pre.vault_token_supply
        &&& post.lockups == pre.lockups
        &&& post.whitelist.admin == pre.whitelist.admin
        &&& forall|who: Seq<char>|
            #![trigger spec_contains_name(post.whitelist.members@, who)]
            spec_contains_name(post.whitelist.members@, who) <==> ((spec_contains_name(
                pre.whitelist.members@,
                who,
            ) || spec_contains_name(add, who)) && !spec_contains_name(remove, who))
    }
}

/// The exchange rate of one vault token in base tokens, scaled by
/// `RATE_SCALE`: 1:1 for an empty vault, otherwise the reserve/share
/// ratio, rounded down.
pub open spec fn spec_exchange_rate(supply: int, reserve: int) -> int {
    if supply == 0 {
        RATE_SCALE as int
    } else {
        (reserve * (RATE_SCALE as int)) / supply
    }
}

/// What the share-conversion queries answer: `spec_vault_tokens` of the
/// amount against the current pool, with no deposit deduction.
pub open spec fn spec_convert_to_shares_result(
    s: VaultState,
    r: Result<QueryResponse, VaultError>,
    amount: u128,
    total_staked_bt: u128,
) -> bool {
    if s.vault_token_supply != 0 && total_staked_bt != 0 && amount * s.vault_token_supply
        > u128::MAX {
        r == Err::<QueryResponse, VaultError>(VaultError::ArithmeticOverflow)
    } else {
        &&& r is Ok
        &&& ((r->Ok_0) matches QueryResponse::Amount(a) && a == spec_vault_tokens(
            amount as int,
            s.vault_token_supply as int,
            total_staked_bt as int,
        ))
    }
}

/// What the asset-conversion queries answer: `spec_base_tokens` of the
/// amount against the current pool.
pub open spec fn spec_convert_to_assets_result(
    s: VaultState,
    r: Result<QueryResponse, VaultError>,
    amount: u128,
    total_staked_bt: u128,
) -> bool {
    if s.vault_token_supply != 0 && total_staked_bt != 0 && amount * total_staked_bt > u128::MAX {
        r == Err::<QueryResponse, VaultError>(VaultError::ArithmeticOverflow)
    } else {
        &&& r is Ok
        &&& ((r->Ok_0) matches QueryResponse::Amount(a) && a == spec_base_tokens(
            amount as int,
            s.vault_token_supply as int,
            total_staked_bt as int,
        ))
    }
}

/// What the exchange-rate query answers: the scaled rate, quoted only
/// in the vault's own base token.
pub open spec fn spec_exchange_rate_result(
    s: VaultState,
    r: Result<QueryResponse, VaultError>,
    quote_denom: String,
    total_staked_bt: u128,
) -> bool {
    if quote_denom@ != s.config.base_token@ {
        r == Err::<QueryResponse, VaultError>(VaultError::DenomUnsupported)
    } else if s.vault_token_supply != 0 && total_staked_bt * RATE_SCALE > u128::MAX {
        r == Err::<QueryResponse, VaultError>(VaultError::ArithmeticOverflow)
    } else {
        &&& r is Ok
        &&& ((r->Ok_0) matches QueryResponse::ExchangeRate(x) && x == spec_exchange_rate(
            s.vault_token_supply as int,
            total_staked_bt as int,
        ))
    }
}

/// Round-trip non-profitability at the vault's interface: depositing
/// `x` base tokens and then immediately redeeming every vault token
/// received pays out at most `x` — rounding never favours the caller.
/// `bt0` is the balance the oracle reports for both calls: the deposit
/// is already credited in it, and the payout transfer is settled only
/// after the redeem returns. The hypothesis that an empty share supply
/// comes with an empty pre-deposit reserve is the vault's standing
/// invariant.
pub proof fn lemma_vault_round_trip_no_profit(
    s0: VaultState,
    s1: VaultState,
    s2: VaultState,
    r1: Result<ExecuteResponse, VaultError>,
    r2: Result<ExecuteResponse, VaultError>,
    x: u128,
    shares: u128,
    recipient1: Option<String>,
    sender1: String,
    recipient2: Option<String>,
    sender2: String,
    funds: Seq<Coin>,
    bt0: u128,
)
    requires
        spec_deposit_result(s0, s1, r1, x, recipient1, sender1, bt0),
        r1 is Ok,
        shares == spec_vault_tokens(x as int, s0.vault_token_supply as int, bt0 - x),
        s0.vault_token_supply == 0 ==> bt0 == x,
        spec_redeem_result(s1, s2, r2, shares, recipient2, sender2, funds, bt0),
        r2 is Ok,
    ensures
        spec_base_tokens(shares as int, s1.vault_token_supply as int, bt0 as int) <= x,
        spec_is_transfer_reserve(
            (r2->Ok_0).instructions@[1],
            spec_base_tokens(shares as int, s1.vault_token_supply as int, bt0 as int),
            spec_recipient(recipient2, sender2@),
        ),
{
    crate::shares::lemma_round_trip_no_profit(
        x as int,
        s0.vault_token_supply as int,
        bt0 - x,
    );
}

/// Ratio fairness at the vault's interface: two back-to-back deposits
/// of `a` and then `b`, with no reserve movement in between (the second
/// report grows by exactly the second deposit), mint shares whose cross
/// products `sa * b` and `sb * a` differ by less than `a + b` — the
/// per-token share ratios agree within `1/a + 1/b`.
pub proof fn lemma_vault_deposit_fairness(
    s0: VaultState,
    s1: VaultState,
    s2: VaultState,
    r1: Result<ExecuteResponse, VaultError>,
    r2: Result<ExecuteResponse, VaultError>,
    a: u128,
    b: u128,
    recipient1: Option<String>,
    sender1: String,
    recipient2: Option<String>,
    sender2: String,
    bt1: u128,
    bt2: u128,
)
    requires
        spec_deposit_result(s0, s1, r1, a, recipient1, sender1, bt1),
        r1 is Ok,
        spec_deposit_result(s1, s2, r2, b, recipient2, sender2, bt2),
        r2 is Ok,
        bt2 == bt1 + b,
        1 <= a,
        1 <= b,
        1 <= s0.vault_token_supply,
        a + 1 <= bt1,
    ensures
        ({
            let sa = spec_vault_tokens(a as int, s0.vault_token_supply as int, bt1 - a);
            let sb = spec_vault_tokens(b as int, s1.vault_token_supply as int, bt2 - b);
            &&& sb * a < sa * b + b
            &&& sa * b < sb * a + a + b
        }),
{
    crate::shares::lemma_sequential_deposit_fairness(
        a as int,
        b as int,
        s0.vault_token_supply as int,
        bt1 - a,
    );
}

/// Monotonic ids: two successful unlocks, with anything at all between
/// them that does not turn the id counter backwards, receive strictly
/// increasing ids — every operation's contract keeps the counter from
/// moving backwards (deposits and redeems leave the registry alone,
/// withdrawals and force-withdrawals leave the counter alone, unlocks
/// advance it), so ids never repeat, even after positions are withdrawn
/// and removed.
pub proof fn lemma_unlock_ids_strictly_increase(
    s0: VaultState,
    s1: VaultState,
    s2: VaultState,
    s3: VaultState,
    r1: Result<ExecuteResponse, VaultError>,
    r2: Result<ExecuteResponse, VaultError>,
    amount1: u128,
    sender1: String,
    funds1: Seq<Coin>,
    now1: u64,
    bt1: u128,
    amount2: u128,
    sender2: String,
    funds2: Seq<Coin>,
    now2: u64,
    bt2: u128,
)
    requires
        spec_unlock_result(s0, s1, r1, amount1, sender1, funds1, now1, bt1),
        r1 is Ok,
        s2.lockups.next_id >= s1.lockups.next_id,
        spec_unlock_result(s2, s3, r2, amount2, sender2, funds2, now2, bt2),
        r2 is Ok,
    ensures
        (r1->Ok_0).created_lockup_id matches Some(id1) && (
        r2->Ok_0).created_lockup_id matches Some(id2) && id1 < id2,
{
}

/// The maturity gate consumes a position exactly once: after one
/// successful withdrawal of a lockup id, a second withdrawal of the same
/// id deterministically fails with `NotFound` and changes nothing,
/// whoever calls it and whenever.
pub proof fn lemma_withdraw_exactly_once(
    s0: VaultState,
    s1: VaultState,
    s2: VaultState,
    r1: Result<ExecuteResponse, VaultError>,
    r2: Result<ExecuteResponse, VaultError>,
    lockup_id: u64,
    recipient1: Option<String>,
    sender1: String,
    now1: u64,
    recipient2: Option<String>,
    sender2: String,
    now2: u64,
)
    requires
        s0.wf(),
        spec_withdraw_unlocked_result(s0, s1, r1, lockup_id, recipient1, sender1, now1),
        r1 is Ok,
        spec_withdraw_unlocked_result(s1, s2, r2, lockup_id, recipient2, sender2, now2),
    ensures
        r2 == Err::<ExecuteResponse, VaultError>(VaultError::NotFound),
        s2 == s1,
{
    let ps = s0.lockups.positions@;
    let i = spec_index_of_id(ps, lockup_id);
    let removed = ps.remove(i);
    assert forall|j: int| 0 <= j < removed.len() implies #[trigger] removed[j].id != lockup_id by {
        if j < i {
            assert(removed[j] == ps[j]);
            crate::lockup::lemma_index_of_id_unique(ps, j, removed[j].id);
        } else {
            assert(removed[j] == ps[j + 1]);
            crate::lockup::lemma_index_of_id_unique(ps, j + 1, removed[j].id);
        }
    }
    assert(!spec_has_id(s1.lockups.positions@, lockup_id));
}

/// The pinning invariant: a position created by `unlock` pays out, at
/// withdrawal, exactly the base-token amount computed from the exchange
/// rate at unlock time — whatever happened to the vault's reserve or
/// share supply during the lock period. Deposits and redeems leave the
/// registry alone (their contracts change the supply only), so the
/// hypothesis that the registry is carried over covers any run of them.
pub proof fn lemma_pinned_payout(
    s0: VaultState,
    s1: VaultState,
    s2: VaultState,
    s3: VaultState,
    r_unlock: Result<ExecuteResponse, VaultError>,
    r_withdraw: Result<ExecuteResponse, VaultError>,
    amount: u128,
    sender: String,
    funds: Seq<Coin>,
    now: u64,
    total_staked_bt: u128,
    lockup_id: u64,
    recipient: Option<String>,
    withdrawer: String,
    later: u64,
)
    requires
        s0.wf(),
        spec_unlock_result(s0, s1, r_unlock, amount, sender, funds, now, total_staked_bt),
        r_unlock is Ok,
        lockup_id == s0.lockups.next_id,
        s2.lockups == s1.lockups,
        spec_withdraw_unlocked_result(s2, s3, r_withdraw, lockup_id, recipient, withdrawer, later),
        r_withdraw is Ok,
    ensures
        spec_is_transfer_reserve(
            (r_withdraw->Ok_0).instructions@[0],
            spec_base_tokens(amount as int, s0.vault_token_supply as int, total_staked_bt as int),
            spec_recipient(recipient, withdrawer@),
        ),
{
    let pinned = spec_base_tokens(
        amount as int,
        s0.vault_token_supply as int,
        total_staked_bt as int,
    );
    let p = UnlockingPosition {
        id: s0.lockups.next_id,
        owner: sender,
        release_at: (now + s0.lockup_duration) as u64,
        base_token_amount: pinned as u128,
    };
    let ps1 = s1.lockups.positions@;
    assert(ps1 == s0.lockups.positions@.push(p));
    // The pinned amount fits in u128, so the stored amount is it exactly.
    if s0.vault_token_supply != 0 && total_staked_bt != 0 {
        vstd::arithmetic::div_mod::lemma_div_pos_is_pos(
            amount * total_staked_bt,
            s0.vault_token_supply as int,
        );
        vstd::arithmetic::div_mod::lemma_div_nonincreasing(
            amount * total_staked_bt,
            s0.vault_token_supply as int,
        );
        vstd::arithmetic::mul::lemma_mul_nonnegative(amount as int, total_staked_bt as int);
    }
    assert(0 <= pinned <= u128::MAX);
    // The new position is the one the id denotes in the grown registry.
    assert(crate::lockup::spec_sorted_by_id(ps1)) by {
        assert forall|i: int, j: int| 0 <= i < j < ps1.len() implies #[trigger] ps1[i].id
            < #[trigger] ps1[j].id by {
            if j < ps1.len() - 1 {
                assert(s0.lockups.positions@[i].id < s0.lockups.positions@[j].id);
            } else {
                assert(s0.lockups.positions@[i].id < s0.lockups.next_id);
            }
        }
    }
    crate::lockup::lemma_index_of_id_unique(ps1, ps1.len() - 1, lockup_id);
    assert(spec_position_of_id(s2.lockups.positions@, lockup_id) == p);
}

impl VaultState {
    /// Well-formedness: the lockup registry's ids are strictly
    /// increasing and below its counter.
    pub open spec fn wf(self) -> bool {
        self.lockups.wf()
    }

    /// Decides well-formedness for a state rebuilt from outside the
    /// library, such as one read back from a host's storage. Operations
    /// demand a well-formed state; a host that persists and reloads the
    /// state checks it here before calling them.
    pub fn check_wf(&self) -> (r: bool)
        ensures
            r == self.wf(),
    {
        self.lockups.check_wf()
    }

    /// A fresh vault accounting in `msg.base_token`, with an empty
    /// supply, an empty registry, and an empty whitelist under `admin`.
    /// The vault's own share token denom is derived from the vault's
    /// address, as `factory/{address}/vault-token`.
    pub fn instantiate(
        msg: InstantiateMsg,
        contract_address: &String,
        admin: String,
        lockup_duration: u64,
    ) -> (r: VaultState)
        ensures
            r.wf(),
            r.config.base_token == msg.base_token,
            r.config.vault_token@ == "factory/"@ + contract_address@ + "/vault-token"@,
            r.vault_token_supply == 0,
            r.lockup_duration == lockup_duration,
            r.lockups.next_id == 0,
            r.lockups.positions@.len() == 0,
            r.whitelist.admin == admin,
            r.whitelist.members@.len() == 0,
    {
        let vault_token = String::from_str("factory/").concat(contract_address.as_str()).concat(
            "/vault-token",
        );
        VaultState {
            config: Config { base_token: msg.base_token, vault_token },
            vault_token_supply: 0,
            lockup_duration,
            lockups: LockupRegistry::new(),
            whitelist: WhitelistStore::new(admin),
        }
    }

    /// Deposit `amount` base tokens (already credited to the vault's
    /// reported balance) and mint vault tokens to the recipient at the
    /// pre-deposit exchange rate.
    pub fn deposit(
        &mut self,
        amount: u128,
        recipient: Option<String>,
        sender: &String,
        total_staked_bt: u128,
    ) -> (r: Result<ExecuteResponse, VaultError>)
        requires
            old(self).wf(),
        ensures
            final(self).wf(),
            spec_deposit_result(
                *old(self),
                *final(self),
                r,
                amount,
                recipient,
                *sender,
                total_staked_bt,
            ),
    {
        let minted = match calculate_vault_tokens(
            self.vault_token_supply,
            total_staked_bt,
            amount,
            true,
        ) {
            Ok(m) => m,
            Err(e) => {
                return Err(e);
            },
        };
        let new_supply = match self.vault_token_supply.checked_add(minted) {
            Some(s) => s,
            None => {
                return Err(VaultError::ArithmeticOverflow);
            },
        };
        let to = match recipient {
            Some(r) => r,
            None => sender.clone(),
        };
        self.vault_token_supply = new_supply;
        let mut instructions: Vec<VaultInstruction> = Vec::new();
        instructions.push(VaultInstruction::MintShares { amount: minted });
        instructions.push(VaultInstruction::TransferShares { amount: minted, recipient: to });
        Ok(ExecuteResponse { instructions, created_lockup_id: None })
    }

    /// Redeem `amount` vault tokens, passed in the funds, and send the
    /// corresponding base tokens to the recipient.
    pub fn redeem(
        &mut self,
        amount: u128,
        recipient: Option<String>,
        sender: &String,
        funds: &Vec<Coin>,
        total_staked_bt: u128,
    ) -> (r: Result<ExecuteResponse, VaultError>)
        requires
            old(self).wf(),
        ensures
            final(self).wf(),
            spec_redeem_result(
                *old(self),
                *final(self),
                r,
                amount,
                recipient,
                *sender,
                funds@,
                total_staked_bt,
            ),
    {
        if !(funds.len() == 1 && funds[0].denom == self.config.vault_token && funds[0].amount
            == amount) {
            return Err(VaultError::InvalidFunds);
        }
        let payout = match calculate_base_tokens(
            self.vault_token_supply,
            total_staked_bt,
            amount,
        ) {
            Ok(p) => p,
            Err(e) => {
                return Err(e);
            },
        };
        let new_supply = match self.vault_token_supply.checked_sub(amount) {
            Some(s) => s,
            None => {
                return Err(VaultError::ArithmeticOverflow);
            },
        };
        let to = match recipient {
            Some(r) => r,
            None => sender.clone(),
        };
        self.vault_token_supply = new_supply;
        let mut instructions: Vec<VaultInstruction> = Vec::new();
        instructions.push(VaultInstruction::BurnShares { amount });
        instructions.push(VaultInstruction::TransferReserve { amount: payout, recipient: to });
        Ok(ExecuteResponse { instructions, created_lockup_id: None })
    }

    /// Surrender `amount` vault tokens, passed in the funds, for a new
    /// unlocking position: the base-token value is pinned at the current
    /// exchange rate, the vault tokens are burnt now, and the pinned
    /// amount can be withdrawn once the position matures.
    pub fn unlock(
        &mut self,
        amount: u128,
        sender: &String,
        funds: &Vec<Coin>,
        now: u64,
        total_staked_bt: u128,
    ) -> (r: Result<ExecuteResponse, VaultError>)
        requires
            old(self).wf(),
        ensures
            final(self).wf(),
            spec_unlock_result(
                *old(self),
                *final(self),
                r,
                amount,
                *sender,
                funds@,
                now,
                total_staked_bt,
            ),
    {
        if !(funds.len() == 1 && funds[0].denom == self.config.vault_token && funds[0].amount
            == amount) {
            return Err(VaultError::InvalidFunds);
        }
        let pinned = match calculate_base_tokens(
            self.vault_token_supply,
            total_staked_bt,
            amount,
        ) {
            Ok(p) => p,
            Err(e) => {
                return Err(e);
            },
        };
        let new_supply = match self.vault_token_supply.checked_sub(amount) {
            Some(s) => s,
            None => {
                return Err(VaultError::ArithmeticOverflow);
            },
        };
        let release_at = match now.checked_add(self.lockup_duration) {
            Some(t) => t,
            None => {
                return Err(VaultError::ArithmeticOverflow);
            },
        };
        if self.lockups.next_id == u64::MAX {
            return Err(VaultError::ArithmeticOverflow);
        }
        let id = self.lockups.create_position(sender.clone(), pinned, release_at);
        self.vault_token_supply = new_supply;
        let mut instructions: Vec<VaultInstruction> = Vec::new();
        instructions.push(VaultInstruction::BurnShares { amount });
        Ok(ExecuteResponse { instructions, created_lockup_id: Some(id) })
    }

    /// Withdraw a matured unlocking position owned by the caller: the
    /// pinned base-token amount is paid to the recipient and the
    /// position is removed.
    pub fn withdraw_unlocked(
        &mut self,
        lockup_id: u64,
        recipient: Option<String>,
        sender: &String,
        now: u64,
    ) -> (r: Result<ExecuteResponse, VaultError>)
        requires
            old(self).wf(),
        ensures
            final(self).wf(),
            spec_withdraw_unlocked_result(
                *old(self),
                *final(self),
                r,
                lockup_id,
                recipient,
                *sender,
                now,
            ),
    {
        let p = match self.lockups.withdraw(lockup_id, sender, now) {
            Ok(p) => p,
            Err(e) => {
                return Err(e);
            },
        };
        let to = match recipient {
            Some(r) => r,
            None => sender.clone(),
        };
        let mut instructions: Vec<VaultInstruction> = Vec::new();
        instructions.push(
            VaultInstruction::TransferReserve { amount: p.base_token_amount, recipient: to },
        );
        Ok(ExecuteResponse { instructions, created_lockup_id: None })
    }

    /// Whitelisted bypass of the lock: an immediate redemption, with no
    /// unlocking position ever created; used to liquidate atomically
    /// within one call.
    pub fn force_redeem(
        &mut self,
        amount: u128,
        recipient: Option<String>,
        redeem_into: Option<Vec<String>>,
        sender: &String,
        funds: &Vec<Coin>,
        total_staked_bt: u128,
    ) -> (r: Result<ExecuteResponse, VaultError>)
        requires
            old(self).wf(),
        ensures
            final(self).wf(),
            spec_force_redeem_result(
                *old(self),
                *final(self),
                r,
                amount,
                recipient,
                redeem_into,
                *sender,
                funds@,
                total_staked_bt,
            ),
    {
        if !self.whitelist.is_whitelisted(sender) {
            return Err(VaultError::Unauthorized);
        }
        let supported = match &redeem_into {
            None => true,
            Some(v) => v.len() == 1 && v[0] == self.config.base_token,
        };
        if !supported {
            return Err(VaultError::DenomUnsupported);
        }
        self.redeem(amount, recipient, sender, funds, total_staked_bt)
    }

    /// Whitelisted force-withdraw from an unlocking position, bypassing
    /// the maturity and owner checks, wholly or in part.
    pub fn force_withdraw_unlocking(
        &mut self,
        lockup_id: u64,
        amount: Option<u128>,
        recipient: Option<String>,
        sender: &String,
    ) -> (r: Result<ExecuteResponse, VaultError>)
        requires
            old(self).wf(),
        ensures
            final(self).wf(),
            spec_force_withdraw_result(
                *old(self),
                *final(self),
                r,
                lockup_id,
                amount,
                recipient,
                *sender,
            ),
    {
        if !self.whitelist.is_whitelisted(sender) {
            return Err(VaultError::Unauthorized);
        }
        let payout = match self.lockups.force_withdraw(lockup_id, amount) {
            Ok(p) => p,
            Err(e) => {
                return Err(e);
            },
        };
        let to = match recipient {
            Some(r) => r,
            None => sender.clone(),
        };
        let mut instructions: Vec<VaultInstruction> = Vec::new();
        instructions.push(VaultInstruction::TransferReserve { amount: payout, recipient: to });
        Ok(ExecuteResponse { instructions, created_lockup_id: None })
    }

    /// Admin-gated whitelist change: adds, then removes, as one atomic
    /// set update.
    pub fn update_whitelist(
        &mut self,
        add: &Vec<String>,
        remove: &Vec<String>,
        sender: &String,
    ) -> (r: Result<ExecuteResponse, VaultError>)
        requires
            old(self).wf(),
        ensures
            final(self).wf(),
            spec_update_whitelist_result(*old(self), *final(self), r, add@, remove@, *sender),
    {
        match self.whitelist.update(sender, add, remove) {
            Ok(_) => Ok(ExecuteResponse { instructions: Vec::new(), created_lockup_id: None }),
            Err(e) => Err(e),
        }
    }

    /// Answers a query against the vault's state and the oracle's
    /// reserve snapshot; queries never change state.
    pub fn query(&self, msg: VaultStandardQueryMsg, total_staked_bt: u128) -> (r: Result<
        QueryResponse,
        VaultError,
    >)
        requires
            self.wf(),
        ensures
            match msg {
                VaultStandardQueryMsg::VaultStandardInfo {} => {
                    &&& r is Ok
                    &&& ((r->Ok_0) matches QueryResponse::StandardInfo(info) && info.version@
                        == "1.0.0"@ && info.extensions@.len() == 2 && info.extensions@[0]@
                        == "lockup"@ && info.extensions@[1]@ == "force_unlock"@)
                },
                VaultStandardQueryMsg::Info {} => {
                    &&& r is Ok
                    &&& ((r->Ok_0) matches QueryResponse::Info(info) && info.base_token
                        == self.config.base_token && info.vault_token == self.config.vault_token)
                },
                VaultStandardQueryMsg::PreviewDeposit { amount } => spec_convert_to_shares_result(
                    *self,
                    r,
                    amount,
                    total_staked_bt,
                ),
                VaultStandardQueryMsg::PreviewRedeem { amount } => spec_convert_to_assets_result(
                    *self,
                    r,
                    amount,
                    total_staked_bt,
                ),
                VaultStandardQueryMsg::TotalAssets {} => r == Ok::<QueryResponse, VaultError>(
                    QueryResponse::Amount(total_staked_bt),
                ),
                VaultStandardQueryMsg::TotalVaultTokenSupply {} => r == Ok::<
                    QueryResponse,
                    VaultError,
                >(QueryResponse::Amount(self.vault_token_supply)),
                VaultStandardQueryMsg::VaultTokenExchangeRate { quote_denom } => spec_exchange_rate_result(
                    *self,
                    r,
                    quote_denom,
                    total_staked_bt,
                ),
                VaultStandardQueryMsg::ConvertToShares { amount } => spec_convert_to_shares_result(
                    *self,
                    r,
                    amount,
                    total_staked_bt,
                ),
                VaultStandardQueryMsg::ConvertToAssets { amount } => spec_convert_to_assets_result(
                    *self,
                    r,
                    amount,
                    total_staked_bt,
                ),
                VaultStandardQueryMsg::VaultExtension(ext) => match ext {
                    ExtensionQueryMsg::Lockup(lq) => match lq {
                        LockupQueryMsg::UnlockingPositions { owner, start_after, limit } => {
                            &&& r is Ok
                            &&& ((r->Ok_0) matches QueryResponse::Positions(v) && v@ == spec_page(
                                self.lockups.positions@,
                                owner@,
                                start_after,
                                spec_effective_limit(limit),
                            ))
                        },
                        LockupQueryMsg::UnlockingPosition { lockup_id } => {
                            if spec_has_id(self.lockups.positions@, lockup_id) {
                                r == Ok::<QueryResponse, VaultError>(
                                    QueryResponse::Position(
                                        spec_position_of_id(self.lockups.positions@, lockup_id),
                                    ),
                                )
                            } else {
                                r == Err::<QueryResponse, VaultError>(VaultError::NotFound)
                            }
                        },
                        LockupQueryMsg::LockupDuration {} => r == Ok::<QueryResponse, VaultError>(
                            QueryResponse::Duration(self.lockup_duration),
                        ),
                    },
                },
            },
    {
        match msg {
            VaultStandardQueryMsg::VaultStandardInfo {} => {
                let mut extensions: Vec<String> = Vec::new();
                extensions.push(String::from_str("lockup"));
                extensions.push(String::from_str("force_unlock"));
                Ok(
                    QueryResponse::StandardInfo(
                        VaultStandardInfoResponse {
                            version: String::from_str("1.0.0"),
                            extensions,
                        },
                    ),
                )
            },
            VaultStandardQueryMsg::Info {} => Ok(
                QueryResponse::Info(
                    VaultInfoResponse {
                        base_token: self.config.base_token.clone(),
                        vault_token: self.config.vault_token.clone(),
                    },
                ),
            ),
            VaultStandardQueryMsg::PreviewDeposit { amount } => {
                match calculate_vault_tokens(
                    self.vault_token_supply,
                    total_staked_bt,
                    amount,
                    false,
                ) {
                    Ok(m) => Ok(QueryResponse::Amount(m)),
                    Err(e) => Err(e),
                }
            },
            VaultStandardQueryMsg::PreviewRedeem { amount } => {
                match calculate_base_tokens(self.vault_token_supply, total_staked_bt, amount) {
                    Ok(m) => Ok(QueryResponse::Amount(m)),
                    Err(e) => Err(e),
                }
            },
            VaultStandardQueryMsg::TotalAssets {} => Ok(QueryResponse::Amount(total_staked_bt)),
            VaultStandardQueryMsg::TotalVaultTokenSupply {} => Ok(
                QueryResponse::Amount(self.vault_token_supply),
            ),
            VaultStandardQueryMsg::VaultTokenExchangeRate { quote_denom } => {
                if !(quote_denom == self.config.base_token) {
                    return Err(VaultError::DenomUnsupported);
                }
                if self.vault_token_supply == 0 {
                    return Ok(QueryResponse::ExchangeRate(RATE_SCALE));
                }
                match total_staked_bt.checked_mul(RATE_SCALE) {
                    Some(p) => Ok(QueryResponse::ExchangeRate(p / self.vault_token_supply)),
                    None => Err(VaultError::ArithmeticOverflow),
                }
            },
            VaultStandardQueryMsg::ConvertToShares { amount } => {
                match calculate_vault_tokens(
                    self.vault_token_supply,
                    total_staked_bt,
                    amount,
                    false,
                ) {
                    Ok(m) => Ok(QueryResponse::Amount(m)),
                    Err(e) => Err(e),
                }
            },
            VaultStandardQueryMsg::ConvertToAssets { amount } => {
                match calculate_base_tokens(self.vault_token_supply, total_staked_bt, amount) {
                    Ok(m) => Ok(QueryResponse::Amount(m)),
                    Err(e) => Err(e),
                }
            },
            VaultStandardQueryMsg::VaultExtension(ext) => match ext {
                ExtensionQueryMsg::Lockup(lq) => match lq {
                    LockupQueryMsg::UnlockingPositions { owner, start_after, limit } => {
                        let v = self.lockups.unlocking_positions(&owner, start_after, limit);
                        Ok(QueryResponse::Positions(v))
                    },
                    LockupQueryMsg::UnlockingPosition { lockup_id } => {
                        match self.lockups.unlocking_position(lockup_id) {
                            Ok(p) => Ok(QueryResponse::Position(p)),
                            Err(e) => Err(e),
                        }
                    },
                    LockupQueryMsg::LockupDuration {} => Ok(
                        QueryResponse::Duration(self.lockup_duration),
                    ),
                },
            },
        }
    }

    /// Executes one operation. `now` and `total_staked_bt` are the
    /// pre-operation snapshot of the clock and of the oracle's report of
    /// the vault's reserve balance, read once before the call and never
    /// refreshed mid-operation.
    pub fn execute(
        &mut self,
        msg: VaultStandardExecuteMsg,
        info: MessageInfo,
        now: u64,
        total_staked_bt: u128,
    ) -> (r: Result<ExecuteResponse, VaultError>)
        requires
            old(self).wf(),
        ensures
            final(self).wf(),
            match msg {
                VaultStandardExecuteMsg::Deposit { amount, recipient } => spec_deposit_result(
                    *old(self),
                    *final(self),
                    r,
                    amount,
                    recipient,
                    info.sender,
                    total_staked_bt,
                ),
                VaultStandardExecuteMsg::Redeem { recipient, amount } => spec_redeem_result(
                    *old(self),
                    *final(self),
                    r,
                    amount,
                    recipient,
                    info.sender,
                    info.funds@,
                    total_staked_bt,
                ),
                VaultStandardExecuteMsg::VaultExtension(ext) => match ext {
                    ExtensionExecuteMsg::Lockup(lm) => match lm {
                        LockupExecuteMsg::Unlock { amount } => spec_unlock_result(
                            *old(self),
                            *final(self),
                            r,
                            amount,
                            info.sender,
                            info.funds@,
                            now,
                            total_staked_bt,
                        ),
                        LockupExecuteMsg::WithdrawUnlocked { recipient, lockup_id } => spec_withdraw_unlocked_result(
                            *old(self),
                            *final(self),
                            r,
                            lockup_id,
                            recipient,
                            info.sender,
                            now,
                        ),
                    },
                    ExtensionExecuteMsg::ForceUnlock(fm) => match fm {
                        ForceUnlockExecuteMsg::ForceRedeem {
                            recipient,
                            amount,
                            redeem_into,
                        } => spec_force_redeem_result(
                            *old(self),
                            *final(self),
                            r,
                            amount,
                            recipient,
                            redeem_into,
                            info.sender,
                            info.funds@,
                            total_staked_bt,
                        ),
                        ForceUnlockExecuteMsg::ForceWithdrawUnlocking {
                            lockup_id,
                            amount,
                            recipient,
                        } => spec_force_withdraw_result(
                            *old(self),
                            *final(self),
                            r,
                            lockup_id,
                            amount,
                            recipient,
                            info.sender,
                        ),
                        ForceUnlockExecuteMsg::UpdateForceWithdrawWhitelist {
                            add_addresses,
                            remove_addresses,
                        } => spec_update_whitelist_result(
                            *old(self),
                            *final(self),
                            r,
                            add_addresses@,
                            remove_addresses@,
                            info.sender,
                        ),
                    },
                },
            },
    {
        match msg {
            VaultStandardExecuteMsg::Deposit { amount, recipient } => self.deposit(
                amount,
                recipient,
                &info.sender,
                total_staked_bt,
            ),
            VaultStandardExecuteMsg::Redeem { recipient, amount } => self.redeem(
                amount,
                recipient,
                &info.sender,
                &info.funds,
                total_staked_bt,
            ),
            VaultStandardExecuteMsg::VaultExtension(ext) => match ext {
                ExtensionExecuteMsg::Lockup(lm) => match lm {
                    LockupExecuteMsg::Unlock { amount } => self.unlock(
                        amount,
                        &info.sender,
                        &info.funds,
                        now,
                        total_staked_bt,
                    ),
                    LockupExecuteMsg::WithdrawUnlocked { recipient, lockup_id } => self
                        .withdraw_unlocked(lockup_id, recipient, &info.sender, now),
                },
                ExtensionExecuteMsg::ForceUnlock(fm) => match fm {
                    ForceUnlockExecuteMsg::ForceRedeem { recipient, amount, redeem_into } => self
                        .force_redeem(
                        amount,
                        recipient,
                        redeem_into,
                        &info.sender,
                        &info.funds,
                        total_staked_bt,
                    ),
                    ForceUnlockExecuteMsg::ForceWithdrawUnlocking {
                        lockup_id,
                        amount,
                        recipient,
                    } => self.force_withdraw_unlocking(lockup_id, amount, recipient, &info.sender),
                    ForceUnlockExecuteMsg::UpdateForceWithdrawWhitelist {
                        add_addresses,
                        remove_addresses,
                    } => self.update_whitelist(&add_addresses, &remove_addresses, &info.sender),
                },
            },
        }
    }
}

} // verus!
