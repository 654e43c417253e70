//! Share accounting: conversion between reserve (base) token amounts and
//! share (vault) token amounts at the current exchange rate.

use vstd::prelude::*;

use crate::error::VaultError;

verus! {

/// The number of vault (share) tokens corresponding to `base_tokens`
/// reserve tokens, against a pool of `supply` outstanding shares and
/// `reserve` reserve tokens.
///
/// While the pool is empty (no shares or no reserve) the rate is 1:1;
/// otherwise `base_tokens * supply / reserve`, multiplying before
/// dividing and rounding down, so rounding always favours the vault.
pub open spec fn spec_vault_tokens(base_tokens: int, supply: int, reserve: int) -> int {
    if supply == 0 || reserve == 0 {
        base_tokens
    } else {
        (base_tokens * supply) / reserve
    }
}

/// The number of reserve (base) tokens corresponding to `vault_tokens`
/// shares, against a pool of `supply` outstanding shares and `reserve`
/// reserve tokens; the mirror image of [`spec_vault_tokens`], with the
/// same floor-rounding policy.
pub open spec fn spec_base_tokens(vault_tokens: int, supply: int, reserve: int) -> int {
    if supply == 0 || reserve == 0 {
        vault_tokens
    } else {
        (vault_tokens * reserve) / supply
    }
}

/// Converts an amount of base tokens to vault tokens.
///
/// `total_staked_bt` is the vault's total reserve balance as reported by
/// the oracle. When `deduct_deposit` is set, `base_tokens` is subtracted
/// from that report first: the deposit is assumed to have been credited
/// to the balance already, and the exchange rate must be computed against
/// the pre-deposit baseline.
pub fn calculate_vault_tokens(
    total_vt_supply: u128,
    total_staked_bt: u128,
    base_tokens: u128,
    deduct_deposit: bool,
) -> (r: Result<u128, VaultError>)
    ensures
        ({
            let eff = if deduct_deposit {
                total_staked_bt - base_tokens
            } else {
                total_staked_bt as int
            };
            if eff < 0 {
                r == Err::<u128, VaultError>(VaultError::ArithmeticOverflow)
            } else if total_vt_supply != 0 && eff != 0 && base_tokens * total_vt_supply
                > u128::MAX {
                r == Err::<u128, VaultError>(VaultError::ArithmeticOverflow)
            } else {
                &&& r is Ok
                &&& r->Ok_0 == spec_vault_tokens(base_tokens as int, total_vt_supply as int, eff)
            }
        }),
{
    let effective_bt: u128 = if deduct_deposit {
        match total_staked_bt.checked_sub(base_tokens) {
            Some(v) => v,
            None => {
                return Err(VaultError::ArithmeticOverflow);
            },
        }
    } else {
        total_staked_bt
    };
    if total_vt_supply == 0 || effective_bt == 0 {
        Ok(base_tokens)
    } else {
        match base_tokens.checked_mul(total_vt_supply) {
            Some(product) => Ok(product / effective_bt),
            None => Err(VaultError::ArithmeticOverflow),
        }
    }
}

/// Converts an amount of vault tokens to base tokens.
pub fn calculate_base_tokens(
    total_vt_supply: u128,
    total_staked_bt: u128,
    vault_tokens: u128,
) -> (r: Result<u128, VaultError>)
    ensures
        if total_vt_supply != 0 && total_staked_bt != 0 && vault_tokens * total_staked_bt
            > u128::MAX {
            r == Err::<u128, VaultError>(VaultError::ArithmeticOverflow)
        } else {
            &&& r is Ok
            &&& r->Ok_0 == spec_base_tokens(
                vault_tokens as int,
                total_vt_supply as int,
                total_staked_bt as int,
            )
        },
{
    if total_vt_supply == 0 || total_staked_bt == 0 {
        Ok(vault_tokens)
    } else {
        match vault_tokens.checked_mul(total_staked_bt) {
            Some(product) => Ok(product / total_vt_supply),
            None => Err(VaultError::ArithmeticOverflow),
        }
    }
}

/// Round-trip non-profitability: depositing `x` reserve tokens into a
/// pool of `supply` shares against `reserve` reserve tokens and then
/// immediately redeeming every share received pays out at most `x`;
/// floor rounding never favours the caller.
///
/// The hypothesis that an empty share supply comes with an empty reserve
/// is the vault's standing invariant: supply and reserve are zero
/// together or non-zero together across operations.
pub proof fn lemma_round_trip_no_profit(x: int, supply: int, reserve: int)
    requires
        0 <= x,
        0 <= supply,
        0 <= reserve,
        supply == 0 ==> reserve == 0,
    ensures
        ({
            let s = spec_vault_tokens(x, supply, reserve);
            spec_base_tokens(s, supply + s, reserve + x) <= x
        }),
{
    let s = spec_vault_tokens(x, supply, reserve);
    if supply == 0 || reserve == 0 {
        // 1:1 seeding: s == x.
        if x == 0 {
            // Zero in, zero shares, zero out.
        } else if supply == 0 {
            // reserve == 0 too, so the redeem sees supply x and reserve x.
            vstd::arithmetic::div_mod::lemma_div_multiples_vanish(x, x);
            assert((x * x) / x == x);
        } else {
            // reserve == 0, supply > 0: redeem sees supply + x shares, x reserve.
            vstd::arithmetic::mul::lemma_mul_inequality(x, supply + x, x);
            vstd::arithmetic::div_mod::lemma_div_is_ordered(x * x, (supply + x) * x, supply + x);
            vstd::arithmetic::div_mod::lemma_div_by_multiple(x, supply + x);
        }
    } else {
        // supply > 0 and reserve > 0: s == (x * supply) / reserve.
        vstd::arithmetic::div_mod::lemma_fundamental_div_mod(x * supply, reserve);
        vstd::arithmetic::div_mod::lemma_mod_division_less_than_divisor(x * supply, reserve);
        vstd::arithmetic::div_mod::lemma_div_pos_is_pos(x * supply, reserve);
        assert(reserve * s <= x * supply);
        if s == 0 {
            assert(spec_base_tokens(0, supply, reserve + x) == 0) by {
                vstd::arithmetic::div_mod::lemma_div_of0(supply);
                vstd::arithmetic::mul::lemma_mul_by_zero_is_zero(reserve + x);
            }
        } else {
            // s * (reserve + x) <= x * (supply + s), so the floored quotient
            // by (supply + s) is at most x.
            assert(s * (reserve + x) <= x * (supply + s)) by (nonlinear_arith)
                requires
                    reserve * s <= x * supply,
                    0 <= x,
                    0 <= s,
            ;
            vstd::arithmetic::div_mod::lemma_div_is_ordered(
                s * (reserve + x),
                x * (supply + s),
                supply + s,
            );
            vstd::arithmetic::div_mod::lemma_div_by_multiple(x, supply + s);
        }
    }
}

/// Ratio fairness for two back-to-back deposits with no reserve movement
/// in between: the first deposit of `a` mints `sa` shares and shifts the
/// pool to `supply + sa` shares against `reserve + a` reserve tokens; the
/// second deposit of `b` then mints `sb` shares. The cross products
/// `sa * b` and `sb * a` agree up to rounding: their difference is
/// strictly below `a + b`, i.e. the per-token share ratios `sa / a` and
/// `sb / b` differ by less than `1/a + 1/b`.
pub proof fn lemma_sequential_deposit_fairness(a: int, b: int, supply: int, reserve: int)
    requires
        1 <= a,
        1 <= b,
        1 <= supply,
        1 <= reserve,
    ensures
        ({
            let sa = spec_vault_tokens(a, supply, reserve);
            let sb = spec_vault_tokens(b, supply + sa, reserve + a);
            &&& sb * a < sa * b + b
            &&& sa * b < sb * a + a + b
        }),
{
    let sa = spec_vault_tokens(a, supply, reserve);
    let s1 = supply + sa;
    let r1 = reserve + a;
    let sb = spec_vault_tokens(b, s1, r1);

    // sa == (a * supply) / reserve, bracketed by the division remainder.
    vstd::arithmetic::div_mod::lemma_fundamental_div_mod(a * supply, reserve);
    vstd::arithmetic::div_mod::lemma_mod_division_less_than_divisor(a * supply, reserve);
    vstd::arithmetic::div_mod::lemma_div_pos_is_pos(a * supply, reserve);
    assert(reserve * sa <= a * supply);
    assert(reserve * sa > a * supply - reserve);
    assert(0 <= sa);

    // sb == (b * s1) / r1, bracketed the same way.
    vstd::arithmetic::div_mod::lemma_fundamental_div_mod(b * s1, r1);
    vstd::arithmetic::div_mod::lemma_mod_division_less_than_divisor(b * s1, r1);
    vstd::arithmetic::div_mod::lemma_div_pos_is_pos(b * s1, r1);
    assert(r1 * sb <= b * s1);
    assert(r1 * sb > b * s1 - r1);
    assert(0 <= sb);

    // The first deposit cannot raise the exchange rate: s1 * reserve <= supply * r1.
    assert(s1 * reserve <= supply * r1) by (nonlinear_arith)
        requires
            s1 == supply + sa,
            r1 == reserve + a,
            reserve * sa <= a * supply,
    ;

    // Goal 1: sb * a < sa * b + b, by comparing both sides scaled by reserve.
    assert(sb * a * reserve < (sa * b + b) * reserve) by (nonlinear_arith)
        requires
            r1 * sb <= b * s1,
            s1 * reserve <= supply * r1,
            reserve * sa > a * supply - reserve,
            0 < reserve,
            0 < r1,
            1 <= a,
            1 <= b,
            0 <= sb,
    ;
    vstd::arithmetic::mul::lemma_mul_strict_inequality_converse(sb * a, sa * b + b, reserve);

    // Goal 2: sa * b < sb * a + a + b, by comparing both sides scaled by r1.
    assert(sa * b * r1 < (sb * a + a + b) * r1) by (nonlinear_arith)
        requires
            r1 * sb > b * s1 - r1,
            s1 == supply + sa,
            r1 == reserve + a,
            reserve * sa <= a * supply,
            0 < reserve,
            0 < r1,
            1 <= a,
            1 <= b,
            0 <= sa,
    ;
    vstd::arithmetic::mul::lemma_mul_strict_inequality_converse(sa * b, sb * a + a + b, r1);
}

} // verus!
