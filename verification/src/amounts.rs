//! How a successful claim splits the escrowed balance: every part is paid
//! the truncated per-part share, except the last part, which absorbs the
//! division remainder and any balance drift.

use vstd::prelude::*;
use vstd::arithmetic::div_mod::{lemma_fundamental_div_mod, lemma_mod_bound};

verus! {

/// The amount a claim of `part_index` pays when the escrow holds `balance`
/// split over `parts_count` parts: the truncated per-part share, or, for the
/// last part, whatever the other parts leave behind.
pub open spec fn part_amount(balance: u128, parts_count: u32, part_index: u32) -> u128
    recommends
        parts_count > 0,
        part_index < parts_count,
{
    let per_part = balance as int / parts_count as int;
    if part_index == parts_count - 1 {
        (balance - per_part * (parts_count - 1)) as u128
    } else {
        per_part as u128
    }
}

/// What the non-last parts take together never exceeds the balance and is
/// never negative.
pub proof fn lemma_per_part_bounds(balance: u128, parts_count: u32)
    requires
        parts_count > 0,
    ensures
        0 <= (balance as int / parts_count as int) * (parts_count - 1) <= balance,
{
    let b = balance as int;
    let n = parts_count as int;
    let per_part = b / n;
    lemma_fundamental_div_mod(b, n);
    lemma_mod_bound(b, n);
    assert(0 <= per_part * (n - 1) <= b) by (nonlinear_arith)
        requires
            b == n * per_part + b % n,
            0 <= b % n < n,
            n >= 1,
            b >= 0,
    ;
}

/// The total paid by claims of parts `0 .. upto`, each amount computed
/// against the same balance.
pub open spec fn amounts_total(balance: u128, parts_count: u32, upto: int) -> int
    decreases upto,
{
    if upto <= 0 {
        0
    } else {
        amounts_total(balance, parts_count, upto - 1) + part_amount(
            balance,
            parts_count,
            (upto - 1) as u32,
        )
    }
}

proof fn lemma_amounts_total_flat(balance: u128, parts_count: u32, upto: int)
    requires
        parts_count > 0,
        0 <= upto <= parts_count - 1,
    ensures
        amounts_total(balance, parts_count, upto) == upto * (balance as int / parts_count as int),
    decreases upto,
{
    let per_part = balance as int / parts_count as int;
    if upto == 0 {
    } else {
        lemma_amounts_total_flat(balance, parts_count, upto - 1);
        assert((upto - 1) * per_part + per_part == upto * per_part) by (nonlinear_arith);
    }
}

/// Over a full sequential claim of all `parts_count` parts, the per-part
/// amounts, each computed against the same balance, pay out that balance
/// exactly: the remainder is entirely absorbed by the last part.
pub proof fn lemma_full_claim_pays_balance(balance: u128, parts_count: u32)
    requires
        parts_count > 0,
    ensures
        amounts_total(balance, parts_count, parts_count as int) == balance,
{
    let n = parts_count as int;
    let per_part = balance as int / n;
    lemma_amounts_total_flat(balance, parts_count, n - 1);
    lemma_per_part_bounds(balance, parts_count);
    assert((n - 1) * per_part == per_part * (n - 1)) by (nonlinear_arith);
}

/// Computes one part's payout amount.
pub fn compute_part_amount(balance: u128, parts_count: u32, part_index: u32) -> (amount: u128)
    requires
        parts_count > 0,
        part_index < parts_count,
    ensures
        amount == part_amount(balance, parts_count, part_index),
{
    let per_part = balance / (parts_count as u128);
    if part_index == parts_count - 1 {
        proof {
            lemma_per_part_bounds(balance, parts_count);
        }
        balance - per_part * ((parts_count - 1) as u128)
    } else {
        per_part
    }
}

} // verus!
