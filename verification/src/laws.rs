use vstd::prelude::*;
use crate::error::SettlementError;
use crate::fees::{FEE_DENOMINATOR, fee_amount_spec, fee_fits, lemma_fee_amount_bounds};
use crate::fees::seller_amount_spec;
use crate::purchase::{Purchase, settle_err, settle_ok, settled, valid_purchase};

verus! {

/// The fee split is exact and lossless: the withheld fee is
/// `floor(price * fee / 10000)` — never rounded up — and the fee and the
/// seller's cut always add back to the price.
pub proof fn lemma_fee_split(price: int, fee: int)
    requires
        price > 0,
        0 <= fee <= FEE_DENOMINATOR,
    ensures
        fee_amount_spec(price, fee) + seller_amount_spec(price, fee) == price,
        fee_amount_spec(price, fee) == (price * fee) / (FEE_DENOMINATOR as int),
        0 <= fee_amount_spec(price, fee) <= price,
{
    lemma_fee_amount_bounds(price, fee);
}

/// The degenerate fee rates: a zero rate hands the whole price to the
/// seller, and the full ten-thousand basis points absorb it entirely.
pub proof fn lemma_fee_boundaries(price: int)
    requires
        price >= 0,
    ensures
        fee_amount_spec(price, 0) == 0,
        seller_amount_spec(price, 0) == price,
        fee_amount_spec(price, FEE_DENOMINATOR as int) == price,
        seller_amount_spec(price, FEE_DENOMINATOR as int) == 0,
{
    let d = FEE_DENOMINATOR as int;
    vstd::arithmetic::div_mod::lemma_div_basics(d);
    assert(price * 0 == 0);
    vstd::arithmetic::mul::lemma_mul_is_commutative(price, d);
    vstd::arithmetic::div_mod::lemma_div_multiples_vanish(price, d);
}

/// No replay of a settled vault: one successful settlement leaves the vault
/// empty, and a second attempt against the same records is rejected for
/// insufficient funds — the escrowed asset cannot be spent twice.
pub proof fn lemma_no_replay(p: Purchase)
    requires
        settle_ok(p),
        p.vault.amount == 1,
    ensures
        settled(p).vault.amount == 0,
        !settle_ok(settled(p)),
        settle_err(settled(p)) == SettlementError::InsufficientFunds,
{
}

/// Exclusive settlement under racing requests: whichever request commits
/// first empties the vault, so any competing request that then observes the
/// committed state — whoever its buyer is — fails, and with insufficient
/// funds whenever its own wiring and fee arithmetic are sound. No
/// intermediate state is observable: a settlement either applies both
/// transfers or leaves every balance as it was.
pub proof fn lemma_exclusive_settlement(p1: Purchase, p2: Purchase)
    requires
        settle_ok(p1),
        p1.vault.amount == 1,
        p2.vault == settled(p1).vault,
    ensures
        !settle_ok(p2),
        valid_purchase(p2) && fee_fits(p2.listing.price as int, p2.marketplace.fee as int)
            ==> settle_err(p2) == SettlementError::InsufficientFunds,
{
}

/// Fail-fast on forged derivations: any mismatch between a supplied address
/// and the value recomputed from seeds and bump makes the whole request
/// structurally invalid, so it is rejected — as a structural failure — before
/// either transfer executes.
pub proof fn lemma_reject_on_mismatch(p: Purchase)
    requires
        !valid_purchase(p),
    ensures
        !settle_ok(p),
        settle_err(p) == SettlementError::StructuralMismatch,
{
}

} // verus!
