use vstd::prelude::*;
use crate::error::SettlementError;

verus! {

/// Denominator for fee rates expressed in basis points.
pub const FEE_DENOMINATOR: u64 = 10000;

/// The protocol fee withheld from the seller: `floor(price * fee / 10000)`.
pub open spec fn fee_amount_spec(price: int, fee: int) -> int {
    (price * fee) / (FEE_DENOMINATOR as int)
}

/// What the seller receives once the fee is withheld.
pub open spec fn seller_amount_spec(price: int, fee: int) -> int {
    price - fee_amount_spec(price, fee)
}

/// The fee computation is performed on 64-bit words; it is refused when the
/// intermediate product `price * fee` does not fit.
pub open spec fn fee_fits(price: int, fee: int) -> bool {
    price * fee <= u64::MAX as int
}

/// The withheld fee never exceeds the price while the rate stays within the
/// basis-point range.
pub proof fn lemma_fee_amount_bounds(price: int, fee: int)
    requires
        0 <= price,
        0 <= fee <= FEE_DENOMINATOR,
    ensures
        0 <= fee_amount_spec(price, fee) <= price,
{
    let d = FEE_DENOMINATOR as int;
    vstd::arithmetic::mul::lemma_mul_nonnegative(price, fee);
    vstd::arithmetic::div_mod::lemma_div_pos_is_pos(price * fee, d);
    vstd::arithmetic::mul::lemma_mul_inequality(fee, d, price);
    vstd::arithmetic::mul::lemma_mul_is_commutative(fee, price);
    vstd::arithmetic::mul::lemma_mul_is_commutative(d, price);
    vstd::arithmetic::div_mod::lemma_div_is_ordered(price * fee, price * d, d);
    vstd::arithmetic::div_mod::lemma_div_multiples_vanish(price, d);
}

/// Computes the protocol fee `floor(price * fee / 10000)`, refusing the
/// request when the 64-bit product would overflow.
pub fn fee_amount(price: u64, fee: u16) -> (r: Result<u64, SettlementError>)
    ensures
        r is Ok <==> fee_fits(price as int, fee as int),
        r is Ok ==> r->Ok_0 == fee_amount_spec(price as int, fee as int),
        r is Err ==> r->Err_0 == SettlementError::ArithmeticOverflow,
{
    proof {
        vstd::arithmetic::mul::lemma_mul_upper_bound(
            price as int,
            u64::MAX as int,
            fee as int,
            u16::MAX as int,
        );
    }
    let product: u128 = (price as u128) * (fee as u128);
    if product > u64::MAX as u128 {
        Err(SettlementError::ArithmeticOverflow)
    } else {
        proof {
            vstd::arithmetic::div_mod::lemma_div_is_ordered(
                product as int,
                u64::MAX as int,
                FEE_DENOMINATOR as int,
            );
        }
        Ok((product / (FEE_DENOMINATOR as u128)) as u64)
    }
}

/// Computes what the seller is owed: the price less the protocol fee.
pub fn seller_amount(price: u64, fee: u16) -> (r: Result<u64, SettlementError>)
    requires
        fee <= FEE_DENOMINATOR,
    ensures
        r is Ok <==> fee_fits(price as int, fee as int),
        r is Ok ==> r->Ok_0 == seller_amount_spec(price as int, fee as int),
        r is Err ==> r->Err_0 == SettlementError::ArithmeticOverflow,
{
    match fee_amount(price, fee) {
        Ok(f) => {
            proof {
                lemma_fee_amount_bounds(price as int, fee as int);
            }
            Ok(price - f)
        },
        Err(e) => Err(e),
    }
}

} // verus!
