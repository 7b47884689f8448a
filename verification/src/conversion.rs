use crate::errors::ErrorCode;
use vstd::arithmetic::div_mod::{lemma_div_multiples_vanish, lemma_fundamental_div_mod};
use vstd::prelude::*;

verus! {

/// Fixed-point scale of the two assets: one whole token (and one whole unit
/// of payment) is `TOKEN_SCALE` base units. All conversion arithmetic works
/// on base units and divides by this constant, rounding down.
pub const TOKEN_SCALE: u64 = 1_000_000_000;

/// Token base units bought by `payment_amount` base units of payment at
/// `rate` (token base units per whole payment unit), rounding down.
pub open spec fn payment_to_tokens_spec(payment_amount: int, rate: int) -> int {
    payment_amount * rate / (TOKEN_SCALE as int)
}

/// Payment base units owed for `token_amount` token base units at `rate`,
/// rounding down.
pub open spec fn tokens_to_payment_spec(token_amount: int, rate: int) -> int
    recommends
        rate > 0,
{
    token_amount * (TOKEN_SCALE as int) / rate
}

/// Converts a payment amount into the token amount it buys at `rate`.
///
/// The product is computed in 64 bits: if `payment_amount * rate` does not
/// fit, the conversion fails with `ArithmeticOverflow` and never wraps.
pub fn payment_to_tokens(payment_amount: u64, rate: u64) -> (result: Result<u64, ErrorCode>)
    ensures
        payment_amount * rate > u64::MAX ==> result == Err::<u64, ErrorCode>(
            ErrorCode::ArithmeticOverflow,
        ),
        payment_amount * rate <= u64::MAX ==> result == Ok::<u64, ErrorCode>(
            (payment_to_tokens_spec(payment_amount as int, rate as int)) as u64,
        ),
{
    match payment_amount.checked_mul(rate) {
        Some(scaled) => Ok(scaled / TOKEN_SCALE),
        None => Err(ErrorCode::ArithmeticOverflow),
    }
}

/// Converts a token amount into the payment it costs at `rate`.
///
/// A zero rate is rejected with `DivisionByZero` before any division; a
/// product that does not fit in 64 bits is rejected with
/// `ArithmeticOverflow` and never wraps.
pub fn tokens_to_payment(token_amount: u64, rate: u64) -> (result: Result<u64, ErrorCode>)
    ensures
        rate == 0 ==> result == Err::<u64, ErrorCode>(ErrorCode::DivisionByZero),
        rate > 0 && token_amount * TOKEN_SCALE > u64::MAX ==> result == Err::<u64, ErrorCode>(
            ErrorCode::ArithmeticOverflow,
        ),
        rate > 0 && token_amount * TOKEN_SCALE <= u64::MAX ==> result == Ok::<u64, ErrorCode>(
            (tokens_to_payment_spec(token_amount as int, rate as int)) as u64,
        ),
{
    if rate == 0 {
        return Err(ErrorCode::DivisionByZero);
    }
    match token_amount.checked_mul(TOKEN_SCALE) {
        Some(scaled) => Ok(scaled / rate),
        None => Err(ErrorCode::ArithmeticOverflow),
    }
}

/// The two conversion directions are mutually consistent: whenever a payment
/// amount converts to tokens without rounding loss, converting those tokens
/// back yields exactly the payment amount it started from.
pub proof fn lemma_conversion_round_trip(payment_amount: u64, rate: u64)
    requires
        rate > 0,
        (payment_amount * rate) % (TOKEN_SCALE as int) == 0,
    ensures
        tokens_to_payment_spec(
            payment_to_tokens_spec(payment_amount as int, rate as int),
            rate as int,
        ) == payment_amount,
{
    let s = TOKEN_SCALE as int;
    let p = payment_amount as int;
    let r = rate as int;
    let t = p * r / s;
    lemma_fundamental_div_mod(p * r, s);
    assert(t * s == p * r);
    lemma_div_multiples_vanish(p, r);
    assert(r * p / r == p);
}

/// The inverse direction: whenever a token amount converts to payment
/// without rounding loss, converting that payment back yields exactly the
/// token amount it started from.
pub proof fn lemma_conversion_inverse(token_amount: u64, rate: u64)
    requires
        rate > 0,
        (token_amount * TOKEN_SCALE) % (rate as int) == 0,
    ensures
        payment_to_tokens_spec(
            tokens_to_payment_spec(token_amount as int, rate as int),
            rate as int,
        ) == token_amount,
{
    let s = TOKEN_SCALE as int;
    let t = token_amount as int;
    let r = rate as int;
    let p = t * s / r;
    lemma_fundamental_div_mod(t * s, r);
    assert(p * r == t * s);
    lemma_div_multiples_vanish(t, s);
    assert(s * t / s == t);
}

} // verus!
