use presale_vault::{payment_to_tokens, tokens_to_payment, ErrorCode};

#[test]
fn exact_conversion_at_five_to_one() {
    // rate = 5 * 10^9 with scale 10^9: 2 units of payment buy exactly 10 tokens.
    assert_eq!(payment_to_tokens(2, 5_000_000_000), Ok(10));
}

#[test]
fn exact_round_trip_at_five_to_one() {
    // The 10 tokens from the exact conversion cost exactly the 2 units back.
    assert_eq!(tokens_to_payment(10, 5_000_000_000), Ok(2));
}

#[test]
fn payment_to_tokens_rounds_down() {
    // 3 * 500_000_000 / 10^9 = 1.5, floored to 1.
    assert_eq!(payment_to_tokens(3, 500_000_000), Ok(1));
}

#[test]
fn tokens_to_payment_rounds_down() {
    // 1 * 10^9 / 3 = 333_333_333.33..., floored.
    assert_eq!(tokens_to_payment(1, 3), Ok(333_333_333));
}

#[test]
fn payment_to_tokens_overflow_is_reported() {
    // u64::MAX * 2 does not fit in 64 bits and must not wrap silently.
    assert_eq!(payment_to_tokens(u64::MAX, 2), Err(ErrorCode::ArithmeticOverflow));
}

#[test]
fn tokens_to_payment_overflow_is_reported() {
    // u64::MAX * 10^9 does not fit in 64 bits.
    assert_eq!(tokens_to_payment(u64::MAX, 1), Err(ErrorCode::ArithmeticOverflow));
}

#[test]
fn tokens_to_payment_rejects_zero_rate() {
    assert_eq!(tokens_to_payment(5, 0), Err(ErrorCode::DivisionByZero));
}

#[test]
fn payment_to_tokens_at_zero_rate_buys_nothing() {
    // No division is involved in this direction; a zero rate just yields
    // zero tokens.
    assert_eq!(payment_to_tokens(5, 0), Ok(0));
}

#[test]
fn zero_amounts_convert_to_zero() {
    assert_eq!(payment_to_tokens(0, 1_000_000_000), Ok(0));
    assert_eq!(tokens_to_payment(0, 1_000_000_000), Ok(0));
}
