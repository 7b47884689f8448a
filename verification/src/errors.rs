use vstd::prelude::*;

verus! {

/// The failure taxonomy of the vault. Every operation checks its
/// preconditions before committing any effect, so a call that returns one of
/// these errors leaves all state and balances exactly as they were.
#[derive(Clone, Copy, Debug, PartialEq, Eq, Structural)]
pub enum ErrorCode {
    /// The caller of an authority-gated operation is not the configured
    /// authority.
    Unauthorized,
    /// `initialize` was called on a deployment that already holds a state
    /// record.
    AlreadyInitialized,
    /// A rate of zero was supplied to `initialize` or `set_rate`.
    InvalidRate,
    /// An intermediate product or a credited balance would not fit in 64
    /// bits.
    ArithmeticOverflow,
    /// A conversion was asked for at a zero rate.
    DivisionByZero,
    /// A purchase asked for more tokens than the per-purchase limit allows.
    ExceedsMaxPurchase,
    /// The buyer's payment holding cannot cover the price of the purchase.
    InsufficientPaymentBalance,
    /// The vault holds fewer tokens than the purchase would deliver.
    InsufficientTokenBalance,
    /// A withdrawal asked for more payment than the vault has collected.
    InsufficientBalance,
}

} // verus!
