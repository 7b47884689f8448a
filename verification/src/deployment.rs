use crate::accounts::{derive_vault_account, vault_account_of, AccountId};
use crate::conversion::{tokens_to_payment, tokens_to_payment_spec, TOKEN_SCALE};
use crate::errors::ErrorCode;
use vstd::prelude::*;

verus! {

/// The persistent configuration record of a deployment, created once by
/// `initialize` and never deleted.
#[derive(Clone, Copy, Debug, PartialEq, Eq, Structural)]
pub struct ProgramState {
    /// The identity permitted to change the rate and withdraw collected
    /// payment. Fixed at creation.
    pub authority: AccountId,
    /// The token asset being sold. Fixed at creation.
    pub token_mint: AccountId,
    /// The custodial token holding, derived deterministically from
    /// `token_mint` at creation; never independently settable.
    pub token_vault: AccountId,
    /// Token base units delivered per whole unit of payment; always
    /// positive once the record exists.
    pub tokens_to_sol_rate: u64,
    /// The most tokens a single purchase may deliver.
    pub limit_per_purchase: u64,
}

/// The accounts an `initialize` call presents: the signing authority and
/// the token asset to sell.
#[derive(Clone, Copy, Debug, PartialEq, Eq, Structural)]
pub struct Initialize {
    pub authority: AccountId,
    pub token_mint: AccountId,
}

/// The account a `set_rate` call presents: the identity that signed the
/// call and claims to be the authority.
#[derive(Clone, Copy, Debug, PartialEq, Eq, Structural)]
pub struct SetRate {
    pub authority: AccountId,
}

/// The buyer's holdings a `purchase` call presents, as the ledger reports
/// them at entry; on success the call hands back their updated values.
#[derive(Clone, Copy, Debug, PartialEq, Eq, Structural)]
pub struct Purchase {
    /// The buyer's payment holding, in payment base units.
    pub payment_balance: u64,
    /// The buyer's token holding, in token base units.
    pub token_balance: u64,
}

/// The account a `withdraw_sol` call presents: the identity that signed
/// the call and its payment holding, to be credited on success.
#[derive(Clone, Copy, Debug, PartialEq, Eq, Structural)]
pub struct WithdrawSol {
    pub authority: AccountId,
    pub payment_balance: u64,
}

/// One deployment of the vault: the single optional state record, plus the
/// two custodial holdings the deployment controls. The token holding is
/// funded externally (a plain ledger transfer into the vault), so callers
/// may set `token_balance` directly; all other movement goes through the
/// operations below, each of which either commits all of its effects or
/// none.
#[derive(Clone, Copy, Debug, PartialEq, Eq, Structural)]
pub struct Deployment {
    /// `None` until `initialize` succeeds; `Some` ever after.
    pub state: Option<ProgramState>,
    /// Payment collected from purchases and not yet withdrawn, in payment
    /// base units.
    pub payment_balance: u64,
    /// Unsold tokens held for sale, in token base units.
    pub token_balance: u64,
}

/// What `purchase` returns, as a function of the state, the buyer's
/// holdings and the requested token amount: the first failed check decides
/// the error, and only a fully checked purchase yields the delivered
/// amount.
pub open spec fn purchase_outcome(d: Deployment, buyer: Purchase, token_amount: u64) -> Result<
    u64,
    ErrorCode,
>
    recommends
        d.wf(),
        d.is_initialized(),
{
    let cost = tokens_to_payment_spec(token_amount as int, d.rate_spec());
    if token_amount * TOKEN_SCALE > u64::MAX {
        Err(ErrorCode::ArithmeticOverflow)
    } else if token_amount > d.limit_spec() {
        Err(ErrorCode::ExceedsMaxPurchase)
    } else if (buyer.payment_balance as int) < cost {
        Err(ErrorCode::InsufficientPaymentBalance)
    } else if (d.token_balance as int) < token_amount {
        Err(ErrorCode::InsufficientTokenBalance)
    } else if d.payment_balance + cost > u64::MAX || buyer.token_balance + token_amount
        > u64::MAX {
        Err(ErrorCode::ArithmeticOverflow)
    } else {
        Ok(token_amount)
    }
}

impl Deployment {
    /// Well-formedness: an initialized deployment never holds a zero rate,
    /// so no conversion ever divides by zero.
    pub open spec fn wf(self) -> bool {
        self.is_initialized() ==> self.state->Some_0.tokens_to_sol_rate > 0
    }

    /// Whether the one-time `initialize` has happened.
    pub open spec fn is_initialized(self) -> bool {
        self.state is Some
    }

    /// The configured rate, as a mathematical integer.
    pub open spec fn rate_spec(self) -> int
        recommends
            self.is_initialized(),
    {
        self.state->Some_0.tokens_to_sol_rate as int
    }

    /// The configured per-purchase limit, as a mathematical integer.
    pub open spec fn limit_spec(self) -> int
        recommends
            self.is_initialized(),
    {
        self.state->Some_0.limit_per_purchase as int
    }

    /// The configured authority.
    pub open spec fn authority_spec(self) -> AccountId
        recommends
            self.is_initialized(),
    {
        self.state->Some_0.authority
    }

    /// A fresh deployment: no state record, nothing collected, nothing to
    /// sell.
    pub fn new() -> (d: Deployment)
        ensures
            !d.is_initialized(),
            d.payment_balance == 0,
            d.token_balance == 0,
            d.wf(),
    {
        Deployment { state: None, payment_balance: 0, token_balance: 0 }
    }

    /// Creates the one state record of the deployment: stores the caller as
    /// authority, the token asset, the rate and the per-purchase limit, and
    /// derives the custodial token holding from the asset. A second call
    /// always fails with `AlreadyInitialized` and changes nothing; a zero
    /// rate is rejected with `InvalidRate`.
    pub fn initialize(
        &mut self,
        accounts: &Initialize,
        tokens_to_sol_rate: u64,
        limit_per_purchase: u64,
    ) -> (result: Result<(), ErrorCode>)
        requires
            old(self).wf(),
        ensures
            final(self).wf(),
            final(self).payment_balance == old(self).payment_balance,
            final(self).token_balance == old(self).token_balance,
            old(self).is_initialized() ==> result == Err::<(), ErrorCode>(
                ErrorCode::AlreadyInitialized,
            ) && *final(self) == *old(self),
            !old(self).is_initialized() && tokens_to_sol_rate == 0 ==> result == Err::<
                (),
                ErrorCode,
            >(ErrorCode::InvalidRate) && *final(self) == *old(self),
            !old(self).is_initialized() && tokens_to_sol_rate > 0 ==> {
                &&& result == Ok::<(), ErrorCode>(())
                &&& final(self).is_initialized()
                &&& final(self).state->Some_0.authority == accounts.authority
                &&& final(self).state->Some_0.token_mint == accounts.token_mint
                &&& final(self).state->Some_0.token_vault.0 == vault_account_of(
                    accounts.token_mint.0,
                )
                &&& final(self).state->Some_0.tokens_to_sol_rate == tokens_to_sol_rate
                &&& final(self).state->Some_0.limit_per_purchase == limit_per_purchase
            },
    {
        if self.state.is_some() {
            return Err(ErrorCode::AlreadyInitialized);
        }
        if tokens_to_sol_rate == 0 {
            return Err(ErrorCode::InvalidRate);
        }
        let token_vault = derive_vault_account(&accounts.token_mint);
        self.state = Some(
            ProgramState {
                authority: accounts.authority,
                token_mint: accounts.token_mint,
                token_vault,
                tokens_to_sol_rate,
                limit_per_purchase,
            },
        );
        Ok(())
    }

    /// Overwrites the rate. Only the configured authority may do so, and
    /// only with a positive rate; any failure leaves the deployment
    /// untouched.
    pub fn set_rate(&mut self, accounts: &SetRate, new_rate: u64) -> (result: Result<
        (),
        ErrorCode,
    >)
        requires
            old(self).wf(),
            old(self).is_initialized(),
        ensures
            final(self).wf(),
            final(self).is_initialized(),
            final(self).payment_balance == old(self).payment_balance,
            final(self).token_balance == old(self).token_balance,
            accounts.authority != old(self).authority_spec() ==> result == Err::<(), ErrorCode>(
                ErrorCode::Unauthorized,
            ) && *final(self) == *old(self),
            accounts.authority == old(self).authority_spec() && new_rate == 0 ==> result == Err::<
                (),
                ErrorCode,
            >(ErrorCode::InvalidRate) && *final(self) == *old(self),
            accounts.authority == old(self).authority_spec() && new_rate > 0 ==> result == Ok::<
                (),
                ErrorCode,
            >(()) && final(self).state == Some(
                (ProgramState { tokens_to_sol_rate: new_rate, ..old(self).state->Some_0 }),
            ),
    {
        let st = match self.state {
            Some(s) => s,
            None => vstd::pervasive::unreached(),
        };
        if accounts.authority != st.authority {
            return Err(ErrorCode::Unauthorized);
        }
        if new_rate == 0 {
            return Err(ErrorCode::InvalidRate);
        }
        self.state = Some(ProgramState { tokens_to_sol_rate: new_rate, ..st });
        Ok(())
    }

    /// Sells `token_amount` tokens to the buyer whose holdings are in
    /// `accounts`: computes the payment owed at the configured rate, checks
    /// the per-purchase limit and all four balances, and only then moves
    /// payment in and tokens out, all at once. Returns the tokens
    /// delivered. On any failure nothing at all changes, so the payment leg
    /// is never observable without the token leg.
    pub fn purchase(&mut self, accounts: &mut Purchase, token_amount: u64) -> (result: Result<
        u64,
        ErrorCode,
    >)
        requires
            old(self).wf(),
            old(self).is_initialized(),
        ensures
            final(self).wf(),
            final(self).state == old(self).state,
            result == purchase_outcome(*old(self), *old(accounts), token_amount),
            result is Err ==> *final(self) == *old(self) && *final(accounts) == *old(accounts),
            result is Ok ==> ({
                let cost = tokens_to_payment_spec(token_amount as int, old(self).rate_spec());
                &&& final(accounts).payment_balance == old(accounts).payment_balance - cost
                &&& final(accounts).token_balance == old(accounts).token_balance + token_amount
                &&& final(self).payment_balance == old(self).payment_balance + cost
                &&& final(self).token_balance == old(self).token_balance - token_amount
            }),
            final(self).payment_balance + final(accounts).payment_balance == old(
                self,
            ).payment_balance + old(accounts).payment_balance,
            final(self).token_balance + final(accounts).token_balance == old(self).token_balance
                + old(accounts).token_balance,
    {
        let st = match self.state {
            Some(s) => s,
            None => vstd::pervasive::unreached(),
        };
        let sol_required = match tokens_to_payment(token_amount, st.tokens_to_sol_rate) {
            Ok(v) => v,
            Err(e) => {
                return Err(e);
            },
        };
        if token_amount > st.limit_per_purchase {
            return Err(ErrorCode::ExceedsMaxPurchase);
        }
        if accounts.payment_balance < sol_required {
            return Err(ErrorCode::InsufficientPaymentBalance);
        }
        if self.token_balance < token_amount {
            return Err(ErrorCode::InsufficientTokenBalance);
        }
        let new_vault_payment = match self.payment_balance.checked_add(sol_required) {
            Some(v) => v,
            None => {
                return Err(ErrorCode::ArithmeticOverflow);
            },
        };
        let new_buyer_tokens = match accounts.token_balance.checked_add(token_amount) {
            Some(v) => v,
            None => {
                return Err(ErrorCode::ArithmeticOverflow);
            },
        };
        accounts.payment_balance = accounts.payment_balance - sol_required;
        accounts.token_balance = new_buyer_tokens;
        self.payment_balance = new_vault_payment;
        self.token_balance = self.token_balance - token_amount;
        Ok(token_amount)
    }

    /// Moves `amount` of collected payment from the vault to the caller's
    /// holding, as one atomic transfer. Only the configured authority may
    /// withdraw, and never more than the vault has collected; any failure
    /// leaves both holdings untouched.
    pub fn withdraw_sol(&mut self, accounts: &mut WithdrawSol, amount: u64) -> (result: Result<
        (),
        ErrorCode,
    >)
        requires
            old(self).wf(),
            old(self).is_initialized(),
        ensures
            final(self).wf(),
            final(self).state == old(self).state,
            final(self).token_balance == old(self).token_balance,
            final(accounts).authority == old(accounts).authority,
            old(accounts).authority != old(self).authority_spec() ==> result == Err::<
                (),
                ErrorCode,
            >(ErrorCode::Unauthorized),
            old(accounts).authority == old(self).authority_spec() && amount > old(
                self,
            ).payment_balance ==> result == Err::<(), ErrorCode>(ErrorCode::InsufficientBalance),
            old(accounts).authority == old(self).authority_spec() && amount <= old(
                self,
            ).payment_balance && old(accounts).payment_balance + amount > u64::MAX ==> result
                == Err::<(), ErrorCode>(ErrorCode::ArithmeticOverflow),
            old(accounts).authority == old(self).authority_spec() && amount <= old(
                self,
            ).payment_balance && old(accounts).payment_balance + amount <= u64::MAX ==> {
                &&& result == Ok::<(), ErrorCode>(())
                &&& final(self).payment_balance == old(self).payment_balance - amount
                &&& final(accounts).payment_balance == old(accounts).payment_balance + amount
            },
            result is Err ==> *final(self) == *old(self) && *final(accounts) == *old(accounts),
            final(self).payment_balance + final(accounts).payment_balance == old(
                self,
            ).payment_balance + old(accounts).payment_balance,
    {
        let st = match self.state {
            Some(s) => s,
            None => vstd::pervasive::unreached(),
        };
        if accounts.authority != st.authority {
            return Err(ErrorCode::Unauthorized);
        }
        if amount > self.payment_balance {
            return Err(ErrorCode::InsufficientBalance);
        }
        let new_authority_payment = match accounts.payment_balance.checked_add(amount) {
            Some(v) => v,
            None => {
                return Err(ErrorCode::ArithmeticOverflow);
            },
        };
        self.payment_balance = self.payment_balance - amount;
        accounts.payment_balance = new_authority_payment;
        Ok(())
    }

    /// Whether the deployment holds its state record yet.
    pub fn initialized(&self) -> (b: bool)
        ensures
            b == self.is_initialized(),
    {
        self.state.is_some()
    }
}

} // verus!
