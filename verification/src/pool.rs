use vstd::prelude::*;

use crate::account::{spec_account_id_bytes, AccountId, PalletId};
use crate::errors::{DispatchError, Error, TransferError};
use crate::ledger::{transfer, transfer_failure, transfer_ok, AccountBalances, Balance, Ledger};
use crate::pricing::{
    constant_product_quote, quote_ok, spec_amount_out, spec_new_reserve_in, spec_new_reserve_out,
};

verus! {

/// The fixed configuration the engine runs under: the seed its
/// custody account is derived from. Supplied once at startup,
/// immutable thereafter.
#[derive(Clone, Copy, Debug, PartialEq, Eq)]
pub struct Config {
    pub pallet_id: PalletId,
}

/// The pool engine. It holds no balances of its own — every operation
/// reads and writes the ledger slice handed to it — and carries only
/// its fixed configuration.
#[derive(Clone, Copy, Debug, PartialEq, Eq)]
pub struct Pallet {
    pub config: Config,
}

/// The domain events an operation reports on success, one per
/// operation, carrying the caller and the amounts that actually
/// moved.
#[derive(Clone, Debug, PartialEq, Eq)]
pub enum Event {
    LiquidityProvided { who: AccountId, eur_amount: Balance, usd_amount: Balance },
    SwappedEurToUsd { who: AccountId, eur_amount: Balance, usd_amount: Balance },
    SwappedUsdToEur { who: AccountId, eur_amount: Balance, usd_amount: Balance },
}

/// When a liquidity deposit goes through: both transfers into the
/// pool must be acceptable to the ledger. No relation between the two
/// amounts — or between them and the current reserves — is required:
/// a deposit at any ratio is accepted, a deliberate property of this
/// design.
pub open spec fn provide_ok(l: Ledger, eur_amount: Balance, usd_amount: Balance) -> bool {
    &&& transfer_ok(l.caller.eur as int, l.pool.eur as int, eur_amount as int)
    &&& transfer_ok(l.caller.usd as int, l.pool.usd as int, usd_amount as int)
}

/// The error a refused deposit reports: the failure of the first
/// transfer the ledger refuses, in operation order.
pub open spec fn provide_failure(l: Ledger, eur_amount: Balance, usd_amount: Balance) -> TransferError {
    if !transfer_ok(l.caller.eur as int, l.pool.eur as int, eur_amount as int) {
        transfer_failure(l.caller.eur as int, l.pool.eur as int, eur_amount as int)
    } else {
        transfer_failure(l.caller.usd as int, l.pool.usd as int, usd_amount as int)
    }
}

/// The ledger a successful deposit leaves behind: both amounts moved
/// from the caller to the pool.
pub open spec fn ledger_after_provide(l: Ledger, eur_amount: Balance, usd_amount: Balance) -> Ledger {
    Ledger {
        caller: AccountBalances {
            eur: (l.caller.eur - eur_amount) as Balance,
            usd: (l.caller.usd - usd_amount) as Balance,
        },
        pool: AccountBalances {
            eur: (l.pool.eur + eur_amount) as Balance,
            usd: (l.pool.usd + usd_amount) as Balance,
        },
    }
}

/// When a eur-to-usd swap goes through: every arithmetic step of the
/// pricing succeeds, the caller can supply the input, and the payout
/// is acceptable to the ledger.
pub open spec fn swap_eur_ok(l: Ledger, eur_amount: Balance) -> bool {
    &&& quote_ok(l.pool.eur as int, l.pool.usd as int, eur_amount as int)
    &&& transfer_ok(l.caller.eur as int, l.pool.eur as int, eur_amount as int)
    &&& transfer_ok(
        l.pool.usd as int,
        l.caller.usd as int,
        spec_amount_out(l.pool.eur as int, l.pool.usd as int, eur_amount as int),
    )
}

/// The error a refused eur-to-usd swap reports: the arithmetic error
/// if any pricing step fails, else the failure of the first transfer
/// the ledger refuses, in operation order.
pub open spec fn swap_eur_failure(l: Ledger, eur_amount: Balance) -> DispatchError {
    if !quote_ok(l.pool.eur as int, l.pool.usd as int, eur_amount as int) {
        DispatchError::Arithmetic(Error::GenericError)
    } else if !transfer_ok(l.caller.eur as int, l.pool.eur as int, eur_amount as int) {
        DispatchError::Transfer(
            transfer_failure(l.caller.eur as int, l.pool.eur as int, eur_amount as int),
        )
    } else {
        DispatchError::Transfer(
            transfer_failure(
                l.pool.usd as int,
                l.caller.usd as int,
                spec_amount_out(l.pool.eur as int, l.pool.usd as int, eur_amount as int),
            ),
        )
    }
}

/// The ledger a successful eur-to-usd swap leaves behind: the input
/// joins the pool's eur reserve, and the usd reserve drops to the
/// truncated constant-product quotient, the difference paid to the
/// caller.
pub open spec fn ledger_after_swap_eur(l: Ledger, eur_amount: Balance) -> Ledger {
    let out = spec_amount_out(l.pool.eur as int, l.pool.usd as int, eur_amount as int);
    Ledger {
        caller: AccountBalances {
            eur: (l.caller.eur - eur_amount) as Balance,
            usd: (l.caller.usd + out) as Balance,
        },
        pool: AccountBalances {
            eur: (l.pool.eur + eur_amount) as Balance,
            usd: (l.pool.usd - out) as Balance,
        },
    }
}

/// When a usd-to-eur swap goes through; the mirror image of
/// `swap_eur_ok`.
pub open spec fn swap_usd_ok(l: Ledger, usd_amount: Balance) -> bool {
    &&& quote_ok(l.pool.usd as int, l.pool.eur as int, usd_amount as int)
    &&& transfer_ok(l.caller.usd as int, l.pool.usd as int, usd_amount as int)
    &&& transfer_ok(
        l.pool.eur as int,
        l.caller.eur as int,
        spec_amount_out(l.pool.usd as int, l.pool.eur as int, usd_amount as int),
    )
}

/// The error a refused usd-to-eur swap reports; the mirror image of
/// `swap_eur_failure`.
pub open spec fn swap_usd_failure(l: Ledger, usd_amount: Balance) -> DispatchError {
    if !quote_ok(l.pool.usd as int, l.pool.eur as int, usd_amount as int) {
        DispatchError::Arithmetic(Error::GenericError)
    } else if !transfer_ok(l.caller.usd as int, l.pool.usd as int, usd_amount as int) {
        DispatchError::Transfer(
            transfer_failure(l.caller.usd as int, l.pool.usd as int, usd_amount as int),
        )
    } else {
        DispatchError::Transfer(
            transfer_failure(
                l.pool.eur as int,
                l.caller.eur as int,
                spec_amount_out(l.pool.usd as int, l.pool.eur as int, usd_amount as int),
            ),
        )
    }
}

/// The ledger a successful usd-to-eur swap leaves behind; the mirror
/// image of `ledger_after_swap_eur`.
pub open spec fn ledger_after_swap_usd(l: Ledger, usd_amount: Balance) -> Ledger {
    let out = spec_amount_out(l.pool.usd as int, l.pool.eur as int, usd_amount as int);
    Ledger {
        caller: AccountBalances {
            eur: (l.caller.eur + out) as Balance,
            usd: (l.caller.usd - usd_amount) as Balance,
        },
        pool: AccountBalances {
            eur: (l.pool.eur - out) as Balance,
            usd: (l.pool.usd + usd_amount) as Balance,
        },
    }
}

impl Pallet {
    /// The custody account the pool's reserves live under: a pure
    /// function of the configured seed, the same identifier on every
    /// call.
    pub fn account_id(&self) -> (r: AccountId)
        ensures
            r.bytes@ == spec_account_id_bytes(self.config.pallet_id.bytes@),
    {
        self.config.pallet_id.derive_account_id()
    }

    /// Deposits `eur_amount` and `usd_amount` from the caller into the
    /// pool, in that order, as one atomic unit: either both transfers
    /// commit and the deposit event is reported, or the ledger is left
    /// exactly as it was and the first refused transfer's error comes
    /// back. No ratio between the amounts and the current reserves is
    /// enforced.
    pub fn provide_liquidity(
        &self,
        ledger: &mut Ledger,
        who: AccountId,
        eur_amount: Balance,
        usd_amount: Balance,
    ) -> (r: Result<Event, DispatchError>)
        ensures
            r is Ok <==> provide_ok(*old(ledger), eur_amount, usd_amount),
            r is Ok ==> *final(ledger) == ledger_after_provide(*old(ledger), eur_amount, usd_amount),
            r is Ok ==> r == Ok::<_, DispatchError>(
                (Event::LiquidityProvided { who, eur_amount, usd_amount }),
            ),
            r is Err ==> *final(ledger) == *old(ledger),
            r is Err ==> r == Err::<Event, _>(
                DispatchError::Transfer(provide_failure(*old(ledger), eur_amount, usd_amount)),
            ),
    {
        let eur_moved = match transfer(ledger.caller.eur, ledger.pool.eur, eur_amount) {
            Ok(p) => p,
            Err(e) => {
                return Err(DispatchError::Transfer(e));
            },
        };
        let usd_moved = match transfer(ledger.caller.usd, ledger.pool.usd, usd_amount) {
            Ok(p) => p,
            Err(e) => {
                return Err(DispatchError::Transfer(e));
            },
        };
        ledger.caller.eur = eur_moved.0;
        ledger.pool.eur = eur_moved.1;
        ledger.caller.usd = usd_moved.0;
        ledger.pool.usd = usd_moved.1;
        Ok(Event::LiquidityProvided { who, eur_amount, usd_amount })
    }

    /// Swaps `eur_amount` of the caller's eur for usd at the pool's
    /// constant-product price. The full payout is computed, with every
    /// arithmetic step checked, before anything moves; then the input
    /// and the payout transfer as one atomic unit, or the ledger is
    /// left exactly as it was.
    pub fn swap_eur_to_usd(
        &self,
        ledger: &mut Ledger,
        who: AccountId,
        eur_amount: Balance,
    ) -> (r: Result<Event, DispatchError>)
        ensures
            r is Ok <==> swap_eur_ok(*old(ledger), eur_amount),
            r is Ok ==> *final(ledger) == ledger_after_swap_eur(*old(ledger), eur_amount),
            r is Ok ==> final(ledger).pool.eur == spec_new_reserve_in(
                old(ledger).pool.eur as int,
                eur_amount as int,
            ) && final(ledger).pool.usd == spec_new_reserve_out(
                old(ledger).pool.eur as int,
                old(ledger).pool.usd as int,
                eur_amount as int,
            ),
            r is Ok ==> r == Ok::<_, DispatchError>(
                (Event::SwappedEurToUsd {
                    who,
                    eur_amount,
                    usd_amount: spec_amount_out(
                        old(ledger).pool.eur as int,
                        old(ledger).pool.usd as int,
                        eur_amount as int,
                    ) as Balance,
                }),
            ),
            r is Err ==> *final(ledger) == *old(ledger),
            r is Err ==> r == Err::<Event, _>(swap_eur_failure(*old(ledger), eur_amount)),
    {
        let quote = match constant_product_quote(ledger.pool.eur, ledger.pool.usd, eur_amount) {
            Ok(q) => q,
            Err(e) => {
                return Err(DispatchError::Arithmetic(e));
            },
        };
        let eur_moved = match transfer(ledger.caller.eur, ledger.pool.eur, eur_amount) {
            Ok(p) => p,
            Err(e) => {
                return Err(DispatchError::Transfer(e));
            },
        };
        let usd_moved = match transfer(ledger.pool.usd, ledger.caller.usd, quote.amount_out) {
            Ok(p) => p,
            Err(e) => {
                return Err(DispatchError::Transfer(e));
            },
        };
        ledger.caller.eur = eur_moved.0;
        ledger.pool.eur = eur_moved.1;
        ledger.pool.usd = usd_moved.0;
        ledger.caller.usd = usd_moved.1;
        Ok(Event::SwappedEurToUsd { who, eur_amount, usd_amount: quote.amount_out })
    }

    /// Swaps `usd_amount` of the caller's usd for eur; the mirror
    /// image of `swap_eur_to_usd`, with the same checked pricing and
    /// the same all-or-nothing guarantee.
    pub fn swap_usd_to_eur(
        &self,
        ledger: &mut Ledger,
        who: AccountId,
        usd_amount: Balance,
    ) -> (r: Result<Event, DispatchError>)
        ensures
            r is Ok <==> swap_usd_ok(*old(ledger), usd_amount),
            r is Ok ==> *final(ledger) == ledger_after_swap_usd(*old(ledger), usd_amount),
            r is Ok ==> final(ledger).pool.usd == spec_new_reserve_in(
                old(ledger).pool.usd as int,
                usd_amount as int,
            ) && final(ledger).pool.eur == spec_new_reserve_out(
                old(ledger).pool.usd as int,
                old(ledger).pool.eur as int,
                usd_amount as int,
            ),
            r is Ok ==> r == Ok::<_, DispatchError>(
                (Event::SwappedUsdToEur {
                    who,
                    eur_amount: spec_amount_out(
                        old(ledger).pool.usd as int,
                        old(ledger).pool.eur as int,
                        usd_amount as int,
                    ) as Balance,
                    usd_amount,
                }),
            ),
            r is Err ==> *final(ledger) == *old(ledger),
            r is Err ==> r == Err::<Event, _>(swap_usd_failure(*old(ledger), usd_amount)),
    {
        let quote = match constant_product_quote(ledger.pool.usd, ledger.pool.eur, usd_amount) {
            Ok(q) => q,
            Err(e) => {
                return Err(DispatchError::Arithmetic(e));
            },
        };
        let usd_moved = match transfer(ledger.caller.usd, ledger.pool.usd, usd_amount) {
            Ok(p) => p,
            Err(e) => {
                return Err(DispatchError::Transfer(e));
            },
        };
        let eur_moved = match transfer(ledger.pool.eur, ledger.caller.eur, quote.amount_out) {
            Ok(p) => p,
            Err(e) => {
                return Err(DispatchError::Transfer(e));
            },
        };
        ledger.caller.usd = usd_moved.0;
        ledger.pool.usd = usd_moved.1;
        ledger.pool.eur = eur_moved.0;
        ledger.caller.eur = eur_moved.1;
        Ok(Event::SwappedUsdToEur { who, eur_amount: quote.amount_out, usd_amount })
    }
}

/// Constant-product maintenance at the ledger level: whenever the
/// grown eur reserve divides the reserve product exactly, a
/// successful eur-to-usd swap leaves the product of the pool's two
/// reserves no smaller than before. (Truncation can otherwise cost
/// the pool the division remainder; `lemma_product_after_swap` bounds
/// that loss.)
pub proof fn lemma_pool_product_preserved_after_swap(l: Ledger, eur_amount: Balance)
    requires
        swap_eur_ok(l, eur_amount),
        (l.pool.eur * l.pool.usd) % (l.pool.eur + eur_amount) == 0,
    ensures
        ({
            let l1 = ledger_after_swap_eur(l, eur_amount);
            l1.pool.eur * l1.pool.usd >= l.pool.eur * l.pool.usd
        }),
{
    crate::pricing::lemma_swap_preserves_product(l.pool.eur, l.pool.usd, eur_amount);
    let l1 = ledger_after_swap_eur(l, eur_amount);
    assert(l1.pool.eur == spec_new_reserve_in(l.pool.eur as int, eur_amount as int));
    assert(l1.pool.usd == spec_new_reserve_out(
        l.pool.eur as int,
        l.pool.usd as int,
        eur_amount as int,
    ));
}

/// No-arbitrage round trip at the ledger level: swap eur in, then
/// swap the entire usd payout straight back. Whenever the grown eur
/// reserve divides the reserve product exactly, the second swap is
/// accepted in full and restores the ledger — caller and pool alike —
/// to exactly its starting state: the caller recovers precisely the
/// eur supplied, never more.
pub proof fn lemma_round_trip_restores_ledger(l: Ledger, eur_amount: Balance)
    requires
        eur_amount > 0,
        l.pool.usd > 0,
        swap_eur_ok(l, eur_amount),
        (l.pool.eur * l.pool.usd) % (l.pool.eur + eur_amount) == 0,
    ensures
        ({
            let l1 = ledger_after_swap_eur(l, eur_amount);
            let back = spec_amount_out(
                l.pool.eur as int,
                l.pool.usd as int,
                eur_amount as int,
            ) as Balance;
            &&& swap_usd_ok(l1, back)
            &&& ledger_after_swap_usd(l1, back) == l
        }),
{
    crate::pricing::lemma_round_trip_exact(l.pool.eur, l.pool.usd, eur_amount);
    let mid_in = spec_new_reserve_in(l.pool.eur as int, eur_amount as int);
    let mid_out = spec_new_reserve_out(l.pool.eur as int, l.pool.usd as int, eur_amount as int);
    let first_out = spec_amount_out(l.pool.eur as int, l.pool.usd as int, eur_amount as int);
    let l1 = ledger_after_swap_eur(l, eur_amount);
    let back = first_out as Balance;
    assert(l1.pool.eur == mid_in);
    assert(l1.pool.usd == mid_out);
    assert(back == first_out);
    assert(spec_amount_out(l1.pool.usd as int, l1.pool.eur as int, back as int) == eur_amount);
    assert(ledger_after_swap_usd(l1, back) == l);
}

/// Liquidity provision checks no ratio: a deposit is accepted exactly
/// when the caller can fund both transfers and the pool's balances
/// have room — whatever the deposit's ratio and whatever the current
/// reserves.
pub proof fn lemma_provision_needs_no_ratio(l: Ledger, eur_amount: Balance, usd_amount: Balance)
    requires
        eur_amount <= l.caller.eur,
        l.pool.eur + eur_amount <= u128::MAX,
        usd_amount <= l.caller.usd,
        l.pool.usd + usd_amount <= u128::MAX,
    ensures
        provide_ok(l, eur_amount, usd_amount),
{
}

} // verus!
