use amm::account::{AccountId, PalletId};
use amm::errors::{DispatchError, Error, TransferError};
use amm::ledger::{AccountBalances, Ledger};
use amm::pool::{Config, Event, Pallet};
use amm::pricing::constant_product_quote;

fn pallet() -> Pallet {
    Pallet { config: Config { pallet_id: PalletId { bytes: *b"amm_pool" } } }
}

fn caller() -> AccountId {
    AccountId { bytes: vec![7u8; 32] }
}

fn ledger(caller_eur: u128, caller_usd: u128, pool_eur: u128, pool_usd: u128) -> Ledger {
    Ledger {
        caller: AccountBalances { eur: caller_eur, usd: caller_usd },
        pool: AccountBalances { eur: pool_eur, usd: pool_usd },
    }
}

#[test]
fn account_id_is_derived_from_seed() {
    let p = pallet();
    let id = p.account_id();
    let mut expected = b"modl".to_vec();
    expected.extend_from_slice(b"amm_pool");
    expected.extend_from_slice(&[0u8; 20]);
    assert_eq!(id.bytes, expected);
    assert_eq!(id.bytes.len(), 32);
}

#[test]
fn account_id_is_deterministic() {
    let p = pallet();
    assert_eq!(p.account_id(), p.account_id());
}

#[test]
fn quote_matches_worked_example() {
    let q = constant_product_quote(1000, 1000, 50).unwrap();
    assert_eq!(q.new_reserve_in, 1050);
    assert_eq!(q.new_reserve_out, 952);
    assert_eq!(q.amount_out, 48);
}

#[test]
fn quote_preserves_product_when_division_is_exact() {
    let q = constant_product_quote(1000, 1000, 1000).unwrap();
    assert_eq!(q.new_reserve_in, 2000);
    assert_eq!(q.new_reserve_out, 500);
    assert_eq!(q.amount_out, 500);
    assert_eq!(q.new_reserve_in * q.new_reserve_out, 1000u128 * 1000);
}

#[test]
fn quote_loses_at_most_the_division_remainder() {
    let q = constant_product_quote(1000, 1000, 50).unwrap();
    let before = 1000u128 * 1000;
    let after = q.new_reserve_in * q.new_reserve_out;
    assert!(after <= before);
    assert!(before - after < q.new_reserve_in);
}

#[test]
fn quote_fails_on_empty_pool_with_zero_input() {
    assert_eq!(constant_product_quote(0, 1000, 0), Err(Error::GenericError));
    assert_eq!(constant_product_quote(0, 0, 0), Err(Error::GenericError));
}

#[test]
fn quote_fails_when_product_overflows() {
    assert_eq!(constant_product_quote(u128::MAX, 2, 1), Err(Error::GenericError));
}

#[test]
fn quote_fails_when_grown_reserve_overflows() {
    assert_eq!(constant_product_quote(u128::MAX, 1, 1), Err(Error::GenericError));
}

#[test]
fn provide_liquidity_accepts_unequal_ratio() {
    let p = pallet();
    let mut l = ledger(1000, 1000, 50, 50);
    let r = p.provide_liquidity(&mut l, caller(), 100, 1);
    assert_eq!(
        r,
        Ok(Event::LiquidityProvided { who: caller(), eur_amount: 100, usd_amount: 1 })
    );
    assert_eq!(l, ledger(900, 999, 150, 51));
}

#[test]
fn provide_liquidity_rolls_back_on_insufficient_balance() {
    let p = pallet();
    let before = ledger(10, 1000, 50, 50);
    let mut l = before;
    let r = p.provide_liquidity(&mut l, caller(), 100, 1);
    assert_eq!(r, Err(DispatchError::Transfer(TransferError::InsufficientBalance)));
    assert_eq!(l, before);
}

#[test]
fn provide_liquidity_rolls_back_when_second_transfer_fails() {
    let p = pallet();
    let before = ledger(100, 100, 50, u128::MAX);
    let mut l = before;
    let r = p.provide_liquidity(&mut l, caller(), 100, 1);
    assert_eq!(r, Err(DispatchError::Transfer(TransferError::BalanceOverflow)));
    assert_eq!(l, before);
}

#[test]
fn swap_eur_to_usd_end_to_end() {
    let p = pallet();
    let mut l = ledger(100, 0, 1000, 1000);
    let r = p.swap_eur_to_usd(&mut l, caller(), 50);
    assert_eq!(
        r,
        Ok(Event::SwappedEurToUsd { who: caller(), eur_amount: 50, usd_amount: 48 })
    );
    assert_eq!(l, ledger(50, 48, 1050, 952));
}

#[test]
fn swap_usd_to_eur_is_the_mirror_image() {
    let p = pallet();
    let mut l = ledger(0, 100, 1000, 1000);
    let r = p.swap_usd_to_eur(&mut l, caller(), 50);
    assert_eq!(
        r,
        Ok(Event::SwappedUsdToEur { who: caller(), eur_amount: 48, usd_amount: 50 })
    );
    assert_eq!(l, ledger(48, 50, 952, 1050));
}

#[test]
fn swap_rolls_back_on_insufficient_caller_balance() {
    let p = pallet();
    let before = ledger(10, 0, 1000, 1000);
    let mut l = before;
    let r = p.swap_eur_to_usd(&mut l, caller(), 50);
    assert_eq!(r, Err(DispatchError::Transfer(TransferError::InsufficientBalance)));
    assert_eq!(l, before);
}

#[test]
fn swap_rolls_back_when_payout_transfer_fails() {
    let p = pallet();
    let before = ledger(50, u128::MAX, 1000, 1000);
    let mut l = before;
    let r = p.swap_eur_to_usd(&mut l, caller(), 50);
    assert_eq!(r, Err(DispatchError::Transfer(TransferError::BalanceOverflow)));
    assert_eq!(l, before);
}

#[test]
fn swap_fails_with_arithmetic_error_when_product_overflows() {
    let p = pallet();
    let before = ledger(100, 0, u128::MAX, 2);
    let mut l = before;
    let r = p.swap_eur_to_usd(&mut l, caller(), 1);
    assert_eq!(r, Err(DispatchError::Arithmetic(Error::GenericError)));
    assert_eq!(l, before);
}

#[test]
fn swap_fails_with_arithmetic_error_on_empty_pool_with_zero_input() {
    let p = pallet();
    let before = ledger(100, 0, 0, 1000);
    let mut l = before;
    let r = p.swap_eur_to_usd(&mut l, caller(), 0);
    assert_eq!(r, Err(DispatchError::Arithmetic(Error::GenericError)));
    assert_eq!(l, before);
}

#[test]
fn swap_against_empty_input_reserve_drains_the_pool() {
    let p = pallet();
    let mut l = ledger(50, 0, 0, 1000);
    let r = p.swap_eur_to_usd(&mut l, caller(), 50);
    assert_eq!(
        r,
        Ok(Event::SwappedEurToUsd { who: caller(), eur_amount: 50, usd_amount: 1000 })
    );
    assert_eq!(l, ledger(0, 1000, 50, 0));
}

#[test]
fn zero_input_swap_moves_nothing() {
    let p = pallet();
    let mut l = ledger(100, 0, 1000, 1000);
    let r = p.swap_eur_to_usd(&mut l, caller(), 0);
    assert_eq!(
        r,
        Ok(Event::SwappedEurToUsd { who: caller(), eur_amount: 0, usd_amount: 0 })
    );
    assert_eq!(l, ledger(100, 0, 1000, 1000));
}

#[test]
fn round_trip_returns_exactly_the_input_when_division_is_exact() {
    let p = pallet();
    let mut l = ledger(1000, 0, 1000, 1000);
    let first = p.swap_eur_to_usd(&mut l, caller(), 1000);
    assert_eq!(
        first,
        Ok(Event::SwappedEurToUsd { who: caller(), eur_amount: 1000, usd_amount: 500 })
    );
    assert_eq!(l, ledger(0, 500, 2000, 500));
    let second = p.swap_usd_to_eur(&mut l, caller(), 500);
    assert_eq!(
        second,
        Ok(Event::SwappedUsdToEur { who: caller(), eur_amount: 1000, usd_amount: 500 })
    );
    assert_eq!(l, ledger(1000, 0, 1000, 1000));
}

#[test]
fn round_trip_truncation_bias_favors_the_trader() {
    let p = pallet();
    let mut l = ledger(50, 0, 1000, 1000);
    let first = p.swap_eur_to_usd(&mut l, caller(), 50);
    assert_eq!(
        first,
        Ok(Event::SwappedEurToUsd { who: caller(), eur_amount: 50, usd_amount: 48 })
    );
    let second = p.swap_usd_to_eur(&mut l, caller(), 48);
    assert_eq!(
        second,
        Ok(Event::SwappedUsdToEur { who: caller(), eur_amount: 51, usd_amount: 48 })
    );
    assert_eq!(l, ledger(51, 0, 999, 1000));
}
