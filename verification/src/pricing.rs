use vstd::prelude::*;

use vstd::arithmetic::div_mod::{
    lemma_div_by_multiple, lemma_div_pos_is_pos, lemma_fundamental_div_mod,
    lemma_mod_division_less_than_divisor, lemma_multiply_divide_le, lemma_multiply_divide_lt,
};
use vstd::arithmetic::mul::{
    lemma_mul_inequality, lemma_mul_is_commutative, lemma_mul_nonnegative,
    lemma_mul_strict_inequality,
};

use crate::errors::Error;
use crate::ledger::Balance;

verus! {

/// Whether every checked arithmetic step of the constant-product
/// computation succeeds for reserves `(reserve_in, reserve_out)` with
/// `amount_in` flowing in: the reserve product and the grown
/// input-side reserve must fit the balance type, and the grown
/// input-side reserve — the divisor of the pricing step — must not be
/// zero.
pub open spec fn quote_ok(reserve_in: int, reserve_out: int, amount_in: int) -> bool {
    &&& reserve_in * reserve_out <= u128::MAX
    &&& reserve_in + amount_in <= u128::MAX
    &&& reserve_in + amount_in > 0
}

/// The input-side reserve after a swap.
pub open spec fn spec_new_reserve_in(reserve_in: int, amount_in: int) -> int {
    reserve_in + amount_in
}

/// The output-side reserve after a swap: the old reserve product
/// divided, truncating, by the grown input-side reserve.
pub open spec fn spec_new_reserve_out(reserve_in: int, reserve_out: int, amount_in: int) -> int {
    (reserve_in * reserve_out) / (reserve_in + amount_in)
}

/// What a swap pays out: the drop of the output-side reserve.
pub open spec fn spec_amount_out(reserve_in: int, reserve_out: int, amount_in: int) -> int {
    reserve_out - spec_new_reserve_out(reserve_in, reserve_out, amount_in)
}

/// The reserves a swap leaves behind and the amount it pays out.
#[derive(Clone, Copy, Debug, PartialEq, Eq, Structural)]
pub struct SwapQuote {
    pub new_reserve_in: Balance,
    pub new_reserve_out: Balance,
    pub amount_out: Balance,
}

/// The output-side reserve never grows: the truncated quotient stays
/// between zero and the old output-side reserve, so the payout
/// subtraction cannot underflow.
proof fn lemma_new_reserve_out_in_range(reserve_in: Balance, reserve_out: Balance, amount_in: Balance)
    requires
        reserve_in + amount_in > 0,
    ensures
        0 <= spec_new_reserve_out(reserve_in as int, reserve_out as int, amount_in as int)
            <= reserve_out,
{
    let rin = reserve_in as int;
    let rout = reserve_out as int;
    let d = rin + amount_in as int;
    lemma_mul_nonnegative(rin, rout);
    lemma_div_pos_is_pos(rin * rout, d);
    lemma_mul_inequality(rin, d, rout);
    lemma_multiply_divide_le(rin * rout, d, rout);
}

/// Prices a swap of `amount_in` of the input-side asset against
/// reserves `(reserve_in, reserve_out)` under the constant-product
/// rule, every arithmetic step checked. Succeeds if and only if every
/// step does; on success the quote is exactly the truncating
/// constant-product answer, and the payout never exceeds the
/// output-side reserve.
pub fn constant_product_quote(reserve_in: Balance, reserve_out: Balance, amount_in: Balance) -> (r:
    Result<SwapQuote, Error>)
    ensures
        r is Ok <==> quote_ok(reserve_in as int, reserve_out as int, amount_in as int),
        r is Err ==> r == Err::<SwapQuote, Error>(Error::GenericError),
        r is Ok ==> ({
            let q = r->Ok_0;
            &&& q.new_reserve_in == spec_new_reserve_in(reserve_in as int, amount_in as int)
            &&& q.new_reserve_out == spec_new_reserve_out(
                reserve_in as int,
                reserve_out as int,
                amount_in as int,
            )
            &&& q.amount_out == spec_amount_out(
                reserve_in as int,
                reserve_out as int,
                amount_in as int,
            )
            &&& q.amount_out <= reserve_out
        }),
{
    let product = match reserve_in.checked_mul(reserve_out) {
        Some(p) => p,
        None => {
            return Err(Error::GenericError);
        },
    };
    let new_reserve_in = match reserve_in.checked_add(amount_in) {
        Some(n) => n,
        None => {
            return Err(Error::GenericError);
        },
    };
    let new_reserve_out = match product.checked_div(new_reserve_in) {
        Some(n) => n,
        None => {
            return Err(Error::GenericError);
        },
    };
    proof {
        lemma_new_reserve_out_in_range(reserve_in, reserve_out, amount_in);
    }
    let amount_out = match reserve_out.checked_sub(new_reserve_out) {
        Some(a) => a,
        None => {
            return Err(Error::GenericError);
        },
    };
    Ok(SwapQuote { new_reserve_in, new_reserve_out, amount_out })
}

/// What truncation can cost the pool: the product of the reserves
/// after a successful quote is at most the old product, and falls
/// short of it by strictly less than the grown input-side reserve —
/// the discarded division remainder, nothing more.
pub proof fn lemma_product_after_swap(reserve_in: Balance, reserve_out: Balance, amount_in: Balance)
    requires
        quote_ok(reserve_in as int, reserve_out as int, amount_in as int),
    ensures
        ({
            let d = spec_new_reserve_in(reserve_in as int, amount_in as int);
            let q = spec_new_reserve_out(reserve_in as int, reserve_out as int, amount_in as int);
            let p = reserve_in * reserve_out;
            &&& d * q <= p
            &&& p - d * q < d
        }),
{
    let d = spec_new_reserve_in(reserve_in as int, amount_in as int);
    let p = reserve_in as int * reserve_out as int;
    lemma_fundamental_div_mod(p, d);
    lemma_mod_division_less_than_divisor(p, d);
}

/// Constant-product preservation: whenever the grown input-side
/// reserve divides the old reserve product exactly, a swap leaves the
/// product of the reserves no smaller than before — the truncating
/// division discards nothing, so the product is preserved exactly.
pub proof fn lemma_swap_preserves_product(
    reserve_in: Balance,
    reserve_out: Balance,
    amount_in: Balance,
)
    requires
        quote_ok(reserve_in as int, reserve_out as int, amount_in as int),
        (reserve_in * reserve_out) % (reserve_in + amount_in) == 0,
    ensures
        spec_new_reserve_in(reserve_in as int, amount_in as int) * spec_new_reserve_out(
            reserve_in as int,
            reserve_out as int,
            amount_in as int,
        ) >= reserve_in * reserve_out,
{
    let d = spec_new_reserve_in(reserve_in as int, amount_in as int);
    let p = reserve_in as int * reserve_out as int;
    lemma_fundamental_div_mod(p, d);
}

/// No-arbitrage round trip: swap `amount_in` of one asset in, then
/// swap the entire payout straight back. Whenever the grown reserve of
/// the first swap divides the old reserve product exactly, the second
/// swap succeeds and returns exactly the amount first supplied — never
/// more.
pub proof fn lemma_round_trip_exact(reserve_in: Balance, reserve_out: Balance, amount_in: Balance)
    requires
        amount_in > 0,
        reserve_out > 0,
        quote_ok(reserve_in as int, reserve_out as int, amount_in as int),
        (reserve_in * reserve_out) % (reserve_in + amount_in) == 0,
    ensures
        ({
            let first_out = spec_amount_out(reserve_in as int, reserve_out as int, amount_in as int);
            let mid_in = spec_new_reserve_in(reserve_in as int, amount_in as int);
            let mid_out = spec_new_reserve_out(reserve_in as int, reserve_out as int, amount_in as int);
            &&& 0 < first_out
            &&& quote_ok(mid_out, mid_in, first_out)
            &&& spec_amount_out(mid_out, mid_in, first_out) == amount_in
        }),
{
    let rin = reserve_in as int;
    let rout = reserve_out as int;
    let x = amount_in as int;
    let d = rin + x;
    let p = rin * rout;
    let mid_out = p / d;
    lemma_mul_nonnegative(rin, rout);
    lemma_div_pos_is_pos(p, d);
    lemma_fundamental_div_mod(p, d);
    assert(d * mid_out == p);
    lemma_mul_strict_inequality(rin, d, rout);
    lemma_multiply_divide_lt(p, d, rout);
    assert(mid_out < rout);
    lemma_mul_is_commutative(d, mid_out);
    assert(mid_out * d == p);
    let first_out = rout - mid_out;
    assert(mid_out + first_out == rout);
    lemma_div_by_multiple(rin, rout);
    assert((rin * rout) / rout == rin);
    assert(spec_new_reserve_out(mid_out, d, first_out) == rin);
}

/// An overflowing reserve product is refused before anything moves: if
/// the product of the reserves leaves the balance type's range, no
/// arithmetic step sequence can succeed.
pub proof fn lemma_overflowing_product_fails(
    reserve_in: Balance,
    reserve_out: Balance,
    amount_in: Balance,
)
    requires
        reserve_in * reserve_out > u128::MAX,
    ensures
        !quote_ok(reserve_in as int, reserve_out as int, amount_in as int),
{
}

/// A swap cannot be priced against an empty input-side reserve when
/// nothing flows in either: the pricing division would have divisor
/// zero, so the quote fails with the arithmetic error instead of
/// transferring anything.
pub proof fn lemma_empty_pool_swap_fails(reserve_out: Balance)
    ensures
        !quote_ok(0, reserve_out as int, 0),
{
}

} // verus!
