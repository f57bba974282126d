//! A Phoenix-compatible stable-swap pool for two tokens: a swap pays out the
//! offered amount less a fee in basis points, and refuses to trade when the
//! payout falls below the caller's floor or the spread exceeds the caller's
//! ceiling.

use vstd::prelude::*;

use crate::address::{Address, Transfer, TransferView};
use crate::arith::{clamp_i128, div_positive, div_toward_zero, saturating_mul};

verus! {

/// Why the pool refused a call.
#[derive(Debug, Clone, Copy, PartialEq, Eq, Structural)]
pub enum PhoenixPoolError {
    /// The offered amount was zero or negative.
    OfferAmountNotPositive,
    /// The pool has no token pair yet.
    NotInitialized,
    /// The offered asset is neither of the pool's tokens.
    UnknownOfferAsset,
    /// The payout would be below the caller's minimum.
    SlippageExceeded,
    /// The spread would be above the caller's maximum.
    SpreadExceedsMax,
    /// An intermediate amount did not fit in 128 bits.
    ArithmeticOverflow,
}

impl PhoenixPoolError {
    /// The text of the message with which the contract aborts.
    pub open spec fn text(self) -> Seq<char> {
        match self {
            PhoenixPoolError::OfferAmountNotPositive => "offer amount must be positive"@,
            PhoenixPoolError::NotInitialized => "not initialized"@,
            PhoenixPoolError::UnknownOfferAsset => "unknown offer asset"@,
            PhoenixPoolError::SlippageExceeded => "slippage exceeded"@,
            PhoenixPoolError::SpreadExceedsMax => "spread exceeds max"@,
            PhoenixPoolError::ArithmeticOverflow => "arithmetic overflow"@,
        }
    }

    /// The message with which the contract aborts.
    pub fn message(&self) -> (s: &'static str)
        ensures
            s@ == self.text(),
    {
        match self {
            PhoenixPoolError::OfferAmountNotPositive => "offer amount must be positive",
            PhoenixPoolError::NotInitialized => "not initialized",
            PhoenixPoolError::UnknownOfferAsset => "unknown offer asset",
            PhoenixPoolError::SlippageExceeded => "slippage exceeded",
            PhoenixPoolError::SpreadExceedsMax => "spread exceeds max",
            PhoenixPoolError::ArithmeticOverflow => "arithmetic overflow",
        }
    }
}

/// The result of a simulated swap.
#[derive(Debug, Clone, Copy, PartialEq, Eq, Structural)]
pub struct SimulateSwapResponse {
    pub ask_amount: i128,
    pub spread_amount: i128,
}

/// The tokens of the pool and its fee.
pub struct PhoenixPoolConfig {
    pub token_a: Address,
    pub token_b: Address,
    pub fee_bps: u32,
}

/// What a swap pays out, the asset and its amount, and the two transfers
/// that carry it out in order: the offer from the sender to the pool, then
/// the payout from the pool to the sender.
pub struct SwapPayout {
    pub ask_asset: Address,
    pub ask_amount: i128,
    pub offer_transfer: Transfer,
    pub ask_transfer: Transfer,
}

/// The pool's stored configuration, as plain values.
pub struct PhoenixPoolView {
    pub token_a: Seq<u8>,
    pub token_b: Seq<u8>,
    pub fee_bps: u32,
}

/// A mock Phoenix pool: its token pair and fee, once initialized.
pub struct MockPhoenixPool {
    config: Option<PhoenixPoolConfig>,
}

impl View for MockPhoenixPool {
    type V = Option<PhoenixPoolView>;

    closed spec fn view(&self) -> Option<PhoenixPoolView> {
        match self.config {
            Some(c) => Some(PhoenixPoolView { token_a: c.token_a@, token_b: c.token_b@, fee_bps: c.fee_bps }),
            None => None,
        }
    }
}

/// The payout for `offer_amount` at a fee of `fee_bps` basis points:
/// `offer_amount * (10000 - fee_bps)`, saturated to 128 bits, divided by
/// 10000 and rounded toward zero.
pub open spec fn quote_spec(offer_amount: int, fee_bps: int) -> int {
    div_toward_zero(clamp_i128(offer_amount * (10000 - fee_bps)), 10000)
}

/// The spread of a swap in basis points of the (positive) offered amount,
/// saturated to 128 bits and rounded toward zero.
pub open spec fn spread_bps_spec(offer_amount: int, ask_amount: int) -> int {
    div_toward_zero(clamp_i128((offer_amount - ask_amount) * 10000), offer_amount)
}

/// Whether `x` fits in an `i128`.
pub open spec fn fits_i128(x: int) -> bool {
    i128::MIN <= x <= i128::MAX
}

/// What a swap of `offer_amount` of `offer_asset` gives on a pool in state
/// `pool`: the asset and amount paid out, or the reason for refusing.
pub open spec fn swap_spec(
    pool: Option<PhoenixPoolView>,
    offer_asset: Seq<u8>,
    offer_amount: i128,
    ask_asset_min_amount: Option<i128>,
    max_spread_bps: Option<u32>,
) -> Result<(Seq<u8>, i128), PhoenixPoolError> {
    if offer_amount <= 0 {
        Err(PhoenixPoolError::OfferAmountNotPositive)
    } else {
        match pool {
            None => Err(PhoenixPoolError::NotInitialized),
            Some(c) => {
                if offer_asset != c.token_a && offer_asset != c.token_b {
                    Err(PhoenixPoolError::UnknownOfferAsset)
                } else {
                    let ask_asset = if offer_asset == c.token_a {
                        c.token_b
                    } else {
                        c.token_a
                    };
                    let ask = quote_spec(offer_amount as int, c.fee_bps as int);
                    if ask_asset_min_amount is Some && ask < ask_asset_min_amount->0 {
                        Err(PhoenixPoolError::SlippageExceeded)
                    } else if max_spread_bps is Some && !fits_i128(offer_amount - ask) {
                        Err(PhoenixPoolError::ArithmeticOverflow)
                    } else if max_spread_bps is Some && (spread_bps_spec(
                        offer_amount as int,
                        ask,
                    ) as u32) > max_spread_bps->0 {
                        Err(PhoenixPoolError::SpreadExceedsMax)
                    } else {
                        Ok((ask_asset, ask as i128))
                    }
                }
            },
        }
    }
}

/// For a fee of at most 100% and a non-negative offer, the payout is between
/// zero and the offer.
pub proof fn law_quote_within_offer(offer_amount: i128, fee_bps: u32)
    requires
        offer_amount >= 0,
        fee_bps <= 10000,
    ensures
        0 <= quote_spec(offer_amount as int, fee_bps as int) <= offer_amount,
{
    let f: int = 10000 - fee_bps;
    let o: int = offer_amount as int;
    let p: int = o * f;
    assert(0 <= p <= o * 10000) by (nonlinear_arith)
        requires
            o >= 0,
            0 <= f <= 10000,
            p == o * f,
    ;
    let c = clamp_i128(p);
    assert(0 <= c <= o * 10000);
    assert(0 <= c / 10000 <= o) by (nonlinear_arith)
        requires
            0 <= c <= o * 10000,
    ;
}

/// The spread is measured in basis points of the offer: for a payout not
/// above a positive offer, `spread_bps` is the quotient of `(offer - ask) *
/// 10000` by the offer, rounded down (where that product fits in 128 bits).
pub proof fn law_spread_is_in_basis_points(offer_amount: int, ask_amount: int)
    requires
        offer_amount > 0,
        ask_amount <= offer_amount,
        (offer_amount - ask_amount) * 10000 <= i128::MAX,
    ensures
        0 <= spread_bps_spec(offer_amount, ask_amount),
        spread_bps_spec(offer_amount, ask_amount) * offer_amount <= (offer_amount - ask_amount)
            * 10000,
        (offer_amount - ask_amount) * 10000 < (spread_bps_spec(offer_amount, ask_amount) + 1)
            * offer_amount,
{
    let x: int = (offer_amount - ask_amount) * 10000;
    assert(x >= 0);
    assert(clamp_i128(x) == x);
    let q: int = x / offer_amount;
    assert(spread_bps_spec(offer_amount, ask_amount) == q);
    assert(0 <= q && q * offer_amount <= x < (q + 1) * offer_amount) by (nonlinear_arith)
        requires
            x >= 0,
            offer_amount > 0,
            q == x / offer_amount,
    ;
}

/// A swap that only pays the pool's fee is never refused for its spread
/// when the ceiling is at least the fee: for an offer of at least 10000
/// units (below that, rounding the payout down may add a basis point or
/// more) and a fee of at most 100%, the swap of a pool token with no floor
/// is accepted, and pays the quote.
pub proof fn law_fee_within_ceiling_passes(
    c: PhoenixPoolView,
    offer_asset: Seq<u8>,
    offer_amount: i128,
    max_spread_bps: u32,
)
    requires
        offer_asset == c.token_a || offer_asset == c.token_b,
        c.fee_bps <= max_spread_bps,
        c.fee_bps <= 10000,
        offer_amount >= 10000,
        offer_amount * 10000 <= i128::MAX,
    ensures
        swap_spec(Some(c), offer_asset, offer_amount, None, Some(max_spread_bps)) is Ok,
        swap_spec(Some(c), offer_asset, offer_amount, None, Some(max_spread_bps))->Ok_0.1
            == quote_spec(offer_amount as int, c.fee_bps as int),
{
    let o: int = offer_amount as int;
    let f: int = c.fee_bps as int;
    let p: int = o * (10000 - f);
    assert(0 <= p <= o * 10000) by (nonlinear_arith)
        requires
            o >= 0,
            0 <= f <= 10000,
            p == o * (10000 - f),
    ;
    assert(clamp_i128(p) == p);
    let ask: int = p / 10000;
    assert(quote_spec(o, f) == ask);
    assert(0 <= ask <= o && ask * 10000 <= p < (ask + 1) * 10000) by (nonlinear_arith)
        requires
            0 <= p <= o * 10000,
            ask == p / 10000,
    ;
    assert(fits_i128(o - ask));
    let x: int = (o - ask) * 10000;
    assert(x < o * (f + 1)) by (nonlinear_arith)
        requires
            x == (o - ask) * 10000,
            p < (ask + 1) * 10000,
            p == o * (10000 - f),
            o >= 10000,
    ;
    assert(x <= i128::MAX) by (nonlinear_arith)
        requires
            x == (o - ask) * 10000,
            0 <= ask,
            o * 10000 <= i128::MAX,
    ;
    law_spread_is_in_basis_points(o, ask);
    let q = spread_bps_spec(o, ask);
    assert(q <= f) by (nonlinear_arith)
        requires
            q * o <= x,
            x < o * (f + 1),
            o > 0,
    ;
    assert(0 <= q <= f);
    assert((q as u32) == q);
}

/// For a fee of at most 100%, a larger non-negative offer never pays less.
pub proof fn law_quote_monotone(smaller: i128, larger: i128, fee_bps: u32)
    requires
        0 <= smaller <= larger,
        fee_bps <= 10000,
    ensures
        quote_spec(smaller as int, fee_bps as int) <= quote_spec(larger as int, fee_bps as int),
{
    let f: int = 10000 - fee_bps;
    let a: int = smaller as int;
    let b: int = larger as int;
    assert(0 <= a * f <= b * f) by (nonlinear_arith)
        requires
            0 <= a <= b,
            f >= 0,
    ;
    let ca = clamp_i128(a * f);
    let cb = clamp_i128(b * f);
    assert(0 <= ca <= cb);
    assert(ca / 10000 <= cb / 10000) by (nonlinear_arith)
        requires
            0 <= ca <= cb,
    ;
}

/// An accepted swap pays out the pool's other token, in exactly the amount
/// that the simulation quotes, never below the caller's floor, and with a
/// spread within the caller's ceiling.
pub proof fn law_swap_honors_limits(
    pool: Option<PhoenixPoolView>,
    offer_asset: Seq<u8>,
    offer_amount: i128,
    ask_asset_min_amount: Option<i128>,
    max_spread_bps: Option<u32>,
)
    requires
        swap_spec(pool, offer_asset, offer_amount, ask_asset_min_amount, max_spread_bps) is Ok,
    ensures
        ({
            let (ask_asset, ask) = swap_spec(
                pool,
                offer_asset,
                offer_amount,
                ask_asset_min_amount,
                max_spread_bps,
            )->Ok_0;
            let c = pool->0;
            &&& pool is Some
            &&& offer_amount > 0
            &&& (offer_asset == c.token_a && ask_asset == c.token_b) || (offer_asset == c.token_b
                && offer_asset != c.token_a && ask_asset == c.token_a)
            &&& ask == quote_spec(offer_amount as int, c.fee_bps as int)
            &&& ask_asset_min_amount matches Some(min) ==> ask >= min
            &&& max_spread_bps matches Some(max) ==> (spread_bps_spec(offer_amount as int, ask as int) as u32) <= max
        }),
{
}

impl MockPhoenixPool {
    /// A pool with no token pair.
    pub fn new() -> (p: Self)
        ensures
            p@ is None,
    {
        MockPhoenixPool { config: None }
    }

    /// Set the token pair and the fee (in basis points). Calling it again
    /// replaces the earlier configuration.
    pub fn initialize(&mut self, token_a: Address, token_b: Address, fee_bps: u32)
        ensures
            final(self)@ == Some(
                PhoenixPoolView { token_a: token_a@, token_b: token_b@, fee_bps: fee_bps },
            ),
    {
        self.config = Some(PhoenixPoolConfig { token_a, token_b, fee_bps });
    }

    /// The payout for `offer_amount` at a fee of `fee_bps` basis points.
    pub fn quote(offer_amount: i128, fee_bps: u32) -> (r: i128)
        ensures
            r == quote_spec(offer_amount as int, fee_bps as int),
    {
        let factor: i128 = 10_000 - fee_bps as i128;
        let product = saturating_mul(offer_amount, factor);
        div_positive(product, 10_000)
    }

    /// The payout and the spread of a swap of `sell_amount`, without trading.
    pub fn simulate_swap(&self, sell_amount: i128) -> (r: Result<SimulateSwapResponse, PhoenixPoolError>)
        ensures
            match self@ {
                None => r == Err::<SimulateSwapResponse, PhoenixPoolError>(
                    PhoenixPoolError::NotInitialized,
                ),
                Some(c) => {
                    let ask = quote_spec(sell_amount as int, c.fee_bps as int);
                    if fits_i128(sell_amount - ask) {
                        r == Ok::<SimulateSwapResponse, PhoenixPoolError>(
                            SimulateSwapResponse {
                                ask_amount: ask as i128,
                                spread_amount: (sell_amount - ask) as i128,
                            },
                        )
                    } else {
                        r == Err::<SimulateSwapResponse, PhoenixPoolError>(
                            PhoenixPoolError::ArithmeticOverflow,
                        )
                    }
                },
            },
    {
        match &self.config {
            None => Err(PhoenixPoolError::NotInitialized),
            Some(c) => {
                let ask_amount = Self::quote(sell_amount, c.fee_bps);
                match sell_amount.checked_sub(ask_amount) {
                    Some(spread_amount) => Ok(SimulateSwapResponse { ask_amount, spread_amount }),
                    None => Err(PhoenixPoolError::ArithmeticOverflow),
                }
            },
        }
    }

    /// Swap `offer_amount` of `offer_asset` from `sender` for the other
    /// token of the pool at `pool`, refusing when the payout is below
    /// `ask_asset_min_amount` or the spread (in basis points of the offer) is
    /// above `max_spread_bps`.
    pub fn swap(
        &self,
        pool: &Address,
        sender: &Address,
        offer_asset: &Address,
        offer_amount: i128,
        ask_asset_min_amount: Option<i128>,
        max_spread_bps: Option<u32>,
    ) -> (r: Result<SwapPayout, PhoenixPoolError>)
        ensures
            match r {
                Ok(p) => swap_spec(
                    self@,
                    offer_asset@,
                    offer_amount,
                    ask_asset_min_amount,
                    max_spread_bps,
                ) == Ok::<(Seq<u8>, i128), PhoenixPoolError>((p.ask_asset@, p.ask_amount))
                    && p.offer_transfer@ == (TransferView {
                    token: offer_asset@,
                    from: sender@,
                    to: pool@,
                    amount: offer_amount,
                }) && p.ask_transfer@ == (TransferView {
                    token: p.ask_asset@,
                    from: pool@,
                    to: sender@,
                    amount: p.ask_amount,
                }),
                Err(e) => swap_spec(
                    self@,
                    offer_asset@,
                    offer_amount,
                    ask_asset_min_amount,
                    max_spread_bps,
                ) == Err::<(Seq<u8>, i128), PhoenixPoolError>(e),
            },
    {
        if offer_amount <= 0 {
            return Err(PhoenixPoolError::OfferAmountNotPositive);
        }
        let c = match &self.config {
            None => {
                return Err(PhoenixPoolError::NotInitialized);
            },
            Some(c) => c,
        };
        let ask_asset = if offer_asset.same(&c.token_a) {
            c.token_b.clone()
        } else if offer_asset.same(&c.token_b) {
            c.token_a.clone()
        } else {
            return Err(PhoenixPoolError::UnknownOfferAsset);
        };
        let ask_amount = Self::quote(offer_amount, c.fee_bps);
        if let Some(min) = ask_asset_min_amount {
            if ask_amount < min {
                return Err(PhoenixPoolError::SlippageExceeded);
            }
        }
        if let Some(max_spread) = max_spread_bps {
            let spread = match offer_amount.checked_sub(ask_amount) {
                Some(s) => s,
                None => {
                    return Err(PhoenixPoolError::ArithmeticOverflow);
                },
            };
            let divisor: i128 = if offer_amount > 1 {
                offer_amount
            } else {
                1
            };
            let spread_bps = div_positive(saturating_mul(spread, 10_000), divisor);
            if (spread_bps as u32) > max_spread {
                return Err(PhoenixPoolError::SpreadExceedsMax);
            }
        }
        let offer_transfer = Transfer::new(offer_asset, sender, pool, offer_amount);
        let ask_transfer = Transfer::new(&ask_asset, pool, sender, ask_amount);
        Ok(SwapPayout { ask_asset, ask_amount, offer_transfer, ask_transfer })
    }
}

} // verus!
