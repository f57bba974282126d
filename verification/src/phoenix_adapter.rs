//! The Phoenix adapter: swaps the vault's stablecoins through a Phoenix pool
//! with slippage protection and pays the proceeds to the vault.

use vstd::prelude::*;

use crate::address::{Address, Transfer, TransferView};
use crate::arith::{div_positive, saturating_mul};
pub use crate::mock_phoenix_pool::{spread_bps_spec, SimulateSwapResponse};
use crate::mock_phoenix_pool::law_spread_is_in_basis_points;

verus! {

/// Why the adapter refused a call.
#[derive(Debug, Clone, Copy, PartialEq, Eq, Structural)]
pub enum PhoenixAdapterError {
    /// The adapter was initialized before.
    AlreadyInitialized,
    /// The adapter has no vault yet.
    NotInitialized,
    /// The offered amount or the payout floor was zero or negative.
    AmountsNotPositive,
    /// The adapter holds less of the offered token than the offer.
    InsufficientAdapterBalance,
    /// The pool paid out less than the floor.
    SlippageExceeded,
    /// The pool's payout was further below the offer than the spread ceiling
    /// allows.
    SpreadExceedsMax,
}

impl PhoenixAdapterError {
    /// The text of the message with which the contract aborts.
    pub open spec fn text(self) -> Seq<char> {
        match self {
            PhoenixAdapterError::AlreadyInitialized => "already initialized"@,
            PhoenixAdapterError::NotInitialized => "not initialized"@,
            PhoenixAdapterError::AmountsNotPositive => "amounts must be positive"@,
            PhoenixAdapterError::InsufficientAdapterBalance => "insufficient adapter balance"@,
            PhoenixAdapterError::SlippageExceeded => "slippage exceeded"@,
            PhoenixAdapterError::SpreadExceedsMax => "spread exceeds max"@,
        }
    }

    /// The message with which the contract aborts.
    pub fn message(&self) -> (s: &'static str)
        ensures
            s@ == self.text(),
    {
        match self {
            PhoenixAdapterError::AlreadyInitialized => "already initialized",
            PhoenixAdapterError::NotInitialized => "not initialized",
            PhoenixAdapterError::AmountsNotPositive => "amounts must be positive",
            PhoenixAdapterError::InsufficientAdapterBalance => "insufficient adapter balance",
            PhoenixAdapterError::SlippageExceeded => "slippage exceeded",
            PhoenixAdapterError::SpreadExceedsMax => "spread exceeds max",
        }
    }
}

/// The adapter's checks before a swap of `offer_amount` with payout floor
/// `min_ask_amount`, the adapter holding `balance` of the offered token and
/// serving `vault`.
pub open spec fn swap_spec(vault: Option<Seq<u8>>, offer_amount: i128, min_ask_amount: i128, balance: i128) -> Result<
    (),
    PhoenixAdapterError,
> {
    if vault is None {
        Err(PhoenixAdapterError::NotInitialized)
    } else if offer_amount <= 0 || min_ask_amount <= 0 {
        Err(PhoenixAdapterError::AmountsNotPositive)
    } else if balance < offer_amount {
        Err(PhoenixAdapterError::InsufficientAdapterBalance)
    } else {
        Ok(())
    }
}

/// What the adapter accepts of a pool's payout of `ask_amount` for
/// `offer_amount`, with payout floor `min_ask_amount` and spread ceiling
/// `max_spread_bps`: the payout itself, or the reason for refusing it.
pub open spec fn settle_swap_spec(
    vault: Option<Seq<u8>>,
    offer_amount: i128,
    min_ask_amount: i128,
    max_spread_bps: u32,
    ask_amount: i128,
) -> Result<i128, PhoenixAdapterError> {
    if vault is None {
        Err(PhoenixAdapterError::NotInitialized)
    } else if offer_amount <= 0 || min_ask_amount <= 0 {
        Err(PhoenixAdapterError::AmountsNotPositive)
    } else if ask_amount < min_ask_amount {
        Err(PhoenixAdapterError::SlippageExceeded)
    } else if spread_bps_spec(offer_amount as int, ask_amount as int) > max_spread_bps {
        Err(PhoenixAdapterError::SpreadExceedsMax)
    } else {
        Ok(ask_amount)
    }
}

/// A call of a Phoenix pool's `swap`: `sender` offers `offer_amount` of
/// `offer_asset`, asking at least `ask_asset_min_amount` back at a spread of
/// at most `max_spread_bps`.
pub struct SwapCall {
    pub pool: Address,
    pub sender: Address,
    pub offer_asset: Address,
    pub offer_amount: i128,
    pub ask_asset_min_amount: Option<i128>,
    pub max_spread_bps: Option<u32>,
}

/// A swap call as plain values.
pub struct SwapCallView {
    pub pool: Seq<u8>,
    pub sender: Seq<u8>,
    pub offer_asset: Seq<u8>,
    pub offer_amount: i128,
    pub ask_asset_min_amount: Option<i128>,
    pub max_spread_bps: Option<u32>,
}

impl View for SwapCall {
    type V = SwapCallView;

    open spec fn view(&self) -> SwapCallView {
        SwapCallView {
            pool: self.pool@,
            sender: self.sender@,
            offer_asset: self.offer_asset@,
            offer_amount: self.offer_amount,
            ask_asset_min_amount: self.ask_asset_min_amount,
            max_spread_bps: self.max_spread_bps,
        }
    }
}

/// A payout that the adapter accepts meets the floor and the spread ceiling
/// it asked the pool for.
pub proof fn law_settled_swap_honors_limits(
    vault: Option<Seq<u8>>,
    offer_amount: i128,
    min_ask_amount: i128,
    max_spread_bps: u32,
    ask_amount: i128,
)
    requires
        settle_swap_spec(vault, offer_amount, min_ask_amount, max_spread_bps, ask_amount) is Ok,
    ensures
        ask_amount >= min_ask_amount > 0,
        spread_bps_spec(offer_amount as int, ask_amount as int) <= max_spread_bps,
        (offer_amount - ask_amount) * 10000 <= i128::MAX ==> (offer_amount - ask_amount) * 10000 < (
        max_spread_bps + 1) * offer_amount,
{
    if ask_amount <= offer_amount && (offer_amount - ask_amount) * 10000 <= i128::MAX {
        law_spread_is_in_basis_points(offer_amount as int, ask_amount as int);
        let q = spread_bps_spec(offer_amount as int, ask_amount as int);
        let x: int = (offer_amount - ask_amount) * 10000;
        let o: int = offer_amount as int;
        let m: int = max_spread_bps as int;
        assert(x < (m + 1) * o) by (nonlinear_arith)
            requires
                x < (q + 1) * o,
                q <= m,
                o > 0,
        ;
    } else if ask_amount > offer_amount {
        let o: int = offer_amount as int;
        let m: int = max_spread_bps as int;
        assert((offer_amount - ask_amount) * 10000 < 0);
        assert((m + 1) * o > 0) by (nonlinear_arith)
            requires
                m >= 0,
                o > 0,
        ;
    }
}

/// The Phoenix adapter: the vault it serves, once set.
pub struct PhoenixAdapter {
    vault: Option<Address>,
}

impl View for PhoenixAdapter {
    type V = Option<Seq<u8>>;

    closed spec fn view(&self) -> Option<Seq<u8>> {
        match self.vault {
            Some(v) => Some(v@),
            None => None,
        }
    }
}

impl PhoenixAdapter {
    /// An adapter serving no vault yet.
    pub fn new() -> (a: Self)
        ensures
            (a@ is None),
    {
        PhoenixAdapter { vault: None }
    }

    /// Set the vault served, once.
    pub fn initialize(&mut self, vault: Address) -> (r: Result<(), PhoenixAdapterError>)
        ensures
            (old(self)@ is Some) ==> r == Err::<(), PhoenixAdapterError>(
                PhoenixAdapterError::AlreadyInitialized,
            ) && final(self)@ == old(self)@,
            (old(self)@ is None) ==> (r is Ok) && final(self)@ == Some(vault@),
    {
        if self.vault.is_some() {
            return Err(PhoenixAdapterError::AlreadyInitialized);
        }
        self.vault = Some(vault);
        Ok(())
    }

    /// Check a swap of `offer_amount` of `offer_asset` with payout floor
    /// `min_ask_amount` and spread ceiling `max_spread_bps`, the adapter (at
    /// `adapter`) holding `balance` of the offered token, and return the
    /// call to make to `pool`. Its payout is then checked by
    /// [`PhoenixAdapter::settle_swap`].
    pub fn swap(
        &self,
        adapter: &Address,
        pool: &Address,
        offer_asset: &Address,
        offer_amount: i128,
        min_ask_amount: i128,
        max_spread_bps: u32,
        balance: i128,
    ) -> (r: Result<SwapCall, PhoenixAdapterError>)
        ensures
            match swap_spec(self@, offer_amount, min_ask_amount, balance) {
                Ok(()) => r matches Ok(call) && call@ == (SwapCallView {
                    pool: pool@,
                    sender: adapter@,
                    offer_asset: offer_asset@,
                    offer_amount,
                    ask_asset_min_amount: Some(min_ask_amount),
                    max_spread_bps: Some(max_spread_bps),
                }),
                Err(e) => r matches Err(e2) && e2 == e,
            },
    {
        if self.vault.is_none() {
            return Err(PhoenixAdapterError::NotInitialized);
        }
        if offer_amount <= 0 || min_ask_amount <= 0 {
            return Err(PhoenixAdapterError::AmountsNotPositive);
        }
        if balance < offer_amount {
            return Err(PhoenixAdapterError::InsufficientAdapterBalance);
        }
        Ok(
            SwapCall {
                pool: pool.clone(),
                sender: adapter.clone(),
                offer_asset: offer_asset.clone(),
                offer_amount,
                ask_asset_min_amount: Some(min_ask_amount),
                max_spread_bps: Some(max_spread_bps),
            },
        )
    }

    /// Check the pool's payout of `ask_amount` for a swap of `offer_amount`
    /// asked with floor `min_ask_amount` and spread ceiling `max_spread_bps`:
    /// a payout below the floor or with a wider spread is refused, whatever
    /// the pool claims. Returns the accepted payout.
    pub fn settle_swap(&self, offer_amount: i128, min_ask_amount: i128, max_spread_bps: u32, ask_amount: i128) -> (r:
        Result<i128, PhoenixAdapterError>)
        ensures
            r == settle_swap_spec(self@, offer_amount, min_ask_amount, max_spread_bps, ask_amount),
            (r is Ok) <==> (self@ is Some && offer_amount > 0 && min_ask_amount > 0 && ask_amount
                >= min_ask_amount && spread_bps_spec(offer_amount as int, ask_amount as int)
                <= max_spread_bps),
            r is Ok ==> r->Ok_0 == ask_amount,
    {
        if self.vault.is_none() {
            return Err(PhoenixAdapterError::NotInitialized);
        }
        if offer_amount <= 0 || min_ask_amount <= 0 {
            return Err(PhoenixAdapterError::AmountsNotPositive);
        }
        if ask_amount < min_ask_amount {
            return Err(PhoenixAdapterError::SlippageExceeded);
        }
        let spread = div_positive(saturating_mul(offer_amount - ask_amount, 10_000), offer_amount);
        if spread > max_spread_bps as i128 {
            return Err(PhoenixAdapterError::SpreadExceedsMax);
        }
        Ok(ask_amount)
    }

    /// The transfer that pays an accepted payout of `ask_amount` of
    /// `ask_asset` from the adapter at `adapter` to the vault.
    pub fn payout(&self, adapter: &Address, ask_asset: &Address, ask_amount: i128) -> (r: Result<
        Transfer,
        PhoenixAdapterError,
    >)
        ensures
            match self@ {
                None => r matches Err(e) && e == PhoenixAdapterError::NotInitialized,
                Some(vault) => r matches Ok(t) && t@ == (TransferView {
                    token: ask_asset@,
                    from: adapter@,
                    to: vault,
                    amount: ask_amount,
                }),
            },
    {
        match &self.vault {
            None => Err(PhoenixAdapterError::NotInitialized),
            Some(vault) => Ok(Transfer::new(ask_asset, adapter, vault, ask_amount)),
        }
    }

    /// The vault served.
    pub fn vault(&self) -> (r: Result<Address, PhoenixAdapterError>)
        ensures
            match self@ {
                None => r == Err::<Address, PhoenixAdapterError>(PhoenixAdapterError::NotInitialized),
                Some(v) => (r is Ok) && r->Ok_0@ == v,
            },
    {
        match &self.vault {
            None => Err(PhoenixAdapterError::NotInitialized),
            Some(v) => Ok(v.clone()),
        }
    }
}

} // verus!
