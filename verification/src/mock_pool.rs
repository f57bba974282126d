//! A generic liquidity pool for one token. It records deposits only once the
//! tokens have arrived, and pays withdrawals out of what it has recorded.

use vstd::prelude::*;

use crate::address::{Address, Transfer, TransferView};

verus! {

/// Why the pool refused a call.
#[derive(Debug, Clone, Copy, PartialEq, Eq, Structural)]
pub enum MockPoolError {
    /// The pool was initialized before.
    AlreadyInitialized,
    /// The pool has no token yet.
    NotInitialized,
    /// The amount was zero or negative.
    AmountNotPositive,
    /// The recorded total would not fit in 128 bits.
    TotalLiquidityOverflow,
    /// The pool's token balance does not cover the new recorded total.
    InsufficientTokensReceived,
    /// The recorded total is below the amount.
    InsufficientPoolLiquidity,
}

impl MockPoolError {
    /// The text of the message with which the contract aborts.
    pub open spec fn text(self) -> Seq<char> {
        match self {
            MockPoolError::AlreadyInitialized => "already initialized"@,
            MockPoolError::NotInitialized => "not initialized"@,
            MockPoolError::AmountNotPositive => "amount must be positive"@,
            MockPoolError::TotalLiquidityOverflow => "total liquidity overflow"@,
            MockPoolError::InsufficientTokensReceived => "insufficient tokens received"@,
            MockPoolError::InsufficientPoolLiquidity => "insufficient pool liquidity"@,
        }
    }

    /// The message with which the contract aborts.
    pub fn message(&self) -> (s: &'static str)
        ensures
            s@ == self.text(),
    {
        match self {
            MockPoolError::AlreadyInitialized => "already initialized",
            MockPoolError::NotInitialized => "not initialized",
            MockPoolError::AmountNotPositive => "amount must be positive",
            MockPoolError::TotalLiquidityOverflow => "total liquidity overflow",
            MockPoolError::InsufficientTokensReceived => "insufficient tokens received",
            MockPoolError::InsufficientPoolLiquidity => "insufficient pool liquidity",
        }
    }
}

/// The pool's storage as plain values.
pub struct MockPoolView {
    /// The token the pool accepts, once set.
    pub token: Option<Seq<u8>>,
    /// The recorded liquidity.
    pub total_liquidity: i128,
}

/// Initialization with `token`.
pub open spec fn initialize_spec(s: MockPoolView, token: Seq<u8>) -> Result<MockPoolView, MockPoolError> {
    if s.token is Some {
        Err(MockPoolError::AlreadyInitialized)
    } else {
        Ok(MockPoolView { token: Some(token), total_liquidity: 0 })
    }
}

/// A deposit of `amount`, the pool's token balance being `balance`.
pub open spec fn deposit_spec(s: MockPoolView, amount: i128, balance: i128) -> Result<
    MockPoolView,
    MockPoolError,
> {
    if amount <= 0 {
        Err(MockPoolError::AmountNotPositive)
    } else if s.token is None {
        Err(MockPoolError::NotInitialized)
    } else if s.total_liquidity + amount > i128::MAX {
        Err(MockPoolError::TotalLiquidityOverflow)
    } else if balance < s.total_liquidity + amount {
        Err(MockPoolError::InsufficientTokensReceived)
    } else {
        Ok(MockPoolView { total_liquidity: (s.total_liquidity + amount) as i128, ..s })
    }
}

/// A withdrawal of `amount`.
pub open spec fn withdraw_spec(s: MockPoolView, amount: i128) -> Result<MockPoolView, MockPoolError> {
    if amount <= 0 {
        Err(MockPoolError::AmountNotPositive)
    } else if s.token is None {
        Err(MockPoolError::NotInitialized)
    } else if s.total_liquidity < amount {
        Err(MockPoolError::InsufficientPoolLiquidity)
    } else {
        Ok(MockPoolView { total_liquidity: (s.total_liquidity - amount) as i128, ..s })
    }
}

/// Whether the result `r` of a step and the state `after` it leaves are
/// those that `step` gives from `before`.
pub open spec fn applied<T>(
    r: Result<T, MockPoolError>,
    step: Result<MockPoolView, MockPoolError>,
    before: MockPoolView,
    after: MockPoolView,
) -> bool {
    match step {
        Ok(s) => r is Ok && after == s,
        Err(e) => r matches Err(e2) && e2 == e && after == before,
    }
}

/// Withdrawing what was just deposited restores the pool's state.
pub proof fn law_withdraw_undoes_deposit(s: MockPoolView, amount: i128, balance: i128)
    requires
        s.total_liquidity >= 0,
        deposit_spec(s, amount, balance) is Ok,
    ensures
        withdraw_spec(deposit_spec(s, amount, balance)->Ok_0, amount) == Ok::<
            MockPoolView,
            MockPoolError,
        >(s),
{
}

/// The pool never records more liquidity than it holds tokens: an accepted
/// deposit leaves the recorded total at most the pool's token balance.
pub proof fn law_recorded_liquidity_is_held(s: MockPoolView, amount: i128, balance: i128)
    requires
        deposit_spec(s, amount, balance) is Ok,
    ensures
        deposit_spec(s, amount, balance)->Ok_0.total_liquidity <= balance,
        deposit_spec(s, amount, balance)->Ok_0.total_liquidity == s.total_liquidity + amount,
{
}

/// A withdrawal is accepted only when the recorded total covers it, and the
/// recorded total then stays non-negative.
pub proof fn law_withdraw_is_covered(s: MockPoolView, amount: i128)
    requires
        s.total_liquidity >= 0,
        withdraw_spec(s, amount) is Ok,
    ensures
        0 < amount <= s.total_liquidity,
        withdraw_spec(s, amount)->Ok_0.total_liquidity >= 0,
{
}

/// The pool.
pub struct MockPool {
    token: Option<Address>,
    total_liquidity: i128,
}

impl View for MockPool {
    type V = MockPoolView;

    closed spec fn view(&self) -> MockPoolView {
        MockPoolView {
            token: match self.token {
                Some(t) => Some(t@),
                None => None,
            },
            total_liquidity: self.total_liquidity,
        }
    }
}

impl MockPool {
    /// The recorded liquidity is not negative.
    pub open spec fn wf(&self) -> bool {
        self@.total_liquidity >= 0
    }

    /// A pool with no token and no liquidity.
    pub fn new() -> (p: Self)
        ensures
            p.wf(),
            (p@.token is None),
            p@.total_liquidity == 0,
    {
        MockPool { token: None, total_liquidity: 0 }
    }

    /// Load the stored token and recorded liquidity into the state.
    pub fn load(&mut self, token: Option<Address>, total_liquidity: i128)
        requires
            total_liquidity >= 0,
        ensures
            final(self).wf(),
            final(self)@.total_liquidity == total_liquidity,
            final(self)@.token == match token {
                Some(t) => Some(t@),
                None => None::<Seq<u8>>,
            },
    {
        self.token = token;
        self.total_liquidity = total_liquidity;
    }

    /// Set the token the pool accepts, once.
    pub fn initialize(&mut self, token: Address) -> (r: Result<(), MockPoolError>)
        requires
            old(self).wf(),
        ensures
            final(self).wf(),
            applied(r, initialize_spec(old(self)@, token@), old(self)@, final(self)@),
    {
        if self.token.is_some() {
            return Err(MockPoolError::AlreadyInitialized);
        }
        self.token = Some(token);
        self.total_liquidity = 0;
        Ok(())
    }

    /// Record a deposit of `amount`, the pool now holding `balance` of its
    /// token: the tokens must already be there.
    pub fn deposit(&mut self, amount: i128, balance: i128) -> (r: Result<(), MockPoolError>)
        requires
            old(self).wf(),
        ensures
            final(self).wf(),
            applied(r, deposit_spec(old(self)@, amount, balance), old(self)@, final(self)@),
    {
        if amount <= 0 {
            return Err(MockPoolError::AmountNotPositive);
        }
        if self.token.is_none() {
            return Err(MockPoolError::NotInitialized);
        }
        let new_total = match self.total_liquidity.checked_add(amount) {
            Some(t) => t,
            None => {
                return Err(MockPoolError::TotalLiquidityOverflow);
            },
        };
        if balance < new_total {
            return Err(MockPoolError::InsufficientTokensReceived);
        }
        self.total_liquidity = new_total;
        Ok(())
    }

    /// Pay out `amount` of the recorded liquidity of the pool at `pool` to
    /// `to`, and return the transfer of the pool's token that carries it out.
    pub fn withdraw(&mut self, pool: &Address, to: &Address, amount: i128) -> (r: Result<
        Transfer,
        MockPoolError,
    >)
        requires
            old(self).wf(),
        ensures
            final(self).wf(),
            applied(r, withdraw_spec(old(self)@, amount), old(self)@, final(self)@),
            r matches Ok(t) ==> t@ == (TransferView {
                token: old(self)@.token->0,
                from: pool@,
                to: to@,
                amount,
            }),
    {
        if amount <= 0 {
            return Err(MockPoolError::AmountNotPositive);
        }
        let token = match &self.token {
            None => {
                return Err(MockPoolError::NotInitialized);
            },
            Some(t) => t,
        };
        if self.total_liquidity < amount {
            return Err(MockPoolError::InsufficientPoolLiquidity);
        }
        let transfer = Transfer::new(token, pool, to, amount);
        self.total_liquidity = self.total_liquidity - amount;
        Ok(transfer)
    }

    /// The recorded liquidity.
    pub fn total_liquidity(&self) -> (r: i128)
        ensures
            r == self@.total_liquidity,
    {
        self.total_liquidity
    }

    /// The token the pool accepts.
    pub fn token(&self) -> (r: Result<Address, MockPoolError>)
        ensures
            match self@.token {
                None => r == Err::<Address, MockPoolError>(MockPoolError::NotInitialized),
                Some(t) => (r is Ok) && r->Ok_0@ == t,
            },
    {
        match &self.token {
            None => Err(MockPoolError::NotInitialized),
            Some(t) => Ok(t.clone()),
        }
    }
}

} // verus!
