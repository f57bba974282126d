//! The vault: users deposit tokens and withdraw them again; the delegated
//! agent moves the vault's liquidity into whitelisted protocols (a liquidity
//! pool, a Blend lending adapter, a Phoenix swap adapter) and rebalances it
//! between pools, without ever touching a user's recorded balance.
//!
//! Each operation is a step of the vault's state. What the step needs from
//! the rest of the ledger (the registry's whitelist answers, the vault's own
//! token balance, whether two pools trade the same token) is passed in; what
//! the step asks of the rest of the ledger on success (the token transfers
//! and the calls into pools and adapters, in order) is returned.

use vstd::prelude::*;

use crate::address::{Address, Holding, Transfer, TransferView};
use crate::table::{stored, Table};

verus! {

/// Why the vault refused a call.
#[derive(Debug, Clone, Copy, PartialEq, Eq, Structural)]
pub enum VaultError {
    /// The vault was initialized before.
    AlreadyInitialized,
    /// The vault has no registry yet.
    NotInitialized,
    /// The amount was zero or negative.
    AmountNotPositive,
    /// The user's balance would not fit in 128 bits.
    BalanceOverflow,
    /// The user's recorded balance is below the amount.
    InsufficientBalance,
    /// The vault holds fewer tokens than the amount.
    InsufficientVaultLiquidity,
    /// A protocol is not on the registry's whitelist.
    ProtocolNotWhitelisted,
    /// A rebalance named the same pool twice.
    PoolsMustDiffer,
    /// The two pools of a rebalance trade different tokens.
    PoolTokenMismatch,
    /// The vault's record of what it placed in the source pool is below the
    /// amount.
    InsufficientTrackedPoolDeposits,
    /// A tracked total would not fit in 128 bits.
    ArithmeticOverflow,
}

impl VaultError {
    /// The text of the message with which the contract aborts.
    pub open spec fn text(self) -> Seq<char> {
        match self {
            VaultError::AlreadyInitialized => "already initialized"@,
            VaultError::NotInitialized => "not initialized"@,
            VaultError::AmountNotPositive => "amount must be positive"@,
            VaultError::BalanceOverflow => "balance overflow"@,
            VaultError::InsufficientBalance => "insufficient balance"@,
            VaultError::InsufficientVaultLiquidity => "insufficient vault liquidity"@,
            VaultError::ProtocolNotWhitelisted => "protocol not whitelisted"@,
            VaultError::PoolsMustDiffer => "pools must differ"@,
            VaultError::PoolTokenMismatch => "pool token mismatch"@,
            VaultError::InsufficientTrackedPoolDeposits => "insufficient tracked pool deposits"@,
            VaultError::ArithmeticOverflow => "arithmetic overflow"@,
        }
    }

    /// The message with which the contract aborts.
    pub fn message(&self) -> (s: &'static str)
        ensures
            s@ == self.text(),
    {
        match self {
            VaultError::AlreadyInitialized => "already initialized",
            VaultError::NotInitialized => "not initialized",
            VaultError::AmountNotPositive => "amount must be positive",
            VaultError::BalanceOverflow => "balance overflow",
            VaultError::InsufficientBalance => "insufficient balance",
            VaultError::InsufficientVaultLiquidity => "insufficient vault liquidity",
            VaultError::ProtocolNotWhitelisted => "protocol not whitelisted",
            VaultError::PoolsMustDiffer => "pools must differ",
            VaultError::PoolTokenMismatch => "pool token mismatch",
            VaultError::InsufficientTrackedPoolDeposits => "insufficient tracked pool deposits",
            VaultError::ArithmeticOverflow => "arithmetic overflow",
        }
    }
}

/// The vault's storage as plain values.
pub struct VaultView {
    /// The delegation registry, once set.
    pub auth: Option<Seq<u8>>,
    /// Each user's recorded balance of each token.
    pub balances: Map<(Seq<u8>, Seq<u8>), i128>,
    /// What the vault has placed in each liquidity pool.
    pub pool_deposited: Map<Seq<u8>, i128>,
    /// What the vault has supplied through each Blend adapter.
    pub blend_supplied: Map<Seq<u8>, i128>,
}

impl VaultView {
    /// The recorded balance of `token` held for `user`.
    pub open spec fn balance(self, user: Seq<u8>, token: Seq<u8>) -> i128 {
        stored(self.balances, (user, token))
    }

    /// What the vault has placed in `pool`.
    pub open spec fn deposited(self, pool: Seq<u8>) -> i128 {
        stored(self.pool_deposited, pool)
    }

    /// What the vault has supplied through the Blend adapter `adapter`.
    pub open spec fn supplied(self, adapter: Seq<u8>) -> i128 {
        stored(self.blend_supplied, adapter)
    }

    /// No recorded balance and no tracked total is negative.
    pub open spec fn amounts_nonnegative(self) -> bool {
        &&& forall|k| #[trigger] self.balances.contains_key(k) ==> self.balances[k] >= 0
        &&& forall|k| #[trigger] self.pool_deposited.contains_key(k) ==> self.pool_deposited[k] >= 0
        &&& forall|k| #[trigger] self.blend_supplied.contains_key(k) ==> self.blend_supplied[k] >= 0
    }
}

/// Whether the result `r` of a step and the state `after` it leaves are
/// those that `step` gives from the state `before`: the new state on
/// success, and on refusal the same error with the state unchanged.
pub open spec fn applied<T>(
    r: Result<T, VaultError>,
    step: Result<VaultView, VaultError>,
    before: VaultView,
    after: VaultView,
) -> bool {
    match step {
        Ok(s) => r is Ok && after == s,
        Err(e) => r matches Err(e2) && e2 == e && after == before,
    }
}

/// A call that the vault makes into another contract.
pub enum VaultCall {
    /// A token transfer.
    Transfer(Transfer),
    /// `pool.deposit(amount)`: the pool records tokens it has received.
    PoolDeposit { pool: Address, amount: i128 },
    /// `pool.withdraw(to, amount)`: the pool pays `amount` to `to`.
    PoolWithdraw { pool: Address, to: Address, amount: i128 },
    /// `adapter.supply(asset, amount)`: the Blend adapter supplies what it
    /// has received.
    BlendSupply { adapter: Address, asset: Address, amount: i128 },
    /// `adapter.swap(pool, offer_asset, ask_asset, offer_amount,
    /// min_ask_amount, max_spread_bps)`: the Phoenix adapter swaps what it
    /// has received and pays the proceeds to the vault.
    PhoenixSwap {
        adapter: Address,
        pool: Address,
        offer_asset: Address,
        ask_asset: Address,
        offer_amount: i128,
        min_ask_amount: i128,
        max_spread_bps: u32,
    },
}

/// A call as plain values.
pub enum VaultCallView {
    Transfer(TransferView),
    PoolDeposit { pool: Seq<u8>, amount: i128 },
    PoolWithdraw { pool: Seq<u8>, to: Seq<u8>, amount: i128 },
    BlendSupply { adapter: Seq<u8>, asset: Seq<u8>, amount: i128 },
    PhoenixSwap {
        adapter: Seq<u8>,
        pool: Seq<u8>,
        offer_asset: Seq<u8>,
        ask_asset: Seq<u8>,
        offer_amount: i128,
        min_ask_amount: i128,
        max_spread_bps: u32,
    },
}

impl View for VaultCall {
    type V = VaultCallView;

    open spec fn view(&self) -> VaultCallView {
        match self {
            VaultCall::Transfer(t) => VaultCallView::Transfer(t@),
            VaultCall::PoolDeposit { pool, amount } => VaultCallView::PoolDeposit {
                pool: pool@,
                amount: *amount,
            },
            VaultCall::PoolWithdraw { pool, to, amount } => VaultCallView::PoolWithdraw {
                pool: pool@,
                to: to@,
                amount: *amount,
            },
            VaultCall::BlendSupply { adapter, asset, amount } => VaultCallView::BlendSupply {
                adapter: adapter@,
                asset: asset@,
                amount: *amount,
            },
            VaultCall::PhoenixSwap {
                adapter,
                pool,
                offer_asset,
                ask_asset,
                offer_amount,
                min_ask_amount,
                max_spread_bps,
            } => VaultCallView::PhoenixSwap {
                adapter: adapter@,
                pool: pool@,
                offer_asset: offer_asset@,
                ask_asset: ask_asset@,
                offer_amount: *offer_amount,
                min_ask_amount: *min_ask_amount,
                max_spread_bps: *max_spread_bps,
            },
        }
    }
}

/// The views of a sequence of calls.
pub open spec fn call_views(calls: Seq<VaultCall>) -> Seq<VaultCallView> {
    calls.map_values(|c: VaultCall| c@)
}

/// The transfer that carries out a deposit into the vault at `vault`.
pub open spec fn deposit_transfer(vault: Seq<u8>, user: Seq<u8>, token: Seq<u8>, amount: i128) -> TransferView {
    TransferView { token, from: user, to: vault, amount }
}

/// The transfer that carries out a withdrawal from the vault at `vault`.
pub open spec fn withdraw_transfer(vault: Seq<u8>, user: Seq<u8>, token: Seq<u8>, amount: i128) -> TransferView {
    TransferView { token, from: vault, to: user, amount }
}

/// The calls that place `amount` of `token` in `pool`: the tokens move to
/// the pool, then the pool records them.
pub open spec fn deposit_to_pool_calls(vault: Seq<u8>, pool: Seq<u8>, token: Seq<u8>, amount: i128) -> Seq<
    VaultCallView,
> {
    seq![
        VaultCallView::Transfer(TransferView { token, from: vault, to: pool, amount }),
        VaultCallView::PoolDeposit { pool, amount },
    ]
}

/// The calls that move `amount` of `token` from `from_pool` to `to_pool`:
/// the source pool pays the vault, the tokens move to the target pool, and
/// the target pool records them.
pub open spec fn rebalance_calls(
    vault: Seq<u8>,
    from_pool: Seq<u8>,
    to_pool: Seq<u8>,
    token: Seq<u8>,
    amount: i128,
) -> Seq<VaultCallView> {
    seq![
        VaultCallView::PoolWithdraw { pool: from_pool, to: vault, amount },
        VaultCallView::Transfer(TransferView { token, from: vault, to: to_pool, amount }),
        VaultCallView::PoolDeposit { pool: to_pool, amount },
    ]
}

/// The calls that supply `amount` of `token` to Blend through `adapter`:
/// the tokens move to the adapter, then the adapter supplies them.
pub open spec fn supply_to_blend_calls(vault: Seq<u8>, adapter: Seq<u8>, token: Seq<u8>, amount: i128) -> Seq<
    VaultCallView,
> {
    seq![
        VaultCallView::Transfer(TransferView { token, from: vault, to: adapter, amount }),
        VaultCallView::BlendSupply { adapter, asset: token, amount },
    ]
}

/// The calls that swap `offer_amount` of `offer_asset` on `pool` through
/// `adapter`: the offer moves to the adapter, then the adapter swaps it with
/// the floor and the spread ceiling.
pub open spec fn swap_phoenix_calls(
    vault: Seq<u8>,
    adapter: Seq<u8>,
    pool: Seq<u8>,
    offer_asset: Seq<u8>,
    ask_asset: Seq<u8>,
    offer_amount: i128,
    min_ask_amount: i128,
    max_spread_bps: u32,
) -> Seq<VaultCallView> {
    seq![
        VaultCallView::Transfer(
            TransferView { token: offer_asset, from: vault, to: adapter, amount: offer_amount },
        ),
        VaultCallView::PhoenixSwap {
            adapter,
            pool,
            offer_asset,
            ask_asset,
            offer_amount,
            min_ask_amount,
            max_spread_bps,
        },
    ]
}

/// Initialization: record the registry and open a zero record for the
/// default pool.
pub open spec fn initialize_spec(s: VaultView, auth: Seq<u8>, pool: Seq<u8>) -> Result<
    VaultView,
    VaultError,
> {
    if s.auth is Some {
        Err(VaultError::AlreadyInitialized)
    } else {
        Ok(VaultView { auth: Some(auth), pool_deposited: s.pool_deposited.insert(pool, 0), ..s })
    }
}

/// A deposit of `amount` of `token` by `user`.
pub open spec fn deposit_spec(s: VaultView, user: Seq<u8>, token: Seq<u8>, amount: i128) -> Result<
    VaultView,
    VaultError,
> {
    if amount <= 0 {
        Err(VaultError::AmountNotPositive)
    } else if s.balance(user, token) + amount > i128::MAX {
        Err(VaultError::BalanceOverflow)
    } else {
        Ok(
            VaultView {
                balances: s.balances.insert((user, token), (s.balance(user, token) + amount) as i128),
                ..s
            },
        )
    }
}

/// A withdrawal of `amount` of `token` by `user`, when the vault holds
/// `liquidity` of the token.
pub open spec fn withdraw_spec(
    s: VaultView,
    user: Seq<u8>,
    token: Seq<u8>,
    amount: i128,
    liquidity: i128,
) -> Result<VaultView, VaultError> {
    if amount <= 0 {
        Err(VaultError::AmountNotPositive)
    } else if s.balance(user, token) < amount {
        Err(VaultError::InsufficientBalance)
    } else if liquidity < amount {
        Err(VaultError::InsufficientVaultLiquidity)
    } else {
        Ok(
            VaultView {
                balances: s.balances.insert((user, token), (s.balance(user, token) - amount) as i128),
                ..s
            },
        )
    }
}

/// The agent places `amount` of the vault's liquidity (of which the vault
/// holds `liquidity`) into `pool`.
pub open spec fn agent_deposit_to_pool_spec(
    s: VaultView,
    pool: Seq<u8>,
    amount: i128,
    whitelisted: bool,
    liquidity: i128,
) -> Result<VaultView, VaultError> {
    if amount <= 0 {
        Err(VaultError::AmountNotPositive)
    } else if s.auth is None {
        Err(VaultError::NotInitialized)
    } else if !whitelisted {
        Err(VaultError::ProtocolNotWhitelisted)
    } else if liquidity < amount {
        Err(VaultError::InsufficientVaultLiquidity)
    } else if s.deposited(pool) + amount > i128::MAX {
        Err(VaultError::ArithmeticOverflow)
    } else {
        Ok(
            VaultView {
                pool_deposited: s.pool_deposited.insert(pool, (s.deposited(pool) + amount) as i128),
                ..s
            },
        )
    }
}

/// The agent moves `amount` from `from_pool` to `to_pool`.
pub open spec fn rebalance_spec(
    s: VaultView,
    from_pool: Seq<u8>,
    to_pool: Seq<u8>,
    amount: i128,
    from_whitelisted: bool,
    to_whitelisted: bool,
    same_token: bool,
) -> Result<VaultView, VaultError> {
    if amount <= 0 {
        Err(VaultError::AmountNotPositive)
    } else if from_pool == to_pool {
        Err(VaultError::PoolsMustDiffer)
    } else if s.auth is None {
        Err(VaultError::NotInitialized)
    } else if !from_whitelisted || !to_whitelisted {
        Err(VaultError::ProtocolNotWhitelisted)
    } else if !same_token {
        Err(VaultError::PoolTokenMismatch)
    } else if s.deposited(from_pool) < amount {
        Err(VaultError::InsufficientTrackedPoolDeposits)
    } else if s.deposited(to_pool) + amount > i128::MAX {
        Err(VaultError::ArithmeticOverflow)
    } else {
        Ok(
            VaultView {
                pool_deposited: s.pool_deposited.insert(
                    from_pool,
                    (s.deposited(from_pool) - amount) as i128,
                ).insert(to_pool, (s.deposited(to_pool) + amount) as i128),
                ..s
            },
        )
    }
}

/// The agent supplies `amount` of the vault's liquidity to Blend through
/// `adapter`.
pub open spec fn agent_supply_to_blend_spec(
    s: VaultView,
    adapter: Seq<u8>,
    amount: i128,
    whitelisted: bool,
    liquidity: i128,
) -> Result<VaultView, VaultError> {
    if amount <= 0 {
        Err(VaultError::AmountNotPositive)
    } else if s.auth is None {
        Err(VaultError::NotInitialized)
    } else if !whitelisted {
        Err(VaultError::ProtocolNotWhitelisted)
    } else if liquidity < amount {
        Err(VaultError::InsufficientVaultLiquidity)
    } else if s.supplied(adapter) + amount > i128::MAX {
        Err(VaultError::ArithmeticOverflow)
    } else {
        Ok(
            VaultView {
                blend_supplied: s.blend_supplied.insert(adapter, (s.supplied(adapter) + amount) as i128),
                ..s
            },
        )
    }
}

/// The agent's checks before a Phoenix swap of `offer_amount` with a payout
/// floor of `min_ask_amount`.
pub open spec fn agent_swap_phoenix_spec(
    s: VaultView,
    offer_amount: i128,
    min_ask_amount: i128,
    adapter_whitelisted: bool,
    pool_whitelisted: bool,
    liquidity: i128,
) -> Result<(), VaultError> {
    if offer_amount <= 0 || min_ask_amount <= 0 {
        Err(VaultError::AmountNotPositive)
    } else if s.auth is None {
        Err(VaultError::NotInitialized)
    } else if !adapter_whitelisted || !pool_whitelisted {
        Err(VaultError::ProtocolNotWhitelisted)
    } else if liquidity < offer_amount {
        Err(VaultError::InsufficientVaultLiquidity)
    } else {
        Ok(())
    }
}

/// A withdrawal of what was just deposited is accepted, given the vault
/// holds the tokens, and leaves every recorded balance as it was before the
/// deposit.
pub proof fn law_withdraw_undoes_deposit(
    s: VaultView,
    user: Seq<u8>,
    token: Seq<u8>,
    amount: i128,
    liquidity: i128,
)
    requires
        s.amounts_nonnegative(),
        deposit_spec(s, user, token, amount) is Ok,
        liquidity >= amount,
    ensures
        withdraw_spec(deposit_spec(s, user, token, amount)->Ok_0, user, token, amount, liquidity) is Ok,
        ({
            let after = withdraw_spec(
                deposit_spec(s, user, token, amount)->Ok_0,
                user,
                token,
                amount,
                liquidity,
            )->Ok_0;
            &&& forall|u: Seq<u8>, t: Seq<u8>| #[trigger] after.balance(u, t) == s.balance(u, t)
            &&& after.auth == s.auth
            &&& after.pool_deposited == s.pool_deposited
            &&& after.blend_supplied == s.blend_supplied
        }),
{
    let key = (user, token);
    if s.balances.contains_key(key) {
        assert(s.balances[key] >= 0);
    }
    let mid = deposit_spec(s, user, token, amount)->Ok_0;
    assert(mid.balance(user, token) == s.balance(user, token) + amount);
}

/// A deposit and then a withdrawal of the same amount make opposite
/// transfers: the tokens that came in from the user go back to the user, so
/// the user's and the vault's token balances end where they started while
/// the recorded balance does too.
pub proof fn law_withdraw_transfer_reverses_deposit(
    s: VaultView,
    vault: Seq<u8>,
    user: Seq<u8>,
    token: Seq<u8>,
    amount: i128,
    liquidity: i128,
)
    requires
        s.amounts_nonnegative(),
        deposit_spec(s, user, token, amount) is Ok,
        liquidity >= amount,
    ensures
        withdraw_spec(deposit_spec(s, user, token, amount)->Ok_0, user, token, amount, liquidity) is Ok,
        ({
            let d = deposit_transfer(vault, user, token, amount);
            let w = withdraw_transfer(vault, user, token, amount);
            &&& w.token == d.token && w.amount == d.amount
            &&& w.from == d.to && w.to == d.from
        }),
{
    law_withdraw_undoes_deposit(s, user, token, amount, liquidity);
}

/// A deposit raises the depositor's recorded balance of the token by the
/// amount and changes nothing else.
pub proof fn law_deposit_touches_only_its_holding(
    s: VaultView,
    user: Seq<u8>,
    token: Seq<u8>,
    amount: i128,
)
    requires
        deposit_spec(s, user, token, amount) is Ok,
    ensures
        ({
            let after = deposit_spec(s, user, token, amount)->Ok_0;
            &&& after.balance(user, token) == s.balance(user, token) + amount
            &&& forall|u: Seq<u8>, t: Seq<u8>|
                (u, t) != (user, token) ==> #[trigger] after.balance(u, t) == s.balance(u, t)
            &&& after.auth == s.auth
            &&& after.pool_deposited == s.pool_deposited
            &&& after.blend_supplied == s.blend_supplied
        }),
{
}

/// A withdrawal is accepted only for a positive amount covered both by the
/// user's recorded balance and by the vault's own token balance, and it
/// lowers that recorded balance by the amount and nothing else.
pub proof fn law_withdraw_is_covered(
    s: VaultView,
    user: Seq<u8>,
    token: Seq<u8>,
    amount: i128,
    liquidity: i128,
)
    requires
        withdraw_spec(s, user, token, amount, liquidity) is Ok,
    ensures
        0 < amount <= s.balance(user, token),
        amount <= liquidity,
        ({
            let after = withdraw_spec(s, user, token, amount, liquidity)->Ok_0;
            &&& after.balance(user, token) == s.balance(user, token) - amount
            &&& forall|u: Seq<u8>, t: Seq<u8>|
                (u, t) != (user, token) ==> #[trigger] after.balance(u, t) == s.balance(u, t)
        }),
{
}

/// Whatever the agent does (placing liquidity in a pool, rebalancing between
/// pools, supplying to Blend, swapping on Phoenix), no user's recorded
/// balance changes, and it is accepted only for whitelisted protocols.
pub proof fn law_agent_never_touches_user_balances(
    s: VaultView,
    p: Seq<u8>,
    q: Seq<u8>,
    amount: i128,
    min_ask: i128,
    w1: bool,
    w2: bool,
    same_token: bool,
    liquidity: i128,
)
    ensures
        agent_deposit_to_pool_spec(s, p, amount, w1, liquidity) is Ok ==> w1
            && agent_deposit_to_pool_spec(s, p, amount, w1, liquidity)->Ok_0.balances == s.balances,
        rebalance_spec(s, p, q, amount, w1, w2, same_token) is Ok ==> w1 && w2 && rebalance_spec(
            s,
            p,
            q,
            amount,
            w1,
            w2,
            same_token,
        )->Ok_0.balances == s.balances,
        agent_supply_to_blend_spec(s, p, amount, w1, liquidity) is Ok ==> w1
            && agent_supply_to_blend_spec(s, p, amount, w1, liquidity)->Ok_0.balances == s.balances,
        agent_swap_phoenix_spec(s, amount, min_ask, w1, w2, liquidity) is Ok ==> w1 && w2,
{
}

/// An agent deposit is accepted exactly for a positive amount into a
/// whitelisted pool of an initialized vault that holds the amount and whose
/// record for the pool has room for it; it then raises that pool's record by
/// exactly the amount and changes nothing else.
pub proof fn law_agent_deposit_adds_to_pool_record(
    s: VaultView,
    pool: Seq<u8>,
    amount: i128,
    whitelisted: bool,
    liquidity: i128,
)
    ensures
        (agent_deposit_to_pool_spec(s, pool, amount, whitelisted, liquidity) is Ok) <==> (amount > 0
            && s.auth is Some && whitelisted && liquidity >= amount && s.deposited(pool) + amount
            <= i128::MAX),
        agent_deposit_to_pool_spec(s, pool, amount, whitelisted, liquidity) is Ok ==> ({
            let after = agent_deposit_to_pool_spec(s, pool, amount, whitelisted, liquidity)->Ok_0;
            &&& after.deposited(pool) == s.deposited(pool) + amount
            &&& forall|p: Seq<u8>| p != pool ==> #[trigger] after.deposited(p) == s.deposited(p)
            &&& after.balances == s.balances
            &&& after.blend_supplied == s.blend_supplied
            &&& after.auth == s.auth
        }),
{
}

/// A supply to Blend is accepted exactly for a positive amount through a
/// whitelisted adapter of an initialized vault that holds the amount and
/// whose record for the adapter has room for it; it then raises that
/// adapter's record by exactly the amount and changes nothing else.
pub proof fn law_blend_supply_adds_to_adapter_record(
    s: VaultView,
    adapter: Seq<u8>,
    amount: i128,
    whitelisted: bool,
    liquidity: i128,
)
    ensures
        (agent_supply_to_blend_spec(s, adapter, amount, whitelisted, liquidity) is Ok) <==> (amount
            > 0 && s.auth is Some && whitelisted && liquidity >= amount && s.supplied(adapter)
            + amount <= i128::MAX),
        agent_supply_to_blend_spec(s, adapter, amount, whitelisted, liquidity) is Ok ==> ({
            let after = agent_supply_to_blend_spec(s, adapter, amount, whitelisted, liquidity)->Ok_0;
            &&& after.supplied(adapter) == s.supplied(adapter) + amount
            &&& forall|a: Seq<u8>| a != adapter ==> #[trigger] after.supplied(a) == s.supplied(a)
            &&& after.balances == s.balances
            &&& after.pool_deposited == s.pool_deposited
            &&& after.auth == s.auth
        }),
{
}

/// A rebalance moves the amount from one pool's record to the other's: the
/// sum of the two records is unchanged and every other pool's record is
/// unchanged.
pub proof fn law_rebalance_conserves_pool_deposits(
    s: VaultView,
    from_pool: Seq<u8>,
    to_pool: Seq<u8>,
    amount: i128,
    from_whitelisted: bool,
    to_whitelisted: bool,
    same_token: bool,
)
    requires
        rebalance_spec(s, from_pool, to_pool, amount, from_whitelisted, to_whitelisted, same_token) is Ok,
    ensures
        ({
            let after = rebalance_spec(
                s,
                from_pool,
                to_pool,
                amount,
                from_whitelisted,
                to_whitelisted,
                same_token,
            )->Ok_0;
            &&& after.deposited(from_pool) == s.deposited(from_pool) - amount
            &&& after.deposited(to_pool) == s.deposited(to_pool) + amount
            &&& after.deposited(from_pool) + after.deposited(to_pool) == s.deposited(from_pool)
                + s.deposited(to_pool)
            &&& forall|p: Seq<u8>|
                p != from_pool && p != to_pool ==> #[trigger] after.deposited(p) == s.deposited(p)
        }),
{
}

/// Every accepted step keeps all recorded balances and tracked totals
/// non-negative.
pub proof fn law_amounts_stay_nonnegative(
    s: VaultView,
    user: Seq<u8>,
    token: Seq<u8>,
    p: Seq<u8>,
    q: Seq<u8>,
    amount: i128,
    w1: bool,
    w2: bool,
    same_token: bool,
    liquidity: i128,
)
    requires
        s.amounts_nonnegative(),
    ensures
        initialize_spec(s, p, q) is Ok ==> initialize_spec(s, p, q)->Ok_0.amounts_nonnegative(),
        deposit_spec(s, user, token, amount) is Ok ==> deposit_spec(
            s,
            user,
            token,
            amount,
        )->Ok_0.amounts_nonnegative(),
        withdraw_spec(s, user, token, amount, liquidity) is Ok ==> withdraw_spec(
            s,
            user,
            token,
            amount,
            liquidity,
        )->Ok_0.amounts_nonnegative(),
        agent_deposit_to_pool_spec(s, p, amount, w1, liquidity) is Ok
            ==> agent_deposit_to_pool_spec(s, p, amount, w1, liquidity)->Ok_0.amounts_nonnegative(),
        rebalance_spec(s, p, q, amount, w1, w2, same_token) is Ok ==> rebalance_spec(
            s,
            p,
            q,
            amount,
            w1,
            w2,
            same_token,
        )->Ok_0.amounts_nonnegative(),
        agent_supply_to_blend_spec(s, p, amount, w1, liquidity) is Ok
            ==> agent_supply_to_blend_spec(s, p, amount, w1, liquidity)->Ok_0.amounts_nonnegative(),
{
}

/// The vault.
pub struct Vault {
    auth: Option<Address>,
    balances: Table<Holding, i128>,
    pool_deposited: Table<Address, i128>,
    blend_supplied: Table<Address, i128>,
}

impl View for Vault {
    type V = VaultView;

    closed spec fn view(&self) -> VaultView {
        VaultView {
            auth: match self.auth {
                Some(a) => Some(a@),
                None => None,
            },
            balances: self.balances@,
            pool_deposited: self.pool_deposited@,
            blend_supplied: self.blend_supplied@,
        }
    }
}

impl Vault {
    /// The tables are well formed and no amount in them is negative.
    pub closed spec fn wf(&self) -> bool {
        &&& self.balances.wf()
        &&& self.pool_deposited.wf()
        &&& self.blend_supplied.wf()
        &&& self@.amounts_nonnegative()
    }

    /// An uninitialized vault with no balances.
    pub fn new() -> (v: Self)
        ensures
            v.wf(),
            (v@.auth is None),
            v@.balances == Map::<(Seq<u8>, Seq<u8>), i128>::empty(),
            v@.pool_deposited == Map::<Seq<u8>, i128>::empty(),
            v@.blend_supplied == Map::<Seq<u8>, i128>::empty(),
    {
        Vault {
            auth: None,
            balances: Table::new(),
            pool_deposited: Table::new(),
            blend_supplied: Table::new(),
        }
    }

    /// Record the delegation registry `auth` and open a zero record for the
    /// default liquidity pool `pool`, once.
    pub fn initialize(&mut self, auth: Address, pool: &Address) -> (r: Result<(), VaultError>)
        requires
            old(self).wf(),
        ensures
            final(self).wf(),
            final(self)@.amounts_nonnegative(),
            applied(r, initialize_spec(old(self)@, auth@, pool@), old(self)@, final(self)@),
    {
        if self.auth.is_some() {
            return Err(VaultError::AlreadyInitialized);
        }
        self.auth = Some(auth);
        self.pool_deposited.set(pool, 0);
        Ok(())
    }

    /// Load the stored registry address into the state.
    pub fn load_auth(&mut self, auth: Address)
        requires
            old(self).wf(),
        ensures
            final(self).wf(),
            final(self)@ == (VaultView { auth: Some(auth@), ..old(self)@ }),
    {
        self.auth = Some(auth);
    }

    /// Load a stored recorded balance into the state.
    pub fn load_balance(&mut self, user: &Address, token: &Address, balance: i128)
        requires
            old(self).wf(),
            balance >= 0,
        ensures
            final(self).wf(),
            final(self)@ == (VaultView {
                balances: old(self)@.balances.insert((user@, token@), balance),
                ..old(self)@
            }),
    {
        self.balances.set(&Holding::new(user, token), balance);
    }

    /// Load a stored record of what the vault placed in `pool`.
    pub fn load_pool_deposited(&mut self, pool: &Address, amount: i128)
        requires
            old(self).wf(),
            amount >= 0,
        ensures
            final(self).wf(),
            final(self)@ == (VaultView {
                pool_deposited: old(self)@.pool_deposited.insert(pool@, amount),
                ..old(self)@
            }),
    {
        self.pool_deposited.set(pool, amount);
    }

    /// Load a stored record of what the vault supplied through `adapter`.
    pub fn load_blend_supplied(&mut self, adapter: &Address, amount: i128)
        requires
            old(self).wf(),
            amount >= 0,
        ensures
            final(self).wf(),
            final(self)@ == (VaultView {
                blend_supplied: old(self)@.blend_supplied.insert(adapter@, amount),
                ..old(self)@
            }),
    {
        self.blend_supplied.set(adapter, amount);
    }

    /// `user` deposits `amount` of `token` into the vault at `vault`, and
    /// gets the transfer that brings the tokens in.
    pub fn deposit(&mut self, vault: &Address, user: &Address, token: &Address, amount: i128) -> (r:
        Result<Transfer, VaultError>)
        requires
            old(self).wf(),
        ensures
            final(self).wf(),
            final(self)@.amounts_nonnegative(),
            applied(r, deposit_spec(old(self)@, user@, token@, amount), old(self)@, final(self)@),
            r matches Ok(t) ==> t@ == deposit_transfer(vault@, user@, token@, amount),
    {
        if amount <= 0 {
            return Err(VaultError::AmountNotPositive);
        }
        let key = Holding::new(user, token);
        let balance = self.balances.get_or(&key, 0);
        let new_balance = match balance.checked_add(amount) {
            Some(b) => b,
            None => {
                return Err(VaultError::BalanceOverflow);
            },
        };
        self.balances.set(&key, new_balance);
        Ok(Transfer::new(token, user, vault, amount))
    }

    /// `user` withdraws `amount` of `token` from the vault at `vault`, which
    /// holds `liquidity` of it, and gets the transfer that pays the tokens
    /// out.
    pub fn withdraw(
        &mut self,
        vault: &Address,
        user: &Address,
        token: &Address,
        amount: i128,
        liquidity: i128,
    ) -> (r: Result<Transfer, VaultError>)
        requires
            old(self).wf(),
        ensures
            final(self).wf(),
            final(self)@.amounts_nonnegative(),
            applied(
                r,
                withdraw_spec(old(self)@, user@, token@, amount, liquidity),
                old(self)@,
                final(self)@,
            ),
            r matches Ok(t) ==> t@ == withdraw_transfer(vault@, user@, token@, amount),
    {
        if amount <= 0 {
            return Err(VaultError::AmountNotPositive);
        }
        let key = Holding::new(user, token);
        let balance = self.balances.get_or(&key, 0);
        if balance < amount {
            return Err(VaultError::InsufficientBalance);
        }
        if liquidity < amount {
            return Err(VaultError::InsufficientVaultLiquidity);
        }
        self.balances.set(&key, balance - amount);
        Ok(Transfer::new(token, vault, user, amount))
    }

    /// The recorded balance of `token` held for `user`.
    pub fn balance(&self, user: &Address, token: &Address) -> (r: i128)
        requires
            self.wf(),
        ensures
            r == self@.balance(user@, token@),
    {
        self.balances.get_or(&Holding::new(user, token), 0)
    }

    /// The agent places `amount` of the liquidity of the vault at `vault`
    /// into `pool`, whose token is `token`; `whitelisted` is the registry's
    /// answer for `pool` and `liquidity` the vault's balance of the token.
    /// Returns the calls that carry it out.
    pub fn agent_deposit_to_pool(
        &mut self,
        vault: &Address,
        pool: &Address,
        token: &Address,
        amount: i128,
        whitelisted: bool,
        liquidity: i128,
    ) -> (r: Result<Vec<VaultCall>, VaultError>)
        requires
            old(self).wf(),
        ensures
            final(self).wf(),
            final(self)@.amounts_nonnegative(),
            applied(
                r,
                agent_deposit_to_pool_spec(old(self)@, pool@, amount, whitelisted, liquidity),
                old(self)@,
                final(self)@,
            ),
            r matches Ok(calls) ==> call_views(calls@) == deposit_to_pool_calls(
                vault@,
                pool@,
                token@,
                amount,
            ),
    {
        if amount <= 0 {
            return Err(VaultError::AmountNotPositive);
        }
        if self.auth.is_none() {
            return Err(VaultError::NotInitialized);
        }
        if !whitelisted {
            return Err(VaultError::ProtocolNotWhitelisted);
        }
        if liquidity < amount {
            return Err(VaultError::InsufficientVaultLiquidity);
        }
        let deposited = self.pool_deposited.get_or(pool, 0);
        let new_deposited = match deposited.checked_add(amount) {
            Some(d) => d,
            None => {
                return Err(VaultError::ArithmeticOverflow);
            },
        };
        self.pool_deposited.set(pool, new_deposited);
        let mut calls: Vec<VaultCall> = Vec::new();
        calls.push(VaultCall::Transfer(Transfer::new(token, vault, pool, amount)));
        calls.push(VaultCall::PoolDeposit { pool: pool.clone(), amount });
        assert(call_views(calls@) =~= deposit_to_pool_calls(vault@, pool@, token@, amount));
        Ok(calls)
    }

    /// The agent moves `amount` from `from_pool` to `to_pool` for the vault
    /// at `vault`; `token` is the source pool's token, and the flags are the
    /// registry's answers for the two pools and whether the target pool
    /// trades the same token. Returns the calls that carry it out.
    pub fn rebalance(
        &mut self,
        vault: &Address,
        from_pool: &Address,
        to_pool: &Address,
        token: &Address,
        amount: i128,
        from_whitelisted: bool,
        to_whitelisted: bool,
        same_token: bool,
    ) -> (r: Result<Vec<VaultCall>, VaultError>)
        requires
            old(self).wf(),
        ensures
            final(self).wf(),
            final(self)@.amounts_nonnegative(),
            applied(
                r,
                rebalance_spec(
                    old(self)@,
                    from_pool@,
                    to_pool@,
                    amount,
                    from_whitelisted,
                    to_whitelisted,
                    same_token,
                ),
                old(self)@,
                final(self)@,
            ),
            r matches Ok(calls) ==> call_views(calls@) == rebalance_calls(
                vault@,
                from_pool@,
                to_pool@,
                token@,
                amount,
            ),
    {
        if amount <= 0 {
            return Err(VaultError::AmountNotPositive);
        }
        if from_pool.same(to_pool) {
            return Err(VaultError::PoolsMustDiffer);
        }
        if self.auth.is_none() {
            return Err(VaultError::NotInitialized);
        }
        if !from_whitelisted || !to_whitelisted {
            return Err(VaultError::ProtocolNotWhitelisted);
        }
        if !same_token {
            return Err(VaultError::PoolTokenMismatch);
        }
        let from_deposited = self.pool_deposited.get_or(from_pool, 0);
        if from_deposited < amount {
            return Err(VaultError::InsufficientTrackedPoolDeposits);
        }
        let to_deposited = self.pool_deposited.get_or(to_pool, 0);
        let new_to = match to_deposited.checked_add(amount) {
            Some(d) => d,
            None => {
                return Err(VaultError::ArithmeticOverflow);
            },
        };
        self.pool_deposited.set(from_pool, from_deposited - amount);
        self.pool_deposited.set(to_pool, new_to);
        let mut calls: Vec<VaultCall> = Vec::new();
        calls.push(VaultCall::PoolWithdraw { pool: from_pool.clone(), to: vault.clone(), amount });
        calls.push(VaultCall::Transfer(Transfer::new(token, vault, to_pool, amount)));
        calls.push(VaultCall::PoolDeposit { pool: to_pool.clone(), amount });
        assert(call_views(calls@) =~= rebalance_calls(vault@, from_pool@, to_pool@, token@, amount));
        Ok(calls)
    }

    /// What the vault has placed in `pool`.
    pub fn pool_deposited(&self, pool: &Address) -> (r: i128)
        requires
            self.wf(),
        ensures
            r == self@.deposited(pool@),
    {
        self.pool_deposited.get_or(pool, 0)
    }

    /// The delegation registry.
    pub fn auth(&self) -> (r: Result<Address, VaultError>)
        ensures
            match self@.auth {
                None => r == Err::<Address, VaultError>(VaultError::NotInitialized),
                Some(a) => (r is Ok) && r->Ok_0@ == a,
            },
    {
        match &self.auth {
            None => Err(VaultError::NotInitialized),
            Some(a) => Ok(a.clone()),
        }
    }

    /// The agent supplies `amount` of `token` of the vault at `vault` to
    /// Blend through `adapter`; `whitelisted` is the registry's answer for
    /// the adapter and `liquidity` the vault's balance of the token. Returns
    /// the calls that carry it out.
    pub fn agent_supply_to_blend(
        &mut self,
        vault: &Address,
        adapter: &Address,
        token: &Address,
        amount: i128,
        whitelisted: bool,
        liquidity: i128,
    ) -> (r: Result<Vec<VaultCall>, VaultError>)
        requires
            old(self).wf(),
        ensures
            final(self).wf(),
            final(self)@.amounts_nonnegative(),
            applied(
                r,
                agent_supply_to_blend_spec(old(self)@, adapter@, amount, whitelisted, liquidity),
                old(self)@,
                final(self)@,
            ),
            r matches Ok(calls) ==> call_views(calls@) == supply_to_blend_calls(
                vault@,
                adapter@,
                token@,
                amount,
            ),
    {
        if amount <= 0 {
            return Err(VaultError::AmountNotPositive);
        }
        if self.auth.is_none() {
            return Err(VaultError::NotInitialized);
        }
        if !whitelisted {
            return Err(VaultError::ProtocolNotWhitelisted);
        }
        if liquidity < amount {
            return Err(VaultError::InsufficientVaultLiquidity);
        }
        let supplied = self.blend_supplied.get_or(adapter, 0);
        let new_supplied = match supplied.checked_add(amount) {
            Some(s) => s,
            None => {
                return Err(VaultError::ArithmeticOverflow);
            },
        };
        self.blend_supplied.set(adapter, new_supplied);
        let mut calls: Vec<VaultCall> = Vec::new();
        calls.push(VaultCall::Transfer(Transfer::new(token, vault, adapter, amount)));
        calls.push(VaultCall::BlendSupply { adapter: adapter.clone(), asset: token.clone(), amount });
        assert(call_views(calls@) =~= supply_to_blend_calls(vault@, adapter@, token@, amount));
        Ok(calls)
    }

    /// What the vault has supplied to Blend through `adapter`.
    pub fn blend_supplied(&self, adapter: &Address) -> (r: i128)
        requires
            self.wf(),
        ensures
            r == self@.supplied(adapter@),
    {
        self.blend_supplied.get_or(adapter, 0)
    }

    /// The agent swaps `offer_amount` of `offer_asset` of the vault at
    /// `vault` for `ask_asset` on the Phoenix pool `pool` through `adapter`,
    /// with a payout floor of `min_ask_amount` and a spread ceiling of
    /// `max_spread_bps`; the flags are the registry's answers for the adapter
    /// and the pool and `liquidity` the vault's balance of the offered token.
    /// Returns the calls that carry it out; the vault's records do not
    /// change.
    pub fn agent_swap_phoenix(
        &self,
        vault: &Address,
        adapter: &Address,
        pool: &Address,
        offer_asset: &Address,
        ask_asset: &Address,
        offer_amount: i128,
        min_ask_amount: i128,
        max_spread_bps: u32,
        adapter_whitelisted: bool,
        pool_whitelisted: bool,
        liquidity: i128,
    ) -> (r: Result<Vec<VaultCall>, VaultError>)
        ensures
            match agent_swap_phoenix_spec(
                self@,
                offer_amount,
                min_ask_amount,
                adapter_whitelisted,
                pool_whitelisted,
                liquidity,
            ) {
                Ok(()) => r matches Ok(calls) && call_views(calls@) == swap_phoenix_calls(
                    vault@,
                    adapter@,
                    pool@,
                    offer_asset@,
                    ask_asset@,
                    offer_amount,
                    min_ask_amount,
                    max_spread_bps,
                ),
                Err(e) => r matches Err(e2) && e2 == e,
            },
    {
        if offer_amount <= 0 || min_ask_amount <= 0 {
            return Err(VaultError::AmountNotPositive);
        }
        if self.auth.is_none() {
            return Err(VaultError::NotInitialized);
        }
        if !adapter_whitelisted || !pool_whitelisted {
            return Err(VaultError::ProtocolNotWhitelisted);
        }
        if liquidity < offer_amount {
            return Err(VaultError::InsufficientVaultLiquidity);
        }
        let mut calls: Vec<VaultCall> = Vec::new();
        calls.push(VaultCall::Transfer(Transfer::new(offer_asset, vault, adapter, offer_amount)));
        calls.push(
            VaultCall::PhoenixSwap {
                adapter: adapter.clone(),
                pool: pool.clone(),
                offer_asset: offer_asset.clone(),
                ask_asset: ask_asset.clone(),
                offer_amount,
                min_ask_amount,
                max_spread_bps,
            },
        );
        assert(call_views(calls@) =~= swap_phoenix_calls(
            vault@,
            adapter@,
            pool@,
            offer_asset@,
            ask_asset@,
            offer_amount,
            min_ask_amount,
            max_spread_bps,
        ));
        Ok(calls)
    }
}

} // verus!
