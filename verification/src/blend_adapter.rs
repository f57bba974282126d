//! The Blend adapter: supplies the vault's assets to a Blend pool and
//! withdraws them again, keeping its own record of what it has supplied per
//! asset.

use vstd::prelude::*;

use crate::address::{Address, Transfer, TransferView};
pub use crate::mock_blend_pool::{Positions, Request, REQUEST_SUPPLY, REQUEST_WITHDRAW};
use crate::mock_blend_pool::RequestView;
use crate::table::{stored, Table};

verus! {

/// Why the adapter refused a call.
#[derive(Debug, Clone, Copy, PartialEq, Eq, Structural)]
pub enum BlendAdapterError {
    /// The adapter was initialized before.
    AlreadyInitialized,
    /// The adapter has no vault and pool yet.
    NotInitialized,
    /// The amount was zero or negative.
    AmountNotPositive,
    /// The adapter holds fewer tokens than the amount.
    InsufficientAdapterBalance,
    /// The supplied total would not fit in 128 bits.
    ArithmeticOverflow,
}

impl BlendAdapterError {
    /// The text of the message with which the contract aborts.
    pub open spec fn text(self) -> Seq<char> {
        match self {
            BlendAdapterError::AlreadyInitialized => "already initialized"@,
            BlendAdapterError::NotInitialized => "not initialized"@,
            BlendAdapterError::AmountNotPositive => "amount must be positive"@,
            BlendAdapterError::InsufficientAdapterBalance => "insufficient adapter balance"@,
            BlendAdapterError::ArithmeticOverflow => "arithmetic overflow"@,
        }
    }

    /// The message with which the contract aborts.
    pub fn message(&self) -> (s: &'static str)
        ensures
            s@ == self.text(),
    {
        match self {
            BlendAdapterError::AlreadyInitialized => "already initialized",
            BlendAdapterError::NotInitialized => "not initialized",
            BlendAdapterError::AmountNotPositive => "amount must be positive",
            BlendAdapterError::InsufficientAdapterBalance => "insufficient adapter balance",
            BlendAdapterError::ArithmeticOverflow => "arithmetic overflow",
        }
    }
}

/// The adapter's storage as plain values.
pub struct BlendAdapterView {
    /// The vault it serves and the Blend pool it uses, once set.
    pub config: Option<(Seq<u8>, Seq<u8>)>,
    /// What it has supplied of each asset.
    pub supplied: Map<Seq<u8>, i128>,
}

impl BlendAdapterView {
    /// No supplied total is negative.
    pub open spec fn supplied_nonnegative(self) -> bool {
        forall|k| #[trigger] self.supplied.contains_key(k) ==> self.supplied[k] >= 0
    }
}

/// The single request that moves `amount` of `asset` in direction
/// `request_type`.
pub open spec fn single_request(request_type: u32, asset: Seq<u8>, amount: i128) -> Seq<RequestView> {
    seq![RequestView { request_type, address: asset, amount }]
}

/// A supply of `amount` of `asset`, the adapter holding `balance` of it.
pub open spec fn supply_spec(s: BlendAdapterView, asset: Seq<u8>, amount: i128, balance: i128) -> Result<
    BlendAdapterView,
    BlendAdapterError,
> {
    if s.config is None {
        Err(BlendAdapterError::NotInitialized)
    } else if amount <= 0 {
        Err(BlendAdapterError::AmountNotPositive)
    } else if balance < amount {
        Err(BlendAdapterError::InsufficientAdapterBalance)
    } else if stored(s.supplied, asset) + amount > i128::MAX {
        Err(BlendAdapterError::ArithmeticOverflow)
    } else {
        Ok(
            BlendAdapterView {
                supplied: s.supplied.insert(asset, (stored(s.supplied, asset) + amount) as i128),
                ..s
            },
        )
    }
}

/// A withdrawal of `amount` of `asset`, accrued interest included: the
/// record of what was supplied falls by `amount`, and to zero where the
/// amount exceeds it.
pub open spec fn withdraw_spec(s: BlendAdapterView, asset: Seq<u8>, amount: i128) -> Result<
    BlendAdapterView,
    BlendAdapterError,
> {
    if s.config is None {
        Err(BlendAdapterError::NotInitialized)
    } else if amount <= 0 {
        Err(BlendAdapterError::AmountNotPositive)
    } else {
        let left = stored(s.supplied, asset) - amount;
        Ok(
            BlendAdapterView {
                supplied: s.supplied.insert(asset, if left > 0 { left as i128 } else { 0 }),
                ..s
            },
        )
    }
}

/// The call of the pool's `submit` that supplies `amount` of `asset` from
/// the vault, the adapter at `adapter` paying it in.
pub open spec fn supply_submission(s: BlendAdapterView, adapter: Seq<u8>, asset: Seq<u8>, amount: i128) -> SubmissionView {
    let (vault, pool) = s.config->0;
    SubmissionView {
        pool,
        from: vault,
        spender: adapter,
        to: vault,
        requests: single_request(REQUEST_SUPPLY, asset, amount),
    }
}

/// The call of the pool's `submit` that withdraws `amount` of `asset` of
/// the vault's position to the adapter at `adapter`.
pub open spec fn withdraw_submission(s: BlendAdapterView, adapter: Seq<u8>, asset: Seq<u8>, amount: i128) -> SubmissionView {
    let (vault, pool) = s.config->0;
    SubmissionView {
        pool,
        from: vault,
        spender: vault,
        to: adapter,
        requests: single_request(REQUEST_WITHDRAW, asset, amount),
    }
}

/// The transfer that hands what a withdrawal brought to the adapter on to
/// the vault.
pub open spec fn withdraw_transfer(s: BlendAdapterView, adapter: Seq<u8>, asset: Seq<u8>, amount: i128) -> TransferView {
    let (vault, _pool) = s.config->0;
    TransferView { token: asset, from: adapter, to: vault, amount }
}

/// Withdrawing what was just supplied is accepted and leaves every tracked
/// total as it was before the supply.
pub proof fn law_withdraw_undoes_supply(s: BlendAdapterView, asset: Seq<u8>, amount: i128, balance: i128)
    requires
        s.supplied_nonnegative(),
        supply_spec(s, asset, amount, balance) is Ok,
    ensures
        withdraw_spec(supply_spec(s, asset, amount, balance)->Ok_0, asset, amount) is Ok,
        ({
            let after = withdraw_spec(supply_spec(s, asset, amount, balance)->Ok_0, asset, amount)->Ok_0;
            &&& after.config == s.config
            &&& forall|a: Seq<u8>| #[trigger] stored(after.supplied, a) == stored(s.supplied, a)
        }),
{
    if s.supplied.contains_key(asset) {
        assert(s.supplied[asset] >= 0);
    }
}

/// A supply and then a withdrawal of the same amount submit opposite moves
/// of the vault's position to the same pool: the same asset and amount,
/// first in and then out, the adapter paying in and then receiving, and the
/// withdrawal's transfer hands the amount back to the vault.
pub proof fn law_withdraw_submission_reverses_supply(
    s: BlendAdapterView,
    adapter: Seq<u8>,
    asset: Seq<u8>,
    amount: i128,
    balance: i128,
)
    requires
        s.supplied_nonnegative(),
        supply_spec(s, asset, amount, balance) is Ok,
    ensures
        ({
            let mid = supply_spec(s, asset, amount, balance)->Ok_0;
            let sup = supply_submission(s, adapter, asset, amount);
            let wd = withdraw_submission(mid, adapter, asset, amount);
            let back = withdraw_transfer(mid, adapter, asset, amount);
            &&& withdraw_spec(mid, asset, amount) is Ok
            &&& sup.pool == wd.pool && sup.from == wd.from && s.config == Some((sup.from, sup.pool))
            &&& sup.spender == adapter && wd.to == adapter
            &&& sup.requests == single_request(REQUEST_SUPPLY, asset, amount)
            &&& wd.requests == single_request(REQUEST_WITHDRAW, asset, amount)
            &&& back.token == asset && back.from == adapter && back.to == sup.from && back.amount == amount
        }),
{
}

/// A withdrawal is never refused for exceeding what was supplied: any
/// positive amount is accepted once the adapter is set up, interest
/// included, and the record never falls below zero.
pub proof fn law_withdraw_includes_interest(s: BlendAdapterView, asset: Seq<u8>, amount: i128)
    requires
        s.config is Some,
        amount > 0,
        s.supplied_nonnegative(),
    ensures
        withdraw_spec(s, asset, amount) is Ok,
        stored(withdraw_spec(s, asset, amount)->Ok_0.supplied, asset) >= 0,
        amount >= stored(s.supplied, asset) ==> stored(withdraw_spec(s, asset, amount)->Ok_0.supplied, asset) == 0,
{
}

/// A call of a Blend pool's `submit`: the position of `from` moves by
/// `requests`; `spender` pays in what is supplied and `to` receives what is
/// withdrawn.
pub struct Submission {
    pub pool: Address,
    pub from: Address,
    pub spender: Address,
    pub to: Address,
    pub requests: Vec<Request>,
}

/// A submission as plain values.
pub struct SubmissionView {
    pub pool: Seq<u8>,
    pub from: Seq<u8>,
    pub spender: Seq<u8>,
    pub to: Seq<u8>,
    pub requests: Seq<RequestView>,
}

impl View for Submission {
    type V = SubmissionView;

    open spec fn view(&self) -> SubmissionView {
        SubmissionView {
            pool: self.pool@,
            from: self.from@,
            spender: self.spender@,
            to: self.to@,
            requests: self.requests@.map_values(|q: Request| q@),
        }
    }
}

/// The Blend adapter.
pub struct BlendAdapter {
    config: Option<(Address, Address)>,
    supplied: Table<Address, i128>,
}

impl View for BlendAdapter {
    type V = BlendAdapterView;

    closed spec fn view(&self) -> BlendAdapterView {
        BlendAdapterView {
            config: match self.config {
                Some((vault, pool)) => Some((vault@, pool@)),
                None => None,
            },
            supplied: self.supplied@,
        }
    }
}

impl BlendAdapter {
    /// The table is well formed and no supplied total is negative.
    pub closed spec fn wf(&self) -> bool {
        &&& self.supplied.wf()
        &&& self@.supplied_nonnegative()
    }

    /// An adapter with no vault, no pool and nothing supplied.
    pub fn new() -> (a: Self)
        ensures
            a.wf(),
            a@.supplied_nonnegative(),
            (a@.config is None),
            a@.supplied == Map::<Seq<u8>, i128>::empty(),
    {
        BlendAdapter { config: None, supplied: Table::new() }
    }

    /// Load the stored vault and pool into the state.
    pub fn load_config(&mut self, vault: Address, pool: Address)
        requires
            old(self).wf(),
        ensures
            final(self).wf(),
            final(self)@.supplied_nonnegative(),
            final(self)@ == (BlendAdapterView { config: Some((vault@, pool@)), ..old(self)@ }),
    {
        self.config = Some((vault, pool));
    }

    /// Load a stored supplied total into the state.
    pub fn load_supplied(&mut self, asset: &Address, amount: i128)
        requires
            old(self).wf(),
            amount >= 0,
        ensures
            final(self).wf(),
            final(self)@.supplied_nonnegative(),
            final(self)@ == (BlendAdapterView {
                supplied: old(self)@.supplied.insert(asset@, amount),
                ..old(self)@
            }),
    {
        self.supplied.set(asset, amount);
    }

    /// Set the vault served and the Blend pool used, once.
    pub fn initialize(&mut self, vault: Address, pool: Address) -> (r: Result<(), BlendAdapterError>)
        requires
            old(self).wf(),
        ensures
            final(self).wf(),
            final(self)@.supplied_nonnegative(),
            (old(self)@.config is Some) ==> r == Err::<(), BlendAdapterError>(
                BlendAdapterError::AlreadyInitialized,
            ) && final(self)@ == old(self)@,
            (old(self)@.config is None) ==> (r is Ok) && final(self)@ == (BlendAdapterView {
                config: Some((vault@, pool@)),
                ..old(self)@
            }),
    {
        if self.config.is_some() {
            return Err(BlendAdapterError::AlreadyInitialized);
        }
        self.config = Some((vault, pool));
        Ok(())
    }

    /// Supply `amount` of `asset` on behalf of the vault, the adapter (at
    /// `adapter`) holding `balance` of it, and return the submission to make
    /// to the pool: the vault's position grows by `amount`, the adapter pays
    /// it in.
    pub fn supply(&mut self, adapter: &Address, asset: &Address, amount: i128, balance: i128) -> (r: Result<
        Submission,
        BlendAdapterError,
    >)
        requires
            old(self).wf(),
        ensures
            final(self).wf(),
            final(self)@.supplied_nonnegative(),
            match supply_spec(old(self)@, asset@, amount, balance) {
                Ok(s) => (r is Ok) && final(self)@ == s && r->Ok_0@ == supply_submission(
                    old(self)@,
                    adapter@,
                    asset@,
                    amount,
                ),
                Err(e) => r is Err && r->Err_0 == e && final(self)@ == old(self)@,
            },
    {
        let (vault, pool) = match &self.config {
            None => {
                return Err(BlendAdapterError::NotInitialized);
            },
            Some((vault, pool)) => (vault.clone(), pool.clone()),
        };
        if amount <= 0 {
            return Err(BlendAdapterError::AmountNotPositive);
        }
        if balance < amount {
            return Err(BlendAdapterError::InsufficientAdapterBalance);
        }
        let supplied = self.supplied.get_or(asset, 0);
        let new_supplied = match supplied.checked_add(amount) {
            Some(s) => s,
            None => {
                return Err(BlendAdapterError::ArithmeticOverflow);
            },
        };
        self.supplied.set(asset, new_supplied);
        let mut requests: Vec<Request> = Vec::new();
        requests.push(Request { request_type: REQUEST_SUPPLY, address: asset.clone(), amount });
        let submission = Submission {
            pool,
            from: vault.clone(),
            spender: adapter.clone(),
            to: vault,
            requests,
        };
        assert(submission@.requests =~= single_request(REQUEST_SUPPLY, asset@, amount));
        Ok(submission)
    }

    /// Withdraw `amount` of `asset`, accrued interest included, for the
    /// vault, and return the submission to make to the pool (the vault's
    /// position falls by `amount`, the adapter at `adapter` receives it) and
    /// the transfer that then hands it on to the vault.
    pub fn withdraw(&mut self, adapter: &Address, asset: &Address, amount: i128) -> (r: Result<
        (Submission, Transfer),
        BlendAdapterError,
    >)
        requires
            old(self).wf(),
        ensures
            final(self).wf(),
            final(self)@.supplied_nonnegative(),
            match withdraw_spec(old(self)@, asset@, amount) {
                Ok(s) => r matches Ok((submission, transfer)) && final(self)@ == s && submission@
                    == withdraw_submission(old(self)@, adapter@, asset@, amount) && transfer@
                    == withdraw_transfer(old(self)@, adapter@, asset@, amount),
                Err(e) => r is Err && r->Err_0 == e && final(self)@ == old(self)@,
            },
    {
        let (vault, pool) = match &self.config {
            None => {
                return Err(BlendAdapterError::NotInitialized);
            },
            Some((vault, pool)) => (vault.clone(), pool.clone()),
        };
        if amount <= 0 {
            return Err(BlendAdapterError::AmountNotPositive);
        }
        let supplied = self.supplied.get_or(asset, 0);
        proof {
            if self@.supplied.contains_key(asset@) {
                assert(self@.supplied[asset@] >= 0);
            }
        }
        let left = if supplied > amount {
            supplied - amount
        } else {
            0
        };
        self.supplied.set(asset, left);
        let mut requests: Vec<Request> = Vec::new();
        requests.push(Request { request_type: REQUEST_WITHDRAW, address: asset.clone(), amount });
        let transfer = Transfer::new(asset, adapter, &vault, amount);
        let submission = Submission {
            pool,
            from: vault.clone(),
            spender: vault,
            to: adapter.clone(),
            requests,
        };
        assert(submission@.requests =~= single_request(REQUEST_WITHDRAW, asset@, amount));
        Ok((submission, transfer))
    }

    /// What the adapter has supplied of `asset`.
    pub fn supplied(&self, asset: &Address) -> (r: i128)
        requires
            self.wf(),
        ensures
            r == stored(self@.supplied, asset@),
            r >= 0,
    {
        proof {
            if self@.supplied.contains_key(asset@) {
                assert(self@.supplied[asset@] >= 0);
            }
        }
        self.supplied.get_or(asset, 0)
    }

    /// A well-formed adapter has no negative supplied total.
    pub proof fn lemma_supplied_nonnegative(&self)
        requires
            self.wf(),
        ensures
            self@.supplied_nonnegative(),
    {
    }

    /// The vault served.
    pub fn vault(&self) -> (r: Result<Address, BlendAdapterError>)
        ensures
            match self@.config {
                None => r == Err::<Address, BlendAdapterError>(BlendAdapterError::NotInitialized),
                Some((vault, _)) => (r is Ok) && r->Ok_0@ == vault,
            },
    {
        match &self.config {
            None => Err(BlendAdapterError::NotInitialized),
            Some((vault, _)) => Ok(vault.clone()),
        }
    }

    /// The Blend pool used.
    pub fn pool(&self) -> (r: Result<Address, BlendAdapterError>)
        ensures
            match self@.config {
                None => r == Err::<Address, BlendAdapterError>(BlendAdapterError::NotInitialized),
                Some((_, pool)) => (r is Ok) && r->Ok_0@ == pool,
            },
    {
        match &self.config {
            None => Err(BlendAdapterError::NotInitialized),
            Some((_, pool)) => Ok(pool.clone()),
        }
    }
}

} // verus!
