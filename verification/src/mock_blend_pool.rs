//! A Blend-compatible lending pool. Suppliers submit batches of requests
//! (supply or withdraw an asset); supplied amounts earn simple interest of
//! 0.1% per full 100 ledgers. Each request first credits the interest earned
//! so far into the principal, so interest runs from the position's last
//! supply or withdrawal and is never counted twice.

use vstd::prelude::*;

use crate::address::{Address, Holding, Transfer, TransferView};
use crate::arith::{clamp_i128, div_positive, div_toward_zero, saturating_add, saturating_mul};
use crate::table::{stored, Table};

verus! {

/// The request type that supplies an asset to the pool.
pub const REQUEST_SUPPLY: u32 = 0;

/// The request type that withdraws a supplied asset.
pub const REQUEST_WITHDRAW: u32 = 1;

/// Interest, in basis points of the principal, per 100 ledgers elapsed.
pub const INTEREST_BPS_PER_100_LEDGERS: i128 = 10;

/// Why the pool refused a submission.
#[derive(Debug, Clone, Copy, PartialEq, Eq, Structural)]
pub enum BlendPoolError {
    /// A request's amount was zero or negative.
    AmountNotPositive,
    /// A withdrawal exceeds the supplier's balance with interest.
    InsufficientSupplyBalance,
    /// A request's type is neither supply nor withdraw.
    UnsupportedRequestType,
    /// The submission held no request.
    EmptyRequests,
    /// A balance or an index would not fit in its integer type.
    ArithmeticOverflow,
}

impl BlendPoolError {
    /// The text of the message with which the contract aborts.
    pub open spec fn text(self) -> Seq<char> {
        match self {
            BlendPoolError::AmountNotPositive => "amount must be positive"@,
            BlendPoolError::InsufficientSupplyBalance => "insufficient supply balance"@,
            BlendPoolError::UnsupportedRequestType => "unsupported request type"@,
            BlendPoolError::EmptyRequests => "called `Option::unwrap()` on a `None` value"@,
            BlendPoolError::ArithmeticOverflow => "arithmetic overflow"@,
        }
    }

    /// The message with which the contract aborts.
    pub fn message(&self) -> (s: &'static str)
        ensures
            s@ == self.text(),
    {
        match self {
            BlendPoolError::AmountNotPositive => "amount must be positive",
            BlendPoolError::InsufficientSupplyBalance => "insufficient supply balance",
            BlendPoolError::UnsupportedRequestType => "unsupported request type",
            BlendPoolError::EmptyRequests => "called `Option::unwrap()` on a `None` value",
            BlendPoolError::ArithmeticOverflow => "arithmetic overflow",
        }
    }
}

/// A Blend request: supply or withdraw `amount` of the asset at `address`.
pub struct Request {
    pub request_type: u32,
    pub address: Address,
    pub amount: i128,
}

/// A request as plain values.
pub struct RequestView {
    pub request_type: u32,
    pub address: Seq<u8>,
    pub amount: i128,
}

impl View for Request {
    type V = RequestView;

    open spec fn view(&self) -> RequestView {
        RequestView { request_type: self.request_type, address: self.address@, amount: self.amount }
    }
}

impl Clone for Request {
    fn clone(&self) -> (r: Self)
        ensures
            r@ == self@,
    {
        Request { request_type: self.request_type, address: self.address.clone(), amount: self.amount }
    }
}

/// The supplier's position after a submission: the asset's index and the
/// supplier's balance of it, interest included.
pub struct Positions {
    pub supply: Vec<(u32, i128)>,
}

/// The pool's storage as plain values.
pub struct BlendPoolView {
    /// Each (supplier, asset) principal.
    pub supply: Map<(Seq<u8>, Seq<u8>), i128>,
    /// The ledger from which each position's interest runs.
    pub supply_ledger: Map<(Seq<u8>, Seq<u8>), u32>,
    /// The index given to each asset.
    pub asset_index: Map<Seq<u8>, u32>,
    /// The next index to give.
    pub next_index: u32,
}

/// The balance of position `key` at ledger `sequence`: the principal plus
/// `principal * 10 * periods / 10000` (each product saturated to 128 bits,
/// the quotient rounded toward zero), where `periods` counts the full 100s
/// of ledgers since the position's start; zero where the principal is zero.
pub open spec fn accrued_spec(s: BlendPoolView, key: (Seq<u8>, Seq<u8>), sequence: u32) -> i128 {
    let principal = stored(s.supply, key);
    if principal == 0 {
        0
    } else {
        let start: u32 = if s.supply_ledger.contains_key(key) {
            s.supply_ledger[key]
        } else {
            sequence
        };
        let elapsed: int = if sequence >= start {
            sequence - start
        } else {
            0
        };
        let periods: int = elapsed / 100;
        let interest = div_toward_zero(
            clamp_i128(clamp_i128(principal * INTEREST_BPS_PER_100_LEDGERS) * periods),
            10000,
        );
        clamp_i128(principal + interest) as i128
    }
}

/// The state after one request by `from` at ledger `sequence`.
pub open spec fn apply_request_spec(s: BlendPoolView, from: Seq<u8>, req: RequestView, sequence: u32) -> Result<
    BlendPoolView,
    BlendPoolError,
> {
    let key = (from, req.address);
    if req.request_type == REQUEST_SUPPLY {
        if req.amount <= 0 {
            Err(BlendPoolError::AmountNotPositive)
        } else if accrued_spec(s, key, sequence) + req.amount > i128::MAX {
            Err(BlendPoolError::ArithmeticOverflow)
        } else {
            Ok(
                BlendPoolView {
                    supply: s.supply.insert(key, (accrued_spec(s, key, sequence) + req.amount) as i128),
                    supply_ledger: s.supply_ledger.insert(key, sequence),
                    ..s
                },
            )
        }
    } else if req.request_type == REQUEST_WITHDRAW {
        if req.amount <= 0 {
            Err(BlendPoolError::AmountNotPositive)
        } else if accrued_spec(s, key, sequence) < req.amount {
            Err(BlendPoolError::InsufficientSupplyBalance)
        } else {
            Ok(
                BlendPoolView {
                    supply: s.supply.insert(key, (accrued_spec(s, key, sequence) - req.amount) as i128),
                    supply_ledger: s.supply_ledger.insert(key, sequence),
                    ..s
                },
            )
        }
    } else {
        Err(BlendPoolError::UnsupportedRequestType)
    }
}

/// The state after the requests `reqs`, in order, or the first refusal.
pub open spec fn apply_requests_spec(
    s: BlendPoolView,
    from: Seq<u8>,
    reqs: Seq<RequestView>,
    sequence: u32,
) -> Result<BlendPoolView, BlendPoolError>
    decreases reqs.len(),
{
    if reqs.len() == 0 {
        Ok(s)
    } else {
        match apply_requests_spec(s, from, reqs.drop_last(), sequence) {
            Err(e) => Err(e),
            Ok(s1) => apply_request_spec(s1, from, reqs.last(), sequence),
        }
    }
}

/// The index of `asset`, giving it the next free one if it has none.
pub open spec fn asset_index_spec(s: BlendPoolView, asset: Seq<u8>) -> Result<(BlendPoolView, u32), BlendPoolError> {
    if s.asset_index.contains_key(asset) {
        Ok((s, s.asset_index[asset]))
    } else if s.next_index == u32::MAX {
        Err(BlendPoolError::ArithmeticOverflow)
    } else {
        Ok(
            (
                BlendPoolView {
                    asset_index: s.asset_index.insert(asset, s.next_index),
                    next_index: (s.next_index + 1) as u32,
                    ..s
                },
                s.next_index,
            ),
        )
    }
}

/// A submission by `from` at ledger `sequence`: the new state, and the index
/// of the first request's asset with `from`'s balance of it.
pub open spec fn submit_spec(s: BlendPoolView, from: Seq<u8>, reqs: Seq<RequestView>, sequence: u32) -> Result<
    (BlendPoolView, u32, i128),
    BlendPoolError,
> {
    match apply_requests_spec(s, from, reqs, sequence) {
        Err(e) => Err(e),
        Ok(s1) => if reqs.len() == 0 {
            Err(BlendPoolError::EmptyRequests)
        } else {
            match asset_index_spec(s1, reqs[0].address) {
                Err(e) => Err(e),
                Ok((s2, index)) => Ok((s2, index, accrued_spec(s2, (from, reqs[0].address), sequence))),
            }
        },
    }
}

/// The transfer that carries out one request of a submission to the pool
/// at `pool`: a supplied amount moves from `spender` to the pool, a
/// withdrawn amount from the pool to `to`.
pub open spec fn request_transfer(pool: Seq<u8>, spender: Seq<u8>, to: Seq<u8>, req: RequestView) -> TransferView {
    if req.request_type == REQUEST_SUPPLY {
        TransferView { token: req.address, from: spender, to: pool, amount: req.amount }
    } else {
        TransferView { token: req.address, from: pool, to, amount: req.amount }
    }
}

/// The transfers that carry out the requests `reqs`, one per request and
/// in their order.
pub open spec fn submit_transfers(pool: Seq<u8>, spender: Seq<u8>, to: Seq<u8>, reqs: Seq<RequestView>) -> Seq<
    TransferView,
> {
    reqs.map_values(|q: RequestView| request_transfer(pool, spender, to, q))
}

/// Who must authorize a submission for `from` by `spender`: the spender,
/// and the owner of the position too where it is someone else.
pub open spec fn submit_authorizers_spec(from: Seq<u8>, spender: Seq<u8>) -> Seq<Seq<u8>> {
    if from == spender {
        seq![spender]
    } else {
        seq![spender, from]
    }
}

/// Every principal is non-negative, and the asset indexes are distinct and
/// below the next index to give.
pub open spec fn blend_pool_inv(s: BlendPoolView) -> bool {
    &&& forall|k| #[trigger] s.supply.contains_key(k) ==> s.supply[k] >= 0
    &&& forall|a| #[trigger] s.asset_index.contains_key(a) ==> s.asset_index[a] < s.next_index
    &&& forall|a, b|
        #[trigger] s.asset_index.contains_key(a) && #[trigger] s.asset_index.contains_key(b) && a != b
            ==> s.asset_index[a] != s.asset_index[b]
}

/// Interest is never negative: a position with a non-negative principal is
/// worth at least its principal.
pub proof fn law_interest_never_negative(s: BlendPoolView, key: (Seq<u8>, Seq<u8>), sequence: u32)
    requires
        stored(s.supply, key) >= 0,
    ensures
        accrued_spec(s, key, sequence) >= stored(s.supply, key),
{
    let principal = stored(s.supply, key);
    if principal != 0 {
        let start: u32 = if s.supply_ledger.contains_key(key) {
            s.supply_ledger[key]
        } else {
            sequence
        };
        let elapsed: int = if sequence >= start {
            sequence - start
        } else {
            0
        };
        let periods: int = elapsed / 100;
        let m = clamp_i128(principal * INTEREST_BPS_PER_100_LEDGERS);
        assert(m >= 0);
        assert(m * periods >= 0) by (nonlinear_arith)
            requires
                m >= 0,
                periods >= 0,
        ;
    }
}

/// No interest accrues before the first full 100 ledgers of a position.
pub proof fn law_no_interest_before_first_period(
    s: BlendPoolView,
    key: (Seq<u8>, Seq<u8>),
    sequence: u32,
)
    requires
        s.supply_ledger.contains_key(key) ==> sequence < s.supply_ledger[key] + 100,
    ensures
        accrued_spec(s, key, sequence) == stored(s.supply, key),
{
}

/// A position with a non-negative principal is worth no less at a later
/// ledger than at an earlier one.
pub proof fn law_interest_grows_with_time(
    s: BlendPoolView,
    key: (Seq<u8>, Seq<u8>),
    earlier: u32,
    later: u32,
)
    requires
        stored(s.supply, key) >= 0,
        earlier <= later,
    ensures
        accrued_spec(s, key, earlier) <= accrued_spec(s, key, later),
{
    let principal = stored(s.supply, key);
    if principal != 0 && s.supply_ledger.contains_key(key) {
        let start = s.supply_ledger[key];
        let e1: int = if earlier >= start {
            earlier - start
        } else {
            0
        };
        let e2: int = if later >= start {
            later - start
        } else {
            0
        };
        assert(0 <= e1 <= e2);
        let p1 = e1 / 100;
        let p2 = e2 / 100;
        assert(0 <= p1 <= p2) by (nonlinear_arith)
            requires
                0 <= e1 <= e2,
                p1 == e1 / 100,
                p2 == e2 / 100,
        ;
        let m = clamp_i128(principal * INTEREST_BPS_PER_100_LEDGERS);
        assert(m >= 0);
        assert(0 <= m * p1 <= m * p2) by (nonlinear_arith)
            requires
                m >= 0,
                0 <= p1 <= p2,
        ;
        let c1 = clamp_i128(m * p1);
        let c2 = clamp_i128(m * p2);
        assert(0 <= c1 <= c2);
        assert(0 <= c1 / 10000 <= c2 / 10000) by (nonlinear_arith)
            requires
                0 <= c1 <= c2,
        ;
    }
}

/// A supply request adds its amount to the position's current worth, and a
/// withdrawal is accepted only up to that worth and leaves the rest.
pub proof fn law_requests_move_exact_amounts(
    s: BlendPoolView,
    from: Seq<u8>,
    req: RequestView,
    sequence: u32,
)
    requires
        apply_request_spec(s, from, req, sequence) is Ok,
    ensures
        ({
            let key = (from, req.address);
            let after = apply_request_spec(s, from, req, sequence)->Ok_0;
            &&& req.amount > 0
            &&& req.request_type == REQUEST_SUPPLY ==> stored(after.supply, key) == accrued_spec(
                s,
                key,
                sequence,
            ) + req.amount
            &&& req.request_type == REQUEST_WITHDRAW ==> req.amount <= accrued_spec(s, key, sequence)
                && stored(after.supply, key) == accrued_spec(s, key, sequence) - req.amount
            &&& forall|k| k != key ==> #[trigger] stored(after.supply, k) == stored(s.supply, k)
            &&& after.asset_index == s.asset_index
        }),
{
}

/// A request credits the interest earned so far exactly once: right after
/// it, at the same ledger, the position is worth what it was worth before
/// plus a supplied amount (or minus a withdrawn one), and interest on the new
/// principal starts from that ledger.
pub proof fn law_interest_counted_once(s: BlendPoolView, from: Seq<u8>, req: RequestView, sequence: u32)
    requires
        apply_request_spec(s, from, req, sequence) is Ok,
    ensures
        ({
            let key = (from, req.address);
            let after = apply_request_spec(s, from, req, sequence)->Ok_0;
            &&& after.supply_ledger.contains_key(key) && after.supply_ledger[key] == sequence
            &&& req.request_type == REQUEST_SUPPLY ==> accrued_spec(after, key, sequence)
                == accrued_spec(s, key, sequence) + req.amount
            &&& req.request_type == REQUEST_WITHDRAW ==> accrued_spec(after, key, sequence)
                == accrued_spec(s, key, sequence) - req.amount
        }),
{
    let key = (from, req.address);
    let after = apply_request_spec(s, from, req, sequence)->Ok_0;
    let principal = stored(after.supply, key);
    let m = clamp_i128(principal * INTEREST_BPS_PER_100_LEDGERS);
    assert(m * 0 == 0);
    assert(div_toward_zero(0, 10000) == 0);
    assert(accrued_spec(after, key, sequence) == principal);
}

/// An asset keeps the index it was given, and indexes stay distinct: asking
/// again gives the same index without a change, other assets keep theirs,
/// and the pool's invariant is kept.
pub proof fn law_asset_index_stable(s: BlendPoolView, asset: Seq<u8>)
    requires
        blend_pool_inv(s),
        asset_index_spec(s, asset) is Ok,
    ensures
        ({
            let (s2, index) = asset_index_spec(s, asset)->Ok_0;
            &&& asset_index_spec(s2, asset) == Ok::<(BlendPoolView, u32), BlendPoolError>(
                (s2, index),
            )
            &&& forall|other: Seq<u8>|
                #[trigger] s.asset_index.contains_key(other) ==> s2.asset_index.contains_key(other)
                    && s2.asset_index[other] == s.asset_index[other]
            &&& blend_pool_inv(s2)
        }),
{
}

/// The lending pool.
pub struct MockBlendPool {
    supply: Table<Holding, i128>,
    supply_ledger: Table<Holding, u32>,
    asset_index: Table<Address, u32>,
    next_index: u32,
}

impl View for MockBlendPool {
    type V = BlendPoolView;

    closed spec fn view(&self) -> BlendPoolView {
        BlendPoolView {
            supply: self.supply@,
            supply_ledger: self.supply_ledger@,
            asset_index: self.asset_index@,
            next_index: self.next_index,
        }
    }
}

impl MockBlendPool {
    /// The tables are well formed and the pool's invariant holds.
    pub closed spec fn wf(&self) -> bool {
        &&& self.supply.wf()
        &&& self.supply_ledger.wf()
        &&& self.asset_index.wf()
        &&& blend_pool_inv(self@)
    }

    /// A pool with no positions and no asset indexes.
    pub fn new() -> (p: Self)
        ensures
            p.wf(),
            p@.supply == Map::<(Seq<u8>, Seq<u8>), i128>::empty(),
            p@.supply_ledger == Map::<(Seq<u8>, Seq<u8>), u32>::empty(),
            p@.asset_index == Map::<Seq<u8>, u32>::empty(),
            p@.next_index == 0,
    {
        MockBlendPool {
            supply: Table::new(),
            supply_ledger: Table::new(),
            asset_index: Table::new(),
            next_index: 0,
        }
    }

    /// The stored principal of `user`'s position in `asset`, without interest.
    pub fn principal(&self, user: &Address, asset: &Address) -> (r: i128)
        requires
            self.wf(),
        ensures
            r == stored(self@.supply, (user@, asset@)),
    {
        self.supply.get_or(&Holding::new(user, asset), 0)
    }

    /// The ledger from which the interest of `user`'s position in `asset`
    /// runs, if one is stored.
    pub fn interest_start(&self, user: &Address, asset: &Address) -> (r: Option<u32>)
        requires
            self.wf(),
        ensures
            r == (if self@.supply_ledger.contains_key((user@, asset@)) {
                Some(self@.supply_ledger[(user@, asset@)])
            } else {
                None
            }),
    {
        self.supply_ledger.get(&Holding::new(user, asset))
    }

    /// The index given to `asset`, if any.
    pub fn index_of(&self, asset: &Address) -> (r: Option<u32>)
        requires
            self.wf(),
        ensures
            r == (if self@.asset_index.contains_key(asset@) {
                Some(self@.asset_index[asset@])
            } else {
                None
            }),
    {
        self.asset_index.get(asset)
    }

    /// The next index to give.
    pub fn next_index(&self) -> (r: u32)
        ensures
            r == self@.next_index,
    {
        self.next_index
    }

    /// Load a stored position: its principal and, if stored, the ledger its
    /// interest runs from.
    pub fn load_position(&mut self, user: &Address, asset: &Address, principal: i128, start: Option<u32>)
        requires
            old(self).wf(),
            principal >= 0,
        ensures
            final(self).wf(),
            final(self)@.supply == old(self)@.supply.insert((user@, asset@), principal),
            final(self)@.supply_ledger == match start {
                Some(l) => old(self)@.supply_ledger.insert((user@, asset@), l),
                None => old(self)@.supply_ledger,
            },
            final(self)@.asset_index == old(self)@.asset_index,
            final(self)@.next_index == old(self)@.next_index,
    {
        let key = Holding::new(user, asset);
        let ghost before = self@;
        assert(blend_pool_inv(before));
        self.supply.set(&key, principal);
        if let Some(l) = start {
            self.supply_ledger.set(&key, l);
        }
        assert(self@.asset_index == before.asset_index);
        assert(self@.next_index == before.next_index);
        assert(self@.supply == before.supply.insert(key@, principal));
        assert forall|k| #[trigger] self@.supply.contains_key(k) implies self@.supply[k] >= 0 by {
            if k != key@ {
                assert(before.supply.contains_key(k));
            }
        }
    }

    /// Load the stored next index to give.
    pub fn load_next_index(&mut self, next_index: u32)
        requires
            old(self).wf(),
            forall|a| #[trigger] old(self)@.asset_index.contains_key(a) ==> old(self)@.asset_index[a]
                < next_index,
        ensures
            final(self).wf(),
            final(self)@ == (BlendPoolView { next_index, ..old(self)@ }),
    {
        self.next_index = next_index;
    }

    /// Load a stored asset index.
    pub fn load_asset_index(&mut self, asset: &Address, index: u32)
        requires
            old(self).wf(),
            index < old(self)@.next_index,
            forall|a| #[trigger] old(self)@.asset_index.contains_key(a) ==> old(self)@.asset_index[a]
                != index,
        ensures
            final(self).wf(),
            final(self)@ == (BlendPoolView {
                asset_index: old(self)@.asset_index.insert(asset@, index),
                ..old(self)@
            }),
    {
        self.asset_index.set(asset, index);
    }

    fn duplicate(&self) -> (p: Self)
        requires
            self.wf(),
        ensures
            p.wf(),
            p@ == self@,
    {
        MockBlendPool {
            supply: self.supply.duplicate(),
            supply_ledger: self.supply_ledger.duplicate(),
            asset_index: self.asset_index.duplicate(),
            next_index: self.next_index,
        }
    }

    /// The balance of position `key` at ledger `sequence`, interest included.
    fn accrued_supply(&self, key: &Holding, sequence: u32) -> (r: i128)
        requires
            self.wf(),
        ensures
            r == accrued_spec(self@, key@, sequence),
    {
        let principal = self.supply.get_or(key, 0);
        if principal == 0 {
            return 0;
        }
        let start = self.supply_ledger.get_or(key, sequence);
        let elapsed = sequence.saturating_sub(start);
        let periods = (elapsed / 100) as i128;
        let interest = div_positive(
            saturating_mul(saturating_mul(principal, INTEREST_BPS_PER_100_LEDGERS), periods),
            10_000,
        );
        saturating_add(principal, interest)
    }

    /// `user`'s balance of `asset` at ledger `sequence`, interest included.
    pub fn supply_balance(&self, user: &Address, asset: &Address, sequence: u32) -> (r: i128)
        requires
            self.wf(),
        ensures
            r == accrued_spec(self@, (user@, asset@), sequence),
    {
        self.accrued_supply(&Holding::new(user, asset), sequence)
    }

    /// Carry out one request by `from` at ledger `sequence`.
    fn apply_request(&mut self, from: &Address, req: &Request, sequence: u32) -> (r: Result<
        (),
        BlendPoolError,
    >)
        requires
            old(self).wf(),
        ensures
            final(self).wf(),
            match apply_request_spec(old(self)@, from@, req@, sequence) {
                Ok(s) => (r is Ok) && final(self)@ == s,
                Err(e) => r == Err::<(), BlendPoolError>(e),
            },
    {
        let key = Holding::new(from, &req.address);
        let amount = req.amount;
        proof {
            law_interest_never_negative(self@, key@, sequence);
        }
        if req.request_type == REQUEST_SUPPLY {
            if amount <= 0 {
                return Err(BlendPoolError::AmountNotPositive);
            }
            let accrued = self.accrued_supply(&key, sequence);
            let new_supply = match accrued.checked_add(amount) {
                Some(v) => v,
                None => {
                    return Err(BlendPoolError::ArithmeticOverflow);
                },
            };
            self.supply.set(&key, new_supply);
            self.supply_ledger.set(&key, sequence);
            Ok(())
        } else if req.request_type == REQUEST_WITHDRAW {
            if amount <= 0 {
                return Err(BlendPoolError::AmountNotPositive);
            }
            let available = self.accrued_supply(&key, sequence);
            if available < amount {
                return Err(BlendPoolError::InsufficientSupplyBalance);
            }
            self.supply.set(&key, available - amount);
            self.supply_ledger.set(&key, sequence);
            Ok(())
        } else {
            Err(BlendPoolError::UnsupportedRequestType)
        }
    }

    /// The index of `asset`, giving it the next free one if it has none.
    fn asset_index(&mut self, asset: &Address) -> (r: Result<u32, BlendPoolError>)
        requires
            old(self).wf(),
        ensures
            final(self).wf(),
            match asset_index_spec(old(self)@, asset@) {
                Ok((s, index)) => r == Ok::<u32, BlendPoolError>(index) && final(self)@ == s,
                Err(e) => r == Err::<u32, BlendPoolError>(e),
            },
    {
        if let Some(index) = self.asset_index.get(asset) {
            return Ok(index);
        }
        let next = self.next_index;
        if next == u32::MAX {
            return Err(BlendPoolError::ArithmeticOverflow);
        }
        self.asset_index.set(asset, next);
        self.next_index = next + 1;
        Ok(next)
    }

    /// Carry out the requests of `from` on the pool at `pool` at ledger
    /// `sequence`, in order, `spender` paying in what is supplied and `to`
    /// receiving what is withdrawn. Returns `from`'s position in the first
    /// request's asset and the transfers that carry the requests out, one per
    /// request in order. On a refusal nothing changes.
    pub fn submit(
        &mut self,
        pool: &Address,
        from: &Address,
        spender: &Address,
        to: &Address,
        requests: &Vec<Request>,
        sequence: u32,
    ) -> (r: Result<(Positions, Vec<Transfer>), BlendPoolError>)
        requires
            old(self).wf(),
        ensures
            final(self).wf(),
            blend_pool_inv(final(self)@),
            match submit_spec(
                old(self)@,
                from@,
                requests@.map_values(|q: Request| q@),
                sequence,
            ) {
                Ok((s, index, balance)) => r matches Ok((positions, transfers)) && final(self)@ == s
                    && positions.supply@ == seq![(index, balance)] && transfers@.map_values(
                    |t: Transfer| t@,
                ) == submit_transfers(pool@, spender@, to@, requests@.map_values(|q: Request| q@)),
                Err(e) => r matches Err(e2) && e2 == e && final(self)@ == old(self)@,
            },
    {
        let ghost reqs = requests@.map_values(|q: Request| q@);
        let mut work = self.duplicate();
        let mut transfers: Vec<Transfer> = Vec::new();
        let mut i: usize = 0;
        while i < requests.len()
            invariant
                work.wf(),
                self.wf(),
                self@ == old(self)@,
                i <= requests.len(),
                reqs == requests@.map_values(|q: Request| q@),
                apply_requests_spec(old(self)@, from@, reqs.take(i as int), sequence) == Ok::<
                    BlendPoolView,
                    BlendPoolError,
                >(work@),
                transfers@.map_values(|t: Transfer| t@) == submit_transfers(
                    pool@,
                    spender@,
                    to@,
                    reqs.take(i as int),
                ),
            decreases requests.len() - i,
        {
            assert(reqs.take(i + 1).drop_last() =~= reqs.take(i as int));
            assert(reqs.take(i + 1).last() == requests@[i as int]@);
            let req = &requests[i];
            match work.apply_request(from, req, sequence) {
                Ok(()) => {},
                Err(e) => {
                    proof {
                        lemma_refusal_persists(old(self)@, from@, reqs, sequence, i as int + 1);
                    }
                    return Err(e);
                },
            }
            let transfer = if req.request_type == REQUEST_SUPPLY {
                Transfer::new(&req.address, spender, pool, req.amount)
            } else {
                Transfer::new(&req.address, pool, to, req.amount)
            };
            let ghost before = transfers@;
            transfers.push(transfer);
            proof {
                assert(transfers@.map_values(|t: Transfer| t@) =~= before.map_values(
                    |t: Transfer| t@,
                ).push(request_transfer(pool@, spender@, to@, reqs[i as int])));
                assert(submit_transfers(pool@, spender@, to@, reqs.take(i + 1)) =~= submit_transfers(
                    pool@,
                    spender@,
                    to@,
                    reqs.take(i as int),
                ).push(request_transfer(pool@, spender@, to@, reqs[i as int])));
            }
            i = i + 1;
        }
        assert(reqs.take(requests.len() as int) =~= reqs);
        if requests.len() == 0 {
            return Err(BlendPoolError::EmptyRequests);
        }
        let first = &requests[0];
        let index = match work.asset_index(&first.address) {
            Ok(index) => index,
            Err(e) => {
                return Err(e);
            },
        };
        let balance = work.accrued_supply(&Holding::new(from, &first.address), sequence);
        *self = work;
        let mut supply: Vec<(u32, i128)> = Vec::new();
        supply.push((index, balance));
        Ok((Positions { supply }, transfers))
    }

    /// Who must authorize a submission for `from` by `spender`, in order.
    pub fn submit_authorizers(from: &Address, spender: &Address) -> (r: Vec<Address>)
        ensures
            r@.map_values(|a: Address| a@) == submit_authorizers_spec(from@, spender@),
    {
        let mut r: Vec<Address> = Vec::new();
        r.push(spender.clone());
        if !from.same(spender) {
            r.push(from.clone());
        }
        assert(r@.map_values(|a: Address| a@) =~= submit_authorizers_spec(from@, spender@));
        r
    }
}

/// Once a prefix of the requests is refused, the whole batch is refused with
/// the same error.
proof fn lemma_refusal_persists(
    s: BlendPoolView,
    from: Seq<u8>,
    reqs: Seq<RequestView>,
    sequence: u32,
    n: int,
)
    requires
        0 <= n <= reqs.len(),
        apply_requests_spec(s, from, reqs.take(n), sequence) is Err,
    ensures
        apply_requests_spec(s, from, reqs, sequence) == apply_requests_spec(
            s,
            from,
            reqs.take(n),
            sequence,
        ),
    decreases reqs.len() - n,
{
    if n < reqs.len() {
        assert(reqs.take(n + 1).drop_last() =~= reqs.take(n));
        lemma_refusal_persists(s, from, reqs, sequence, n + 1);
    } else {
        assert(reqs.take(n) =~= reqs);
    }
}

} // verus!
