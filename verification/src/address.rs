//! Identities of accounts and contracts on the ledger, as the contracts see
//! them: opaque byte strings that are compared for equality and nothing else.

use vstd::prelude::*;

verus! {

/// A key of a [`crate::table::Table`]: a value with a mathematical view that
/// can be compared and duplicated in executable code.
pub trait TableKey: View + Sized {
    /// Whether two keys have the same view.
    fn same_key(&self, other: &Self) -> (r: bool)
        ensures
            r == (self@ == other@),
    ;

    /// A copy of the key.
    fn copy_key(&self) -> (r: Self)
        ensures
            r@ == self@,
    ;
}

/// The address of an account or of a contract: the bytes of its textual
/// (strkey) form. Two addresses are the same address exactly when their bytes
/// are equal.
pub struct Address {
    id: Vec<u8>,
}

impl View for Address {
    type V = Seq<u8>;

    closed spec fn view(&self) -> Seq<u8> {
        self.id@
    }
}

/// A copy of a byte vector.
pub(crate) fn copy_bytes(v: &Vec<u8>) -> (r: Vec<u8>)
    ensures
        r@ == v@,
{
    let mut r: Vec<u8> = Vec::new();
    let mut i: usize = 0;
    while i < v.len()
        invariant
            i <= v.len(),
            r@ == v@.take(i as int),
        decreases v.len() - i,
    {
        r.push(v[i]);
        i = i + 1;
        assert(r@ =~= v@.take(i as int));
    }
    assert(v@.take(v.len() as int) =~= v@);
    r
}

/// Whether two byte slices are equal.
fn bytes_equal(a: &Vec<u8>, b: &Vec<u8>) -> (r: bool)
    ensures
        r == (a@ == b@),
{
    if a.len() != b.len() {
        return false;
    }
    let mut i: usize = 0;
    while i < a.len()
        invariant
            i <= a.len(),
            a.len() == b.len(),
            a@.take(i as int) == b@.take(i as int),
        decreases a.len() - i,
    {
        if a[i] != b[i] {
            assert(a@[i as int] != b@[i as int]);
            return false;
        }
        assert(a@.take(i + 1) =~= a@.take(i as int).push(a@[i as int]));
        assert(b@.take(i + 1) =~= b@.take(i as int).push(b@[i as int]));
        i = i + 1;
    }
    assert(a@.take(a.len() as int) =~= a@);
    assert(b@.take(b.len() as int) =~= b@);
    true
}

impl Address {
    /// The address whose textual form is `id`.
    pub fn new(id: Vec<u8>) -> (a: Address)
        ensures
            a@ == id@,
    {
        Address { id }
    }

    /// The bytes of the address's textual form.
    pub fn to_bytes(&self) -> (r: Vec<u8>)
        ensures
            r@ == self@,
    {
        copy_bytes(&self.id)
    }

    /// Whether `self` and `other` are the same address.
    pub fn same(&self, other: &Address) -> (r: bool)
        ensures
            r == (self@ == other@),
    {
        bytes_equal(&self.id, &other.id)
    }
}

impl Clone for Address {
    fn clone(&self) -> (r: Self)
        ensures
            r@ == self@,
    {
        Address { id: copy_bytes(&self.id) }
    }
}

impl TableKey for Address {
    fn same_key(&self, other: &Self) -> (r: bool) {
        self.same(other)
    }

    fn copy_key(&self) -> (r: Self) {
        self.clone()
    }
}

/// A pair of addresses: an account (or contract) and an asset it holds.
pub struct Holding {
    pub holder: Address,
    pub asset: Address,
}

impl View for Holding {
    type V = (Seq<u8>, Seq<u8>);

    open spec fn view(&self) -> (Seq<u8>, Seq<u8>) {
        (self.holder@, self.asset@)
    }
}

impl Holding {
    /// The holding of `asset` by `holder`.
    pub fn new(holder: &Address, asset: &Address) -> (h: Holding)
        ensures
            h@ == (holder@, asset@),
    {
        Holding { holder: holder.clone(), asset: asset.clone() }
    }
}

impl TableKey for Holding {
    fn same_key(&self, other: &Self) -> (r: bool) {
        self.holder.same(&other.holder) && self.asset.same(&other.asset)
    }

    fn copy_key(&self) -> (r: Self) {
        Holding { holder: self.holder.clone(), asset: self.asset.clone() }
    }
}

/// A token transfer that a contract makes: `amount` of `token` moves from
/// `from` to `to`.
pub struct Transfer {
    pub token: Address,
    pub from: Address,
    pub to: Address,
    pub amount: i128,
}

/// A transfer as plain values.
pub struct TransferView {
    pub token: Seq<u8>,
    pub from: Seq<u8>,
    pub to: Seq<u8>,
    pub amount: i128,
}

impl View for Transfer {
    type V = TransferView;

    open spec fn view(&self) -> TransferView {
        TransferView { token: self.token@, from: self.from@, to: self.to@, amount: self.amount }
    }
}

impl Transfer {
    /// The transfer of `amount` of `token` from `from` to `to`.
    pub fn new(token: &Address, from: &Address, to: &Address, amount: i128) -> (t: Transfer)
        ensures
            t@ == (TransferView { token: token@, from: from@, to: to@, amount }),
    {
        Transfer { token: token.clone(), from: from.clone(), to: to.clone(), amount }
    }
}

} // verus!
