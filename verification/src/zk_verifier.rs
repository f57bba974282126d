//! The Groth16 verifier over BLS12-381: it stores one verification key and
//! checks proofs that the agent's trade followed the strategy circuit.
//!
//! The canonical check `e(A, B) = e(alpha, beta) * e(vk_x, gamma) *
//! e(C, delta)` is done as one product of pairings `e(A, B) * e(-alpha, beta)
//! * e(vk_x, -gamma) * e(C, -delta) == 1`, with `-alpha`, `-gamma` and
//! `-delta` negated in the stored key, and `vk_x = IC[0] + sum_i input_i *
//! IC[i + 1]` computed as one multi-scalar multiplication. This module holds
//! the key, checks that every encoding is one the ledger host accepts, builds
//! the operands of the two group operations and has the host carry them out.

use vstd::prelude::*;

use crate::address::copy_bytes;
use soroban_sdk::crypto::bls12_381::{Bls12381Fr, Bls12381G1Affine, Bls12381G2Affine};
use soroban_sdk::{BytesN, Env};

verus! {

/// Why the verifier refused a call.
#[derive(Debug, Clone, Copy, PartialEq, Eq, Structural)]
pub enum Error {
    /// No verification key is stored.
    VkNotSet,
    /// A verification key is stored already.
    VkAlreadySet,
    /// The number of public inputs is not one less than the number of IC
    /// points.
    InputLengthMismatch,
    /// A point of the key or the proof is not the encoding of a point of its
    /// group, or a public input is not 32 bytes long.
    InvalidEncoding,
}

/// A Groth16 verification key: encodings of G1 points (96 bytes) and G2
/// points (192 bytes).
pub struct VerificationKey {
    /// -alpha in G1.
    pub alpha_neg: Vec<u8>,
    /// beta in G2.
    pub beta: Vec<u8>,
    /// -gamma in G2.
    pub gamma_neg: Vec<u8>,
    /// -delta in G2.
    pub delta_neg: Vec<u8>,
    /// The IC points in G1, one more than the public inputs.
    pub ic: Vec<Vec<u8>>,
}

/// A verification key as plain values.
pub struct VerificationKeyView {
    pub alpha_neg: Seq<u8>,
    pub beta: Seq<u8>,
    pub gamma_neg: Seq<u8>,
    pub delta_neg: Seq<u8>,
    pub ic: Seq<Seq<u8>>,
}

impl View for VerificationKey {
    type V = VerificationKeyView;

    open spec fn view(&self) -> VerificationKeyView {
        VerificationKeyView {
            alpha_neg: self.alpha_neg@,
            beta: self.beta@,
            gamma_neg: self.gamma_neg@,
            delta_neg: self.delta_neg@,
            ic: byte_strings(self.ic@),
        }
    }
}

/// A Groth16 proof: A and C in G1, B in G2.
pub struct Proof {
    pub a: Vec<u8>,
    pub b: Vec<u8>,
    pub c: Vec<u8>,
}

/// The operands of the multi-scalar multiplication that gives `vk_x`:
/// G1 points and 32-byte big-endian scalars, pairwise.
pub struct MsmOperands {
    pub points: Vec<Vec<u8>>,
    pub scalars: Vec<Vec<u8>>,
}

/// The operands of the pairing-product check: G1 and G2 points, pairwise.
pub struct PairingOperands {
    pub g1: Vec<Vec<u8>>,
    pub g2: Vec<Vec<u8>>,
}

/// The byte strings of a vector of byte vectors.
pub open spec fn byte_strings(v: Seq<Vec<u8>>) -> Seq<Seq<u8>> {
    v.map_values(|p: Vec<u8>| p@)
}

/// The scalar one, as 32 big-endian bytes.
pub open spec fn scalar_one() -> Seq<u8> {
    Seq::new(32, |i: int| if i == 31 {
        1u8
    } else {
        0u8
    })
}

/// The multi-scalar multiplication for key IC points `ic` and public inputs
/// `inputs`: the points are the IC points, the scalars one and then the
/// inputs; refused where the counts do not match.
pub open spec fn msm_operands_spec(ic: Seq<Seq<u8>>, inputs: Seq<Seq<u8>>) -> Result<
    (Seq<Seq<u8>>, Seq<Seq<u8>>),
    Error,
> {
    if ic.len() != inputs.len() + 1 {
        Err(Error::InputLengthMismatch)
    } else {
        Ok((ic, seq![scalar_one()] + inputs))
    }
}

/// Appending a vector appends its bytes.
proof fn lemma_byte_strings_push(v: Seq<Vec<u8>>, x: Vec<u8>)
    ensures
        byte_strings(v.push(x)) == byte_strings(v).push(x@),
{
    assert(byte_strings(v.push(x)) =~= byte_strings(v).push(x@));
}

/// A copy of a vector of byte vectors.
fn copy_byte_strings(v: &Vec<Vec<u8>>) -> (r: Vec<Vec<u8>>)
    ensures
        byte_strings(r@) == byte_strings(v@),
{
    let mut r: Vec<Vec<u8>> = Vec::new();
    let mut i: usize = 0;
    while i < v.len()
        invariant
            i <= v.len(),
            byte_strings(r@) == byte_strings(v@).take(i as int),
        decreases v.len() - i,
    {
        let item = copy_bytes(&v[i]);
        proof {
            lemma_byte_strings_push(r@, item);
        }
        r.push(item);
        i = i + 1;
        assert(byte_strings(r@) =~= byte_strings(v@).take(i as int));
    }
    assert(byte_strings(v@).take(v.len() as int) =~= byte_strings(v@));
    r
}

/// The operands of the multi-scalar multiplication that gives `vk_x` for
/// `public_inputs` (32-byte big-endian scalars) under `vk`.
pub fn msm_operands(vk: &VerificationKey, public_inputs: &Vec<Vec<u8>>) -> (r: Result<
    MsmOperands,
    Error,
>)
    ensures
        match msm_operands_spec(byte_strings(vk.ic@), byte_strings(public_inputs@)) {
            Ok((points, scalars)) => (r is Ok) && byte_strings(r->Ok_0.points@) == points
                && byte_strings(r->Ok_0.scalars@) == scalars,
            Err(e) => r is Err && r->Err_0 == e,
        },
{
    if vk.ic.len() == 0 || vk.ic.len() - 1 != public_inputs.len() {
        return Err(Error::InputLengthMismatch);
    }
    let points = copy_byte_strings(&vk.ic);
    let mut one: Vec<u8> = Vec::new();
    let mut i: usize = 0;
    while i < 31
        invariant
            i <= 31,
            one@.len() == i,
            forall|j: int| 0 <= j < i ==> one@[j] == 0u8,
        decreases 31 - i,
    {
        one.push(0u8);
        i = i + 1;
    }
    one.push(1u8);
    assert(one@ =~= scalar_one());
    let mut scalars: Vec<Vec<u8>> = Vec::new();
    scalars.push(one);
    let inputs = copy_byte_strings(public_inputs);
    let mut k: usize = 0;
    while k < inputs.len()
        invariant
            k <= inputs.len(),
            byte_strings(inputs@) == byte_strings(public_inputs@),
            byte_strings(scalars@) == seq![scalar_one()] + byte_strings(inputs@).take(k as int),
        decreases inputs.len() - k,
    {
        let item = copy_bytes(&inputs[k]);
        proof {
            lemma_byte_strings_push(scalars@, item);
        }
        scalars.push(item);
        k = k + 1;
        assert(byte_strings(scalars@) =~= seq![scalar_one()] + byte_strings(inputs@).take(
            k as int,
        ));
    }
    assert(byte_strings(inputs@).take(inputs.len() as int) =~= byte_strings(inputs@));
    Ok(MsmOperands { points, scalars })
}

/// The operands of the pairing-product check for `proof` under `vk`, with
/// `vk_x` the result of the multi-scalar multiplication:
/// `[A, -alpha, vk_x, C]` in G1 against `[B, beta, -gamma, -delta]` in G2.
pub fn pairing_operands(vk: &VerificationKey, proof: &Proof, vk_x: Vec<u8>) -> (r: PairingOperands)
    ensures
        byte_strings(r.g1@) == seq![proof.a@, vk.alpha_neg@, vk_x@, proof.c@],
        byte_strings(r.g2@) == seq![proof.b@, vk.beta@, vk.gamma_neg@, vk.delta_neg@],
{
    let ghost vk_x_bytes = vk_x@;
    let mut g1: Vec<Vec<u8>> = Vec::new();
    g1.push(copy_bytes(&proof.a));
    g1.push(copy_bytes(&vk.alpha_neg));
    g1.push(vk_x);
    g1.push(copy_bytes(&proof.c));
    let mut g2: Vec<Vec<u8>> = Vec::new();
    g2.push(copy_bytes(&proof.b));
    g2.push(copy_bytes(&vk.beta));
    g2.push(copy_bytes(&vk.gamma_neg));
    g2.push(copy_bytes(&vk.delta_neg));
    assert(byte_strings(g1@) =~= seq![proof.a@, vk.alpha_neg@, vk_x_bytes, proof.c@]);
    assert(byte_strings(g2@) =~= seq![proof.b@, vk.beta@, vk.gamma_neg@, vk.delta_neg@]);
    PairingOperands { g1, g2 }
}

/// The ledger environment, through which the host's BLS12-381 operations
/// are reached.
#[verifier::external_type_specification]
#[verifier::external_body]
pub struct ExEnv(soroban_sdk::Env);

/// Whether the G1 point encoded by `point` lies on the curve.
pub uninterp spec fn spec_g1_is_on_curve(point: Seq<u8>) -> bool;

/// Whether the G1 point encoded by `point`, on the curve, lies in the
/// prime-order subgroup.
pub uninterp spec fn spec_g1_is_in_subgroup(point: Seq<u8>) -> bool;

/// Whether the G2 point encoded by `point` lies on the curve.
pub uninterp spec fn spec_g2_is_on_curve(point: Seq<u8>) -> bool;

/// Whether the G2 point encoded by `point`, on the curve, lies in the
/// prime-order subgroup.
pub uninterp spec fn spec_g2_is_in_subgroup(point: Seq<u8>) -> bool;

/// The encoding of `sum_i scalars[i] * points[i]` in G1.
pub uninterp spec fn spec_g1_msm(points: Seq<Seq<u8>>, scalars: Seq<Seq<u8>>) -> Seq<u8>;

/// Whether the product of the pairings `e(g1[i], g2[i])` is the identity.
pub uninterp spec fn spec_pairing_check(g1: Seq<Seq<u8>>, g2: Seq<Seq<u8>>) -> bool;

/// The modulus `p` of the base field, as 48 big-endian bytes.
pub open spec fn fp_modulus() -> Seq<u8> {
    seq![
        0x1au8, 0x01u8, 0x11u8, 0xeau8, 0x39u8, 0x7fu8, 0xe6u8, 0x9au8, 0x4bu8, 0x1bu8, 0xa7u8, 0xb6u8,
        0x43u8, 0x4bu8, 0xacu8, 0xd7u8, 0x64u8, 0x77u8, 0x4bu8, 0x84u8, 0xf3u8, 0x85u8, 0x12u8, 0xbfu8,
        0x67u8, 0x30u8, 0xd2u8, 0xa0u8, 0xf6u8, 0xb0u8, 0xf6u8, 0x24u8, 0x1eu8, 0xabu8, 0xffu8, 0xfeu8,
        0xb1u8, 0x53u8, 0xffu8, 0xffu8, 0xb9u8, 0xfeu8, 0xffu8, 0xffu8, 0xffu8, 0xffu8, 0xaau8, 0xabu8,
    ]
}

/// Whether the big-endian number `a` is below the big-endian number `b` of
/// the same length: at the first byte where they differ, `a`'s is smaller.
pub open spec fn be_below(a: Seq<u8>, b: Seq<u8>) -> bool {
    exists|k: int|
        #![trigger a[k], b[k]]
        0 <= k < a.len() && k < b.len() && a[k] < b[k] && forall|j: int| 0 <= j < k ==> a[j] == b[j]
}

/// The `k`-th 48-byte coordinate of an encoded point.
pub open spec fn coordinate(s: Seq<u8>, k: int) -> Seq<u8> {
    s.subrange(48 * k, 48 * k + 48)
}

/// Whether `s` is the encoding of the point at infinity: the infinity flag
/// and nothing else set.
pub open spec fn is_infinity_encoding(s: Seq<u8>) -> bool {
    s[0] == 0x40u8 && forall|i: int| 1 <= i < s.len() ==> s[i] == 0u8
}

/// Whether the host decodes `s` as an uncompressed point of `size` bytes:
/// either the point at infinity, or no flag set and every coordinate, read
/// big-endian, below the field modulus. (Whether the point lies on the curve
/// is a separate question.)
pub open spec fn point_decodes(s: Seq<u8>, size: nat) -> bool {
    &&& s.len() == size
    &&& is_infinity_encoding(s) || (s[0] < 0x20u8 && forall|k: int|
        0 <= k < size / 48 ==> #[trigger] be_below(coordinate(s, k), fp_modulus()))
}

/// Whether `s` encodes a point of G1: decodable, on the curve and in the
/// subgroup.
pub open spec fn g1_valid(s: Seq<u8>) -> bool {
    point_decodes(s, 96) && spec_g1_is_on_curve(s) && spec_g1_is_in_subgroup(s)
}

/// Whether `s` encodes a point of G2: decodable, on the curve and in the
/// subgroup.
pub open spec fn g2_valid(s: Seq<u8>) -> bool {
    point_decodes(s, 192) && spec_g2_is_on_curve(s) && spec_g2_is_in_subgroup(s)
}

/// Whether every string of `points` encodes a point of G1.
pub open spec fn all_g1_valid(points: Seq<Seq<u8>>) -> bool {
    forall|i: int| 0 <= i < points.len() ==> #[trigger] g1_valid(points[i])
}

/// Whether every string of `points` encodes a point of G2.
pub open spec fn all_g2_valid(points: Seq<Seq<u8>>) -> bool {
    forall|i: int| 0 <= i < points.len() ==> #[trigger] g2_valid(points[i])
}

/// Whether every string of `scalars` is 32 bytes long.
pub open spec fn all_scalars(scalars: Seq<Seq<u8>>) -> bool {
    forall|i: int| 0 <= i < scalars.len() ==> #[trigger] scalars[i].len() == 32
}

/// Whether every point of the key encodes a point of its group.
pub open spec fn key_valid(vk: VerificationKeyView) -> bool {
    &&& g1_valid(vk.alpha_neg)
    &&& g2_valid(vk.beta)
    &&& g2_valid(vk.gamma_neg)
    &&& g2_valid(vk.delta_neg)
    &&& all_g1_valid(vk.ic)
}

/// Whether every point of the proof (A, B, C) encodes a point of its group.
pub open spec fn proof_valid(a: Seq<u8>, b: Seq<u8>, c: Seq<u8>) -> bool {
    g1_valid(a) && g2_valid(b) && g1_valid(c)
}

/// The pairing-product check that decides a proof whose encodings are all
/// valid: `e(A, B) * e(-alpha, beta) * e(vk_x, -gamma) * e(C, -delta) == 1`,
/// with `vk_x` the multi-scalar multiplication of the IC points by one and
/// the inputs; refused where the input count does not match.
pub open spec fn groth16_spec(vk: VerificationKeyView, a: Seq<u8>, b: Seq<u8>, c: Seq<u8>, inputs: Seq<Seq<u8>>) -> Result<
    bool,
    Error,
> {
    match msm_operands_spec(vk.ic, inputs) {
        Err(e) => Err(e),
        Ok((points, scalars)) => Ok(
            spec_pairing_check(
                seq![a, vk.alpha_neg, spec_g1_msm(points, scalars), c],
                seq![b, vk.beta, vk.gamma_neg, vk.delta_neg],
            ),
        ),
    }
}

/// What a verification of the proof (A, B, C) for `inputs` under `vk`
/// answers: the input count is checked first, then every encoding, then
/// the pairing product decides.
pub open spec fn verify_checked_spec(
    vk: VerificationKeyView,
    a: Seq<u8>,
    b: Seq<u8>,
    c: Seq<u8>,
    inputs: Seq<Seq<u8>>,
) -> Result<bool, Error> {
    if vk.ic.len() != inputs.len() + 1 {
        Err(Error::InputLengthMismatch)
    } else if !(key_valid(vk) && proof_valid(a, b, c) && all_scalars(inputs)) {
        Err(Error::InvalidEncoding)
    } else {
        groth16_spec(vk, a, b, c, inputs)
    }
}

/// The verifier decides the Groth16 equation `e(A, B) = e(alpha, beta) *
/// e(vk_x, gamma) * e(C, delta)` as the product of four pairings with the
/// stored negations: A against B, -alpha against beta, vk_x against -gamma
/// and C against -delta, where vk_x is the multi-scalar multiplication of
/// the IC points by one and then the public inputs, in order. A wrong input
/// count is refused whatever the bytes, and then an invalid encoding.
pub proof fn law_verifier_checks_the_groth16_equation(
    vk: VerificationKeyView,
    a: Seq<u8>,
    b: Seq<u8>,
    c: Seq<u8>,
    inputs: Seq<Seq<u8>>,
)
    ensures
        vk.ic.len() != inputs.len() + 1 ==> verify_checked_spec(vk, a, b, c, inputs) == Err::<
            bool,
            Error,
        >(Error::InputLengthMismatch),
        vk.ic.len() == inputs.len() + 1 && !(key_valid(vk) && proof_valid(a, b, c) && all_scalars(
            inputs,
        )) ==> verify_checked_spec(vk, a, b, c, inputs) == Err::<bool, Error>(
            Error::InvalidEncoding,
        ),
        vk.ic.len() == inputs.len() + 1 && key_valid(vk) && proof_valid(a, b, c) && all_scalars(
            inputs,
        ) ==> ({
            let vk_x = spec_g1_msm(vk.ic, seq![scalar_one()] + inputs);
            let pairs: Seq<(Seq<u8>, Seq<u8>)> = seq![
                (a, b),
                (vk.alpha_neg, vk.beta),
                (vk_x, vk.gamma_neg),
                (c, vk.delta_neg),
            ];
            verify_checked_spec(vk, a, b, c, inputs) == Ok::<bool, Error>(
                spec_pairing_check(
                    pairs.map_values(|p: (Seq<u8>, Seq<u8>)| p.0),
                    pairs.map_values(|p: (Seq<u8>, Seq<u8>)| p.1),
                ),
            )
        }),
{
    let vk_x = spec_g1_msm(vk.ic, seq![scalar_one()] + inputs);
    let pairs: Seq<(Seq<u8>, Seq<u8>)> = seq![
        (a, b),
        (vk.alpha_neg, vk.beta),
        (vk_x, vk.gamma_neg),
        (c, vk.delta_neg),
    ];
    assert(pairs.map_values(|p: (Seq<u8>, Seq<u8>)| p.0) =~= seq![a, vk.alpha_neg, vk_x, c]);
    assert(pairs.map_values(|p: (Seq<u8>, Seq<u8>)| p.1) =~= seq![
        b,
        vk.beta,
        vk.gamma_neg,
        vk.delta_neg,
    ]);
}

/// Whether the host finds the G1 point encoded by `point` on the curve:
/// `soroban_sdk`'s `Bls12_381::g1_is_on_curve`. The host decodes the bytes
/// without checking the point and traps where they do not decode, which
/// `requires` rules out; the answer is named, not stated. A trap for an
/// exhausted budget is left unsaid.
#[verifier::external_body]
fn g1_is_on_curve(env: &Env, point: &Vec<u8>) -> (r: bool)
    requires
        point_decodes(point@, 96),
    ensures
        r == spec_g1_is_on_curve(point@),
{
    let bytes: [u8; 96] = point.as_slice().try_into().unwrap();
    env.crypto().bls12_381().g1_is_on_curve(&Bls12381G1Affine::from_bytes(BytesN::from_array(env, &bytes)))
}

/// Whether the host finds the G1 point encoded by `point` in the subgroup:
/// `soroban_sdk`'s `Bls12_381::g1_is_in_subgroup`. The host traps unless the
/// bytes decode to a point on the curve, which `requires` rules out; the
/// answer is named. A trap for an exhausted budget is left unsaid.
#[verifier::external_body]
fn g1_is_in_subgroup(env: &Env, point: &Vec<u8>) -> (r: bool)
    requires
        point_decodes(point@, 96),
        spec_g1_is_on_curve(point@),
    ensures
        r == spec_g1_is_in_subgroup(point@),
{
    let bytes: [u8; 96] = point.as_slice().try_into().unwrap();
    env.crypto().bls12_381().g1_is_in_subgroup(&Bls12381G1Affine::from_bytes(BytesN::from_array(env, &bytes)))
}

/// Whether the host finds the G2 point encoded by `point` on the curve:
/// `soroban_sdk`'s `Bls12_381::g2_is_on_curve`, as for G1.
#[verifier::external_body]
fn g2_is_on_curve(env: &Env, point: &Vec<u8>) -> (r: bool)
    requires
        point_decodes(point@, 192),
    ensures
        r == spec_g2_is_on_curve(point@),
{
    let bytes: [u8; 192] = point.as_slice().try_into().unwrap();
    env.crypto().bls12_381().g2_is_on_curve(&Bls12381G2Affine::from_bytes(BytesN::from_array(env, &bytes)))
}

/// Whether the host finds the G2 point encoded by `point` in the subgroup:
/// `soroban_sdk`'s `Bls12_381::g2_is_in_subgroup`, as for G1.
#[verifier::external_body]
fn g2_is_in_subgroup(env: &Env, point: &Vec<u8>) -> (r: bool)
    requires
        point_decodes(point@, 192),
        spec_g2_is_on_curve(point@),
    ensures
        r == spec_g2_is_in_subgroup(point@),
{
    let bytes: [u8; 192] = point.as_slice().try_into().unwrap();
    env.crypto().bls12_381().g2_is_in_subgroup(&Bls12381G2Affine::from_bytes(BytesN::from_array(env, &bytes)))
}

/// The host's multi-scalar multiplication in G1: `soroban_sdk`'s
/// `Bls12_381::g1_msm`. The host traps unless the counts are equal and not
/// zero and every point is a point of G1, which `requires` rules out; the
/// 32-byte scalars are read big-endian and reduced, never refused. The
/// result is named; as the host serializes a point of the subgroup, it is
/// itself a valid G1 encoding. A trap for an exhausted budget is left unsaid.
#[verifier::external_body]
fn g1_msm(env: &Env, points: &Vec<Vec<u8>>, scalars: &Vec<Vec<u8>>) -> (r: Vec<u8>)
    requires
        points.len() == scalars.len(),
        points.len() > 0,
        all_g1_valid(byte_strings(points@)),
        all_scalars(byte_strings(scalars@)),
    ensures
        r@ == spec_g1_msm(byte_strings(points@), byte_strings(scalars@)),
        g1_valid(r@),
{
    let mut vp = soroban_sdk::Vec::new(env);
    for p in points.iter() {
        vp.push_back(Bls12381G1Affine::from_bytes(BytesN::from_array(env, &p.as_slice().try_into().unwrap())));
    }
    let mut vs = soroban_sdk::Vec::new(env);
    for s in scalars.iter() {
        vs.push_back(Bls12381Fr::from_bytes(BytesN::from_array(env, &s.as_slice().try_into().unwrap())));
    }
    env.crypto().bls12_381().g1_msm(vp, vs).to_array().to_vec()
}

/// The host's pairing-product check: `soroban_sdk`'s
/// `Bls12_381::pairing_check`. The host traps unless the counts are equal
/// and not zero and every point is a point of its group, which `requires`
/// rules out; the answer is named. Traps for an exhausted budget, and the
/// host's own internal failure of the final exponentiation, are left unsaid.
#[verifier::external_body]
fn pairing_check(env: &Env, g1: &Vec<Vec<u8>>, g2: &Vec<Vec<u8>>) -> (r: bool)
    requires
        g1.len() == g2.len(),
        g1.len() > 0,
        all_g1_valid(byte_strings(g1@)),
        all_g2_valid(byte_strings(g2@)),
    ensures
        r == spec_pairing_check(byte_strings(g1@), byte_strings(g2@)),
{
    let mut vp1 = soroban_sdk::Vec::new(env);
    for p in g1.iter() {
        vp1.push_back(Bls12381G1Affine::from_bytes(BytesN::from_array(env, &p.as_slice().try_into().unwrap())));
    }
    let mut vp2 = soroban_sdk::Vec::new(env);
    for p in g2.iter() {
        vp2.push_back(Bls12381G2Affine::from_bytes(BytesN::from_array(env, &p.as_slice().try_into().unwrap())));
    }
    env.crypto().bls12_381().pairing_check(vp1, vp2)
}

/// The field modulus as bytes.
fn fp_modulus_bytes() -> (r: [u8; 48])
    ensures
        r@ == fp_modulus(),
{
    let r: [u8; 48] = [
        0x1a, 0x01, 0x11, 0xea, 0x39, 0x7f, 0xe6, 0x9a, 0x4b, 0x1b, 0xa7, 0xb6,
        0x43, 0x4b, 0xac, 0xd7, 0x64, 0x77, 0x4b, 0x84, 0xf3, 0x85, 0x12, 0xbf,
        0x67, 0x30, 0xd2, 0xa0, 0xf6, 0xb0, 0xf6, 0x24, 0x1e, 0xab, 0xff, 0xfe,
        0xb1, 0x53, 0xff, 0xff, 0xb9, 0xfe, 0xff, 0xff, 0xff, 0xff, 0xaa, 0xab,
    ];
    assert(r@ =~= fp_modulus());
    r
}

/// Whether the 48 bytes of `s` from `start`, read big-endian, are below the
/// field modulus.
fn coordinate_below_modulus(s: &Vec<u8>, start: usize) -> (r: bool)
    requires
        start + 48 <= s.len(),
    ensures
        r == be_below(s@.subrange(start as int, start + 48), fp_modulus()),
{
    let m = fp_modulus_bytes();
    let ghost c = s@.subrange(start as int, start + 48);
    let ghost n = fp_modulus();
    let mut i: usize = 0;
    while i < 48
        invariant
            i <= 48,
            start + 48 <= s.len(),
            m@ == n,
            n == fp_modulus(),
            c == s@.subrange(start as int, start + 48),
            forall|j: int| 0 <= j < i ==> c[j] == n[j],
        decreases 48 - i,
    {
        let x = s[start + i];
        assert(c[i as int] == x);
        if x < m[i] {
            assert(c[i as int] < n[i as int] && forall|j: int| 0 <= j < i ==> c[j] == n[j]);
            return true;
        }
        if x > m[i] {
            assert forall|k: int|
                0 <= k < c.len() && k < n.len() && c[k] < n[k] implies !(forall|j: int|
                0 <= j < k ==> c[j] == n[j]) by {
                if k > i {
                    assert(!(c[i as int] == n[i as int]));
                }
            }
            return false;
        }
        i = i + 1;
    }
    false
}

/// Whether `s` decodes as an uncompressed point of `size` bytes.
fn point_decodes_check(s: &Vec<u8>, size: usize) -> (r: bool)
    requires
        size == 96 || size == 192,
    ensures
        r == point_decodes(s@, size as nat),
{
    if s.len() != size {
        return false;
    }
    if s[0] == 0x40 {
        let mut i: usize = 1;
        while i < s.len()
            invariant
                1 <= i <= s.len(),
                s@[0] == 0x40u8,
                forall|j: int| 1 <= j < i ==> s@[j] == 0u8,
            decreases s.len() - i,
        {
            if s[i] != 0 {
                assert(!is_infinity_encoding(s@));
                return false;
            }
            i = i + 1;
        }
        return true;
    }
    if s[0] >= 0x20 {
        return false;
    }
    let count: usize = size / 48;
    let mut k: usize = 0;
    while k < count
        invariant
            k <= count,
            count == size / 48,
            size == 96 || size == 192,
            s.len() == size,
            s@[0] < 0x20u8,
            forall|j: int| 0 <= j < k ==> #[trigger] be_below(coordinate(s@, j), fp_modulus()),
        decreases count - k,
    {
        if !coordinate_below_modulus(s, 48 * k) {
            assert(!be_below(coordinate(s@, k as int), fp_modulus()));
            return false;
        }
        k = k + 1;
    }
    true
}

/// Whether `s` encodes a point of G1, asking the host only about bytes
/// that decode.
fn g1_valid_check(env: &Env, s: &Vec<u8>) -> (r: bool)
    ensures
        r == g1_valid(s@),
{
    point_decodes_check(s, 96) && g1_is_on_curve(env, s) && g1_is_in_subgroup(env, s)
}

/// Whether `s` encodes a point of G2, asking the host only about bytes
/// that decode.
fn g2_valid_check(env: &Env, s: &Vec<u8>) -> (r: bool)
    ensures
        r == g2_valid(s@),
{
    point_decodes_check(s, 192) && g2_is_on_curve(env, s) && g2_is_in_subgroup(env, s)
}

/// Whether every string of `points` encodes a point of G1.
fn all_g1_valid_check(env: &Env, points: &Vec<Vec<u8>>) -> (r: bool)
    ensures
        r == all_g1_valid(byte_strings(points@)),
{
    let ghost ps = byte_strings(points@);
    let mut i: usize = 0;
    while i < points.len()
        invariant
            i <= points.len(),
            ps == byte_strings(points@),
            forall|j: int| 0 <= j < i ==> #[trigger] g1_valid(ps[j]),
        decreases points.len() - i,
    {
        if !g1_valid_check(env, &points[i]) {
            assert(!g1_valid(ps[i as int]));
            return false;
        }
        i = i + 1;
    }
    true
}

/// Whether every string of `scalars` is 32 bytes long.
fn all_scalars_check(scalars: &Vec<Vec<u8>>) -> (r: bool)
    ensures
        r == all_scalars(byte_strings(scalars@)),
{
    let ghost ss = byte_strings(scalars@);
    let mut i: usize = 0;
    while i < scalars.len()
        invariant
            i <= scalars.len(),
            ss == byte_strings(scalars@),
            forall|j: int| 0 <= j < i ==> #[trigger] ss[j].len() == 32,
        decreases scalars.len() - i,
    {
        if scalars[i].len() != 32 {
            assert(ss[i as int].len() != 32);
            return false;
        }
        i = i + 1;
    }
    true
}

/// Verify the Groth16 proof `proof` for `public_inputs` under `vk`: a wrong
/// input count is refused before any point is read; otherwise, every point
/// being a point of its group and every input 32 bytes long, one
/// multi-scalar multiplication gives `vk_x` and one pairing-product check
/// decides.
pub fn verify(env: &Env, vk: &VerificationKey, proof: &Proof, public_inputs: &Vec<Vec<u8>>) -> (r: Result<
    bool,
    Error,
>)
    requires
        vk@.ic.len() == byte_strings(public_inputs@).len() + 1 ==> key_valid(vk@) && proof_valid(
            proof.a@,
            proof.b@,
            proof.c@,
        ) && all_scalars(byte_strings(public_inputs@)),
    ensures
        r == groth16_spec(vk@, proof.a@, proof.b@, proof.c@, byte_strings(public_inputs@)),
{
    let msm = match msm_operands(vk, public_inputs) {
        Ok(m) => m,
        Err(e) => {
            return Err(e);
        },
    };
    let ghost points = byte_strings(msm.points@);
    let ghost scalars = byte_strings(msm.scalars@);
    assert(scalars.len() == public_inputs.len() + 1);
    assert forall|i: int| 0 <= i < scalars.len() implies #[trigger] scalars[i].len() == 32 by {
        if i > 0 {
            assert(scalars[i] == byte_strings(public_inputs@)[i - 1]);
        }
    }
    let vk_x = g1_msm(env, &msm.points, &msm.scalars);
    let ghost vk_x_bytes = vk_x@;
    let pairing = pairing_operands(vk, proof, vk_x);
    let ghost g1 = byte_strings(pairing.g1@);
    let ghost g2 = byte_strings(pairing.g2@);
    assert(g1 == seq![proof.a@, vk.alpha_neg@, vk_x_bytes, proof.c@]);
    assert forall|i: int| 0 <= i < g1.len() implies #[trigger] g1_valid(g1[i]) by {
        if i == 0 {
        } else if i == 1 {
        } else if i == 2 {
        } else {
        }
    }
    assert forall|i: int| 0 <= i < g2.len() implies #[trigger] g2_valid(g2[i]) by {
        if i == 0 {
        } else if i == 1 {
        } else if i == 2 {
        } else {
        }
    }
    let ok = pairing_check(env, &pairing.g1, &pairing.g2);
    Ok(ok)
}

/// Verify the Groth16 proof `proof` for `public_inputs` under `vk`, whatever
/// the bytes: a wrong input count is refused first, then any point that is
/// not a point of its group or any input that is not 32 bytes long; a proof
/// with valid encodings is decided by the pairing product.
pub fn verify_checked(env: &Env, vk: &VerificationKey, proof: &Proof, public_inputs: &Vec<Vec<u8>>) -> (r:
    Result<bool, Error>)
    ensures
        r == verify_checked_spec(vk@, proof.a@, proof.b@, proof.c@, byte_strings(public_inputs@)),
{
    if vk.ic.len() == 0 || vk.ic.len() - 1 != public_inputs.len() {
        return Err(Error::InputLengthMismatch);
    }
    let valid = g1_valid_check(env, &vk.alpha_neg) && g2_valid_check(env, &vk.beta)
        && g2_valid_check(env, &vk.gamma_neg) && g2_valid_check(env, &vk.delta_neg)
        && all_g1_valid_check(env, &vk.ic) && g1_valid_check(env, &proof.a) && g2_valid_check(
        env,
        &proof.b,
    ) && g1_valid_check(env, &proof.c) && all_scalars_check(public_inputs);
    if !valid {
        return Err(Error::InvalidEncoding);
    }
    verify(env, vk, proof, public_inputs)
}

/// The verifier: its verification key, once set.
pub struct Groth16Verifier {
    vk: Option<VerificationKey>,
}

impl Groth16Verifier {
    /// Whether a key is stored.
    pub closed spec fn has_vk(&self) -> bool {
        self.vk is Some
    }

    /// The stored key.
    pub closed spec fn stored_key(&self) -> VerificationKeyView {
        self.vk->0@
    }

    /// A verifier with no key.
    pub fn new() -> (v: Self)
        ensures
            !v.has_vk(),
    {
        Groth16Verifier { vk: None }
    }

    /// Store the circuit's verification key, once.
    pub fn set_vk(&mut self, vk: VerificationKey) -> (r: Result<(), Error>)
        ensures
            old(self).has_vk() ==> r == Err::<(), Error>(Error::VkAlreadySet) && *final(self)
                == *old(self),
            !old(self).has_vk() ==> (r is Ok) && final(self).has_vk() && final(self).stored_key()
                == vk@,
    {
        if self.vk.is_some() {
            return Err(Error::VkAlreadySet);
        }
        self.vk = Some(vk);
        Ok(())
    }

    /// The stored key.
    pub fn verification_key(&self) -> (r: Result<&VerificationKey, Error>)
        ensures
            !self.has_vk() ==> r == Err::<&VerificationKey, Error>(Error::VkNotSet),
            self.has_vk() ==> (r is Ok) && r->Ok_0@ == self.stored_key(),
    {
        match &self.vk {
            Some(vk) => Ok(vk),
            None => Err(Error::VkNotSet),
        }
    }

    /// The operands of the multi-scalar multiplication for `public_inputs`
    /// under the stored key.
    pub fn verify_proof_operands(&self, public_inputs: &Vec<Vec<u8>>) -> (r: Result<
        MsmOperands,
        Error,
    >)
        ensures
            !self.has_vk() ==> r is Err && r->Err_0 == Error::VkNotSet,
            self.has_vk() ==> match msm_operands_spec(
                self.stored_key().ic,
                byte_strings(public_inputs@),
            ) {
                Ok((points, scalars)) => (r is Ok) && byte_strings(r->Ok_0.points@) == points
                    && byte_strings(r->Ok_0.scalars@) == scalars,
                Err(e) => r is Err && r->Err_0 == e,
            },
    {
        let vk = self.verification_key()?;
        msm_operands(vk, public_inputs)
    }

    /// Verify a Groth16 proof for `public_inputs` against the stored key:
    /// refused without a key, then as [`verify_checked`] refuses; otherwise
    /// the pairing product decides.
    pub fn verify_proof(&self, env: &Env, proof: &Proof, public_inputs: &Vec<Vec<u8>>) -> (r: Result<
        bool,
        Error,
    >)
        ensures
            !self.has_vk() ==> r == Err::<bool, Error>(Error::VkNotSet),
            self.has_vk() ==> r == verify_checked_spec(
                self.stored_key(),
                proof.a@,
                proof.b@,
                proof.c@,
                byte_strings(public_inputs@),
            ),
    {
        let vk = self.verification_key()?;
        verify_checked(env, vk, proof, public_inputs)
    }
}

} // verus!
