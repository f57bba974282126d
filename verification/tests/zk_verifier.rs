use polaris::zk_verifier::{
    msm_operands, pairing_operands, verify, verify_checked, Error, Groth16Verifier, Proof, VerificationKey,
};
use soroban_sdk::testutils::EnvTestConfig;
use soroban_sdk::{Bytes, Env};

fn quiet_env() -> Env {
    let env = Env::new_with_config(EnvTestConfig { capture_snapshot_at_drop: false });
    env.cost_estimate().budget().reset_unlimited();
    env
}

/// The encoding of the point at infinity in G1.
fn g1_infinity() -> Vec<u8> {
    let mut p = vec![0u8; 96];
    p[0] = 0x40;
    p
}

/// Points of G1 and G2 hashed from fixed messages: `(P, -P, Q)`.
fn curve_points(env: &Env) -> (Vec<u8>, Vec<u8>, Vec<u8>) {
    let bls = env.crypto().bls12_381();
    let dst = Bytes::from_slice(env, b"polaris-test-points");
    let p = bls.hash_to_g1(&Bytes::from_slice(env, b"p"), &dst);
    let q = bls.hash_to_g2(&Bytes::from_slice(env, b"q"), &dst);
    let neg_p = -p.clone();
    (p.to_array().to_vec(), neg_p.to_array().to_vec(), q.to_array().to_vec())
}

/// A key with no public input under which `e(A, B) * e(-P, Q) * e(0, Q) *
/// e(C, Q) == 1` must hold.
fn balanced_key(neg_p: &[u8], q: &[u8]) -> VerificationKey {
    VerificationKey {
        alpha_neg: neg_p.to_vec(),
        beta: q.to_vec(),
        gamma_neg: q.to_vec(),
        delta_neg: q.to_vec(),
        ic: vec![g1_infinity()],
    }
}

fn point(tag: u8, len: usize) -> Vec<u8> {
    vec![tag; len]
}

/// A key shaped like the strategy circuit's: seven IC points for six public
/// inputs.
fn load_vk() -> VerificationKey {
    VerificationKey {
        alpha_neg: point(1, 96),
        beta: point(2, 192),
        gamma_neg: point(3, 192),
        delta_neg: point(4, 192),
        ic: (0..7).map(|i| point(10 + i, 96)).collect(),
    }
}

fn load_inputs() -> Vec<Vec<u8>> {
    (0..6).map(|i| point(50 + i, 32)).collect()
}

fn setup() -> Groth16Verifier {
    let mut verifier = Groth16Verifier::new();
    verifier.set_vk(load_vk()).unwrap();
    verifier
}

#[test]
fn wrong_input_count_is_rejected() {
    let verifier = setup();

    let mut inputs = load_inputs();
    inputs.pop();

    let env = quiet_env();
    let proof = Proof { a: point(20, 96), b: point(21, 192), c: point(22, 96) };
    let result = verifier.verify_proof(&env, &proof, &inputs);
    assert!(result.is_err(), "input count must match the circuit");
    assert_eq!(result.err(), Some(Error::InputLengthMismatch));
    // The free function refuses the same way, before reading any point.
    assert_eq!(verify(&env, &load_vk(), &proof, &inputs), Err(Error::InputLengthMismatch));
}

#[test]
fn vk_can_only_be_set_once() {
    let mut verifier = setup();

    let result = verifier.set_vk(load_vk());
    assert!(result.is_err(), "second set_vk must fail");
    assert_eq!(result, Err(Error::VkAlreadySet));
}

#[test]
fn proof_needs_a_key() {
    let verifier = Groth16Verifier::new();
    assert_eq!(verifier.verify_proof_operands(&load_inputs()).err(), Some(Error::VkNotSet));
    assert!(verifier.verification_key().is_err());
}

#[test]
fn msm_takes_ic_points_against_one_and_the_inputs() {
    let vk = load_vk();
    let inputs = load_inputs();
    let ops = msm_operands(&vk, &inputs).unwrap();
    assert_eq!(ops.points, vk.ic);
    let mut one = vec![0u8; 32];
    one[31] = 1;
    assert_eq!(ops.scalars.len(), 7);
    assert_eq!(ops.scalars[0], one);
    assert_eq!(ops.scalars[1..].to_vec(), inputs);
    let mut extra = load_inputs();
    extra.push(point(99, 32));
    assert_eq!(msm_operands(&vk, &extra).err(), Some(Error::InputLengthMismatch));
}

#[test]
fn pairing_product_pairs_proof_and_key() {
    let vk = load_vk();
    let proof = Proof { a: point(20, 96), b: point(21, 192), c: point(22, 96) };
    let vk_x = point(23, 96);
    let ops = pairing_operands(&vk, &proof, vk_x.clone());
    assert_eq!(ops.g1, vec![proof.a.clone(), vk.alpha_neg.clone(), vk_x, proof.c.clone()]);
    assert_eq!(ops.g2, vec![proof.b.clone(), vk.beta.clone(), vk.gamma_neg.clone(), vk.delta_neg.clone()]);
}

#[test]
fn balanced_pairing_product_verifies() {
    let env = quiet_env();
    let (p, neg_p, q) = curve_points(&env);
    let mut verifier = Groth16Verifier::new();
    verifier.set_vk(balanced_key(&neg_p, &q)).unwrap();
    let proof = Proof { a: p.clone(), b: q.clone(), c: g1_infinity() };
    assert_eq!(verifier.verify_proof(&env, &proof, &vec![]), Ok(true));
}

#[test]
fn unbalanced_pairing_product_does_not_verify() {
    let env = quiet_env();
    let (p, neg_p, q) = curve_points(&env);
    let vk = balanced_key(&neg_p, &q);
    let proof = Proof { a: p.clone(), b: q.clone(), c: p.clone() };
    assert_eq!(verify_checked(&env, &vk, &proof, &vec![]), Ok(false));
}

#[test]
fn invalid_encodings_are_refused_before_the_host() {
    let env = quiet_env();
    let (p, neg_p, q) = curve_points(&env);
    let vk = balanced_key(&neg_p, &q);
    // Flags other than infinity set.
    let mut flagged = p.clone();
    flagged[0] |= 0x80;
    let proof = Proof { a: flagged, b: q.clone(), c: g1_infinity() };
    assert_eq!(verify_checked(&env, &vk, &proof, &vec![]), Err(Error::InvalidEncoding));
    // A coordinate at the field modulus.
    let mut too_big = vec![0u8; 96];
    too_big[..48].copy_from_slice(&[
        0x1a, 0x01, 0x11, 0xea, 0x39, 0x7f, 0xe6, 0x9a, 0x4b, 0x1b, 0xa7, 0xb6, 0x43, 0x4b, 0xac,
        0xd7, 0x64, 0x77, 0x4b, 0x84, 0xf3, 0x85, 0x12, 0xbf, 0x67, 0x30, 0xd2, 0xa0, 0xf6, 0xb0,
        0xf6, 0x24, 0x1e, 0xab, 0xff, 0xfe, 0xb1, 0x53, 0xff, 0xff, 0xb9, 0xfe, 0xff, 0xff, 0xff,
        0xff, 0xaa, 0xab,
    ]);
    let proof = Proof { a: too_big, b: q.clone(), c: g1_infinity() };
    assert_eq!(verify_checked(&env, &vk, &proof, &vec![]), Err(Error::InvalidEncoding));
    // Decodable bytes off the curve.
    let mut off_curve = vec![0u8; 96];
    off_curve[95] = 1;
    let proof = Proof { a: off_curve, b: q.clone(), c: g1_infinity() };
    assert_eq!(verify_checked(&env, &vk, &proof, &vec![]), Err(Error::InvalidEncoding));
    // The wrong length.
    let proof = Proof { a: p[..95].to_vec(), b: q.clone(), c: g1_infinity() };
    assert_eq!(verify_checked(&env, &vk, &proof, &vec![]), Err(Error::InvalidEncoding));
}

#[test]
fn input_count_is_checked_before_encodings() {
    let env = quiet_env();
    let vk = load_vk();
    let proof = Proof { a: point(20, 96), b: point(21, 192), c: point(22, 96) };
    let mut inputs = load_inputs();
    inputs.pop();
    assert_eq!(verify_checked(&env, &vk, &proof, &inputs), Err(Error::InputLengthMismatch));
    assert_eq!(verify_checked(&env, &vk, &proof, &load_inputs()), Err(Error::InvalidEncoding));
    let verifier = Groth16Verifier::new();
    assert_eq!(verifier.verify_proof(&env, &proof, &load_inputs()), Err(Error::VkNotSet));
}

#[test]
fn public_inputs_scale_the_ic_points() {
    let env = quiet_env();
    let bls = env.crypto().bls12_381();
    let dst = Bytes::from_slice(&env, b"polaris-test-points");
    let p = bls.hash_to_g1(&Bytes::from_slice(&env, b"p"), &dst);
    let r = bls.hash_to_g1(&Bytes::from_slice(&env, b"r"), &dst);
    let q = bls.hash_to_g2(&Bytes::from_slice(&env, b"q"), &dst);
    let two_r = r.clone() + r.clone();
    let key = VerificationKey {
        alpha_neg: (-p.clone()).to_array().to_vec(),
        beta: q.to_array().to_vec(),
        gamma_neg: q.to_array().to_vec(),
        delta_neg: q.to_array().to_vec(),
        ic: vec![g1_infinity(), r.to_array().to_vec()],
    };
    // vk_x = 0 + x * R; C = -2R balances the product exactly when x = 2.
    let proof = Proof {
        a: p.to_array().to_vec(),
        b: q.to_array().to_vec(),
        c: (-two_r).to_array().to_vec(),
    };
    let mut two = vec![0u8; 32];
    two[31] = 2;
    let mut one = vec![0u8; 32];
    one[31] = 1;
    assert_eq!(verify_checked(&env, &key, &proof, &vec![two]), Ok(true));
    assert_eq!(verify_checked(&env, &key, &proof, &vec![one]), Ok(false));
    // An input of the wrong length is an invalid encoding.
    assert_eq!(verify_checked(&env, &key, &proof, &vec![vec![2u8; 31]]), Err(Error::InvalidEncoding));
}
