use groth16::constraints::{
    BooleanInputVar, Groth16VerifierGadget, PreparedVerifyingKeyVar, ProofVar, VerifyingKeyVar,
};
use groth16::data::{PreparedVerifyingKey, Proof, VerifyingKey};
use groth16::errors::SynthesisError;
use groth16::mock::{MockConstraintSystem, MockPairing, COFACTOR, GROUP_ORDER, SUBGROUP_ORDER};
use groth16::pairing::AllocationMode;
use groth16::r1cs_to_qap::LibsnarkReduction;

type TestSNARKGadget = Groth16VerifierGadget<MockPairing, LibsnarkReduction>;

/// Embeds a subgroup coordinate into the model group.
fn embed(k: u64) -> u64 {
    (k % SUBGROUP_ORDER) * COFACTOR
}

/// Negates a model group element.
fn neg(x: u64) -> u64 {
    (GROUP_ORDER - x % GROUP_ORDER) % GROUP_ORDER
}

/// The bits of a scalar, least significant first.
fn bits_le(x: u64) -> Vec<bool> {
    let mut out = Vec::new();
    let mut v = x;
    for _ in 0..16 {
        out.push(v & 1 == 1);
        v >>= 1;
    }
    out
}

/// A verifying key with the given subgroup coordinates.
fn make_vk(a1: u64, b1: u64, c1: u64, d1: u64, ks: &[u64]) -> VerifyingKey<MockPairing> {
    VerifyingKey {
        alpha_g1: embed(a1),
        beta_g2: embed(b1),
        gamma_g2: embed(c1),
        delta_g2: embed(d1),
        gamma_abc_g1: ks.iter().map(|k| embed(*k)).collect(),
    }
}

/// Solves the verification equation for the coordinate of `C`, given
/// `delta = 1`: the triple then satisfies
/// `e(A,B) = e(alpha,beta) * e(g_ic,gamma) * e(C,delta)`.
fn solve_c(a1: u64, b1: u64, c1: u64, big_a: u64, big_b: u64, g: u64) -> u64 {
    let q = SUBGROUP_ORDER;
    ((big_a * big_b) % q + (g * ((q - c1 % q) % q)) % q + q - (a1 * b1) % q) % q
}

/// The model verifier's own check, over subgroup coordinates.
fn native_check(a1: u64, b1: u64, c1: u64, d1: u64, big_a: u64, big_b: u64, big_c: u64, g: u64) -> bool {
    let q = SUBGROUP_ORDER;
    let lhs = ((big_a * big_b) % q + (g * ((q - c1 % q) % q)) % q + (big_c * ((q - d1 % q) % q)) % q) % q;
    lhs == (a1 * b1) % q
}

#[test]
fn groth16_snark_test() {
    let q = SUBGROUP_ORDER;
    // The relation a * b = c with witness (a, b) and public input c.
    let a: u64 = 1234;
    let b: u64 = 517;
    let c = (a * b) % q;

    // Key coordinates and a proof satisfying the verification equation.
    let (a1, b1, c1, d1) = (3u64, 5u64, 7u64, 1u64);
    let (k0, k1) = (11u64, 13u64);
    let g = (k0 + k1 * c) % q;
    let (big_a, big_b) = (2u64, 9u64);
    let big_c = solve_c(a1, b1, c1, big_a, big_b, g);
    assert!(
        native_check(a1, b1, c1, d1, big_a, big_b, big_c, g),
        "The native verification check fails."
    );

    let vk = make_vk(a1, b1, c1, d1, &[k0, k1]);
    let proof = Proof::<MockPairing> { a: embed(big_a), b: embed(big_b), c: embed(big_c) };

    let mut cs = MockConstraintSystem::new();
    let input_gadget =
        BooleanInputVar::<MockPairing>::new_input(&mut cs, &vec![bits_le(c)]).unwrap();
    let proof_gadget =
        ProofVar::<MockPairing>::new_variable(&mut cs, Ok(proof), AllocationMode::Witness)
            .unwrap();
    let vk_gadget =
        VerifyingKeyVar::<MockPairing>::new_variable(&mut cs, Ok(vk), AllocationMode::Constant)
            .unwrap();
    let verified = TestSNARKGadget::verify(&vk_gadget, &input_gadget, &proof_gadget).unwrap();
    assert!(verified, "Constraints not satisfied: the verification boolean is false.");

    // The same verification against a natively preprocessed key.
    let pvk = PreparedVerifyingKey::<MockPairing> {
        alpha_g1_beta_g2: (a1 * b1) % q,
        gamma_g2_neg_pc: neg(embed(c1)),
        delta_g2_neg_pc: neg(embed(d1)),
        vk: make_vk(a1, b1, c1, d1, &[k0, k1]),
    };
    let pvk_gadget = PreparedVerifyingKeyVar::<MockPairing>::new_variable(
        &mut cs,
        Ok(pvk),
        AllocationMode::Constant,
    )
    .unwrap();
    let verified =
        TestSNARKGadget::verify_with_processed_vk(&pvk_gadget, &input_gadget, &proof_gadget)
            .unwrap();
    assert!(verified, "Constraints not satisfied: the processed-key boolean is false.");
}

#[test]
fn verify_rejects_wrong_public_input() {
    let q = SUBGROUP_ORDER;
    let a: u64 = 1234;
    let b: u64 = 517;
    let c = (a * b) % q;
    let (a1, b1, c1, d1) = (3u64, 5u64, 7u64, 1u64);
    let (k0, k1) = (11u64, 13u64);
    let g = (k0 + k1 * c) % q;
    let (big_a, big_b) = (2u64, 9u64);
    let big_c = solve_c(a1, b1, c1, big_a, big_b, g);

    let vk = make_vk(a1, b1, c1, d1, &[k0, k1]);
    let proof = Proof::<MockPairing> { a: embed(big_a), b: embed(big_b), c: embed(big_c) };

    let mut cs = MockConstraintSystem::new();
    let wrong = (c + 1) % q;
    let input_gadget =
        BooleanInputVar::<MockPairing>::new_input(&mut cs, &vec![bits_le(wrong)]).unwrap();
    let proof_gadget =
        ProofVar::<MockPairing>::new_variable(&mut cs, Ok(proof), AllocationMode::Witness)
            .unwrap();
    let vk_gadget =
        VerifyingKeyVar::<MockPairing>::new_variable(&mut cs, Ok(vk), AllocationMode::Constant)
            .unwrap();
    let verified = TestSNARKGadget::verify(&vk_gadget, &input_gadget, &proof_gadget).unwrap();
    assert!(!verified);
}

#[test]
fn verify_rejects_tampered_proof() {
    let q = SUBGROUP_ORDER;
    let c: u64 = 4242;
    let (a1, b1, c1, d1) = (3u64, 5u64, 7u64, 1u64);
    let (k0, k1) = (11u64, 13u64);
    let g = (k0 + k1 * c) % q;
    let (big_a, big_b) = (2u64, 9u64);
    let big_c = solve_c(a1, b1, c1, big_a, big_b, g);

    let vk = make_vk(a1, b1, c1, d1, &[k0, k1]);
    // The A element is replaced by another subgroup point.
    let tampered =
        Proof::<MockPairing> { a: embed(big_a + 1), b: embed(big_b), c: embed(big_c) };

    let mut cs = MockConstraintSystem::new();
    let input_gadget =
        BooleanInputVar::<MockPairing>::new_input(&mut cs, &vec![bits_le(c)]).unwrap();
    let proof_gadget =
        ProofVar::<MockPairing>::new_variable(&mut cs, Ok(tampered), AllocationMode::Witness)
            .unwrap();
    let vk_gadget =
        VerifyingKeyVar::<MockPairing>::new_variable(&mut cs, Ok(vk), AllocationMode::Constant)
            .unwrap();
    let verified = TestSNARKGadget::verify(&vk_gadget, &input_gadget, &proof_gadget).unwrap();
    assert!(!verified);
}

#[test]
fn prepared_and_unprepared_verification_agree() {
    let q = SUBGROUP_ORDER;
    let c: u64 = 2026;
    let (a1, b1, c1, d1) = (17u64, 19u64, 23u64, 1u64);
    let (k0, k1) = (29u64, 31u64);
    let g = (k0 + k1 * c) % q;
    let (big_a, big_b) = (37u64, 41u64);
    let big_c = solve_c(a1, b1, c1, big_a, big_b, g);

    let vk = make_vk(a1, b1, c1, d1, &[k0, k1]);
    let proof = Proof::<MockPairing> { a: embed(big_a), b: embed(big_b), c: embed(big_c) };

    let mut cs = MockConstraintSystem::new();
    let proof_gadget =
        ProofVar::<MockPairing>::new_variable(&mut cs, Ok(proof), AllocationMode::Witness)
            .unwrap();
    let vk_gadget =
        VerifyingKeyVar::<MockPairing>::new_variable(&mut cs, Ok(vk), AllocationMode::Constant)
            .unwrap();
    let pvk_gadget = vk_gadget.prepare().unwrap();

    for input in [c, (c + 1) % q, 0] {
        let input_gadget =
            BooleanInputVar::<MockPairing>::new_input(&mut cs, &vec![bits_le(input)]).unwrap();
        let direct =
            TestSNARKGadget::verify(&vk_gadget, &input_gadget, &proof_gadget).unwrap();
        let processed =
            TestSNARKGadget::verify_with_processed_vk(&pvk_gadget, &input_gadget, &proof_gadget)
                .unwrap();
        assert_eq!(direct, processed);
    }
}

#[test]
fn verify_rejects_input_length_mismatch() {
    let (a1, b1, c1, d1) = (3u64, 5u64, 7u64, 1u64);
    let vk = make_vk(a1, b1, c1, d1, &[11, 13]);
    let proof = Proof::<MockPairing> { a: embed(2), b: embed(9), c: embed(4) };

    let mut cs = MockConstraintSystem::new();
    let proof_gadget =
        ProofVar::<MockPairing>::new_variable(&mut cs, Ok(proof), AllocationMode::Witness)
            .unwrap();
    let vk_gadget =
        VerifyingKeyVar::<MockPairing>::new_variable(&mut cs, Ok(vk), AllocationMode::Constant)
            .unwrap();
    let pvk_gadget = vk_gadget.prepare().unwrap();

    // Two inputs where the key admits exactly one.
    let too_many =
        BooleanInputVar::<MockPairing>::new_input(&mut cs, &vec![bits_le(1), bits_le(2)])
            .unwrap();
    let r = TestSNARKGadget::verify(&vk_gadget, &too_many, &proof_gadget);
    assert_eq!(r, Err(SynthesisError::InputLengthMismatch));
    let r = TestSNARKGadget::verify_with_processed_vk(&pvk_gadget, &too_many, &proof_gadget);
    assert_eq!(r, Err(SynthesisError::InputLengthMismatch));

    // No input where the key admits exactly one.
    let too_few = BooleanInputVar::<MockPairing>::new_input(&mut cs, &vec![]).unwrap();
    let r = TestSNARKGadget::verify(&vk_gadget, &too_few, &proof_gadget);
    assert_eq!(r, Err(SynthesisError::InputLengthMismatch));
    let r = TestSNARKGadget::verify_with_processed_vk(&pvk_gadget, &too_few, &proof_gadget);
    assert_eq!(r, Err(SynthesisError::InputLengthMismatch));
}

#[test]
fn verify_rejects_empty_key() {
    let vk = make_vk(3, 5, 7, 1, &[]);
    let proof = Proof::<MockPairing> { a: embed(2), b: embed(9), c: embed(4) };

    let mut cs = MockConstraintSystem::new();
    let proof_gadget =
        ProofVar::<MockPairing>::new_variable(&mut cs, Ok(proof), AllocationMode::Witness)
            .unwrap();
    let vk_gadget =
        VerifyingKeyVar::<MockPairing>::new_variable(&mut cs, Ok(vk), AllocationMode::Constant)
            .unwrap();
    let input_gadget = BooleanInputVar::<MockPairing>::new_input(&mut cs, &vec![]).unwrap();
    let r = TestSNARKGadget::verify(&vk_gadget, &input_gadget, &proof_gadget);
    assert_eq!(r, Err(SynthesisError::InputLengthMismatch));
}

#[test]
fn verify_accepts_multiple_public_inputs() {
    let q = SUBGROUP_ORDER;
    let (x1, x2) = (77u64, 4095u64);
    let (a1, b1, c1, d1) = (3u64, 5u64, 7u64, 1u64);
    let (k0, k1, k2) = (11u64, 13u64, 57u64);
    let g = (k0 + k1 * x1 + (k2 * x2) % q) % q;
    let (big_a, big_b) = (2u64, 9u64);
    let big_c = solve_c(a1, b1, c1, big_a, big_b, g);

    let vk = make_vk(a1, b1, c1, d1, &[k0, k1, k2]);
    let proof = Proof::<MockPairing> { a: embed(big_a), b: embed(big_b), c: embed(big_c) };

    let mut cs = MockConstraintSystem::new();
    let input_gadget =
        BooleanInputVar::<MockPairing>::new_input(&mut cs, &vec![bits_le(x1), bits_le(x2)])
            .unwrap();
    let proof_gadget =
        ProofVar::<MockPairing>::new_variable(&mut cs, Ok(proof), AllocationMode::Witness)
            .unwrap();
    let vk_gadget =
        VerifyingKeyVar::<MockPairing>::new_variable(&mut cs, Ok(vk), AllocationMode::Constant)
            .unwrap();
    let verified = TestSNARKGadget::verify(&vk_gadget, &input_gadget, &proof_gadget).unwrap();
    assert!(verified);
}
