use crate::pairing::{g1_affine_vals, PairingVar};
use vstd::prelude::*;

verus! {

/// A native Groth16 proof: three elliptic-curve points produced by the
/// prover.  Immutable once produced; consumed to allocate a
/// [`crate::constraints::ProofVar`].
#[verifier::reject_recursive_types(P)]
pub struct Proof<P: PairingVar> {
    /// The `A` element in the first group.
    pub a: P::G1Affine,
    /// The `B` element in the second group.
    pub b: P::G2Affine,
    /// The `C` element in the first group.
    pub c: P::G1Affine,
}

/// A native Groth16 verifying key.
#[verifier::reject_recursive_types(P)]
pub struct VerifyingKey<P: PairingVar> {
    /// The `alpha` element in the first group.
    pub alpha_g1: P::G1Affine,
    /// The `beta` element in the second group.
    pub beta_g2: P::G2Affine,
    /// The `gamma` element in the second group.
    pub gamma_g2: P::G2Affine,
    /// The `delta` element in the second group.
    pub delta_g2: P::G2Affine,
    /// The input-commitment bases: one first-group element per public input,
    /// preceded by the constant term at index zero.
    pub gamma_abc_g1: Vec<P::G1Affine>,
}

impl<P: PairingVar> VerifyingKey<P> {
    /// The abstract values of the `gamma_abc_g1` sequence.
    pub open spec fn gamma_abc_vals(self) -> Seq<int> {
        g1_affine_vals::<P>(self.gamma_abc_g1@)
    }
}

/// A native Groth16 verifying key preprocessed for repeated verification:
/// the fixed pairing product of `alpha` and `beta`, the prepared negations
/// of `gamma` and `delta`, and the verifying key itself.
#[verifier::reject_recursive_types(P)]
pub struct PreparedVerifyingKey<P: PairingVar> {
    /// The pairing of `alpha` and `beta`.
    pub alpha_g1_beta_g2: P::TargetField,
    /// The prepared form of the negation of `gamma`.
    pub gamma_g2_neg_pc: P::G2Prepared,
    /// The prepared form of the negation of `delta`.
    pub delta_g2_neg_pc: P::G2Prepared,
    /// The verifying key the preprocessed parts were derived from.
    pub vk: VerifyingKey<P>,
}

} // verus!
