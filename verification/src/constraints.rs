use crate::data::{PreparedVerifyingKey, Proof, VerifyingKey};
use crate::errors::SynthesisError;
use crate::pairing::{
    bool_vals, fp_vals, g1_affine_vals, g1_vals, input_bit_vals, u8_vals, AllocationMode,
    PairingVar,
};
use crate::r1cs_to_qap::R1CSToQAP;
use vstd::prelude::*;

verus! {

/// The circuit representation of a Groth16 proof.
#[verifier::reject_recursive_types(P)]
pub struct ProofVar<P: PairingVar> {
    /// The `A` element in the first group.
    pub a: P::G1Var,
    /// The `B` element in the second group.
    pub b: P::G2Var,
    /// The `C` element in the first group.
    pub c: P::G1Var,
}

/// The circuit representation of a Groth16 verifying key, mirroring the
/// native key field for field.
#[verifier::reject_recursive_types(P)]
pub struct VerifyingKeyVar<P: PairingVar> {
    /// The `alpha` element in the first group.
    pub alpha_g1: P::G1Var,
    /// The `beta` element in the second group.
    pub beta_g2: P::G2Var,
    /// The `gamma` element in the second group.
    pub gamma_g2: P::G2Var,
    /// The `delta` element in the second group.
    pub delta_g2: P::G2Var,
    /// The input-commitment bases, constant term first.
    pub gamma_abc_g1: Vec<P::G1Var>,
}

/// The circuit representation of a preprocessed Groth16 verifying key: one
/// fixed pairing product, two prepared negated second-group elements, and
/// the input-commitment bases.  Built once per key by
/// [`VerifyingKeyVar::prepare`] and reused across verifications.
#[verifier::reject_recursive_types(P)]
pub struct PreparedVerifyingKeyVar<P: PairingVar> {
    /// The pairing of `alpha` and `beta`.
    pub alpha_g1_beta_g2: P::GTVar,
    /// The prepared form of the negation of `gamma`.
    pub gamma_g2_neg_pc: P::G2PreparedVar,
    /// The prepared form of the negation of `delta`.
    pub delta_g2_neg_pc: P::G2PreparedVar,
    /// The input-commitment bases, constant term first.
    pub gamma_abc_g1: Vec<P::G1Var>,
}

/// The public inputs of the circuit being verified, each decomposed into its
/// bit sequence, least significant bit first.
#[verifier::reject_recursive_types(P)]
pub struct BooleanInputVar<P: PairingVar> {
    /// One bit sequence per public input.
    pub val: Vec<Vec<P::BooleanVar>>,
}

impl<P: PairingVar> ProofVar<P> {
    /// The abstract value of the `A` element.
    pub open spec fn a_val(self) -> int {
        P::g1_val(self.a)
    }

    /// The abstract value of the `B` element.
    pub open spec fn b_val(self) -> int {
        P::g2_val(self.b)
    }

    /// The abstract value of the `C` element.
    pub open spec fn c_val(self) -> int {
        P::g1_val(self.c)
    }
}

impl<P: PairingVar> VerifyingKeyVar<P> {
    /// The abstract value of `alpha`.
    pub open spec fn alpha_val(self) -> int {
        P::g1_val(self.alpha_g1)
    }

    /// The abstract value of `beta`.
    pub open spec fn beta_val(self) -> int {
        P::g2_val(self.beta_g2)
    }

    /// The abstract value of `gamma`.
    pub open spec fn gamma_val(self) -> int {
        P::g2_val(self.gamma_g2)
    }

    /// The abstract value of `delta`.
    pub open spec fn delta_val(self) -> int {
        P::g2_val(self.delta_g2)
    }

    /// The abstract values of the input-commitment bases.
    pub open spec fn gamma_abc_vals(self) -> Seq<int> {
        g1_vals::<P>(self.gamma_abc_g1@)
    }
}

impl<P: PairingVar> PreparedVerifyingKeyVar<P> {
    /// The abstract value of the fixed pairing product.
    pub open spec fn alpha_beta_val(self) -> int {
        P::gt_val(self.alpha_g1_beta_g2)
    }

    /// The abstract value of the prepared negated `gamma`.
    pub open spec fn gamma_neg_val(self) -> int {
        P::g2_prepared_val(self.gamma_g2_neg_pc)
    }

    /// The abstract value of the prepared negated `delta`.
    pub open spec fn delta_neg_val(self) -> int {
        P::g2_prepared_val(self.delta_g2_neg_pc)
    }

    /// The abstract values of the input-commitment bases.
    pub open spec fn gamma_abc_vals(self) -> Seq<int> {
        g1_vals::<P>(self.gamma_abc_g1@)
    }
}

impl<P: PairingVar> BooleanInputVar<P> {
    /// The bit sequences of the public inputs, one per input, least
    /// significant bit first.
    pub open spec fn input_vals(self) -> Seq<Seq<bool>> {
        input_bit_vals::<P>(self.val@)
    }
}

impl<P: PairingVar> Clone for ProofVar<P> {
    /// Duplicates the proof variable's handles without allocating new
    /// circuit variables; the values are kept.
    fn clone(&self) -> (r: Self)
        ensures
            r.a_val() == self.a_val(),
            r.b_val() == self.b_val(),
            r.c_val() == self.c_val(),
    {
        ProofVar { a: P::clone_g1(&self.a), b: P::clone_g2(&self.b), c: P::clone_g1(&self.c) }
    }
}

impl<P: PairingVar> Clone for VerifyingKeyVar<P> {
    /// Duplicates the key variable's handles without allocating new circuit
    /// variables; the values are kept.
    fn clone(&self) -> (r: Self)
        ensures
            r.alpha_val() == self.alpha_val(),
            r.beta_val() == self.beta_val(),
            r.gamma_val() == self.gamma_val(),
            r.delta_val() == self.delta_val(),
            r.gamma_abc_vals() == self.gamma_abc_vals(),
    {
        VerifyingKeyVar {
            alpha_g1: P::clone_g1(&self.alpha_g1),
            beta_g2: P::clone_g2(&self.beta_g2),
            gamma_g2: P::clone_g2(&self.gamma_g2),
            delta_g2: P::clone_g2(&self.delta_g2),
            gamma_abc_g1: clone_g1_vec::<P>(&self.gamma_abc_g1),
        }
    }
}

impl<P: PairingVar> Clone for PreparedVerifyingKeyVar<P> {
    /// Duplicates the preprocessed key's handles without allocating new
    /// circuit variables; the values are kept, so one preparation can be
    /// reused across many verifications.
    fn clone(&self) -> (r: Self)
        ensures
            r.alpha_beta_val() == self.alpha_beta_val(),
            r.gamma_neg_val() == self.gamma_neg_val(),
            r.delta_neg_val() == self.delta_neg_val(),
            r.gamma_abc_vals() == self.gamma_abc_vals(),
    {
        PreparedVerifyingKeyVar {
            alpha_g1_beta_g2: P::clone_gt(&self.alpha_g1_beta_g2),
            gamma_g2_neg_pc: P::clone_g2_prepared(&self.gamma_g2_neg_pc),
            delta_g2_neg_pc: P::clone_g2_prepared(&self.delta_g2_neg_pc),
            gamma_abc_g1: clone_g1_vec::<P>(&self.gamma_abc_g1),
        }
    }
}

impl<P: PairingVar> Clone for BooleanInputVar<P> {
    /// Duplicates the input bits' handles without allocating new circuit
    /// variables; the bit values are kept.
    fn clone(&self) -> (r: Self)
        ensures
            r.input_vals() == self.input_vals(),
    {
        let mut val: Vec<Vec<P::BooleanVar>> = Vec::new();
        let n = self.val.len();
        for i in 0..n
            invariant
                n == self.val@.len(),
                val@.len() == i,
                forall|j: int| 0 <= j < i ==> bool_vals::<P>(#[trigger] val@[j]@) == bool_vals::<
                    P,
                >(self.val@[j]@),
        {
            let row = &self.val[i];
            let mut out_row: Vec<P::BooleanVar> = Vec::new();
            let m = row.len();
            for k in 0..m
                invariant
                    m == row@.len(),
                    out_row@.len() == k,
                    forall|j: int| 0 <= j < k ==> P::bool_val(#[trigger] out_row@[j])
                        == P::bool_val(row@[j]),
            {
                out_row.push(P::clone_boolean(&row[k]));
            }
            proof {
                assert(bool_vals::<P>(out_row@) =~= bool_vals::<P>(row@));
            }
            val.push(out_row);
        }
        let out = BooleanInputVar { val };
        proof {
            assert(out.input_vals() =~= self.input_vals());
        }
        out
    }
}

/// The value of the public-input commitment: the constant term
/// `gamma_abc[0]` plus, for each public input in order, the matching base
/// multiplied by the input's bits.
pub open spec fn ic_val<P: PairingVar>(gamma_abc: Seq<int>, inputs: Seq<Seq<bool>>) -> int
    recommends
        gamma_abc.len() == inputs.len() + 1,
    decreases inputs.len(),
{
    if inputs.len() == 0 {
        gamma_abc[0]
    } else {
        P::g1_add_val(
            ic_val::<P>(gamma_abc.drop_last(), inputs.drop_last()),
            P::g1_scalar_mul_val(gamma_abc.last(), inputs.last()),
        )
    }
}

/// Groth16's verification equation over abstract values, in the form the
/// circuit checks it: one Miller loop over the pairs `(A, B)`,
/// `(g_ic, -gamma)` and `(C, -delta)`, one final exponentiation, and an
/// equality test against the fixed pairing of `alpha` and `beta`.  The
/// negated `gamma` and `delta` fold the denominator terms into the single
/// product, so that one final exponentiation replaces a division.
pub open spec fn groth16_equation_holds<P: PairingVar>(
    alpha_g1_beta_g2: int,
    gamma_g2_neg_pc: int,
    delta_g2_neg_pc: int,
    gamma_abc: Seq<int>,
    inputs: Seq<Seq<bool>>,
    a: int,
    b: int,
    c: int,
) -> bool {
    P::final_exponentiation_val(
        P::miller_loop_val(
            P::g1_prepare_val(a),
            P::g2_prepare_val(b),
            P::g1_prepare_val(ic_val::<P>(gamma_abc, inputs)),
            gamma_g2_neg_pc,
            P::g1_prepare_val(c),
            delta_g2_neg_pc,
        ),
    ) == alpha_g1_beta_g2
}

impl<P: PairingVar> VerifyingKeyVar<P> {
    /// Prepares `self` for use in proof verification: pairs `alpha` with
    /// `beta`, negates and prepares `gamma` and `delta`, and carries the
    /// input-commitment bases over unchanged.
    pub fn prepare(&self) -> (r: Result<PreparedVerifyingKeyVar<P>, SynthesisError>)
        ensures
            r matches Ok(pvk) ==> {
                &&& pvk.alpha_beta_val() == P::pairing_val(
                    P::g1_prepare_val(self.alpha_val()),
                    P::g2_prepare_val(self.beta_val()),
                )
                &&& pvk.gamma_neg_val() == P::g2_prepare_val(P::g2_neg_val(self.gamma_val()))
                &&& pvk.delta_neg_val() == P::g2_prepare_val(P::g2_neg_val(self.delta_val()))
                &&& pvk.gamma_abc_vals() == self.gamma_abc_vals()
            },
    {
        let alpha_g1_pc = P::prepare_g1(&self.alpha_g1)?;
        let beta_g2_pc = P::prepare_g2(&self.beta_g2)?;
        let alpha_g1_beta_g2 = P::pairing(&alpha_g1_pc, &beta_g2_pc)?;
        let gamma_g2_neg = P::g2_negate(&self.gamma_g2)?;
        let gamma_g2_neg_pc = P::prepare_g2(&gamma_g2_neg)?;
        let delta_g2_neg = P::g2_negate(&self.delta_g2)?;
        let delta_g2_neg_pc = P::prepare_g2(&delta_g2_neg)?;
        let gamma_abc_g1 = clone_g1_vec::<P>(&self.gamma_abc_g1);
        Ok(
            PreparedVerifyingKeyVar {
                alpha_g1_beta_g2,
                gamma_g2_neg_pc,
                delta_g2_neg_pc,
                gamma_abc_g1,
            },
        )
    }
}

impl<P: PairingVar> ProofVar<P> {
    /// Allocates a proof in the constraint system under the given mode,
    /// enforcing the prime-order subgroup checks on all three points.  A
    /// failed producer is propagated before any variable is allocated.
    pub fn new_variable(
        cs: &mut P::Cs,
        f: Result<Proof<P>, SynthesisError>,
        mode: AllocationMode,
    ) -> (r: Result<Self, SynthesisError>)
        ensures
            f matches Err(e) ==> r == Err::<Self, SynthesisError>(e),
            r matches Ok(pv) ==> f matches Ok(p) && {
                &&& pv.a_val() == P::g1_affine_val(p.a) && P::g1_in_subgroup(pv.a_val())
                &&& pv.b_val() == P::g2_affine_val(p.b) && P::g2_in_subgroup(pv.b_val())
                &&& pv.c_val() == P::g1_affine_val(p.c) && P::g1_in_subgroup(pv.c_val())
            },
    {
        let pf = match f {
            Ok(pf) => pf,
            Err(e) => return Err(e),
        };
        let a = P::alloc_g1_checked(cs, &pf.a, mode)?;
        let b = P::alloc_g2_checked(cs, &pf.b, mode)?;
        let c = P::alloc_g1_checked(cs, &pf.c, mode)?;
        Ok(ProofVar { a, b, c })
    }
}

impl<P: PairingVar> VerifyingKeyVar<P> {
    /// Allocates a verifying key in the constraint system under the given
    /// mode, enforcing the prime-order subgroup checks on every point.  A
    /// failed producer is propagated before any variable is allocated.
    pub fn new_variable(
        cs: &mut P::Cs,
        f: Result<VerifyingKey<P>, SynthesisError>,
        mode: AllocationMode,
    ) -> (r: Result<Self, SynthesisError>)
        ensures
            f matches Err(e) ==> r == Err::<Self, SynthesisError>(e),
            r matches Ok(vkv) ==> f matches Ok(vk) && {
                &&& vkv.alpha_val() == P::g1_affine_val(vk.alpha_g1) && P::g1_in_subgroup(
                    vkv.alpha_val(),
                )
                &&& vkv.beta_val() == P::g2_affine_val(vk.beta_g2) && P::g2_in_subgroup(
                    vkv.beta_val(),
                )
                &&& vkv.gamma_val() == P::g2_affine_val(vk.gamma_g2) && P::g2_in_subgroup(
                    vkv.gamma_val(),
                )
                &&& vkv.delta_val() == P::g2_affine_val(vk.delta_g2) && P::g2_in_subgroup(
                    vkv.delta_val(),
                )
                &&& vkv.gamma_abc_vals() == vk.gamma_abc_vals()
                &&& forall|j: int|
                    0 <= j < vkv.gamma_abc_vals().len() ==> P::g1_in_subgroup(
                        #[trigger] vkv.gamma_abc_vals()[j],
                    )
            },
    {
        let vk = match f {
            Ok(vk) => vk,
            Err(e) => return Err(e),
        };
        let alpha_g1 = P::alloc_g1_checked(cs, &vk.alpha_g1, mode)?;
        let beta_g2 = P::alloc_g2_checked(cs, &vk.beta_g2, mode)?;
        let gamma_g2 = P::alloc_g2_checked(cs, &vk.gamma_g2, mode)?;
        let delta_g2 = P::alloc_g2_checked(cs, &vk.delta_g2, mode)?;
        let gamma_abc_g1 = alloc_g1_vec_checked::<P>(cs, &vk.gamma_abc_g1, mode)?;
        Ok(VerifyingKeyVar { alpha_g1, beta_g2, gamma_g2, delta_g2, gamma_abc_g1 })
    }
}

impl<P: PairingVar> PreparedVerifyingKeyVar<P> {
    /// Allocates a preprocessed verifying key in the constraint system
    /// under the given mode.  The derived fields are structurally different
    /// objects with their own validity requirements, so allocation always
    /// takes the checked path.  A failed producer is propagated before any
    /// variable is allocated.
    pub fn new_variable(
        cs: &mut P::Cs,
        f: Result<PreparedVerifyingKey<P>, SynthesisError>,
        mode: AllocationMode,
    ) -> (r: Result<Self, SynthesisError>)
        ensures
            f matches Err(e) ==> r == Err::<Self, SynthesisError>(e),
            r matches Ok(pvkv) ==> f matches Ok(pvk) && {
                &&& pvkv.alpha_beta_val() == P::target_field_val(pvk.alpha_g1_beta_g2)
                &&& pvkv.gamma_neg_val() == P::g2_prepared_native_val(pvk.gamma_g2_neg_pc)
                &&& pvkv.delta_neg_val() == P::g2_prepared_native_val(pvk.delta_g2_neg_pc)
                &&& pvkv.gamma_abc_vals() == pvk.vk.gamma_abc_vals()
                &&& forall|j: int|
                    0 <= j < pvkv.gamma_abc_vals().len() ==> P::g1_in_subgroup(
                        #[trigger] pvkv.gamma_abc_vals()[j],
                    )
            },
    {
        let pvk = match f {
            Ok(pvk) => pvk,
            Err(e) => return Err(e),
        };
        let alpha_g1_beta_g2 = P::alloc_gt(cs, &pvk.alpha_g1_beta_g2, mode)?;
        let gamma_g2_neg_pc = P::alloc_g2_prepared(cs, &pvk.gamma_g2_neg_pc, mode)?;
        let delta_g2_neg_pc = P::alloc_g2_prepared(cs, &pvk.delta_g2_neg_pc, mode)?;
        let gamma_abc_g1 = alloc_g1_vec_checked::<P>(cs, &pvk.vk.gamma_abc_g1, mode)?;
        Ok(
            PreparedVerifyingKeyVar {
                alpha_g1_beta_g2,
                gamma_g2_neg_pc,
                delta_g2_neg_pc,
                gamma_abc_g1,
            },
        )
    }
}

impl<P: PairingVar> BooleanInputVar<P> {
    /// Allocates the public inputs in the constraint system under the given
    /// mode, bit by bit, keeping each input's bit sequence.
    pub fn new_variable(cs: &mut P::Cs, bits: &Vec<Vec<bool>>, mode: AllocationMode) -> (r: Result<
        Self,
        SynthesisError,
    >)
        ensures
            r matches Ok(iv) ==> iv.input_vals() == bits@.map_values(|v: Vec<bool>| v@),
            (forall|j: int| 0 <= j < bits@.len() ==> (#[trigger] bits@[j])@.len() == 0) ==> r
                is Ok,
    {
        let mut val: Vec<Vec<P::BooleanVar>> = Vec::new();
        let n = bits.len();
        for i in 0..n
            invariant
                n == bits@.len(),
                val@.len() == i,
                forall|j: int| 0 <= j < i ==> bool_vals::<P>(#[trigger] val@[j]@) == bits@[j]@,
        {
            let row = &bits[i];
            let mut out_row: Vec<P::BooleanVar> = Vec::new();
            let m = row.len();
            for k in 0..m
                invariant
                    n == bits@.len(),
                    i < n,
                    row@ == bits@[i as int]@,
                    m == row@.len(),
                    out_row@.len() == k,
                    forall|j: int| 0 <= j < k ==> P::bool_val(#[trigger] out_row@[j]) == row@[j],
            {
                let b = match P::alloc_boolean(cs, row[k], mode) {
                    Ok(b) => b,
                    Err(e) => return Err(e),
                };
                out_row.push(b);
            }
            proof {
                assert(bool_vals::<P>(out_row@) =~= row@);
            }
            val.push(out_row);
        }
        let iv = BooleanInputVar { val };
        proof {
            assert(iv.input_vals() =~= bits@.map_values(|v: Vec<bool>| v@));
        }
        Ok(iv)
    }

    /// Allocates the public inputs as public inputs of the circuit.
    pub fn new_input(cs: &mut P::Cs, bits: &Vec<Vec<bool>>) -> (r: Result<Self, SynthesisError>)
        ensures
            r matches Ok(iv) ==> iv.input_vals() == bits@.map_values(|v: Vec<bool>| v@),
            (forall|j: int| 0 <= j < bits@.len() ==> (#[trigger] bits@[j])@.len() == 0) ==> r
                is Ok,
    {
        Self::new_variable(cs, bits, AllocationMode::Input)
    }
}

/// Allocates every element of a sequence of native first-group elements
/// under the checked path, keeping order and values.
fn alloc_g1_vec_checked<P: PairingVar>(
    cs: &mut P::Cs,
    points: &Vec<P::G1Affine>,
    mode: AllocationMode,
) -> (r: Result<Vec<P::G1Var>, SynthesisError>)
    ensures
        r matches Ok(v) ==> g1_vals::<P>(v@) == g1_affine_vals::<P>(points@),
        r matches Ok(v) ==> forall|j: int|
            0 <= j < v@.len() ==> P::g1_in_subgroup(P::g1_val(#[trigger] v@[j])),
{
    let mut out: Vec<P::G1Var> = Vec::new();
    let n = points.len();
    for i in 0..n
        invariant
            n == points@.len(),
            out@.len() == i,
            forall|j: int| 0 <= j < i ==> P::g1_val(#[trigger] out@[j]) == P::g1_affine_val(
                points@[j],
            ),
            forall|j: int| 0 <= j < i ==> P::g1_in_subgroup(P::g1_val(#[trigger] out@[j])),
    {
        let v = match P::alloc_g1_checked(cs, &points[i], mode) {
            Ok(v) => v,
            Err(e) => return Err(e),
        };
        out.push(v);
    }
    proof {
        assert(g1_vals::<P>(out@) =~= g1_affine_vals::<P>(points@));
    }
    Ok(out)
}

/// Duplicates the handles of a sequence of first-group variables, keeping
/// their values; no new circuit variables are allocated.
fn clone_g1_vec<P: PairingVar>(v: &Vec<P::G1Var>) -> (r: Vec<P::G1Var>)
    ensures
        g1_vals::<P>(r@) == g1_vals::<P>(v@),
{
    let mut out: Vec<P::G1Var> = Vec::new();
    let n = v.len();
    for i in 0..n
        invariant
            n == v@.len(),
            out@.len() == i,
            forall|j: int| 0 <= j < i ==> P::g1_val(#[trigger] out@[j]) == P::g1_val(v@[j]),
    {
        out.push(P::clone_g1(&v[i]));
    }
    proof {
        assert(g1_vals::<P>(out@) =~= g1_vals::<P>(v@));
    }
    out
}

/// The canonical byte encoding of the input-commitment bases: each value's
/// encoding in order.
pub open spec fn abc_bytes_val<P: PairingVar>(abc: Seq<int>) -> Seq<u8>
    decreases abc.len(),
{
    if abc.len() == 0 {
        Seq::empty()
    } else {
        abc_bytes_val::<P>(abc.drop_last()) + P::g1_bytes_val(abc.last())
    }
}

/// The sponge byte encoding of the input-commitment bases.
pub open spec fn abc_sponge_bytes_val<P: PairingVar>(abc: Seq<int>) -> Seq<u8>
    decreases abc.len(),
{
    if abc.len() == 0 {
        Seq::empty()
    } else {
        abc_sponge_bytes_val::<P>(abc.drop_last()) + P::g1_sponge_bytes_val(abc.last())
    }
}

/// The field-element encoding of the input-commitment bases.
pub open spec fn abc_sponge_field_val<P: PairingVar>(abc: Seq<int>) -> Seq<int>
    decreases abc.len(),
{
    if abc.len() == 0 {
        Seq::empty()
    } else {
        abc_sponge_field_val::<P>(abc.drop_last()) + P::g1_sponge_field_val(abc.last())
    }
}

/// The canonical byte encoding of a verifying key: the concatenation, in
/// fixed field order, of each element's own canonical encoding.
pub open spec fn vk_bytes_val<P: PairingVar>(
    alpha: int,
    beta: int,
    gamma: int,
    delta: int,
    abc: Seq<int>,
) -> Seq<u8> {
    P::g1_bytes_val(alpha) + P::g2_bytes_val(beta) + P::g2_bytes_val(gamma) + P::g2_bytes_val(
        delta,
    ) + abc_bytes_val::<P>(abc)
}

/// The sponge byte encoding of a verifying key, in the same fixed order.
pub open spec fn vk_sponge_bytes_val<P: PairingVar>(
    alpha: int,
    beta: int,
    gamma: int,
    delta: int,
    abc: Seq<int>,
) -> Seq<u8> {
    P::g1_sponge_bytes_val(alpha) + P::g2_sponge_bytes_val(beta) + P::g2_sponge_bytes_val(gamma)
        + P::g2_sponge_bytes_val(delta) + abc_sponge_bytes_val::<P>(abc)
}

/// The field-element encoding of a verifying key, in the same fixed order.
pub open spec fn vk_sponge_field_val<P: PairingVar>(
    alpha: int,
    beta: int,
    gamma: int,
    delta: int,
    abc: Seq<int>,
) -> Seq<int> {
    P::g1_sponge_field_val(alpha) + P::g2_sponge_field_val(beta) + P::g2_sponge_field_val(gamma)
        + P::g2_sponge_field_val(delta) + abc_sponge_field_val::<P>(abc)
}

proof fn lemma_u8_vals_concat<P: PairingVar>(a: Seq<P::UInt8Var>, b: Seq<P::UInt8Var>)
    ensures
        u8_vals::<P>(a + b) == u8_vals::<P>(a) + u8_vals::<P>(b),
{
    assert(u8_vals::<P>(a + b) =~= u8_vals::<P>(a) + u8_vals::<P>(b));
}

proof fn lemma_fp_vals_concat<P: PairingVar>(a: Seq<P::FpVar>, b: Seq<P::FpVar>)
    ensures
        fp_vals::<P>(a + b) == fp_vals::<P>(a) + fp_vals::<P>(b),
{
    assert(fp_vals::<P>(a + b) =~= fp_vals::<P>(a) + fp_vals::<P>(b));
}

impl<P: PairingVar> VerifyingKeyVar<P> {
    /// Encodes the key as a flat canonical little-endian byte sequence, for
    /// binding it into an external commitment or transcript.  No
    /// normalization beyond each element's own canonical encoding is
    /// performed.
    pub fn to_bytes_le(&self) -> (r: Result<Vec<P::UInt8Var>, SynthesisError>)
        ensures
            r matches Ok(bytes) ==> u8_vals::<P>(bytes@) == vk_bytes_val::<P>(
                self.alpha_val(),
                self.beta_val(),
                self.gamma_val(),
                self.delta_val(),
                self.gamma_abc_vals(),
            ),
    {
        let ghost abc: Seq<int> = self.gamma_abc_vals();
        let mut bytes = P::g1_to_bytes_le(&self.alpha_g1)?;
        let mut t = P::g2_to_bytes_le(&self.beta_g2)?;
        proof {
            lemma_u8_vals_concat::<P>(bytes@, t@);
        }
        bytes.append(&mut t);
        let mut t = P::g2_to_bytes_le(&self.gamma_g2)?;
        proof {
            lemma_u8_vals_concat::<P>(bytes@, t@);
        }
        bytes.append(&mut t);
        let mut t = P::g2_to_bytes_le(&self.delta_g2)?;
        proof {
            lemma_u8_vals_concat::<P>(bytes@, t@);
        }
        bytes.append(&mut t);
        let ghost head: Seq<u8> = u8_vals::<P>(bytes@);
        let n = self.gamma_abc_g1.len();
        for i in 0..n
            invariant
                n == self.gamma_abc_g1@.len(),
                abc == self.gamma_abc_vals(),
                u8_vals::<P>(bytes@) == head + abc_bytes_val::<P>(abc.take(i as int)),
        {
            let mut t = P::g1_to_bytes_le(&self.gamma_abc_g1[i])?;
            proof {
                lemma_u8_vals_concat::<P>(bytes@, t@);
                assert(abc.take(i + 1).drop_last() =~= abc.take(i as int));
                assert(abc.take(i + 1).last() == abc[i as int]);
            }
            bytes.append(&mut t);
        }
        proof {
            assert(abc.take(n as int) =~= abc);
        }
        Ok(bytes)
    }

    /// Encodes the key as sponge bytes, in the same fixed field order.
    pub fn to_sponge_bytes(&self) -> (r: Result<Vec<P::UInt8Var>, SynthesisError>)
        ensures
            r matches Ok(bytes) ==> u8_vals::<P>(bytes@) == vk_sponge_bytes_val::<P>(
                self.alpha_val(),
                self.beta_val(),
                self.gamma_val(),
                self.delta_val(),
                self.gamma_abc_vals(),
            ),
    {
        let ghost abc: Seq<int> = self.gamma_abc_vals();
        let mut bytes = P::g1_to_sponge_bytes(&self.alpha_g1)?;
        let mut t = P::g2_to_sponge_bytes(&self.beta_g2)?;
        proof {
            lemma_u8_vals_concat::<P>(bytes@, t@);
        }
        bytes.append(&mut t);
        let mut t = P::g2_to_sponge_bytes(&self.gamma_g2)?;
        proof {
            lemma_u8_vals_concat::<P>(bytes@, t@);
        }
        bytes.append(&mut t);
        let mut t = P::g2_to_sponge_bytes(&self.delta_g2)?;
        proof {
            lemma_u8_vals_concat::<P>(bytes@, t@);
        }
        bytes.append(&mut t);
        let ghost head: Seq<u8> = u8_vals::<P>(bytes@);
        let n = self.gamma_abc_g1.len();
        for i in 0..n
            invariant
                n == self.gamma_abc_g1@.len(),
                abc == self.gamma_abc_vals(),
                u8_vals::<P>(bytes@) == head + abc_sponge_bytes_val::<P>(abc.take(i as int)),
        {
            let mut t = P::g1_to_sponge_bytes(&self.gamma_abc_g1[i])?;
            proof {
                lemma_u8_vals_concat::<P>(bytes@, t@);
                assert(abc.take(i + 1).drop_last() =~= abc.take(i as int));
                assert(abc.take(i + 1).last() == abc[i as int]);
            }
            bytes.append(&mut t);
        }
        proof {
            assert(abc.take(n as int) =~= abc);
        }
        Ok(bytes)
    }

    /// Encodes the key as a flat sequence of base-field elements, in the
    /// same fixed field order.
    pub fn to_sponge_field_elements(&self) -> (r: Result<Vec<P::FpVar>, SynthesisError>)
        ensures
            r matches Ok(elems) ==> fp_vals::<P>(elems@) == vk_sponge_field_val::<P>(
                self.alpha_val(),
                self.beta_val(),
                self.gamma_val(),
                self.delta_val(),
                self.gamma_abc_vals(),
            ),
    {
        let ghost abc: Seq<int> = self.gamma_abc_vals();
        let mut elems = P::g1_to_sponge_field_elements(&self.alpha_g1)?;
        let mut t = P::g2_to_sponge_field_elements(&self.beta_g2)?;
        proof {
            lemma_fp_vals_concat::<P>(elems@, t@);
        }
        elems.append(&mut t);
        let mut t = P::g2_to_sponge_field_elements(&self.gamma_g2)?;
        proof {
            lemma_fp_vals_concat::<P>(elems@, t@);
        }
        elems.append(&mut t);
        let mut t = P::g2_to_sponge_field_elements(&self.delta_g2)?;
        proof {
            lemma_fp_vals_concat::<P>(elems@, t@);
        }
        elems.append(&mut t);
        let ghost head: Seq<int> = fp_vals::<P>(elems@);
        let n = self.gamma_abc_g1.len();
        for i in 0..n
            invariant
                n == self.gamma_abc_g1@.len(),
                abc == self.gamma_abc_vals(),
                fp_vals::<P>(elems@) == head + abc_sponge_field_val::<P>(abc.take(i as int)),
        {
            let mut t = P::g1_to_sponge_field_elements(&self.gamma_abc_g1[i])?;
            proof {
                lemma_fp_vals_concat::<P>(elems@, t@);
                assert(abc.take(i + 1).drop_last() =~= abc.take(i as int));
                assert(abc.take(i + 1).last() == abc[i as int]);
            }
            elems.append(&mut t);
        }
        proof {
            assert(abc.take(n as int) =~= abc);
        }
        Ok(elems)
    }
}

/// The verifier gadget of the Groth16 SNARK: its associated functions lift
/// native proofs and keys into circuit variables and build the constraints
/// of the verification equation.  `QAP` names the reduction policy the keys
/// were generated under; it has no runtime behaviour here.
#[verifier::reject_recursive_types(P)]
#[verifier::reject_recursive_types(QAP)]
pub struct Groth16VerifierGadget<P: PairingVar, QAP: R1CSToQAP> {
    _pairing_gadget: core::marker::PhantomData<P>,
    _qap: core::marker::PhantomData<QAP>,
}

impl<P: PairingVar, QAP: R1CSToQAP> Groth16VerifierGadget<P, QAP> {
    /// The size of the public-input-bound component of a verifying key: the
    /// length of its `gamma_abc_g1` sequence.  Callers use it to size the
    /// public-input allocation ahead of time.
    pub fn verifier_size(circuit_vk: &VerifyingKey<P>) -> (r: usize)
        ensures
            r == circuit_vk.gamma_abc_g1@.len(),
    {
        circuit_vk.gamma_abc_g1.len()
    }

    /// Allocates a proof in the constraint system without the prime-order
    /// subgroup checks, on the premise that membership is guaranteed
    /// elsewhere; these checks dominate the cost of allocating points
    /// supplied by a possibly untrusted prover.
    pub fn new_proof_unchecked(
        cs: &mut P::Cs,
        f: Result<Proof<P>, SynthesisError>,
        mode: AllocationMode,
    ) -> (r: Result<ProofVar<P>, SynthesisError>)
        ensures
            f matches Err(e) ==> r == Err::<ProofVar<P>, SynthesisError>(e),
            r matches Ok(pv) ==> f matches Ok(p) && {
                &&& pv.a_val() == P::g1_affine_val(p.a)
                &&& pv.b_val() == P::g2_affine_val(p.b)
                &&& pv.c_val() == P::g1_affine_val(p.c)
            },
    {
        let pf = match f {
            Ok(pf) => pf,
            Err(e) => return Err(e),
        };
        let a = P::alloc_g1_unchecked(cs, &pf.a, mode)?;
        let b = P::alloc_g2_unchecked(cs, &pf.b, mode)?;
        let c = P::alloc_g1_unchecked(cs, &pf.c, mode)?;
        Ok(ProofVar { a, b, c })
    }

    /// Allocates a verifying key in the constraint system without the
    /// prime-order subgroup checks.
    pub fn new_verification_key_unchecked(
        cs: &mut P::Cs,
        f: Result<VerifyingKey<P>, SynthesisError>,
        mode: AllocationMode,
    ) -> (r: Result<VerifyingKeyVar<P>, SynthesisError>)
        ensures
            f matches Err(e) ==> r == Err::<VerifyingKeyVar<P>, SynthesisError>(e),
            r matches Ok(vkv) ==> f matches Ok(vk) && {
                &&& vkv.alpha_val() == P::g1_affine_val(vk.alpha_g1)
                &&& vkv.beta_val() == P::g2_affine_val(vk.beta_g2)
                &&& vkv.gamma_val() == P::g2_affine_val(vk.gamma_g2)
                &&& vkv.delta_val() == P::g2_affine_val(vk.delta_g2)
                &&& vkv.gamma_abc_vals() == vk.gamma_abc_vals()
            },
    {
        let vk = match f {
            Ok(vk) => vk,
            Err(e) => return Err(e),
        };
        let alpha_g1 = P::alloc_g1_unchecked(cs, &vk.alpha_g1, mode)?;
        let beta_g2 = P::alloc_g2_unchecked(cs, &vk.beta_g2, mode)?;
        let gamma_g2 = P::alloc_g2_unchecked(cs, &vk.gamma_g2, mode)?;
        let delta_g2 = P::alloc_g2_unchecked(cs, &vk.delta_g2, mode)?;
        let gamma_abc_g1 = alloc_g1_vec_unchecked::<P>(cs, &vk.gamma_abc_g1, mode)?;
        Ok(VerifyingKeyVar { alpha_g1, beta_g2, gamma_g2, delta_g2, gamma_abc_g1 })
    }

    /// Builds the constraints of the verification equation against an
    /// already-preprocessed key and returns the circuit boolean that is true
    /// exactly when the equation holds.  A public-input vector whose length
    /// differs from the length of `gamma_abc_g1` minus one is rejected.
    pub fn verify_with_processed_vk(
        circuit_pvk: &PreparedVerifyingKeyVar<P>,
        x: &BooleanInputVar<P>,
        proof: &ProofVar<P>,
    ) -> (r: Result<P::BooleanVar, SynthesisError>)
        ensures
            x.input_vals().len() + 1 != circuit_pvk.gamma_abc_vals().len() ==> r == Err::<
                P::BooleanVar,
                SynthesisError,
            >(SynthesisError::InputLengthMismatch),
            r matches Ok(verified) ==> {
                &&& x.input_vals().len() + 1 == circuit_pvk.gamma_abc_vals().len()
                &&& P::bool_val(verified) == groth16_equation_holds::<P>(
                    circuit_pvk.alpha_beta_val(),
                    circuit_pvk.gamma_neg_val(),
                    circuit_pvk.delta_neg_val(),
                    circuit_pvk.gamma_abc_vals(),
                    x.input_vals(),
                    proof.a_val(),
                    proof.b_val(),
                    proof.c_val(),
                )
            },
    {
        if circuit_pvk.gamma_abc_g1.len() == 0 || x.val.len() != circuit_pvk.gamma_abc_g1.len()
            - 1 {
            return Err(SynthesisError::InputLengthMismatch);
        }
        let ghost abc: Seq<int> = circuit_pvk.gamma_abc_vals();
        let ghost inputs: Seq<Seq<bool>> = x.input_vals();
        let mut g_ic = P::clone_g1(&circuit_pvk.gamma_abc_g1[0]);
        let n = x.val.len();
        for i in 0..n
            invariant
                n == x.val@.len(),
                circuit_pvk.gamma_abc_g1@.len() == n + 1,
                abc == circuit_pvk.gamma_abc_vals(),
                inputs == x.input_vals(),
                P::g1_val(g_ic) == ic_val::<P>(abc.take(i + 1), inputs.take(i as int)),
        {
            let bits = &x.val[i];
            let base = &circuit_pvk.gamma_abc_g1[i + 1];
            let encoded = match P::g1_scalar_mul_le(base, bits) {
                Ok(v) => v,
                Err(e) => return Err(e),
            };
            g_ic = P::g1_add(&g_ic, &encoded);
            proof {
                assert(abc.take(i + 2).drop_last() =~= abc.take(i + 1));
                assert(inputs.take(i + 1).drop_last() =~= inputs.take(i as int));
                assert(abc.take(i + 2).last() == abc[i + 1]);
                assert(inputs.take(i + 1).last() == inputs[i as int]);
            }
        }
        proof {
            assert(abc.take(n + 1) =~= abc);
            assert(inputs.take(n as int) =~= inputs);
        }
        let proof_a_prep = P::prepare_g1(&proof.a)?;
        let proof_b_prep = P::prepare_g2(&proof.b)?;
        let proof_c_prep = P::prepare_g1(&proof.c)?;
        let g_ic_prep = P::prepare_g1(&g_ic)?;
        let test_exp = P::miller_loop(
            &proof_a_prep,
            &proof_b_prep,
            &g_ic_prep,
            &circuit_pvk.gamma_g2_neg_pc,
            &proof_c_prep,
            &circuit_pvk.delta_g2_neg_pc,
        )?;
        let test = P::final_exponentiation(&test_exp)?;
        P::gt_is_eq(&test, &circuit_pvk.alpha_g1_beta_g2)
    }

    /// Prepares the verifying key, then builds the constraints of the
    /// verification equation; agrees with
    /// [`Self::verify_with_processed_vk`] on the prepared key on every
    /// input.
    pub fn verify(
        circuit_vk: &VerifyingKeyVar<P>,
        x: &BooleanInputVar<P>,
        proof: &ProofVar<P>,
    ) -> (r: Result<P::BooleanVar, SynthesisError>)
        ensures
            x.input_vals().len() + 1 != circuit_vk.gamma_abc_vals().len() ==> r == Err::<
                P::BooleanVar,
                SynthesisError,
            >(SynthesisError::InputLengthMismatch),
            r matches Ok(verified) ==> {
                &&& x.input_vals().len() + 1 == circuit_vk.gamma_abc_vals().len()
                &&& P::bool_val(verified) == groth16_equation_holds::<P>(
                    P::pairing_val(
                        P::g1_prepare_val(circuit_vk.alpha_val()),
                        P::g2_prepare_val(circuit_vk.beta_val()),
                    ),
                    P::g2_prepare_val(P::g2_neg_val(circuit_vk.gamma_val())),
                    P::g2_prepare_val(P::g2_neg_val(circuit_vk.delta_val())),
                    circuit_vk.gamma_abc_vals(),
                    x.input_vals(),
                    proof.a_val(),
                    proof.b_val(),
                    proof.c_val(),
                )
            },
    {
        if circuit_vk.gamma_abc_g1.len() == 0 || x.val.len() != circuit_vk.gamma_abc_g1.len()
            - 1 {
            return Err(SynthesisError::InputLengthMismatch);
        }
        let pvk = circuit_vk.prepare()?;
        Self::verify_with_processed_vk(&pvk, x, proof)
    }
}

/// Allocates every element of a sequence of native first-group elements
/// without the subgroup checks, keeping order and values.
fn alloc_g1_vec_unchecked<P: PairingVar>(
    cs: &mut P::Cs,
    points: &Vec<P::G1Affine>,
    mode: AllocationMode,
) -> (r: Result<Vec<P::G1Var>, SynthesisError>)
    ensures
        r matches Ok(v) ==> g1_vals::<P>(v@) == g1_affine_vals::<P>(points@),
{
    let mut out: Vec<P::G1Var> = Vec::new();
    let n = points.len();
    for i in 0..n
        invariant
            n == points@.len(),
            out@.len() == i,
            forall|j: int| 0 <= j < i ==> P::g1_val(#[trigger] out@[j]) == P::g1_affine_val(
                points@[j],
            ),
    {
        let v = match P::alloc_g1_unchecked(cs, &points[i], mode) {
            Ok(v) => v,
            Err(e) => return Err(e),
        };
        out.push(v);
    }
    proof {
        assert(g1_vals::<P>(out@) =~= g1_affine_vals::<P>(points@));
    }
    Ok(out)
}

/// Prepared and unprepared verification agree: whenever a preprocessed key
/// carries the values that [`VerifyingKeyVar::prepare`] derives from a
/// verifying key — the pairing of `alpha` and `beta`, the prepared
/// negations of `gamma` and `delta`, and the same input-commitment bases —
/// the equation checked against the preprocessed key is the very equation
/// checked against the key itself, for every public-input vector and every
/// proof.
pub proof fn lemma_prepared_unprepared_equivalence<P: PairingVar>(
    vkv: VerifyingKeyVar<P>,
    pvkv: PreparedVerifyingKeyVar<P>,
    inputs: Seq<Seq<bool>>,
    a: int,
    b: int,
    c: int,
)
    requires
        pvkv.alpha_beta_val() == P::pairing_val(
            P::g1_prepare_val(vkv.alpha_val()),
            P::g2_prepare_val(vkv.beta_val()),
        ),
        pvkv.gamma_neg_val() == P::g2_prepare_val(P::g2_neg_val(vkv.gamma_val())),
        pvkv.delta_neg_val() == P::g2_prepare_val(P::g2_neg_val(vkv.delta_val())),
        pvkv.gamma_abc_vals() == vkv.gamma_abc_vals(),
    ensures
        groth16_equation_holds::<P>(
            pvkv.alpha_beta_val(),
            pvkv.gamma_neg_val(),
            pvkv.delta_neg_val(),
            pvkv.gamma_abc_vals(),
            inputs,
            a,
            b,
            c,
        ) == groth16_equation_holds::<P>(
            P::pairing_val(
                P::g1_prepare_val(vkv.alpha_val()),
                P::g2_prepare_val(vkv.beta_val()),
            ),
            P::g2_prepare_val(P::g2_neg_val(vkv.gamma_val())),
            P::g2_prepare_val(P::g2_neg_val(vkv.delta_val())),
            vkv.gamma_abc_vals(),
            inputs,
            a,
            b,
            c,
        ),
{
}

/// Encoding determinism: each of the three encodings of a verifying-key
/// variable is a function of the key elements' values alone.  Two variables
/// carrying equal values — in particular two allocated from equal native
/// keys, under any allocation modes — encode to identical byte and
/// field-element sequences.
pub proof fn lemma_encoding_deterministic<P: PairingVar>(
    vkv1: VerifyingKeyVar<P>,
    vkv2: VerifyingKeyVar<P>,
)
    requires
        vkv1.alpha_val() == vkv2.alpha_val(),
        vkv1.beta_val() == vkv2.beta_val(),
        vkv1.gamma_val() == vkv2.gamma_val(),
        vkv1.delta_val() == vkv2.delta_val(),
        vkv1.gamma_abc_vals() == vkv2.gamma_abc_vals(),
    ensures
        vk_bytes_val::<P>(
            vkv1.alpha_val(),
            vkv1.beta_val(),
            vkv1.gamma_val(),
            vkv1.delta_val(),
            vkv1.gamma_abc_vals(),
        ) == vk_bytes_val::<P>(
            vkv2.alpha_val(),
            vkv2.beta_val(),
            vkv2.gamma_val(),
            vkv2.delta_val(),
            vkv2.gamma_abc_vals(),
        ),
        vk_sponge_bytes_val::<P>(
            vkv1.alpha_val(),
            vkv1.beta_val(),
            vkv1.gamma_val(),
            vkv1.delta_val(),
            vkv1.gamma_abc_vals(),
        ) == vk_sponge_bytes_val::<P>(
            vkv2.alpha_val(),
            vkv2.beta_val(),
            vkv2.gamma_val(),
            vkv2.delta_val(),
            vkv2.gamma_abc_vals(),
        ),
        vk_sponge_field_val::<P>(
            vkv1.alpha_val(),
            vkv1.beta_val(),
            vkv1.gamma_val(),
            vkv1.delta_val(),
            vkv1.gamma_abc_vals(),
        ) == vk_sponge_field_val::<P>(
            vkv2.alpha_val(),
            vkv2.beta_val(),
            vkv2.gamma_val(),
            vkv2.delta_val(),
            vkv2.gamma_abc_vals(),
        ),
{
}

} // verus!
