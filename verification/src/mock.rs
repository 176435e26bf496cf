use crate::errors::SynthesisError;
use crate::pairing::{AllocationMode, PairingVar};
use vstd::prelude::*;

verus! {

/// The order of the prime-order subgroup of the model groups.
pub const SUBGROUP_ORDER: u64 = 7919;

/// The cofactor of the model groups: the index of the prime-order subgroup
/// in the full group.
pub const COFACTOR: u64 = 4;

/// The order of the full model groups.
pub const GROUP_ORDER: u64 = 31676;

/// A pairing backend over small modular arithmetic, for exercising and
/// testing the verifier gadget without a real curve.  Both source groups
/// are the integers modulo [`GROUP_ORDER`] under addition; the prime-order
/// subgroup is the set of multiples of [`COFACTOR`]; the target group is
/// the integers modulo [`SUBGROUP_ORDER`] under addition; and the pairing
/// of two subgroup elements multiplies their subgroup coordinates, a
/// genuinely bilinear map.  Every operation's contract is proved, so the
/// gadget's guarantees hold of this backend without trust.
pub struct MockPairing;

/// A model constraint system: it only counts the variables allocated in it.
pub struct MockConstraintSystem {
    /// How many variables have been allocated.
    pub num_allocations: u64,
}

impl MockConstraintSystem {
    /// An empty constraint system.
    pub fn new() -> (r: Self)
        ensures
            r.num_allocations == 0,
    {
        MockConstraintSystem { num_allocations: 0 }
    }

    fn bump(&mut self)
        ensures
            final(self).num_allocations >= old(self).num_allocations,
    {
        if self.num_allocations < u64::MAX {
            self.num_allocations = self.num_allocations + 1;
        }
    }
}

/// The value of a model group element: its residue modulo the group order.
pub open spec fn mock_group_val(v: u64) -> int {
    (v % GROUP_ORDER) as int
}

/// The value of a model target-group element: its residue modulo the
/// subgroup order.
pub open spec fn mock_target_val(v: u64) -> int {
    (v % SUBGROUP_ORDER) as int
}

/// The model pairing over values: the product of the two subgroup
/// coordinates, modulo the subgroup order.
pub open spec fn mock_pairing_val(p: int, q: int) -> int {
    (((p / (COFACTOR as int)) % (SUBGROUP_ORDER as int)) * ((q / (COFACTOR as int)) % (
    SUBGROUP_ORDER as int))) % (SUBGROUP_ORDER as int)
}

/// The model scalar multiplication: the base times the scalar whose bits,
/// least significant first, are `bits`, modulo the group order.
pub open spec fn mock_scalar_mul_val(x: int, bits: Seq<bool>) -> int
    decreases bits.len(),
{
    if bits.len() == 0 {
        0
    } else {
        ((if bits[0] {
            x
        } else {
            0
        }) + 2 * mock_scalar_mul_val(x, bits.subrange(1, bits.len() as int))) % (GROUP_ORDER
            as int)
    }
}

/// The canonical four-byte little-endian encoding of a model value.
pub open spec fn mock_bytes_val(x: int) -> Seq<u8> {
    seq![
        (x % 256) as u8,
        ((x / 256) % 256) as u8,
        ((x / 65536) % 256) as u8,
        ((x / 16777216) % 256) as u8,
    ]
}

/// Encodes the reduced value of a model group element as four little-endian
/// bytes.
fn mock_to_bytes(x: &u64) -> (r: Vec<u8>)
    ensures
        r@.map_values(|b: u8| <MockPairing as PairingVar>::u8_val(b)) == mock_bytes_val(
            mock_group_val(*x),
        ),
{
    let w = *x % GROUP_ORDER;
    let mut out: Vec<u8> = Vec::new();
    out.push((w % 256) as u8);
    out.push(((w / 256) % 256) as u8);
    out.push(((w / 65536) % 256) as u8);
    out.push(((w / 16777216) % 256) as u8);
    proof {
        assert(out@.map_values(|b: u8| <MockPairing as PairingVar>::u8_val(b)) =~= mock_bytes_val(
            w as int,
        ));
    }
    out
}

/// Computes the model pairing of two group elements.
fn mock_pair_exec(p: u64, q: u64) -> (r: u64)
    ensures
        r as int == mock_pairing_val(mock_group_val(p), mock_group_val(q)),
        r < SUBGROUP_ORDER,
{
    let a = ((p % GROUP_ORDER) / COFACTOR) % SUBGROUP_ORDER;
    let b = ((q % GROUP_ORDER) / COFACTOR) % SUBGROUP_ORDER;
    proof {
        assert(a * b < SUBGROUP_ORDER * SUBGROUP_ORDER) by (nonlinear_arith)
            requires
                a < SUBGROUP_ORDER,
                b < SUBGROUP_ORDER,
        ;
    }
    (a * b) % SUBGROUP_ORDER
}

impl PairingVar for MockPairing {
    type Cs = MockConstraintSystem;

    type G1Affine = u64;

    type G2Affine = u64;

    type TargetField = u64;

    type G2Prepared = u64;

    type G1Var = u64;

    type G2Var = u64;

    type GTVar = u64;

    type G1PreparedVar = u64;

    type G2PreparedVar = u64;

    type BooleanVar = bool;

    type UInt8Var = u8;

    type FpVar = u64;

    open spec fn g1_val(v: u64) -> int {
        mock_group_val(v)
    }

    open spec fn g2_val(v: u64) -> int {
        mock_group_val(v)
    }

    open spec fn gt_val(v: u64) -> int {
        mock_target_val(v)
    }

    open spec fn g1_prepared_val(v: u64) -> int {
        mock_group_val(v)
    }

    open spec fn g2_prepared_val(v: u64) -> int {
        mock_group_val(v)
    }

    open spec fn bool_val(v: bool) -> bool {
        v
    }

    open spec fn u8_val(v: u8) -> u8 {
        v
    }

    open spec fn fp_val(v: u64) -> int {
        v as int
    }

    open spec fn g1_affine_val(p: u64) -> int {
        mock_group_val(p)
    }

    open spec fn g2_affine_val(p: u64) -> int {
        mock_group_val(p)
    }

    open spec fn target_field_val(t: u64) -> int {
        mock_target_val(t)
    }

    open spec fn g2_prepared_native_val(p: u64) -> int {
        mock_group_val(p)
    }

    open spec fn g1_in_subgroup(x: int) -> bool {
        x % (COFACTOR as int) == 0
    }

    open spec fn g2_in_subgroup(x: int) -> bool {
        x % (COFACTOR as int) == 0
    }

    open spec fn g1_add_val(x: int, y: int) -> int {
        (x + y) % (GROUP_ORDER as int)
    }

    open spec fn g2_neg_val(x: int) -> int {
        ((GROUP_ORDER as int) - x) % (GROUP_ORDER as int)
    }

    open spec fn g1_scalar_mul_val(x: int, bits: Seq<bool>) -> int {
        mock_scalar_mul_val(x, bits)
    }

    open spec fn g1_prepare_val(x: int) -> int {
        x
    }

    open spec fn g2_prepare_val(x: int) -> int {
        x
    }

    open spec fn pairing_val(p: int, q: int) -> int {
        mock_pairing_val(p, q)
    }

    open spec fn miller_loop_val(a1: int, b1: int, a2: int, b2: int, a3: int, b3: int) -> int {
        (mock_pairing_val(a1, b1) + mock_pairing_val(a2, b2) + mock_pairing_val(a3, b3)) % (
        SUBGROUP_ORDER as int)
    }

    open spec fn final_exponentiation_val(t: int) -> int {
        t
    }

    open spec fn g1_bytes_val(x: int) -> Seq<u8> {
        mock_bytes_val(x)
    }

    open spec fn g2_bytes_val(x: int) -> Seq<u8> {
        mock_bytes_val(x)
    }

    open spec fn g1_sponge_bytes_val(x: int) -> Seq<u8> {
        mock_bytes_val(x)
    }

    open spec fn g2_sponge_bytes_val(x: int) -> Seq<u8> {
        mock_bytes_val(x)
    }

    open spec fn g1_sponge_field_val(x: int) -> Seq<int> {
        seq![x]
    }

    open spec fn g2_sponge_field_val(x: int) -> Seq<int> {
        seq![x]
    }

    fn alloc_g1_checked(cs: &mut MockConstraintSystem, p: &u64, mode: AllocationMode) -> (r:
        Result<u64, SynthesisError>) {
        let w = *p % GROUP_ORDER;
        if w % COFACTOR == 0 {
            cs.bump();
            Ok(w)
        } else {
            Err(SynthesisError::SubgroupCheckFailed)
        }
    }

    fn alloc_g1_unchecked(cs: &mut MockConstraintSystem, p: &u64, mode: AllocationMode) -> (r:
        Result<u64, SynthesisError>) {
        cs.bump();
        Ok(*p % GROUP_ORDER)
    }

    fn alloc_g2_checked(cs: &mut MockConstraintSystem, p: &u64, mode: AllocationMode) -> (r:
        Result<u64, SynthesisError>) {
        let w = *p % GROUP_ORDER;
        if w % COFACTOR == 0 {
            cs.bump();
            Ok(w)
        } else {
            Err(SynthesisError::SubgroupCheckFailed)
        }
    }

    fn alloc_g2_unchecked(cs: &mut MockConstraintSystem, p: &u64, mode: AllocationMode) -> (r:
        Result<u64, SynthesisError>) {
        cs.bump();
        Ok(*p % GROUP_ORDER)
    }

    fn alloc_gt(cs: &mut MockConstraintSystem, t: &u64, mode: AllocationMode) -> (r: Result<
        u64,
        SynthesisError,
    >) {
        cs.bump();
        Ok(*t % SUBGROUP_ORDER)
    }

    fn alloc_g2_prepared(cs: &mut MockConstraintSystem, p: &u64, mode: AllocationMode) -> (r:
        Result<u64, SynthesisError>) {
        cs.bump();
        Ok(*p % GROUP_ORDER)
    }

    fn alloc_boolean(cs: &mut MockConstraintSystem, b: bool, mode: AllocationMode) -> (r: Result<
        bool,
        SynthesisError,
    >) {
        cs.bump();
        Ok(b)
    }

    fn g1_add(x: &u64, y: &u64) -> (r: u64) {
        ((*x % GROUP_ORDER) + (*y % GROUP_ORDER)) % GROUP_ORDER
    }

    fn g2_negate(x: &u64) -> (r: Result<u64, SynthesisError>) {
        Ok((GROUP_ORDER - (*x % GROUP_ORDER)) % GROUP_ORDER)
    }

    fn g1_scalar_mul_le(x: &u64, bits: &Vec<bool>) -> (r: Result<u64, SynthesisError>) {
        let base = *x % GROUP_ORDER;
        let mut acc: u64 = 0;
        let mut i = bits.len();
        proof {
            assert(bits@.subrange(i as int, bits@.len() as int) =~= Seq::<bool>::empty());
        }
        while i > 0
            invariant
                i <= bits@.len(),
                base == *x % GROUP_ORDER,
                acc < GROUP_ORDER,
                acc as int == mock_scalar_mul_val(
                    base as int,
                    bits@.subrange(i as int, bits@.len() as int),
                ),
            decreases i,
        {
            i = i - 1;
            let t = if bits[i] {
                base
            } else {
                0
            };
            proof {
                let s = bits@.subrange(i as int, bits@.len() as int);
                assert(s[0] == bits@[i as int]);
                assert(s.subrange(1, s.len() as int) =~= bits@.subrange(
                    i + 1,
                    bits@.len() as int,
                ));
            }
            acc = (2 * acc + t) % GROUP_ORDER;
        }
        proof {
            assert(bits@.subrange(0, bits@.len() as int) =~= bits@);
            assert(bits@.map_values(|b: bool| <MockPairing as PairingVar>::bool_val(b))
                =~= bits@);
        }
        Ok(acc)
    }

    fn prepare_g1(x: &u64) -> (r: Result<u64, SynthesisError>) {
        Ok(*x % GROUP_ORDER)
    }

    fn prepare_g2(x: &u64) -> (r: Result<u64, SynthesisError>) {
        Ok(*x % GROUP_ORDER)
    }

    fn pairing(p: &u64, q: &u64) -> (r: Result<u64, SynthesisError>) {
        Ok(mock_pair_exec(*p, *q))
    }

    fn miller_loop(a1: &u64, b1: &u64, a2: &u64, b2: &u64, a3: &u64, b3: &u64) -> (r: Result<
        u64,
        SynthesisError,
    >) {
        let p1 = mock_pair_exec(*a1, *b1);
        let p2 = mock_pair_exec(*a2, *b2);
        let p3 = mock_pair_exec(*a3, *b3);
        Ok((p1 + p2 + p3) % SUBGROUP_ORDER)
    }

    fn final_exponentiation(t: &u64) -> (r: Result<u64, SynthesisError>) {
        Ok(*t % SUBGROUP_ORDER)
    }

    fn gt_is_eq(x: &u64, y: &u64) -> (r: Result<bool, SynthesisError>) {
        Ok(*x % SUBGROUP_ORDER == *y % SUBGROUP_ORDER)
    }

    fn g1_to_bytes_le(x: &u64) -> (r: Result<Vec<u8>, SynthesisError>) {
        Ok(mock_to_bytes(x))
    }

    fn g2_to_bytes_le(x: &u64) -> (r: Result<Vec<u8>, SynthesisError>) {
        Ok(mock_to_bytes(x))
    }

    fn g1_to_sponge_bytes(x: &u64) -> (r: Result<Vec<u8>, SynthesisError>) {
        Ok(mock_to_bytes(x))
    }

    fn g2_to_sponge_bytes(x: &u64) -> (r: Result<Vec<u8>, SynthesisError>) {
        Ok(mock_to_bytes(x))
    }

    fn g1_to_sponge_field_elements(x: &u64) -> (r: Result<Vec<u64>, SynthesisError>) {
        let mut out: Vec<u64> = Vec::new();
        out.push(*x % GROUP_ORDER);
        proof {
            assert(out@.map_values(|b: u64| <MockPairing as PairingVar>::fp_val(b)) =~= seq![
                mock_group_val(*x),
            ]);
        }
        Ok(out)
    }

    fn g2_to_sponge_field_elements(x: &u64) -> (r: Result<Vec<u64>, SynthesisError>) {
        let mut out: Vec<u64> = Vec::new();
        out.push(*x % GROUP_ORDER);
        proof {
            assert(out@.map_values(|b: u64| <MockPairing as PairingVar>::fp_val(b)) =~= seq![
                mock_group_val(*x),
            ]);
        }
        Ok(out)
    }

    fn clone_g1(x: &u64) -> (r: u64) {
        *x
    }

    fn clone_g2(x: &u64) -> (r: u64) {
        *x
    }

    fn clone_gt(x: &u64) -> (r: u64) {
        *x
    }

    fn clone_g2_prepared(x: &u64) -> (r: u64) {
        *x
    }

    fn clone_boolean(x: &bool) -> (r: bool) {
        *x
    }
}

} // verus!
