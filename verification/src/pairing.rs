use crate::errors::SynthesisError;
use vstd::prelude::*;

verus! {

/// The circuit role a value is given at allocation time.
#[derive(Clone, Copy, Debug, PartialEq, Eq, Structural)]
pub enum AllocationMode {
    /// The value is fixed into the circuit.
    Constant,
    /// The value is a public input of the circuit.
    Input,
    /// The value is a private witness of the circuit.
    Witness,
}

/// Capability interface over a pairing-friendly curve pair.
///
/// A backend supplies circuit representations of first-group, second-group
/// and target-group elements together with their prepared pairing forms, the
/// native element types they are allocated from, and the circuit operations
/// the verifier gadget needs: allocation (with and without subgroup checks),
/// negation, scalar multiplication by a bit sequence, the triple Miller loop,
/// final exponentiation, equality testing, and canonical encodings.
///
/// Every circuit value is modelled by an abstract integer value, given by the
/// `*_val` spec functions, and each operation's contract states what the
/// value of its result is in terms of the values of its arguments.  The
/// contracts speak only of values: which concrete wires a backend allocates
/// is its own affair, and two calls on equal values may well build different
/// wires.  The gadget's own contracts are proved from these alone.
///
/// A backend overrides the `*_val` functions to give its variables meaning;
/// their defaults leave every value unconstrained.  [`crate::mock`] holds a
/// backend whose operations are proved against these contracts in full.
pub trait PairingVar: Sized {
    /// Handle on the constraint system accumulating variables and
    /// constraints; every allocation needs exclusive access to it.
    type Cs;
    /// Native first-group element.
    type G1Affine;
    /// Native second-group element.
    type G2Affine;
    /// Native target-group element.
    type TargetField;
    /// Native prepared second-group element.
    type G2Prepared;
    /// Circuit first-group element.
    type G1Var;
    /// Circuit second-group element.
    type G2Var;
    /// Circuit target-group element.
    type GTVar;
    /// Circuit first-group element prepared as a pairing input.
    type G1PreparedVar;
    /// Circuit second-group element prepared as a pairing input.
    type G2PreparedVar;
    /// Circuit boolean.
    type BooleanVar;
    /// Circuit byte.
    type UInt8Var;
    /// Circuit base-field element.
    type FpVar;

    /// The abstract value a circuit first-group element carries.
    open spec fn g1_val(v: Self::G1Var) -> int {
        arbitrary()
    }

    /// The abstract value a circuit second-group element carries.
    open spec fn g2_val(v: Self::G2Var) -> int {
        arbitrary()
    }

    /// The abstract value a circuit target-group element carries.
    open spec fn gt_val(v: Self::GTVar) -> int {
        arbitrary()
    }

    /// The abstract value a prepared circuit first-group element carries.
    open spec fn g1_prepared_val(v: Self::G1PreparedVar) -> int {
        arbitrary()
    }

    /// The abstract value a prepared circuit second-group element carries.
    open spec fn g2_prepared_val(v: Self::G2PreparedVar) -> int {
        arbitrary()
    }

    /// The truth value a circuit boolean carries.
    open spec fn bool_val(v: Self::BooleanVar) -> bool {
        arbitrary()
    }

    /// The byte value a circuit byte carries.
    open spec fn u8_val(v: Self::UInt8Var) -> u8 {
        arbitrary()
    }

    /// The abstract value a circuit base-field element carries.
    open spec fn fp_val(v: Self::FpVar) -> int {
        arbitrary()
    }

    /// The abstract value of a native first-group element.
    open spec fn g1_affine_val(p: Self::G1Affine) -> int {
        arbitrary()
    }

    /// The abstract value of a native second-group element.
    open spec fn g2_affine_val(p: Self::G2Affine) -> int {
        arbitrary()
    }

    /// The abstract value of a native target-group element.
    open spec fn target_field_val(t: Self::TargetField) -> int {
        arbitrary()
    }

    /// The abstract value of a native prepared second-group element.
    open spec fn g2_prepared_native_val(p: Self::G2Prepared) -> int {
        arbitrary()
    }

    /// Whether a first-group value lies in the prime-order subgroup.
    open spec fn g1_in_subgroup(x: int) -> bool {
        arbitrary()
    }

    /// Whether a second-group value lies in the prime-order subgroup.
    open spec fn g2_in_subgroup(x: int) -> bool {
        arbitrary()
    }

    /// Value of the sum of two first-group values.
    open spec fn g1_add_val(x: int, y: int) -> int {
        arbitrary()
    }

    /// Value of the negation of a second-group value.
    open spec fn g2_neg_val(x: int) -> int {
        arbitrary()
    }

    /// Value of a first-group value multiplied by the scalar whose bits,
    /// least significant first, are `bits`.
    open spec fn g1_scalar_mul_val(x: int, bits: Seq<bool>) -> int {
        arbitrary()
    }

    /// Value of the prepared form of a first-group value.
    open spec fn g1_prepare_val(x: int) -> int {
        arbitrary()
    }

    /// Value of the prepared form of a second-group value.
    open spec fn g2_prepare_val(x: int) -> int {
        arbitrary()
    }

    /// Value of the full pairing of two prepared values.
    open spec fn pairing_val(p: int, q: int) -> int {
        arbitrary()
    }

    /// Value of the Miller loop accumulated over three prepared point pairs.
    open spec fn miller_loop_val(a1: int, b1: int, a2: int, b2: int, a3: int, b3: int) -> int {
        arbitrary()
    }

    /// Value of the final exponentiation of a target-group value.
    open spec fn final_exponentiation_val(t: int) -> int {
        arbitrary()
    }

    /// Canonical little-endian byte encoding of a first-group value.
    open spec fn g1_bytes_val(x: int) -> Seq<u8> {
        arbitrary()
    }

    /// Canonical little-endian byte encoding of a second-group value.
    open spec fn g2_bytes_val(x: int) -> Seq<u8> {
        arbitrary()
    }

    /// Canonical sponge byte encoding of a first-group value.
    open spec fn g1_sponge_bytes_val(x: int) -> Seq<u8> {
        arbitrary()
    }

    /// Canonical sponge byte encoding of a second-group value.
    open spec fn g2_sponge_bytes_val(x: int) -> Seq<u8> {
        arbitrary()
    }

    /// Canonical field-element encoding of a first-group value.
    open spec fn g1_sponge_field_val(x: int) -> Seq<int> {
        arbitrary()
    }

    /// Canonical field-element encoding of a second-group value.
    open spec fn g2_sponge_field_val(x: int) -> Seq<int> {
        arbitrary()
    }

    /// Allocates a first-group variable and enforces that the point lies in
    /// the prime-order subgroup; a point outside it is refused.
    fn alloc_g1_checked(cs: &mut Self::Cs, p: &Self::G1Affine, mode: AllocationMode) -> (r: Result<
        Self::G1Var,
        SynthesisError,
    >)
        ensures
            r matches Ok(v) ==> Self::g1_val(v) == Self::g1_affine_val(*p)
                && Self::g1_in_subgroup(Self::g1_affine_val(*p)),
            !Self::g1_in_subgroup(Self::g1_affine_val(*p)) ==> r is Err,
    ;

    /// Allocates a first-group variable without the subgroup check.
    fn alloc_g1_unchecked(cs: &mut Self::Cs, p: &Self::G1Affine, mode: AllocationMode) -> (r:
        Result<Self::G1Var, SynthesisError>)
        ensures
            r matches Ok(v) ==> Self::g1_val(v) == Self::g1_affine_val(*p),
    ;

    /// Allocates a second-group variable and enforces that the point lies in
    /// the prime-order subgroup; a point outside it is refused.
    fn alloc_g2_checked(cs: &mut Self::Cs, p: &Self::G2Affine, mode: AllocationMode) -> (r: Result<
        Self::G2Var,
        SynthesisError,
    >)
        ensures
            r matches Ok(v) ==> Self::g2_val(v) == Self::g2_affine_val(*p)
                && Self::g2_in_subgroup(Self::g2_affine_val(*p)),
            !Self::g2_in_subgroup(Self::g2_affine_val(*p)) ==> r is Err,
    ;

    /// Allocates a second-group variable without the subgroup check.
    fn alloc_g2_unchecked(cs: &mut Self::Cs, p: &Self::G2Affine, mode: AllocationMode) -> (r:
        Result<Self::G2Var, SynthesisError>)
        ensures
            r matches Ok(v) ==> Self::g2_val(v) == Self::g2_affine_val(*p),
    ;

    /// Allocates a target-group variable from a native target-group element.
    fn alloc_gt(cs: &mut Self::Cs, t: &Self::TargetField, mode: AllocationMode) -> (r: Result<
        Self::GTVar,
        SynthesisError,
    >)
        ensures
            r matches Ok(v) ==> Self::gt_val(v) == Self::target_field_val(*t),
    ;

    /// Allocates a prepared second-group variable from its native form.
    fn alloc_g2_prepared(cs: &mut Self::Cs, p: &Self::G2Prepared, mode: AllocationMode) -> (r:
        Result<Self::G2PreparedVar, SynthesisError>)
        ensures
            r matches Ok(v) ==> Self::g2_prepared_val(v) == Self::g2_prepared_native_val(*p),
    ;

    /// Allocates a circuit boolean carrying the given truth value.
    fn alloc_boolean(cs: &mut Self::Cs, b: bool, mode: AllocationMode) -> (r: Result<
        Self::BooleanVar,
        SynthesisError,
    >)
        ensures
            r matches Ok(v) ==> Self::bool_val(v) == b,
    ;

    /// Adds two first-group variables.
    fn g1_add(x: &Self::G1Var, y: &Self::G1Var) -> (r: Self::G1Var)
        ensures
            Self::g1_val(r) == Self::g1_add_val(Self::g1_val(*x), Self::g1_val(*y)),
    ;

    /// Negates a second-group variable.
    fn g2_negate(x: &Self::G2Var) -> (r: Result<Self::G2Var, SynthesisError>)
        ensures
            r matches Ok(v) ==> Self::g2_val(v) == Self::g2_neg_val(Self::g2_val(*x)),
    ;

    /// Multiplies a first-group variable by the scalar whose bits, least
    /// significant first, are carried by `bits`.
    fn g1_scalar_mul_le(x: &Self::G1Var, bits: &Vec<Self::BooleanVar>) -> (r: Result<
        Self::G1Var,
        SynthesisError,
    >)
        ensures
            r matches Ok(v) ==> Self::g1_val(v) == Self::g1_scalar_mul_val(
                Self::g1_val(*x),
                bits@.map_values(|b: Self::BooleanVar| Self::bool_val(b)),
            ),
    ;

    /// Prepares a first-group variable as a pairing input.
    fn prepare_g1(x: &Self::G1Var) -> (r: Result<Self::G1PreparedVar, SynthesisError>)
        ensures
            r matches Ok(v) ==> Self::g1_prepared_val(v) == Self::g1_prepare_val(Self::g1_val(*x)),
    ;

    /// Prepares a second-group variable as a pairing input.
    fn prepare_g2(x: &Self::G2Var) -> (r: Result<Self::G2PreparedVar, SynthesisError>)
        ensures
            r matches Ok(v) ==> Self::g2_prepared_val(v) == Self::g2_prepare_val(Self::g2_val(*x)),
    ;

    /// Computes the full pairing of two prepared variables.
    fn pairing(p: &Self::G1PreparedVar, q: &Self::G2PreparedVar) -> (r: Result<
        Self::GTVar,
        SynthesisError,
    >)
        ensures
            r matches Ok(v) ==> Self::gt_val(v) == Self::pairing_val(
                Self::g1_prepared_val(*p),
                Self::g2_prepared_val(*q),
            ),
    ;

    /// Runs one Miller loop over three prepared point pairs.
    fn miller_loop(
        a1: &Self::G1PreparedVar,
        b1: &Self::G2PreparedVar,
        a2: &Self::G1PreparedVar,
        b2: &Self::G2PreparedVar,
        a3: &Self::G1PreparedVar,
        b3: &Self::G2PreparedVar,
    ) -> (r: Result<Self::GTVar, SynthesisError>)
        ensures
            r matches Ok(v) ==> Self::gt_val(v) == Self::miller_loop_val(
                Self::g1_prepared_val(*a1),
                Self::g2_prepared_val(*b1),
                Self::g1_prepared_val(*a2),
                Self::g2_prepared_val(*b2),
                Self::g1_prepared_val(*a3),
                Self::g2_prepared_val(*b3),
            ),
    ;

    /// Applies the final exponentiation to a target-group variable.
    fn final_exponentiation(t: &Self::GTVar) -> (r: Result<Self::GTVar, SynthesisError>)
        ensures
            r matches Ok(v) ==> Self::gt_val(v) == Self::final_exponentiation_val(
                Self::gt_val(*t),
            ),
    ;

    /// Tests two target-group variables for equality of their values.
    fn gt_is_eq(x: &Self::GTVar, y: &Self::GTVar) -> (r: Result<Self::BooleanVar, SynthesisError>)
        ensures
            r matches Ok(v) ==> Self::bool_val(v) == (Self::gt_val(*x) == Self::gt_val(*y)),
    ;

    /// Encodes a first-group variable as canonical little-endian bytes.
    fn g1_to_bytes_le(x: &Self::G1Var) -> (r: Result<Vec<Self::UInt8Var>, SynthesisError>)
        ensures
            r matches Ok(v) ==> v@.map_values(|b: Self::UInt8Var| Self::u8_val(b))
                == Self::g1_bytes_val(Self::g1_val(*x)),
    ;

    /// Encodes a second-group variable as canonical little-endian bytes.
    fn g2_to_bytes_le(x: &Self::G2Var) -> (r: Result<Vec<Self::UInt8Var>, SynthesisError>)
        ensures
            r matches Ok(v) ==> v@.map_values(|b: Self::UInt8Var| Self::u8_val(b))
                == Self::g2_bytes_val(Self::g2_val(*x)),
    ;

    /// Encodes a first-group variable as sponge bytes.
    fn g1_to_sponge_bytes(x: &Self::G1Var) -> (r: Result<Vec<Self::UInt8Var>, SynthesisError>)
        ensures
            r matches Ok(v) ==> v@.map_values(|b: Self::UInt8Var| Self::u8_val(b))
                == Self::g1_sponge_bytes_val(Self::g1_val(*x)),
    ;

    /// Encodes a second-group variable as sponge bytes.
    fn g2_to_sponge_bytes(x: &Self::G2Var) -> (r: Result<Vec<Self::UInt8Var>, SynthesisError>)
        ensures
            r matches Ok(v) ==> v@.map_values(|b: Self::UInt8Var| Self::u8_val(b))
                == Self::g2_sponge_bytes_val(Self::g2_val(*x)),
    ;

    /// Encodes a first-group variable as base-field elements.
    fn g1_to_sponge_field_elements(x: &Self::G1Var) -> (r: Result<
        Vec<Self::FpVar>,
        SynthesisError,
    >)
        ensures
            r matches Ok(v) ==> v@.map_values(|b: Self::FpVar| Self::fp_val(b))
                == Self::g1_sponge_field_val(Self::g1_val(*x)),
    ;

    /// Encodes a second-group variable as base-field elements.
    fn g2_to_sponge_field_elements(x: &Self::G2Var) -> (r: Result<
        Vec<Self::FpVar>,
        SynthesisError,
    >)
        ensures
            r matches Ok(v) ==> v@.map_values(|b: Self::FpVar| Self::fp_val(b))
                == Self::g2_sponge_field_val(Self::g2_val(*x)),
    ;

    /// Duplicates the handle of a first-group variable; no new circuit
    /// variables are allocated.
    fn clone_g1(x: &Self::G1Var) -> (r: Self::G1Var)
        ensures
            Self::g1_val(r) == Self::g1_val(*x),
    ;

    /// Duplicates the handle of a second-group variable.
    fn clone_g2(x: &Self::G2Var) -> (r: Self::G2Var)
        ensures
            Self::g2_val(r) == Self::g2_val(*x),
    ;

    /// Duplicates the handle of a target-group variable.
    fn clone_gt(x: &Self::GTVar) -> (r: Self::GTVar)
        ensures
            Self::gt_val(r) == Self::gt_val(*x),
    ;

    /// Duplicates the handle of a prepared second-group variable.
    fn clone_g2_prepared(x: &Self::G2PreparedVar) -> (r: Self::G2PreparedVar)
        ensures
            Self::g2_prepared_val(r) == Self::g2_prepared_val(*x),
    ;

    /// Duplicates the handle of a circuit boolean.
    fn clone_boolean(x: &Self::BooleanVar) -> (r: Self::BooleanVar)
        ensures
            Self::bool_val(r) == Self::bool_val(*x),
    ;
}

/// The truth values carried by a sequence of circuit booleans.
pub open spec fn bool_vals<P: PairingVar>(s: Seq<P::BooleanVar>) -> Seq<bool> {
    s.map_values(|b: P::BooleanVar| P::bool_val(b))
}

/// The byte values carried by a sequence of circuit bytes.
pub open spec fn u8_vals<P: PairingVar>(s: Seq<P::UInt8Var>) -> Seq<u8> {
    s.map_values(|b: P::UInt8Var| P::u8_val(b))
}

/// The abstract values carried by a sequence of circuit field elements.
pub open spec fn fp_vals<P: PairingVar>(s: Seq<P::FpVar>) -> Seq<int> {
    s.map_values(|b: P::FpVar| P::fp_val(b))
}

/// The abstract values carried by a sequence of circuit first-group elements.
pub open spec fn g1_vals<P: PairingVar>(s: Seq<P::G1Var>) -> Seq<int> {
    s.map_values(|v: P::G1Var| P::g1_val(v))
}

/// The abstract values of a sequence of native first-group elements.
pub open spec fn g1_affine_vals<P: PairingVar>(s: Seq<P::G1Affine>) -> Seq<int> {
    s.map_values(|v: P::G1Affine| P::g1_affine_val(v))
}

/// The truth values carried by a sequence of bit sequences of circuit
/// booleans, one bit sequence per public input.
pub open spec fn input_bit_vals<P: PairingVar>(s: Seq<Vec<P::BooleanVar>>) -> Seq<Seq<bool>> {
    s.map_values(|v: Vec<P::BooleanVar>| bool_vals::<P>(v@))
}

} // verus!
