use vstd::prelude::*;

verus! {

/// A failure raised while lifting native values into circuit variables or
/// while building verification constraints.  Every fallible operation of the
/// library reports one of these; nothing is recovered silently.
#[derive(Clone, Copy, Debug, PartialEq, Eq, Structural)]
pub enum SynthesisError {
    /// A deferred producer could not supply the native value that an
    /// allocation needed.
    AssignmentMissing,
    /// A point handed to a checked allocation does not lie in the correct
    /// prime-order subgroup.
    SubgroupCheckFailed,
    /// The number of public inputs differs from the length of the key's
    /// `gamma_abc_g1` sequence minus one.
    InputLengthMismatch,
    /// A group or pairing operation of the backend failed internally.
    ArithmeticFailure,
}

} // verus!
