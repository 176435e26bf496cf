use vstd::prelude::*;

verus! {

/// A policy marker naming the reduction from a rank-1 constraint system to a
/// quadratic arithmetic program used at key-generation time.  The reduction
/// itself runs in the excluded native layer; the marker is threaded through
/// the verifier gadget only so that a gadget and the keys it consumes agree
/// on the reduction they were produced under.
pub trait R1CSToQAP {

}

/// The reduction of the original libsnark library, the default policy.
pub struct LibsnarkReduction;

impl R1CSToQAP for LibsnarkReduction {

}

} // verus!
