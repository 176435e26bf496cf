//! An in-circuit verifier for the Groth16 proof system.
//!
//! Given a Groth16 proof and verifying key lifted into circuit variables, the
//! gadget in [`constraints`] builds the single pairing-product equation that
//! Groth16 verification reduces to and returns a circuit boolean that is true
//! exactly when the equation holds.  The group and pairing arithmetic itself
//! is supplied by a backend implementing the capability trait in [`pairing`];
//! [`mock`] provides a small arithmetic model backend against which every
//! contract of the gadget is both proved and executable.

pub mod constraints;
pub mod data;
pub mod errors;
pub mod mock;
pub mod pairing;
pub mod r1cs_to_qap;
