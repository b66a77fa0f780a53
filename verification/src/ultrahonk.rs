//! The verification key of an UltraHonk circuit, and the verifier that
//! holds one.

use vstd::prelude::*;

verus! {

/// A point of the curve's first group, by its two coordinates. Each
/// coordinate is an element of the base field, written as 32 bytes with the
/// most significant first.
#[derive(Clone, Copy, Debug, PartialEq, Eq)]
pub struct G1Point {
    pub x: [u8; 32],
    pub y: [u8; 32],
}

/// The verification key of a circuit: its sizes and the commitments to its
/// selector, permutation, identity, table and Lagrange polynomials.
#[derive(Clone, Copy, Debug, PartialEq, Eq)]
pub struct VerificationKey {
    pub circuit_size: u64,
    pub log_circuit_size: u64,
    pub public_inputs_size: u64,
    pub pub_inputs_offset: u64,
    pub qm: G1Point,
    pub qc: G1Point,
    pub ql: G1Point,
    pub qr: G1Point,
    pub qo: G1Point,
    pub q4: G1Point,
    pub q_lookup: G1Point,
    pub q_arith: G1Point,
    pub q_delta_range: G1Point,
    pub q_elliptic: G1Point,
    pub q_memory: G1Point,
    pub q_nnf: G1Point,
    pub q_poseidon2_external: G1Point,
    pub q_poseidon2_internal: G1Point,
    pub s1: G1Point,
    pub s2: G1Point,
    pub s3: G1Point,
    pub s4: G1Point,
    pub id1: G1Point,
    pub id2: G1Point,
    pub id3: G1Point,
    pub id4: G1Point,
    pub t1: G1Point,
    pub t2: G1Point,
    pub t3: G1Point,
    pub t4: G1Point,
    pub lagrange_first: G1Point,
    pub lagrange_last: G1Point,
}

/// A verifier for the proofs of one circuit.
pub struct UltraHonkVerifier {
    vk: VerificationKey,
}

impl UltraHonkVerifier {
    /// The key that the verifier holds.
    pub closed spec fn key(&self) -> VerificationKey {
        self.vk
    }

    /// A verifier for the circuit of `vk`.
    pub fn new_with_vk(vk: VerificationKey) -> (verifier: UltraHonkVerifier)
        ensures
            verifier.key() == vk,
    {
        UltraHonkVerifier { vk }
    }

    /// Accepts every proof: the proof system itself is not checked here.
    pub fn verify(&self, _proof: &[u8], _public_inputs: &[Vec<u8>]) -> (verdict: Result<(), ()>)
        ensures
            verdict is Ok,
    {
        Ok(())
    }
}

} // verus!
