//! Proofs that reserves back an asset.

use vstd::prelude::*;
use crate::seals::Outpoint;

verus! {

/// Greatest number of bytes of a proof of reserves.
pub const PROOF_MAX_LEN: usize = 65535;

/// A proof that the output `utxo` holds reserves of an asset.
#[derive(Clone, Debug, Hash, PartialEq, Eq)]
pub struct ProofOfReserves {
    pub utxo: Outpoint,
    pub proof: Vec<u8>,
}

impl ProofOfReserves {
    /// Whether the proof is small enough to stand in a contract.
    pub open spec fn spec_wf(self) -> bool {
        self.proof@.len() <= PROOF_MAX_LEN
    }

    /// The proof `proof` for the output `utxo`.
    pub fn new(utxo: Outpoint, proof: Vec<u8>) -> (r: ProofOfReserves)
        ensures
            r.utxo == utxo,
            r.proof == proof,
    {
        ProofOfReserves { utxo, proof }
    }

    /// Whether the proof is small enough to stand in a contract.
    pub fn is_wf(&self) -> (r: bool)
        ensures
            r == self.spec_wf(),
    {
        self.proof.len() <= PROOF_MAX_LEN
    }
}

} // verus!
