//! The BLAKE2s engine.

use crate::digests::{blake2s256, blake2s256_of};
use crate::engine::{nonce_input, verify_hashed, verify_outcome, with_nonce, MiningAlgorithm};
use crate::result::{success_view, AlgorithmResult, AlgorithmResultView};
use vstd::prelude::*;

verus! {

/// The engine that hashes with BLAKE2s-256.
pub struct Blake2SAlgorithm {}

/// What the BLAKE2s engine answers to `input`: its digest, always.
pub open spec fn blake2s_outcome(input: Seq<u8>) -> AlgorithmResultView<Seq<u8>> {
    success_view(blake2s256_of(input))
}

impl Blake2SAlgorithm {
    /// The engine `blake2s`, version `1.0.0`.
    pub fn new() -> (engine: Self) {
        Blake2SAlgorithm {  }
    }
}

impl Default for Blake2SAlgorithm {
    fn default() -> (engine: Self) {
        Blake2SAlgorithm::new()
    }
}

impl MiningAlgorithm for Blake2SAlgorithm {
    open spec fn may_name(&self, name: &str) -> bool {
        name@ == "blake2s"@
    }

    open spec fn may_version(&self, version: &str) -> bool {
        version@ == "1.0.0"@
    }

    open spec fn may_hash(&self, input: &[u8], answer: AlgorithmResult<Vec<u8>>) -> bool {
        answer@ == blake2s_outcome(input@) && answer.data.unwrap()@.len() == 32
    }

    open spec fn may_verify(
        &self,
        input: &[u8],
        target: &[u8],
        nonce: u64,
        answer: AlgorithmResult<bool>,
    ) -> bool {
        answer@ == verify_outcome(blake2s_outcome(with_nonce(input@, nonce)), target@)
    }

    fn name(&self) -> (r: &str)
        ensures
            r@ == "blake2s"@,
    {
        "blake2s"
    }

    fn version(&self) -> (r: &str)
        ensures
            r@ == "1.0.0"@,
    {
        "1.0.0"
    }

    /// The BLAKE2s-256 digest of `input`: thirty-two bytes, for every input.
    fn hash(&self, input: &[u8]) -> (r: AlgorithmResult<Vec<u8>>)
        ensures
            r@ == blake2s_outcome(input@),
            r.data.unwrap()@.len() == 32,
    {
        AlgorithmResult::success(blake2s256(input))
    }

    fn verify(&self, input: &[u8], target: &[u8], nonce: u64) -> (r: AlgorithmResult<bool>)
        ensures
            r@ == verify_outcome(blake2s_outcome(with_nonce(input@, nonce)), target@),
    {
        let data = nonce_input(input, nonce);
        let hashed = self.hash(data.as_slice());
        verify_hashed(&hashed, target)
    }
}

} // verus!
