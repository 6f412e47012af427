//! The capability that every hashing engine offers.

use crate::result::{error_view, success_view, AlgorithmResult, AlgorithmResultView};
use crate::target::{check_target, meets_target};
use vstd::bytes::{spec_u64_to_le_bytes, u64_to_le_bytes};
use vstd::prelude::*;
use vstd::slice::slice_to_vec;

verus! {

/// A hashing engine. The controller and the registry reach engines through
/// this trait alone.
///
/// What an engine promises of its answers it says in the four predicates
/// `may_name`, `may_version`, `may_hash` and `may_verify`; an engine that
/// leaves them as they are promises nothing. The contracts of the controller
/// and of the registry speak of an engine's answers by the predicates
/// `named`, `versioned`, `hash_answers` and `verify_answers`, which hold of
/// whatever the engine's own methods promise. The engines of this crate state
/// what they answer.
pub trait MiningAlgorithm: Send + Sync {
    /// What the engine promises of its name: `name` is one that a call of
    /// `name` may return. An engine that promises nothing leaves this as it
    /// is.
    open spec fn may_name(&self, name: &str) -> bool {
        true
    }

    /// What the engine promises of its version.
    open spec fn may_version(&self, version: &str) -> bool {
        true
    }

    /// What the engine promises of its hashes: `answer` is one that a call of
    /// `hash` on `input` may return.
    open spec fn may_hash(&self, input: &[u8], answer: AlgorithmResult<Vec<u8>>) -> bool {
        true
    }

    /// What the engine promises of its verdicts: `answer` is one that a call
    /// of `verify` on these arguments may return.
    open spec fn may_verify(
        &self,
        input: &[u8],
        target: &[u8],
        nonce: u64,
        answer: AlgorithmResult<bool>,
    ) -> bool {
        true
    }

    /// The engine's name.
    fn name(&self) -> (name: &str)
        ensures
            self.may_name(name),
    ;

    /// The engine's version.
    fn version(&self) -> (version: &str)
        ensures
            self.may_version(version),
    ;

    /// Hashes `input`.
    fn hash(&self, input: &[u8]) -> (answer: AlgorithmResult<Vec<u8>>)
        ensures
            self.may_hash(input, answer),
    ;

    /// Tests the hash of `input` and `nonce` against `target`. An engine is to
    /// hash `input` followed by the eight bytes of `nonce`, least significant
    /// first, and to answer whether the digest meets the target.
    fn verify(&self, input: &[u8], target: &[u8], nonce: u64) -> (answer: AlgorithmResult<bool>)
        ensures
            self.may_verify(input, target, nonce, answer),
    ;
}

/// `name` is a name that `engine` gives itself: what a call of its `name` may
/// return.
pub open spec fn named<E: MiningAlgorithm>(engine: &E, name: Seq<char>) -> bool {
    exists|text: &str| call_ensures(E::name, (engine,), text) && text@ == name
}

/// `version` is a version that `engine` gives itself: what a call of its
/// `version` may return.
pub open spec fn versioned<E: MiningAlgorithm>(engine: &E, version: Seq<char>) -> bool {
    exists|text: &str| call_ensures(E::version, (engine,), text) && text@ == version
}

/// `answer` is an answer of `engine` to `input`: what a call of its `hash` on
/// `input` may return.
pub open spec fn hash_answers<E: MiningAlgorithm>(
    engine: &E,
    input: &[u8],
    answer: AlgorithmResult<Vec<u8>>,
) -> bool {
    call_ensures(E::hash, (engine, input), answer)
}

/// `answer` is an answer of `engine` to the question whether `input` with
/// `nonce` meets `target`: what a call of its `verify` may return.
pub open spec fn verify_answers<E: MiningAlgorithm>(
    engine: &E,
    input: &[u8],
    target: &[u8],
    nonce: u64,
    answer: AlgorithmResult<bool>,
) -> bool {
    call_ensures(E::verify, (engine, input, target, nonce), answer)
}

/// `a` promises of its answers what `b` promises of its own.
pub open spec fn promises_as<A: MiningAlgorithm, B: MiningAlgorithm>(a: &A, b: &B) -> bool {
    &&& forall|name: &str| #[trigger] a.may_name(name) == b.may_name(name)
    &&& forall|version: &str| #[trigger] a.may_version(version) == b.may_version(version)
    &&& forall|input: &[u8], answer: AlgorithmResult<Vec<u8>>| #[trigger]
        a.may_hash(input, answer) == b.may_hash(input, answer)
    &&& forall|input: &[u8], target: &[u8], nonce: u64, answer: AlgorithmResult<bool>| #[trigger]
        a.may_verify(input, target, nonce, answer) == b.may_verify(input, target, nonce, answer)
}

/// `input` followed by the eight bytes of `nonce`, least significant first:
/// the bytes that `verify` hashes.
pub open spec fn with_nonce(input: Seq<u8>, nonce: u64) -> Seq<u8> {
    input + spec_u64_to_le_bytes(nonce)
}

/// What `verify` returns, given what hashing the nonce-extended input returned:
/// on a successful hash with a digest, whether the digest meets the target;
/// otherwise the failure `HASH_FAILED`.
pub open spec fn verify_outcome(hashed: AlgorithmResultView<Seq<u8>>, target: Seq<u8>)
    -> AlgorithmResultView<bool> {
    if hashed.success && hashed.data.is_some() {
        success_view(meets_target(hashed.data.unwrap(), target))
    } else {
        error_view("HASH_FAILED"@, "Failed to hash input for verification"@)
    }
}

/// Appends the little-endian bytes of `nonce` to a copy of `input`.
pub fn nonce_input(input: &[u8], nonce: u64) -> (data: Vec<u8>)
    ensures
        data@ == with_nonce(input@, nonce),
{
    let mut data = slice_to_vec(input);
    let mut tail = u64_to_le_bytes(nonce);
    data.append(&mut tail);
    data
}

/// Turns the result of hashing a nonce-extended input into the result of
/// `verify` against `target`.
pub fn verify_hashed(hashed: &AlgorithmResult<Vec<u8>>, target: &[u8]) -> (r: AlgorithmResult<bool>)
    ensures
        r@ == verify_outcome(hashed@, target@),
{
    if hashed.success {
        if let Some(digest) = &hashed.data {
            return AlgorithmResult::success(check_target(digest.as_slice(), target));
        }
    }
    AlgorithmResult::error("HASH_FAILED", "Failed to hash input for verification")
}

/// A boxed engine of any kind is an engine: every call goes to the engine in
/// the box, and the box promises what that engine promises.
impl MiningAlgorithm for Box<dyn MiningAlgorithm> {
    open spec fn may_name(&self, name: &str) -> bool {
        (**self).may_name(name)
    }

    open spec fn may_version(&self, version: &str) -> bool {
        (**self).may_version(version)
    }

    open spec fn may_hash(&self, input: &[u8], answer: AlgorithmResult<Vec<u8>>) -> bool {
        (**self).may_hash(input, answer)
    }

    open spec fn may_verify(
        &self,
        input: &[u8],
        target: &[u8],
        nonce: u64,
        answer: AlgorithmResult<bool>,
    ) -> bool {
        (**self).may_verify(input, target, nonce, answer)
    }

    /// The name that the engine in the box gives itself.
    fn name(&self) -> (name: &str)
        ensures
            (**self).may_name(name),
    {
        (**self).name()
    }

    /// The version that the engine in the box gives itself.
    fn version(&self) -> (version: &str)
        ensures
            (**self).may_version(version),
    {
        (**self).version()
    }

    /// What the engine in the box answers to `input`.
    fn hash(&self, input: &[u8]) -> (answer: AlgorithmResult<Vec<u8>>)
        ensures
            (**self).may_hash(input, answer),
    {
        (**self).hash(input)
    }

    /// What the engine in the box answers to the question whether `input`
    /// with `nonce` meets `target`.
    fn verify(&self, input: &[u8], target: &[u8], nonce: u64) -> (answer: AlgorithmResult<bool>)
        ensures
            (**self).may_verify(input, target, nonce, answer),
    {
        (**self).verify(input, target, nonce)
    }
}

} // verus!
