//! The hash functions that the engines are built on, each behind a contract
//! that is taken on trust.

use blake2::Blake2s256;
use scrypt::{scrypt, Params};
use sha2::{Digest, Sha256};
use vstd::arithmetic::power2::pow2;
use vstd::prelude::*;

verus! {

/// The BLAKE2s-256 digest of `data`.
pub uninterp spec fn blake2s256_of(data: Seq<u8>) -> Seq<u8>;

/// The SHA-256 digest of `data`.
pub uninterp spec fn sha256_of(data: Seq<u8>) -> Seq<u8>;

/// The scrypt key of `len` bytes derived from `password` and `salt` with cost
/// `2^log_n`, block size `r` and parallelism `p`.
pub uninterp spec fn scrypt_of(
    password: Seq<u8>,
    salt: Seq<u8>,
    log_n: u8,
    r: u32,
    p: u32,
    len: nat,
) -> Seq<u8>;

/// The BLAKE2s-256 digest of `data`.
///
/// Calls `Digest::digest` of `blake2::Blake2s256`. The contract names the
/// digest and claims that it has thirty-two bytes, the output size of the
/// type.
#[verifier::external_body]
pub(crate) fn blake2s256(data: &[u8]) -> (digest: Vec<u8>)
    ensures
        digest@ == blake2s256_of(data@),
        digest@.len() == 32,
{
    Blake2s256::digest(data).to_vec()
}

/// The SHA-256 digest of `data`.
///
/// Calls `Digest::digest` of `sha2::Sha256`. The contract names the digest and
/// claims that it has thirty-two bytes, the output size of the type.
#[verifier::external_body]
pub(crate) fn sha256(data: &[u8]) -> (digest: Vec<u8>)
    ensures
        digest@ == sha256_of(data@),
        digest@.len() == 32,
{
    Sha256::digest(data).to_vec()
}

/// Why a key could not be derived.
#[derive(Debug, Clone, Copy, PartialEq, Eq, Structural)]
pub enum ScryptFailure {
    /// The parameters were refused.
    InvalidParams,
    /// The length of the key was refused.
    InvalidOutputLen,
}

/// The parameters that scrypt accepts: a cost exponent below the width of the
/// machine word, a block size and a parallelism above zero, a key length
/// from ten to sixty-four bytes, working memory whose size in bytes fits the
/// machine word (`128 * r` times the cost, and times `p`), a cost below
/// `2^(16 * r)`, and `r * p` below `2^30`.
pub open spec fn scrypt_params_valid(log_n: u8, r: u32, p: u32, len: usize) -> bool {
    &&& r > 0
    &&& p > 0
    &&& log_n < usize::BITS
    &&& 10 <= len <= 64
    &&& 128 * r <= usize::MAX
    &&& 128 * r * pow2(log_n as nat) <= usize::MAX
    &&& 128 * r * p <= usize::MAX
    &&& log_n < 16 * r
    &&& r * p < 0x4000_0000
}

/// The working memory of scrypt can be asked for: its size in bytes, `128 * r`
/// times the cost and times `p`, is within what one allocation may hold.
pub open spec fn scrypt_memory_fits(log_n: u8, r: u32, p: u32) -> bool {
    &&& 128 * r * pow2(log_n as nat) <= isize::MAX
    &&& 128 * r * p <= isize::MAX
}

/// Derives a key of `len` bytes from `password` and `salt`.
///
/// Calls `scrypt::Params::new` on the four parameters and, where that
/// accepts them, `scrypt::scrypt` with a buffer of `len` bytes. The contract
/// claims that the parameters are refused exactly where `Params::new` tests
/// them and finds them wanting, and that accepted parameters yield a key of
/// `len` bytes, which it names: `scrypt` refuses only an empty or overlong
/// buffer, and an accepted `len` is neither. `scrypt` allocates its working
/// memory in two vectors and panics where one of them would be larger than
/// an allocation may be: accepted parameters must keep within that. Within
/// it the memory is allocated as any vector is.
#[verifier::external_body]
pub(crate) fn scrypt_derive(
    password: &[u8],
    salt: &[u8],
    log_n: u8,
    r: u32,
    p: u32,
    len: usize,
) -> (res: Result<Vec<u8>, ScryptFailure>)
    requires
        scrypt_params_valid(log_n, r, p, len) ==> scrypt_memory_fits(log_n, r, p),
    ensures
        !scrypt_params_valid(log_n, r, p, len) ==> res is Err && res->Err_0
            == ScryptFailure::InvalidParams,
        scrypt_params_valid(log_n, r, p, len) ==> res is Ok && res->Ok_0@ == scrypt_of(
            password@,
            salt@,
            log_n,
            r,
            p,
            len as nat,
        ) && res->Ok_0@.len() == len,
{
    let params = match Params::new(log_n, r, p, len) {
        Ok(params) => params,
        Err(_) => return Err(ScryptFailure::InvalidParams),
    };
    let mut output = vec![0u8; len];
    match scrypt(password, salt, &params, &mut output) {
        Ok(()) => Ok(output),
        Err(_) => Err(ScryptFailure::InvalidOutputLen),
    }
}

} // verus!
