//! The scrypt and double SHA-256 engines, and the registry that finds engines
//! by name.

use crate::blake2s::Blake2SAlgorithm;
use crate::digests::{
    scrypt_derive, scrypt_memory_fits, scrypt_of, scrypt_params_valid, sha256, sha256_of,
    ScryptFailure,
};
use crate::engine::{
    hash_answers, named, nonce_input, promises_as, verify_answers, verify_hashed, verify_outcome,
    with_nonce, MiningAlgorithm,
};
use crate::result::{error_view, success_view, AlgorithmResult, AlgorithmResultView};
use vstd::arithmetic::power2::{lemma2_to64, lemma_pow2_strictly_increases, lemma_pow2_unfold, pow2};
use vstd::prelude::*;
use vstd::string::{StringExecFns, StringSliceAdditionalSpecFns};

verus! {

/// The parameters of scrypt: the cost `n`, the block size `r`, the
/// parallelism `p` and the length of the key in bytes.
#[derive(Debug, Clone, Copy)]
pub struct ScryptParams {
    pub n: u32,
    pub r: u32,
    pub p: u32,
    pub key_len: usize,
}

/// The parameters of Litecoin: cost 1024, block size 1, parallelism 1, keys
/// of 32 bytes.
pub open spec fn litecoin_params() -> ScryptParams {
    ScryptParams { n: 1024, r: 1, p: 1, key_len: 32 }
}

impl Default for ScryptParams {
    fn default() -> (params: Self)
        ensures
            params == litecoin_params(),
    {
        ScryptParams { n: 1024, r: 1, p: 1, key_len: 32 }
    }
}

/// The whole part of the binary logarithm of `n`, and zero for zero.
pub open spec fn log2_floor(n: nat) -> nat
    decreases n,
{
    if n <= 1 {
        0
    } else {
        1 + log2_floor(n / 2)
    }
}

/// The whole part of the binary logarithm of `n`, and zero for zero.
pub fn floor_log2(n: u32) -> (k: u8)
    ensures
        k == log2_floor(n as nat),
        k < 32,
{
    let mut k: u8 = 0;
    let mut m: u32 = n;
    proof {
        lemma2_to64();
    }
    while m > 1
        invariant
            k < 32,
            log2_floor(n as nat) == k + log2_floor(m as nat),
            m * pow2(k as nat) <= n,
        decreases m,
    {
        proof {
            lemma_pow2_unfold((k + 1) as nat);
            lemma2_to64();
            assert((m / 2) * pow2((k + 1) as nat) <= n) by (nonlinear_arith)
                requires
                    m * pow2(k as nat) <= n,
                    pow2((k + 1) as nat) == 2 * pow2(k as nat),
            ;
            assert(pow2((k + 1) as nat) <= n) by (nonlinear_arith)
                requires
                    (m / 2) * pow2((k + 1) as nat) <= n,
                    m / 2 >= 1,
            ;
            if k + 1 >= 32 {
                if k + 1 > 32 {
                    lemma_pow2_strictly_increases(32, (k + 1) as nat);
                }
                assert(false);
            }
        }
        m = m / 2;
        k = k + 1;
    }
    k
}

/// Tells whether the working memory of scrypt can be asked for.
pub fn memory_fits(log_n: u8, r: u32, p: u32) -> (fits: bool)
    requires
        log_n < 32,
    ensures
        fits == scrypt_memory_fits(log_n, r, p),
{
    let mut cost: u128 = 1;
    let mut i: u8 = 0;
    proof {
        lemma2_to64();
    }
    while i < log_n
        invariant
            i <= log_n,
            log_n < 32,
            cost == pow2(i as nat),
            cost <= 0x8000_0000,
        decreases log_n - i,
    {
        proof {
            lemma_pow2_unfold((i + 1) as nat);
            if i + 1 < 31 {
                lemma_pow2_strictly_increases((i + 1) as nat, 31);
            }
            lemma2_to64();
        }
        cost = cost * 2;
        i = i + 1;
    }
    assert(128 * r * cost <= 0x80_0000_0000_0000_0000 && 128 * r * p <= 0x80_0000_0000_0000_0000)
        by (nonlinear_arith)
        requires
            r <= 0xFFFF_FFFF,
            p <= 0xFFFF_FFFF,
            cost <= 0x8000_0000,
    ;
    let block: u128 = 128 * (r as u128);
    block * cost <= (isize::MAX as u128) && block * (p as u128) <= (isize::MAX as u128)
}

/// What the scrypt engine with the given parameters answers to `input`: with
/// parameters that scrypt accepts and working memory that can be asked for,
/// the key derived from the input as password and salt, the cost exponent
/// being the whole part of the binary logarithm of the cost; with any others,
/// the failure `INVALID_PARAMS`.
pub open spec fn scrypt_outcome(params: ScryptParams, input: Seq<u8>) -> AlgorithmResultView<
    Seq<u8>,
> {
    let log_n = log2_floor(params.n as nat) as u8;
    if scrypt_params_valid(log_n, params.r, params.p, params.key_len) && scrypt_memory_fits(
        log_n,
        params.r,
        params.p,
    ) {
        success_view(scrypt_of(input, input, log_n, params.r, params.p, params.key_len as nat))
    } else {
        error_view("INVALID_PARAMS"@, "Invalid scrypt params: invalid scrypt parameters"@)
    }
}

/// The engine that hashes with scrypt, the input being password and salt at
/// once.
pub struct ScryptAlgorithm {
    pub params: ScryptParams,
}

impl ScryptAlgorithm {
    /// The engine with the parameters of Litecoin.
    pub fn new() -> (engine: Self)
        ensures
            engine.params == litecoin_params(),
    {
        Self::with_params(ScryptParams::default())
    }

    /// The engine with the given parameters.
    pub fn with_params(params: ScryptParams) -> (engine: Self)
        ensures
            engine.params == params,
    {
        ScryptAlgorithm { params }
    }

    /// The engine with the parameters of Litecoin.
    pub fn litecoin() -> (engine: Self)
        ensures
            engine.params == litecoin_params(),
    {
        Self::with_params(ScryptParams { n: 1024, r: 1, p: 1, key_len: 32 })
    }
}

impl Default for ScryptAlgorithm {
    fn default() -> (engine: Self)
        ensures
            engine.params == litecoin_params(),
    {
        ScryptAlgorithm::new()
    }
}

impl MiningAlgorithm for ScryptAlgorithm {
    open spec fn may_name(&self, name: &str) -> bool {
        name@ == "scrypt"@
    }

    open spec fn may_version(&self, version: &str) -> bool {
        version@ == "1.0.0"@
    }

    open spec fn may_hash(&self, input: &[u8], answer: AlgorithmResult<Vec<u8>>) -> bool {
        &&& answer@ == scrypt_outcome(self.params, input@)
        &&& answer.success ==> answer.data.unwrap()@.len() == self.params.key_len
    }

    open spec fn may_verify(
        &self,
        input: &[u8],
        target: &[u8],
        nonce: u64,
        answer: AlgorithmResult<bool>,
    ) -> bool {
        answer@ == verify_outcome(scrypt_outcome(self.params, with_nonce(input@, nonce)), target@)
    }

    fn name(&self) -> (r: &str)
        ensures
            r@ == "scrypt"@,
    {
        "scrypt"
    }

    fn version(&self) -> (r: &str)
        ensures
            r@ == "1.0.0"@,
    {
        "1.0.0"
    }

    /// The scrypt key of the input, of the configured length.
    fn hash(&self, input: &[u8]) -> (r: AlgorithmResult<Vec<u8>>)
        ensures
            r@ == scrypt_outcome(self.params, input@),
            r.success ==> r.data.unwrap()@.len() == self.params.key_len,
    {
        let log_n = floor_log2(self.params.n);
        if !memory_fits(log_n, self.params.r, self.params.p) {
            return AlgorithmResult::error(
                "INVALID_PARAMS",
                "Invalid scrypt params: invalid scrypt parameters",
            );
        }
        match scrypt_derive(input, input, log_n, self.params.r, self.params.p, self.params.key_len) {
            Ok(key) => AlgorithmResult::success(key),
            Err(ScryptFailure::InvalidParams) => AlgorithmResult::error(
                "INVALID_PARAMS",
                "Invalid scrypt params: invalid scrypt parameters",
            ),
            Err(ScryptFailure::InvalidOutputLen) => AlgorithmResult::error(
                "SCRYPT_FAILED",
                "Scrypt hash failed: invalid output buffer length",
            ),
        }
    }

    fn verify(&self, input: &[u8], target: &[u8], nonce: u64) -> (r: AlgorithmResult<bool>)
        ensures
            r@ == verify_outcome(scrypt_outcome(self.params, with_nonce(input@, nonce)), target@),
    {
        let data = nonce_input(input, nonce);
        let hashed = self.hash(data.as_slice());
        verify_hashed(&hashed, target)
    }
}

/// The engine that hashes with SHA-256 twice over.
pub struct Sha256dAlgorithm {}

/// What the double SHA-256 engine answers to `input`: the SHA-256 digest of
/// its SHA-256 digest, always.
pub open spec fn sha256d_outcome(input: Seq<u8>) -> AlgorithmResultView<Seq<u8>> {
    success_view(sha256_of(sha256_of(input)))
}

impl Sha256dAlgorithm {
    /// The engine `sha256d`, version `1.0.0`.
    pub fn new() -> (engine: Self) {
        Sha256dAlgorithm {  }
    }

    /// The engine as Bitcoin uses it.
    pub fn bitcoin() -> (engine: Self) {
        Self::new()
    }
}

impl Default for Sha256dAlgorithm {
    fn default() -> (engine: Self) {
        Sha256dAlgorithm::new()
    }
}

impl MiningAlgorithm for Sha256dAlgorithm {
    open spec fn may_name(&self, name: &str) -> bool {
        name@ == "sha256d"@
    }

    open spec fn may_version(&self, version: &str) -> bool {
        version@ == "1.0.0"@
    }

    open spec fn may_hash(&self, input: &[u8], answer: AlgorithmResult<Vec<u8>>) -> bool {
        answer@ == sha256d_outcome(input@) && answer.data.unwrap()@.len() == 32
    }

    open spec fn may_verify(
        &self,
        input: &[u8],
        target: &[u8],
        nonce: u64,
        answer: AlgorithmResult<bool>,
    ) -> bool {
        answer@ == verify_outcome(sha256d_outcome(with_nonce(input@, nonce)), target@)
    }

    fn name(&self) -> (r: &str)
        ensures
            r@ == "sha256d"@,
    {
        "sha256d"
    }

    fn version(&self) -> (r: &str)
        ensures
            r@ == "1.0.0"@,
    {
        "1.0.0"
    }

    /// The double SHA-256 digest of `input`: thirty-two bytes, for every
    /// input.
    fn hash(&self, input: &[u8]) -> (r: AlgorithmResult<Vec<u8>>)
        ensures
            r@ == sha256d_outcome(input@),
            r.data.unwrap()@.len() == 32,
    {
        let first = sha256(input);
        let second = sha256(first.as_slice());
        AlgorithmResult::success(second)
    }

    fn verify(&self, input: &[u8], target: &[u8], nonce: u64) -> (r: AlgorithmResult<bool>)
        ensures
            r@ == verify_outcome(sha256d_outcome(with_nonce(input@, nonce)), target@),
    {
        let data = nonce_input(input, nonce);
        let hashed = self.hash(data.as_slice());
        verify_hashed(&hashed, target)
    }
}

/// An engine under the name that it was registered with.
pub struct RegistryEntry<E> {
    pub name: String,
    pub engine: E,
}

impl<E> View for RegistryEntry<E> {
    type V = (Seq<char>, E);

    open spec fn view(&self) -> (Seq<char>, E) {
        (self.name@, self.engine)
    }
}

/// The place of the entry named `name` among `names`, or their number where
/// none has that name.
pub open spec fn place_of(names: Seq<Seq<char>>, name: Seq<char>) -> nat
    decreases names.len(),
{
    if names.len() == 0 {
        0
    } else if names[0] == name {
        0
    } else {
        1 + place_of(names.drop_first(), name)
    }
}

/// The names of `entries`, in their order.
pub open spec fn names_of<E>(entries: Seq<(Seq<char>, E)>) -> Seq<Seq<char>> {
    entries.map_values(|e: (Seq<char>, E)| e.0)
}

/// The engine registered as `name` among `entries`, if there is one.
pub open spec fn lookup<E>(entries: Seq<(Seq<char>, E)>, name: Seq<char>) -> Option<E> {
    let i = place_of(names_of(entries), name);
    if i < entries.len() {
        Some(entries[i as int].1)
    } else {
        None
    }
}

/// `entries` after `engine` was registered as `name`: in the place of the
/// entry of that name if there was one, else at the end.
pub open spec fn registered<E>(entries: Seq<(Seq<char>, E)>, name: Seq<char>, engine: E) -> Seq<
    (Seq<char>, E),
> {
    let i = place_of(names_of(entries), name);
    if i < entries.len() {
        entries.update(i as int, (name, engine))
    } else {
        entries.push((name, engine))
    }
}

/// No two of `names` are one.
pub open spec fn distinct(names: Seq<Seq<char>>) -> bool {
    forall|i: int, j: int| 0 <= i < j < names.len() ==> names[i] != names[j]
}

/// What asking for an engine that is not registered returns.
pub open spec fn not_found<V>(name: Seq<char>) -> AlgorithmResultView<V> {
    error_view("ALGO_NOT_FOUND"@, "Algorithm not found: "@ + name)
}

/// `place_of` is a place among `names` or their number; no name before it is
/// `name`, and the name at it, if there is one, is.
pub proof fn lemma_place_of(names: Seq<Seq<char>>, name: Seq<char>)
    ensures
        place_of(names, name) <= names.len(),
        forall|j: int| 0 <= j < place_of(names, name) ==> names[j] != name,
        place_of(names, name) < names.len() ==> names[place_of(names, name) as int] == name,
    decreases names.len(),
{
    if names.len() > 0 && names[0] != name {
        let rest = names.drop_first();
        lemma_place_of(rest, name);
        assert forall|j: int| 0 <= j < place_of(names, name) implies names[j] != name by {
            if j > 0 {
                assert(rest[j - 1] == names[j]);
            }
        }
        if place_of(names, name) < names.len() {
            assert(rest[place_of(rest, name) as int] == names[place_of(names, name) as int]);
        }
    }
}

/// Tells whether two strings hold one text.
fn same_text(a: &str, b: &str) -> (same: bool)
    ensures
        same == (a@ == b@),
{
    let x = a.as_bytes();
    let y = b.as_bytes();
    proof {
        vstd::utf8::encode_utf8_decode_utf8(a@);
        vstd::utf8::encode_utf8_decode_utf8(b@);
    }
    if x.len() != y.len() {
        return false;
    }
    let mut i: usize = 0;
    while i < x.len()
        invariant
            i <= x@.len(),
            x@.len() == y@.len(),
            x@ == a.spec_bytes(),
            y@ == b.spec_bytes(),
            forall|j: int| 0 <= j < i ==> x@[j] == y@[j],
        decreases x.len() - i,
    {
        if x[i] != y[i] {
            assert(a@ != b@) by {
                if a@ == b@ {
                    assert(x@[i as int] == y@[i as int]);
                }
            }
            return false;
        }
        i += 1;
    }
    assert(x@ =~= y@);
    true
}

/// The engines that a service offers, found by the names under which they
/// were registered. No two entries of a registry have one name.
pub struct AlgorithmRegistry<E: MiningAlgorithm> {
    algorithms: Vec<RegistryEntry<E>>,
}

impl<E: MiningAlgorithm> View for AlgorithmRegistry<E> {
    type V = Seq<(Seq<char>, E)>;

    /// The names and their engines, in the order in which the names were
    /// first registered.
    closed spec fn view(&self) -> Seq<(Seq<char>, E)> {
        self.algorithms@.map_values(|e: RegistryEntry<E>| e@)
    }
}

impl<E: MiningAlgorithm> AlgorithmRegistry<E> {
    /// No two entries of the registry have one name.
    pub open spec fn wf(&self) -> bool {
        distinct(names_of(self@))
    }

    /// A registry without engines.
    pub fn empty() -> (registry: Self)
        ensures
            registry.wf(),
            registry@ == Seq::<(Seq<char>, E)>::empty(),
    {
        let registry = AlgorithmRegistry { algorithms: Vec::new() };
        assert(registry@ =~= Seq::<(Seq<char>, E)>::empty());
        registry
    }

    /// The place of the entry named `name`, or the number of entries where
    /// none has that name.
    fn find(&self, name: &str) -> (i: usize)
        ensures
            i == place_of(names_of(self@), name@),
            i <= self.algorithms@.len(),
            i < self.algorithms@.len() ==> self.algorithms@[i as int].name@ == name@,
            forall|j: int| 0 <= j < i ==> self.algorithms@[j].name@ != name@,
    {
        let mut i: usize = 0;
        let ghost names = names_of(self@);
        proof {
            lemma_place_of(names, name@);
        }
        while i < self.algorithms.len()
            invariant
                i <= self.algorithms@.len(),
                i <= place_of(names, name@),
                names == names_of(self@),
                names.len() == self.algorithms@.len(),
                place_of(names, name@) <= names.len(),
                forall|j: int| 0 <= j < place_of(names, name@) ==> names[j] != name@,
                place_of(names, name@) < names.len() ==> names[place_of(names, name@) as int]
                    == name@,
                forall|j: int| 0 <= j < i ==> self.algorithms@[j].name@ != name@,
            decreases self.algorithms.len() - i,
        {
            assert(names[i as int] == self.algorithms@[i as int].name@);
            if same_text(self.algorithms[i].name.as_str(), name) {
                return i;
            }
            i += 1;
        }
        i
    }

    /// Registers `algorithm` as `name`, in place of the engine that had the
    /// name before, if there was one.
    pub fn register_as(&mut self, name: String, algorithm: E)
        requires
            old(self).wf(),
        ensures
            final(self).wf(),
            final(self)@ == registered(old(self)@, name@, algorithm),
            lookup(final(self)@, name@) == Some(algorithm),
    {
        let i = self.find(name.as_str());
        let ghost before = self@;
        let ghost text = name@;
        let entry = RegistryEntry { name, engine: algorithm };
        if i < self.algorithms.len() {
            self.algorithms[i] = entry;
        } else {
            self.algorithms.push(entry);
        }
        proof {
            assert(self@ =~= registered(before, text, algorithm));
            let names = names_of(self@);
            let old_names = names_of(before);
            assert(names.len() == self@.len());
            assert forall|j: int| 0 <= j < names.len() implies names[j] == (if j == i {
                text
            } else {
                old_names[j]
            }) by {
                assert(names[j] == self@[j].0);
                if j != i {
                    assert(old_names[j] == before[j].0);
                }
            }
            assert forall|j: int| 0 <= j < i implies names[j] != text by {
                assert(old_names[j] == before[j].0);
            }
            assert forall|x: int, y: int| 0 <= x < y < names.len() implies names[x] != names[y] by {
                if y == i {
                    assert(names[x] == old_names[x]);
                } else if x == i {
                    assert(old_names[x] == before[x].0);
                    assert(old_names[x] != old_names[y]);
                } else {
                    assert(old_names[x] != old_names[y]);
                }
            }
            lemma_place_of(names, text);
            let k = place_of(names, text);
            if k < i {
                assert(names[k as int] == text);
            }
            if k > i {
                assert(names[i as int] == text);
            }
        }
    }

    /// Registers `algorithm` under the name that it gives itself, in place of
    /// the engine that had the name before, if there was one.
    pub fn register(&mut self, algorithm: E)
        requires
            old(self).wf(),
        ensures
            final(self).wf(),
            exists|name: Seq<char>|
                named(&algorithm, name) && final(self)@ == #[trigger] registered(
                    old(self)@,
                    name,
                    algorithm,
                ) && lookup(final(self)@, name) == Some(algorithm),
    {
        let name = algorithm.name().to_string();
        let ghost text = name@;
        self.register_as(name, algorithm);
        assert(named(&algorithm, text) && self@ == registered(old(self)@, text, algorithm));
    }

    /// The engine registered as `name`, if there is one.
    pub fn get(&self, name: &str) -> (engine: Option<&E>)
        ensures
            engine.is_some() == lookup(self@, name@).is_some(),
            engine.is_some() ==> *engine.unwrap() == lookup(self@, name@).unwrap(),
    {
        let i = self.find(name);
        if i < self.algorithms.len() {
            Some(&self.algorithms[i].engine)
        } else {
            None
        }
    }

    /// The names under which engines are registered.
    pub fn list(&self) -> (names: Vec<&str>)
        ensures
            names@.map_values(|n: &str| n@) == names_of(self@),
    {
        let mut names: Vec<&str> = Vec::new();
        let mut i: usize = 0;
        while i < self.algorithms.len()
            invariant
                i <= self.algorithms@.len(),
                names@.len() == i,
                forall|j: int| 0 <= j < i ==> names@[j]@ == self.algorithms@[j].name@,
            decreases self.algorithms.len() - i,
        {
            names.push(self.algorithms[i].name.as_str());
            i += 1;
        }
        assert(names@.map_values(|n: &str| n@) =~= names_of(self@));
        names
    }

    /// Hashes `input` with the engine registered as `algorithm_name`, and
    /// returns what the engine answers; fails with `ALGO_NOT_FOUND` where
    /// there is none.
    pub fn hash(&self, algorithm_name: &str, input: &[u8]) -> (r: AlgorithmResult<Vec<u8>>)
        ensures
            match lookup(self@, algorithm_name@) {
                Some(engine) => hash_answers(&engine, input, r),
                None => r@ == not_found::<Seq<u8>>(algorithm_name@),
            },
    {
        match self.get(algorithm_name) {
            Some(engine) => engine.hash(input),
            None => not_found_result(algorithm_name),
        }
    }

    /// Verifies with the engine registered as `algorithm_name`, and returns
    /// what the engine answers; fails with `ALGO_NOT_FOUND` where there is
    /// none.
    pub fn verify(&self, algorithm_name: &str, input: &[u8], target: &[u8], nonce: u64) -> (r:
        AlgorithmResult<bool>)
        ensures
            match lookup(self@, algorithm_name@) {
                Some(engine) => verify_answers(&engine, input, target, nonce, r),
                None => r@ == not_found::<bool>(algorithm_name@),
            },
    {
        match self.get(algorithm_name) {
            Some(engine) => engine.verify(input, target, nonce),
            None => not_found_result(algorithm_name),
        }
    }
}

/// The failure `ALGO_NOT_FOUND` for the name `name`.
pub fn not_found_result<T: View>(name: &str) -> (r: AlgorithmResult<T>)
    ensures
        r@ == not_found::<T::V>(name@),
{
    let message = String::from_str("Algorithm not found: ").concat(name);
    AlgorithmResult::error("ALGO_NOT_FOUND", message.as_str())
}

impl AlgorithmRegistry<Box<dyn MiningAlgorithm>> {
    /// The registry of the three engines of this crate, each under its own
    /// name: `blake2s`, `scrypt` with the parameters of Litecoin, and
    /// `sha256d`. The engine behind each name promises what the engine of
    /// that kind promises.
    pub fn new() -> (registry: Self)
        ensures
            registry.wf(),
            names_of(registry@) == seq!["blake2s"@, "scrypt"@, "sha256d"@],
            promises_as(&registry@[0].1, &(Blake2SAlgorithm {  })),
            promises_as(&registry@[1].1, &(ScryptAlgorithm { params: litecoin_params() })),
            promises_as(&registry@[2].1, &(Sha256dAlgorithm {  })),
    {
        let mut registry: AlgorithmRegistry<Box<dyn MiningAlgorithm>> = AlgorithmRegistry::empty();
        proof {
            reveal_strlit("blake2s");
            reveal_strlit("scrypt");
            reveal_strlit("sha256d");
            reveal_with_fuel(place_of, 4);
            assert("blake2s"@.len() == 7 && "scrypt"@.len() == 6 && "sha256d"@.len() == 7);
            assert("blake2s"@[0] == 'b' && "sha256d"@[0] == 's');
        }
        let blake = Blake2SAlgorithm::new();
        let blake_name = blake.name().to_string();
        registry.register_as(blake_name, Box::new(blake));
        assert(names_of(registry@) =~= seq!["blake2s"@]);
        assert(registry@.len() == 1);
        assert(promises_as(&registry@[0].1, &Blake2SAlgorithm {  }));
        let ghost one = registry@;
        let scrypt = ScryptAlgorithm::litecoin();
        let scrypt_name = scrypt.name().to_string();
        registry.register_as(scrypt_name, Box::new(scrypt));
        assert(names_of(registry@) =~= seq!["blake2s"@, "scrypt"@]) by {
            assert(seq!["blake2s"@].drop_first() =~= Seq::<Seq<char>>::empty());
        }
        assert(registry@.len() == 2);
        assert(registry@[0] == one[0]);
        assert(promises_as(&registry@[1].1, &ScryptAlgorithm { params: litecoin_params() }));
        let ghost two = registry@;
        let sha = Sha256dAlgorithm::bitcoin();
        let sha_name = sha.name().to_string();
        registry.register_as(sha_name, Box::new(sha));
        assert(names_of(registry@) =~= seq!["blake2s"@, "scrypt"@, "sha256d"@]) by {
            assert(seq!["blake2s"@, "scrypt"@].drop_first() =~= seq!["scrypt"@]);
            assert(seq!["scrypt"@].drop_first() =~= Seq::<Seq<char>>::empty());
        }
        assert(registry@.len() == 3);
        assert(registry@[0] == two[0]);
        assert(registry@[1] == two[1]);
        assert(promises_as(&registry@[2].1, &Sha256dAlgorithm {  }));
        registry
    }
}

impl Default for AlgorithmRegistry<Box<dyn MiningAlgorithm>> {
    fn default() -> (registry: Self)
        ensures
            registry.wf(),
            names_of(registry@) == seq!["blake2s"@, "scrypt"@, "sha256d"@],
            promises_as(&registry@[0].1, &(Blake2SAlgorithm {  })),
            promises_as(&registry@[1].1, &(ScryptAlgorithm { params: litecoin_params() })),
            promises_as(&registry@[2].1, &(Sha256dAlgorithm {  })),
    {
        AlgorithmRegistry::new()
    }
}

} // verus!
