//! The hash primitive: a selectable 32-byte digest behind a uniform
//! interface, together with the mathematical model of the hash chain.
//!
//! The model names the two digest functions (`sha256_of`, `blake3_of`) and
//! defines the chain tip after `n` advance steps (`chain_of`). Every
//! operation of [`Hasher`] is specified against that model, so chain
//! extension and chain verification are provably consistent with each other.

use vstd::prelude::*;

verus! {

/// The selectable digest algorithm: a closed choice between two
/// interchangeable 32-byte digest functions.
#[derive(Clone, Copy, Debug, PartialEq, Eq, Structural)]
pub enum Algorithm {
    SHA256,
    BLAKE3,
}

/// SHA-256 is specified for messages of fewer than 2^64 bits, so inputs
/// longer than this many bytes cannot be digested under that algorithm.
pub const MAX_SHA256_INPUT_BYTES: u64 = 0x1fff_ffff_ffff_ffff;

/// The 32-byte SHA-256 digest of a byte string, named abstractly: the
/// result depends on the input bytes alone.
pub uninterp spec fn sha256_of(data: Seq<u8>) -> Seq<u8>;

/// The 32-byte BLAKE3 digest of a byte string, named abstractly: the
/// result depends on the input bytes alone.
pub uninterp spec fn blake3_of(data: Seq<u8>) -> Seq<u8>;

/// The digest of `data` under the selected algorithm.
pub open spec fn digest_of(algorithm: Algorithm, data: Seq<u8>) -> Seq<u8> {
    match algorithm {
        Algorithm::SHA256 => sha256_of(data),
        Algorithm::BLAKE3 => blake3_of(data),
    }
}

/// The chain tip after applying the one-step advance (a digest of the
/// previous tip alone) exactly `n` times to `h`.
pub open spec fn chain_of(algorithm: Algorithm, h: Seq<u8>, n: nat) -> Seq<u8>
    decreases n,
{
    if n == 0 {
        h
    } else {
        digest_of(algorithm, chain_of(algorithm, h, (n - 1) as nat))
    }
}

/// The state a chain extension starts from: the previous tip, with event
/// bytes folded in first when they are present.
pub open spec fn chain_start(algorithm: Algorithm, prev: Seq<u8>, event: Option<Seq<u8>>) -> Seq<u8> {
    match event {
        Option::Some(data) => digest_of(algorithm, prev + data),
        Option::None => prev,
    }
}

/// The algorithm selected by a one-byte encoding: 1 selects BLAKE3 and
/// every other value falls back to the default, SHA-256.
pub open spec fn algorithm_of_code(code: u8) -> Algorithm {
    if code == 1 {
        Algorithm::BLAKE3
    } else {
        Algorithm::SHA256
    }
}

/// The one-byte encoding of an algorithm.
pub open spec fn code_of_algorithm(algorithm: Algorithm) -> u8 {
    match algorithm {
        Algorithm::SHA256 => 0,
        Algorithm::BLAKE3 => 1,
    }
}

impl From<u8> for Algorithm {
    /// Decodes an algorithm selector byte; any out-of-range value silently
    /// falls back to the default algorithm rather than failing.
    fn from(value: u8) -> (r: Algorithm) {
        match value {
            1 => Algorithm::BLAKE3,
            _ => Algorithm::SHA256,
        }
    }
}

impl vstd::std_specs::convert::FromSpecImpl<u8> for Algorithm {
    open spec fn obeys_from_spec() -> bool {
        true
    }

    open spec fn from_spec(v: u8) -> Algorithm {
        algorithm_of_code(v)
    }
}

impl From<Algorithm> for u8 {
    fn from(value: Algorithm) -> (r: u8) {
        match value {
            Algorithm::SHA256 => 0,
            Algorithm::BLAKE3 => 1,
        }
    }
}

impl vstd::std_specs::convert::FromSpecImpl<Algorithm> for u8 {
    open spec fn obeys_from_spec() -> bool {
        true
    }

    open spec fn from_spec(v: Algorithm) -> u8 {
        code_of_algorithm(v)
    }
}

impl Default for Algorithm {
    /// The default algorithm is SHA-256.
    fn default() -> (r: Algorithm)
        ensures
            r == Algorithm::SHA256,
    {
        Algorithm::SHA256
    }
}

impl Algorithm {
    /// The display name of the algorithm.
    pub fn name(&self) -> (r: &'static str)
        ensures
            *self == Algorithm::SHA256 ==> r@ == "SHA-256"@,
            *self == Algorithm::BLAKE3 ==> r@ == "BLAKE3"@,
    {
        match *self {
            Algorithm::SHA256 => "SHA-256",
            Algorithm::BLAKE3 => "BLAKE3",
        }
    }
}

/// Relies on `ring::digest::digest` with the SHA-256 algorithm: the 32-byte
/// digest of `data`, a function of the input bytes alone. The length bound
/// keeps the input below the limit at which ring refuses (and SHA-256 does
/// not define) the digest.
#[verifier::external_body]
fn sha256_digest(data: &[u8]) -> (r: [u8; 32])
    requires
        data@.len() <= MAX_SHA256_INPUT_BYTES,
    ensures
        r@ == sha256_of(data@),
{
    let digest = ring::digest::digest(&ring::digest::SHA256, data);
    let mut out: [u8; 32] = [0u8; 32];
    out.copy_from_slice(digest.as_ref());
    out
}

/// Relies on `ring::digest::Context` (new, update, finish) with SHA-256:
/// feeding two slices in order digests their concatenation, exactly as the
/// one-shot digest of the concatenated bytes would.
#[verifier::external_body]
fn sha256_digest_pair(prefix: &[u8; 32], data: &[u8]) -> (r: [u8; 32])
    requires
        prefix@.len() + data@.len() <= MAX_SHA256_INPUT_BYTES,
    ensures
        r@ == sha256_of(prefix@ + data@),
{
    let mut context = ring::digest::Context::new(&ring::digest::SHA256);
    context.update(prefix);
    context.update(data);
    let digest = context.finish();
    let mut out: [u8; 32] = [0u8; 32];
    out.copy_from_slice(digest.as_ref());
    out
}

/// Relies on `blake3::hash`: the 32-byte BLAKE3 digest of `data`, a
/// function of the input bytes alone.
#[verifier::external_body]
fn blake3_digest(data: &[u8]) -> (r: [u8; 32])
    ensures
        r@ == blake3_of(data@),
{
    *blake3::hash(data).as_bytes()
}

/// Relies on `blake3::Hasher` (new, update, finalize): feeding two slices
/// in order digests their concatenation, exactly as the one-shot digest of
/// the concatenated bytes would.
#[verifier::external_body]
fn blake3_digest_pair(prefix: &[u8; 32], data: &[u8]) -> (r: [u8; 32])
    ensures
        r@ == blake3_of(prefix@ + data@),
{
    let mut hasher = blake3::Hasher::new();
    hasher.update(prefix);
    hasher.update(data);
    *hasher.finalize().as_bytes()
}

/// The hash primitive: stateless apart from its algorithm selector, so for
/// a fixed selector every operation is a pure function of its inputs.
#[derive(Clone, Copy, Debug)]
pub struct Hasher {
    algorithm: Algorithm,
}

impl View for Hasher {
    type V = Algorithm;

    /// A hasher is characterised entirely by its algorithm selector.
    closed spec fn view(&self) -> Algorithm {
        self.algorithm
    }
}

impl Default for Hasher {
    /// A hasher over the default algorithm, SHA-256.
    fn default() -> (r: Hasher)
        ensures
            r@ == Algorithm::SHA256,
    {
        Hasher { algorithm: Algorithm::SHA256 }
    }
}

impl Hasher {
    pub fn new(algorithm: Algorithm) -> (r: Hasher)
        ensures
            r@ == algorithm,
    {
        Hasher { algorithm }
    }

    pub fn algorithm(&self) -> (r: Algorithm)
        ensures
            r == self@,
    {
        self.algorithm
    }

    pub fn set_algorithm(&mut self, algorithm: Algorithm)
        ensures
            final(self)@ == algorithm,
    {
        self.algorithm = algorithm;
    }

    pub fn algorithm_name(&self) -> (r: &'static str)
        ensures
            self@ == Algorithm::SHA256 ==> r@ == "SHA-256"@,
            self@ == Algorithm::BLAKE3 ==> r@ == "BLAKE3"@,
    {
        self.algorithm.name()
    }

    /// Single digest of arbitrary-length input under the selected algorithm.
    pub fn hash(&self, data: &[u8]) -> (r: [u8; 32])
        requires
            self@ == Algorithm::SHA256 ==> data@.len() <= MAX_SHA256_INPUT_BYTES,
        ensures
            r@ == digest_of(self@, data@),
    {
        match self.algorithm {
            Algorithm::BLAKE3 => blake3_digest(data),
            Algorithm::SHA256 => sha256_digest(data),
        }
    }

    /// Digest of the 32-byte previous hash followed by the event bytes;
    /// used exactly once per event insertion, never for plain ticks.
    pub fn embed_data(&self, previous_hash: &[u8; 32], data: &[u8]) -> (r: [u8; 32])
        requires
            self@ == Algorithm::SHA256 ==> data@.len() + 32 <= MAX_SHA256_INPUT_BYTES,
        ensures
            r@ == digest_of(self@, previous_hash@ + data@),
    {
        match self.algorithm {
            Algorithm::BLAKE3 => blake3_digest_pair(previous_hash, data),
            Algorithm::SHA256 => sha256_digest_pair(previous_hash, data),
        }
    }

    /// Digest of the 32-byte previous hash alone: the atomic chain-advance
    /// step.
    pub fn previous_hash(&self, hash: &[u8; 32]) -> (r: [u8; 32])
        ensures
            r@ == digest_of(self@, hash@),
    {
        match self.algorithm {
            Algorithm::BLAKE3 => blake3_digest(hash.as_slice()),
            Algorithm::SHA256 => sha256_digest(hash.as_slice()),
        }
    }

    /// Applies the chain-advance step exactly `iterations` times, returning
    /// the previous hash unchanged when `iterations` is zero.
    pub fn extend_hash_chain(&self, previous_hash: &[u8; 32], iterations: u64) -> (r: [u8; 32])
        ensures
            r@ == chain_of(self@, previous_hash@, iterations as nat),
    {
        let mut current_hash: [u8; 32] = *previous_hash;
        let mut i: u64 = 0;
        while i < iterations
            invariant
                i <= iterations,
                current_hash@ == chain_of(self@, previous_hash@, i as nat),
            decreases iterations - i,
        {
            current_hash = self.previous_hash(&current_hash);
            i = i + 1;
        }
        current_hash
    }

    /// Recomputes the expected next hash (embedding event data first when
    /// present, then extending by `iterations`) and compares it against the
    /// claimed next hash in constant time.
    pub fn verify_hash_chain(
        &self,
        previous_hash: &[u8; 32],
        next_hash: &[u8; 32],
        iterations: u64,
        event_data: Option<&[u8]>,
    ) -> (r: bool)
        requires
            self@ == Algorithm::SHA256 && event_data is Some
                ==> event_data->0@.len() + 32 <= MAX_SHA256_INPUT_BYTES,
        ensures
            r == (next_hash@ == chain_of(
                self@,
                chain_start(self@, previous_hash@, event_view(event_data)),
                iterations as nat,
            )),
    {
        let mut expected_hash: [u8; 32] = *previous_hash;
        if let Some(data) = event_data {
            expected_hash = self.embed_data(&expected_hash, data);
        }
        expected_hash = self.extend_hash_chain(&expected_hash, iterations);
        self.constant_time_eq(&expected_hash, next_hash)
    }

    /// Runs `iterations` chain-advance steps from a zero-initialized hash
    /// and discards the result; useful for gauging hash throughput.
    pub fn compute_hashes(&self, iterations: u64) {
        let zero_hash: [u8; 32] = [0u8; 32];
        let _ = self.extend_hash_chain(&zero_hash, iterations);
    }

    /// Equality of two 32-byte values, computed so that execution time does
    /// not depend on where or whether they differ: differences are folded
    /// into an accumulator and tested once at the end.
    fn constant_time_eq(&self, a: &[u8; 32], b: &[u8; 32]) -> (r: bool)
        ensures
            r == (a@ == b@),
    {
        let mut acc: u8 = 0;
        let mut i: usize = 0;
        while i < 32
            invariant
                i <= 32,
                (acc == 0) <==> (forall|j: int| 0 <= j < i ==> a@[j] == b@[j]),
            decreases 32 - i,
        {
            let x: u8 = a[i];
            let y: u8 = b[i];
            let prev_acc: u8 = acc;
            acc = acc | (x ^ y);
            proof {
                assert(((prev_acc | (x ^ y)) == 0) <==> (prev_acc == 0 && x == y)) by (bit_vector);
            }
            i = i + 1;
        }
        if acc == 0 {
            proof {
                assert(a@ =~= b@);
            }
            true
        } else {
            proof {
                let j = choose|j: int| !(0 <= j < 32 ==> a@[j] == b@[j]);
                assert(a@[j] != b@[j]);
            }
            false
        }
    }
}

/// The bytes an optional event payload holds, when one is present.
pub open spec fn event_view(event_data: Option<&[u8]>) -> Option<Seq<u8>> {
    match event_data {
        Option::Some(data) => Option::Some(data@),
        Option::None => Option::None,
    }
}

/// Law: extending a chain by zero steps leaves the tip unchanged.
pub proof fn lemma_chain_of_zero(algorithm: Algorithm, h: Seq<u8>)
    ensures
        chain_of(algorithm, h, 0) == h,
{
}

/// Law: chain equivalence. Extending by `n > 0` steps is one chain-advance
/// step applied to the tip after `n - 1` steps, so `chain_of` is exactly the
/// naive iteration of the advance step, for every `n`.
pub proof fn lemma_chain_of_step(algorithm: Algorithm, h: Seq<u8>, n: nat)
    requires
        n > 0,
    ensures
        chain_of(algorithm, h, n) == digest_of(algorithm, chain_of(algorithm, h, (n - 1) as nat)),
{
}

/// Law: determinism. The chain tip is a function of the algorithm, the
/// starting hash, and the step count alone, so equal inputs give bit-equal
/// tips on every run.
pub proof fn lemma_chain_of_deterministic(
    a1: Algorithm,
    a2: Algorithm,
    h1: Seq<u8>,
    h2: Seq<u8>,
    n1: nat,
    n2: nat,
)
    requires
        a1 == a2,
        h1 == h2,
        n1 == n2,
    ensures
        chain_of(a1, h1, n1) == chain_of(a2, h2, n2),
{
}

} // verus!
