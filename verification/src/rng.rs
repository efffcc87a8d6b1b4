use vstd::prelude::*;
use vstd::string::StringSliceAdditionalSpecFns;
use vstd::utf8::encode_utf8;
use crate::bytes::{extend_byte_slice, extend_bytes, u64_be_bytes, u64_to_be_bytes};

verus! {

/// The SHA-256 digest of a byte sequence, as the outside hash computes it.
pub uninterp spec fn sha256_of(data: Seq<u8>) -> Seq<u8>;

/// The standard base64 encoding (with padding) of a byte sequence, as bytes.
pub uninterp spec fn base64_bytes_of(data: Seq<u8>) -> Seq<u8>;

/// Word `idx` of the ChaCha20 key stream grown from a 32-byte seed.
pub uninterp spec fn chacha_word(seed: Seq<u8>, idx: int) -> u32;

/// Relies on sha2::Sha256::digest: a 32-byte digest that depends on the
/// input bytes alone.
#[verifier::external_body]
pub fn sha_256(data: &Vec<u8>) -> (r: Vec<u8>)
    ensures
        r@ == sha256_of(data@),
        r@.len() == 32,
{
    let digest = <sha2::Sha256 as sha2::Digest>::digest(data.as_slice());
    digest.to_vec()
}

/// Relies on base64::encode: the standard alphabet with padding; the result
/// depends on the input bytes alone. The encoded string is ASCII, so its
/// bytes carry the same information.
#[verifier::external_body]
fn base64_encode_bytes(data: &str) -> (r: Vec<u8>)
    ensures
        r@ == base64_bytes_of(data.spec_bytes()),
{
    base64::encode(data).into_bytes()
}

/// The fixed base material every closing seed starts from: the SHA-256
/// digest of the base64 encoding of the phrase "entropy".
pub open spec fn base_prng_seed() -> Seq<u8> {
    sha256_of(base64_bytes_of("entropy".spec_bytes()))
}

/// The 32 bytes the base material amounts to at run time.
pub fn make_base_prng_seed() -> (r: Vec<u8>)
    ensures
        r@ == base_prng_seed(),
        r@.len() == 32,
{
    let encoded = base64_encode_bytes("entropy");
    sha_256(&encoded)
}

/// The seed material for closing a round: base material, then the block
/// height in big-endian bytes, the caller's identifier in UTF-8 and the
/// round entropy, all hashed together.
pub open spec fn seed_material(seed: Seq<u8>, height: u64, sender: Seq<char>, entropy: Seq<u8>) -> Seq<u8> {
    seed + u64_be_bytes(height) + encode_utf8(sender) + entropy
}

/// The 256-bit seed that closing a round at block `height` by `sender`
/// derives: reproducible by every replica replaying the same inputs, and
/// one-way in all of them.
pub open spec fn close_seed(height: u64, sender: Seq<char>) -> Seq<u8> {
    sha256_of(seed_material(base_prng_seed(), height, sender, base_prng_seed()))
}

/// Derives a 256-bit seed from explicit context: a one-way hash over the
/// base material, the block height, the caller and round entropy, never an
/// ambient clock or randomness source.
pub fn new_entropy(height: u64, sender: &String, seed: &Vec<u8>, entropy: &Vec<u8>) -> (r: Vec<u8>)
    ensures
        r@ == sha256_of(seed_material(seed@, height, sender@, entropy@)),
        r@.len() == 32,
{
    let mut material: Vec<u8> = Vec::new();
    extend_bytes(&mut material, seed);
    let height_bytes = u64_to_be_bytes(height);
    extend_bytes(&mut material, &height_bytes);
    let sender_bytes: &[u8] = sender.as_str().as_bytes();
    extend_byte_slice(&mut material, sender_bytes);
    extend_bytes(&mut material, entropy);
    proof {
        assert(material@ =~= seed_material(seed@, height, sender@, entropy@));
    }
    sha_256(&material)
}

#[verifier::external_type_specification]
#[verifier::external_body]
pub struct ExChaCha20Rng(rand_chacha::ChaCha20Rng);

/// Relies on rand_chacha::ChaCha20Rng::from_seed: builds the generator for
/// the given 32-byte seed.
#[verifier::external_body]
fn chacha_from_seed(seed: &Vec<u8>) -> rand_chacha::ChaCha20Rng
    requires
        seed@.len() == 32,
{
    let mut s = [0u8; 32];
    s.copy_from_slice(seed.as_slice());
    <rand_chacha::ChaCha20Rng as rand_core::SeedableRng>::from_seed(s)
}

/// A deterministic generator of uniformly distributed 32-bit words: the
/// ChaCha20 key stream of a fixed seed, consumed one word at a time. The
/// ghost fields record the seed and how many words have been drawn, so a
/// caller can speak of exactly which word each draw returned.
pub struct DetRng {
    rng: rand_chacha::ChaCha20Rng,
    seed: Ghost<Seq<u8>>,
    drawn: Ghost<int>,
}

impl DetRng {
    /// The seed whose stream this generator draws from.
    pub closed spec fn spec_seed(self) -> Seq<u8> {
        self.seed@
    }

    /// How many words have been drawn so far.
    pub closed spec fn spec_drawn(self) -> int {
        self.drawn@
    }

    /// Starts the stream of a 32-byte seed.
    pub fn from_seed(seed: &Vec<u8>) -> (r: DetRng)
        requires
            seed@.len() == 32,
        ensures
            r.spec_seed() == seed@,
            r.spec_drawn() == 0,
    {
        DetRng { rng: chacha_from_seed(seed), seed: Ghost(seed@), drawn: Ghost(0int) }
    }

    /// Relies on rand_chacha::ChaCha20Rng::next_u32: the words it hands out
    /// are a pure function of the seed and of how many have been drawn.
    #[verifier::external_body]
    pub fn next_u32(&mut self) -> (r: u32)
        ensures
            final(self).spec_seed() == old(self).spec_seed(),
            final(self).spec_drawn() == old(self).spec_drawn() + 1,
            r == chacha_word(old(self).spec_seed(), old(self).spec_drawn()),
    {
        <rand_chacha::ChaCha20Rng as rand_core::RngCore>::next_u32(&mut self.rng)
    }
}

} // verus!
