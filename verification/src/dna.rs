//! Attribute derivation: how the sixteen bytes that identify a kitty come about.

use crate::pallet::Pallet;
use crate::types::{AccountId, Gender, Kitty, Randomness};
use vstd::prelude::*;

verus! {

/// The BLAKE2b digest of `data`, sixteen bytes long.
pub uninterp spec fn blake2_128_digest(data: Seq<u8>) -> Seq<u8>;

/// The four bytes of `x`, least significant first.
pub open spec fn le_bytes_u32(x: u32) -> Seq<u8> {
    seq![
        (x & 0xff) as u8,
        ((x >> 8) & 0xff) as u8,
        ((x >> 16) & 0xff) as u8,
        ((x >> 24) & 0xff) as u8,
    ]
}

/// The eight bytes of `x`, least significant first.
pub open spec fn le_bytes_u64(x: u64) -> Seq<u8> {
    seq![
        (x & 0xff) as u8,
        ((x >> 8) & 0xff) as u8,
        ((x >> 16) & 0xff) as u8,
        ((x >> 24) & 0xff) as u8,
        ((x >> 32) & 0xff) as u8,
        ((x >> 40) & 0xff) as u8,
        ((x >> 48) & 0xff) as u8,
        ((x >> 56) & 0xff) as u8,
    ]
}

/// The SCALE encoding of an optional `u32`: a zero byte for `None`, a one byte
/// followed by the value's little-endian bytes for `Some`.
pub open spec fn scale_option_u32(x: Option<u32>) -> Seq<u8> {
    match x {
        None => seq![0u8],
        Some(v) => seq![1u8] + le_bytes_u32(v),
    }
}

/// The bytes that are hashed into a kitty's attributes: the seed, then the
/// caller, then the request's position, the latter two SCALE-encoded.
pub open spec fn payload(seed: Seq<u8>, who: AccountId, index: Option<u32>) -> Seq<u8> {
    seed + le_bytes_u64(who) + scale_option_u32(index)
}

/// The attributes of a freshly minted kitty.
pub open spec fn fresh_dna(seed: Seq<u8>, who: AccountId, index: Option<u32>) -> Seq<u8> {
    blake2_128_digest(payload(seed, who, index))
}

/// Per-bit crossover of two parent bytes under a mask: the child takes the bit
/// of `a` wherever `mask` has a one and the bit of `b` wherever it has a zero.
pub open spec fn cross(mask: u8, a: u8, b: u8) -> u8 {
    (mask & a) | (!mask & b)
}

/// The crossover of two parents' attributes under sixteen mask bytes.
pub open spec fn combine(mask: Seq<u8>, a: Seq<u8>, b: Seq<u8>) -> Seq<u8> {
    Seq::new(16, |i: int| cross(mask[i], a[i], b[i]))
}

/// The gender that a random byte decides: male when it is even.
pub open spec fn gender_of(draw: u8) -> Gender {
    if draw % 2 == 0 {
        Gender::Male
    } else {
        Gender::Female
    }
}

/// Calls `sp_io::hashing::blake2_128`, which returns the sixteen-byte BLAKE2b
/// digest of `data`. The digest is a function of the bytes alone; what it is
/// is left to the hashing crate.
#[verifier::external_body]
fn blake2_128(data: &[u8]) -> (out: [u8; 16])
    ensures
        out@ == blake2_128_digest(data@),
{
    sp_io::hashing::blake2_128(data)
}

/// Calls `parity_scale_codec::Encode::encode` on the pair of the caller and the
/// request's position. SCALE encodes a tuple as its members' encodings in
/// order, a `u64` as eight little-endian bytes, and an `Option` as a tag byte
/// followed, for `Some`, by the value.
#[verifier::external_body]
fn scale_encode(who: AccountId, index: Option<u32>) -> (out: Vec<u8>)
    ensures
        out@ == le_bytes_u64(who) + scale_option_u32(index),
{
    parity_scale_codec::Encode::encode(&(who, index))
}

/// Crosses two parents' attributes under a mask, bit by bit: where the mask has
/// a one the child takes parent `a`'s bit, where it has a zero parent `b`'s.
pub fn crossover(mask: &[u8; 16], a: &[u8; 16], b: &[u8; 16]) -> (child: [u8; 16])
    ensures
        child@ == combine(mask@, a@, b@),
{
    let mut child: [u8; 16] = [0u8; 16];
    let mut i: usize = 0;
    while i < 16
        invariant
            i <= 16,
            forall|j: int| 0 <= j < i ==> child@[j] == cross(mask@[j], a@[j], b@[j]),
        decreases 16 - i,
    {
        child[i] = (mask[i] & a[i]) | (!mask[i] & b[i]);
        i = i + 1;
    }
    child
}

impl Pallet {
    /// Hashes the seed, the caller and the request's position into the sixteen
    /// bytes of a fresh kitty's attributes.
    pub fn random_value(randomness: &Randomness, sender: AccountId) -> (dna: [u8; 16])
        ensures
            dna@ == fresh_dna(randomness@.seed, sender, randomness@.extrinsic_index),
    {
        let mut bytes: Vec<u8> = vstd::slice::slice_to_vec(randomness.seed.as_slice());
        let mut tail: Vec<u8> = scale_encode(sender, randomness.extrinsic_index);
        bytes.append(&mut tail);
        assert(bytes@ =~= payload(randomness@.seed, sender, randomness@.extrinsic_index));
        blake2_128(bytes.as_slice())
    }

    /// Derives a bred kitty's attributes: a fresh sixteen-byte mask is hashed
    /// as in [`Pallet::random_value`], and the parents are crossed under it,
    /// `kitty1` giving the bits where the mask has a one.
    pub fn breed_dna(randomness: &Randomness, who: AccountId, kitty1: &Kitty, kitty2: &Kitty) -> (dna:
        [u8; 16])
        ensures
            dna@ == combine(
                fresh_dna(randomness@.seed, who, randomness@.extrinsic_index),
                kitty1@.dna,
                kitty2@.dna,
            ),
    {
        let mask: [u8; 16] = Self::random_value(randomness, who);
        crossover(&mask, &kitty1.dna, &kitty2.dna)
    }

    /// Reduces a random byte modulo two to a gender: male when it is even.
    pub fn gen_gender(draw: u8) -> (gender: Gender)
        ensures
            gender == gender_of(draw),
    {
        if draw % 2 == 0 {
            Gender::Male
        } else {
            Gender::Female
        }
    }
}

} // verus!
