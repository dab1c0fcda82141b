//! Kitty attributes: how a fresh attribute vector is drawn from the chain's
//! entropy, and how two parents are crossed into a child.

use vstd::prelude::*;
use vstd::bytes::{spec_u32_to_le_bytes, spec_u64_to_le_bytes};
use parity_scale_codec::Encode;

verus! {

/// Number of bytes in a kitty's attribute vector.
pub const DNA_LEN: usize = 16;

/// The attribute vector of a kitty.
pub type KittyDna = [u8; DNA_LEN];

/// Identity of an account.
pub type AccountId = u64;

/// A kitty: nothing but its attribute vector, fixed at birth.
#[derive(Clone, Copy, Debug, PartialEq, Eq)]
pub struct Kitty(pub KittyDna);

impl Kitty {
    /// The kitty whose attribute vector reads `dna`.
    pub open spec fn with_dna(dna: Seq<u8>) -> Kitty {
        choose|kitty: Kitty| kitty.0@ == dna
    }

    /// A kitty is determined by the bytes of its attribute vector.
    pub proof fn lemma_with_dna(self)
        ensures
            Kitty::with_dna(self.0@) == self,
    {
        let other = Kitty::with_dna(self.0@);
        assert(other.0 =~= self.0);
    }
}

/// What the host chain supplies to each dispatch for drawing attributes: the
/// randomness beacon's seed with the block number it is valid from, and the
/// index of the running extrinsic within its block.
#[derive(Clone, Copy, Debug, PartialEq, Eq)]
pub struct Entropy {
    /// The seed of the randomness beacon.
    pub seed: [u8; 32],
    /// The block from which the seed is valid.
    pub block_number: u64,
    /// The index of the running extrinsic in its block, where there is one.
    pub extrinsic_index: Option<u32>,
}

/// SCALE encoding of an optional extrinsic index: a presence byte, then the
/// index in little-endian order when there is one.
pub open spec fn encoded_index(extrinsic_index: Option<u32>) -> Seq<u8> {
    match extrinsic_index {
        None => seq![0u8],
        Some(index) => seq![1u8] + spec_u32_to_le_bytes(index),
    }
}

/// SCALE encoding of the tuple `((seed, block_number), who, extrinsic_index)`:
/// the fields one after another, integers in little-endian order.
pub open spec fn encoded_payload(entropy: Entropy, who: AccountId) -> Seq<u8> {
    entropy.seed@ + spec_u64_to_le_bytes(entropy.block_number) + spec_u64_to_le_bytes(who)
        + encoded_index(entropy.extrinsic_index)
}

/// The 128-bit BLAKE2b digest of `data`.
pub uninterp spec fn blake2_128_digest(data: Seq<u8>) -> KittyDna;

/// `parity_scale_codec::Encode::encode` on the tuple
/// `((seed, block_number), who, extrinsic_index)`.
///
/// Trusted: the codec writes a tuple as its fields in order, a byte array as
/// its bytes with no length in front, a `u64` or `u32` as its little-endian
/// bytes, and an `Option` as one byte (0 for `None`, 1 for `Some`) followed by
/// the value when present.
#[verifier::external_body]
fn encode_payload(entropy: &Entropy, who: AccountId) -> (bytes: Vec<u8>)
    ensures
        bytes@ == encoded_payload(*entropy, who),
{
    ((entropy.seed, entropy.block_number), who, entropy.extrinsic_index).encode()
}

/// `sp_io::hashing::blake2_128`.
///
/// Trusted: the digest depends on the bytes of `data` alone; nothing is
/// claimed about its value beyond the name given to it.
#[verifier::external_body]
fn blake2_128(data: &[u8]) -> (digest: KittyDna)
    ensures
        digest == blake2_128_digest(data@),
{
    sp_io::hashing::blake2_128(data)
}

/// The attribute vector drawn for `who` under `entropy`.
pub open spec fn gen_dna_spec(who: AccountId, entropy: Entropy) -> KittyDna {
    blake2_128_digest(encoded_payload(entropy, who))
}

/// Draws an attribute vector: the BLAKE2b-128 digest of the encoded seed,
/// caller and extrinsic index. Equal inputs give equal vectors.
pub fn gen_dna(who: AccountId, entropy: &Entropy) -> (dna: KittyDna)
    ensures
        dna == gen_dna_spec(who, *entropy),
{
    let payload = encode_payload(entropy, who);
    blake2_128(payload.as_slice())
}

/// One byte of a child: where a bit of `mask` is set the bit comes from
/// `a`, elsewhere from `b`.
pub open spec fn combine_byte(a: u8, b: u8, mask: u8) -> u8 {
    (a & mask) | (b & !mask)
}

/// Every bit of a child's byte is the bit of one parent: of `a` where the
/// mask has the bit set, of `b` where it has not.
pub proof fn lemma_combine_byte_inherits(a: u8, b: u8, mask: u8, bit: u8)
    requires
        bit < 8,
    ensures
        (combine_byte(a, b, mask) >> bit) & 1 == (if (mask >> bit) & 1 == 1 {
            (a >> bit) & 1
        } else {
            (b >> bit) & 1
        }),
{
    assert((((a & mask) | (b & !mask)) >> bit) & 1 == (if (mask >> bit) & 1 == 1 {
        (a >> bit) & 1
    } else {
        (b >> bit) & 1
    })) by (bit_vector)
        requires
            bit < 8,
    ;
}

/// The attribute vector of a child of `parent_1` and `parent_2` under `mask`.
pub open spec fn crossover(parent_1: KittyDna, parent_2: KittyDna, mask: KittyDna) -> Seq<u8> {
    Seq::new(DNA_LEN as nat, |i: int| combine_byte(parent_1[i], parent_2[i], mask[i]))
}

/// Crosses two attribute vectors byte by byte under `mask`.
pub fn combine(parent_1: &KittyDna, parent_2: &KittyDna, mask: &KittyDna) -> (child: KittyDna)
    ensures
        child@ == crossover(*parent_1, *parent_2, *mask),
{
    let mut child: KittyDna = [0u8; DNA_LEN];
    let mut i: usize = 0;
    while i < DNA_LEN
        invariant
            i <= DNA_LEN,
            forall|j: int|
                0 <= j < i ==> child[j] == combine_byte(parent_1[j], parent_2[j], mask[j]),
        decreases DNA_LEN - i,
    {
        child[i] = (parent_1[i] & mask[i]) | (parent_2[i] & !mask[i]);
        i += 1;
    }
    child
}

} // verus!
