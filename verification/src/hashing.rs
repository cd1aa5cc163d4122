//! Hashes and their renderings: record identifiers are the Blake2b-256 digest of the
//! record's SCALE encoding, conflict-of-interest storage keys are ordered by their
//! `Blake2_128Concat` form, and a hash is matched against text in its debug form
//! (`0x` followed by 64 lowercase hexadecimal digits).
use vstd::prelude::*;
use crate::types::H256;

verus! {

/// The Blake2b-256 digest that sp-core's `Blake2Hasher` computes of `data`.
pub uninterp spec fn blake2_256_of(data: Seq<u8>) -> [u8; 32];

/// The Blake2b-128 digest that sp-crypto-hashing's `blake2_128` computes of `data`.
pub uninterp spec fn blake2_128_of(data: Seq<u8>) -> [u8; 16];

/// Calls `<sp_core::Blake2Hasher as Hasher>::hash` on the bytes. The contract claims only
/// that the digest is the named function of the bytes.
#[verifier::external_body]
pub(crate) fn blake2_256(data: &Vec<u8>) -> (r: [u8; 32])
    ensures
        r == blake2_256_of(data@),
{
    <sp_core::Blake2Hasher as sp_core::Hasher>::hash(data.as_slice()).0
}

/// Calls `sp_crypto_hashing::blake2_128` on the bytes. The contract claims only that the
/// digest is the named function of the bytes.
#[verifier::external_body]
pub(crate) fn blake2_128(data: &Vec<u8>) -> (r: [u8; 16])
    ensures
        r == blake2_128_of(data@),
{
    sp_crypto_hashing::blake2_128(data.as_slice())
}

/// Identifier of a record with the given encoding.
pub open spec fn hash_of(encoded: Seq<u8>) -> H256 {
    H256(blake2_256_of(encoded))
}

/// Computes the identifier of a record from its encoding.
pub fn hash_encoded(encoded: &Vec<u8>) -> (r: H256)
    ensures
        r == hash_of(encoded@),
{
    H256(blake2_256(encoded))
}

/// ASCII lowercase hexadecimal digit of a value below 16.
pub open spec fn hex_digit(n: u8) -> u8 {
    if n < 10 {
        (48 + n) as u8
    } else {
        (87 + n) as u8
    }
}

/// Two hexadecimal digits per byte, most significant digit first.
pub open spec fn hex_of(s: Seq<u8>) -> Seq<u8>
    decreases s.len(),
{
    if s.len() == 0 {
        Seq::empty()
    } else {
        hex_of(s.drop_last()) + seq![hex_digit(s.last() / 16), hex_digit(s.last() % 16)]
    }
}

/// Debug form of a hash: `0x` followed by the hexadecimal digits of its 32 bytes.
pub open spec fn debug_text(h: H256) -> Seq<u8> {
    seq![48u8, 120u8] + hex_of(h.0@)
}

fn hex_char(n: u8) -> (r: u8)
    requires
        n < 16,
    ensures
        r == hex_digit(n),
{
    if n < 10 {
        48 + n
    } else {
        87 + n
    }
}

/// Renders a hash in its debug form.
pub fn debug_string(h: &H256) -> (r: Vec<u8>)
    ensures
        r@ == debug_text(*h),
{
    let mut out: Vec<u8> = Vec::new();
    out.push(48);
    out.push(120);
    let mut i: usize = 0;
    assert(hex_of(h.0@.take(0)) =~= Seq::<u8>::empty());
    assert(out@ =~= seq![48u8, 120u8] + hex_of(h.0@.take(0)));
    while i < 32
        invariant
            i <= 32,
            out@ == seq![48u8, 120u8] + hex_of(h.0@.take(i as int)),
        decreases 32 - i,
    {
        let b = h.0[i];
        proof {
            assert(h.0@.take(i + 1).drop_last() =~= h.0@.take(i as int));
        }
        out.push(hex_char(b / 16));
        out.push(hex_char(b % 16));
        proof {
            assert(out@ =~= seq![48u8, 120u8] + hex_of(h.0@.take(i + 1)));
        }
        i = i + 1;
    }
    assert(h.0@.take(32) =~= h.0@);
    out
}

/// Whether two byte strings are equal.
pub fn bytes_equal(a: &Vec<u8>, b: &Vec<u8>) -> (r: bool)
    ensures
        r == (a@ == b@),
{
    if a.len() != b.len() {
        return false;
    }
    let mut i: usize = 0;
    while i < a.len()
        invariant
            a@.len() == b@.len(),
            i <= a@.len(),
            forall|k: int| 0 <= k < i ==> a@[k] == b@[k],
        decreases a@.len() - i,
    {
        if a[i] != b[i] {
            return false;
        }
        i = i + 1;
    }
    assert(a@ =~= b@);
    true
}

/// Big-endian value of a byte string.
pub open spec fn be_value(s: Seq<u8>) -> nat
    decreases s.len(),
{
    if s.len() == 0 {
        0
    } else {
        be_value(s.drop_last()) * 256 + s.last() as nat
    }
}

/// The `n`-th power of 256.
pub open spec fn pow256(n: nat) -> nat
    decreases n,
{
    if n == 0 {
        1
    } else {
        pow256((n - 1) as nat) * 256
    }
}

proof fn lemma_pow256_mono(i: nat, j: nat)
    requires
        i <= j,
    ensures
        pow256(i) <= pow256(j),
    decreases j,
{
    if i < j {
        lemma_pow256_mono(i, (j - 1) as nat);
    }
}

/// Big-endian value of at most 16 bytes.
pub fn be_u128(s: &Vec<u8>) -> (r: u128)
    requires
        s@.len() <= 16,
    ensures
        r as nat == be_value(s@),
{
    let mut acc: u128 = 0;
    let mut i: usize = 0;
    assert(s@.take(0) =~= Seq::<u8>::empty());
    while i < s.len()
        invariant
            i <= s@.len() <= 16,
            acc as nat == be_value(s@.take(i as int)),
            (acc as nat) < pow256(i as nat),
        decreases s@.len() - i,
    {
        let b = s[i];
        proof {
            lemma_pow256_mono(i as nat, 15);
            reveal_with_fuel(pow256, 16);
            assert(pow256(15) == 0x1_0000_0000_0000_0000_0000_0000_0000_00);
            assert(s@.take(i + 1).drop_last() =~= s@.take(i as int));
        }
        acc = acc * 256 + b as u128;
        i = i + 1;
    }
    assert(s@.take(s@.len() as int) =~= s@);
    acc
}

/// Big-endian value of the 16 digest bytes.
pub fn digest_value(d: &[u8; 16]) -> (r: u128)
    ensures
        r as nat == be_value(d@),
{
    let mut v: Vec<u8> = Vec::new();
    let mut i: usize = 0;
    while i < 16
        invariant
            i <= 16,
            v@ == d@.take(i as int),
        decreases 16 - i,
    {
        proof {
            assert(d@.take(i + 1) =~= d@.take(i as int).push(d@[i as int]));
        }
        v.push(d[i]);
        i = i + 1;
    }
    assert(d@.take(16) =~= d@);
    be_u128(&v)
}

} // verus!
