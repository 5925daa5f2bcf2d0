//! Hashing, message authentication codes, and the padding of hashes.
use crate::algorithm::HashAlgorithm;
use crate::bytes::{join, to_vec, zero_pad, zero_padded};
use vstd::prelude::*;

verus! {

impl HashAlgorithm {
    /// The length of the hash in bytes.
    pub open spec fn output_len(self) -> nat {
        match self {
            HashAlgorithm::Sha1 => 20,
            HashAlgorithm::Sha224 => 28,
            HashAlgorithm::Sha256 => 32,
            HashAlgorithm::Sha384 => 48,
            HashAlgorithm::Sha512 => 64,
            HashAlgorithm::Sha3_224 => 28,
            HashAlgorithm::Sha3_256 => 32,
            HashAlgorithm::Sha3_384 => 48,
            HashAlgorithm::Sha3_512 => 64,
            HashAlgorithm::Md5 => 16,
            HashAlgorithm::Ripemd160 => 20,
        }
    }

    /// The length in bytes of the blocks that the hash function works on.
    pub open spec fn block_len(self) -> nat {
        match self {
            HashAlgorithm::Sha1 => 64,
            HashAlgorithm::Sha224 => 64,
            HashAlgorithm::Sha256 => 64,
            HashAlgorithm::Sha384 => 128,
            HashAlgorithm::Sha512 => 128,
            HashAlgorithm::Sha3_224 => 144,
            HashAlgorithm::Sha3_256 => 136,
            HashAlgorithm::Sha3_384 => 104,
            HashAlgorithm::Sha3_512 => 72,
            HashAlgorithm::Md5 => 64,
            HashAlgorithm::Ripemd160 => 64,
        }
    }
}

/// The hash of `data`: what `Digest::digest` of the algorithm's hasher type
/// returns.
pub uninterp spec fn hash_of(hash: HashAlgorithm, data: Seq<u8>) -> Seq<u8>;

/// Calls `sha1::Sha1::digest`. Claims that the hash depends on the data alone and
/// has the algorithm's length.
#[verifier::external_body]
fn sha1_digest(data: &[u8]) -> (r: Vec<u8>)
    ensures
        r@ == hash_of(HashAlgorithm::Sha1, data@),
        r@.len() == HashAlgorithm::Sha1.output_len(),
{
    <sha1::Sha1 as ::digest::Digest>::digest(data).to_vec()
}

/// Calls `sha2::Sha224::digest`. Claims that the hash depends on the data alone and
/// has the algorithm's length.
#[verifier::external_body]
fn sha224_digest(data: &[u8]) -> (r: Vec<u8>)
    ensures
        r@ == hash_of(HashAlgorithm::Sha224, data@),
        r@.len() == HashAlgorithm::Sha224.output_len(),
{
    <sha2::Sha224 as ::digest::Digest>::digest(data).to_vec()
}

/// Calls `sha2::Sha256::digest`. Claims that the hash depends on the data alone and
/// has the algorithm's length.
#[verifier::external_body]
fn sha256_digest(data: &[u8]) -> (r: Vec<u8>)
    ensures
        r@ == hash_of(HashAlgorithm::Sha256, data@),
        r@.len() == HashAlgorithm::Sha256.output_len(),
{
    <sha2::Sha256 as ::digest::Digest>::digest(data).to_vec()
}

/// Calls `sha2::Sha384::digest`. Claims that the hash depends on the data alone and
/// has the algorithm's length.
#[verifier::external_body]
fn sha384_digest(data: &[u8]) -> (r: Vec<u8>)
    ensures
        r@ == hash_of(HashAlgorithm::Sha384, data@),
        r@.len() == HashAlgorithm::Sha384.output_len(),
{
    <sha2::Sha384 as ::digest::Digest>::digest(data).to_vec()
}

/// Calls `sha2::Sha512::digest`. Claims that the hash depends on the data alone and
/// has the algorithm's length.
#[verifier::external_body]
fn sha512_digest(data: &[u8]) -> (r: Vec<u8>)
    ensures
        r@ == hash_of(HashAlgorithm::Sha512, data@),
        r@.len() == HashAlgorithm::Sha512.output_len(),
{
    <sha2::Sha512 as ::digest::Digest>::digest(data).to_vec()
}

/// Calls `sha3::Sha3_224::digest`. Claims that the hash depends on the data alone and
/// has the algorithm's length.
#[verifier::external_body]
fn sha3_224_digest(data: &[u8]) -> (r: Vec<u8>)
    ensures
        r@ == hash_of(HashAlgorithm::Sha3_224, data@),
        r@.len() == HashAlgorithm::Sha3_224.output_len(),
{
    <sha3::Sha3_224 as ::digest::Digest>::digest(data).to_vec()
}

/// Calls `sha3::Sha3_256::digest`. Claims that the hash depends on the data alone and
/// has the algorithm's length.
#[verifier::external_body]
fn sha3_256_digest(data: &[u8]) -> (r: Vec<u8>)
    ensures
        r@ == hash_of(HashAlgorithm::Sha3_256, data@),
        r@.len() == HashAlgorithm::Sha3_256.output_len(),
{
    <sha3::Sha3_256 as ::digest::Digest>::digest(data).to_vec()
}

/// Calls `sha3::Sha3_384::digest`. Claims that the hash depends on the data alone and
/// has the algorithm's length.
#[verifier::external_body]
fn sha3_384_digest(data: &[u8]) -> (r: Vec<u8>)
    ensures
        r@ == hash_of(HashAlgorithm::Sha3_384, data@),
        r@.len() == HashAlgorithm::Sha3_384.output_len(),
{
    <sha3::Sha3_384 as ::digest::Digest>::digest(data).to_vec()
}

/// Calls `sha3::Sha3_512::digest`. Claims that the hash depends on the data alone and
/// has the algorithm's length.
#[verifier::external_body]
fn sha3_512_digest(data: &[u8]) -> (r: Vec<u8>)
    ensures
        r@ == hash_of(HashAlgorithm::Sha3_512, data@),
        r@.len() == HashAlgorithm::Sha3_512.output_len(),
{
    <sha3::Sha3_512 as ::digest::Digest>::digest(data).to_vec()
}

/// Calls `md5::Md5::digest`. Claims that the hash depends on the data alone and
/// has the algorithm's length.
#[verifier::external_body]
fn md5_digest(data: &[u8]) -> (r: Vec<u8>)
    ensures
        r@ == hash_of(HashAlgorithm::Md5, data@),
        r@.len() == HashAlgorithm::Md5.output_len(),
{
    <md5::Md5 as ::digest::Digest>::digest(data).to_vec()
}

/// Calls `ripemd::Ripemd160::digest`. Claims that the hash depends on the data alone and
/// has the algorithm's length.
#[verifier::external_body]
fn ripemd160_digest(data: &[u8]) -> (r: Vec<u8>)
    ensures
        r@ == hash_of(HashAlgorithm::Ripemd160, data@),
        r@.len() == HashAlgorithm::Ripemd160.output_len(),
{
    <ripemd::Ripemd160 as ::digest::Digest>::digest(data).to_vec()
}

/// Hashes `data`.
pub fn digest(hash: HashAlgorithm, data: &[u8]) -> (r: Vec<u8>)
    ensures
        r@ == hash_of(hash, data@),
        r@.len() == hash.output_len(),
{
    match hash {
        HashAlgorithm::Sha1 => sha1_digest(data),
        HashAlgorithm::Sha224 => sha224_digest(data),
        HashAlgorithm::Sha256 => sha256_digest(data),
        HashAlgorithm::Sha384 => sha384_digest(data),
        HashAlgorithm::Sha512 => sha512_digest(data),
        HashAlgorithm::Sha3_224 => sha3_224_digest(data),
        HashAlgorithm::Sha3_256 => sha3_256_digest(data),
        HashAlgorithm::Sha3_384 => sha3_384_digest(data),
        HashAlgorithm::Sha3_512 => sha3_512_digest(data),
        HashAlgorithm::Md5 => md5_digest(data),
        HashAlgorithm::Ripemd160 => ripemd160_digest(data),
    }
}

/// The length of the hash in bytes.
pub fn output_size(hash: HashAlgorithm) -> (r: usize)
    ensures
        r == hash.output_len(),
{
    match hash {
        HashAlgorithm::Sha1 => 20,
        HashAlgorithm::Sha224 => 28,
        HashAlgorithm::Sha256 => 32,
        HashAlgorithm::Sha384 => 48,
        HashAlgorithm::Sha512 => 64,
        HashAlgorithm::Sha3_224 => 28,
        HashAlgorithm::Sha3_256 => 32,
        HashAlgorithm::Sha3_384 => 48,
        HashAlgorithm::Sha3_512 => 64,
        HashAlgorithm::Md5 => 16,
        HashAlgorithm::Ripemd160 => 20,
    }
}

fn block_size(hash: HashAlgorithm) -> (r: usize)
    ensures
        r == hash.block_len(),
{
    match hash {
        HashAlgorithm::Sha1 => 64,
        HashAlgorithm::Sha224 => 64,
        HashAlgorithm::Sha256 => 64,
        HashAlgorithm::Sha384 => 128,
        HashAlgorithm::Sha512 => 128,
        HashAlgorithm::Sha3_224 => 144,
        HashAlgorithm::Sha3_256 => 136,
        HashAlgorithm::Sha3_384 => 104,
        HashAlgorithm::Sha3_512 => 72,
        HashAlgorithm::Md5 => 64,
        HashAlgorithm::Ripemd160 => 64,
    }
}

/// The first `size` bytes of `bytes`, filled up with zeros at the end.
pub open spec fn zero_extended(bytes: Seq<u8>, size: nat) -> Seq<u8> {
    Seq::new(
        size,
        |i: int|
            if i < bytes.len() {
                bytes[i]
            } else {
                0u8
            },
    )
}

/// The HMAC key brought to one block: hashed where it is longer than a block,
/// then filled up with zeros at the end.
pub open spec fn hmac_block_key(hash: HashAlgorithm, key: Seq<u8>) -> Seq<u8> {
    if key.len() > hash.block_len() {
        zero_extended(hash_of(hash, key), hash.block_len())
    } else {
        zero_extended(key, hash.block_len())
    }
}

/// `bytes` with each byte combined with `mask` by exclusive or.
pub open spec fn xored(bytes: Seq<u8>, mask: u8) -> Seq<u8> {
    Seq::new(bytes.len(), |i: int| bytes[i] ^ mask)
}

/// HMAC of `data` under `key`.
pub open spec fn hmac_of(hash: HashAlgorithm, key: Seq<u8>, data: Seq<u8>) -> Seq<u8> {
    let block = hmac_block_key(hash, key);
    hash_of(hash, xored(block, 0x5c) + hash_of(hash, xored(block, 0x36) + data))
}

/// `bytes` with each byte combined with `mask` by exclusive or.
pub fn xor_all(bytes: &[u8], mask: u8) -> (r: Vec<u8>)
    ensures
        r@ == xored(bytes@, mask),
{
    let mut out: Vec<u8> = Vec::new();
    let mut i: usize = 0;
    while i < bytes.len()
        invariant
            i <= bytes@.len(),
            out@ =~= xored(bytes@.take(i as int), mask),
        decreases bytes@.len() - i,
    {
        out.push(bytes[i] ^ mask);
        i = i + 1;
    }
    assert(bytes@.take(i as int) =~= bytes@);
    out
}

/// The first `size` bytes of `bytes`, filled up with zeros at the end.
pub fn zero_extend(bytes: &[u8], size: usize) -> (r: Vec<u8>)
    ensures
        r@ == zero_extended(bytes@, size as nat),
{
    let mut out: Vec<u8> = to_vec(bytes);
    out.resize(size, 0);
    assert(out@ =~= zero_extended(bytes@, size as nat));
    out
}

fn block_key(hash: HashAlgorithm, key: &[u8]) -> (r: Vec<u8>)
    ensures
        r@ == hmac_block_key(hash, key@),
{
    let size: usize = block_size(hash);
    if key.len() > size {
        zero_extend(digest(hash, key).as_slice(), size)
    } else {
        zero_extend(key, size)
    }
}

/// Computes HMAC of `data` under `key`.
pub fn compute_hmac(hash: HashAlgorithm, key: &[u8], data: &[u8]) -> (r: Vec<u8>)
    ensures
        r@ == hmac_of(hash, key@, data@),
        r@.len() == hash.output_len(),
{
    let block: Vec<u8> = block_key(hash, key);
    let inner_key: Vec<u8> = xor_all(block.as_slice(), 0x36);
    let inner: Vec<u8> = digest(hash, join(inner_key.as_slice(), data).as_slice());
    let outer_key: Vec<u8> = xor_all(block.as_slice(), 0x5c);
    digest(hash, join(outer_key.as_slice(), inner.as_slice()).as_slice())
}

/// Compares two byte strings. Strings of one length are read to the end
/// whatever they hold.
pub fn constant_time_eq(a: &[u8], b: &[u8]) -> (r: bool)
    ensures
        r == (a@ == b@),
{
    if a.len() != b.len() {
        return false;
    }
    let mut difference: u8 = 0;
    let mut i: usize = 0;
    assert(a@.take(0) =~= b@.take(0));
    while i < a.len()
        invariant
            i <= a@.len(),
            a@.len() == b@.len(),
            difference == 0 <==> a@.take(i as int) == b@.take(i as int),
        decreases a@.len() - i,
    {
        let x: u8 = a[i];
        let y: u8 = b[i];
        let next: u8 = difference | (x ^ y);
        assert(next == 0 <==> difference == 0 && x == y) by (bit_vector)
            requires
                next == difference | (x ^ y),
        ;
        proof {
            let n = i as int;
            assert(a@.take(n + 1) =~= a@.take(n).push(x));
            assert(b@.take(n + 1) =~= b@.take(n).push(y));
            if a@.take(n + 1) == b@.take(n + 1) {
                assert(a@.take(n) =~= a@.take(n + 1).take(n));
                assert(b@.take(n) =~= b@.take(n + 1).take(n));
                assert(a@.take(n + 1)[n] == x);
                assert(b@.take(n + 1)[n] == y);
            }
        }
        difference = next;
        i = i + 1;
    }
    assert(a@.take(i as int) =~= a@);
    assert(b@.take(i as int) =~= b@);
    difference == 0
}

/// Brings a hash to the `size` bytes that a curve signs: zeros go in front of
/// a shorter one, a longer one stays as it is.
pub fn pad_prehash(hash: &[u8], size: usize) -> (r: Vec<u8>)
    ensures
        r@ == zero_padded(hash@, size as nat),
{
    zero_pad(hash, size)
}

} // verus!
