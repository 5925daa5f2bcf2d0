//! What the hashing, the authentication codes, the texts and the errors are for,
//! said of the operations' inputs and results.
use crate::algorithm::HashAlgorithm;
use crate::bytes::{be_value, join, lemma_zeros_in_front, to_vec, zero_pad};
use crate::digest::{
    compute_hmac, constant_time_eq, digest, hash_of, output_size, pad_prehash, xor_all, zero_extend,
};
use crate::error::{crypto_reply, key_reply, Error, Result};
use crate::text::{decimal, decimal_text, join2, join3};
use vstd::prelude::*;

verus! {

/// Hashing gives the hash under the algorithm that is named, and nothing else
/// decides how long it is.
pub proof fn hashing_uses_the_named_algorithm(
    hash: HashAlgorithm,
    data: &[u8],
    r: Vec<u8>,
    size: usize,
)
    requires
        call_ensures(digest, (hash, data), r),
        call_ensures(output_size, (hash,), size),
    ensures
        r@ == hash_of(hash, data@),
        r@.len() == size,
        hash is Md5 ==> 8 * size == 128,
        hash is Sha1 || hash is Ripemd160 ==> 8 * size == 160,
        hash is Sha224 || hash is Sha3_224 ==> 8 * size == 224,
        hash is Sha256 || hash is Sha3_256 ==> 8 * size == 256,
        hash is Sha384 || hash is Sha3_384 ==> 8 * size == 384,
        hash is Sha512 || hash is Sha3_512 ==> 8 * size == 512,
{
}

/// A code is the hash of an outer block and of the hash of an inner block with the
/// data behind it. The blocks are as long as the hash function's input blocks (for
/// SHA-3 what twice the hash leaves over of 200 bytes), and at each place the two
/// differ from the key, or from zero behind its end, by their fixed masks. A key
/// longer than a block counts as its hash.
pub proof fn codes_are_nested_hashes(
    hash: HashAlgorithm,
    key: &[u8],
    data: &[u8],
    r: Vec<u8>,
    outer: Seq<u8>,
    inner: Seq<u8>,
    used: Seq<u8>,
)
    requires
        call_ensures(compute_hmac, (hash, key, data), r),
        outer.len() == inner.len(),
        outer.len() == (match hash {
            HashAlgorithm::Sha384 | HashAlgorithm::Sha512 => 128int,
            HashAlgorithm::Sha3_224 => 200 - 2 * 28,
            HashAlgorithm::Sha3_256 => 200 - 2 * 32,
            HashAlgorithm::Sha3_384 => 200 - 2 * 48,
            HashAlgorithm::Sha3_512 => 200 - 2 * 64,
            _ => 64,
        }),
        used == if key@.len() > outer.len() {
            hash_of(hash, key@)
        } else {
            key@
        },
        forall|i: int|
            0 <= i < outer.len() ==> #[trigger] outer[i] == (if i < used.len() {
                used[i]
            } else {
                0u8
            }) ^ 0x5c,
        forall|i: int|
            0 <= i < inner.len() ==> #[trigger] inner[i] == (if i < used.len() {
                used[i]
            } else {
                0u8
            }) ^ 0x36,
    ensures
        r@ == hash_of(hash, outer + hash_of(hash, inner + data@)),
{
    let block = crate::digest::hmac_block_key(hash, key@);
    assert(outer =~= crate::digest::xored(block, 0x5c));
    assert(inner =~= crate::digest::xored(block, 0x36));
}

/// Two byte strings compare as equal exactly where they are.
pub proof fn comparison_tells_equality(a: &[u8], b: &[u8], r: bool)
    requires
        call_ensures(constant_time_eq, (a, b), r),
    ensures
        r <==> a@.len() == b@.len() && (forall|i: int| 0 <= i < a@.len() ==> a@[i] == b@[i]),
{
    if a@.len() == b@.len() && (forall|i: int| 0 <= i < a@.len() ==> a@[i] == b@[i]) {
        assert(a@ =~= b@);
    }
}

/// Padding leaves the number that a byte string denotes, brings a shorter string to
/// the length asked for, and leaves a longer one alone.
pub proof fn padding_keeps_the_number(bytes: &[u8], size: usize, r: Vec<u8>)
    requires
        call_ensures(pad_prehash, (bytes, size), r) || call_ensures(zero_pad, (bytes, size), r),
    ensures
        be_value(r@) == be_value(bytes@),
        bytes@.len() <= size ==> r@.len() == size,
        bytes@.len() >= size ==> r@ == bytes@,
{
    if bytes@.len() < size {
        lemma_zeros_in_front((size - bytes@.len()) as nat, bytes@);
    }
}

/// The number that a byte string denotes counts each byte 256 times what stands
/// behind it.
pub proof fn numbers_are_big_endian(front: Seq<u8>, last: u8)
    ensures
        be_value(Seq::<u8>::empty()) == 0,
        be_value(front.push(last)) == 256 * be_value(front) + last,
{
    assert(front.push(last).drop_last() =~= front);
}

/// A combined string has each byte combined with the mask; combining twice gives the
/// string back.
pub proof fn combining_twice_undoes_itself(bytes: &[u8], mask: u8, once: Vec<u8>, twice: Vec<u8>)
    requires
        call_ensures(xor_all, (bytes, mask), once),
        exists|s: &[u8]| #[trigger] s@ == once@ && call_ensures(xor_all, (s, mask), twice),
    ensures
        once@.len() == bytes@.len(),
        forall|i: int| 0 <= i < bytes@.len() ==> #[trigger] once@[i] == bytes@[i] ^ mask,
        twice@ == bytes@,
{
    assert forall|i: int| 0 <= i < bytes@.len() implies twice@[i] == bytes@[i] by {
        let b = bytes@[i];
        assert((b ^ mask) ^ mask == b) by (bit_vector);
    }
    assert(twice@ =~= bytes@);
}

/// Filling up keeps what fits, and puts zeros behind it.
pub proof fn filling_up_keeps_what_fits(bytes: &[u8], size: usize, r: Vec<u8>)
    requires
        call_ensures(zero_extend, (bytes, size), r),
    ensures
        r@.len() == size,
        forall|i: int|
            0 <= i < size ==> #[trigger] r@[i] == (if i < bytes@.len() {
                bytes@[i]
            } else {
                0u8
            }),
{
}

/// Byte strings are copied and put together as they are.
pub proof fn bytes_are_kept(a: &[u8], b: &[u8], copy: Vec<u8>, both: Vec<u8>)
    requires
        call_ensures(to_vec, (a,), copy),
        call_ensures(join, (a, b), both),
    ensures
        copy@ == a@,
        both@.len() == a@.len() + b@.len(),
        both@.take(a@.len() as int) == a@,
        both@.skip(a@.len() as int) == b@,
{
    assert(both@.take(a@.len() as int) =~= a@);
    assert(both@.skip(a@.len() as int) =~= b@);
}

/// The number that a text of decimal digits denotes.
pub open spec fn digits_value(text: Seq<char>) -> int
    decreases text.len(),
{
    if text.len() == 0 {
        0
    } else {
        10 * digits_value(text.drop_last()) + (text.last() as int - '0' as int)
    }
}

/// A number is written with digits only, so that it is read back as itself, and
/// without a zero in front unless it is one digit.
pub proof fn numbers_are_written_in_decimal(n: usize, r: String)
    requires
        call_ensures(decimal, (n,), r),
    ensures
        digits_value(r@) == n,
        forall|i: int| 0 <= i < r@.len() ==> '0' <= #[trigger] r@[i] <= '9',
        r@.len() > 1 ==> r@[0] != '0',
{
    lemma_decimal(n as nat);
}

proof fn lemma_decimal(n: nat)
    ensures
        decimal_text(n).len() > 0,
        digits_value(decimal_text(n)) == n,
        forall|i: int|
            0 <= i < decimal_text(n).len() ==> '0' <= #[trigger] decimal_text(n)[i] <= '9',
        decimal_text(n).len() > 1 ==> decimal_text(n)[0] != '0',
        n > 0 ==> decimal_text(n)[0] != '0',
    decreases n,
{
    let t = decimal_text(n);
    if n < 10 {
        assert(t.drop_last() =~= Seq::<char>::empty());
        assert(digits_value(t.drop_last()) == 0);
    } else {
        lemma_decimal(n / 10);
        assert(t.drop_last() =~= decimal_text(n / 10));
        assert(t.last() as int == '0' as int + (n % 10) as int);
        assert(t[0] == decimal_text(n / 10)[0]);
        assert forall|i: int| 0 <= i < t.len() implies '0' <= #[trigger] t[i] <= '9' by {
            if i < t.len() - 1 {
                assert(t[i] == decimal_text(n / 10)[i]);
            }
        }
    }
}

/// Texts are put together as they are.
pub proof fn texts_are_put_together(a: &str, b: &str, c: &str, two: String, three: String)
    requires
        call_ensures(join2, (a, b), two),
        call_ensures(join3, (a, b, c), three),
    ensures
        two@.len() == a@.len() + b@.len(),
        two@.take(a@.len() as int) == a@,
        two@.skip(a@.len() as int) == b@,
        three@ == two@ + c@,
{
    assert(two@.take(a@.len() as int) =~= a@);
    assert(two@.skip(a@.len() as int) =~= b@);
}

/// What an outside operation gave is handed on; its failure keeps the text, behind
/// the label, as an error of the operation or of the key.
pub proof fn replies_are_handed_on(
    label: &str,
    reply: core::result::Result<Vec<u8>, String>,
    operation: Result<Vec<u8>>,
    key: Result<Vec<u8>>,
)
    requires
        call_ensures(crypto_reply, (label, reply), operation),
        call_ensures(key_reply, (label, reply), key),
    ensures
        reply matches Ok(bytes) ==> {
            &&& operation matches Ok(a)
            &&& a@ == bytes@
            &&& key matches Ok(b)
            &&& b@ == bytes@
        },
        reply matches Err(e) ==> {
            &&& operation matches Err(Error::Crypto(a))
            &&& a@ == label@ + e@
            &&& key matches Err(Error::Key(b))
            &&& b@ == label@ + e@
        },
{
}

/// A user sees the kind of an error and then its message.
pub proof fn errors_show_kind_and_message(e: &Error, r: String)
    requires
        call_ensures(Error::to_string, (e,), r),
    ensures
        match *e {
            Error::Key(m) => r@ == "key error: "@ + m@,
            Error::Crypto(m) => r@ == "crypto error: "@ + m@,
            Error::UnsupportedAlgorithm(m) => r@ == "unsupported algorithm: "@ + m@,
            Error::Pkcs11(m) => r@ == "PKCS#11 error: "@ + m@,
        },
{
}

} // verus!
