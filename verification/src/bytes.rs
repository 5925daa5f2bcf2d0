//! Byte strings: big-endian numbers, zero padding, and comparison.
use vstd::arithmetic::power::pow;
use vstd::prelude::*;

verus! {

/// The content of an optional byte string.
pub open spec fn option_view(r: Option<Vec<u8>>) -> Option<Seq<u8>> {
    match r {
        Some(v) => Some(v@),
        None => None,
    }
}

/// The number that a big-endian byte string denotes.
pub open spec fn be_value(bytes: Seq<u8>) -> nat
    decreases bytes.len(),
{
    if bytes.len() == 0 {
        0
    } else {
        be_value(bytes.drop_last()) * 256 + bytes.last() as nat
    }
}

/// `n` as a big-endian byte string of `len` bytes; what does not fit is cut off
/// at the front.
pub open spec fn be_bytes(n: nat, len: nat) -> Seq<u8>
    decreases len,
{
    if len == 0 {
        Seq::empty()
    } else {
        be_bytes(n / 256, (len - 1) as nat).push((n % 256) as u8)
    }
}

/// The number of binary digits of `n`; none for zero.
pub open spec fn bit_len(n: nat) -> nat
    decreases n,
{
    if n == 0 {
        0
    } else {
        1 + bit_len(n / 2)
    }
}

/// `n` zero bytes.
pub open spec fn zeros(n: nat) -> Seq<u8> {
    Seq::new(n, |i: int| 0u8)
}

/// `bytes` with zeros in front, `n` bytes long in all; a longer string stays
/// as it is.
pub open spec fn zero_padded(bytes: Seq<u8>, n: nat) -> Seq<u8> {
    if bytes.len() >= n {
        bytes
    } else {
        zeros((n - bytes.len()) as nat) + bytes
    }
}

/// Zeros in front do not change the number.
pub proof fn lemma_zeros_in_front(n: nat, bytes: Seq<u8>)
    ensures
        be_value(zeros(n) + bytes) == be_value(bytes),
    decreases n + bytes.len(),
{
    let s = zeros(n) + bytes;
    if bytes.len() > 0 {
        assert(s.drop_last() =~= zeros(n) + bytes.drop_last());
        lemma_zeros_in_front(n, bytes.drop_last());
    } else if n > 0 {
        assert(s.drop_last() =~= zeros((n - 1) as nat) + bytes);
        lemma_zeros_in_front((n - 1) as nat, bytes);
    }
}

/// A string that starts with a non-zero byte denotes a number of its full
/// length.
pub proof fn lemma_be_value_leading(bytes: Seq<u8>)
    requires
        bytes.len() > 0,
        bytes[0] != 0,
    ensures
        be_value(bytes) >= pow(256, (bytes.len() - 1) as nat),
    decreases bytes.len(),
{
    reveal(pow);
    if bytes.len() > 1 {
        lemma_be_value_leading(bytes.drop_last());
    } else {
        assert(be_value(bytes.drop_last()) == 0);
    }
}

/// Writing the number that a string denotes gives the string back.
pub proof fn lemma_be_bytes_of_value(bytes: Seq<u8>)
    ensures
        be_bytes(be_value(bytes), bytes.len()) == bytes,
    decreases bytes.len(),
{
    if bytes.len() > 0 {
        let front = bytes.drop_last();
        lemma_be_bytes_of_value(front);
        assert(be_value(bytes) / 256 == be_value(front));
        assert(be_value(bytes) % 256 == bytes.last());
        assert(bytes =~= front.push(bytes.last()));
    } else {
        assert(bytes =~= Seq::<u8>::empty());
    }
}

/// A written number has the length asked for, and is read back where it fits.
pub proof fn lemma_value_of_be_bytes(n: nat, len: nat)
    ensures
        be_bytes(n, len).len() == len,
        n < pow(256, len) ==> be_value(be_bytes(n, len)) == n,
    decreases len,
{
    reveal(pow);
    if len > 0 {
        lemma_value_of_be_bytes(n / 256, (len - 1) as nat);
        let s = be_bytes(n, len);
        assert(s.drop_last() =~= be_bytes(n / 256, (len - 1) as nat));
        if n < pow(256, len) {
            let rest = pow(256, (len - 1) as nat);
            assert(n / 256 < rest) by (nonlinear_arith)
                requires
                    n < 256 * rest,
            ;
        }
    }
}

/// A number is below the power of two that its length in bits names.
pub proof fn lemma_bit_len_bound(n: nat)
    ensures
        n < vstd::arithmetic::power2::pow2(bit_len(n)),
    decreases n,
{
    if n == 0 {
        vstd::arithmetic::power2::lemma2_to64();
    } else {
        lemma_bit_len_bound(n / 2);
        vstd::arithmetic::power2::lemma_pow2_unfold(bit_len(n));
    }
}

/// A number of at most `8 * len` bits fits into `len` bytes.
pub proof fn lemma_bits_fit_bytes(n: nat, len: nat)
    requires
        bit_len(n) <= 8 * len,
    ensures
        n < pow(256, len),
{
    lemma_bit_len_bound(n);
    if bit_len(n) < 8 * len {
        vstd::arithmetic::power2::lemma_pow2_strictly_increases(bit_len(n), 8 * len);
    }
    vstd::arithmetic::power2::lemma_pow2(8 * len);
    vstd::arithmetic::power::lemma_pow_multiplies(2, 8, len);
    vstd::arithmetic::power2::lemma_pow2(8);
    vstd::arithmetic::power2::lemma2_to64();
}

/// A number below `256^n`, written without a leading zero byte, takes at most
/// `n` bytes.
pub proof fn lemma_minimal_length(bytes: Seq<u8>, n: nat)
    requires
        bytes.len() > 0 ==> bytes[0] != 0,
        be_value(bytes) < pow(256, n),
    ensures
        bytes.len() <= n,
{
    if bytes.len() > n {
        lemma_be_value_leading(bytes);
        vstd::arithmetic::power::lemma_pow_increases(256, n, (bytes.len() - 1) as nat);
    }
}

/// Copies a slice.
pub fn to_vec(bytes: &[u8]) -> (r: Vec<u8>)
    ensures
        r@ == bytes@,
{
    let mut out: Vec<u8> = Vec::new();
    out.extend_from_slice(bytes);
    assert(out@ =~= bytes@);
    out
}

/// Two byte strings, one after the other.
pub fn join(a: &[u8], b: &[u8]) -> (r: Vec<u8>)
    ensures
        r@ == a@ + b@,
{
    let mut out: Vec<u8> = to_vec(a);
    out.extend_from_slice(b);
    assert(out@ =~= a@ + b@);
    out
}

/// `n` zero bytes.
pub fn zero_bytes(n: usize) -> (r: Vec<u8>)
    ensures
        r@ == zeros(n as nat),
{
    let mut out: Vec<u8> = Vec::new();
    let mut i: usize = 0;
    while i < n
        invariant
            i <= n,
            out@ =~= zeros(i as nat),
        decreases n - i,
    {
        out.push(0);
        i = i + 1;
    }
    out
}

/// `bytes` with zeros in front, `n` bytes long in all; a longer string stays
/// as it is.
pub fn zero_pad(bytes: &[u8], n: usize) -> (r: Vec<u8>)
    ensures
        r@ == zero_padded(bytes@, n as nat),
{
    if bytes.len() >= n {
        to_vec(bytes)
    } else {
        let front: Vec<u8> = zero_bytes(n - bytes.len());
        join(front.as_slice(), bytes)
    }
}

} // verus!
