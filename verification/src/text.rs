//! Decimal rendering of numbers into ASCII bytes, and UTF-8 decoding of
//! fixed-size name buffers.

use vstd::prelude::*;
use vstd::utf8::{valid_utf8, pop_first_scalar};
use vstd::string::StringSliceAdditionalSpecFns;

verus! {

/// ASCII code of the decimal digit `d` (0..=9).
pub open spec fn digit_char(d: nat) -> u8 {
    (48 + d) as u8
}

/// The last `n` decimal digits of `v`, most significant first
/// (zero-padded on the left when `v` has fewer than `n` digits).
pub open spec fn last_digits(v: nat, n: nat) -> Seq<u8>
    decreases n,
{
    if n == 0 {
        seq![]
    } else {
        last_digits(v / 10, (n - 1) as nat).push(digit_char(v % 10))
    }
}

/// Number of decimal digits of `v` (1 for zero).
pub open spec fn num_digits(v: nat) -> nat
    decreases v,
{
    if v < 10 {
        1
    } else {
        1 + num_digits(v / 10)
    }
}

/// `v` written in decimal without leading zeros.
pub open spec fn decimal(v: nat) -> Seq<u8> {
    last_digits(v, num_digits(v))
}

/// `v` written with at most `cap` digits: the last `min(num_digits(v), cap)` digits.
pub open spec fn capped_decimal(v: nat, cap: nat) -> Seq<u8> {
    last_digits(v, if num_digits(v) < cap { num_digits(v) } else { cap })
}

/// Ten to the power `k`.
pub open spec fn pow10(k: nat) -> nat
    decreases k,
{
    if k == 0 {
        1
    } else {
        10 * pow10((k - 1) as nat)
    }
}

/// A number below `10^k` has at most `k` digits.
pub proof fn lemma_num_digits_bound(v: nat, k: nat)
    requires
        1 <= k,
        v < pow10(k),
    ensures
        num_digits(v) <= k,
    decreases k,
{
    if v >= 10 {
        if k == 1 {
            assert(pow10(1) == 10) by {
                reveal_with_fuel(pow10, 2);
            }
        } else {
            lemma_num_digits_bound(v / 10, (k - 1) as nat);
        }
    }
}

/// Number of decimal digits of `v`.
pub fn digit_count(v: u32) -> (r: usize)
    ensures
        r == num_digits(v as nat),
        1 <= r <= 10,
    decreases v,
{
    if v < 10 {
        1
    } else {
        proof {
            assert(pow10(9) == 1000000000) by {
                reveal_with_fuel(pow10, 10);
            }
            lemma_num_digits_bound((v / 10) as nat, 9);
        }
        1 + digit_count(v / 10)
    }
}

/// Appends the last `n` decimal digits of `v` to `out`.
pub fn push_last_digits(out: &mut Vec<u8>, v: u32, n: usize)
    ensures
        final(out)@ == old(out)@ + last_digits(v as nat, n as nat),
    decreases n,
{
    if n > 0 {
        push_last_digits(out, v / 10, n - 1);
        let d: u8 = (v % 10) as u8;
        out.push(48 + d);
        assert(final(out)@ =~= old(out)@ + last_digits(v as nat, n as nat));
    } else {
        assert(final(out)@ =~= old(out)@ + last_digits(v as nat, n as nat));
    }
}

/// Appends `v` in decimal with at most `cap` digits.
pub fn push_capped_decimal(out: &mut Vec<u8>, v: u32, cap: usize)
    ensures
        final(out)@ == old(out)@ + capped_decimal(v as nat, cap as nat),
{
    let nd = digit_count(v);
    let n = if nd < cap { nd } else { cap };
    push_last_digits(out, v, n);
}

/// Appends every byte of `bytes` to `out`.
pub fn push_all(out: &mut Vec<u8>, bytes: &[u8])
    ensures
        final(out)@ == old(out)@ + bytes@,
{
    let mut i: usize = 0;
    while i < bytes.len()
        invariant
            i <= bytes@.len(),
            out@ == old(out)@ + bytes@.subrange(0, i as int),
        decreases bytes@.len() - i,
    {
        out.push(bytes[i]);
        i += 1;
        assert(out@ =~= old(out)@ + bytes@.subrange(0, i as int));
    }
    assert(bytes@.subrange(0, i as int) =~= bytes@);
}

/// ASCII bytes are well-formed UTF-8.
pub proof fn lemma_ascii_valid_utf8(bytes: Seq<u8>)
    requires
        forall|i: int| 0 <= i < bytes.len() ==> #[trigger] bytes[i] < 128,
    ensures
        valid_utf8(bytes),
    decreases bytes.len(),
{
    if bytes.len() > 0 {
        let b = bytes[0];
        assert((b & 0x7F) as u32 <= 0x7F) by (bit_vector);
        assert(pop_first_scalar(bytes) =~= bytes.drop_first());
        lemma_ascii_valid_utf8(bytes.drop_first());
    }
}

/// Decodes `bytes` as UTF-8 with `core::str::from_utf8`.
///
/// Trusted: the contract claims what the standard library documents, that
/// the call succeeds exactly on well-formed UTF-8 and that the returned string
/// is made of the same bytes.
#[verifier::external_body]
pub fn str_from_utf8(bytes: &[u8]) -> (r: Option<&str>)
    ensures
        r is Some <==> valid_utf8(bytes@),
        r matches Some(s) ==> s.spec_bytes() == bytes@,
{
    core::str::from_utf8(bytes).ok()
}

/// The first `len` bytes of `buf` as a string, or `fallback` when they are not UTF-8.
pub fn prefix_str_or<'a>(buf: &'a [u8], len: usize, fallback: &'a str) -> (r: &'a str)
    requires
        len <= buf@.len(),
    ensures
        valid_utf8(buf@.subrange(0, len as int)) ==> r.spec_bytes() == buf@.subrange(0, len as int),
        !valid_utf8(buf@.subrange(0, len as int)) ==> r == fallback,
{
    let prefix = vstd::slice::slice_subrange(buf, 0, len);
    match str_from_utf8(prefix) {
        Some(s) => s,
        None => fallback,
    }
}

/// `raw` when it is well-formed UTF-8, else `fallback`.
pub fn utf8_or(raw: Vec<u8>, fallback: &[u8]) -> (r: Vec<u8>)
    ensures
        r@ == if valid_utf8(raw@) { raw@ } else { fallback@ },
{
    if str_from_utf8(raw.as_slice()).is_some() {
        raw
    } else {
        let mut out = Vec::new();
        push_all(&mut out, fallback);
        assert(out@ =~= fallback@);
        out
    }
}

} // verus!
