//! ASCII text written into byte buffers: string chunks, decimal numbers, and
//! fixed-width zero-padded decimal numbers, as the container format needs.

use vstd::prelude::*;

verus! {

/// The bytes of a character sequence, one byte per character (meaningful for
/// ASCII text, where the byte is the character's code point).
pub open spec fn ascii_bytes(s: Seq<char>) -> Seq<u8> {
    Seq::new(s.len(), |i: int| s[i] as u8)
}

/// The shortest decimal ASCII digit string for `n`.
pub open spec fn dec_digits(n: nat) -> Seq<u8>
    decreases n,
{
    if n < 10 {
        seq![(48 + n) as u8]
    } else {
        dec_digits(n / 10) + seq![(48 + n % 10) as u8]
    }
}

/// The `width` low decimal digits of `n`, zero-padded on the left.
pub open spec fn dec_padded(n: nat, width: nat) -> Seq<u8>
    decreases width,
{
    if width == 0 {
        Seq::empty()
    } else {
        dec_padded(n / 10, (width - 1) as nat) + seq![(48 + n % 10) as u8]
    }
}

/// 10^k.
pub open spec fn pow10(k: nat) -> nat
    decreases k,
{
    if k == 0 {
        1
    } else {
        10 * pow10((k - 1) as nat)
    }
}

/// `dec_digits(n)` has at most `k` digits when `n < 10^k`.
pub proof fn lemma_dec_digits_len(n: nat, k: nat)
    requires
        1 <= k,
        n < pow10(k),
    ensures
        1 <= dec_digits(n).len() <= k,
    decreases k,
{
    if n >= 10 {
        assert(k >= 2) by {
            if k == 1 {
                assert(pow10(1nat) == 10);
            }
        }
        assert(n / 10 < pow10((k - 1) as nat)) by {
            assert(pow10(k) == 10 * pow10((k - 1) as nat));
            assert(n / 10 >= pow10((k - 1) as nat) ==> n >= 10 * pow10((k - 1) as nat)) by (nonlinear_arith);
        }
        lemma_dec_digits_len(n / 10, (k - 1) as nat);
    }
}

/// `dec_padded(n, width)` always has exactly `width` digits.
pub proof fn lemma_dec_padded_len(n: nat, width: nat)
    ensures
        dec_padded(n, width).len() == width,
    decreases width,
{
    if width > 0 {
        lemma_dec_padded_len(n / 10, (width - 1) as nat);
    }
}

/// Append the bytes of an ASCII string slice to `out`, one byte per character.
pub fn push_ascii(out: &mut Vec<u8>, s: &str)
    ensures
        final(out)@ == old(out)@ + ascii_bytes(s@),
{
    let n = s.unicode_len();
    let mut i: usize = 0;
    while i < n
        invariant
            i <= n,
            n == s@.len(),
            out@ == old(out)@ + ascii_bytes(s@).take(i as int),
        decreases n - i,
    {
        let c = s.get_char(i);
        out.push(#[verifier::truncate] (c as u8));
        proof {
            assert(out@ =~= old(out)@ + ascii_bytes(s@).take(i + 1));
        }
        i = i + 1;
    }
    proof {
        assert(out@ =~= old(out)@ + ascii_bytes(s@));
    }
}

/// Append the decimal digits of `n` to `out`.
pub fn push_decimal(out: &mut Vec<u8>, n: u64)
    ensures
        final(out)@ == old(out)@ + dec_digits(n as nat),
    decreases n,
{
    if n >= 10 {
        push_decimal(out, n / 10);
    }
    out.push(48 + (n % 10) as u8);
    proof {
        assert(out@ =~= old(out)@ + dec_digits(n as nat));
    }
}

fn push_dec_width(out: &mut Vec<u8>, n: u64, width: u8)
    ensures
        final(out)@ == old(out)@ + dec_padded(n as nat, width as nat),
    decreases width,
{
    if width > 0 {
        push_dec_width(out, n / 10, width - 1);
        out.push(48 + (n % 10) as u8);
    }
    proof {
        assert(out@ =~= old(out)@ + dec_padded(n as nat, width as nat));
    }
}

/// Append `n` as exactly ten zero-padded decimal digits.
pub fn push_decimal_padded10(out: &mut Vec<u8>, n: u64)
    requires
        n < 10_000_000_000,
    ensures
        final(out)@ == old(out)@ + dec_padded(n as nat, 10),
{
    push_dec_width(out, n, 10);
}

} // verus!
