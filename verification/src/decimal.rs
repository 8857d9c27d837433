//! ASCII decimal rendering of integers, used when framing trace records.

use vstd::prelude::*;

verus! {

/// The ASCII code of the decimal digit `d`.
pub open spec fn digit_ascii(d: nat) -> u8
    recommends
        d < 10,
{
    (48 + d) as u8
}

/// The ASCII decimal digits of `n`, most significant first, with no sign and
/// no leading zeros (except for `n == 0`, which is the single digit `0`).
pub open spec fn dec_digits(n: nat) -> Seq<u8>
    decreases n,
{
    if n < 10 {
        seq![digit_ascii(n)]
    } else {
        dec_digits(n / 10) + seq![digit_ascii(n % 10)]
    }
}

/// The ASCII decimal rendering of a signed value: a minus sign for negative
/// values, followed by the digits of the magnitude.
pub open spec fn dec_signed(v: int) -> Seq<u8> {
    if v < 0 {
        seq![45u8] + dec_digits((-v) as nat)
    } else {
        dec_digits(v as nat)
    }
}

/// Appends the decimal digits of `n` to `out`.
pub fn push_dec_u64(out: &mut Vec<u8>, n: u64)
    ensures
        final(out)@ == old(out)@ + dec_digits(n as nat),
    decreases n,
{
    if n >= 10 {
        push_dec_u64(out, n / 10);
    }
    out.push(48 + (n % 10) as u8);
    proof {
        if n >= 10 {
            assert(final(out)@ == (old(out)@ + dec_digits((n / 10) as nat)).push(
                digit_ascii((n % 10) as nat),
            ));
            assert((old(out)@ + dec_digits((n / 10) as nat)).push(digit_ascii((n % 10) as nat))
                =~= old(out)@ + dec_digits(n as nat));
        } else {
            assert(old(out)@.push(digit_ascii(n as nat)) =~= old(out)@ + dec_digits(n as nat));
        }
    }
}

/// Appends the signed decimal rendering of `v` to `out`.
pub fn push_dec_i64(out: &mut Vec<u8>, v: i64)
    ensures
        final(out)@ == old(out)@ + dec_signed(v as int),
{
    if v >= 0 {
        push_dec_u64(out, v as u64);
    } else {
        out.push(45);
        let magnitude: u64 = ((-(v + 1)) as u64) + 1;
        assert(magnitude as nat == (-(v as int)) as nat);
        push_dec_u64(out, magnitude);
        assert(old(out)@.push(45u8) + dec_digits((-(v as int)) as nat) =~= old(out)@ + dec_signed(
            v as int,
        ));
    }
}

/// Appends every byte of `s` to `out`, in order.
pub fn push_bytes(out: &mut Vec<u8>, s: &[u8])
    ensures
        final(out)@ == old(out)@ + s@,
{
    let mut i: usize = 0;
    while i < s.len()
        invariant
            i <= s@.len(),
            out@ == old(out)@ + s@.subrange(0, i as int),
        decreases s@.len() - i,
    {
        out.push(s[i]);
        proof {
            assert(s@.subrange(0, i + 1).drop_last() == s@.subrange(0, i as int));
            assert(out@ =~= old(out)@ + s@.subrange(0, i + 1));
        }
        i = i + 1;
    }
    assert(s@.subrange(0, s@.len() as int) =~= s@);
}

} // verus!
