use vstd::prelude::*;

verus! {

/// The decimal digits of `n`, most significant first, as ASCII.
pub open spec fn dec_digits(n: nat) -> Seq<u8>
    decreases n,
{
    if n < 10 {
        seq![(48 + n) as u8]
    } else {
        dec_digits(n / 10).push((48 + n % 10) as u8)
    }
}

/// `n` in decimal, padded with leading zeros to at least `width` digits.
pub open spec fn padded_dec(n: nat, width: nat) -> Seq<u8> {
    let d = dec_digits(n);
    if d.len() < width {
        Seq::new((width - d.len()) as nat, |i: int| 48u8) + d
    } else {
        d
    }
}

/// Every digit is an ASCII digit.
pub proof fn lemma_dec_digits_ascii(n: nat)
    ensures
        forall|i: int| 0 <= i < dec_digits(n).len() ==> 48 <= #[trigger] dec_digits(n)[i] <= 57,
        dec_digits(n).len() >= 1,
    decreases n,
{
    if n >= 10 {
        lemma_dec_digits_ascii(n / 10);
    }
}

/// Every byte of a padded number is an ASCII digit.
pub proof fn lemma_padded_ascii(n: nat, width: nat)
    ensures
        forall|i: int| 0 <= i < padded_dec(n, width).len() ==> 48 <= #[trigger] padded_dec(n, width)[i] <= 57,
{
    lemma_dec_digits_ascii(n);
    let d = dec_digits(n);
    if d.len() < width {
        let z = Seq::new((width - d.len()) as nat, |i: int| 48u8);
        assert forall|i: int| 0 <= i < padded_dec(n, width).len() implies 48 <= #[trigger] padded_dec(n, width)[i] <= 57 by {
            if i < z.len() {
                assert(padded_dec(n, width)[i] == z[i]);
            } else {
                assert(padded_dec(n, width)[i] == d[i - z.len()]);
            }
        }
    }
}

/// Appends the decimal digits of `n`.
pub fn push_dec(out: &mut Vec<u8>, n: u64)
    ensures
        final(out)@ == old(out)@ + dec_digits(n as nat),
    decreases n,
{
    if n >= 10 {
        push_dec(out, n / 10);
    }
    let d = (n % 10) as u8;
    out.push(48 + d);
    proof {
        if n >= 10 {
            assert(final(out)@ =~= old(out)@ + dec_digits(n as nat));
        } else {
            assert(final(out)@ =~= old(out)@ + dec_digits(n as nat));
        }
    }
}

/// Appends `n` in decimal, padded with leading zeros to `width` digits.
pub fn push_padded(out: &mut Vec<u8>, n: u64, width: usize)
    ensures
        final(out)@ == old(out)@ + padded_dec(n as nat, width as nat),
{
    let mut digits: Vec<u8> = Vec::new();
    push_dec(&mut digits, n);
    assert(digits@ =~= dec_digits(n as nat));
    let mut k: usize = digits.len();
    let ghost start = out@;
    while k < width
        invariant
            digits@ == dec_digits(n as nat),
            digits@.len() <= k <= width || (k == digits@.len() && k >= width),
            out@ == start + Seq::new((k - digits@.len()) as nat, |i: int| 48u8),
        decreases width - k,
    {
        out.push(48);
        k = k + 1;
        assert(out@ =~= start + Seq::new((k - digits@.len()) as nat, |i: int| 48u8));
    }
    let ghost before = out@;
    let mut i: usize = 0;
    while i < digits.len()
        invariant
            i <= digits@.len(),
            out@ == before + digits@.subrange(0, i as int),
        decreases digits@.len() - i,
    {
        out.push(digits[i]);
        i = i + 1;
        assert(out@ =~= before + digits@.subrange(0, i as int));
    }
    assert(digits@.subrange(0, digits@.len() as int) =~= digits@);
    assert(out@ =~= old(out)@ + padded_dec(n as nat, width as nat));
}

/// Appends the bytes of `b`.
pub fn push_bytes(out: &mut Vec<u8>, b: &[u8])
    ensures
        final(out)@ == old(out)@ + b@,
{
    crate::bytes::append_range(out, b, 0, b.len());
    assert(b@.subrange(0, b@.len() as int) =~= b@);
}

} // verus!
