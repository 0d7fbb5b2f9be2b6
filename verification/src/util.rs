use vstd::prelude::*;
use crate::error::Error;
use vstd::utf8::{valid_utf8, decode_utf8};

verus! {

/// Whether `c` is an ASCII decimal digit.
pub open spec fn is_digit(c: u8) -> bool {
    48 <= c <= 57
}

/// Whether every byte of `s` is an ASCII decimal digit.
pub open spec fn all_digits(s: Seq<u8>) -> bool {
    forall|i: int| 0 <= i < s.len() ==> is_digit(#[trigger] s[i])
}

/// The number that the decimal digits `s` spell.
pub open spec fn spec_decimal(s: Seq<u8>) -> int
    decreases s.len(),
{
    if s.len() == 0 {
        0
    } else {
        10 * spec_decimal(s.drop_last()) + (s.last() - 48)
    }
}

/// Ten to the power `n`.
pub open spec fn pow10(n: nat) -> int
    decreases n,
{
    if n == 0 {
        1
    } else {
        10 * pow10((n - 1) as nat)
    }
}

/// A number of at most `n` digits is below `10^n`.
pub proof fn lemma_decimal_bound(s: Seq<u8>)
    requires
        all_digits(s),
    ensures
        0 <= spec_decimal(s) < pow10(s.len()),
    decreases s.len(),
{
    if s.len() > 0 {
        assert(all_digits(s.drop_last())) by {
            assert forall|i: int| 0 <= i < s.drop_last().len() implies is_digit(#[trigger] s.drop_last()[i]) by {
                assert(s.drop_last()[i] == s[i]);
            }
        }
        lemma_decimal_bound(s.drop_last());
        assert(is_digit(s[s.len() - 1]));
    }
}

/// Parses a decimal number of at most four digits.
pub fn atou16(bytes: &[u8]) -> (r: Result<u16, Error>)
    requires
        bytes@.len() <= 4,
    ensures
        r is Ok <==> bytes@.len() > 0 && all_digits(bytes@),
        r matches Ok(n) ==> n == spec_decimal(bytes@),
        r matches Err(e) ==> e.is_invalid("Not a number"),
{
    if bytes.len() == 0 {
        return Err(Error::InvalidFormat("Not a number"));
    }
    let mut n: u16 = 0;
    let mut i: usize = 0;
    while i < bytes.len()
        invariant
            i <= bytes@.len() <= 4,
            all_digits(bytes@.subrange(0, i as int)),
            n == spec_decimal(bytes@.subrange(0, i as int)),
        decreases bytes@.len() - i,
    {
        let c = bytes[i];
        if c < 48 || c > 57 {
            proof {
                assert(!is_digit(bytes@[i as int]));
            }
            return Err(Error::InvalidFormat("Not a number"));
        }
        proof {
            let pre = bytes@.subrange(0, i as int);
            let nxt = bytes@.subrange(0, i + 1);
            assert(nxt.drop_last() =~= pre);
            assert(all_digits(nxt)) by {
                assert forall|j: int| 0 <= j < nxt.len() implies is_digit(#[trigger] nxt[j]) by {
                    if j < i {
                        assert(nxt[j] == pre[j]);
                    }
                }
            }
            lemma_decimal_bound(pre);
            assert(pow10(i as nat) <= 1000) by {
                reveal_with_fuel(pow10, 4);
            }
        }
        n = n * 10 + (c - 48) as u16;
        i = i + 1;
    }
    proof {
        assert(bytes@.subrange(0, i as int) =~= bytes@);
    }
    Ok(n)
}

/// Parses one decimal digit.
pub fn ctou32(c: u8) -> (r: Result<u32, Error>)
    ensures
        r is Ok <==> is_digit(c),
        r matches Ok(n) ==> n == c - 48,
        r matches Err(e) ==> e.is_invalid("Not a number"),
{
    if c < 48 || c > 57 {
        return Err(Error::InvalidFormat("Not a number"));
    }
    Ok((c - 48) as u32)
}

/// The characters that bytes stand for, each byte the code point of the
/// same value (ISO 8859-1); for ASCII bytes, the ASCII characters.
pub open spec fn ascii_chars(s: Seq<u8>) -> Seq<char> {
    s.map_values(|b: u8| b as char)
}

/// Makes a `String` of bytes, each taken as the character of the same
/// code point, by collecting `char::from` of each byte.
///
/// The standard library documents that `char::from(u8)` maps a byte to the
/// character whose code point has the same value, and that collecting
/// characters into a `String` keeps them in order; so the string holds
/// exactly those characters.
#[verifier::external_body]
pub(crate) fn bytes_to_string(bytes: &[u8]) -> (r: String)
    ensures
        r@ == ascii_chars(bytes@),
{
    bytes.iter().map(|&b| char::from(b)).collect()
}

/// Whether `a` and `b` hold the same bytes.
pub fn bytes_eq(a: &[u8], b: &[u8]) -> (r: bool)
    ensures
        r == (a@ == b@),
{
    if a.len() != b.len() {
        return false;
    }
    let mut i: usize = 0;
    while i < a.len()
        invariant
            a@.len() == b@.len(),
            i <= a@.len(),
            forall|j: int| 0 <= j < i ==> a@[j] == b@[j],
        decreases a@.len() - i,
    {
        if a[i] != b[i] {
            return false;
        }
        i = i + 1;
    }
    assert(a@ =~= b@);
    true
}

/// Decodes `bytes` as UTF-8 with `std::str::from_utf8`, copying the text
/// into a `String`.
///
/// The standard library documents that `from_utf8` succeeds exactly on
/// valid UTF-8, and the characters are those the bytes encode; vstd's
/// `valid_utf8` and `decode_utf8` state UTF-8 (shortest forms, no
/// surrogates, scalars up to U+10FFFF).
#[verifier::external_body]
pub(crate) fn utf8_string(bytes: &[u8]) -> (r: Option<String>)
    ensures
        match r {
            Some(s) => valid_utf8(bytes@) && s@ == decode_utf8(bytes@),
            None => !valid_utf8(bytes@),
        },
{
    match std::str::from_utf8(bytes) {
        Ok(s) => Some(s.to_string()),
        Err(_) => None,
    }
}

} // verus!
