use vstd::prelude::*;

verus! {

/// The unsigned 16-bit integer stored at `s[i..i + 2]` in the given byte order.
pub open spec fn spec_u16(s: Seq<u8>, i: int, le: bool) -> int {
    if le {
        s[i] + 256 * s[i + 1]
    } else {
        256 * s[i] + s[i + 1]
    }
}

/// The unsigned 32-bit integer stored at `s[i..i + 4]` in the given byte order.
pub open spec fn spec_u32(s: Seq<u8>, i: int, le: bool) -> int {
    if le {
        s[i] + 256 * s[i + 1] + 65536 * s[i + 2] + 16777216 * s[i + 3]
    } else {
        16777216 * s[i] + 65536 * s[i + 1] + 256 * s[i + 2] + s[i + 3]
    }
}

/// The unsigned 64-bit integer stored at `s[i..i + 8]` in the given byte order.
pub open spec fn spec_u64(s: Seq<u8>, i: int, le: bool) -> int {
    if le {
        spec_u32(s, i, true) + 4294967296 * spec_u32(s, i + 4, true)
    } else {
        4294967296 * spec_u32(s, i, false) + spec_u32(s, i + 4, false)
    }
}

/// Reads a 16-bit integer in the given byte order.
pub fn load_u16(data: &[u8], i: usize, le: bool) -> (r: u16)
    requires
        i + 2 <= data@.len(),
    ensures
        r == spec_u16(data@, i as int, le),
{
    let a = data[i] as u16;
    let b = data[i + 1] as u16;
    if le {
        a + b * 256
    } else {
        a * 256 + b
    }
}

/// Reads a 32-bit integer in the given byte order.
pub fn load_u32(data: &[u8], i: usize, le: bool) -> (r: u32)
    requires
        i + 4 <= data@.len(),
    ensures
        r == spec_u32(data@, i as int, le),
{
    let a = data[i] as u32;
    let b = data[i + 1] as u32;
    let c = data[i + 2] as u32;
    let d = data[i + 3] as u32;
    if le {
        a + b * 256 + c * 65536 + d * 16777216
    } else {
        a * 16777216 + b * 65536 + c * 256 + d
    }
}

/// Reads a 64-bit integer in the given byte order.
pub fn load_u64(data: &[u8], i: usize, le: bool) -> (r: u64)
    requires
        i + 8 <= data@.len(),
    ensures
        r == spec_u64(data@, i as int, le),
{
    let _n = data.len();
    let first = load_u32(data, i, le) as u64;
    let second = load_u32(data, i + 4, le) as u64;
    if le {
        first + second * 4294967296
    } else {
        first * 4294967296 + second
    }
}

/// Copies `data[start..end]` into a new vector.
pub fn copy_range(data: &[u8], start: usize, end: usize) -> (r: Vec<u8>)
    requires
        start <= end <= data@.len(),
    ensures
        r@ == data@.subrange(start as int, end as int),
{
    let mut r: Vec<u8> = Vec::new();
    let mut i: usize = start;
    while i < end
        invariant
            start <= i <= end <= data@.len(),
            r@ == data@.subrange(start as int, i as int),
        decreases end - i,
    {
        r.push(data[i]);
        i = i + 1;
        assert(r@ =~= data@.subrange(start as int, i as int));
    }
    r
}

/// Appends `data[start..end]` to `out`.
pub fn append_range(out: &mut Vec<u8>, data: &[u8], start: usize, end: usize)
    requires
        start <= end <= data@.len(),
    ensures
        final(out)@ == old(out)@ + data@.subrange(start as int, end as int),
{
    let ghost o = out@;
    let mut i: usize = start;
    while i < end
        invariant
            start <= i <= end <= data@.len(),
            out@ == o + data@.subrange(start as int, i as int),
        decreases end - i,
    {
        out.push(data[i]);
        i = i + 1;
        assert(out@ =~= o + data@.subrange(start as int, i as int));
    }
}

/// Whether `s` begins with `prefix`.
pub open spec fn spec_starts_with(s: Seq<u8>, prefix: Seq<u8>) -> bool {
    prefix.len() <= s.len() && s.subrange(0, prefix.len() as int) == prefix
}

/// Tests whether `data` begins with `prefix`.
pub fn starts_with(data: &[u8], prefix: &[u8]) -> (r: bool)
    ensures
        r == spec_starts_with(data@, prefix@),
{
    if prefix.len() > data.len() {
        return false;
    }
    let mut i: usize = 0;
    while i < prefix.len()
        invariant
            prefix@.len() <= data@.len(),
            i <= prefix@.len(),
            forall|j: int| 0 <= j < i ==> data@[j] == prefix@[j],
        decreases prefix@.len() - i,
    {
        if data[i] != prefix[i] {
            assert(data@.subrange(0, prefix@.len() as int)[i as int] != prefix@[i as int]);
            return false;
        }
        i = i + 1;
    }
    assert(data@.subrange(0, prefix@.len() as int) =~= prefix@);
    true
}

/// Tests whether `data[at..]` begins with `prefix`.
pub fn matches_at(data: &[u8], at: usize, prefix: &[u8]) -> (r: bool)
    ensures
        r == (at + prefix@.len() <= data@.len()
            && data@.subrange(at as int, at + prefix@.len()) == prefix@),
{
    if at > data.len() || prefix.len() > data.len() - at {
        return false;
    }
    let mut i: usize = 0;
    while i < prefix.len()
        invariant
            at + prefix@.len() <= data@.len(),
            data@.len() == data.len(),
            i <= prefix@.len(),
            forall|j: int| 0 <= j < i ==> data@[at + j] == prefix@[j],
        decreases prefix@.len() - i,
    {
        if data[at + i] != prefix[i] {
            assert(data@.subrange(at as int, at + prefix@.len())[i as int] != prefix@[i as int]);
            return false;
        }
        i = i + 1;
    }
    assert(data@.subrange(at as int, at + prefix@.len()) =~= prefix@);
    true
}

} // verus!
