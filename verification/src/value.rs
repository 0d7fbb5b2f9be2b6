use vstd::prelude::*;
use crate::bytes::{spec_u16, spec_u32, spec_u64, load_u16, load_u32, load_u64, copy_range};

verus! {

/// An unsigned rational number, the value of a RATIONAL field.
#[derive(Debug, Clone, Copy, PartialEq, Eq, Structural)]
pub struct Rational {
    pub num: u32,
    pub denom: u32,
}

/// A signed rational number, the value of an SRATIONAL field.
#[derive(Debug, Clone, Copy, PartialEq, Eq, Structural)]
pub struct SRational {
    pub num: i32,
    pub denom: i32,
}

/// The value of a TIFF/Exif field.
///
/// FLOAT and DOUBLE values are held as the IEEE 754 bit patterns the file
/// states, in the machine's integer form.
#[derive(Debug, Clone)]
pub enum Value {
    Byte(Vec<u8>),
    /// One or more NUL-separated strings, each without its terminator.
    Ascii(Vec<Vec<u8>>),
    Short(Vec<u16>),
    Long(Vec<u32>),
    Rational(Vec<Rational>),
    SByte(Vec<i8>),
    /// The bytes, and the offset they were read from.
    Undefined(Vec<u8>, u32),
    SShort(Vec<i16>),
    SLong(Vec<i32>),
    SRational(Vec<SRational>),
    /// FLOAT values as their 32-bit patterns.
    Float(Vec<u32>),
    /// DOUBLE values as their 64-bit patterns.
    Double(Vec<u64>),
    /// A value of an unknown type: its type, count and offset.
    Unknown(u16, u32, u32),
}

/// The mathematical content of a `Value`.
pub ghost enum ValueView {
    Byte(Seq<u8>),
    Ascii(Seq<Seq<u8>>),
    Short(Seq<u16>),
    Long(Seq<u32>),
    Rational(Seq<Rational>),
    SByte(Seq<i8>),
    Undefined(Seq<u8>, u32),
    SShort(Seq<i16>),
    SLong(Seq<i32>),
    SRational(Seq<SRational>),
    Float(Seq<u32>),
    Double(Seq<u64>),
    Unknown(u16, u32, u32),
}

impl View for Value {
    type V = ValueView;

    open spec fn view(&self) -> ValueView {
        match self {
            Value::Byte(v) => ValueView::Byte(v@),
            Value::Ascii(v) => ValueView::Ascii(strings_view(v@)),
            Value::Short(v) => ValueView::Short(v@),
            Value::Long(v) => ValueView::Long(v@),
            Value::Rational(v) => ValueView::Rational(v@),
            Value::SByte(v) => ValueView::SByte(v@),
            Value::Undefined(v, o) => ValueView::Undefined(v@, *o),
            Value::SShort(v) => ValueView::SShort(v@),
            Value::SLong(v) => ValueView::SLong(v@),
            Value::SRational(v) => ValueView::SRational(v@),
            Value::Float(v) => ValueView::Float(v@),
            Value::Double(v) => ValueView::Double(v@),
            Value::Unknown(t, c, o) => ValueView::Unknown(*t, *c, *o),
        }
    }
}

fn copy_vec<T: Copy>(v: &Vec<T>) -> (r: Vec<T>)
    ensures
        r@ == v@,
{
    let mut r: Vec<T> = Vec::new();
    let mut i: usize = 0;
    while i < v.len()
        invariant
            i <= v@.len(),
            r@ == v@.subrange(0, i as int),
        decreases v@.len() - i,
    {
        r.push(v[i]);
        i = i + 1;
        assert(r@ =~= v@.subrange(0, i as int));
    }
    assert(v@.subrange(0, v@.len() as int) =~= v@);
    r
}

impl Value {
    /// Returns a copy of the value.
    pub fn copy(&self) -> (r: Value)
        ensures
            r@ == self@,
    {
        match self {
            Value::Byte(v) => Value::Byte(copy_vec(v)),
            Value::Ascii(v) => {
                let mut out: Vec<Vec<u8>> = Vec::new();
                let mut i: usize = 0;
                while i < v.len()
                    invariant
                        i <= v@.len(),
                        strings_view(out@) == strings_view(v@.subrange(0, i as int)),
                    decreases v@.len() - i,
                {
                    let ghost before = out@;
                    out.push(copy_vec(&v[i]));
                    assert(strings_view(out@) =~= strings_view(before).push(v@[i as int]@));
                    assert(strings_view(v@.subrange(0, i + 1)) =~= strings_view(v@.subrange(0, i as int)).push(v@[i as int]@));
                    i = i + 1;
                }
                assert(v@.subrange(0, v@.len() as int) =~= v@);
                Value::Ascii(out)
            },
            Value::Short(v) => Value::Short(copy_vec(v)),
            Value::Long(v) => Value::Long(copy_vec(v)),
            Value::Rational(v) => Value::Rational(copy_vec(v)),
            Value::SByte(v) => Value::SByte(copy_vec(v)),
            Value::Undefined(v, o) => Value::Undefined(copy_vec(v), *o),
            Value::SShort(v) => Value::SShort(copy_vec(v)),
            Value::SLong(v) => Value::SLong(copy_vec(v)),
            Value::SRational(v) => Value::SRational(copy_vec(v)),
            Value::Float(v) => Value::Float(copy_vec(v)),
            Value::Double(v) => Value::Double(copy_vec(v)),
            Value::Unknown(t, c, o) => Value::Unknown(*t, *c, *o),
        }
    }
}

/// The size in bytes of one unit of the TIFF type `typ`, or 0 for a type
/// this library does not know.
pub open spec fn spec_unit_len(typ: u16) -> nat {
    if typ == 1 || typ == 2 || typ == 6 || typ == 7 {
        1
    } else if typ == 3 || typ == 8 {
        2
    } else if typ == 4 || typ == 9 || typ == 11 {
        4
    } else if typ == 5 || typ == 10 || typ == 12 {
        8
    } else {
        0
    }
}

/// Returns the size in bytes of one unit of the TIFF type `typ`
/// (0 for an unknown type).
pub fn unit_len(typ: u16) -> (r: usize)
    ensures
        r == spec_unit_len(typ),
{
    match typ {
        1 | 2 | 6 | 7 => 1,
        3 | 8 => 2,
        4 | 9 | 11 => 4,
        5 | 10 | 12 => 8,
        _ => 0,
    }
}

/// The pieces of `s` between NUL bytes, after its first `i` bytes:
/// the finished pieces and the one still open.
pub open spec fn split_nul_upto(s: Seq<u8>, i: nat) -> (Seq<Seq<u8>>, Seq<u8>)
    decreases i,
{
    if i == 0 || i > s.len() {
        (Seq::empty(), Seq::empty())
    } else {
        let (done, cur) = split_nul_upto(s, (i - 1) as nat);
        if s[i - 1] == 0 {
            (done.push(cur), Seq::empty())
        } else {
            (done, cur.push(s[i - 1]))
        }
    }
}

/// The strings of an ASCII field: `s` split at every NUL, with a trailing
/// empty piece (the terminator of the last string) dropped.
pub open spec fn spec_ascii_strings(s: Seq<u8>) -> Seq<Seq<u8>> {
    let (done, cur) = split_nul_upto(s, s.len());
    if cur.len() == 0 {
        done
    } else {
        done.push(cur)
    }
}

/// The view of a list of strings.
pub open spec fn strings_view(v: Seq<Vec<u8>>) -> Seq<Seq<u8>> {
    v.map_values(|x: Vec<u8>| x@)
}

/// Whether `v` is the value of `cnt` units of type `typ` stored at `s[ofs..]`
/// in the given byte order.
pub open spec fn value_read_from(v: ValueView, typ: u16, cnt: int, ofs: int, s: Seq<u8>, le: bool) -> bool {
    match v {
        ValueView::Byte(b) => typ == 1 && b == s.subrange(ofs, ofs + cnt),
        ValueView::Ascii(a) => typ == 2 && a == spec_ascii_strings(s.subrange(ofs, ofs + cnt)),
        ValueView::Short(x) => typ == 3 && x.len() == cnt
            && forall|k: int| 0 <= k < cnt ==> x[k] == spec_u16(s, ofs + 2 * k, le),
        ValueView::Long(x) => typ == 4 && x.len() == cnt
            && forall|k: int| 0 <= k < cnt ==> x[k] == spec_u32(s, ofs + 4 * k, le),
        ValueView::Rational(x) => typ == 5 && x.len() == cnt
            && forall|k: int| 0 <= k < cnt ==> x[k].num == spec_u32(s, ofs + 8 * k, le)
                && x[k].denom == spec_u32(s, ofs + 8 * k + 4, le),
        ValueView::SByte(x) => typ == 6 && x.len() == cnt
            && forall|k: int| 0 <= k < cnt ==> x[k] == s[ofs + k] as i8,
        ValueView::Undefined(b, o) => typ == 7 && b == s.subrange(ofs, ofs + cnt) && o == ofs,
        ValueView::SShort(x) => typ == 8 && x.len() == cnt
            && forall|k: int| 0 <= k < cnt ==> x[k] == spec_u16(s, ofs + 2 * k, le) as i16,
        ValueView::SLong(x) => typ == 9 && x.len() == cnt
            && forall|k: int| 0 <= k < cnt ==> x[k] == spec_u32(s, ofs + 4 * k, le) as i32,
        ValueView::SRational(x) => typ == 10 && x.len() == cnt
            && forall|k: int| 0 <= k < cnt ==> x[k].num == spec_u32(s, ofs + 8 * k, le) as i32
                && x[k].denom == spec_u32(s, ofs + 8 * k + 4, le) as i32,
        ValueView::Float(x) => typ == 11 && x.len() == cnt
            && forall|k: int| 0 <= k < cnt ==> x[k] == spec_u32(s, ofs + 4 * k, le),
        ValueView::Double(x) => typ == 12 && x.len() == cnt
            && forall|k: int| 0 <= k < cnt ==> x[k] == spec_u64(s, ofs + 8 * k, le),
        ValueView::Unknown(t, c, o) => spec_unit_len(typ) == 0 && t == typ && c == cnt && o == ofs,
    }
}

/// Splits `data[start..end]` into the strings of an ASCII field.
fn parse_ascii(data: &[u8], start: usize, end: usize) -> (r: Vec<Vec<u8>>)
    requires
        start <= end <= data@.len(),
    ensures
        strings_view(r@) == spec_ascii_strings(data@.subrange(start as int, end as int)),
{
    let ghost s = data@.subrange(start as int, end as int);
    let mut done: Vec<Vec<u8>> = Vec::new();
    let mut cur: Vec<u8> = Vec::new();
    let mut i: usize = start;
    while i < end
        invariant
            start <= i <= end <= data@.len(),
            s == data@.subrange(start as int, end as int),
            (strings_view(done@), cur@) == split_nul_upto(s, (i - start) as nat),
        decreases end - i,
    {
        let b = data[i];
        proof {
            assert(s[(i - start) as int] == b);
        }
        if b == 0 {
            let piece = cur;
            done.push(piece);
            cur = Vec::new();
            assert(strings_view(done@) =~= strings_view(done@.drop_last()).push(piece@));
        } else {
            cur.push(b);
        }
        i = i + 1;
    }
    if cur.len() > 0 {
        let ghost before = done@;
        done.push(cur);
        assert(strings_view(done@) =~= strings_view(before).push(cur@));
    }
    done
}

/// Reads `cnt` units of type `typ` stored at `data[ofs..]`.
///
/// A type with no known unit length yields `Value::Unknown(typ, cnt, ofs)`.
pub fn parse_value(typ: u16, cnt: u32, ofs: u32, data: &[u8], le: bool) -> (v: Value)
    requires
        ofs + spec_unit_len(typ) * cnt <= data@.len(),
    ensures
        value_read_from(v@, typ, cnt as int, ofs as int, data@, le),
{
    let dlen = data.len();
    let ofs = ofs as usize;
    let n = cnt as usize;
    let u = unit_len(typ);
    if u == 0 {
        return Value::Unknown(typ, cnt, ofs as u32);
    }
    proof {
        assert(u * n <= data@.len()) by (nonlinear_arith)
            requires ofs + u * n <= data@.len();
    }
    match typ {
        1 => Value::Byte(copy_range(data, ofs, ofs + n)),
        2 => Value::Ascii(parse_ascii(data, ofs, ofs + n)),
        7 => Value::Undefined(copy_range(data, ofs, ofs + n), ofs as u32),
        6 => {
            let mut r: Vec<i8> = Vec::new();
            let mut k: usize = 0;
            while k < n
                invariant
                    k <= n, ofs + n <= data@.len(), data@.len() == dlen,
                    r@.len() == k,
                    forall|j: int| 0 <= j < k ==> r@[j] == data@[ofs + j] as i8,
                decreases n - k,
            {
                r.push(#[verifier::truncate] (data[ofs + k] as i8));
                k = k + 1;
            }
            Value::SByte(r)
        },
        3 | 8 => {
            let mut r: Vec<u16> = Vec::new();
            let mut k: usize = 0;
            while k < n
                invariant
                    k <= n, ofs + 2 * n <= data@.len(), data@.len() == dlen,
                    r@.len() == k,
                    forall|j: int| 0 <= j < k ==> r@[j] == spec_u16(data@, ofs + 2 * j, le),
                decreases n - k,
            {
                r.push(load_u16(data, ofs + 2 * k, le));
                k = k + 1;
            }
            if typ == 3 {
                Value::Short(r)
            } else {
                let mut t: Vec<i16> = Vec::new();
                let mut k: usize = 0;
                while k < n
                    invariant
                        k <= n, r@.len() == n,
                        t@.len() == k,
                        forall|j: int| 0 <= j < k ==> t@[j] == r@[j] as i16,
                    decreases n - k,
                {
                    t.push(#[verifier::truncate] (r[k] as i16));
                    k = k + 1;
                }
                Value::SShort(t)
            }
        },
        4 | 9 | 11 => {
            let mut r: Vec<u32> = Vec::new();
            let mut k: usize = 0;
            while k < n
                invariant
                    k <= n, ofs + 4 * n <= data@.len(), data@.len() == dlen,
                    r@.len() == k,
                    forall|j: int| 0 <= j < k ==> r@[j] == spec_u32(data@, ofs + 4 * j, le),
                decreases n - k,
            {
                r.push(load_u32(data, ofs + 4 * k, le));
                k = k + 1;
            }
            if typ == 4 {
                Value::Long(r)
            } else if typ == 11 {
                Value::Float(r)
            } else {
                let mut t: Vec<i32> = Vec::new();
                let mut k: usize = 0;
                while k < n
                    invariant
                        k <= n, r@.len() == n,
                        t@.len() == k,
                        forall|j: int| 0 <= j < k ==> t@[j] == r@[j] as i32,
                    decreases n - k,
                {
                    t.push(#[verifier::truncate] (r[k] as i32));
                    k = k + 1;
                }
                Value::SLong(t)
            }
        },
        5 => {
            let mut r: Vec<Rational> = Vec::new();
            let mut k: usize = 0;
            while k < n
                invariant
                    k <= n, ofs + 8 * n <= data@.len(), data@.len() == dlen,
                    r@.len() == k,
                    forall|j: int| 0 <= j < k ==> r@[j].num == spec_u32(data@, ofs + 8 * j, le)
                        && r@[j].denom == spec_u32(data@, ofs + 8 * j + 4, le),
                decreases n - k,
            {
                let num = load_u32(data, ofs + 8 * k, le);
                let denom = load_u32(data, ofs + 8 * k + 4, le);
                r.push(Rational { num, denom });
                k = k + 1;
            }
            Value::Rational(r)
        },
        10 => {
            let mut r: Vec<SRational> = Vec::new();
            let mut k: usize = 0;
            while k < n
                invariant
                    k <= n, ofs + 8 * n <= data@.len(), data@.len() == dlen,
                    r@.len() == k,
                    forall|j: int| 0 <= j < k ==> r@[j].num == spec_u32(data@, ofs + 8 * j, le) as i32
                        && r@[j].denom == spec_u32(data@, ofs + 8 * j + 4, le) as i32,
                decreases n - k,
            {
                let num = #[verifier::truncate] (load_u32(data, ofs + 8 * k, le) as i32);
                let denom = #[verifier::truncate] (load_u32(data, ofs + 8 * k + 4, le) as i32);
                r.push(SRational { num, denom });
                k = k + 1;
            }
            Value::SRational(r)
        },
        _ => {
            let mut r: Vec<u64> = Vec::new();
            let mut k: usize = 0;
            while k < n
                invariant
                    typ == 12, k <= n, ofs + 8 * n <= data@.len(), data@.len() == dlen,
                    r@.len() == k,
                    forall|j: int| 0 <= j < k ==> r@[j] == spec_u64(data@, ofs + 8 * j, le),
                decreases n - k,
            {
                r.push(load_u64(data, ofs + 8 * k, le));
                k = k + 1;
            }
            Value::Double(r)
        },
    }
}

impl Value {
    /// The `index`-th value as an unsigned integer, for BYTE, SHORT and
    /// LONG values; `None` otherwise or out of range.
    pub open spec fn spec_get_uint(self, index: int) -> Option<u32> {
        match self {
            Value::Byte(v) => if 0 <= index < v@.len() { Some(v@[index] as u32) } else { None },
            Value::Short(v) => if 0 <= index < v@.len() { Some(v@[index] as u32) } else { None },
            Value::Long(v) => if 0 <= index < v@.len() { Some(v@[index]) } else { None },
            _ => None,
        }
    }

    /// Returns the unsigned integer at `index` of a BYTE, SHORT or LONG
    /// value.
    pub fn get_uint(&self, index: usize) -> (r: Option<u32>)
        ensures
            r == self.spec_get_uint(index as int),
    {
        match self {
            Value::Byte(v) => if index < v.len() { Some(v[index] as u32) } else { None },
            Value::Short(v) => if index < v.len() { Some(v[index] as u32) } else { None },
            Value::Long(v) => if index < v.len() { Some(v[index]) } else { None },
            _ => None,
        }
    }
}

/// The text the derived `Debug` formatting writes for a value: the
/// variant's name and its contents. It depends on the value alone.
pub uninterp spec fn debug_text_of(v: ValueView) -> Seq<char>;

/// Writes `v` with `format!("{:?}")`, through the `Debug` impl that
/// `derive` writes for `Value`: the text a value of no better-known form is
/// shown as. What that text is, is named (`debug_text_of`), not stated.
#[verifier::external_body]
pub(crate) fn debug_text(v: &Value) -> (r: String)
    ensures
        r@ == debug_text_of(v@),
{
    format!("{:?}", v)
}

/// What `value_read_from` says a value read from given bytes is, it says of
/// one value only.
pub proof fn lemma_value_read_unique(a: ValueView, b: ValueView, typ: u16, cnt: int, ofs: int, s: Seq<u8>, le: bool)
    requires
        value_read_from(a, typ, cnt, ofs, s, le),
        value_read_from(b, typ, cnt, ofs, s, le),
    ensures
        a == b,
{
    match (a, b) {
        (ValueView::Short(x), ValueView::Short(y)) => assert(x =~= y),
        (ValueView::Long(x), ValueView::Long(y)) => assert(x =~= y),
        (ValueView::Rational(x), ValueView::Rational(y)) => assert(x =~= y),
        (ValueView::SByte(x), ValueView::SByte(y)) => assert(x =~= y),
        (ValueView::SShort(x), ValueView::SShort(y)) => assert(x =~= y),
        (ValueView::SLong(x), ValueView::SLong(y)) => assert(x =~= y),
        (ValueView::SRational(x), ValueView::SRational(y)) => assert(x =~= y),
        (ValueView::Float(x), ValueView::Float(y)) => assert(x =~= y),
        (ValueView::Double(x), ValueView::Double(y)) => assert(x =~= y),
        _ => {},
    }
}

} // verus!
