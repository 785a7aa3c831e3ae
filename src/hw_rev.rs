//! Decoding of the board revision from the device tree's `compatible` property.
use vstd::prelude::*;

use crate::error::{Error, Result};
use vstd::string::StringSliceAdditionalSpecFns;
use vstd::utf8::{encode_utf8, is_char_boundary};

verus! {

/// The position of the first NUL byte of `b` at or after `i`, or its length.
pub open spec fn first_nul(b: Seq<u8>, i: int) -> int
    decreases b.len() - i,
{
    if i >= b.len() || i < 0 {
        b.len() as int
    } else if b[i] == 0 {
        i
    } else {
        first_nul(b, i + 1)
    }
}

/// The marker `,rev` stands at position `p` of `b`.
pub open spec fn rev_at(b: Seq<u8>, p: int) -> bool {
    &&& 0 <= p
    &&& p + 4 <= b.len()
    &&& b[p] == 44u8
    &&& b[p + 1] == 114u8
    &&& b[p + 2] == 101u8
    &&& b[p + 3] == 118u8
}

/// The last position `p` with `p + 4 <= e` where `,rev` stands, or -1.
pub open spec fn last_rev(b: Seq<u8>, e: int) -> int
    decreases e,
{
    if e < 4 {
        -1
    } else if rev_at(b, e - 4) {
        e - 4
    } else {
        last_rev(b, e - 1)
    }
}

/// The text after the last `,rev` of the first NUL-terminated entry; a
/// `,rev` that ends the entry is dropped first.
pub open spec fn revision_text(b: Seq<u8>) -> Seq<u8> {
    let f = first_nul(b, 0);
    let e = if f >= 4 && rev_at(b, f - 4) {
        f - 4
    } else {
        f
    };
    let p = last_rev(b, e);
    let start = if p >= 0 {
        p + 4
    } else {
        0
    };
    b.subrange(start, e)
}

pub open spec fn is_digit(c: u8) -> bool {
    48 <= c <= 57
}

/// The number written by the decimal digits `d`.
pub open spec fn digits_value(d: Seq<u8>) -> int
    decreases d.len(),
{
    if d.len() == 0 {
        0
    } else {
        digits_value(d.drop_last()) * 10 + (d.last() - 48)
    }
}

/// `d` without a leading `+`.
pub open spec fn unsigned_digits(d: Seq<u8>) -> Seq<u8> {
    if d.len() > 0 && d[0] == 43u8 {
        d.skip(1)
    } else {
        d
    }
}

pub open spec fn all_digits(d: Seq<u8>) -> bool {
    forall|i: int| 0 <= i < d.len() ==> is_digit(#[trigger] d[i])
}

/// `d` as a decimal `u8`: an optional `+`, then one or more digits whose value is at most 255.
pub open spec fn parse_u8_spec(d: Seq<u8>) -> Option<u8> {
    let digits = unsigned_digits(d);
    if digits.len() > 0 && all_digits(digits) && digits_value(digits) <= 255 {
        Some(digits_value(digits) as u8)
    } else {
        None
    }
}

/// Parses `b[start..end]` as a decimal `u8`.
fn parse_u8(b: &[u8], start: usize, end: usize) -> (r: Option<u8>)
    requires
        start <= end <= b@.len(),
    ensures
        r == parse_u8_spec(b@.subrange(start as int, end as int)),
{
    let ghost d = b@.subrange(start as int, end as int);
    let mut i = start;
    if i < end && b[i] == 43u8 {
        i = i + 1;
    }
    let ghost digits = b@.subrange(i as int, end as int);
    assert(digits =~= unsigned_digits(d));
    if i == end {
        return None;
    }
    let first = i;
    let mut acc: u32 = 0;
    while i < end
        invariant
            first <= i <= end <= b@.len(),
            digits == b@.subrange(first as int, end as int),
            d == b@.subrange(start as int, end as int),
            digits == unsigned_digits(d),
            forall|j: int| first <= j < i ==> is_digit(#[trigger] b@[j]),
            acc as int == if digits_value(b@.subrange(first as int, i as int)) <= 256 {
                digits_value(b@.subrange(first as int, i as int))
            } else {
                256
            },
        decreases end - i,
    {
        let c = b[i];
        if c < 48u8 || c > 57u8 {
            assert(digits[i - first] == c);
            assert(!is_digit(digits[i - first]));
            assert(!all_digits(digits));
            return None;
        }
        let ghost prev = b@.subrange(first as int, i as int);
        assert(b@.subrange(first as int, i + 1).drop_last() =~= prev);
        let next: u32 = acc * 10 + (c - 48u8) as u32;
        acc = if next > 256 {
            256
        } else {
            next
        };
        i = i + 1;
    }
    assert(b@.subrange(first as int, i as int) =~= digits);
    assert forall|j: int| 0 <= j < digits.len() implies is_digit(#[trigger] digits[j]) by {
        assert(digits[j] == b@[first + j]);
    }
    if acc <= 255 {
        Some(acc as u8)
    } else {
        None
    }
}

/// Decodes the board revision from the `compatible` property: the number
/// after the last `,rev` of its first entry, which must be a decimal `u8`.
pub fn decode_hw_revision(compatible: String) -> (r: Result<u8>)
    ensures
        r == (match parse_u8_spec(revision_text(encode_utf8(compatible@))) {
            Some(v) => Ok(v),
            None => Err(Error::GenericError),
        }),
{
    let b = compatible.as_str().as_bytes();
    let n = b.len();
    let mut f: usize = 0;
    while f < n && b[f] != 0u8
        invariant
            f <= n == b@.len(),
            first_nul(b@, 0) == first_nul(b@, f as int),
        decreases n - f,
    {
        f = f + 1;
    }
    let mut e = f;
    if f >= 4 && b[f - 4] == 44u8 && b[f - 3] == 114u8 && b[f - 2] == 101u8 && b[f - 1] == 118u8 {
        e = f - 4;
    }
    let mut k = e;
    while k >= 4 && !(b[k - 4] == 44u8 && b[k - 3] == 114u8 && b[k - 2] == 101u8 && b[k - 1]
        == 118u8)
        invariant
            k <= e <= n == b@.len(),
            last_rev(b@, e as int) == last_rev(b@, k as int),
        decreases k,
    {
        k = k - 1;
    }
    let start = if k >= 4 {
        k
    } else {
        0
    };
    match parse_u8(b, start, e) {
        Some(v) => Ok(v),
        None => Err(Error::GenericError),
    }
}

/// The position of the first `,` of `b` at or after `i` and before `f`, or `f`.
pub open spec fn next_comma(b: Seq<u8>, i: int, f: int) -> int
    decreases f - i,
{
    if i >= f || i < 0 {
        f
    } else if b[i] == 44u8 {
        i
    } else {
        next_comma(b, i + 1, f)
    }
}

/// `p` occurs in `b[s..e]`.
pub open spec fn piece_contains(b: Seq<u8>, s: int, e: int, p: Seq<u8>) -> bool {
    exists|i: int| s <= i && i + p.len() <= e && #[trigger] b.subrange(i, i + p.len()) == p
}

/// The first comma-separated piece `[s, e)` of `b[start..f]` that contains `p`.
pub open spec fn first_piece_with(b: Seq<u8>, start: int, f: int, p: Seq<u8>) -> Option<(int, int)>
    decreases f - start,
{
    let e = next_comma(b, start, f);
    if piece_contains(b, start, e, p) {
        Some((start, e))
    } else if e >= f || start >= f || e < start {
        None
    } else {
        first_piece_with(b, e + 1, f, p)
    }
}

/// Whether `p` occurs in `b[s..e]`.
fn find_in(b: &[u8], s: usize, e: usize, p: &[u8]) -> (r: bool)
    requires
        s <= e <= b@.len(),
    ensures
        r == piece_contains(b@, s as int, e as int, p@),
{
    let n = p.len();
    if n > e - s {
        return false;
    }
    let mut i = s;
    while i <= e - n
        invariant
            s <= i,
            n == p@.len(),
            e <= b@.len(),
            n <= e - s,
            forall|j: int| s <= j < i ==> #[trigger] b@.subrange(j, j + n) != p@,
        decreases e - i,
    {
        let mut k: usize = 0;
        while k < n && b[i + k] == p[k]
            invariant
                k <= n,
                i + n <= e <= b@.len(),
                n == p@.len(),
                forall|q: int| 0 <= q < k ==> b@[i + q] == p@[q],
            decreases n - k,
        {
            k = k + 1;
        }
        if k == n {
            assert(b@.subrange(i as int, i + n) =~= p@);
            return true;
        }
        assert(b@.subrange(i as int, i + n)[k as int] != p@[k as int]);
        i = i + 1;
    }
    proof {
        assert forall|j: int| s <= j && j + n <= e implies #[trigger] b@.subrange(j, j + n) != p@ by {
            assert(j < i);
        }
    }
    false
}

/// The device name in the `compatible` property: the first comma-separated
/// piece of its first entry that contains `prefix`.
pub fn decode_compatibles(compatibles: &str, prefix: &str) -> (r: Option<String>)
    ensures
        ({
            let b = compatibles.spec_bytes();
            let found = first_piece_with(b, 0, first_nul(b, 0), prefix.spec_bytes());
            &&& found is None ==> r is None
            &&& r is Some ==> found is Some && encode_utf8(r->Some_0@) == b.subrange(
                found->Some_0.0,
                found->Some_0.1,
            )
            &&& (found is Some && is_char_boundary(b, found->Some_0.0) && is_char_boundary(
                b.subrange(found->Some_0.0, b.len() as int),
                found->Some_0.1 - found->Some_0.0,
            )) ==> r is Some
        }),
{
    let b = compatibles.as_bytes();
    let p = prefix.as_bytes();
    let n = b.len();
    let mut f: usize = 0;
    while f < n && b[f] != 0u8
        invariant
            f <= n == b@.len(),
            first_nul(b@, 0) == first_nul(b@, f as int),
        decreases n - f,
    {
        f = f + 1;
    }
    assert(first_nul(b@, f as int) == f);
    let mut s: usize = 0;
    loop
        invariant
            s <= f <= n == b@.len(),
            b@ == compatibles.spec_bytes(),
            p@ == prefix.spec_bytes(),
            first_nul(b@, 0) == f as int,
            first_piece_with(b@, 0, f as int, p@) == first_piece_with(b@, s as int, f as int, p@),
        decreases f - s,
    {
        let mut e = s;
        while e < f && b[e] != 44u8
            invariant
                s <= e <= f <= b@.len(),
                next_comma(b@, s as int, f as int) == next_comma(b@, e as int, f as int),
            decreases f - e,
        {
            e = e + 1;
        }
        assert(next_comma(b@, e as int, f as int) == e);
        if find_in(b, s, e, p) {
            assert(first_piece_with(b@, s as int, f as int, p@) == Some((s as int, e as int)));
            if !compatibles.is_char_boundary(s) {
                return None;
            }
            let tail = compatibles.split_at(s).1;
            if !tail.is_char_boundary(e - s) {
                return None;
            }
            let piece = tail.split_at(e - s).0;
            assert(piece.spec_bytes() =~= b@.subrange(s as int, e as int));
            return Some(piece.to_owned());
        }
        if e >= f {
            return None;
        }
        s = e + 1;
    }
}

} // verus!
