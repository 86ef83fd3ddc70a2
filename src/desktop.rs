//! The form in which the desktop takes an image path: UTF-16 code units
//! ending in a zero unit.
use vstd::prelude::*;

verus! {

/// The UTF-16 code units of one character: one unit below U+10000, else a
/// surrogate pair.
pub open spec fn utf16_units(c: char) -> Seq<u16> {
    let u = c as u32;
    if u < 0x10000 {
        seq![u as u16]
    } else {
        let v = (u - 0x10000) as u32;
        seq![(0xD800 + v / 0x400) as u16, (0xDC00 + v % 0x400) as u16]
    }
}

/// The UTF-16 encoding of `s`.
pub open spec fn utf16(s: Seq<char>) -> Seq<u16>
    decreases s.len(),
{
    if s.len() == 0 {
        seq![]
    } else {
        utf16(s.drop_last()) + utf16_units(s.last())
    }
}

/// `path` in UTF-16, followed by a zero unit.
pub fn wide_path(path: &str) -> (r: Vec<u16>)
    ensures
        r@ == utf16(path@).push(0),
{
    let n = path.unicode_len();
    let mut r: Vec<u16> = Vec::new();
    let mut i: usize = 0;
    while i < n
        invariant
            n == path@.len(),
            0 <= i <= n,
            r@ == utf16(path@.subrange(0, i as int)),
        decreases n - i,
    {
        let c = path.get_char(i);
        let u = c as u32;
        let ghost pre = path@.subrange(0, i as int);
        let ghost post = path@.subrange(0, i + 1);
        assert(post.drop_last() =~= pre);
        assert(post.last() == c);
        if u < 0x10000 {
            r.push(u as u16);
            assert(r@ =~= utf16(pre) + utf16_units(c));
        } else {
            let v = u - 0x10000;
            r.push((0xD800 + v / 0x400) as u16);
            r.push((0xDC00 + v % 0x400) as u16);
            assert(r@ =~= utf16(pre) + utf16_units(c));
        }
        i = i + 1;
    }
    assert(path@.subrange(0, n as int) =~= path@);
    r.push(0);
    r
}

} // verus!
