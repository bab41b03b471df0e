//! Wide strings: the 16-bit code-unit strings exchanged with the host's
//! service interfaces. Conversion to the nul-terminated form, bounded
//! decoding of raw buffers, and the comparison and scanning helpers the
//! rest of the library builds on.

use vstd::prelude::*;

verus! {

/// Whether a wide string holds an interior nul unit, which would make it
/// unrepresentable as a nul-terminated string.
pub open spec fn spec_contains_nul(s: Seq<u16>) -> bool {
    exists|i: int| 0 <= i < s.len() && s[i] == 0
}

/// Whether a wide string holds a nul unit.
pub fn contains_nul(s: &Vec<u16>) -> (r: bool)
    ensures
        r == spec_contains_nul(s@),
{
    let mut index: usize = 0;
    while index < s.len()
        invariant
            index <= s@.len(),
            forall|i: int| 0 <= i < index ==> s@[i] != 0,
        decreases s@.len() - index,
    {
        if s[index] == 0 {
            return true;
        }
        index = index + 1;
    }
    false
}

/// Whether two wide strings hold the same code units.
pub fn wide_eq(a: &Vec<u16>, b: &Vec<u16>) -> (r: bool)
    ensures
        r == (a@ == b@),
{
    if a.len() != b.len() {
        assert(a@ != b@) by {
            assert(a@.len() != b@.len());
        }
        return false;
    }
    let mut index: usize = 0;
    while index < a.len()
        invariant
            a@.len() == b@.len(),
            index <= a@.len(),
            forall|i: int| 0 <= i < index ==> a@[i] == b@[i],
        decreases a@.len() - index,
    {
        if a[index] != b[index] {
            return false;
        }
        index = index + 1;
    }
    assert(a@ =~= b@);
    true
}

/// Copy a wide string and append the nul terminator, producing the form
/// handed to the host's string-taking calls.
pub fn to_wide_with_nul(s: &Vec<u16>) -> (r: Vec<u16>)
    ensures
        r@ == s@.push(0u16),
{
    let mut wide: Vec<u16> = Vec::new();
    let mut index: usize = 0;
    while index < s.len()
        invariant
            index <= s@.len(),
            wide@ == s@.take(index as int),
        decreases s@.len() - index,
    {
        wide.push(s[index]);
        assert(wide@ =~= s@.take(index + 1 as int));
        index = index + 1;
    }
    assert(s@.take(s@.len() as int) =~= s@);
    wide.push(0);
    wide
}

/// Append one wide string to another.
pub fn append_wide(dst: &mut Vec<u16>, src: &Vec<u16>)
    ensures
        final(dst)@ == old(dst)@ + src@,
{
    let mut index: usize = 0;
    while index < src.len()
        invariant
            index <= src@.len(),
            dst@ == old(dst)@ + src@.take(index as int),
        decreases src@.len() - index,
    {
        dst.push(src[index]);
        assert(dst@ =~= old(dst)@ + src@.take(index + 1 as int));
        index = index + 1;
    }
    assert(old(dst)@ + src@.take(src@.len() as int) =~= old(dst)@ + src@);
}

/// Copy a wide string.
pub fn clone_wide(s: &Vec<u16>) -> (r: Vec<u16>)
    ensures
        r@ == s@,
{
    let mut copied: Vec<u16> = Vec::new();
    append_wide(&mut copied, s);
    copied
}

/// Decode a raw wide-character buffer that should be nul terminated, never
/// scanning past `max_length` units nor past the end of the buffer.
///
/// The result is the longest nul-free prefix of the buffer within that
/// bound: a buffer lacking a terminator within the bound yields the
/// truncated string rather than an unbounded scan.
pub fn from_raw_wide_string(raw_wide_chars: &Vec<u16>, max_length: usize) -> (r: Vec<u16>)
    ensures
        r@.len() <= max_length,
        r@.len() <= raw_wide_chars@.len(),
        r@ == raw_wide_chars@.take(r@.len() as int),
        forall|i: int| 0 <= i < r@.len() ==> raw_wide_chars@[i] != 0,
        r@.len() < max_length && r@.len() < raw_wide_chars@.len()
            ==> raw_wide_chars@[r@.len() as int] == 0,
{
    let mut decoded: Vec<u16> = Vec::new();
    let mut index: usize = 0;
    while index < max_length && index < raw_wide_chars.len()
        invariant
            index <= max_length,
            index <= raw_wide_chars@.len(),
            decoded@ == raw_wide_chars@.take(index as int),
            forall|i: int| 0 <= i < index ==> raw_wide_chars@[i] != 0,
        decreases raw_wide_chars@.len() - index,
    {
        let unit = raw_wide_chars[index];
        if unit == 0 {
            return decoded;
        }
        decoded.push(unit);
        assert(decoded@ =~= raw_wide_chars@.take(index + 1 as int));
        index = index + 1;
    }
    decoded
}

} // verus!
