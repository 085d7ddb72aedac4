//! UTF-16 string utilities for the host boundary.
//!
//! Names and string values cross the host boundary as UTF-16 code-unit
//! sequences without a terminator; registration-path strings carry a NUL
//! terminator only on targets whose binary contract wants one.

use vstd::prelude::*;

verus! {

/// UTF-16 code units of one character: one unit for the basic plane, a
/// surrogate pair above it.
pub open spec fn utf16_units_of_char(c: char) -> Seq<u16> {
    if (c as int) < 0x10000 {
        seq![(c as int) as u16]
    } else {
        seq![
            (0xD800 + ((c as int) - 0x10000) / 0x400) as u16,
            (0xDC00 + ((c as int) - 0x10000) % 0x400) as u16,
        ]
    }
}

/// UTF-16 encoding of a character sequence.
pub open spec fn utf16_units(s: Seq<char>) -> Seq<u16>
    decreases s.len(),
{
    if s.len() == 0 {
        Seq::empty()
    } else {
        utf16_units_of_char(s[0]) + utf16_units(s.drop_first())
    }
}

/// Relies on str::encode_utf16: the UTF-16 encoding of the string, without
/// a terminator.
#[verifier::external_body]
pub fn os_string(s: &str) -> (r: Vec<u16>)
    ensures
        r@ == utf16_units(s@),
{
    s.encode_utf16().collect()
}

/// Registration-path variant of `os_string`.  Targets whose binary contract
/// requires a NUL terminator append one; this target's contract does not.
pub fn os_string_nil(s: &str) -> (r: Vec<u16>)
    ensures
        r@ == utf16_units(s@),
{
    os_string(s)
}

/// What String::from_utf16_lossy returns, a function of the code units alone.
pub uninterp spec fn utf16_lossy_decode(units: Seq<u16>) -> Seq<char>;

/// Relies on String::from_utf16_lossy: decodes UTF-16 into characters,
/// replacing invalid data with the replacement character, so a valid
/// encoding decodes back to exactly the characters that produced it.
#[verifier::external_body]
pub fn from_os_string(s: &[u16]) -> (r: String)
    ensures
        r@ == utf16_lossy_decode(s@),
        forall|t: Seq<char>| utf16_units(t) == s@ ==> r@ == t,
        s@.len() == 0 ==> r@.len() == 0,
{
    String::from_utf16_lossy(s)
}

/// The prefix of `data` up to and including its first NUL code unit, the
/// shape in which the host hands over terminated strings.  The caller must
/// pass a terminated buffer.
pub fn get_str(data: &[u16]) -> (r: &[u16])
    requires
        exists|j: int| 0 <= j < data@.len() && data@[j] == 0,
    ensures
        1 <= r@.len() <= data@.len(),
        r@ == data@.subrange(0, r@.len() as int),
        r@[r@.len() - 1] == 0,
        forall|k: int| 0 <= k < r@.len() - 1 ==> r@[k] != 0,
{
    let mut i: usize = 0;
    while data[i] != 0
        invariant
            0 <= i <= data@.len(),
            forall|k: int| 0 <= k < i ==> data@[k] != 0,
            exists|j: int| i <= j < data@.len() && data@[j] == 0,
        decreases data@.len() - i,
    {
        i = i + 1;
        proof {
            let j = choose|j: int| i - 1 <= j < data@.len() && data@[j] == 0;
            assert(i <= j < data@.len() && data@[j] == 0);
        }
    }
    vstd::slice::slice_subrange(data, 0, i + 1)
}

} // verus!
