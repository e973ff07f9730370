//! UTF-16 encoding and the counted-string descriptor the platform's device
//! names are published with.

use vstd::prelude::*;

use vstd::slice::slice_to_vec;
use vstd::string::StrSliceExecFns;

verus! {

/// The UTF-16 code units of one character: the character itself below the
/// supplementary planes, a surrogate pair above them.
pub open spec fn utf16_units(c: char) -> Seq<u16> {
    if (c as int) < 0x10000 {
        seq![c as u16]
    } else {
        seq![
            (0xD800 + (((c as int) - 0x10000) / 0x400)) as u16,
            (0xDC00 + (((c as int) - 0x10000) % 0x400)) as u16,
        ]
    }
}

/// The UTF-16 code units of a text, in order.
pub open spec fn utf16_rep(s: Seq<char>) -> Seq<u16>
    decreases s.len(),
{
    if s.len() == 0 {
        Seq::empty()
    } else {
        utf16_rep(s.drop_last()) + utf16_units(s.last())
    }
}

/// Encodes a text's characters as UTF-16 code units, in order, with no
/// terminator.
fn encode_utf16_units(s: &str) -> (units: Vec<u16>)
    ensures
        units@ == utf16_rep(s@),
{
    let n = s.unicode_len();
    let mut units: Vec<u16> = Vec::new();
    let mut i: usize = 0;
    while i < n
        invariant
            i <= n,
            n == s@.len(),
            units@ == utf16_rep(s@.subrange(0, i as int)),
        decreases n - i,
    {
        let c = s.get_char(i);
        let v = c as u32;
        if v < 0x10000 {
            units.push(v as u16);
        } else {
            units.push((0xD800 + ((v - 0x10000) / 0x400)) as u16);
            units.push((0xDC00 + ((v - 0x10000) % 0x400)) as u16);
        }
        proof {
            assert(s@.subrange(0, (i + 1) as int).drop_last() =~= s@.subrange(0, i as int));
            assert(units@ =~= utf16_rep(s@.subrange(0, (i + 1) as int)));
        }
        i = i + 1;
    }
    proof {
        assert(s@.subrange(0, n as int) =~= s@);
    }
    units
}

/// Types that can be encoded as null-terminated UTF-16 code units.
pub trait ToU16Vec: View<V = Seq<char>> {
    /// The UTF-16 code units of this text, with a null terminator appended.
    fn to_u16_vec(&self) -> (units: Vec<u16>)
        ensures
            units@ == utf16_rep(self@) + seq![0u16],
    ;
}

impl ToU16Vec for str {
    fn to_u16_vec(&self) -> (units: Vec<u16>) {
        let mut units = encode_utf16_units(self);
        units.push(0);
        units
    }
}

/// What the platform's counted-string descriptor holds, with the backing
/// code units owned rather than borrowed: both lengths count bytes, and a
/// trailing null terminator is excluded from the content length.
pub struct UnicodeText {
    /// Bytes of content, a trailing null terminator not counted.
    pub length: u16,
    /// Bytes of the whole backing buffer.
    pub maximum_length: u16,
    /// The backing code units.
    pub units: Vec<u16>,
}

/// How many leading code units count as content: all of them, unless the
/// last one is a null terminator.
pub open spec fn counted_units(s: Seq<u16>) -> int {
    if s.len() > 0 && s.last() == 0 {
        s.len() - 1
    } else {
        s.len() as int
    }
}

/// Builds the counted-string descriptor over the given code units.  Empty
/// input has no descriptor, nor has input whose byte length overflows the
/// descriptor's sixteen-bit field.
pub fn create_unicode_string(s: &[u16]) -> (text: Option<UnicodeText>)
    ensures
        s@.len() == 0 ==> text is None,
        2 * s@.len() > u16::MAX ==> text is None,
        0 < s@.len() && 2 * s@.len() <= u16::MAX ==> {
            &&& text is Some
            &&& text->0.units@ == s@
            &&& text->0.maximum_length == 2 * s@.len()
            &&& text->0.length == 2 * counted_units(s@)
        },
{
    let len = s.len();
    if len == 0 {
        return None;
    }
    if len > (u16::MAX as usize) / 2 {
        return None;
    }
    let last = *vstd::slice::slice_index_get(s, len - 1);
    let len_checked = if last == 0 {
        len - 1
    } else {
        len
    };
    Some(
        UnicodeText {
            length: (len_checked * 2) as u16,
            maximum_length: (len * 2) as u16,
            units: slice_to_vec(s),
        },
    )
}

/// Types that can be published as a counted-string descriptor.
pub trait ToUnicodeString {
    /// The counted-string descriptor over this text's UTF-16 code units,
    /// when the text is non-empty and fits the descriptor's length fields.
    fn to_unicode_string(&self) -> Option<UnicodeText>;
}

impl ToUnicodeString for Vec<u16> {
    fn to_unicode_string(&self) -> Option<UnicodeText> {
        create_unicode_string(self.as_slice())
    }
}

impl ToUnicodeString for str {
    fn to_unicode_string(&self) -> Option<UnicodeText> {
        let units = self.to_u16_vec();
        create_unicode_string(units.as_slice())
    }
}

} // verus!
