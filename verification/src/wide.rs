//! NUL-terminated UTF-16 text, as the Windows tray icon fields hold it.

use vstd::prelude::*;

verus! {

/// The UTF-16 code units of one character: itself below U+10000, else a
/// high surrogate followed by a low surrogate.
pub open spec fn utf16_units(c: char) -> Seq<u16> {
    let v = c as u32;
    if v < 0x10000 {
        seq![v as u16]
    } else {
        seq![(0xD800 + (v - 0x10000) / 0x400) as u16, (0xDC00 + (v - 0x10000) % 0x400) as u16]
    }
}

/// The UTF-16 encoding of a character sequence.
pub open spec fn utf16(s: Seq<char>) -> Seq<u16>
    decreases s.len(),
{
    if s.len() == 0 {
        seq![]
    } else {
        utf16(s.drop_last()) + utf16_units(s.last())
    }
}

/// Every character takes one or two UTF-16 units, and a character below
/// U+10000 is its own unit.
pub proof fn lemma_utf16_length(s: Seq<char>)
    ensures
        s.len() <= utf16(s).len() <= 2 * s.len(),
        (forall|i: int| 0 <= i < s.len() ==> (#[trigger] s[i] as u32) < 0x10000) ==> {
            &&& utf16(s).len() == s.len()
            &&& forall|i: int| 0 <= i < s.len() ==> #[trigger] utf16(s)[i] == s[i] as u32 as u16
        },
    decreases s.len(),
{
    if s.len() > 0 {
        lemma_utf16_length(s.drop_last());
        if forall|i: int| 0 <= i < s.len() ==> (#[trigger] s[i] as u32) < 0x10000 {
            assert forall|i: int| 0 <= i < s.len() - 1 implies (#[trigger] s.drop_last()[i] as u32) < 0x10000 by {
                assert(s.drop_last()[i] == s[i]);
            }
            assert forall|i: int| 0 <= i < s.len() implies #[trigger] utf16(s)[i] == s[i] as u32 as u16 by {
                if i < s.len() - 1 {
                    assert(s.drop_last()[i] == s[i]);
                }
            }
        }
    }
}

/// UTF-16 decoding, read from the end: a low surrogate preceded by a high
/// surrogate is one character above U+FFFF; any other unit is the
/// character with its value.
pub open spec fn utf16_decode(units: Seq<u16>) -> Seq<char>
    decreases units.len(),
{
    if units.len() == 0 {
        seq![]
    } else if units.len() >= 2 && 0xDC00 <= units.last() <= 0xDFFF
        && 0xD800 <= units[units.len() - 2] <= 0xDBFF {
        let high = units[units.len() - 2] as int;
        let low = units.last() as int;
        utf16_decode(units.take(units.len() - 2))
            + seq![(0x10000 + (high - 0xD800) * 0x400 + (low - 0xDC00)) as u32 as char]
    } else {
        utf16_decode(units.drop_last()) + seq![units.last() as u32 as char]
    }
}

/// Decoding the UTF-16 encoding of a text gives the text back.
pub proof fn lemma_utf16_round_trip(s: Seq<char>)
    ensures
        utf16_decode(utf16(s)) == s,
    decreases s.len(),
{
    if s.len() > 0 {
        let rest = s.drop_last();
        let c = s.last();
        let v = c as u32;
        lemma_utf16_round_trip(rest);
        vstd::utf8::char_is_scalar(c);
        let units = utf16(s);
        assert(units == utf16(rest) + utf16_units(c));
        if v < 0x10000 {
            assert(units.drop_last() =~= utf16(rest));
            assert(units.last() == v as u16);
            assert((v as u16) as u32 == v);
            vstd::utf8::char_u32_cast(c, v);
            assert(utf16_decode(units) == utf16_decode(utf16(rest)) + seq![c]);
        } else {
            let offset = v - 0x10000;
            let high = (0xD800 + offset / 0x400) as u16;
            let low = (0xDC00 + offset % 0x400) as u16;
            assert(offset / 0x400 < 0x400);
            assert(units.take(units.len() - 2) =~= utf16(rest));
            assert(units[units.len() - 2] == high);
            assert(units.last() == low);
            assert(offset == (offset / 0x400) * 0x400 + offset % 0x400) by {
                vstd::arithmetic::div_mod::lemma_fundamental_div_mod(offset, 0x400);
            }
            assert(0x10000 + (high as int - 0xD800) * 0x400 + (low as int - 0xDC00) == v);
            vstd::utf8::char_u32_cast(c, v);
            assert(utf16_decode(units) == utf16_decode(utf16(rest)) + seq![c]);
        }
        assert(rest + seq![c] =~= s);
    }
}

/// What `convert_u16` returns ends in a NUL unit, and the units before it
/// decode to the text.
pub proof fn lemma_convert_u16_round_trip(s: Seq<char>)
    ensures
        (utf16(s) + seq![0u16]).last() == 0,
        utf16_decode((utf16(s) + seq![0u16]).drop_last()) == s,
{
    assert((utf16(s) + seq![0u16]).drop_last() =~= utf16(s));
    lemma_utf16_round_trip(s);
}

/// `s` in UTF-16, followed by a NUL unit.
pub fn convert_u16(s: &str) -> (v: Vec<u16>)
    ensures
        v@ == utf16(s@) + seq![0u16],
{
    broadcast use vstd::string::group_string_axioms;
    let mut v: Vec<u16> = Vec::new();
    for c in it: s.chars()
        invariant
            it.seq() == s@,
            v@ == utf16(s@.take(it.index() as int)),
    {
        let ghost before = s@.take(it.index() as int);
        let ghost after = s@.take(it.index() + 1);
        proof {
            assert(after.drop_last() =~= before);
            assert(after.last() == c);
            assert(utf16(after) == utf16(before) + utf16_units(c));
        }
        let code: u32 = c as u32;
        proof {
            vstd::utf8::char_is_scalar(c);
        }
        if code < 0x10000 {
            v.push(code as u16);
            assert(v@ =~= utf16(before) + utf16_units(c));
        } else {
            let offset: u32 = code - 0x10000;
            assert(offset / 0x400 < 0x400);
            v.push((0xD800 + offset / 0x400) as u16);
            v.push((0xDC00 + offset % 0x400) as u16);
            assert(v@ =~= utf16(before) + utf16_units(c));
        }
    }
    proof {
        assert(s@.take(s@.len() as int) =~= s@);
    }
    v.push(0);
    v
}

/// Writes `text` at the start of the fixed-size text field `field`,
/// leaving the units after it as they were.
pub fn write_field<const N: usize>(field: &mut [u16; N], text: &Vec<u16>)
    requires
        text@.len() <= N,
    ensures
        final(field)@ == text@ + old(field)@.skip(text@.len() as int),
{
    let mut i: usize = 0;
    while i < text.len()
        invariant
            text@.len() <= N,
            i <= text@.len(),
            field@.len() == N,
            field@ == text@.take(i as int) + old(field)@.skip(i as int),
        decreases text@.len() - i,
    {
        field[i] = text[i];
        i = i + 1;
        assert(field@ =~= text@.take(i as int) + old(field)@.skip(i as int));
    }
    assert(text@.take(text@.len() as int) =~= text@);
}

} // verus!
