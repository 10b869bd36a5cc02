//! UTF-16, the unit in which the platform addresses text.

use vstd::prelude::*;

verus! {

/// `char::from_u32` of the standard library. Its documentation says that it
/// answers `None` where the number is no valid `char`, which are the
/// surrogates and what lies above `0x10FFFF`; the claim here is that, and
/// that the `char` it answers otherwise has the number it was made from.
pub assume_specification[ char::from_u32 ](i: u32) -> (r: Option<char>)
    ensures
        is_scalar_value(i as int) ==> r == Some(i as char),
        !is_scalar_value(i as int) ==> r is None,
;

/// `String::push` of the standard library. The claim is what its
/// documentation says: the character is appended at the end, and the rest of
/// the string stays.
pub assume_specification[ String::push ](s: &mut String, ch: char)
    ensures
        final(s)@ == old(s)@.push(ch),
;

/// The code points that a `char` can hold: everything up to `0x10FFFF` but
/// the surrogates.
pub open spec fn is_scalar_value(v: int) -> bool {
    0 <= v <= 0xD7FF || 0xE000 <= v <= 0x10FFFF
}

/// A unit that opens a surrogate pair.
pub open spec fn is_high_surrogate(u: u16) -> bool {
    0xD800 <= u <= 0xDBFF
}

/// A unit that closes a surrogate pair.
pub open spec fn is_low_surrogate(u: u16) -> bool {
    0xDC00 <= u <= 0xDFFF
}

/// A unit that stands for a character by itself.
pub open spec fn is_single_unit(u: u16) -> bool {
    !is_high_surrogate(u) && !is_low_surrogate(u)
}

/// The character that a surrogate pair stands for.
pub open spec fn pair_to_char(high: u16, low: u16) -> char {
    (0x10000 + (high - 0xD800) * 0x400 + (low - 0xDC00)) as char
}

/// The one or two units of a character.
pub open spec fn encode_char(c: char) -> Seq<u16> {
    let v = c as u32 as int;
    if v < 0x10000 {
        seq![v as u16]
    } else {
        seq![(0xD800 + (v - 0x10000) / 0x400) as u16, (0xDC00 + (v - 0x10000) % 0x400) as u16]
    }
}

/// The units of a text, character by character.
pub open spec fn encode(s: Seq<char>) -> Seq<u16>
    decreases s.len(),
{
    if s.len() == 0 {
        Seq::empty()
    } else {
        encode_char(s[0]) + encode(s.skip(1))
    }
}

/// The text that a run of units stands for, or `None` where a surrogate has
/// no partner in the run.
pub open spec fn decode(units: Seq<u16>) -> Option<Seq<char>>
    decreases units.len(),
{
    if units.len() == 0 {
        Some(Seq::empty())
    } else if is_single_unit(units[0]) {
        match decode(units.skip(1)) {
            Some(rest) => Some(seq![units[0] as char] + rest),
            None => None,
        }
    } else if is_high_surrogate(units[0]) && units.len() >= 2 && is_low_surrogate(units[1]) {
        match decode(units.skip(2)) {
            Some(rest) => Some(seq![pair_to_char(units[0], units[1])] + rest),
            None => None,
        }
    } else {
        None
    }
}

/// The characters of an optional string.
pub open spec fn text_of(s: Option<String>) -> Option<Seq<char>> {
    match s {
        Some(s) => Some(s@),
        None => None,
    }
}

/// Decoding what a character encodes to, followed by anything, gives the
/// character back in front of what the rest decodes to.
pub proof fn lemma_decode_after_char(c: char, rest: Seq<u16>)
    ensures
        decode(encode_char(c) + rest) == match decode(rest) {
            Some(r) => Some(seq![c] + r),
            None => None,
        },
{
    let v = c as u32 as int;
    let all = encode_char(c) + rest;
    if v < 0x10000 {
        assert(all[0] == v as u16);
        assert(is_single_unit(all[0]));
        assert(all.skip(1) =~= rest);
        assert(all[0] as char == c);
    } else {
        let high = (0xD800 + (v - 0x10000) / 0x400) as u16;
        let low = (0xDC00 + (v - 0x10000) % 0x400) as u16;
        assert(all[0] == high);
        assert(all[1] == low);
        assert(is_high_surrogate(high));
        assert(is_low_surrogate(low));
        assert(all.skip(2) =~= rest);
        assert(pair_to_char(high, low) == c);
    }
}

/// Encoding a text and decoding the units gives the text back.
pub proof fn lemma_decode_encode(s: Seq<char>)
    ensures
        decode(encode(s)) == Some(s),
    decreases s.len(),
{
    if s.len() == 0 {
    } else {
        lemma_decode_encode(s.skip(1));
        lemma_decode_after_char(s[0], encode(s.skip(1)));
        assert(seq![s[0]] + s.skip(1) =~= s);
    }
}

/// Every character takes one or two units.
pub proof fn lemma_encode_len(s: Seq<char>)
    ensures
        s.len() <= encode(s).len() <= 2 * s.len(),
    decreases s.len(),
{
    if s.len() > 0 {
        lemma_encode_len(s.skip(1));
    }
}

/// The UTF-16 units of `s`.
pub fn encode_utf16(s: &str) -> (units: Vec<u16>)
    ensures
        units@ == encode(s@),
{
    let mut units: Vec<u16> = Vec::new();
    proof {
        assert(s@.skip(0) =~= s@);
        assert(units@ + encode(s@) =~= encode(s@));
    }
    for c in it: s.chars()
        invariant
            it.seq() == s@,
            units@ + encode(s@.skip(it.index() as int)) == encode(s@),
    {
        let ghost i: int = it.index() as int;
        proof {
            assert(s@.skip(i)[0] == c);
            assert(s@.skip(i).skip(1) =~= s@.skip(i + 1));
        }
        let ghost before = units@;
        let v: u32 = c as u32;
        if v < 0x10000 {
            units.push(v as u16);
        } else {
            let w: u32 = v - 0x10000;
            units.push((0xD800 + w / 0x400) as u16);
            units.push((0xDC00 + w % 0x400) as u16);
        }
        proof {
            assert(units@ =~= before + encode_char(c));
            assert(units@ + encode(s@.skip(i + 1)) =~= before + (encode_char(c) + encode(
                s@.skip(i + 1),
            )));
        }
    }
    proof {
        assert(s@.skip(s@.len() as int) =~= Seq::<char>::empty());
        assert(units@ + Seq::<u16>::empty() =~= units@);
    }
    units
}

/// The text that `units` stand for, or `None` where they are no valid UTF-16:
/// a surrogate without its partner.
pub fn decode_utf16(units: &[u16]) -> (text: Option<String>)
    ensures
        text_of(text) == decode(units@),
{
    let mut text = String::new();
    let mut i: usize = 0;
    proof {
        assert(units@.skip(0) =~= units@);
        if let Some(rest) = decode(units@) {
            assert(text@ + rest =~= rest);
        }
    }
    while i < units.len()
        invariant
            i <= units.len(),
            decode(units@) == match decode(units@.skip(i as int)) {
                Some(rest) => Some(text@ + rest),
                None => None,
            },
        decreases units.len() - i,
    {
        let ghost tail = units@.skip(i as int);
        let ghost done = text@;
        let u: u16 = units[i];
        proof {
            assert(tail[0] == u);
        }
        if u < 0xD800 || u > 0xDFFF {
            match char::from_u32(u as u32) {
                Some(c) => {
                    text.push(c);
                },
                None => {
                    return None;
                },
            }
            proof {
                assert(tail.skip(1) =~= units@.skip(i + 1));
                if let Some(rest) = decode(units@.skip(i + 1)) {
                    assert(done.push(u as char) + rest =~= done + (seq![u as char] + rest));
                }
            }
            i = i + 1;
        } else if u <= 0xDBFF && i + 1 < units.len() {
            let low: u16 = units[i + 1];
            proof {
                assert(tail[1] == low);
            }
            if low < 0xDC00 || low > 0xDFFF {
                return None;
            }
            let v: u32 = 0x10000 + (u as u32 - 0xD800) * 0x400 + (low as u32 - 0xDC00);
            match char::from_u32(v) {
                Some(c) => {
                    text.push(c);
                },
                None => {
                    return None;
                },
            }
            proof {
                let c = pair_to_char(u, low);
                assert(tail.skip(2) =~= units@.skip(i + 2));
                if let Some(rest) = decode(units@.skip(i + 2)) {
                    assert(done.push(c) + rest =~= done + (seq![c] + rest));
                }
            }
            i = i + 2;
        } else {
            return None;
        }
    }
    proof {
        assert(units@.skip(i as int) =~= Seq::<u16>::empty());
        assert(text@ + Seq::<char>::empty() =~= text@);
    }
    Some(text)
}

} // verus!
