use vstd::prelude::*;

verus! {

/// The UTF-16 code units of one character: the character's own value when it
/// lies in the Basic Multilingual Plane, otherwise a high surrogate followed by
/// a low surrogate that together carry the value minus 0x10000.
pub open spec fn char_to_utf16(c: char) -> Seq<u16> {
    let v = c as int;
    if v < 0x10000 {
        seq![v as u16]
    } else {
        let w = v - 0x10000;
        seq![(0xD800 + w / 0x400) as u16, (0xDC00 + w % 0x400) as u16]
    }
}

/// The UTF-16 encoding of a sequence of characters.
pub open spec fn utf16_encode(s: Seq<char>) -> Seq<u16>
    decreases s.len(),
{
    if s.len() == 0 {
        Seq::empty()
    } else {
        char_to_utf16(s[0]) + utf16_encode(s.drop_first())
    }
}

/// A sequence of code units is valid UTF-16 when it is the encoding of some
/// sequence of characters.
pub open spec fn is_utf16(units: Seq<u16>) -> bool {
    exists|s: Seq<char>| #[trigger] utf16_encode(s) == units
}

/// The characters whose UTF-16 encoding is `units` (meaningful when
/// `is_utf16(units)`; unique by `lemma_utf16_encode_injective`).
pub open spec fn utf16_decode(units: Seq<u16>) -> Seq<char> {
    choose|s: Seq<char>| #[trigger] utf16_encode(s) == units
}

/// A character's code units are one non-surrogate unit, or a high surrogate
/// followed by a low surrogate; a character is never encoded as a unit 0
/// unless it is the nul character.
pub proof fn lemma_char_to_utf16_shape(c: char)
    ensures
        char_to_utf16(c).len() == 1 || char_to_utf16(c).len() == 2,
        char_to_utf16(c).len() == 1 ==> char_to_utf16(c)[0] == c as int
            && !(0xD800 <= char_to_utf16(c)[0] <= 0xDFFF),
        char_to_utf16(c).len() == 2 ==> 0xD800 <= char_to_utf16(c)[0] <= 0xDBFF
            && 0xDC00 <= char_to_utf16(c)[1] <= 0xDFFF,
        char_to_utf16(c)[0] == 0 ==> c as int == 0,
{
    let v = c as int;
    assert(0 <= v <= 0x10FFFF);
    assert(!(0xD800 <= v <= 0xDFFF));
    if v >= 0x10000 {
        let w = v - 0x10000;
        assert(0 <= w / 0x400 <= 0x3FF);
        assert(0 <= w % 0x400 < 0x400);
    }
}


/// Two characters whose encodings start two equal sequences of code units are
/// the same character, and what follows their encodings is equal too.
pub proof fn lemma_char_to_utf16_prefix(a: char, b: char, x: Seq<u16>, y: Seq<u16>)
    requires
        char_to_utf16(a) + x == char_to_utf16(b) + y,
    ensures
        a == b,
        x == y,
{
    lemma_char_to_utf16_shape(a);
    lemma_char_to_utf16_shape(b);
    let ea = char_to_utf16(a);
    let eb = char_to_utf16(b);
    let lhs = ea + x;
    let rhs = eb + y;
    assert(lhs[0] == ea[0]);
    assert(rhs[0] == eb[0]);
    if ea.len() == 2 && eb.len() == 2 {
        assert(lhs[1] == ea[1]);
        assert(rhs[1] == eb[1]);
        let wa = a as int - 0x10000;
        let wb = b as int - 0x10000;
        assert(wa / 0x400 == wb / 0x400);
        assert(wa % 0x400 == wb % 0x400);
        assert(wa == 0x400 * (wa / 0x400) + wa % 0x400);
        assert(wb == 0x400 * (wb / 0x400) + wb % 0x400);
        assert(a as int == b as int);
    }
    assert(ea.len() == eb.len());
    assert(a as int == b as int);
    assert(x =~= lhs.skip(ea.len() as int));
    assert(y =~= rhs.skip(eb.len() as int));
}

/// UTF-16 encoding is injective: different character sequences have
/// different encodings.
pub proof fn lemma_utf16_encode_injective(a: Seq<char>, b: Seq<char>)
    requires
        utf16_encode(a) == utf16_encode(b),
    ensures
        a == b,
    decreases a.len(),
{
    if a.len() == 0 {
        if b.len() > 0 {
            lemma_char_to_utf16_shape(b[0]);
        }
        assert(a =~= b);
    } else {
        lemma_char_to_utf16_shape(a[0]);
        if b.len() == 0 {
            assert(utf16_encode(a).len() > 0);
        } else {
            lemma_char_to_utf16_prefix(
                a[0],
                b[0],
                utf16_encode(a.drop_first()),
                utf16_encode(b.drop_first()),
            );
            lemma_utf16_encode_injective(a.drop_first(), b.drop_first());
            assert(a =~= seq![a[0]] + a.drop_first());
            assert(b =~= seq![b[0]] + b.drop_first());
        }
    }
}

/// Decoding the encoding of a character sequence gives that sequence back.
pub proof fn lemma_utf16_decode_encode(s: Seq<char>)
    ensures
        is_utf16(utf16_encode(s)),
        utf16_decode(utf16_encode(s)) == s,
{
    let units = utf16_encode(s);
    assert(utf16_encode(s) == units);
    let d = utf16_decode(units);
    lemma_utf16_encode_injective(d, s);
}

/// A character sequence without the nul character encodes to code units
/// none of which is 0.
pub proof fn lemma_utf16_encode_no_nul(s: Seq<char>)
    requires
        forall|i: int| 0 <= i < s.len() ==> s[i] as int != 0,
    ensures
        !utf16_encode(s).contains(0u16),
    decreases s.len(),
{
    if s.len() > 0 {
        lemma_char_to_utf16_shape(s[0]);
        lemma_utf16_encode_no_nul(s.drop_first());
        let head = char_to_utf16(s[0]);
        let tail = utf16_encode(s.drop_first());
        assert forall|i: int| 0 <= i < (head + tail).len() implies (head + tail)[i] != 0u16 by {
            if i >= head.len() {
                assert((head + tail)[i] == tail[i - head.len()]);
            }
        }
    }
}

} // verus!
