//! The fixed-width, NUL-terminated text encoding that the engine's
//! interface requires, and its bidirectional conversion to the host string
//! type.
//!
//! A `WideString` holds the 16-bit units of the text followed by exactly
//! one trailing NUL unit.  Conversion from host text is the standard
//! 16-bit encoding (one unit for a basic-plane character, a surrogate pair
//! for the rest); conversion back is the standard lossy decoding, turning
//! every unpaired surrogate into the replacement character.

use vstd::prelude::*;
use vstd::std_specs::iter::IteratorSpec;

verus! {

/// The replacement character's code point, substituted for an unpaired
/// surrogate by the lossy decoding.
pub const REPLACEMENT_POINT: u32 = 0xFFFD;

/// The 16-bit units encoding one character: the character's own value in
/// the basic plane, a surrogate pair above it.
pub open spec fn spec_utf16_char(c: char) -> Seq<u16> {
    let v = c as u32;
    if v < 0x10000 {
        seq![(v % 0x10000) as u16]
    } else {
        seq![
            (0xD800 + (v - 0x10000) / 0x400) as u16,
            (0xDC00 + (v - 0x10000) % 0x400) as u16,
        ]
    }
}

/// The 16-bit units encoding a character sequence, in order.
pub open spec fn spec_encode_wide(s: Seq<char>) -> Seq<u16>
    decreases s.len(),
{
    if s.len() == 0 {
        Seq::empty()
    } else {
        spec_utf16_char(s[0]) + spec_encode_wide(s.drop_first())
    }
}

/// The code points of the standard lossy decoding of a unit sequence: a
/// high surrogate directly followed by a low surrogate combines into one
/// supplementary code point, any other surrogate becomes the replacement
/// character, and every remaining unit is its own code point.
pub open spec fn spec_decode_wide(s: Seq<u16>) -> Seq<u32>
    decreases s.len(),
{
    if s.len() == 0 {
        Seq::empty()
    } else {
        let u = s[0] as u32;
        if 0xD800 <= u < 0xDC00 && s.len() >= 2 && 0xDC00 <= s[1] < 0xE000 {
            seq![(0x10000 + (u - 0xD800) * 0x400 + (s[1] - 0xDC00)) as u32] + spec_decode_wide(
                s.skip(2),
            )
        } else if 0xD800 <= u < 0xE000 {
            seq![REPLACEMENT_POINT] + spec_decode_wide(s.skip(1))
        } else {
            seq![u] + spec_decode_wide(s.skip(1))
        }
    }
}

/// The code points of a character sequence.
pub open spec fn spec_points(s: Seq<char>) -> Seq<u32> {
    Seq::new(s.len(), |i: int| s[i] as u32)
}

/// Appending one character to the input extends the encoding by that
/// character's units.
proof fn lemma_encode_push(s: Seq<char>, c: char)
    ensures
        spec_encode_wide(s.push(c)) == spec_encode_wide(s) + spec_utf16_char(c),
    decreases s.len(),
{
    reveal_with_fuel(spec_encode_wide, 3);
    if s.len() == 0 {
        assert(s.push(c).drop_first() =~= Seq::<char>::empty());
        assert(spec_encode_wide(s.push(c)) =~= spec_encode_wide(s) + spec_utf16_char(c));
    } else {
        assert(s.push(c).drop_first() =~= s.drop_first().push(c));
        lemma_encode_push(s.drop_first(), c);
        assert(s.push(c)[0] == s[0]);
        assert(spec_encode_wide(s.push(c)) =~= spec_encode_wide(s) + spec_utf16_char(c));
    }
}

/// Relies on char::from_u32: it returns the character with the given code
/// point value, and returns one exactly when the value is neither a
/// surrogate nor beyond the largest code point.
#[verifier::external_body]
fn char_from_u32(v: u32) -> (r: Option<char>)
    ensures
        match r {
            Some(c) => c as u32 == v && v < 0x110000 && !(0xD800 <= v < 0xE000),
            None => v >= 0x110000 || 0xD800 <= v < 0xE000,
        },
{
    char::from_u32(v)
}

/// Relies on String::push: it appends exactly the given character.
#[verifier::external_body]
pub(crate) fn push_char(s: &mut String, c: char)
    ensures
        final(s)@ == old(s)@.push(c),
{
    s.push(c)
}

/// One character's units decode back to exactly that character's code
/// point.
proof fn lemma_decode_one_char(c: char, rest: Seq<u16>)
    ensures
        spec_decode_wide(spec_utf16_char(c) + rest) == seq![c as u32] + spec_decode_wide(rest),
{
    vstd::utf8::char_is_scalar(c);
    let v = c as u32;
    let s = spec_utf16_char(c) + rest;
    if v < 0x10000 {
        assert(s[0] == (v % 0x10000) as u16);
        assert(s.skip(1) =~= rest);
    } else {
        assert(s[0] == (0xD800 + (v - 0x10000) / 0x400) as u16);
        assert(s[1] == (0xDC00 + (v - 0x10000) % 0x400) as u16);
        assert(s.skip(2) =~= rest);
        assert((v - 0x10000) / 0x400 < 0x400) by {
            assert(v <= 0x10FFFF);
        }
        assert(0x10000 + ((v - 0x10000) / 0x400) * 0x400 + (v - 0x10000) % 0x400 == v) by {
            vstd::arithmetic::div_mod::lemma_fundamental_div_mod((v - 0x10000) as int, 0x400);
        }
    }
}

/// The encoding is lossless: decoding the units of any character sequence
/// yields exactly that sequence's code points, so conversion to the
/// engine's text encoding and back loses nothing.
pub proof fn lemma_wide_codec_round_trip(s: Seq<char>)
    ensures
        spec_decode_wide(spec_encode_wide(s)) == spec_points(s),
    decreases s.len(),
{
    if s.len() == 0 {
        assert(spec_decode_wide(spec_encode_wide(s)) =~= spec_points(s));
    } else {
        lemma_wide_codec_round_trip(s.drop_first());
        lemma_decode_one_char(s[0], spec_encode_wide(s.drop_first()));
        assert(spec_points(s) =~= seq![s[0] as u32] + spec_points(s.drop_first()));
    }
}

/// Text in the engine's fixed-width encoding: 16-bit units with exactly one
/// trailing NUL terminator after them.
#[derive(Clone, Debug)]
pub struct WideString {
    ucs2: Vec<u16>,
}

impl View for WideString {
    type V = Seq<u16>;

    closed spec fn view(&self) -> Seq<u16> {
        self.ucs2@
    }
}

impl WideString {
    /// Well-formedness: the unit buffer ends in the NUL terminator.
    pub open spec fn wf(&self) -> bool {
        self@.len() >= 1 && self@[self@.len() - 1] == 0
    }

    /// The text's units without the trailing terminator.
    pub open spec fn spec_content(&self) -> Seq<u16>
        recommends
            self.wf(),
    {
        self@.drop_last()
    }

    /// Encode host text, appending the trailing NUL terminator.
    pub fn from_str(s: &str) -> (r: WideString)
        ensures
            r.wf(),
            r.spec_content() == spec_encode_wide(s@),
            r@ == spec_encode_wide(s@).push(0u16),
    {
        let mut ucs2: Vec<u16> = Vec::new();
        let mut it = s.chars();
        let ghost all = s@;
        let ghost mut done: Seq<char> = Seq::empty();
        proof {
            assert(all.skip(0) =~= all);
        }
        loop
            invariant
                it.obeys_prophetic_iter_laws(),
                done.len() <= all.len(),
                it.remaining() == all.skip(done.len() as int),
                done == all.take(done.len() as int),
                ucs2@ == spec_encode_wide(done),
            ensures
                ucs2@ == spec_encode_wide(all),
            decreases all.len() - done.len(),
        {
            match it.next() {
                None => {
                    proof {
                        assert(all.skip(done.len() as int).len() == 0);
                        assert(done =~= all);
                    }
                    break;
                },
                Some(c) => {
                    proof {
                        assert(all.skip(done.len() as int)[0] == all[done.len() as int]);
                        lemma_encode_push(done, c);
                        vstd::utf8::char_is_scalar(c);
                    }
                    let v = c as u32;
                    if v < 0x10000 {
                        ucs2.push(v as u16);
                    } else {
                        ucs2.push((0xD800 + (v - 0x10000) / 0x400) as u16);
                        ucs2.push((0xDC00 + (v - 0x10000) % 0x400) as u16);
                    }
                    proof {
                        done = done.push(c);
                        assert(done =~= all.take(done.len() as int));
                        assert(all.skip(done.len() as int) =~= all.skip(
                            (done.len() - 1) as int,
                        ).drop_first());
                    }
                },
            }
        }
        ucs2.push(0u16);
        let r = WideString { ucs2 };
        proof {
            assert(r@.drop_last() =~= spec_encode_wide(s@));
        }
        r
    }

    /// Wrap a unit buffer that already carries its trailing terminator.
    pub fn from_ucs2(ucs2: Vec<u16>) -> (r: WideString)
        requires
            ucs2@.len() >= 1,
            ucs2@[ucs2@.len() - 1] == 0,
        ensures
            r@ == ucs2@,
            r.wf(),
    {
        WideString { ucs2 }
    }

    /// Wrap a unit buffer, checking that it carries the trailing
    /// terminator; a buffer that does not is rejected.
    pub fn try_from_ucs2(ucs2: Vec<u16>) -> (r: Option<WideString>)
        ensures
            ucs2@.len() >= 1 && ucs2@[ucs2@.len() - 1] == 0 ==> (r matches Some(w) && w@ == ucs2@
                && w.wf()),
            !(ucs2@.len() >= 1 && ucs2@[ucs2@.len() - 1] == 0) ==> r is None,
    {
        let n = ucs2.len();
        if n == 0 {
            return None;
        }
        if ucs2[n - 1] != 0 {
            return None;
        }
        Some(WideString { ucs2 })
    }

    /// Whether the unit buffer is empty; a well-formed value never is,
    /// since it carries at least its terminator.
    pub fn is_empty(&self) -> (r: bool)
        ensures
            r == (self@.len() == 0),
    {
        self.ucs2.len() == 0
    }

    /// Number of units, the trailing terminator included.
    pub fn len(&self) -> (r: usize)
        ensures
            r == self@.len(),
    {
        self.ucs2.len()
    }

    /// The units as a slice, the trailing terminator included.
    pub fn as_ucs2_slice(&self) -> (r: &[u16])
        ensures
            r@ == self@,
    {
        self.ucs2.as_slice()
    }

    /// Decode back to host text, dropping the trailing terminator first;
    /// the conversion is lossy only on unpaired surrogates, each of which
    /// becomes the replacement character.
    pub fn to_string_lossy(&self) -> (r: String)
        requires
            self.wf(),
        ensures
            spec_points(r@) == spec_decode_wide(self.spec_content()),
    {
        let ghost units = self@.drop_last();
        let n = self.ucs2.len() - 1;
        let mut out = String::new();
        let mut i: usize = 0;
        proof {
            assert(units.skip(0) =~= units);
            assert(spec_points(out@) =~= Seq::<u32>::empty());
        }
        while i < n
            invariant
                i <= n,
                n == units.len(),
                n + 1 == self@.len(),
                units == self@.drop_last(),
                spec_decode_wide(units) == spec_points(out@) + spec_decode_wide(
                    units.skip(i as int),
                ),
            decreases n - i,
        {
            let ghost rest = units.skip(i as int);
            proof {
                assert(rest[0] == self@[i as int]);
                if rest.len() >= 2 {
                    assert(rest[1] == self@[i as int + 1]);
                }
            }
            let u = self.ucs2[i] as u32;
            let mut step: usize = 1;
            let mut point: u32 = u;
            if 0xD800 <= u && u < 0xDC00 && i + 1 < n {
                let u2 = self.ucs2[i + 1] as u32;
                if 0xDC00 <= u2 && u2 < 0xE000 {
                    point = 0x10000 + (u - 0xD800) * 0x400 + (u2 - 0xDC00);
                    step = 2;
                }
            }
            if step == 1 && 0xD800 <= u && u < 0xE000 {
                point = REPLACEMENT_POINT;
            }
            proof {
                assert(spec_decode_wide(rest)[0] == point);
                assert(spec_decode_wide(rest).drop_first() == spec_decode_wide(
                    rest.skip(step as int),
                ));
                assert(rest.skip(step as int) =~= units.skip(i as int + step as int));
            }
            let c = match char_from_u32(point) {
                Some(c) => c,
                None => {
                    proof {
                        assert(false);
                    }
                    ' '
                },
            };
            push_char(&mut out, c);
            proof {
                assert(spec_points(out@) =~= spec_points(out@.drop_last()).push(point));
                assert(spec_points(out@) + spec_decode_wide(units.skip(i as int + step as int))
                    =~= spec_points(out@.drop_last()) + spec_decode_wide(units.skip(i as int)));
            }
            i = i + step;
        }
        proof {
            assert(units.skip(n as int).len() == 0);
            assert(spec_points(out@) =~= spec_points(out@) + spec_decode_wide(
                units.skip(n as int),
            ));
        }
        out
    }
}

} // verus!
