//! UTF-16 encoding and the conversion of strings and byte strings to wide strings.
use vstd::prelude::*;

verus! {

/// The UTF-16 code units of one character: the scalar value itself below U+10000,
/// a surrogate pair above it.
pub open spec fn utf16_of_char(c: char) -> Seq<u16> {
    let u = c as int;
    if u < 0x10000 {
        seq![u as u16]
    } else {
        let w = u - 0x10000;
        seq![(0xD800 + w / 0x400) as u16, (0xDC00 + w % 0x400) as u16]
    }
}

/// The UTF-16 encoding of a character sequence.
pub open spec fn utf16(s: Seq<char>) -> Seq<u16>
    decreases s.len(),
{
    if s.len() == 0 {
        Seq::empty()
    } else {
        utf16(s.drop_last()) + utf16_of_char(s.last())
    }
}

/// A character encodes to a nul unit exactly when it is the nul character.
pub proof fn lemma_utf16_of_char_nul(c: char)
    ensures
        utf16_of_char(c).contains(0) <==> c == '\0',
{
    let u = c as int;
    if u < 0x10000 {
        if c == '\0' {
            assert(utf16_of_char(c)[0] == 0);
        }
        if utf16_of_char(c).contains(0) {
            assert(utf16_of_char(c)[0] == 0);
            assert(c == '\0');
        }
    } else {
        assert(!utf16_of_char(c).contains(0)) by {
            if utf16_of_char(c).contains(0) {
                let k = choose|k: int| 0 <= k < 2 && utf16_of_char(c)[k] == 0;
                assert(utf16_of_char(c)[k] >= 0xD800);
            }
        }
    }
}

/// A text encodes to units holding a nul exactly when it holds the nul character.
pub proof fn lemma_utf16_nul(s: Seq<char>)
    ensures
        utf16(s).contains(0) <==> s.contains('\0'),
    decreases s.len(),
{
    if s.len() > 0 {
        let init = s.drop_last();
        let c = s.last();
        lemma_utf16_nul(init);
        lemma_utf16_of_char_nul(c);
        let a = utf16(init);
        let b = utf16_of_char(c);
        if (a + b).contains(0) {
            let k = choose|k: int| 0 <= k < (a + b).len() && (a + b)[k] == 0;
            if k < a.len() {
                assert(a[k] == 0);
            } else {
                assert(b[k - a.len()] == 0);
            }
            if a.contains(0) {
                let j = choose|j: int| 0 <= j < init.len() && init[j] == '\0';
                assert(s[j] == '\0');
            } else {
                assert(s[s.len() - 1] == '\0');
            }
        }
        if s.contains('\0') {
            let j = choose|j: int| 0 <= j < s.len() && s[j] == '\0';
            if j < init.len() {
                assert(init[j] == '\0');
                let k = choose|k: int| 0 <= k < a.len() && a[k] == 0;
                assert((a + b)[k] == 0);
            } else {
                let k = choose|k: int| 0 <= k < b.len() && b[k] == 0;
                assert((a + b)[a.len() + k] == 0);
            }
        }
    }
}

/// Every character encodes to units that give it back: one unit holding the
/// scalar value below U+10000; above it a high surrogate (0xD800..=0xDBFF) and a
/// low surrogate (0xDC00..=0xDFFF) whose ten-bit payloads, on top of 0x10000,
/// make the scalar value.
pub proof fn lemma_utf16_of_char_decodes(c: char)
    ensures
        (c as int) < 0x10000 ==> utf16_of_char(c).len() == 1 && utf16_of_char(c)[0] == c as int,
        (c as int) >= 0x10000 ==> {
            let u = utf16_of_char(c);
            &&& u.len() == 2
            &&& 0xD800 <= u[0] <= 0xDBFF
            &&& 0xDC00 <= u[1] <= 0xDFFF
            &&& (u[0] - 0xD800) * 0x400 + (u[1] - 0xDC00) + 0x10000 == c as int
        },
{
    let u = c as int;
    assert(u <= 0x10FFFF);
    if u >= 0x10000 {
        let w = u - 0x10000;
        assert(w / 0x400 <= 0x3FF);
        assert(w % 0x400 <= 0x3FF);
        assert((w / 0x400) * 0x400 + w % 0x400 == w);
    }
}

/// Encoding two texts one after the other is encoding each and putting the
/// units one after the other.
pub proof fn lemma_utf16_concat(a: Seq<char>, b: Seq<char>)
    ensures
        utf16(a + b) == utf16(a) + utf16(b),
    decreases b.len(),
{
    if b.len() == 0 {
        assert(a + b =~= a);
        assert(utf16(a) + utf16(b) =~= utf16(a));
    } else {
        lemma_utf16_concat(a, b.drop_last());
        assert((a + b).drop_last() =~= a + b.drop_last());
        assert((a + b).last() == b.last());
        assert(utf16(a + b) =~= utf16(a) + utf16(b));
    }
}

/// Appends the UTF-16 code units of `c` to `out`.
pub fn push_utf16_char(out: &mut Vec<u16>, c: char)
    ensures
        final(out)@ == old(out)@ + utf16_of_char(c),
{
    let u = c as u32;
    if u < 0x10000 {
        out.push(u as u16);
    } else {
        let w = u - 0x10000;
        out.push((0xD800 + w / 0x400) as u16);
        out.push((0xDC00 + w % 0x400) as u16);
    }
}

/// Conversion to a wide (UTF-16 code unit) string.
pub trait Widen {
    /// The wide string that `widen` gives back.
    spec fn wide_view(&self) -> Seq<u16>;

    /// Converts to a wide string.
    fn widen(&self) -> (r: Vec<u16>)
        ensures
            r@ == self.wide_view(),
    ;
}

impl Widen for str {
    open spec fn wide_view(&self) -> Seq<u16> {
        utf16(self@)
    }

    fn widen(&self) -> (r: Vec<u16>) {
        broadcast use vstd::string::group_string_axioms;

        let mut r: Vec<u16> = Vec::new();
        assert(self@.take(self@.len() as int) =~= self@);
        for c in it: self.chars()
            invariant
                it.seq() == self@,
                r@ == utf16(it.seq().take(it.index() as int)),
        {
            proof {
                let s = it.seq().take(it.index() + 1);
                assert(s.drop_last() =~= it.seq().take(it.index() as int));
            }
            push_utf16_char(&mut r, c);
        }
        r
    }
}

impl Widen for [u8] {
    /// Each byte widened to one code unit of the same value.
    open spec fn wide_view(&self) -> Seq<u16> {
        self@.map_values(|b: u8| b as u16)
    }

    fn widen(&self) -> (r: Vec<u16>) {
        let mut r: Vec<u16> = Vec::new();
        let n = self.len();
        for i in 0..n
            invariant
                n == self@.len(),
                r@ == self@.take(i as int).map_values(|b: u8| b as u16),
        {
            r.push(self[i] as u16);
            assert(self@.take(i + 1).map_values(|b: u8| b as u16) =~= self@.take(
                i as int,
            ).map_values(|b: u8| b as u16).push(self@[i as int] as u16));
        }
        assert(self@.take(n as int) =~= self@);
        r
    }
}

impl Widen for [u16] {
    /// The code units themselves.
    open spec fn wide_view(&self) -> Seq<u16> {
        self@
    }

    fn widen(&self) -> (r: Vec<u16>) {
        vstd::slice::slice_to_vec(self)
    }
}

} // verus!
