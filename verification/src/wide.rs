//! UTF-16 text, as the system's interfaces take and give it.
use vstd::prelude::*;
use vstd::string::*;
use crate::text::chars_of;

verus! {

/// The UTF-16 units of one character.
pub open spec fn units_of(c: char) -> Seq<u16> {
    if (c as u32) < 0x10000 {
        seq![c as u16]
    } else {
        seq![
            (0xD800 + (c as u32 - 0x10000) / 0x400) as u16,
            (0xDC00 + (c as u32 - 0x10000) % 0x400) as u16,
        ]
    }
}

/// A text in UTF-16.
pub open spec fn encoded(s: Seq<char>) -> Seq<u16>
    decreases s.len(),
{
    if s.len() == 0 {
        Seq::empty()
    } else {
        encoded(s.drop_last()) + units_of(s.last())
    }
}

pub open spec fn is_high(u: u16) -> bool {
    0xD800 <= u && u < 0xDC00
}

pub open spec fn is_low(u: u16) -> bool {
    0xDC00 <= u && u < 0xE000
}

/// The first character of a UTF-16 text and how many units it takes. A surrogate
/// without its partner reads as the replacement character.
pub open spec fn first_char(w: Seq<u16>) -> (char, int) {
    if w.len() >= 2 && is_high(w[0]) && is_low(w[1]) {
        ((0x10000 + (w[0] - 0xD800) * 0x400 + (w[1] - 0xDC00)) as char, 2)
    } else if is_high(w[0]) || is_low(w[0]) {
        ('\u{FFFD}', 1)
    } else {
        (w[0] as char, 1)
    }
}

/// A UTF-16 text as characters.
pub open spec fn decoded(w: Seq<u16>) -> Seq<char>
    decreases w.len(),
{
    if w.len() == 0 {
        Seq::empty()
    } else {
        seq![first_char(w).0] + decoded(w.skip(first_char(w).1))
    }
}

/// The units before the first zero.
pub open spec fn before_zero(w: Seq<u16>) -> Seq<u16>
    decreases w.len(),
{
    if w.len() == 0 || w[0] == 0 {
        Seq::empty()
    } else {
        seq![w[0]] + before_zero(w.skip(1))
    }
}

fn push_units(v: &mut Vec<u16>, c: char)
    ensures
        final(v)@ == old(v)@ + units_of(c),
{
    let ghost before = v@;
    let code: u32 = c as u32;
    if code < 0x10000 {
        v.push(code as u16);
        assert(v@ =~= before + units_of(c));
    } else {
        proof {
            vstd::utf8::char_is_scalar(c);
        }
        let high: u16 = (0xD800 + (code - 0x10000) / 0x400) as u16;
        let low: u16 = (0xDC00 + (code - 0x10000) % 0x400) as u16;
        v.push(high);
        v.push(low);
        assert(v@ =~= before + units_of(c));
    }
}

/// A text in UTF-16.
pub fn to_wide(s: &str) -> (r: Vec<u16>)
    ensures
        r@ == encoded(s@),
{
    let chars: Vec<char> = chars_of(s);
    let n: usize = chars.len();
    let mut v: Vec<u16> = Vec::new();
    let mut i: usize = 0;
    while i < n
        invariant
            i <= n,
            n == chars@.len(),
            chars@ == s@,
            v@ == encoded(s@.take(i as int)),
        decreases n - i,
    {
        push_units(&mut v, chars[i]);
        proof {
            assert(s@.take(i + 1).drop_last() =~= s@.take(i as int));
            assert(s@.take(i + 1).last() == s@[i as int]);
        }
        i = i + 1;
    }
    assert(s@.take(n as int) =~= s@);
    v
}

/// A text in UTF-16 with a zero behind it.
pub fn to_wide_z(s: &str) -> (r: Vec<u16>)
    ensures
        r@ == encoded(s@).push(0),
{
    let mut v = to_wide(s);
    v.push(0);
    v
}

/// The text of a menu entry, as the menu functions take it.
pub fn to_wide_menu_text(text: &str) -> (r: Vec<u16>)
    ensures
        r@ == encoded(text@).push(0),
{
    to_wide_z(text)
}

/// The characters of UTF-16 text.
pub fn from_wide(w: &[u16]) -> (r: String)
    ensures
        r@ == decoded(w@),
{
    let n: usize = w.len();
    let mut r = String::new();
    let mut i: usize = 0;
    assert(w@.skip(0) =~= w@);
    assert(r@ + decoded(w@) =~= decoded(w@));
    while i < n
        invariant
            i <= n,
            n == w@.len(),
            decoded(w@) == r@ + decoded(w@.skip(i as int)),
        decreases n - i,
    {
        let ghost rest = w@.skip(i as int);
        let ghost so_far = r@;
        let u: u16 = w[i];
        let high = 0xD800 <= u && u < 0xDC00;
        let low = 0xDC00 <= u && u < 0xE000;
        if high && n - i >= 2 && 0xDC00 <= w[i + 1] && w[i + 1] < 0xE000 {
            let v: u16 = w[i + 1];
            let code: u32 = 0x10000 + (u as u32 - 0xD800) * 0x400 + (v as u32 - 0xDC00);
            let c = match char::from_u32(code) {
                Some(c) => c,
                None => '\u{FFFD}',
            };
            r.push(c);
            assert(rest[0] == u && rest[1] == v);
            assert(rest.skip(2) =~= w@.skip(i + 2));
            assert(so_far + (seq![c] + decoded(rest.skip(2))) =~= r@ + decoded(w@.skip(i + 2)));
            i = i + 2;
        } else {
            let c = if high || low {
                '\u{FFFD}'
            } else {
                match char::from_u32(u as u32) {
                    Some(c) => c,
                    None => '\u{FFFD}',
                }
            };
            r.push(c);
            assert(rest[0] == u);
            assert(n - i >= 2 ==> rest[1] == w@[i + 1]);
            assert(first_char(rest) == (c, 1int));
            assert(rest.skip(1) =~= w@.skip(i + 1));
            assert(so_far + (seq![c] + decoded(rest.skip(1))) =~= r@ + decoded(w@.skip(i + 1)));
            i = i + 1;
        }
    }
    assert(w@.skip(n as int) =~= Seq::<u16>::empty());
    assert(r@ + decoded(w@.skip(n as int)) =~= r@);
    r
}

/// Every surrogate has its partner.
pub open spec fn well_formed(w: Seq<u16>) -> bool
    decreases w.len(),
{
    if w.len() == 0 {
        true
    } else if is_high(w[0]) {
        w.len() >= 2 && is_low(w[1]) && well_formed(w.skip(2))
    } else {
        !is_low(w[0]) && well_formed(w.skip(1))
    }
}

/// The characters of UTF-16 text, where it is well-formed.
pub fn from_wide_checked(w: &[u16]) -> (r: Option<String>)
    ensures
        r is Some == well_formed(w@),
        r is Some ==> r->0@ == decoded(w@),
{
    let n: usize = w.len();
    let mut i: usize = 0;
    assert(w@.skip(0) =~= w@);
    while i < n
        invariant
            i <= n,
            n == w@.len(),
            well_formed(w@) == well_formed(w@.skip(i as int)),
        decreases n - i,
    {
        let ghost rest = w@.skip(i as int);
        let u: u16 = w[i];
        assert(rest[0] == u);
        if 0xD800 <= u && u < 0xDC00 {
            if n - i < 2 {
                return None;
            }
            assert(rest[1] == w@[i + 1]);
            if w[i + 1] < 0xDC00 || w[i + 1] >= 0xE000 {
                return None;
            }
            assert(rest.skip(2) =~= w@.skip(i + 2));
            i = i + 2;
        } else {
            if 0xDC00 <= u && u < 0xE000 {
                return None;
            }
            assert(rest.skip(1) =~= w@.skip(i + 1));
            i = i + 1;
        }
    }
    Some(from_wide(w))
}

/// The text in a buffer of fixed size: all up to the first zero.
pub fn wides_to_string(wides: &[u16]) -> (r: String)
    ensures
        r@ == decoded(before_zero(wides@)),
{
    let n: usize = wides.len();
    let mut len: usize = 0;
    let mut cut: Vec<u16> = Vec::new();
    assert(wides@.skip(0) =~= wides@);
    assert(cut@ + before_zero(wides@) =~= before_zero(wides@));
    while len < n && wides[len] != 0
        invariant
            len <= n,
            n == wides@.len(),
            before_zero(wides@) == cut@ + before_zero(wides@.skip(len as int)),
        decreases n - len,
    {
        let ghost rest = wides@.skip(len as int);
        let ghost so_far = cut@;
        cut.push(wides[len]);
        assert(rest[0] == wides@[len as int]);
        assert(rest.skip(1) =~= wides@.skip(len + 1));
        assert(so_far + (seq![rest[0]] + before_zero(rest.skip(1))) =~= cut@ + before_zero(
            wides@.skip(len + 1),
        ));
        len = len + 1;
    }
    proof {
        let rest = wides@.skip(len as int);
        if len < n {
            assert(rest[0] == wides@[len as int]);
        }
        assert(before_zero(rest) =~= Seq::<u16>::empty());
        assert(cut@ + before_zero(rest) =~= cut@);
    }
    from_wide(&cut)
}

/// Text survives the way to UTF-16 and back.
pub proof fn wide_text_reads_back(s: Seq<char>)
    ensures
        decoded(encoded(s)) == s,
    decreases s.len(),
{
    if s.len() > 0 {
        wide_text_reads_back(s.drop_last());
        lemma_decode_appended(s.drop_last(), s.last());
        assert(s.drop_last().push(s.last()) =~= s);
    }
}

/// Decoding a text that begins with the units of one character.
proof fn lemma_decode_first(c: char, rest: Seq<u16>)
    ensures
        decoded(units_of(c) + rest) == seq![c] + decoded(rest),
{
    vstd::utf8::char_is_scalar(c);
    let w = units_of(c) + rest;
    let code = c as u32;
    if code < 0x10000 {
        assert(w[0] == c as u16);
        assert(w.skip(1) =~= rest);
        assert(first_char(w) == (c, 1int));
    } else {
        let d = (code - 0x10000) as int;
        assert(0 <= d < 0x100000);
        assert(d / 0x400 < 0x400 && 0 <= d % 0x400 < 0x400);
        assert((d / 0x400) * 0x400 + d % 0x400 == d);
        assert(w.skip(2) =~= rest);
        assert(w[0] - 0xD800 == d / 0x400);
        assert(w[1] - 0xDC00 == d % 0x400);
        assert(first_char(w) == (c, 2int));
    }
}

/// The encoding read from its front.
proof fn lemma_encoded_front(s: Seq<char>)
    requires
        s.len() > 0,
    ensures
        encoded(s) == units_of(s[0]) + encoded(s.skip(1)),
    decreases s.len(),
{
    if s.len() == 1 {
        assert(s.drop_last() =~= Seq::empty());
        assert(s.skip(1) =~= Seq::empty());
        assert(encoded(s) =~= units_of(s[0]) + encoded(s.skip(1)));
    } else {
        lemma_encoded_front(s.drop_last());
        assert(s.drop_last().skip(1) =~= s.skip(1).drop_last());
        assert(encoded(s) =~= units_of(s[0]) + encoded(s.skip(1)));
    }
}

proof fn lemma_decode_appended(s: Seq<char>, c: char)
    requires
        decoded(encoded(s)) == s,
    ensures
        decoded(encoded(s.push(c))) == s.push(c),
    decreases s.len(),
{
    let t = s.push(c);
    if s.len() == 0 {
        lemma_encoded_front(t);
        assert(t.skip(1) =~= Seq::empty());
        lemma_decode_first(c, encoded(t.skip(1)));
        assert(decoded(encoded(t)) =~= t);
    } else {
        lemma_encoded_front(s);
        lemma_encoded_front(t);
        assert(t.skip(1) =~= s.skip(1).push(c));
        lemma_decode_first(s[0], encoded(s.skip(1)));
        lemma_decode_first(s[0], encoded(t.skip(1)));
        assert(seq![s[0]] + decoded(encoded(s.skip(1))) =~= s);
        assert(decoded(encoded(s.skip(1))) =~= s.skip(1)) by {
            let whole = seq![s[0]] + decoded(encoded(s.skip(1)));
            assert(whole.skip(1) =~= decoded(encoded(s.skip(1))));
        }
        lemma_decode_appended(s.skip(1), c);
        assert(decoded(encoded(t)) =~= t);
    }
}

/// A character in front keeps a text well-formed.
proof fn lemma_well_formed_front(c: char, rest: Seq<u16>)
    ensures
        well_formed(units_of(c) + rest) == well_formed(rest),
{
    vstd::utf8::char_is_scalar(c);
    let w = units_of(c) + rest;
    if (c as u32) < 0x10000 {
        assert(w[0] == c as u16);
        assert(w.skip(1) =~= rest);
    } else {
        let d = (c as u32 - 0x10000) as int;
        assert(0 <= d < 0x100000);
        assert(d / 0x400 < 0x400 && 0 <= d % 0x400 < 0x400);
        assert(w.skip(2) =~= rest);
    }
}

/// A text in UTF-16 is always well-formed.
pub proof fn wide_text_is_well_formed(s: Seq<char>)
    ensures
        well_formed(encoded(s)),
    decreases s.len(),
{
    if s.len() > 0 {
        lemma_encoded_front(s);
        wide_text_is_well_formed(s.skip(1));
        lemma_well_formed_front(s[0], encoded(s.skip(1)));
    }
}

/// A text without zeros reads back from a buffer that a zero ends.
pub proof fn terminated_text_reads_back(s: Seq<char>, rest: Seq<u16>)
    requires
        forall|i: int| 0 <= i < encoded(s).len() ==> #[trigger] encoded(s)[i] != 0,
    ensures
        decoded(before_zero(encoded(s) + seq![0u16] + rest)) == s,
{
    lemma_before_zero(encoded(s), rest);
    wide_text_reads_back(s);
}

proof fn lemma_before_zero(w: Seq<u16>, rest: Seq<u16>)
    requires
        forall|i: int| 0 <= i < w.len() ==> #[trigger] w[i] != 0,
    ensures
        before_zero(w + seq![0u16] + rest) == w,
    decreases w.len(),
{
    let all = w + seq![0u16] + rest;
    if w.len() == 0 {
        assert(all[0] == 0);
        assert(before_zero(all) =~= w);
    } else {
        assert(all[0] == w[0]);
        assert(all.skip(1) =~= w.skip(1) + seq![0u16] + rest);
        assert forall|i: int| 0 <= i < w.skip(1).len() implies #[trigger] w.skip(1)[i] != 0 by {
            assert(w.skip(1)[i] == w[i + 1]);
        }
        lemma_before_zero(w.skip(1), rest);
        assert(before_zero(all) =~= w);
    }
}

/// Each character is encoded by itself: one unit, its code point, where that fits,
/// else a high and a low surrogate that hold twenty bits of it.
pub proof fn characters_are_encoded_by_themselves(a: Seq<char>, b: Seq<char>, c: char)
    ensures
        encoded(a + b) == encoded(a) + encoded(b),
        encoded(seq![c]) == units_of(c),
        (c as u32) < 0x10000 ==> units_of(c).len() == 1 && units_of(c)[0] as u32 == c as u32,
        (c as u32) >= 0x10000 ==> {
            &&& units_of(c).len() == 2
            &&& is_high(units_of(c)[0])
            &&& is_low(units_of(c)[1])
            &&& c as u32 - 0x10000 == 1024 * (units_of(c)[0] - 0xD800) + (units_of(c)[1] - 0xDC00)
        },
    decreases b.len(),
{
    vstd::utf8::char_is_scalar(c);
    assert(seq![c].drop_last() =~= Seq::<char>::empty());
    assert(encoded(seq![c]) =~= units_of(c)) by {
        assert(encoded(seq![c].drop_last()) =~= Seq::<u16>::empty());
    }
    if b.len() == 0 {
        assert(a + b =~= a);
        assert(encoded(a) + encoded(b) =~= encoded(a));
    } else {
        characters_are_encoded_by_themselves(a, b.drop_last(), c);
        assert((a + b).drop_last() =~= a + b.drop_last());
        assert((a + b).last() == b.last());
        assert(encoded(a + b) =~= encoded(a) + encoded(b));
    }
    if (c as u32) >= 0x10000 {
        let d = (c as u32 - 0x10000) as int;
        assert(0 <= d < 0x100000);
        assert(d / 0x400 < 0x400 && 0 <= d % 0x400 < 0x400);
        assert((d / 0x400) * 0x400 + d % 0x400 == d);
    }
}

/// A surrogate without its partner reads as the replacement character and spoils the
/// text; what follows it is still read.
pub proof fn lone_surrogates_are_replaced(u: u16, rest: Seq<u16>)
    requires
        is_low(u) || is_high(u) && (rest.len() == 0 || !is_low(rest[0])),
    ensures
        decoded(seq![u] + rest) == seq!['\u{FFFD}'] + decoded(rest),
        !well_formed(seq![u] + rest),
{
    let w = seq![u] + rest;
    assert(w[0] == u);
    if rest.len() > 0 {
        assert(w[1] == rest[0]);
    }
    assert(w.skip(1) =~= rest);
}

/// The surrogates are the units from D800 to DFFF, the high ones first.
pub proof fn surrogates_come_in_two_kinds(u: u16)
    ensures
        is_high(u) || is_low(u) <==> 0xD800 <= u <= 0xDFFF,
        !(is_high(u) && is_low(u)),
        is_high(u) ==> u <= 0xDBFF,
{
}

/// Text in a buffer ends before its first zero, and without one it is all of it.
pub proof fn buffers_end_before_zero(w: Seq<u16>)
    ensures
        before_zero(w).is_prefix_of(w),
        forall|i: int| 0 <= i < before_zero(w).len() ==> #[trigger] before_zero(w)[i] != 0,
        before_zero(w).len() < w.len() ==> w[before_zero(w).len() as int] == 0,
    decreases w.len(),
{
    if w.len() == 0 || w[0] == 0 {
        assert(before_zero(w) =~= w.subrange(0, 0));
    } else {
        let rest = w.skip(1);
        buffers_end_before_zero(rest);
        let r = before_zero(rest);
        assert(before_zero(w) =~= w.subrange(0, before_zero(w).len() as int)) by {
            assert(r =~= rest.subrange(0, r.len() as int));
            assert forall|i: int| 0 <= i < before_zero(w).len() implies before_zero(w)[i]
                == w[i] by {
                if i > 0 {
                    assert(r[i - 1] == rest[i - 1]);
                }
            }
        }
        assert forall|i: int| 0 <= i < before_zero(w).len() implies #[trigger] before_zero(w)[i]
            != 0 by {
            if i > 0 {
                assert(before_zero(w)[i] == r[i - 1]);
            }
        }
    }
}

}
