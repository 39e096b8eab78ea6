//! When a live conversion starts while the user types.
use vstd::prelude::*;
use vstd::string::*;
use crate::config::{ConfigManager, get_live_conv_beam_size, get_live_conv_min_chars};
use crate::text;
use crate::text::{chars_of, str_eq};

verus! {

pub fn reading_ready_with_min_chars(reading: &str, min_chars: usize) -> (r: bool)
    ensures
        r == (reading@.len() >= min_chars),
{
    reading.unicode_len() >= min_chars
}

pub fn is_live_conversion_reading_ready(mgr: &ConfigManager, reading: &str) -> (r: bool)
    ensures
        r == (reading@.len() >= mgr.current.live_conversion.effective_min_chars()),
{
    reading_ready_with_min_chars(reading, get_live_conv_min_chars(mgr))
}

pub open spec fn ascii_letter(c: char) -> bool {
    ('a' <= c && c <= 'z') || ('A' <= c && c <= 'Z')
}

pub open spec fn ascii_vowel(c: char) -> bool {
    c == 'a' || c == 'i' || c == 'u' || c == 'e' || c == 'o' || c == 'A' || c == 'I' || c == 'U'
        || c == 'E' || c == 'O'
}

/// The last character is a Latin consonant, which the next key will change.
pub open spec fn pending_romaji(reading: Seq<char>) -> bool {
    reading.len() > 0 && ascii_letter(reading.last()) && !ascii_vowel(reading.last())
}

fn is_pending_letter(c: char) -> (r: bool)
    ensures
        r == (ascii_letter(c) && !ascii_vowel(c)),
{
    let letter = ('a' <= c && c <= 'z') || ('A' <= c && c <= 'Z');
    let vowel = c == 'a' || c == 'i' || c == 'u' || c == 'e' || c == 'o' || c == 'A' || c == 'I'
        || c == 'U' || c == 'E' || c == 'O';
    letter && !vowel
}

pub fn ends_with_pending_romaji(reading: &str) -> (r: bool)
    ensures
        r == pending_romaji(reading@),
{
    let chars: Vec<char> = chars_of(reading);
    let n: usize = chars.len();
    n > 0 && is_pending_letter(chars[n - 1])
}

/// How many characters stand behind the last punctuation mark; all of them where
/// there is none.
pub open spec fn tail_len(s: Seq<char>, kuten: Seq<char>) -> nat
    decreases s.len(),
{
    if s.len() == 0 || kuten.contains(s.last()) {
        0
    } else {
        tail_len(s.drop_last(), kuten) + 1
    }
}

/// Whether `c` is one of the punctuation marks.
fn is_kuten(c: char, kuten: &[char]) -> (r: bool)
    ensures
        r == kuten@.contains(c),
{
    let mut i: usize = 0;
    while i < kuten.len()
        invariant
            i <= kuten@.len(),
            forall|k: int| 0 <= k < i ==> kuten@[k] != c,
        decreases kuten@.len() - i,
    {
        if kuten[i] == c {
            return true;
        }
        i = i + 1;
    }
    false
}

fn chars_behind_kuten(chars: &[char], kuten: &[char]) -> (r: usize)
    ensures
        r == tail_len(chars@, kuten@),
        r <= chars@.len(),
{
    let n: usize = chars.len();
    let mut i: usize = n;
    assert(chars@.take(n as int) =~= chars@);
    while i > 0
        invariant
            i <= n,
            n == chars@.len(),
            tail_len(chars@, kuten@) == tail_len(chars@.take(i as int), kuten@) + (n - i),
        decreases i,
    {
        if is_kuten(chars[i - 1], kuten) {
            assert(chars@.take(i as int).last() == chars@[i - 1]);
            return n - i;
        }
        assert(chars@.take(i as int).last() == chars@[i - 1]);
        assert(chars@.take(i as int).drop_last() =~= chars@.take(i - 1));
        i = i - 1;
    }
    n
}

/// How many candidates a live conversion of `reading` asks for; nothing where it
/// does not start. Behind punctuation, only what follows it counts as typed.
pub open spec fn live_start(
    reading: Seq<char>,
    kuten: Seq<char>,
    min_chars: int,
    beam_size: usize,
) -> Option<usize> {
    if pending_romaji(reading) || tail_len(reading, kuten) < min_chars {
        None
    } else {
        Some(beam_size)
    }
}

/// `kuten` holds the punctuation marks that split a reading.
pub fn live_bg_start_n_cands(mgr: &ConfigManager, reading: &str, kuten: &[char]) -> (r: Option<
    usize,
>)
    ensures
        r == live_start(
            reading@,
            kuten@,
            mgr.current.live_conversion.effective_min_chars() as int,
            mgr.current.live_conversion.effective_beam_size() as usize,
        ),
{
    if ends_with_pending_romaji(reading) {
        return None;
    }
    let chars: Vec<char> = chars_of(reading);
    let tail: usize = chars_behind_kuten(&chars, kuten);
    if tail >= get_live_conv_min_chars(mgr) {
        Some(get_live_conv_beam_size(mgr))
    } else {
        None
    }
}

/// A candidate that shows something else than the reading.
pub open spec fn has_other_candidate(candidates: Seq<Seq<char>>, reading: Seq<char>) -> bool {
    exists|i: int|
        0 <= i < candidates.len() && (#[trigger] candidates[i]).len() > 0 && candidates[i]
            != reading
}

/// Whether a preview can be expected for a reading. `plan` is what
/// [`live_bg_start_n_cands`] gave, `started` whether the conversion was taken on,
/// and `merged` the candidates at hand where it was not.
pub fn start_live_bg_if_ready(
    plan: Option<usize>,
    started: bool,
    merged: &Vec<String>,
    reading: &str,
) -> (r: bool)
    ensures
        r == (plan is Some && (started || has_other_candidate(text::texts(merged@), reading@))),
{
    if plan.is_none() {
        return false;
    }
    if started {
        return true;
    }
    let mut i: usize = 0;
    while i < merged.len()
        invariant
            plan is Some,
            i <= merged@.len(),
            forall|k: int|
                0 <= k < i ==> (#[trigger] merged@[k])@.len() == 0 || merged@[k]@ == reading@,
        decreases merged@.len() - i,
    {
        if merged[i].as_str().unicode_len() > 0 && !str_eq(merged[i].as_str(), reading) {
            assert(text::texts(merged@)[i as int] == merged@[i as int]@);
            return true;
        }
        i = i + 1;
    }
    proof {
        let all = text::texts(merged@);
        assert forall|k: int| 0 <= k < all.len() implies (#[trigger] all[k]).len() == 0 || all[k]
            == reading@ by {
            assert(all[k] == merged@[k]@);
        }
    }
    false
}

/// An unfinished Latin consonant never starts a live conversion, and neither does
/// punctuation with nothing behind it.
pub proof fn unfinished_readings_wait(
    reading: Seq<char>,
    kuten: Seq<char>,
    min_chars: int,
    beam_size: usize,
)
    requires
        min_chars >= 1,
    ensures
        pending_romaji(reading) ==> live_start(reading, kuten, min_chars, beam_size) is None,
        reading.len() > 0 && kuten.contains(reading.last()) ==> live_start(
            reading,
            kuten,
            min_chars,
            beam_size,
        ) is None,
        reading.len() < min_chars ==> live_start(reading, kuten, min_chars, beam_size) is None,
{
    lemma_tail_len_bound(reading, kuten);
}

/// No more characters follow the punctuation than there are.
pub proof fn lemma_tail_len_bound(s: Seq<char>, kuten: Seq<char>)
    ensures
        tail_len(s, kuten) <= s.len(),
        (forall|i: int| 0 <= i < s.len() ==> !kuten.contains(#[trigger] s[i])) ==> tail_len(s, kuten)
            == s.len(),
    decreases s.len(),
{
    if s.len() > 0 {
        lemma_tail_len_bound(s.drop_last(), kuten);
        if forall|i: int| 0 <= i < s.len() ==> !kuten.contains(#[trigger] s[i]) {
            assert(!kuten.contains(s[s.len() - 1]));
            assert forall|i: int| 0 <= i < s.drop_last().len() implies !kuten.contains(
                #[trigger] s.drop_last()[i],
            ) by {
                assert(s.drop_last()[i] == s[i]);
            }
        }
    }
}

/// A finished reading that is long enough starts a live conversion with the width
/// that the settings ask for: without punctuation all of it counts, behind
/// punctuation what follows the last mark.
pub proof fn finished_readings_start(
    before: Seq<char>,
    mark: char,
    typed: Seq<char>,
    kuten: Seq<char>,
    min_chars: int,
    beam_size: usize,
)
    requires
        kuten.contains(mark),
        forall|i: int| 0 <= i < typed.len() ==> !kuten.contains(#[trigger] typed[i]),
        !pending_romaji(typed),
        typed.len() >= 1,
    ensures
        typed.len() >= min_chars ==> {
            &&& live_start(typed, kuten, min_chars, beam_size) == Some(beam_size)
            &&& live_start(before.push(mark) + typed, kuten, min_chars, beam_size) == Some(beam_size)
        },
        typed.len() < min_chars ==> {
            &&& live_start(typed, kuten, min_chars, beam_size) is None
            &&& live_start(before.push(mark) + typed, kuten, min_chars, beam_size) is None
        },
{
    lemma_tail_len_bound(typed, kuten);
    lemma_tail_behind_mark(before, mark, typed, kuten);
    assert((before.push(mark) + typed).last() == typed.last());
}

proof fn lemma_tail_behind_mark(
    before: Seq<char>,
    mark: char,
    typed: Seq<char>,
    kuten: Seq<char>,
)
    requires
        kuten.contains(mark),
        forall|i: int| 0 <= i < typed.len() ==> !kuten.contains(#[trigger] typed[i]),
    ensures
        tail_len(before.push(mark) + typed, kuten) == typed.len(),
    decreases typed.len(),
{
    let all = before.push(mark) + typed;
    if typed.len() == 0 {
        assert(all =~= before.push(mark));
        assert(all.last() == mark);
    } else {
        let shorter = typed.drop_last();
        assert forall|i: int| 0 <= i < shorter.len() implies !kuten.contains(
            #[trigger] shorter[i],
        ) by {
            assert(shorter[i] == typed[i]);
        }
        lemma_tail_behind_mark(before, mark, shorter, kuten);
        assert(all.last() == typed[typed.len() - 1]);
        assert(all.drop_last() =~= before.push(mark) + shorter);
    }
}

/// A Latin consonant at the end is unfinished in either case of letter; a vowel, a
/// kana or anything else is finished.
pub proof fn consonants_are_unfinished(reading: Seq<char>, c: char)
    ensures
        !pending_romaji(Seq::empty()),
        pending_romaji(reading.push(c)) <==> ('a' <= c <= 'z' || 'A' <= c <= 'Z') && c != 'a' && c
            != 'i' && c != 'u' && c != 'e' && c != 'o' && c != 'A' && c != 'I' && c != 'U' && c
            != 'E' && c != 'O',
{
    assert(reading.push(c).last() == c);
}

/// A preview can be expected from a candidate that shows something, and something
/// else than the reading.
pub proof fn other_candidates_are_seen(
    before: Seq<Seq<char>>,
    candidate: Seq<char>,
    reading: Seq<char>,
)
    ensures
        !has_other_candidate(Seq::empty(), reading),
        has_other_candidate(before.push(candidate), reading) <==> has_other_candidate(
            before,
            reading,
        ) || candidate.len() > 0 && candidate != reading,
{
    let all = before.push(candidate);
    if candidate.len() > 0 && candidate != reading {
        assert(all[before.len() as int] == candidate);
    }
    if has_other_candidate(before, reading) {
        let i = choose|i: int|
            0 <= i < before.len() && (#[trigger] before[i]).len() > 0 && before[i] != reading;
        assert(all[i] == before[i]);
    }
    if has_other_candidate(all, reading) {
        let i = choose|i: int|
            0 <= i < all.len() && (#[trigger] all[i]).len() > 0 && all[i] != reading;
        if i < before.len() {
            assert(before[i] == all[i]);
        }
    }
}

}
