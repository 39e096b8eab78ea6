//! Characters and strings: the pieces of text handling that the rest of the
//! crate builds on, each with a model over `Seq<char>`.
use vstd::prelude::*;
use vstd::string::*;

verus! {

/// `String::push` appends one character at the end of the string.
pub assume_specification[ String::push ](s: &mut String, c: char)
    ensures
        final(s)@ == old(s)@.push(c),
;

/// `String::pop` removes the last character and returns it; an empty string
/// stays as it is and gives nothing.
pub assume_specification[ String::pop ](s: &mut String) -> (r: Option<char>)
    ensures
        old(s)@.len() == 0 ==> r is None && final(s)@ == old(s)@,
        old(s)@.len() > 0 ==> r == Some(old(s)@.last()) && final(s)@ == old(s)@.drop_last(),
;

/// `char::from_u32` gives the character with that code point, and nothing for
/// a number that is no Unicode scalar value.
pub assume_specification[ char::from_u32 ](i: u32) -> (r: Option<char>)
    ensures
        r == (if i < 0xD800 || (0xE000 <= i && i <= 0x10FFFF) {
            Some(i as char)
        } else {
            None
        }),
;

/// The texts of a list of strings.
pub open spec fn texts(v: Seq<String>) -> Seq<Seq<char>> {
    v.map_values(|s: String| s@)
}

/// The texts of a list of character lists.
pub open spec fn char_rows(v: Seq<Vec<char>>) -> Seq<Seq<char>> {
    v.map_values(|s: Vec<char>| s@)
}

/// The text of an optional string slice.
pub open spec fn opt_text(o: Option<&str>) -> Option<Seq<char>> {
    match o {
        Some(s) => Some(s@),
        None => None,
    }
}

/// The text of an optional string.
pub open spec fn opt_string(o: Option<String>) -> Option<Seq<char>> {
    match o {
        Some(s) => Some(s@),
        None => None,
    }
}

/// The characters of a string, in order.
pub fn chars_of(s: &str) -> (r: Vec<char>)
    ensures
        r@ == s@,
{
    let mut r: Vec<char> = Vec::new();
    for c in it: s.chars()
        invariant
            it.seq() == s@,
            r@ == s@.take(it.index() as int),
    {
        r.push(c);
    }
    assert(s@.take(s@.len() as int) =~= s@);
    r
}

/// The string made of the characters `from..to`.
pub fn string_of(chars: &[char], from: usize, to: usize) -> (r: String)
    requires
        from <= to <= chars@.len(),
    ensures
        r@ == chars@.subrange(from as int, to as int),
{
    let mut r = String::new();
    let mut i: usize = from;
    assert(chars@.subrange(from as int, from as int) =~= Seq::<char>::empty());
    while i < to
        invariant
            from <= i <= to <= chars@.len(),
            r@ == chars@.subrange(from as int, i as int),
        decreases to - i,
    {
        r.push(chars[i]);
        assert(chars@.subrange(from as int, i + 1) =~= chars@.subrange(from as int, i as int).push(
            chars@[i as int],
        ));
        i = i + 1;
    }
    r
}

/// Whether two strings hold the same characters.
pub fn str_eq(a: &str, b: &str) -> (r: bool)
    ensures
        r == (a@ == b@),
{
    let x = chars_of(a);
    let y = chars_of(b);
    chars_eq(&x, &y)
}

/// Whether two character lists are equal.
pub fn chars_eq(x: &[char], y: &[char]) -> (r: bool)
    ensures
        r == (x@ == y@),
{
    if x.len() != y.len() {
        return false;
    }
    let mut i: usize = 0;
    while i < x.len()
        invariant
            i <= x@.len(),
            x@.len() == y@.len(),
            forall|k: int| 0 <= k < i ==> x@[k] == y@[k],
        decreases x@.len() - i,
    {
        if x[i] != y[i] {
            assert(x@[i as int] != y@[i as int]);
            return false;
        }
        i = i + 1;
    }
    assert(x@ =~= y@);
    true
}

/// `a` followed by `b`.
pub fn concat2(a: &str, b: &str) -> (r: String)
    ensures
        r@ == a@ + b@,
{
    let mut r = a.to_owned();
    r.append(b);
    r
}

/// `a`, `b` and `c` in a row.
pub fn concat3(a: &str, b: &str, c: &str) -> (r: String)
    ensures
        r@ == a@ + b@ + c@,
{
    let mut r = concat2(a, b);
    r.append(c);
    r
}

/// `a` followed by one character.
pub fn with_char(a: &str, c: char) -> (r: String)
    ensures
        r@ == a@.push(c),
{
    let mut r = a.to_owned();
    r.push(c);
    r
}

/// The part of `full` behind `prefix`; empty where `full` does not start with it.
pub open spec fn suffix_after_prefix(full: Seq<char>, prefix: Seq<char>) -> Seq<char> {
    if prefix.is_prefix_of(full) {
        full.skip(prefix.len() as int)
    } else {
        Seq::empty()
    }
}

/// Executable form of [`suffix_after_prefix`].
pub fn suffix_after_prefix_or_empty(full: &str, prefix: &str) -> (r: String)
    ensures
        r@ == suffix_after_prefix(full@, prefix@),
{
    let f = chars_of(full);
    let p = chars_of(prefix);
    if starts_with_at(&f, 0, &p) {
        assert(f@.subrange(0, p@.len() as int) =~= f@.take(p@.len() as int));
        let n = f.len();
        let r = string_of(&f, p.len(), n);
        assert(f@.subrange(p@.len() as int, n as int) =~= f@.skip(p@.len() as int));
        assert(prefix@.is_prefix_of(full@));
        r
    } else {
        proof {
            if prefix@.is_prefix_of(full@) {
                assert(f@.subrange(0, p@.len() as int) =~= p@);
            }
        }
        String::new()
    }
}

/// Whether `pat` stands in `s` at index `at`.
pub open spec fn occurs_at(s: Seq<char>, at: int, pat: Seq<char>) -> bool {
    0 <= at && at + pat.len() <= s.len() && s.subrange(at, at + pat.len()) == pat
}

/// Executable form of [`occurs_at`].
pub fn starts_with_at(s: &[char], at: usize, pat: &[char]) -> (r: bool)
    requires
        at <= s@.len(),
    ensures
        r == occurs_at(s@, at as int, pat@),
{
    let n = s.len();
    if pat.len() > n - at {
        return false;
    }
    let mut i: usize = 0;
    while i < pat.len()
        invariant
            i <= pat@.len(),
            n == s@.len(),
            at + pat@.len() <= n,
            forall|k: int| 0 <= k < i ==> s@[at + k] == pat@[k],
        decreases pat@.len() - i,
    {
        if s[at + i] != pat[i] {
            assert(s@.subrange(at as int, at + pat@.len())[i as int] != pat@[i as int]);
            return false;
        }
        i = i + 1;
    }
    assert(s@.subrange(at as int, at + pat@.len()) =~= pat@);
    true
}

/// Whether `pat` occurs anywhere in `s`.
pub open spec fn contains_text(s: Seq<char>, pat: Seq<char>) -> bool {
    exists|at: int| #[trigger] occurs_at(s, at, pat)
}

/// Executable form of [`contains_text`].
pub fn contains_chars(s: &[char], pat: &[char]) -> (r: bool)
    ensures
        r == contains_text(s@, pat@),
{
    let mut at: usize = 0;
    loop
        invariant
            at <= s@.len(),
            forall|k: int| 0 <= k < at ==> !occurs_at(s@, k, pat@),
        decreases s@.len() - at,
    {
        if starts_with_at(s, at, pat) {
            return true;
        }
        if at == s.len() {
            assert forall|k: int| !occurs_at(s@, k, pat@) by {
                if k > s@.len() {
                }
            }
            return false;
        }
        at = at + 1;
    }
}

/// The decimal digit for `d`.
pub open spec fn digit_char(d: int) -> char {
    (48 + d) as char
}

/// A natural number in decimal notation, without leading zeros.
pub open spec fn decimal(n: nat) -> Seq<char>
    decreases n,
{
    if n < 10 {
        seq![digit_char(n as int)]
    } else {
        decimal(n / 10).push(digit_char((n % 10) as int))
    }
}

/// An integer in decimal notation, with a minus sign where it is negative.
pub open spec fn decimal_int(i: int) -> Seq<char> {
    if i < 0 {
        seq!['-'] + decimal((-i) as nat)
    } else {
        decimal(i as nat)
    }
}

/// Executable form of [`decimal`].
pub fn decimal_text(n: u64) -> (r: String)
    ensures
        r@ == decimal(n as nat),
{
    long_decimal_text(n as u128)
}

/// Executable form of [`decimal`], for longer numbers.
pub fn long_decimal_text(n: u128) -> (r: String)
    ensures
        r@ == decimal(n as nat),
    decreases n,
{
    let d: u8 = (n % 10) as u8;
    let c: char = (48u8 + d) as char;
    assert(c == digit_char((n % 10) as int));
    if n < 10 {
        let mut r = String::new();
        r.push(c);
        assert(r@ =~= seq![digit_char(n as int)]);
        r
    } else {
        let mut r = long_decimal_text(n / 10);
        r.push(c);
        r
    }
}

/// Executable form of [`decimal_int`].
pub fn decimal_int_text(i: i64) -> (r: String)
    ensures
        r@ == decimal_int(i as int),
{
    if i < 0 {
        let mut r = String::new();
        r.push('-');
        assert(r@ =~= seq!['-']);
        let m: u64 = (-(i as i128)) as u64;
        let d = decimal_text(m);
        r.append(d.as_str());
        r
    } else {
        decimal_text(i as u64)
    }
}

/// The ASCII decimal digits.
pub open spec fn is_digit(c: char) -> bool {
    '0' <= c && c <= '9'
}

/// The number that a row of decimal digits stands for.
pub open spec fn digits_value(s: Seq<char>) -> nat
    decreases s.len(),
{
    if s.len() == 0 {
        0
    } else {
        digits_value(s.drop_last()) * 10 + (s.last() as nat - 48) as nat
    }
}

/// The digits of an unsigned number: all of the text but for one leading plus sign.
pub open spec fn unsigned_digits(s: Seq<char>) -> Seq<char> {
    if s.len() > 0 && s[0] == '+' {
        s.skip(1)
    } else {
        s
    }
}

/// What `str::parse::<u64>` gives: a value for one or more decimal digits,
/// behind an optional plus sign, whose number fits.
pub open spec fn parse_unsigned(s: Seq<char>) -> Option<u64> {
    let d = unsigned_digits(s);
    if d.len() > 0 && (forall|i: int| 0 <= i < d.len() ==> is_digit(#[trigger] d[i])) && digits_value(d)
        <= u64::MAX {
        Some(digits_value(d) as u64)
    } else {
        None
    }
}

proof fn lemma_digits_value_monotone(s: Seq<char>, k: int)
    requires
        0 <= k <= s.len(),
        forall|i: int| 0 <= i < s.len() ==> is_digit(#[trigger] s[i]),
    ensures
        digits_value(s.take(k)) <= digits_value(s),
    decreases s.len() - k,
{
    if k == s.len() {
        assert(s.take(k) =~= s);
    } else {
        lemma_digits_value_monotone(s, k + 1);
        assert(s.take(k + 1).drop_last() =~= s.take(k));
    }
}

/// Executable form of [`parse_unsigned`].
pub fn parse_u64(s: &[char]) -> (r: Option<u64>)
    ensures
        r == parse_unsigned(s@),
{
    let start: usize = if s.len() > 0 && s[0] == '+' {
        1
    } else {
        0
    };
    let ghost d = unsigned_digits(s@);
    assert(s@.skip(0) =~= s@);
    assert(d =~= s@.skip(start as int));
    if start == s.len() {
        return None;
    }
    let mut v: u64 = 0;
    let mut i: usize = start;
    while i < s.len()
        invariant
            start <= i <= s@.len(),
            start < s@.len(),
            d == s@.skip(start as int),
            d == unsigned_digits(s@),
            forall|k: int| 0 <= k < i - start ==> is_digit(#[trigger] d[k]),
            v as nat == digits_value(d.take(i - start)),
        decreases s@.len() - i,
    {
        let c = s[i];
        assert(c == d[i - start]);
        if c < '0' || c > '9' {
            return None;
        }
        let x: u64 = (c as u32 - 48) as u64;
        assert(d.take(i - start + 1).drop_last() =~= d.take(i - start));
        if v > (u64::MAX - x) / 10 {
            proof {
                assert(v * 10 + x > u64::MAX);
                if forall|k: int| 0 <= k < d.len() ==> is_digit(#[trigger] d[k]) {
                    lemma_digits_value_monotone(d, i - start + 1);
                }
            }
            return None;
        }
        v = v * 10 + x;
        i = i + 1;
    }
    assert(d.take(d.len() as int) =~= d);
    Some(v)
}

/// The characters with the Unicode property White_Space.
pub open spec fn is_whitespace(c: char) -> bool {
    let n = c as u32;
    ||| 9 <= n <= 13
    ||| n == 0x20
    ||| n == 0x85
    ||| n == 0xA0
    ||| n == 0x1680
    ||| 0x2000 <= n <= 0x200A
    ||| n == 0x2028
    ||| n == 0x2029
    ||| n == 0x202F
    ||| n == 0x205F
    ||| n == 0x3000
}

/// Executable form of [`is_whitespace`].
pub fn char_is_whitespace(c: char) -> (r: bool)
    ensures
        r == is_whitespace(c),
{
    let n: u32 = c as u32;
    (9 <= n && n <= 13) || n == 0x20 || n == 0x85 || n == 0xA0 || n == 0x1680 || (0x2000 <= n && n
        <= 0x200A) || n == 0x2028 || n == 0x2029 || n == 0x202F || n == 0x205F || n == 0x3000
}

/// The control characters: general category Cc.
pub open spec fn is_control(c: char) -> bool {
    c as u32 <= 0x1F || 0x7F <= c as u32 <= 0x9F
}

/// Executable form of [`is_control`].
pub fn char_is_control(c: char) -> (r: bool)
    ensures
        r == is_control(c),
{
    let n: u32 = c as u32;
    n <= 0x1F || (0x7F <= n && n <= 0x9F)
}

/// The index of the first `c` in `s`, or the length where there is none.
pub open spec fn first_index(s: Seq<char>, c: char) -> int
    decreases s.len(),
{
    if s.len() == 0 || s[0] == c {
        0
    } else {
        1 + first_index(s.skip(1), c)
    }
}

pub proof fn lemma_first_index(s: Seq<char>, c: char)
    ensures
        0 <= first_index(s, c) <= s.len(),
        forall|k: int| 0 <= k < first_index(s, c) ==> s[k] != c,
        first_index(s, c) < s.len() ==> s[first_index(s, c)] == c,
    decreases s.len(),
{
    if s.len() == 0 || s[0] == c {
    } else {
        lemma_first_index(s.skip(1), c);
        assert forall|k: int| 0 <= k < first_index(s, c) implies s[k] != c by {
            if k > 0 {
                assert(s.skip(1)[k - 1] != c);
            }
        }
    }
}

proof fn lemma_first_index_is(s: Seq<char>, c: char, i: int)
    requires
        0 <= i <= s.len(),
        forall|k: int| 0 <= k < i ==> s[k] != c,
        i < s.len() ==> s[i] == c,
    ensures
        first_index(s, c) == i,
{
    lemma_first_index(s, c);
    let j = first_index(s, c);
    if j < i {
        assert(s[j] != c);
    } else if i < j {
        assert(s[i] != c);
    }
}

/// A line without the carriage return that stands before its line feed.
pub open spec fn strip_cr(s: Seq<char>) -> Seq<char> {
    if s.len() > 0 && s.last() == '\r' {
        s.drop_last()
    } else {
        s
    }
}

/// The lines of a text: it is cut behind each line feed, and a line that a line
/// feed ends loses it, with the carriage return before it. There is no empty
/// last line behind a final line feed.
pub open spec fn lines(s: Seq<char>) -> Seq<Seq<char>>
    decreases s.len(),
{
    let i = first_index(s, '\n');
    if s.len() == 0 {
        Seq::empty()
    } else if i < 0 || i >= s.len() {
        seq![s]
    } else {
        seq![strip_cr(s.take(i))] + lines(s.skip(i + 1))
    }
}

/// Executable form of [`lines`], on characters.
pub fn lines_of(s: &[char]) -> (r: Vec<Vec<char>>)
    ensures
        char_rows(r@) == lines(s@),
{
    let mut out: Vec<Vec<char>> = Vec::new();
    let n = s.len();
    let mut start: usize = 0;
    assert(char_rows(out@) + lines(s@.skip(0)) =~= lines(s@)) by {
        assert(s@.skip(0) =~= s@);
    }
    while start < n
        invariant
            n == s@.len(),
            start <= n,
            char_rows(out@) + lines(s@.skip(start as int)) == lines(s@),
        decreases n - start,
    {
        let ghost rest = s@.skip(start as int);
        let mut i: usize = start;
        while i < n && s[i] != '\n'
            invariant
                n == s@.len(),
                start <= i <= n,
                forall|k: int| start <= k < i ==> s@[k] != '\n',
            decreases n - i,
        {
            i = i + 1;
        }
        proof {
            lemma_first_index_is(rest, '\n', i - start);
        }
        let ghost before = char_rows(out@);
        if i == n {
            let line = slice_copy(s, start, n);
            assert(line@ =~= rest);
            out.push(line);
            proof {
                assert(char_rows(out@) =~= before.push(line@));
                assert(lines(rest) == seq![rest]);
                assert(char_rows(out@) =~= before + lines(rest));
                assert(s@.skip(n as int) =~= Seq::<char>::empty());
                assert(lines(s@.skip(n as int)) =~= Seq::<Seq<char>>::empty());
                assert(char_rows(out@) + lines(s@.skip(n as int)) =~= char_rows(out@));
            }
            start = n;
        } else {
            let end: usize = if i > start && s[i - 1] == '\r' {
                i - 1
            } else {
                i
            };
            let line = slice_copy(s, start, end);
            proof {
                assert(rest.take(i - start) =~= s@.subrange(start as int, i as int));
                if i > start {
                    assert(rest.take(i - start).last() == s@[i - 1]);
                }
                assert(line@ =~= strip_cr(rest.take(i - start)));
            }
            out.push(line);
            proof {
                assert(char_rows(out@) =~= before.push(line@));
                assert(rest.skip(i - start + 1) =~= s@.skip(i + 1));
                assert(char_rows(out@) + lines(s@.skip(i + 1)) =~= before + (seq![line@] + lines(
                    s@.skip(i + 1),
                )));
            }
            start = i + 1;
        }
    }
    assert(s@.skip(n as int) =~= Seq::<char>::empty());
    assert(char_rows(out@) + lines(s@.skip(n as int)) =~= char_rows(out@));
    out
}

/// The characters `from..to` as a list of their own.
pub fn slice_copy(s: &[char], from: usize, to: usize) -> (r: Vec<char>)
    requires
        from <= to <= s@.len(),
    ensures
        r@ == s@.subrange(from as int, to as int),
{
    let mut r: Vec<char> = Vec::new();
    let mut i: usize = from;
    assert(s@.subrange(from as int, from as int) =~= Seq::<char>::empty());
    while i < to
        invariant
            from <= i <= to <= s@.len(),
            r@ == s@.subrange(from as int, i as int),
        decreases to - i,
    {
        r.push(s[i]);
        assert(s@.subrange(from as int, i + 1) =~= s@.subrange(from as int, i as int).push(
            s@[i as int],
        ));
        i = i + 1;
    }
    r
}

/// How many characters at the front of `s` are (`ws`) or are not white space.
pub open spec fn run_len(s: Seq<char>, ws: bool) -> int
    decreases s.len(),
{
    if s.len() == 0 || is_whitespace(s[0]) != ws {
        0
    } else {
        1 + run_len(s.skip(1), ws)
    }
}

pub proof fn lemma_run_len(s: Seq<char>, ws: bool)
    ensures
        0 <= run_len(s, ws) <= s.len(),
        forall|k: int| 0 <= k < run_len(s, ws) ==> is_whitespace(#[trigger] s[k]) == ws,
        run_len(s, ws) < s.len() ==> is_whitespace(s[run_len(s, ws)]) != ws,
    decreases s.len(),
{
    if s.len() == 0 || is_whitespace(s[0]) != ws {
    } else {
        lemma_run_len(s.skip(1), ws);
        assert forall|k: int| 0 <= k < run_len(s, ws) implies is_whitespace(#[trigger] s[k]) == ws by {
            if k > 0 {
                assert(is_whitespace(s.skip(1)[k - 1]) == ws);
            }
        }
    }
}

/// Counts the run of white space, or of other characters, that starts at `at`.
pub fn run_end(s: &[char], at: usize, ws: bool) -> (r: usize)
    requires
        at <= s@.len(),
    ensures
        r == at + run_len(s@.skip(at as int), ws),
        at <= r <= s@.len(),
{
    let mut i: usize = at;
    while i < s.len() && char_is_whitespace(s[i]) == ws
        invariant
            at <= i <= s@.len(),
            forall|k: int| at <= k < i ==> is_whitespace(#[trigger] s@[k]) == ws,
        decreases s@.len() - i,
    {
        i = i + 1;
    }
    proof {
        let t = s@.skip(at as int);
        lemma_run_len(t, ws);
        let j = run_len(t, ws);
        if j < i - at {
            assert(is_whitespace(s@[at + j]) == ws);
            assert(t[j] == s@[at + j]);
        } else if j > i - at {
            assert(is_whitespace(t[i - at]) == ws);
            assert(t[i - at] == s@[i as int]);
        }
    }
    i
}

/// The words of a text: its longest pieces without white space.
pub open spec fn words(s: Seq<char>) -> Seq<Seq<char>>
    decreases s.len(),
{
    let a = run_len(s, true);
    let t = s.skip(a);
    let b = run_len(t, false);
    if s.len() == 0 || a < 0 || a >= s.len() || b <= 0 || b > t.len() {
        Seq::empty()
    } else {
        seq![t.take(b)] + words(t.skip(b))
    }
}

/// Executable form of [`words`], on characters.
pub fn words_of(s: &[char]) -> (r: Vec<Vec<char>>)
    ensures
        char_rows(r@) == words(s@),
{
    let mut out: Vec<Vec<char>> = Vec::new();
    let n = s.len();
    let mut at: usize = 0;
    assert(s@.skip(0) =~= s@);
    assert(char_rows(out@) + words(s@.skip(0)) =~= words(s@));
    loop
        invariant
            n == s@.len(),
            at <= n,
            char_rows(out@) + words(s@.skip(at as int)) == words(s@),
        decreases n - at,
    {
        let ghost rest = s@.skip(at as int);
        proof {
            lemma_run_len(rest, true);
        }
        let a = run_end(s, at, true);
        if a == n {
            proof {
                assert(words(rest) =~= Seq::<Seq<char>>::empty());
                assert(char_rows(out@) + words(rest) =~= char_rows(out@));
            }
            return out;
        }
        let ghost t = s@.skip(a as int);
        proof {
            assert(rest.skip(a - at) =~= t);
            lemma_run_len(t, false);
        }
        let b = run_end(s, a, false);
        proof {
            assert(is_whitespace(rest[a - at]) != true);
            assert(t[0] == rest[a - at]);
            assert(b > a);
        }
        let word = slice_copy(s, a, b);
        let ghost before = char_rows(out@);
        assert(word@ =~= t.take(b - a));
        out.push(word);
        proof {
            assert(char_rows(out@) =~= before.push(word@));
            assert(t.skip(b - a) =~= s@.skip(b as int));
            assert(words(rest) == seq![word@] + words(s@.skip(b as int)));
            assert(char_rows(out@) + words(s@.skip(b as int)) =~= before + words(rest));
        }
        at = b;
    }
}

/// Decimal notation reads back as the number, is made of digits only, and has no
/// leading zero but for zero itself.
pub proof fn decimals_read_back(n: nat)
    ensures
        digits_value(decimal(n)) == n,
        decimal(n).len() > 0,
        forall|i: int| 0 <= i < decimal(n).len() ==> is_digit(#[trigger] decimal(n)[i]),
        decimal(n)[0] == '0' <==> n == 0,
    decreases n,
{
    if n < 10 {
        assert(decimal(n).drop_last() =~= Seq::<char>::empty());
        assert(digits_value(decimal(n).drop_last()) == 0);
        assert(decimal(n).last() == digit_char(n as int));
    } else {
        decimals_read_back(n / 10);
        let d = digit_char((n % 10) as int);
        assert(decimal(n).drop_last() =~= decimal(n / 10));
        assert(decimal(n).last() == d);
        assert(is_digit(d));
        assert forall|i: int| 0 <= i < decimal(n).len() implies is_digit(
            #[trigger] decimal(n)[i],
        ) by {
            if i < decimal(n / 10).len() {
                assert(decimal(n)[i] == decimal(n / 10)[i]);
            }
        }
        assert(decimal(n)[0] == decimal(n / 10)[0]);
    }
}

/// A number that is written down is read as itself, with or without a plus sign in
/// front; a text with anything but digits is no number.
pub proof fn written_numbers_are_read(n: u64, before: Seq<char>, c: char, after: Seq<char>)
    ensures
        parse_unsigned(decimal(n as nat)) == Some(n),
        parse_unsigned(seq!['+'] + decimal(n as nat)) == Some(n),
        parse_unsigned(Seq::empty()) is None,
        !is_digit(c) && before.len() > 0 ==> parse_unsigned(before.push(c) + after) is None,
        n > 0 ==> decimal_int(-n) == seq!['-'] + decimal(n as nat),
        decimal_int(n as int) == decimal(n as nat),
{
    decimals_read_back(n as nat);
    let d = decimal(n as nat);
    assert(is_digit(d[0]));
    assert((seq!['+'] + d).skip(1) =~= d);
    if !is_digit(c) && before.len() > 0 {
        let all = before.push(c) + after;
        let rest = unsigned_digits(all);
        assert(all[before.len() as int] == c);
        if all[0] == '+' {
            assert(rest[before.len() - 1] == c);
        } else {
            assert(rest[before.len() as int] == c);
        }
    }
}

/// What stands behind a prefix joins with it to the whole; behind anything that is
/// no prefix stands nothing.
pub proof fn suffixes_join_their_prefixes(prefix: Seq<char>, suffix: Seq<char>, full: Seq<char>)
    ensures
        suffix_after_prefix(prefix + suffix, prefix) == suffix,
        prefix.is_prefix_of(full) ==> prefix + suffix_after_prefix(full, prefix) == full,
        !prefix.is_prefix_of(full) ==> suffix_after_prefix(full, prefix).len() == 0,
{
    let all = prefix + suffix;
    assert(all.subrange(0, prefix.len() as int) =~= prefix);
    assert(prefix.is_prefix_of(all));
    assert(all.skip(prefix.len() as int) =~= suffix);
    if prefix.is_prefix_of(full) {
        assert(prefix + full.skip(prefix.len() as int) =~= full);
    }
}

/// A pattern occurs in every text that is made of something, the pattern and
/// something more.
pub proof fn patterns_occur_where_they_stand(
    before: Seq<char>,
    pat: Seq<char>,
    after: Seq<char>,
    all: Seq<char>,
)
    ensures
        contains_text(before + pat + after, pat),
        contains_text(all, pat) ==> pat.len() <= all.len(),
        occurs_at(all, 0, pat) <==> pat.is_prefix_of(all),
{
    let whole = before + pat + after;
    assert(whole.subrange(before.len() as int, (before.len() + pat.len()) as int) =~= pat);
    assert(occurs_at(whole, before.len() as int, pat));
    if occurs_at(all, 0, pat) {
        assert(all.subrange(0, pat.len() as int) == pat);
    }
    if pat.is_prefix_of(all) {
        assert(all.subrange(0, pat.len() as int) =~= pat);
    }
}

/// A text is cut at its line feeds: each ends a line, with a carriage return before
/// it dropped, and a line without one is the last.
pub proof fn line_feeds_end_lines(line: Seq<char>, rest: Seq<char>)
    requires
        forall|i: int| 0 <= i < line.len() ==> #[trigger] line[i] != '\n',
    ensures
        lines(line.push('\n') + rest) == seq![strip_cr(line)] + lines(rest),
        line.len() > 0 ==> lines(line) == seq![line],
        lines(Seq::empty()).len() == 0,
        strip_cr(line.push('\r')) == line,
        line.len() > 0 && line.last() != '\r' ==> strip_cr(line) == line,
{
    let all = line.push('\n') + rest;
    assert(all[line.len() as int] == '\n');
    assert forall|k: int| 0 <= k < line.len() implies all[k] != '\n' by {
        assert(all[k] == line[k]);
    }
    lemma_first_index_is(all, '\n', line.len() as int);
    lemma_first_index_is(line, '\n', line.len() as int);
    assert(all.take(line.len() as int) =~= line);
    assert(all.skip(line.len() as int + 1) =~= rest);
    assert(line.push('\r').drop_last() =~= line);
}

proof fn lemma_run_is(s: Seq<char>, ws: bool, n: int)
    requires
        0 <= n <= s.len(),
        forall|k: int| 0 <= k < n ==> is_whitespace(#[trigger] s[k]) == ws,
        n < s.len() ==> is_whitespace(s[n]) != ws,
    ensures
        run_len(s, ws) == n,
{
    lemma_run_len(s, ws);
    let j = run_len(s, ws);
    if j < n {
        assert(is_whitespace(s[j]) == ws);
    } else if n < j {
        assert(is_whitespace(s[n]) == ws);
    }
}

/// White space parts words and is no part of them; every other character is.
pub proof fn white_space_parts_words(word: Seq<char>, space: char, rest: Seq<char>)
    requires
        word.len() > 0,
        forall|i: int| 0 <= i < word.len() ==> !is_whitespace(#[trigger] word[i]),
        is_whitespace(space),
    ensures
        words(word.push(space) + rest) == seq![word] + words(seq![space] + rest),
        words(word) == seq![word],
        words(seq![space] + word) == seq![word],
        words(seq![space]).len() == 0,
        words(Seq::empty()).len() == 0,
{
    let all = word.push(space) + rest;
    let n = word.len() as int;
    assert(is_whitespace(all[0]) == false) by {
        assert(all[0] == word[0]);
    }
    lemma_run_is(all, true, 0);
    assert(all.skip(0) =~= all);
    assert forall|k: int| 0 <= k < n implies is_whitespace(#[trigger] all[k]) == false by {
        assert(all[k] == word[k]);
    }
    assert(all[n] == space);
    lemma_run_is(all, false, n);
    assert(all.take(n) =~= word);
    assert(all.skip(n) =~= seq![space] + rest);
    assert(is_whitespace(word[0]) == false);
    lemma_run_is(word, true, 0);
    lemma_run_is(word, false, n);
    assert(word.skip(0) =~= word);
    assert(word.take(n) =~= word);
    assert(word.skip(n) =~= Seq::<char>::empty());
    assert(words(word) =~= seq![word]) by {
        assert(words(word.skip(n)) =~= Seq::<Seq<char>>::empty());
    }
    let led = seq![space] + word;
    assert(led[0] == space && led[1] == word[0]);
    lemma_run_is(led, true, 1);
    assert(led.skip(1) =~= word);
    assert(words(led) =~= seq![word]) by {
        assert(words(word.skip(n)) =~= Seq::<Seq<char>>::empty());
    }
    lemma_run_is(seq![space], true, 1);
}

/// Blanks, tabs, line ends and the wide space are white space; letters, digits, kana
/// and ideographs are not.
pub proof fn blanks_are_white_space(c: char)
    ensures
        is_whitespace(' ') && is_whitespace('\t') && is_whitespace('\n') && is_whitespace('\r'),
        is_whitespace('　'),
        '!' <= c <= '~' ==> !is_whitespace(c),
        'ぁ' <= c <= '龯' ==> !is_whitespace(c),
        '！' <= c <= 'ﾟ' ==> !is_whitespace(c),
{
}

}
