//! Diagnostics for the menu: what was last observed, and how fast the model was.
//!
//! Nothing here starts the engine or waits for it, and nothing that was typed is
//! shown.
use vstd::prelude::*;
use vstd::string::*;
use crate::text;
use crate::text::{
    chars_of, concat2, concat3, contains_chars, decimal_text, lines_of, parse_u64, slice_copy,
    starts_with_at, string_of, words_of,
};

verus! {

/// How much of the end of the log is read, in bytes.
pub const LOG_TAIL_BYTES: u64 = 65536;

/// The part of a log that is made of whole lines. Where its front was cut off
/// (`cut`), the first line is not whole; the last one may still be being written.
pub open spec fn whole_lines(t: Seq<char>, cut: bool) -> Seq<char> {
    let start = if !cut {
        0
    } else if text::first_index(t, '\n') < t.len() {
        text::first_index(t, '\n') + 1
    } else {
        t.len() as int
    };
    let end = last_line_end(t);
    if end <= start {
        Seq::empty()
    } else {
        t.subrange(start, end)
    }
}

/// The place behind the last line feed; the front where there is none.
pub open spec fn last_line_end(t: Seq<char>) -> int
    decreases t.len(),
{
    if t.len() == 0 {
        0
    } else if t.last() == '\n' {
        t.len() as int
    } else {
        last_line_end(t.drop_last())
    }
}

/// Where reading a log of `len` bytes starts.
pub fn log_tail_start(len: u64) -> (r: u64)
    ensures
        r == (if len > LOG_TAIL_BYTES {
            len - LOG_TAIL_BYTES
        } else {
            0
        }),
{
    if len > LOG_TAIL_BYTES {
        len - LOG_TAIL_BYTES
    } else {
        0
    }
}

/// The whole lines of the end of a log.
pub fn log_tail(t: &str, cut: bool) -> (r: String)
    ensures
        r@ == whole_lines(t@, cut),
{
    let chars: Vec<char> = chars_of(t);
    let n: usize = chars.len();
    let mut start: usize = 0;
    proof {
        text::lemma_first_index(t@, '\n');
    }
    if cut {
        while start < n && chars[start] != '\n'
            invariant
                start <= n,
                n == chars@.len(),
                chars@ == t@,
                forall|k: int| 0 <= k < start ==> t@[k] != '\n',
            decreases n - start,
        {
            start = start + 1;
        }
        proof {
            text::lemma_first_index(t@, '\n');
            let j = text::first_index(t@, '\n');
            if j < start {
                assert(t@[j] == '\n');
            } else if j > start {
                assert(start < n && t@[start as int] == '\n');
            }
        }
        if start < n {
            start = start + 1;
        }
    }
    let mut end: usize = n;
    assert(t@.take(n as int) =~= t@);
    while end > 0 && chars[end - 1] != '\n'
        invariant
            end <= n,
            n == chars@.len(),
            chars@ == t@,
            last_line_end(t@) == last_line_end(t@.take(end as int)),
        decreases end,
    {
        assert(t@.take(end as int).last() == t@[end - 1]);
        assert(t@.take(end as int).drop_last() =~= t@.take(end - 1));
        end = end - 1;
    }
    proof {
        if end > 0 {
            assert(t@.take(end as int).last() == t@[end - 1]);
        }
        assert(last_line_end(t@) == end);
    }
    if end <= start {
        String::new()
    } else {
        string_of(&chars, start, end)
    }
}

/// The number behind `key` in a word.
pub open spec fn value_of(word: Seq<char>, key: Seq<char>) -> Option<u64> {
    if key.is_prefix_of(word) {
        text::parse_unsigned(word.skip(key.len() as int))
    } else {
        None
    }
}

/// The first number behind `key` among words.
pub open spec fn first_value(words: Seq<Seq<char>>, key: Seq<char>) -> Option<u64>
    decreases words.len(),
{
    if words.len() == 0 {
        None
    } else {
        match value_of(words[0], key) {
            Some(v) => Some(v),
            None => first_value(words.skip(1), key),
        }
    }
}

fn value_in(word: &Vec<char>, key: &Vec<char>) -> (r: Option<u64>)
    ensures
        r == value_of(word@, key@),
{
    if !starts_with_at(word, 0, key) {
        proof {
            if key@.is_prefix_of(word@) {
                assert(word@.subrange(0, key@.len() as int) =~= key@);
            }
        }
        return None;
    }
    proof {
        assert(word@.subrange(0, key@.len() as int) == key@);
        assert(key@.is_prefix_of(word@));
    }
    let n: usize = word.len();
    let rest: Vec<char> = slice_copy(word, key.len(), n);
    assert(rest@ =~= word@.skip(key@.len() as int));
    parse_u64(&rest)
}

/// The first number of a line that stands behind `key`.
pub fn number(line: &str, key: &str) -> (r: Option<u64>)
    ensures
        r == first_value(text::words(line@), key@),
{
    let chars: Vec<char> = chars_of(line);
    let words: Vec<Vec<char>> = words_of(&chars);
    let k: Vec<char> = chars_of(key);
    first_number(&words, &k)
}

fn first_number(words: &Vec<Vec<char>>, key: &Vec<char>) -> (r: Option<u64>)
    ensures
        r == first_value(text::char_rows(words@), key@),
{
    let ghost models = text::char_rows(words@);
    let mut i: usize = 0;
    assert(models.skip(0) =~= models);
    while i < words.len()
        invariant
            i <= words@.len(),
            models == text::char_rows(words@),
            first_value(models, key@) == first_value(models.skip(i as int), key@),
        decreases words@.len() - i,
    {
        assert(models.skip(i as int)[0] == words@[i as int]@);
        assert(models.skip(i as int).skip(1) =~= models.skip(i + 1));
        if let Some(v) = value_in(&words[i], key) {
            return Some(v);
        }
        i = i + 1;
    }
    None
}

/// What a line says of a conversion: milliseconds, characters and when.
pub open spec fn line_report(line: Seq<char>) -> Option<(u64, u64, Seq<char>)> {
    let words = text::words(line);
    let ms = first_value(words, "elapsed_ms="@);
    let count = first_value(words, "reading_chars="@);
    if text::contains_text(line, "beam conversion done"@) && ms is Some && count is Some
        && words.len() > 0 {
        Some((ms->0, count->0, words[0]))
    } else {
        None
    }
}

/// The last report among lines.
pub open spec fn last_report(lines: Seq<Seq<char>>) -> Option<(u64, u64, Seq<char>)>
    decreases lines.len(),
{
    if lines.len() == 0 {
        None
    } else {
        match line_report(lines.last()) {
            Some(r) => Some(r),
            None => last_report(lines.drop_last()),
        }
    }
}

pub open spec fn report_model(r: Option<(u64, u64, String)>) -> Option<(u64, u64, Seq<char>)> {
    match r {
        Some((ms, count, when)) => Some((ms, count, when@)),
        None => None,
    }
}

fn report_of(line: &Vec<char>) -> (r: Option<(u64, u64, String)>)
    ensures
        report_model(r) == line_report(line@),
{
    let pattern: Vec<char> = chars_of("beam conversion done");
    let ms_key: Vec<char> = chars_of("elapsed_ms=");
    let count_key: Vec<char> = chars_of("reading_chars=");
    if !contains_chars(line, &pattern) {
        return None;
    }
    let words: Vec<Vec<char>> = words_of(line);
    let ms = first_number(&words, &ms_key);
    let count = first_number(&words, &count_key);
    match (ms, count) {
        (Some(ms), Some(count)) => {
            if words.len() == 0 {
                return None;
            }
            let n: usize = words[0].len();
            let when = string_of(&words[0], 0, n);
            assert(when@ =~= words@[0]@);
            assert(text::char_rows(words@)[0] == words@[0]@);
            Some((ms, count, when))
        },
        _ => None,
    }
}

/// The last conversion that a log tells of.
pub fn last_conversion(t: &str) -> (r: Option<(u64, u64, String)>)
    ensures
        report_model(r) == last_report(text::lines(t@)),
{
    let chars: Vec<char> = chars_of(t);
    let lines: Vec<Vec<char>> = lines_of(&chars);
    let ghost models = text::lines(t@);
    let n: usize = lines.len();
    let mut i: usize = n;
    assert(models.take(n as int) =~= models);
    while i > 0
        invariant
            i <= n,
            n == lines@.len(),
            models == text::char_rows(lines@),
            models == text::lines(t@),
            last_report(models) == last_report(models.take(i as int)),
        decreases i,
    {
        assert(models.take(i as int).last() == lines@[i - 1]@);
        assert(models.take(i as int).drop_last() =~= models.take(i - 1));
        let report = report_of(&lines[i - 1]);
        if report.is_some() {
            return report;
        }
        i = i - 1;
    }
    None
}

pub open spec fn speed_text(ms: u64) -> Seq<char> {
    if ms <= 200 {
        "速い目安"@
    } else if ms <= 999 {
        "待ち時間あり"@
    } else {
        "遅い目安"@
    }
}

pub fn speed_label(ms: u64) -> (r: &'static str)
    ensures
        r@ == speed_text(ms),
{
    if ms <= 200 {
        "速い目安"
    } else if ms <= 999 {
        "待ち時間あり"
    } else {
        "遅い目安"
    }
}

/// What is known of the engine without asking it.
#[derive(Clone, Copy, Debug, PartialEq, Eq, Structural)]
pub enum EngineHealth {
    /// It is in use, so that its state is left out.
    Busy,
    NotConnected,
    Failed,
    /// It last answered so many seconds ago.
    Answered { secs: u64 },
}

pub open spec fn health_text(h: EngineHealth) -> Seq<char> {
    match h {
        EngineHealth::Busy => "エンジン：処理中（状態取得を省略）"@,
        EngineHealth::NotConnected => "エンジン：未接続／初期化中"@,
        EngineHealth::Failed => "エンジン：直近の通信／処理でエラー"@,
        EngineHealth::Answered { secs } => if secs >= 30 {
            "エンジン：未確認（最終応答 "@ + text::decimal(secs as nat) + " 秒前）"@
        } else {
            "エンジン：応答 OK（"@ + text::decimal(secs as nat) + " 秒前）"@
        },
    }
}

fn health_line(h: EngineHealth) -> (r: String)
    ensures
        r@ == health_text(h),
{
    match h {
        EngineHealth::Busy => "エンジン：処理中（状態取得を省略）".to_owned(),
        EngineHealth::NotConnected => "エンジン：未接続／初期化中".to_owned(),
        EngineHealth::Failed => "エンジン：直近の通信／処理でエラー".to_owned(),
        EngineHealth::Answered { secs } => {
            let n = decimal_text(secs);
            if secs >= 30 {
                concat3("エンジン：未確認（最終応答 ", n.as_str(), " 秒前）")
            } else {
                concat3("エンジン：応答 OK（", n.as_str(), " 秒前）")
            }
        },
    }
}

/// The lines of the menu.
pub open spec fn menu_lines(
    health: EngineHealth,
    dict: bool,
    model: bool,
    speed: Option<(u64, u64, Seq<char>)>,
) -> Seq<Seq<char>> {
    let known = seq![
        health_text(health),
        "辞書（最終確認）："@ + (if dict {
            "読み込み済み"@
        } else {
            "未準備"@
        }),
        "モデル（最終確認）："@ + (if model {
            "準備完了"@
        } else {
            "未準備"@
        }),
    ];
    match speed {
        Some((ms, count, when)) => known.push(
            "直近のモデル生成："@ + text::decimal(ms as nat) + " ms・"@ + text::decimal(
                count as nat,
            ) + "文字（"@ + speed_text(ms) + "）"@,
        ).push("生成の記録時刻："@ + when),
        None => known.push("モデル生成速度：未計測／ログに記録なし"@),
    }
}

/// The lines of the menu. `log` is the end of the engine's log, where it could be
/// read.
pub fn lines(health: EngineHealth, readiness: (bool, bool), log: Option<&str>) -> (r: Vec<String>)
    ensures
        text::texts(r@) == menu_lines(
            health,
            readiness.0,
            readiness.1,
            match log {
                Some(t) => last_report(text::lines(t@)),
                None => None,
            },
        ),
{
    let speed = match log {
        Some(t) => last_conversion(t),
        None => None,
    };
    let dict = concat2(
        "辞書（最終確認）：",
        if readiness.0 {
            "読み込み済み"
        } else {
            "未準備"
        },
    );
    let model = concat2(
        "モデル（最終確認）：",
        if readiness.1 {
            "準備完了"
        } else {
            "未準備"
        },
    );
    let mut result: Vec<String> = vec![health_line(health), dict, model];
    let ghost model_speed = report_model(speed);
    match speed {
        Some((ms, count, when)) => {
            let mut line = "直近のモデル生成：".to_owned();
            line.append(decimal_text(ms).as_str());
            line.append(" ms・");
            line.append(decimal_text(count).as_str());
            line.append("文字（");
            line.append(speed_label(ms));
            line.append("）");
            result.push(line);
            result.push(concat2("生成の記録時刻：", when.as_str()));
        },
        None => {
            result.push("モデル生成速度：未計測／ログに記録なし".to_owned());
        },
    }
    assert(text::texts(result@) =~= menu_lines(health, readiness.0, readiness.1, model_speed));
    result
}

// Laws

/// The newest report counts: lines behind it that report nothing do not hide it,
/// and lines before it are not looked at.
pub proof fn newest_report_counts(before: Seq<Seq<char>>, line: Seq<char>)
    ensures
        line_report(line) is Some ==> last_report(before.push(line)) == line_report(line),
        line_report(line) is None ==> last_report(before.push(line)) == last_report(before),
{
    assert(before.push(line).drop_last() =~= before);
    assert(before.push(line).last() == line);
}

/// A line without the words of a finished conversion reports nothing.
pub proof fn other_events_report_nothing(line: Seq<char>)
    requires
        !text::contains_text(line, "beam conversion done"@),
    ensures
        line_report(line) is None,
{
}

/// Only whole lines are read: a line that is still being written is left out, and so
/// is the first one of a log whose front was cut off. All others are there.
pub proof fn only_whole_lines_are_read(cut_line: Seq<char>, whole: Seq<char>, open_line: Seq<char>)
    requires
        forall|i: int| 0 <= i < cut_line.len() ==> #[trigger] cut_line[i] != '\n',
        forall|i: int| 0 <= i < open_line.len() ==> #[trigger] open_line[i] != '\n',
        whole.len() > 0 ==> whole.last() == '\n',
    ensures
        whole_lines(whole + open_line, false) == whole,
        whole_lines(cut_line.push('\n') + whole + open_line, true) == whole,
        whole_lines(cut_line, true).len() == 0,
{
    lemma_line_end(whole, open_line);
    assert((whole + open_line).subrange(0, whole.len() as int) =~= whole);
    let front = cut_line.push('\n');
    let all = front + whole + open_line;
    text::lemma_first_index(all, '\n');
    let j = text::first_index(all, '\n');
    assert(all[cut_line.len() as int] == '\n');
    if j < cut_line.len() {
        assert(all[j] == cut_line[j]);
    }
    assert(j == cut_line.len());
    lemma_line_end(front + whole, open_line);
    assert((front + whole) + open_line =~= all);
    assert(last_line_end(all) == front.len() + whole.len());
    assert(all.subrange(j + 1, last_line_end(all)) =~= whole);
    text::lemma_first_index(cut_line, '\n');
    lemma_line_end(Seq::empty(), cut_line);
    assert(Seq::<char>::empty() + cut_line =~= cut_line);
}

proof fn lemma_line_end(whole: Seq<char>, open_line: Seq<char>)
    requires
        forall|i: int| 0 <= i < open_line.len() ==> #[trigger] open_line[i] != '\n',
        whole.len() > 0 ==> whole.last() == '\n',
    ensures
        last_line_end(whole + open_line) == whole.len(),
    decreases open_line.len(),
{
    let all = whole + open_line;
    if open_line.len() == 0 {
        assert(all =~= whole);
    } else {
        let shorter = open_line.drop_last();
        assert forall|i: int| 0 <= i < shorter.len() implies #[trigger] shorter[i] != '\n' by {
            assert(shorter[i] == open_line[i]);
        }
        lemma_line_end(whole, shorter);
        assert(all.drop_last() =~= whole + shorter);
        assert(all.last() == open_line[open_line.len() - 1]);
    }
}

/// A number that stands behind its key is found, the first one where there are more;
/// a word with another key is passed over.
pub proof fn numbers_are_found_behind_their_key(
    key: Seq<char>,
    n: u64,
    word: Seq<char>,
    rest: Seq<Seq<char>>,
)
    ensures
        value_of(key + text::decimal(n as nat), key) == Some(n),
        first_value(seq![key + text::decimal(n as nat)] + rest, key) == Some(n),
        !key.is_prefix_of(word) ==> value_of(word, key) is None && first_value(
            seq![word] + rest,
            key,
        ) == first_value(rest, key),
        first_value(Seq::empty(), key) is None,
{
    let d = text::decimal(n as nat);
    let w = key + d;
    text::written_numbers_are_read(n, key, 'a', key);
    assert(w.subrange(0, key.len() as int) =~= key);
    assert(key.is_prefix_of(w));
    assert(w.skip(key.len() as int) =~= d);
    assert((seq![w] + rest)[0] == w);
    assert((seq![word] + rest)[0] == word);
    assert((seq![word] + rest).skip(1) =~= rest);
}

/// A line that tells of a finished conversion reports its time and its length, and
/// its first word says when.
pub proof fn finished_conversions_are_reported(line: Seq<char>, ms: u64, count: u64)
    requires
        text::contains_text(line, "beam conversion done"@),
        first_value(text::words(line), "elapsed_ms="@) == Some(ms),
        first_value(text::words(line), "reading_chars="@) == Some(count),
        text::words(line).len() > 0,
    ensures
        line_report(line) == Some((ms, count, text::words(line)[0])),
{
}

/// A log without reports gives none.
pub proof fn empty_logs_report_nothing()
    ensures
        last_report(Seq::empty()) is None,
{
}

/// Up to a fifth of a second is fast, and from a second on is slow.
pub proof fn speed_is_told_in_three_steps(a: u64, b: u64)
    ensures
        speed_text(a) == speed_text(b) <==> (a <= 200) == (b <= 200) && (a < 1000) == (b < 1000),
        a <= 200 ==> speed_text(a)[0] == '速',
        a >= 1000 ==> speed_text(a)[0] == '遅',
{
    reveal_strlit("速い目安");
    reveal_strlit("待ち時間あり");
    reveal_strlit("遅い目安");
    assert("速い目安"@[0] != "待ち時間あり"@[0]);
    assert("速い目安"@[0] != "遅い目安"@[0]);
    assert("遅い目安"@[0] != "待ち時間あり"@[0]);
}

/// An engine that answered less than half a minute ago counts as answering; after
/// that it is not known to. The seconds are told either way.
pub proof fn old_answers_do_not_count(secs: u64)
    ensures
        text::contains_text(
            health_text(EngineHealth::Answered { secs }),
            text::decimal(secs as nat),
        ),
        secs < 30 ==> "エンジン：応答 OK（"@.is_prefix_of(
            health_text(EngineHealth::Answered { secs }),
        ),
        secs >= 30 ==> "エンジン：未確認（最終応答 "@.is_prefix_of(
            health_text(EngineHealth::Answered { secs }),
        ),
{
    let d = text::decimal(secs as nat);
    let ok = "エンジン：応答 OK（"@;
    let old = "エンジン：未確認（最終応答 "@;
    let end = " 秒前）"@;
    text::patterns_occur_where_they_stand(ok, d, end, ok);
    text::patterns_occur_where_they_stand(old, d, end, ok);
    assert((ok + d + end).subrange(0, ok.len() as int) =~= ok);
    assert((old + d + end).subrange(0, old.len() as int) =~= old);
}

/// The menu tells of the engine, the dictionary and the model, each in a line of its
/// own, then of the last conversion: its time, its length and when it was.
pub proof fn the_menu_tells_what_is_known(
    health: EngineHealth,
    dict: bool,
    model: bool,
    ms: u64,
    count: u64,
    when: Seq<char>,
)
    ensures
        ({
            let some = menu_lines(health, dict, model, Some((ms, count, when)));
            let none = menu_lines(health, dict, model, None);
            &&& some.len() == 5 && none.len() == 4
            &&& some[0] == health_text(health) && none[0] == health_text(health)
            &&& some.take(3) == none.take(3)
            &&& none[1] == menu_lines(EngineHealth::Busy, dict, !model, None)[1]
            &&& none[1] != menu_lines(health, !dict, model, None)[1]
            &&& none[2] == menu_lines(EngineHealth::Busy, !dict, model, None)[2]
            &&& none[2] != menu_lines(health, dict, !model, None)[2]
            &&& text::contains_text(some[3], text::decimal(ms as nat))
            &&& text::contains_text(some[3], text::decimal(count as nat))
            &&& text::contains_text(some[3], speed_text(ms))
            &&& when.is_suffix_of(some[4])
        }),
{
    let some = menu_lines(health, dict, model, Some((ms, count, when)));
    let none = menu_lines(health, dict, model, None);
    assert(some.take(3) =~= none.take(3));
    reveal_strlit("読み込み済み");
    reveal_strlit("未準備");
    reveal_strlit("準備完了");
    let d = "辞書（最終確認）："@;
    let m = "モデル（最終確認）："@;
    assert((d + "読み込み済み"@).len() != (d + "未準備"@).len());
    assert((m + "準備完了"@).len() != (m + "未準備"@).len());
    let a = "直近のモデル生成："@;
    let x = text::decimal(ms as nat);
    let b = " ms・"@;
    let y = text::decimal(count as nat);
    let c = "文字（"@;
    let z = speed_text(ms);
    let e = "）"@;
    text::patterns_occur_where_they_stand(a, x, b + y + c + z + e, a);
    assert(some[3] =~= a + x + (b + y + c + z + e));
    text::patterns_occur_where_they_stand(a + x + b, y, c + z + e, a);
    assert(some[3] =~= a + x + b + y + (c + z + e));
    text::patterns_occur_where_they_stand(a + x + b + y + c, z, e, a);
    let w = "生成の記録時刻："@;
    assert((w + when).subrange(w.len() as int, (w + when).len() as int) =~= when);
}

}
