use rakukan_tsf::config::{AppearanceCache, ConfigManager, InputConfig};
use rakukan_tsf::edit_ops::{
    CandidateDir, LatinSource, SwitchPlan, commit_visible_composition, engine_commit_hiragana,
    engine_convert_sync_multi, has_kana, is_numeric_digit, kana_convert_source,
    latin_convert_source, numeric_separator_after_digit, on_candidate_move, on_candidate_page,
    on_candidate_select, on_composition_terminated, on_cursor_jump, on_cycle_kana,
    on_kana_convert, on_latin_convert, on_punctuate, on_segment_extend, on_segment_move_left,
    on_segment_move_right, on_segment_shrink, show_engine_preedit, switch_ime,
};
use rakukan_tsf::ime_mode::ImeMode;
use rakukan_tsf::session::{ConversionBlock, SessionState};
use rakukan_tsf::steps::Step;

fn manager() -> ConfigManager {
    let mut cache = AppearanceCache { font_height: 17, seen: None };
    ConfigManager::new(&mut cache, None, None)
}

fn show(step: &Step) -> String {
    match step {
        Step::Reclaim => "reclaim".into(),
        Step::ForcePreedit { text } => format!("force {text}"),
        Step::Commit { text } => format!("commit {text}"),
        Step::ResetPreedit => "reset".into(),
        Step::ResetAll => "reset all".into(),
        Step::PushRaw { text } => format!("push {text}"),
        Step::Learn { reading, text } => format!("learn {reading} {text}"),
        Step::LearnForce { reading, text } => format!("learn! {reading} {text}"),
        Step::StartLive { reading } => format!("live {reading}"),
        Step::BumpGeneration => "bump".into(),
        Step::SuppressCommit => "suppress".into(),
        Step::HideCandidates => "hide".into(),
        Step::StopLiveTimer => "stop live".into(),
        Step::StopWaitingTimer => "stop waiting".into(),
        Step::StartWaitingTimer => "start waiting".into(),
        Step::ClearPreviews => "clear".into(),
        Step::UpdateSelection { index, info } => format!("select {index} {info}"),
        Step::ShowCandidates { page, index, info, place, clear_status } => {
            format!("show {} {index} {info} {place:?} {clear_status}", page.join(","))
        }
        Step::SetComposition { text } => format!("set {text}"),
        Step::SetParts { prefix, candidate, remainder } => {
            format!("parts {prefix}|{candidate}|{remainder}")
        }
        Step::SetRange { chosen, rest } => format!("range {chosen}|{rest}"),
        Step::EndComposition { text } => format!("end {text}"),
        Step::CommitAndContinue { text } => format!("continue {text}"),
    }
}

fn all(steps: &[Step]) -> Vec<String> {
    steps.iter().map(show).collect()
}

fn selecting(remainder: &str, remainder_reading: &str) -> SessionState {
    let mut s = SessionState::Idle;
    s.activate_selecting_with_affixes(
        vec!["今日".into(), "教".into()],
        "きょう".into(),
        0,
        0,
        false,
        "前".into(),
        "まえ".into(),
        remainder.into(),
        remainder_reading.into(),
    );
    s
}

fn blocks() -> SessionState {
    let block = |r: &str, c: &[&str], p: Option<char>| ConversionBlock {
        reading: r.into(),
        trailing_punct: p,
        candidates: c.iter().map(|s| s.to_string()).collect(),
        selected: 0,
    };
    let mut s = SessionState::Idle;
    s.set_block_selecting(
        vec![block("あ", &["亜", "阿"], Some('、')), block("い", &["胃"], None)],
        "あ、い".into(),
    );
    s
}

#[test]
fn candidate_keys_show_what_they_choose() {
    let mut s = selecting("は", "");
    let out = on_candidate_move(&mut s, true, CandidateDir::Next);
    assert!(out.eaten);
    assert_eq!(
        all(&out.steps),
        ["select 1 ", "show 今日,教 1  None false", "parts 前|教|は"]
    );
    let out = on_candidate_page(&mut s, true, CandidateDir::Prev);
    assert_eq!(all(&out.steps), ["show 今日,教 0  None false", "parts 前|今日|は"]);

    let mut b = blocks();
    let out = on_candidate_move(&mut b, true, CandidateDir::Prev);
    assert_eq!(
        all(&out.steps),
        ["select 1 ", "show 亜,阿 1  None false", "parts |阿|、胃"]
    );
    let out = on_candidate_page(&mut b, true, CandidateDir::Next);
    assert_eq!(all(&out.steps)[2], "parts |亜|、胃");

    let mut p = SessionState::Preedit { text: "あ".into() };
    assert!(on_candidate_move(&mut p, true, CandidateDir::Next).eaten);
    assert!(!on_candidate_page(&mut p, false, CandidateDir::Next).eaten);
}

#[test]
fn taking_a_candidate_commits_and_goes_on() {
    let mgr = manager();
    let mut s = selecting("は晴れ", "ははれ");
    let out = on_candidate_select(&mut s, &mgr, Some(true), 2);
    assert_eq!(
        all(&out.steps),
        [
            "learn! きょう 教",
            "hide",
            "commit 前教",
            "reset",
            "push ははれ",
            "live ははれ",
            "continue 前教"
        ]
    );
    assert!(matches!(&s, SessionState::Preedit { text } if text == "ははれ"));

    let mut s = selecting("！", "");
    if let SessionState::Selecting { punct_pending, candidate_views, .. } = &mut s {
        *punct_pending = Some('。');
        candidate_views[0].source = rakukan_tsf::session::CandidateViewSource::Dict;
    }
    let out = on_candidate_select(&mut s, &mgr, Some(true), 1);
    assert_eq!(
        all(&out.steps),
        ["learn きょう 今日", "hide", "commit 前今日。！", "reset", "end 前今日。！"]
    );
    assert!(s.is_idle());

    let mut s = selecting("", "");
    let out = on_candidate_select(&mut s, &mgr, Some(true), 3);
    assert!(out.eaten && out.steps.is_empty() && s.is_selecting());
    assert!(!on_candidate_select(&mut s, &mgr, None, 1).eaten);
    let mut b = blocks();
    assert!(on_candidate_select(&mut b, &mgr, Some(false), 1).eaten);
    let mut idle = SessionState::Idle;
    assert!(!on_candidate_select(&mut idle, &mgr, Some(false), 1).eaten);
}

#[test]
fn switching_commits_everything_that_is_shown() {
    let mut b = blocks();
    b.block_selecting_move_next();
    let steps = commit_visible_composition(&mut b, Some("あ"));
    assert_eq!(
        all(&steps),
        ["reclaim", "commit 亜、胃", "reset", "hide", "stop live", "end 亜、胃"]
    );
    assert!(b.is_idle());
    let mut s = selecting("は", "は");
    assert_eq!(all(&commit_visible_composition(&mut s, Some("")))[1], "commit 前今日は");
    let mut r = SessionState::Idle;
    r.set_range_select("あいう".into(), 1, String::new());
    assert_eq!(all(&commit_visible_composition(&mut r, Some("x")))[5], "end あいう");
    let mut l = SessionState::Idle;
    l.set_live_conv("あ".into(), "亜".into(), "あ".into());
    assert_eq!(all(&commit_visible_composition(&mut l, Some("あ")))[1], "commit 亜");
    let mut w = SessionState::Idle;
    w.set_waiting("まつ".into(), 0, 0);
    assert_eq!(all(&commit_visible_composition(&mut w, Some("")))[1], "commit まつ");
    let mut p = SessionState::Preedit { text: "か".into() };
    assert_eq!(all(&commit_visible_composition(&mut p, Some("かn")))[1], "commit かn");
    let mut idle = SessionState::Idle;
    assert!(commit_visible_composition(&mut idle, Some("")).is_empty());
    assert!(commit_visible_composition(&mut blocks(), None).is_empty());
}

#[test]
fn digits_turn_punctuation_into_separators() {
    assert!(is_numeric_digit('0') && is_numeric_digit('９') && !is_numeric_digit('九'));
    assert_eq!(numeric_separator_after_digit("12", '、'), Some(','));
    assert_eq!(numeric_separator_after_digit("１", '。'), Some('.'));
    assert_eq!(numeric_separator_after_digit("1", '！'), None);
    assert_eq!(numeric_separator_after_digit("あ", '、'), None);
    assert_eq!(numeric_separator_after_digit("", '、'), None);
}

#[test]
fn punctuation_joins_the_text_that_is_shown() {
    let mut mgr = manager();
    let opening = ["bump", "hide", "stop live", "stop waiting"];

    let mut s = SessionState::Idle;
    s.set_live_conv("12".into(), "十二".into(), "12".into());
    let out = on_punctuate(&mut s, &mgr, Some(true), "12", '、');
    assert_eq!(all(&out.outcome.steps)[..4], opening);
    assert_eq!(all(&out.outcome.steps)[4..], ["push ,", "set 十二,"]);
    assert!(!out.await_display);
    assert_eq!(s.live_conv_parts(), Some(("12,", "十二,")));
    assert_eq!(s.live_conv_preview_for(), Some("12,"));

    mgr.current.input.digit_separator_auto = false;
    let mut b = blocks();
    let out = on_punctuate(&mut b, &mgr, Some(true), "1", '。');
    assert_eq!(all(&out.outcome.steps)[4..], ["force あ、い", "push 。", "set 亜、胃。"]);
    assert_eq!(b.live_conv_parts(), Some(("あ、い。", "亜、胃。")));

    let mut s = selecting("！", "");
    let out = on_punctuate(&mut s, &mgr, Some(true), "きょう", '、');
    assert_eq!(all(&out.outcome.steps)[4..], ["force まえきょう、！", "set 前今日、！"]);

    let mut w = SessionState::Idle;
    w.set_waiting("まつ".into(), 0, 0);
    let out = on_punctuate(&mut w, &mgr, Some(true), "まつ", '、');
    assert_eq!(all(&out.outcome.steps)[4..], ["push 、", "set まつ、"]);
    assert!(w.is_preedit());

    let mut idle = SessionState::Idle;
    let out = on_punctuate(&mut idle, &mgr, Some(false), "", '「');
    assert!(out.await_display && out.outcome.eaten);
    assert_eq!(all(&out.outcome.steps)[4..], ["push 「"]);
    let shown = show_engine_preedit(&mut idle, "「".into());
    assert_eq!(all(&shown.steps), ["set 「"]);
    assert_eq!(idle.preedit_text(), Some("「"));
    assert!(!on_punctuate(&mut idle, &mgr, None, "", '、').outcome.eaten);
}

#[test]
fn left_and_right_move_between_blocks() {
    let mut b = blocks();
    assert!(on_segment_move_left(&mut b, Some(true)).steps.is_empty());
    let out = on_segment_move_right(&mut b, Some(true));
    assert_eq!(all(&out.steps)[2], "parts 亜、|胃|");
    assert!(on_segment_move_right(&mut b, Some(false)).eaten);
    let mut p = SessionState::Preedit { text: "あ".into() };
    assert!(!on_segment_move_left(&mut p, Some(false)).eaten);
    assert!(!on_segment_move_left(&mut b, None).eaten);
}

#[test]
fn shift_arrows_choose_a_range() {
    let mut s = SessionState::Idle;
    s.set_live_conv("あいう".into(), "亜異有".into(), "あいう".into());
    let out = on_segment_shrink(&mut s, Some(true), "");
    assert_eq!(all(&out.steps), ["hide", "stop live", "reclaim", "range あい|う"]);
    assert_eq!(s.range_select_original_preview(), Some("亜異有"));
    let out = on_segment_shrink(&mut s, Some(true), "");
    assert_eq!(all(&out.steps), ["range あ|いう"]);
    assert!(on_segment_shrink(&mut s, Some(true), "").steps.is_empty());
    let out = on_segment_extend(&mut s, Some(true), "");
    assert_eq!(all(&out.steps), ["range あい|う"]);

    let mut s = selecting("", "");
    let out = on_segment_extend(&mut s, Some(true), "");
    assert_eq!(
        all(&out.steps),
        ["hide", "stop live", "reclaim", "force きょう", "range き|ょう"]
    );
    let mut p = SessionState::Preedit { text: "か".into() };
    assert!(on_segment_shrink(&mut p, Some(true), "か").steps.is_empty());
    let out = on_segment_extend(&mut p, Some(true), "か");
    assert_eq!(all(&out.steps), ["stop live", "reclaim", "range か|"]);
    let mut one = SessionState::Idle;
    one.set_live_conv("あ".into(), "亜".into(), "あ".into());
    assert_eq!(all(&on_segment_shrink(&mut one, Some(true), "").steps)[3], "range あ|");
    let mut short = SessionState::Idle;
    short.activate_selecting(vec!["亜".into()], "あ".into(), 0, 0, false);
    assert_eq!(all(&on_segment_shrink(&mut short, Some(true), "").steps)[4], "range あ|");
    let mut idle = SessionState::Idle;
    assert!(!on_segment_extend(&mut idle, Some(false), "").eaten);
    assert!(!on_segment_shrink(&mut idle, None, "").eaten);
}

#[test]
fn home_and_end_move_the_range_or_are_used_up() {
    let mut s = SessionState::Idle;
    assert!(!on_cursor_jump(&mut s, Some(false), true).eaten);
    assert!(on_cursor_jump(&mut s, Some(true), true).eaten);
    assert!(!on_cursor_jump(&mut s, None, true).eaten);
    s.set_range_select("あいう".into(), 2, String::new());
    assert_eq!(all(&on_cursor_jump(&mut s, Some(false), true).steps), ["range あいう|"]);
    assert!(on_cursor_jump(&mut s, Some(false), true).steps.is_empty());
    assert_eq!(all(&on_cursor_jump(&mut s, Some(false), false).steps), ["range あ|いう"]);
}

#[test]
fn kana_keys_give_the_text_another_form() {
    assert!(has_kana("abあ") && has_kana("ｱ") && has_kana("ア") && !has_kana("abc漢"));
    assert_eq!(kana_convert_source("ａｂ", "あぶ"), "あぶ");
    assert_eq!(kana_convert_source("ａｂ", ""), "ａｂ");
    assert_eq!(kana_convert_source("かん", "x"), "かん");
    match latin_convert_source("かn", "か", "ka") {
        LatinSource::Romaji { text } => assert_eq!(text, "kan"),
        LatinSource::Cycle { .. } => panic!("kana are shown"),
    }
    match latin_convert_source("ＡＢ", "", "") {
        LatinSource::Cycle { text } => assert_eq!(text, "ＡＢ"),
        LatinSource::Romaji { .. } => panic!("letters are shown"),
    }
    let mut s = SessionState::Idle;
    s.set_live_conv("か".into(), "蚊".into(), "か".into());
    let out = on_kana_convert(&mut s, Some("か"), "カ");
    assert_eq!(
        all(&out.steps),
        ["reclaim", "force カ", "suppress", "hide", "stop live", "set カ"]
    );
    assert_eq!(s.preedit_text(), Some("カ"));
    s.set_waiting("か".into(), 0, 0);
    assert_eq!(all(&on_latin_convert(&mut s, Some("か"), "ｋａ").steps)[4], "stop waiting");
    assert!(!on_kana_convert(&mut s, Some(""), "").eaten);
    assert!(!on_kana_convert(&mut s, None, "").eaten);
}

#[test]
fn the_kana_key_goes_round_three_forms() {
    let mut s = SessionState::Preedit { text: "か".into() };
    let mut shown = "か".to_string();
    let mut seen = Vec::new();
    for _ in 0..4 {
        let out = on_cycle_kana(&mut s, Some(&shown), "か", "カ", "ｶ");
        match out.steps.last() {
            Some(Step::SetComposition { text }) => shown = text.clone(),
            _ => panic!("the text is shown"),
        }
        seen.push(shown.clone());
    }
    assert_eq!(seen, ["カ", "ｶ", "か", "カ"]);
}

#[test]
fn small_helpers_fall_back_to_the_text_itself() {
    assert_eq!(engine_convert_sync_multi(vec![], "か"), ["か"]);
    assert_eq!(engine_convert_sync_multi(vec!["蚊".into()], "か"), ["蚊"]);
    let mut s = SessionState::Idle;
    s.set_waiting("か".into(), 0, 0);
    let steps = engine_commit_hiragana(&mut s, Some("か")).unwrap();
    assert_eq!(all(&steps), ["reclaim", "commit か", "reset", "end か"]);
    assert!(s.is_idle());
    assert!(engine_commit_hiragana(&mut s, None).is_none());
    assert!(engine_commit_hiragana(&mut s, Some("")).unwrap().is_empty());
    let mut b = blocks();
    assert_eq!(
        all(&on_composition_terminated(&mut b)),
        ["hide", "stop live", "reclaim", "reset all"]
    );
    assert!(b.is_idle());
}

#[test]
fn modes_that_are_not_enabled_are_not_entered() {
    let mut input = InputConfig::default();
    assert_eq!(switch_ime(&input, true, ImeMode::HalfKatakana), None);
    input.half_katakana_mode_enabled = true;
    assert_eq!(
        switch_ime(&input, true, ImeMode::HalfKatakana),
        Some(SwitchPlan {
            commit_first: true,
            mode: ImeMode::HalfKatakana,
            show_indicator: true
        })
    );
    assert!(!switch_ime(&input, false, ImeMode::Off).unwrap().commit_first);
}
