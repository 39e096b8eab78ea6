use rakukan_tsf::action::UserAction;
use rakukan_tsf::ai::{
    AiKey, Config, ConfigCache, EnterIntent, KeySpec, PollStep, ProgramState, Reply,
    RequestFailure, RequestStep, RomajiOp, Session, TargetState, begin, capture_allowed, commit,
    config, enter_intent, key, key_flushes, poll, refresh_geometry_due, reject, render,
    request_json, request_step, shortcut, start, take_reply, text_of_range,
};
use rakukan_tsf::ai_place::{LineWalk, caret_usable, utf16_units};
use rakukan_tsf::rect::Rect;
use rakukan_tsf::wrap::wrap;

fn reply(text: &str, append: bool) -> Reply {
    Reply {
        text: text.into(),
        append,
        elapsed_ms: 67,
        error: None,
        language: "english".into(),
    }
}

fn session() -> Session {
    begin("晴れ").unwrap().0
}

#[test]
fn wrapping_preserves_unicode() {
    assert_eq!(wrap("あいうえ\nabc", 2), vec!["あい", "うえ", "ab", "c"]);
}

#[test]
fn missing_config_does_not_override_henkan() {
    assert!(!Config::default().enabled);
    assert_eq!(Config::default().key, "Henkan");
}

#[test]
fn enter_never_accepts_a_result_after_typing_or_while_generating() {
    assert_eq!(enter_intent(false, true, false), EnterIntent::Accept);
    assert_eq!(enter_intent(true, true, false), EnterIntent::Generate);
    assert_eq!(enter_intent(true, false, true), EnterIntent::Generate);
    assert_eq!(enter_intent(false, false, true), EnterIntent::Wait);
    assert_eq!(enter_intent(false, false, false), EnterIntent::Generate);
}

#[test]
fn rejecting_result_preserves_correction_context_and_cancels_old_request() {
    let mut s = Session {
        target: None,
        instruction: String::new(),
        result: Some(Reply {
            text: "Previous English".into(),
            append: false,
            elapsed_ms: 1,
            error: None,
            language: "english".into(),
        }),
        previous: String::new(),
        last_instruction: "えいご".into(),
        append: false,
        language: "english".into(),
        busy: false,
        cancel: false,
        message: String::new(),
        page: 2,
    };
    reject(&mut s);
    assert!(s.result.is_none());
    assert!(s.cancel);
    assert_eq!(s.previous, "Previous English");
    assert_eq!(s.last_instruction, "えいご");
    assert_eq!(s.language, "english");
    assert!(!s.append);
    assert_eq!(s.page, 0);
}

#[test]
fn wrapping_keeps_empty_lines_and_line_ends() {
    assert_eq!(wrap("a\n\nb\n", 3), vec!["a", "", "b"]);
    assert_eq!(wrap("ab\r\ncdef", 3), vec!["ab", "cde", "f"]);
    assert!(wrap("", 3).is_empty());
    assert_eq!(wrap("abcdefg", 3).concat(), "abcdefg");
}

#[test]
fn requests_are_json_objects_with_every_key() {
    let text = request_json("晴\"れ", "えいご", "rain", true, "english");
    assert_eq!(
        text,
        r#"{"append":true,"instruction":"えいご","language":"english","previous":"rain","text":"晴\"れ"}"#
    );
    let value: serde_json::Value = serde_json::from_str(&text).unwrap();
    assert_eq!(value["text"], "晴\"れ");
    assert_eq!(value["append"], true);
}

#[test]
fn blank_text_starts_no_session() {
    assert!(begin("").is_none());
    assert!(begin(" 　\n").is_none());
    let (s, request) = begin("晴れ").unwrap();
    assert!(s.busy && s.append && s.language == "japanese");
    let value: serde_json::Value = serde_json::from_str(&request).unwrap();
    assert_eq!(value["text"], "晴れ");
    assert_eq!(value["instruction"], "");
    assert!(capture_allowed(false, false));
    assert!(!capture_allowed(true, false));
    assert!(!capture_allowed(false, true));
    assert_eq!(text_of_range(&[0x41; 8192]).unwrap().len(), 8192);
    assert_eq!(text_of_range(&[0x41; 8193]), None);
    assert_eq!(text_of_range(&[0xD842, 0xDFB7]).as_deref(), Some("𠮷"));
    assert_eq!(text_of_range(&[0xD842]), None);
}

#[test]
fn settings_are_looked_up_twice_a_second_at_most() {
    let mut cache = ConfigCache { stamp: None, config: Config::default(), checked_ms: 0 };
    let on = Config { enabled: true, key: "F9".into() };
    config(&mut cache, 500, Some(1), Some(on.clone()));
    assert!(!cache.config.enabled);
    config(&mut cache, 501, Some(1), Some(on.clone()));
    assert!(cache.config.enabled);
    config(&mut cache, 2_000, Some(1), None);
    assert!(cache.config.enabled);
    config(&mut cache, 3_000, Some(2), None);
    assert!(!cache.config.enabled && cache.config.key == "Henkan");
    let spec = Some(KeySpec { vk: 0x78, ctrl: true, shift: false, alt: false });
    assert!(shortcut(true, spec, 0x78, true, false, false));
    assert!(!shortcut(true, spec, 0x78, true, true, false));
    assert!(!shortcut(false, spec, 0x78, true, false, false));
    assert!(!shortcut(true, None, 0x78, true, false, false));
}

#[test]
fn replies_are_shown_and_failures_only_tell_why() {
    let mut s = session();
    take_reply(&mut s, Err("通信".into()));
    assert!(!s.busy && s.message == "通信" && s.result.is_none());
    start(&mut s);
    let mut failed = reply("x", true);
    failed.error = Some("失敗".into());
    take_reply(&mut s, Ok(failed));
    assert_eq!(s.message, "失敗");
    assert!(s.result.is_none() && s.append);
    take_reply(&mut s, Ok(reply("sunny", false)));
    assert_eq!(s.message, "67 ms ・Enter 採用・文字入力 補正・Tab 別候補");
    assert!(!s.append && s.language == "english");
    let drawing = render(&s, "");
    assert_eq!(drawing.text, "sunny");
    assert!(drawing.replace && !drawing.busy && !drawing.editing);
    assert_eq!(poll(false), PollStep::Cancel);
    assert_eq!(poll(true), PollStep::Continue);
}

#[test]
fn keys_edit_the_instruction() {
    let mut s = session();
    take_reply(&mut s, Ok(reply("sunny", false)));
    assert!(matches!(
        key(&mut s, 0x41, Some(UserAction::Input('a')), "", ""),
        AiKey::Draw { romaji: RomajiOp::Push { c: 'a' } }
    ));
    assert!(s.result.is_none() && s.previous == "sunny");
    assert!(matches!(
        key(&mut s, 0x20, None, "あ", "亜"),
        AiKey::Draw { romaji: RomajiOp::Reset }
    ));
    assert_eq!(s.instruction, "亜");
    assert_eq!(render(&s, "い").text, "亜い");
    assert!(render(&s, "い").editing);
    assert!(matches!(
        key(&mut s, 0x08, None, "い", ""),
        AiKey::Draw { romaji: RomajiOp::Backspace }
    ));
    assert_eq!(s.instruction, "亜");
    assert!(matches!(
        key(&mut s, 0x08, None, "", ""),
        AiKey::Draw { romaji: RomajiOp::Keep }
    ));
    assert_eq!(s.instruction, "");
    s.instruction = "あ".repeat(2000);
    assert!(matches!(
        key(&mut s, 0x41, Some(UserAction::Input('a')), "", ""),
        AiKey::Draw { romaji: RomajiOp::Keep }
    ));
    s.instruction = "あ".repeat(1999);
    assert!(matches!(
        key(&mut s, 0x41, Some(UserAction::InputRaw('a')), "bc", ""),
        AiKey::Draw { romaji: RomajiOp::Push { .. } }
    ));
    assert_eq!(render(&s, "").text.chars().count(), 120);
    assert!(key_flushes(0x0d) && key_flushes(0x20) && !key_flushes(0x08));
}

#[test]
fn enter_and_tab_ask_again_or_accept() {
    let mut s = session();
    assert!(matches!(
        key(&mut s, 0x0d, None, "", ""),
        AiKey::Draw { romaji: RomajiOp::Keep }
    ));
    assert!(matches!(key(&mut s, 0x09, None, "", ""), AiKey::Draw { .. }));
    s.instruction = "えい".into();
    match key(&mut s, 0x0d, None, "ご", "") {
        AiKey::Generate { request, romaji: RomajiOp::Reset } => {
            let value: serde_json::Value = serde_json::from_str(&request).unwrap();
            assert_eq!(value["instruction"], "えいご");
        }
        _ => panic!("a request is sent"),
    }
    assert!(s.busy && s.instruction.is_empty());
    assert_eq!(render(&s, "x").text, "えいご");
    take_reply(&mut s, Ok(reply("sunny", false)));
    match key(&mut s, 0x09, None, "", "") {
        AiKey::Generate { request, .. } => {
            let value: serde_json::Value = serde_json::from_str(&request).unwrap();
            assert_eq!(value["previous"], "sunny");
        }
        _ => panic!("another result is asked for"),
    }
    take_reply(&mut s, Ok(reply("fine", false)));
    assert!(matches!(key(&mut s, 0x0d, None, "", ""), AiKey::Accept));
    assert_eq!(commit(s).as_deref(), Some("fine"));
    let mut a = session();
    take_reply(&mut a, Ok(reply("です", true)));
    assert_eq!(commit(a).as_deref(), Some("晴れです"));
    assert_eq!(commit(session()), None);
    assert!(matches!(key(&mut session(), 0x1b, None, "", ""), AiKey::Cancel));
}

#[test]
fn results_are_read_page_by_page() {
    let mut s = session();
    take_reply(&mut s, Ok(reply(&"あ".repeat(24 * 7), true)));
    assert_eq!(render(&s, "").text.lines().count(), 5);
    key(&mut s, 0x22, None, "", "");
    assert_eq!(s.page, 1);
    assert_eq!(render(&s, "").text.lines().count(), 2);
    key(&mut s, 0x22, None, "", "");
    assert_eq!(s.page, 1);
    key(&mut s, 0x21, None, "", "");
    key(&mut s, 0x21, None, "", "");
    assert_eq!(s.page, 0);
}

#[test]
fn documents_that_have_changed_are_left_alone() {
    let fine = TargetState {
        focused: true,
        text_unchanged: true,
        read_only: false,
        composed: false,
        same_composition: false,
        start_offset: 0,
        end_offset: 0,
    };
    assert!(fine.may_replace() && fine.is_unchanged());
    assert!(!TargetState { focused: false, ..fine }.may_replace());
    assert!(!TargetState { text_unchanged: false, ..fine }.may_replace());
    assert!(!TargetState { read_only: true, ..fine }.may_replace());
    assert!(!TargetState { end_offset: 1, ..fine }.may_replace());
    assert!(!TargetState { composed: true, ..fine }.is_unchanged());
    assert!(TargetState { composed: true, same_composition: true, ..fine }.may_replace());
    assert!(!refresh_geometry_due(1_000, 1_239));
    assert!(refresh_geometry_due(1_000, 1_240));
}

#[test]
fn lines_are_found_by_halving() {
    let rect = |left, top, right, bottom| Rect { left, top, right, bottom };
    let text: Vec<char> = "ab𠮷d".chars().collect();
    let units = utf16_units(&text);
    assert_eq!(units, [1, 1, 2, 1]);
    let mut walk = LineWalk::new(units, 20);
    let first = walk.ask().unwrap();
    assert_eq!((first.from, first.to, first.skip_units, first.trim_units), (0, 4, 0, 0));
    assert!(walk.answer(rect(0, 0, 40, 45), false));
    let left = walk.ask().unwrap();
    assert_eq!((left.from, left.to, left.skip_units, left.trim_units), (0, 2, 0, 3));
    assert!(walk.answer(rect(0, 0, 20, 20), false));
    let right = walk.ask().unwrap();
    assert_eq!((right.from, right.to, right.skip_units, right.trim_units), (2, 4, 2, 0));
    assert!(walk.answer(rect(0, 20, 40, 50), false));
    assert!(walk.ask().is_none());
    assert_eq!(walk.lines, [rect(0, 0, 20, 20), rect(0, 20, 40, 50)]);

    let mut joined = LineWalk::new(vec![1, 1], 10);
    joined.answer(rect(0, 0, 9, 30), false);
    joined.answer(rect(5, 0, 9, 10), false);
    joined.answer(rect(1, 0, 5, 10), false);
    assert_eq!(joined.lines, [rect(1, 0, 9, 10)]);

    let mut clipped = LineWalk::new(vec![1], 10);
    assert!(!clipped.answer(rect(0, 0, 5, 5), true));
    assert!(caret_usable(false, &rect(0, 0, 1, 5)));
    assert!(!caret_usable(false, &rect(0, 5, 1, 5)));
    assert!(!caret_usable(true, &rect(0, 0, 1, 5)));
}

#[test]
fn requests_end_in_time() {
    assert_eq!(request_step(false, 610_000, ProgramState::Running), RequestStep::Wait);
    assert_eq!(
        request_step(false, 610_001, ProgramState::Exited),
        RequestStep::Stop { failure: RequestFailure::Cancelled }
    );
    assert_eq!(
        request_step(true, 0, ProgramState::Running),
        RequestStep::Stop { failure: RequestFailure::Cancelled }
    );
    assert_eq!(request_step(false, 5, ProgramState::Exited), RequestStep::ReadReply);
    assert_eq!(
        request_step(false, 5, ProgramState::Lost),
        RequestStep::Stop { failure: RequestFailure::ProcessEnded }
    );
    assert_eq!(RequestFailure::SendFailed.text(), "AI要求を送信できませんでした。");
    assert_eq!(RequestFailure::Cancelled.text(), "AI生成をキャンセルしました。");
}
