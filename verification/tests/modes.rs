use rakukan_tsf::action::UserAction;
use rakukan_tsf::direct_modes::{
    Buffer, DirectStep, KanaInput, direct_mode_typed, finish_direct_mode, handle_direct_mode,
    to_full_width,
};
use rakukan_tsf::ime_mode::ImeMode;
use rakukan_tsf::reconversion::{
    MAX_CANDIDATES, Original, SelectionRead, begin, begin_shown, cancel, cancelled,
    range_text, reconversion_candidates, selected, selection_usable, shortcut, still_selected, valid_text,
};
use rakukan_tsf::session::SessionState;
use rakukan_tsf::steps::Step;

fn kana(shown: &str, output: &str, pending: &str) -> KanaInput {
    KanaInput {
        shown: shown.into(),
        output: output.into(),
        pending: pending.into(),
    }
}

#[test]
fn full_alphanumeric_preserves_case_and_converts_digits_symbols_space() {
    let mut b = Buffer::new(0, ImeMode::FullAlphanumeric);
    for c in "Abc12! ".chars() {
        b.push(c);
    }
    assert_eq!(b.text(), "Ａｂｃ１２！　");
    b.backspace();
    assert_eq!(b.finish(""), "Ａｂｃ１２！");
}

#[test]
fn half_katakana_typing_backspace_and_pending_n() {
    let mut b = Buffer::new(0, ImeMode::HalfKatakana);
    for c in "gakkou".chars() {
        assert_eq!(b.push(c), Some(c));
    }
    b.set_kana(kana("ｶﾞｯｺｳ", "ｶﾞｯｺｳ", ""));
    assert_eq!(b.text(), "ｶﾞｯｺｳ");
    assert!(b.backspace());
    b.set_kana(kana("ｶﾞｯｺ", "ｶﾞｯｺ", ""));
    assert_eq!(b.text(), "ｶﾞｯｺ");
    assert_eq!(b.push('n'), Some('n'));
    b.set_kana(kana("ｶﾞｯｺn", "ｶﾞｯｺ", "n"));
    assert!(b.holds_pending_n());
    assert_eq!(b.finish(""), "ｶﾞｯｺﾝ");
    b.set_kana(kana("ｶﾞｯｺk", "ｶﾞｯｺ", "k"));
    assert_eq!(b.finish("ｶﾞｯｺｸ"), "ｶﾞｯｺｸ");
    assert_eq!(b.push('K'), Some('k'));
}

#[test]
fn wide_forms_cover_the_printable_characters() {
    assert_eq!(to_full_width('~'), '～');
    assert_eq!(to_full_width('!'), '！');
    assert_eq!(to_full_width('é'), 'é');
    assert_eq!(to_full_width('あ'), 'あ');
}

#[test]
fn direct_typing_composes_and_commits() {
    let mut s = SessionState::Idle;
    let mut slot: Option<Buffer> = None;
    let mode = ImeMode::FullAlphanumeric;
    let step = handle_direct_mode(&mut s, &mut slot, &UserAction::Input('a'), 7, mode);
    assert!(matches!(step, DirectStep::Typed { restart: true, feed: None, take_back: false }));
    let out = direct_mode_typed(&mut s, slot.as_mut().unwrap(), None);
    assert!(out.eaten && matches!(&out.steps[2], Step::SetComposition { text } if text == "ａ"));
    let step = handle_direct_mode(&mut s, &mut slot, &UserAction::Convert, 7, mode);
    assert!(matches!(step, DirectStep::Typed { restart: false, .. }));
    direct_mode_typed(&mut s, slot.as_mut().unwrap(), None);
    assert_eq!(s.preedit_text(), Some("ａ　"));
    let step = handle_direct_mode(&mut s, &mut slot, &UserAction::CursorLeft, 7, mode);
    assert!(matches!(step, DirectStep::Done { outcome } if outcome.eaten));
    assert!(matches!(
        handle_direct_mode(&mut s, &mut slot, &UserAction::CommitRaw, 7, mode),
        DirectStep::Commit
    ));
    let steps = finish_direct_mode(&mut s, &mut slot, 7, "");
    assert!(matches!(&steps[0], Step::EndComposition { text } if text == "ａ　"));
    assert!(s.is_idle() && slot.is_none());
}

#[test]
fn emptied_and_cancelled_texts_end_the_composition() {
    let mode = ImeMode::FullAlphanumeric;
    let mut s = SessionState::Idle;
    let mut slot: Option<Buffer> = None;
    for action in [UserAction::CommitRaw, UserAction::Cancel, UserAction::Backspace] {
        let step = handle_direct_mode(&mut s, &mut slot, &action, 1, mode);
        assert!(matches!(step, DirectStep::Done { outcome } if !outcome.eaten));
    }
    handle_direct_mode(&mut s, &mut slot, &UserAction::Input('x'), 1, mode);
    direct_mode_typed(&mut s, slot.as_mut().unwrap(), None);
    handle_direct_mode(&mut s, &mut slot, &UserAction::Backspace, 1, mode);
    let out = direct_mode_typed(&mut s, slot.as_mut().unwrap(), None);
    assert!(s.is_idle());
    assert!(matches!(&out.steps[2], Step::EndComposition { text } if text.is_empty()));
    handle_direct_mode(&mut s, &mut slot, &UserAction::Input('y'), 1, mode);
    direct_mode_typed(&mut s, slot.as_mut().unwrap(), None);
    let step = handle_direct_mode(&mut s, &mut slot, &UserAction::CancelAll, 1, mode);
    assert!(matches!(step, DirectStep::Done { outcome } if outcome.eaten));
    assert!(s.is_idle() && slot.is_none());
    assert!(matches!(
        handle_direct_mode(&mut s, &mut slot, &UserAction::ImeToggle, 1, mode),
        DirectStep::Switch { mode: ImeMode::Off }
    ));
    assert!(matches!(
        handle_direct_mode(&mut s, &mut slot, &UserAction::ImeOn, 1, mode),
        DirectStep::Switch { mode: ImeMode::On }
    ));
}

#[test]
fn text_typed_in_one_document_stays_there() {
    let mode = ImeMode::FullAlphanumeric;
    let mut s = SessionState::Idle;
    let mut slot: Option<Buffer> = None;
    handle_direct_mode(&mut s, &mut slot, &UserAction::Input('a'), 1, mode);
    direct_mode_typed(&mut s, slot.as_mut().unwrap(), None);
    let step = handle_direct_mode(&mut s, &mut slot, &UserAction::Input('b'), 2, mode);
    assert!(matches!(step, DirectStep::Typed { restart: true, .. }));
    assert_eq!(slot.as_ref().unwrap().text(), "ｂ");
    assert!(finish_direct_mode(&mut s, &mut slot, 3, "").is_empty());
    assert!(slot.is_none());
}

#[test]
fn ignored_keys_do_not_bring_back_text_of_another_document() {
    let mode = ImeMode::HalfKatakana;
    let mut s = SessionState::Idle;
    let mut slot: Option<Buffer> = None;
    let step = handle_direct_mode(&mut s, &mut slot, &UserAction::Input('k'), 1, mode);
    assert!(matches!(step, DirectStep::Typed { restart: true, feed: Some('k'), .. }));
    direct_mode_typed(&mut s, slot.as_mut().unwrap(), Some(kana("k", "", "k")));
    let step = handle_direct_mode(&mut s, &mut slot, &UserAction::Input('a'), 1, mode);
    assert!(matches!(step, DirectStep::Typed { restart: false, feed: Some('a'), .. }));
    direct_mode_typed(&mut s, slot.as_mut().unwrap(), Some(kana("ｶ", "ｶ", "")));

    for _ in 0..2 {
        let step = handle_direct_mode(&mut s, &mut slot, &UserAction::CursorLeft, 2, mode);
        assert!(matches!(step, DirectStep::Done { outcome } if outcome.eaten));
        assert_eq!(slot.as_ref().unwrap().text(), "");
    }
    let step = handle_direct_mode(&mut s, &mut slot, &UserAction::Input('n'), 2, mode);
    assert!(matches!(step, DirectStep::Typed { restart: true, feed: Some('n'), .. }));
    let out = direct_mode_typed(&mut s, slot.as_mut().unwrap(), Some(kana("n", "", "n")));
    assert!(matches!(&out.steps[2], Step::SetComposition { text } if text == "n"));
    let steps = finish_direct_mode(&mut s, &mut slot, 2, "ｶ");
    assert!(matches!(&steps[0], Step::EndComposition { text } if text == "ﾝ"));
}

#[test]
fn a_text_that_nothing_was_typed_into_is_committed_empty() {
    let mode = ImeMode::HalfKatakana;
    let mut s = SessionState::Idle;
    let mut slot: Option<Buffer> = None;
    handle_direct_mode(&mut s, &mut slot, &UserAction::Input('a'), 1, mode);
    direct_mode_typed(&mut s, slot.as_mut().unwrap(), Some(kana("ｱ", "ｱ", "")));
    handle_direct_mode(&mut s, &mut slot, &UserAction::CursorRight, 2, mode);
    let steps = finish_direct_mode(&mut s, &mut slot, 2, "ｱ");
    assert!(matches!(&steps[0], Step::EndComposition { text } if text.is_empty()));
    let step = handle_direct_mode(&mut s, &mut slot, &UserAction::Input('i'), 2, mode);
    assert!(matches!(step, DirectStep::Typed { restart: true, .. }));
}

#[test]
fn reject_empty_multiline_and_oversized_selections() {
    assert!(valid_text("橋"));
    assert!(valid_text("日本の橋"));
    assert!(!valid_text(""));
    assert!(!valid_text("日本\n橋"));
    assert!(!valid_text(&"あ".repeat(129)));
}

#[test]
fn selections_are_read_with_care() {
    assert!(valid_text(&"あ".repeat(128)));
    assert!(!valid_text("a\u{85}b"));
    let read = |read_only, fetched, text: &str| SelectionRead {
        read_only,
        fetched,
        text: text.into(),
    };
    assert!(selection_usable(&read(false, 1, "橋")));
    assert!(!selection_usable(&read(true, 1, "橋")));
    assert!(!selection_usable(&read(false, 0, "橋")));
    assert!(!selection_usable(&read(false, 1, "")));
    assert_eq!(range_text(&[0x6A4B]).as_deref(), Some("橋"));
    assert_eq!(range_text(&[0x6A4B, 0x0A]), None);
    assert_eq!(range_text(&[0xD800]), None);
    assert!(selected(false, &SessionState::Idle));
    assert!(!selected(true, &SessionState::Idle));
    assert!(still_selected(true, false, "橋", "橋", 0, 0));
    assert!(!still_selected(true, false, "橋", "橋", 0, 1));
    assert!(!still_selected(true, false, "端", "橋", 0, 0));
    assert!(!still_selected(false, false, "橋", "橋", 0, 0));
    assert!(shortcut(0x1c, false, false, false));
    assert!(!shortcut(0x1c, true, false, false));
    assert!(shortcut(0x52, true, true, false));
    assert!(!shortcut(0x52, true, true, true));
}

#[test]
fn readings_take_turns_in_the_candidates() {
    let groups = vec![
        vec!["橋".to_string(), "端".to_string(), "箸".to_string()],
        vec!["脚".to_string(), "端".to_string()],
    ];
    assert_eq!(reconversion_candidates("橋", &groups), ["橋", "脚", "端", "箸"]);
    let many = vec![(0..50).map(|i| format!("a{i}")).collect::<Vec<_>>(); 1];
    let one = reconversion_candidates("x", &many);
    assert_eq!(one.len(), 41);
    let wide: Vec<Vec<String>> =
        (0..3).map(|g| (0..40).map(|i| format!("{g}-{i}")).collect()).collect();
    let all = reconversion_candidates("x", &wide);
    assert_eq!(all.len(), MAX_CANDIDATES);
    assert_eq!(all[1..4], ["0-0", "1-0", "2-0"]);
}

#[test]
fn a_new_conversion_offers_the_text_itself_first() {
    let mut s = SessionState::Idle;
    let readings = vec!["はし".to_string()];
    let groups = vec![vec!["端".to_string()]];
    assert!(begin(&s, "橋", &vec![], &vec![]).is_none());
    let plan = begin(&s, "橋", &readings, &groups).unwrap();
    assert_eq!(plan.reading, "はし");
    assert_eq!(plan.candidates, ["橋", "端"]);
    assert_eq!(plan.steps.len(), 6);
    let steps = begin_shown(&mut s, plan.reading, plan.candidates, 1, 2, true);
    assert_eq!(steps.len(), 2);
    assert!(matches!(
        &steps[0],
        Step::ShowCandidates { index: 0, place: Some((1, 2)), clear_status: false, .. }
    ));
    assert_eq!(s.current_candidate(), Some("橋"));
    assert_eq!(s.current_candidate_view().unwrap().source.as_str(), "reconversion");
    assert!(begin(&s, "橋", &readings, &groups).is_none());

    let mut original = Some(Original { composition: 9, text: "橋".into() });
    assert_eq!(cancel(&original, Some(9)).as_deref(), Some("橋"));
    assert_eq!(cancel(&original, Some(8)), None);
    assert_eq!(cancel(&original, None), None);
    let steps = cancelled(&mut s, &mut original);
    assert!(s.is_idle() && original.is_none());
    assert_eq!(steps.len(), 4);
}
