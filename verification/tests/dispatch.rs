use rakukan_tsf::action::UserAction;
use rakukan_tsf::config::InputConfig;
use rakukan_tsf::dispatch::{
    Ask, BgStatus, EngineGlance, Handler, KanaForm, PreviewEntry, handle_action,
    handle_action_after_direct, handle_action_after_preview, handle_action_after_selecting_take,
    handle_action_after_waiting_take, handle_action_with_engine, route,
};
use rakukan_tsf::edit_ops::CandidateDir;
use rakukan_tsf::engine_slot::Watchdog;
use rakukan_tsf::ime_mode::ImeMode;
use rakukan_tsf::session::SessionState;
use rakukan_tsf::steps::Step;

fn glance(hiragana: &str, preedit: &str, bg: &str) -> EngineGlance {
    EngineGlance {
        hiragana: hiragana.into(),
        preedit: preedit.into(),
        bg: BgStatus::parse(bg),
    }
}

fn preview() -> PreviewEntry {
    PreviewEntry {
        preview: "田".into(),
        reading: "た".into(),
        gen_when_requested: 3,
        session_nonce_at_request: 8,
    }
}

#[test]
fn direct_modes_are_asked_first() {
    let mut input = InputConfig::default();
    assert!(matches!(handle_action(ImeMode::On, &input), Ask::Engine));
    assert!(matches!(handle_action(ImeMode::HalfKatakana, &input), Ask::LeaveDirect));
    input.half_katakana_mode_enabled = true;
    assert!(matches!(handle_action(ImeMode::HalfKatakana, &input), Ask::RunDirect));
    assert!(matches!(handle_action_after_direct(None), Ask::Engine));
    assert!(matches!(
        handle_action_after_direct(Some(true)),
        Ask::Finish { outcome } if outcome.eaten && outcome.steps.is_empty()
    ));
}

#[test]
fn waiting_previews_are_shown_with_what_is_not_kana_yet() {
    let mut w = Watchdog::new();
    let g = glance("た", "たt", "idle");
    let entry = preview();
    let mut s = SessionState::Preedit { text: "た".into() };
    let (ask, restart) = handle_action_with_engine(
        &mut s, &mut w, &UserAction::Input('a'), None, Some(&g), Some(&entry), 3, 8, 0,
    );
    assert!(!restart);
    match ask {
        Ask::ShowPreview { text } => assert_eq!(text, "田t"),
        _ => panic!("the preview is shown"),
    }
    assert_eq!(s.live_conv_parts(), Some(("た", "田")));
    let (ask, _) =
        handle_action_after_preview(&s, &mut w, &UserAction::Input('a'), None, Some(g.bg), 0);
    assert!(matches!(ask, Ask::Route { handler: Handler::Input { c: 'a' } }));
    let (ask, _) = handle_action_after_preview(&s, &mut w, &UserAction::Input('a'), None, None, 0);
    assert!(matches!(ask, Ask::Finish { outcome } if !outcome.eaten));
}

#[test]
fn previews_that_were_not_seen_are_never_committed() {
    for (action, gen, nonce, reading) in [
        (UserAction::CommitRaw, 3, 8, "た"),
        (UserAction::Convert, 4, 8, "た"),
        (UserAction::Convert, 3, 9, "た"),
        (UserAction::Convert, 3, 8, "ち"),
    ] {
        let mut w = Watchdog::new();
        let mut s = SessionState::Preedit { text: reading.into() };
        let g = glance(reading, reading, "idle");
        let entry = preview();
        let (ask, _) = handle_action_with_engine(
            &mut s, &mut w, &action, None, Some(&g), Some(&entry), gen, nonce, 0,
        );
        assert!(matches!(ask, Ask::Route { .. }));
        assert!(s.is_preedit());
    }
}

#[test]
fn arrived_candidates_complete_a_shown_list() {
    let mut w = Watchdog::new();
    let mut s = SessionState::Idle;
    s.activate_selecting(vec!["き".into()], "きょう".into(), 0, 0, true);
    let g = glance("きょう", "きょう", "done");
    let (ask, _) = handle_action_with_engine(
        &mut s, &mut w, &UserAction::CandidateNext, None, Some(&g), None, 0, 0, 0,
    );
    match ask {
        Ask::TakeForSelecting { key } => assert_eq!(key, "きょう"),
        _ => panic!("candidates have arrived"),
    }
    let mut kept = s.clone();
    assert!(matches!(
        handle_action_after_selecting_take(&mut kept, &UserAction::CandidateNext, None, None),
        Ask::Route { handler: Handler::CandidateMove { dir: CandidateDir::Next } }
    ));
    let merged = Some(vec!["今日".to_string(), "教".to_string()]);
    match handle_action_after_selecting_take(&mut s, &UserAction::CandidateNext, None, merged) {
        Ask::Finish { outcome } => {
            assert!(outcome.eaten);
            assert_eq!(outcome.steps.len(), 2);
            assert!(matches!(
                &outcome.steps[1],
                Step::SetParts { candidate, .. } if candidate == "今日"
            ));
        }
        _ => panic!("the list is shown"),
    }
    let (ask, _) = handle_action_with_engine(
        &mut s, &mut w, &UserAction::CandidateNext, None, Some(&g), None, 0, 0, 0,
    );
    assert!(matches!(ask, Ask::Route { .. }));
}

#[test]
fn awaited_candidates_open_a_list_with_the_rest_behind_it() {
    let mut w = Watchdog::new();
    let mut s = SessionState::Idle;
    s.set_waiting_with_affixes("きょう".into(), 5, 6, "はれ".into(), "はれ".into());
    let g = glance("きょうはれ", "きょうはれ", "done");
    let (ask, _) = handle_action_with_engine(
        &mut s, &mut w, &UserAction::Cancel, None, Some(&g), None, 0, 0, 0,
    );
    assert!(matches!(ask, Ask::Route { handler: Handler::Cancel }));
    let (ask, _) = handle_action_with_engine(
        &mut s, &mut w, &UserAction::Convert, None, Some(&g), None, 0, 0, 0,
    );
    assert!(matches!(ask, Ask::TakeForWaiting { key } if key == "きょう"));
    let mut empty = s.clone();
    assert!(matches!(
        handle_action_after_waiting_take(&mut empty, &mut w, &UserAction::Convert, None, Some(vec![])),
        Ask::Route { handler: Handler::Convert }
    ));
    assert!(empty.is_waiting());
    match handle_action_after_waiting_take(
        &mut s, &mut w, &UserAction::Convert, None, Some(vec!["今日".into()]),
    ) {
        Ask::Finish { outcome } => {
            assert!(matches!(&outcome.steps[0], Step::StopWaitingTimer));
            assert!(matches!(
                &outcome.steps[1],
                Step::ShowCandidates { place: Some((5, 6)), clear_status: true, .. }
            ));
            assert!(matches!(
                &outcome.steps[2],
                Step::SetParts { candidate, remainder, .. }
                    if candidate == "今日" && remainder == "はれ"
            ));
        }
        _ => panic!("the list is shown"),
    }
    assert_eq!(s.selecting_remainder_reading_clone(), "はれ");
}

#[test]
fn a_hung_conversion_restarts_the_engine_while_it_is_awaited() {
    let mut w = Watchdog::new();
    let mut s = SessionState::Idle;
    s.set_waiting("きょう".into(), 0, 0);
    let g = glance("きょう", "きょう", "running");
    let mut look = |w: &mut Watchdog, now: u64| {
        handle_action_with_engine(
            &mut s, w, &UserAction::Convert, None, Some(&g), None, 0, 0, now,
        )
        .1
    };
    assert!(!look(&mut w, 10));
    assert!(!look(&mut w, 40));
    assert!(look(&mut w, 41));
    let (ask, _) = handle_action_with_engine(
        &mut SessionState::Idle, &mut w, &UserAction::Convert, None, None, None, 0, 0, 0,
    );
    assert!(matches!(ask, Ask::Finish { outcome } if !outcome.eaten));
}

#[test]
fn every_action_has_its_handler() {
    assert_eq!(route(&UserAction::Input('、'), Some('、')), Handler::Punctuate { c: '、' });
    assert_eq!(route(&UserAction::InputRaw('x'), None), Handler::InputRaw { c: 'x' });
    assert_eq!(route(&UserAction::CancelAll, None), Handler::Cancel);
    assert_eq!(route(&UserAction::Katakana, None), Handler::Kana { form: KanaForm::Katakana });
    assert_eq!(route(&UserAction::HalfLatin, None), Handler::Latin { full: false });
    assert_eq!(route(&UserAction::CursorRight, None), Handler::BlockFocus { forward: true });
    assert_eq!(route(&UserAction::CursorEnd, None), Handler::CursorJump { to_end: true });
    assert_eq!(route(&UserAction::CandidateSelect(4), None), Handler::CandidateSelect { n: 4 });
    assert_eq!(route(&UserAction::ImeToggle, None), Handler::SwitchIme);
    assert_eq!(route(&UserAction::Other, None), Handler::Nobody);
}
