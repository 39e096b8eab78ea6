use rakukan_tsf::session::{
    CandidateView, CandidateViewSource, ConversionBlock, SessionState, session_is_selecting_fast,
};

fn conv_block(reading: &str, candidate: &str, punct: Option<char>) -> ConversionBlock {
    ConversionBlock {
        reading: reading.to_string(),
        trailing_punct: punct,
        candidates: vec![candidate.to_string()],
        selected: 0,
    }
}

fn two_block_session() -> SessionState {
    let mut sess = SessionState::Idle;
    sess.set_block_selecting(
        vec![
            conv_block("いちどにできるときと", "一度にできる時と", Some('、')),
            conv_block("さいごまで", "最後まで", None),
        ],
        "いちどにできるときと、さいごまで".to_string(),
    );
    sess
}

fn list_of(n: usize) -> SessionState {
    let mut s = SessionState::default();
    s.activate_selecting(
        (1..=n).map(|i| format!("候補{i}")).collect(),
        "こうほ".into(),
        10,
        20,
        true,
    );
    s
}

#[test]
fn block_selecting_focus_moves_both_ways_and_stops_at_ends() {
    let mut sess = two_block_session();
    assert!(!sess.block_selecting_move_prev());
    assert_eq!(
        sess.block_selecting_composition_parts(),
        Some((
            String::new(),
            "一度にできる時と".to_string(),
            "、最後まで".to_string()
        ))
    );
    assert!(sess.block_selecting_move_next());
    assert_eq!(
        sess.block_selecting_composition_parts(),
        Some((
            "一度にできる時と、".to_string(),
            "最後まで".to_string(),
            String::new()
        ))
    );
    assert!(!sess.block_selecting_move_next());
    assert!(sess.block_selecting_move_prev());
    assert_eq!(sess.block_selecting_index_of(), Some((0, 2)));
}

#[test]
fn block_selecting_full_text_is_independent_of_focus() {
    let mut sess = two_block_session();
    let expected = Some("一度にできる時と、最後まで".to_string());
    assert_eq!(sess.block_selecting_full_text(), expected);
    assert!(sess.block_selecting_move_next());
    assert_eq!(sess.block_selecting_full_text(), expected);
    let (prefix, cand, remainder) = sess.block_selecting_composition_parts().unwrap();
    assert_eq!(Some(format!("{prefix}{cand}{remainder}")), expected);
}

#[test]
fn sync_preedit_reading_updates_stale_text() {
    let mut s = SessionState::Preedit {
        text: "いまわのきわ".to_string(),
    };
    s.sync_preedit_reading("いまは");
    assert!(matches!(&s, SessionState::Preedit { text } if text == "いまは"));
}

#[test]
fn sync_preedit_reading_goes_idle_on_empty() {
    let mut s = SessionState::Preedit {
        text: "いまわのきわ".to_string(),
    };
    s.sync_preedit_reading("");
    assert!(matches!(s, SessionState::Idle));
}

#[test]
fn range_select_home_end_move_boundary_to_bounds() {
    let mut s = SessionState::Idle;
    s.set_range_select("あいうえお".to_string(), 3, String::new());
    assert_eq!(
        s.range_select_parts(),
        Some(("あいう".to_string(), "えお".to_string()))
    );

    assert!(s.range_select_to_start(), "Home で先頭 1 文字へ");
    assert_eq!(
        s.range_select_parts(),
        Some(("あ".to_string(), "いうえお".to_string()))
    );
    assert!(!s.range_select_to_start(), "既に先頭なら変化なし");

    assert!(s.range_select_to_end(), "End で全選択へ");
    assert_eq!(
        s.range_select_parts(),
        Some(("あいうえお".to_string(), String::new()))
    );
    assert!(!s.range_select_to_end(), "既に末尾なら変化なし");
}

#[test]
fn range_select_home_end_ignore_other_states() {
    let mut preedit = SessionState::Preedit {
        text: "あい".to_string(),
    };
    assert!(!preedit.range_select_to_start());
    assert!(!preedit.range_select_to_end());
    assert!(matches!(preedit, SessionState::Preedit { .. }));
}

#[test]
fn sync_preedit_reading_leaves_other_states_untouched() {
    let mut idle = SessionState::Idle;
    idle.sync_preedit_reading("あいう");
    assert!(matches!(idle, SessionState::Idle));

    let mut live = SessionState::LiveConv {
        reading: "よみ".to_string(),
        preview: "読み".to_string(),
        preview_for: "よみ".to_string(),
    };
    live.sync_preedit_reading("あいう");
    assert!(matches!(&live, SessionState::LiveConv { reading, .. } if reading == "よみ"));
}

#[test]
fn replace_selecting_candidates_preserves_selected_index() {
    let mut state = SessionState::Preedit {
        text: String::new(),
    };
    state.activate_selecting(
        vec!["候補1".into(), "候補2".into(), "候補3".into()],
        "こうほ".into(),
        0,
        0,
        true,
    );
    state.next_with_page_wrap();

    state.replace_selecting_candidates(
        vec!["更新1".into(), "更新2".into(), "更新3".into()],
        CandidateViewSource::Bg,
    );

    assert_eq!(state.current_candidate(), Some("更新2"));
    assert_eq!(state.page_selected(), 1);
}

#[test]
fn replace_selecting_candidates_clamps_selected_index() {
    let mut state = SessionState::Preedit {
        text: String::new(),
    };
    state.activate_selecting(
        vec!["候補1".into(), "候補2".into(), "候補3".into()],
        "こうほ".into(),
        0,
        0,
        true,
    );
    state.next_with_page_wrap();
    state.next_with_page_wrap();

    state.replace_selecting_candidates(vec!["更新1".into()], CandidateViewSource::Bg);

    assert_eq!(state.current_candidate(), Some("更新1"));
    assert_eq!(state.page_selected(), 0);
}

#[test]
fn the_selecting_flag_follows_the_state() {
    let mut s = SessionState::default();
    assert!(s.is_idle());
    assert!(!session_is_selecting_fast(&s));
    s.set_preedit("あ".to_string());
    assert!(s.is_preedit() && !session_is_selecting_fast(&s));
    s.set_live_conv("あ".into(), "亜".into(), "あ".into());
    assert!(s.is_live_conv() && !session_is_selecting_fast(&s));
    assert_eq!(s.preedit_text(), Some("亜"));
    assert_eq!(s.original_preedit(), Some("あ"));
    assert_eq!(s.live_conv_parts(), Some(("あ", "亜")));
    assert_eq!(s.live_conv_preview_for(), Some("あ"));
    s.set_waiting("あ".into(), 3, 4);
    assert!(s.is_waiting() && !session_is_selecting_fast(&s));
    assert_eq!(s.waiting_info(), Some(("あ", 3, 4)));
    s.set_range_select("あい".into(), 1, "亜い".into());
    assert!(s.is_range_select() && session_is_selecting_fast(&s));
    assert_eq!(s.range_select_original_preview(), Some("亜い"));
    let s = list_of(2);
    assert!(s.is_selecting() && s.is_candidate_list_active() && session_is_selecting_fast(&s));
    let s = two_block_session();
    assert!(s.is_block_selecting() && s.is_candidate_list_active());
    assert!(session_is_selecting_fast(&s));
    assert_eq!(s.block_selecting_full_reading().as_deref(), Some("いちどにできるときと、さいごまで"));
}

#[test]
fn pages_wrap_round_and_show_their_number() {
    let mut s = list_of(20);
    assert_eq!(s.total_pages(), 3);
    assert_eq!(s.page_info(), "1/3");
    for _ in 0..9 {
        s.next_with_page_wrap();
    }
    assert_eq!((s.current_page(), s.page_selected()), (1, 0));
    assert_eq!(s.current_candidate(), Some("候補10"));
    assert_eq!(s.page_candidates()[s.page_selected()], "候補10");
    s.prev();
    assert_eq!(s.current_candidate(), Some("候補9"));
    s.prev_page();
    assert_eq!(s.current_candidate(), Some("候補19"));
    assert_eq!(s.page_candidates(), vec!["候補19".to_string(), "候補20".to_string()]);
    s.next_page();
    assert_eq!(s.current_candidate(), Some("候補1"));
    assert!(s.select_nth_in_page(9));
    assert_eq!(s.current_candidate(), Some("候補9"));
    assert!(!s.select_nth_in_page(0));
    s.prev_page();
    assert!(!s.select_nth_in_page(3));
    let one = list_of(3);
    assert_eq!(one.page_info(), "");
    let none = list_of(0);
    assert_eq!((none.total_pages(), none.current_candidate()), (0, None));
    assert!(none.page_candidates().is_empty());
}

#[test]
fn one_step_forward_and_one_back_meet_again() {
    for n in 1..25 {
        let mut s = list_of(n);
        for i in 0..n {
            let here = s.current_candidate().unwrap().to_string();
            assert_eq!(here, format!("候補{}", i + 1));
            s.next_with_page_wrap();
            s.prev();
            assert_eq!(s.current_candidate(), Some(here.as_str()));
            s.next_with_page_wrap();
        }
        assert_eq!(s.current_candidate(), Some("候補1"));
    }
}

#[test]
fn the_chosen_candidate_can_be_replaced() {
    let mut s = list_of(3);
    s.next_with_page_wrap();
    s.replace_current_candidate_view(CandidateView::compatible(
        "別".into(),
        3,
        CandidateViewSource::Dict,
    ));
    assert_eq!(s.current_candidate(), Some("別"));
    assert_eq!(s.current_candidate_view().unwrap().source.as_str(), "dict");
    s.rebuild_selecting_candidate_views(CandidateViewSource::Fallback);
    assert_eq!(s.current_candidate(), Some("別"));
    assert_eq!(s.current_candidate_view().unwrap().source, CandidateViewSource::Fallback);
    assert_eq!(s.current_candidate_view().unwrap().corresponding_reading_len, 3);
}

#[test]
fn affixes_are_kept_and_handed_out_once() {
    let mut s = SessionState::Idle;
    s.activate_selecting_with_affixes(
        vec!["今日".into()],
        "きょう".into(),
        1,
        2,
        false,
        "前".into(),
        "まえ".into(),
        "は晴れ".into(),
        "ははれ".into(),
    );
    assert_eq!(s.selecting_prefix_clone(), "前");
    assert_eq!(s.selecting_prefix_reading_clone(), "まえ");
    assert_eq!(s.selecting_remainder_clone(), "は晴れ");
    assert_eq!(s.selecting_remainder_reading_clone(), "ははれ");
    assert_eq!(s.current_candidate_view().unwrap().suffix, "は晴れ");
    assert_eq!(s.take_punct_pending(), None);
    if let SessionState::Selecting { punct_pending, .. } = &mut s {
        *punct_pending = Some('。');
    }
    assert_eq!(s.take_punct_pending(), Some('。'));
    assert_eq!(s.take_punct_pending(), None);
    assert_eq!(s.take_selecting_remainder(), "は晴れ");
    assert_eq!(s.take_selecting_remainder(), "");
    s.clear_llm_pending();
    assert!(matches!(&s, SessionState::Selecting { llm_pending: false, .. }));
}

#[test]
fn blocks_cycle_through_their_candidates() {
    let mut s = SessionState::Idle;
    let mut block = conv_block("あ", "亜", Some('。'));
    block.candidates.push("阿".into());
    s.set_block_selecting(vec![block, conv_block("い", "胃", None)], "あ。い".into());
    assert_eq!(s.block_selecting_current_candidate(), Some("亜"));
    s.block_selecting_next();
    assert_eq!(s.block_selecting_current_candidate(), Some("阿"));
    assert_eq!(s.block_selecting_page_selected(), 1);
    s.block_selecting_next();
    assert_eq!(s.block_selecting_current_candidate(), Some("亜"));
    s.block_selecting_prev();
    assert_eq!(s.block_selecting_full_text().as_deref(), Some("阿。胃"));
    assert!(s.block_selecting_select_nth(1));
    assert!(!s.block_selecting_select_nth(3));
    assert!(!s.block_selecting_select_nth(0));
    assert_eq!(s.block_selecting_page_candidates(), vec!["亜".to_string(), "阿".to_string()]);

    let mut empty = SessionState::Idle;
    let no_candidates = ConversionBlock {
        reading: "か".into(),
        trailing_punct: Some('！'),
        candidates: vec![],
        selected: 0,
    };
    empty.set_block_selecting(vec![no_candidates], "か！".into());
    empty.block_selecting_next();
    assert_eq!(empty.block_selecting_full_text().as_deref(), Some("か！"));
}

#[test]
fn long_candidate_rows_show_nine_of_a_block() {
    let mut s = SessionState::Idle;
    let block = ConversionBlock {
        reading: "よみ".into(),
        trailing_punct: None,
        candidates: (0..12).map(|i| format!("c{i}")).collect(),
        selected: 11,
    };
    s.set_block_selecting(vec![block], "よみ".into());
    assert_eq!(s.block_selecting_page_candidates().len(), 9);
    assert_eq!(s.block_selecting_page_selected(), 8);
}

#[test]
fn ranges_grow_and_shrink_inside_the_reading() {
    let mut s = SessionState::Idle;
    s.set_range_select("あいう".into(), 1, String::new());
    assert!(!s.range_select_shrink());
    assert!(s.range_select_extend());
    assert!(s.range_select_extend());
    assert!(!s.range_select_extend());
    let (chosen, rest) = s.range_select_parts().unwrap();
    assert_eq!(format!("{chosen}{rest}"), "あいう");
    assert!(s.range_select_shrink());
    assert_eq!(s.range_select_parts(), Some(("あい".to_string(), "う".to_string())));
}
