use rakukan_tsf::config::{AppearanceCache, ConfigManager};
use rakukan_tsf::learning::{is_candidate_learning_target, should_learn_and_log};
use rakukan_tsf::live::{
    ends_with_pending_romaji, is_live_conversion_reading_ready, live_bg_start_n_cands,
    reading_ready_with_min_chars, start_live_bg_if_ready,
};
use rakukan_tsf::session::CandidateViewSource;

fn manager() -> ConfigManager {
    let mut cache = AppearanceCache { font_height: 17, seen: None };
    ConfigManager::new(&mut cache, None, None)
}

#[test]
fn live_conversion_reading_ready_starts_at_min_chars() {
    assert!(!reading_ready_with_min_chars("", 3));
    assert!(!reading_ready_with_min_chars("あ", 3));
    assert!(!reading_ready_with_min_chars("あい", 3));
    assert!(reading_ready_with_min_chars("あいう", 3));
    assert!(!reading_ready_with_min_chars("あいう", 4));
    assert!(reading_ready_with_min_chars("あいうえ", 4));
}

#[test]
fn live_conversion_reading_ready_counts_chars_not_bytes() {
    assert!(reading_ready_with_min_chars("漢字仮", 3));
}

#[test]
fn pending_romaji_tail_blocks_live_bg() {
    assert!(ends_with_pending_romaji("ぁr"));
    assert!(ends_with_pending_romaji("cd"));
    assert!(ends_with_pending_romaji("c"));
    assert!(ends_with_pending_romaji("きょうのてんきはn"));
}

#[test]
fn kana_or_vowel_tail_allows_live_bg() {
    assert!(!ends_with_pending_romaji("きょう"));
    assert!(!ends_with_pending_romaji(""));
    assert!(!ends_with_pending_romaji("hello"));
    assert!(!ends_with_pending_romaji("2024"));
}

#[test]
fn punctuation_starts_the_count_anew() {
    let mgr = manager();
    let kuten = ['、', '。'];
    assert!(is_live_conversion_reading_ready(&mgr, "きょう"));
    assert_eq!(live_bg_start_n_cands(&mgr, "きょうは", &kuten), Some(1));
    assert_eq!(live_bg_start_n_cands(&mgr, "きょうは、", &kuten), None);
    assert_eq!(live_bg_start_n_cands(&mgr, "きょうは、また", &kuten), None);
    assert_eq!(live_bg_start_n_cands(&mgr, "きょうは、またあした", &kuten), Some(1));
    assert_eq!(live_bg_start_n_cands(&mgr, "きょうはk", &kuten), None);
}

#[test]
fn a_preview_can_come_from_the_dictionary_alone() {
    let merged = vec!["".to_string(), "きょう".to_string(), "今日".to_string()];
    assert!(start_live_bg_if_ready(Some(1), true, &vec![], "きょう"));
    assert!(start_live_bg_if_ready(Some(1), false, &merged, "きょう"));
    assert!(!start_live_bg_if_ready(Some(1), false, &merged[..2].to_vec(), "きょう"));
    assert!(!start_live_bg_if_ready(None, true, &merged, "きょう"));
}

#[test]
fn only_trusted_sources_are_learned() {
    let mut mgr = manager();
    assert!(is_candidate_learning_target(CandidateViewSource::Bg));
    assert!(is_candidate_learning_target(CandidateViewSource::Dict));
    assert!(is_candidate_learning_target(CandidateViewSource::LivePreview));
    assert!(!is_candidate_learning_target(CandidateViewSource::Preedit));
    assert!(!is_candidate_learning_target(CandidateViewSource::Fallback));
    assert!(!is_candidate_learning_target(CandidateViewSource::Reconversion));
    assert!(should_learn_and_log(&mgr, "きょう", "今日", None));
    assert!(should_learn_and_log(&mgr, "きょう", "今日", Some(CandidateViewSource::Bg)));
    assert!(!should_learn_and_log(&mgr, "きょう", "今日", Some(CandidateViewSource::Fallback)));
    assert!(!should_learn_and_log(&mgr, "きょう", "きょう", None));
    mgr.current.input.auto_learn = false;
    assert!(!should_learn_and_log(&mgr, "きょう", "今日", None));
}
