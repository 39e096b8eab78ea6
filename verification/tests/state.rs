use rakukan_tsf::composition::{
    CompositionWrapper, composition_clone, composition_set, composition_set_with_dm,
    composition_take, dispose_dm_resources, invalidate_composition_for_dm,
};
use rakukan_tsf::config::{DefaultImeMode, InputConfig};
use rakukan_tsf::doc_mode::{
    IMEState, ModeStore, doc_mode_on_focus_change, doc_mode_remember_current, doc_mode_remove,
    is_terminal_class, is_terminal_hwnd,
};
use rakukan_tsf::engine_slot::{
    EngineAccess, EngineSlot, InitStep, LoadPlan, ReloadStep, Watchdog, bg_timeout_watchdog,
    engine_force_recreate, engine_reload, engine_reload_compared, engine_reload_ended,
    engine_reload_force, engine_start_bg_init, engine_try_get_or_create, gpu_adapter_index,
    gpu_memory_mb, init_thread_finished, init_thread_should_connect, maybe_log_gpu_memory,
};
use rakukan_tsf::ime_mode::{ImeMode, ModeCell, ime_mode_get_atomic, ime_mode_set_atomic};
use rakukan_tsf::ime_sync::{apply, foreground_root_hwnd, on_set_focus};
use rakukan_tsf::pending_keys::{PendingKeys, drain_pending_keys, push_pending_key};
use rakukan_tsf::readiness::{
    DICT_WAIT_WARN_MS, Readiness, dict_wait_should_warn, is_conversion_ready, langbar_update_take,
    last_observed_readiness, loading_indicator_symbol, note_dict_not_ready,
    poll_dict_ready_cached, poll_model_ready_cached, ready_reset_elapsed_ms, reset_ready_latches,
};

#[test]
fn warns_once_after_threshold() {
    assert!(
        !dict_wait_should_warn(0, 100_000, false),
        "未観測なら出さない"
    );
    assert!(!dict_wait_should_warn(
        1_000,
        1_000 + DICT_WAIT_WARN_MS - 1,
        false
    ));
    assert!(dict_wait_should_warn(
        1_000,
        1_000 + DICT_WAIT_WARN_MS,
        false
    ));
    assert!(
        !dict_wait_should_warn(1_000, 1_000 + DICT_WAIT_WARN_MS * 2, true),
        "2 回目は出さない"
    );
}

#[test]
fn optional_modes_are_independently_disabled_by_default() {
    let mut input = InputConfig::default();
    assert!(!ImeMode::HalfKatakana.allowed(&input));
    assert!(!ImeMode::FullAlphanumeric.allowed(&input));
    input.half_katakana_mode_enabled = true;
    assert!(ImeMode::HalfKatakana.allowed(&input));
    assert!(!ImeMode::FullAlphanumeric.allowed(&input));
    input.full_alphanumeric_mode_enabled = true;
    assert!(ImeMode::FullAlphanumeric.allowed(&input));
    assert!(ImeMode::On.allowed(&input) && ImeMode::Off.allowed(&input));
}

#[test]
fn modes_read_back_from_their_cell() {
    let mut cell = ModeCell::new();
    assert_eq!(ime_mode_get_atomic(&cell), ImeMode::On);
    for mode in [ImeMode::On, ImeMode::Off, ImeMode::HalfKatakana, ImeMode::FullAlphanumeric] {
        ime_mode_set_atomic(&mut cell, mode);
        assert_eq!(ime_mode_get_atomic(&cell), mode);
    }
    assert_eq!(ImeMode::default(), ImeMode::On);
    assert_eq!(ImeMode::Off.toggled(), ImeMode::On);
    assert_eq!(ImeMode::FullAlphanumeric.toggled(), ImeMode::Off);
    assert_eq!(ImeMode::HalfKatakana.label(), "ｶ");
    assert_eq!(ImeMode::Off.name(), "Off");
    assert!(ImeMode::HalfKatakana.is_direct() && !ImeMode::On.is_direct());
    assert_eq!(ImeMode::from_open(false), ImeMode::Off);
}

#[test]
fn one_wait_brings_one_warning() {
    let mut s = Readiness::new();
    assert_eq!(note_dict_not_ready(&mut s, 1_000), None);
    assert_eq!(note_dict_not_ready(&mut s, 30_999), None);
    assert_eq!(note_dict_not_ready(&mut s, 31_000), Some(30));
    assert_eq!(note_dict_not_ready(&mut s, 90_000), None);
}

#[test]
fn readiness_follows_the_latest_look() {
    let mut s = Readiness::new();
    reset_ready_latches(&mut s, 500);
    assert_eq!(ready_reset_elapsed_ms(&s, 700), Some(200));
    let r = poll_dict_ready_cached(&mut s, false, true, 900);
    assert!(r.ready);
    assert_eq!(r.ready_after_ms, Some(400));
    assert!(langbar_update_take(&mut s));
    assert!(!langbar_update_take(&mut s));
    assert!(is_conversion_ready(&s));
    assert_eq!(poll_dict_ready_cached(&mut s, true, false, 950).ready_after_ms, None);
    let m = poll_model_ready_cached(&mut s, true, 1_500);
    assert_eq!(m.ready_after_ms, Some(1_000));
    assert_eq!(last_observed_readiness(&s), (true, true));
    assert_eq!(ready_reset_elapsed_ms(&s, 2_000), None);
    let lost = poll_dict_ready_cached(&mut s, false, false, 3_000);
    assert!(!lost.ready && lost.warn_after_secs.is_none());
    assert!(langbar_update_take(&mut s));
    assert!(!is_conversion_ready(&s));
    let late = poll_dict_ready_cached(&mut s, false, false, 3_000 + DICT_WAIT_WARN_MS);
    assert_eq!(late.warn_after_secs, Some(30));
}

#[test]
fn the_loading_sign_grows_more_serious() {
    assert_eq!(loading_indicator_symbol(None).0, "⏳");
    assert_eq!(loading_indicator_symbol(Some(9_999)).0, "⏳");
    assert_eq!(loading_indicator_symbol(Some(10_000)).0, "⌛");
    assert_eq!(loading_indicator_symbol(Some(30_000)).0, "⚠");
    assert_eq!(loading_indicator_symbol(Some(60_000)), ("✕", "エンジン起動失敗の可能性"));
}

#[test]
fn pending_keys_come_back_in_order() {
    let mut keys: PendingKeys<u8> = PendingKeys::new();
    push_pending_key(&mut keys, 'a', 1, false);
    push_pending_key(&mut keys, 'b', 2, true);
    assert_eq!(drain_pending_keys(&mut keys), vec![('a', 1, false), ('b', 2, true)]);
    assert!(drain_pending_keys(&mut keys).is_empty());
}

#[test]
fn the_engine_is_started_once_and_again_after_a_failure() {
    let mut slot: EngineSlot<&str> = EngineSlot::new();
    let mut ready = Readiness::new();
    assert_eq!(
        engine_try_get_or_create(&mut slot, true),
        EngineAccess::NotReady { step: InitStep::Spawn }
    );
    assert_eq!(
        engine_try_get_or_create(&mut slot, true),
        EngineAccess::NotReady { step: InitStep::Nothing }
    );
    assert_eq!(engine_try_get_or_create(&mut slot, false), EngineAccess::Busy);
    assert!(init_thread_should_connect(&slot));
    assert_eq!(init_thread_finished(&mut slot, &mut ready, None), None);
    assert_eq!(engine_start_bg_init(&mut slot, None), InitStep::Spawn);
    assert_eq!(
        init_thread_finished(&mut slot, &mut ready, Some(("engine", false, true))),
        Some(LoadPlan { dict: true, model: false })
    );
    assert!(langbar_update_take(&mut ready));
    assert_eq!(engine_try_get_or_create(&mut slot, true), EngineAccess::Ready);
    assert_eq!(
        engine_start_bg_init(&mut slot, Some((true, false))),
        InitStep::Load { plan: LoadPlan { dict: false, model: true } }
    );
    engine_force_recreate(&mut slot);
    assert!(slot.engine.0.is_none());
    assert_eq!(
        engine_try_get_or_create(&mut slot, true),
        EngineAccess::NotReady { step: InitStep::Spawn }
    );
}

#[test]
fn reloading_spares_an_engine_with_the_same_settings() {
    let mut slot: EngineSlot<&str> = EngineSlot::new();
    let mut ready = Readiness::new();
    assert_eq!(
        engine_reload(&mut slot, &mut ready, 5),
        ReloadStep::StartInit { step: InitStep::Spawn }
    );
    init_thread_finished(&mut slot, &mut ready, Some(("engine", true, true)));
    assert_eq!(engine_reload(&mut slot, &mut ready, 6), ReloadStep::ShutdownIfConfigDiffers);
    assert_eq!(engine_reload_force(&mut slot, &mut ready, 6), ReloadStep::Shutdown);
    assert_eq!(engine_reload_compared(Some(false)), ReloadStep::KeepRunning);
    assert_eq!(engine_reload_compared(Some(true)), ReloadStep::DropHandle);
    assert_eq!(engine_reload_compared(None), ReloadStep::Shutdown);
    poll_dict_ready_cached(&mut ready, false, true, 6);
    engine_reload_ended(&mut slot, &mut ready, 7);
    assert!(slot.engine.0.is_none() && !slot.init_started);
    assert_eq!(last_observed_readiness(&ready), (false, false));
    assert_eq!(ready_reset_elapsed_ms(&ready, 9), Some(2));
}

#[test]
fn a_stuck_conversion_restarts_the_engine_in_time() {
    let mut w = Watchdog::new();
    assert!(!bg_timeout_watchdog(&mut w, true, 100));
    assert!(!bg_timeout_watchdog(&mut w, true, 125));
    assert!(!bg_timeout_watchdog(&mut w, true, 130));
    assert_eq!(w.since_secs, Some(100));
    assert!(bg_timeout_watchdog(&mut w, true, 131));
    assert_eq!(w.since_secs, None);
    assert!(!bg_timeout_watchdog(&mut w, true, 200));
    assert!(!bg_timeout_watchdog(&mut w, false, 210));
    assert!(!bg_timeout_watchdog(&mut w, true, 240));
}

#[test]
fn graphics_memory_is_reported_now_and_then() {
    let mut last = 0;
    assert!(!maybe_log_gpu_memory(&mut last, false, "CUDA", 16, 50_000));
    assert!(!maybe_log_gpu_memory(&mut last, true, "Cpu", 16, 50_000));
    assert!(!maybe_log_gpu_memory(&mut last, true, "CUDA", 0, 50_000));
    assert!(maybe_log_gpu_memory(&mut last, true, "CUDA", 16, 50_000));
    assert!(!maybe_log_gpu_memory(&mut last, true, "CUDA", 16, 79_999));
    assert!(maybe_log_gpu_memory(&mut last, true, "CUDA", 16, 80_000));
    assert_eq!(gpu_adapter_index(-1), 0);
    assert_eq!(gpu_adapter_index(2), 2);
    assert_eq!(gpu_memory_mb(3 << 20, 5 << 20), (3, 5, 2));
    assert_eq!(gpu_memory_mb(5 << 20, 3 << 20), (5, 3, 0));
}

#[test]
fn stale_compositions_are_not_handed_out() {
    let mut slot: CompositionWrapper<String> = CompositionWrapper::new();
    assert!(composition_set_with_dm(&mut slot, Some("c".to_string()), 7));
    assert_eq!(composition_clone(&slot).as_deref(), Some("c"));
    invalidate_composition_for_dm(&mut slot, 0);
    invalidate_composition_for_dm(&mut slot, 8);
    assert_eq!(composition_clone(&slot).as_deref(), Some("c"));
    invalidate_composition_for_dm(&mut slot, 7);
    assert_eq!(composition_clone(&slot), None);
    assert_eq!(composition_take(&mut slot), None);
    assert!(slot.comp.is_none() && !slot.stale);
    assert!(composition_set(&mut slot, Some("d".to_string())));
    assert_eq!(composition_take(&mut slot).as_deref(), Some("d"));
    assert!(!composition_set(&mut slot, None));
}

#[test]
fn modes_return_with_the_focus_and_survive_new_document_managers() {
    let mut store = ModeStore::new();
    let cfg = InputConfig::default();
    assert_eq!(
        doc_mode_on_focus_change(&mut store, &cfg, ImeMode::On, 0, 1, 100, false),
        Some(ImeMode::Off)
    );
    doc_mode_remember_current(&mut store, 1, 100, ImeMode::On);
    assert_eq!(
        doc_mode_on_focus_change(&mut store, &cfg, ImeMode::On, 1, 2, 200, true),
        Some(ImeMode::Off)
    );
    assert_eq!(
        doc_mode_on_focus_change(&mut store, &cfg, ImeMode::Off, 2, 1, 100, false),
        Some(ImeMode::On)
    );
    doc_mode_remove(&mut store, 1);
    assert_eq!(
        doc_mode_on_focus_change(&mut store, &cfg, ImeMode::On, 0, 3, 100, false),
        Some(ImeMode::On)
    );
    assert_eq!(doc_mode_on_focus_change(&mut store, &cfg, ImeMode::On, 3, 0, 0, false), None);
}

#[test]
fn forgetful_settings_apply_the_default_each_time() {
    let mut store = ModeStore::new();
    let mut cfg = InputConfig::default();
    cfg.remember_last_kana_mode = false;
    cfg.default_mode = DefaultImeMode::On;
    assert_eq!(
        doc_mode_on_focus_change(&mut store, &cfg, ImeMode::Off, 0, 1, 10, false),
        Some(ImeMode::On)
    );
    assert_eq!(
        doc_mode_on_focus_change(&mut store, &cfg, ImeMode::Off, 1, 2, 10, true),
        Some(ImeMode::Off)
    );
    assert_eq!(
        doc_mode_on_focus_change(&mut store, &cfg, ImeMode::Off, 2, 1, 10, false),
        Some(ImeMode::On)
    );
}

#[test]
fn terminals_are_known_by_their_class() {
    assert!(is_terminal_class("CASCADIA_HOSTING_WINDOW_CLASS"));
    assert!(is_terminal_class("mintty"));
    assert!(!is_terminal_class("Notepad"));
    assert!(is_terminal_hwnd(5, Some("ConsoleWindowClass")));
    assert!(!is_terminal_hwnd(0, Some("ConsoleWindowClass")));
    assert!(!is_terminal_hwnd(5, None));
}

#[test]
fn documents_that_go_away_take_their_composition_along() {
    let mut store = ModeStore::new();
    let mut slot: CompositionWrapper<u8> = CompositionWrapper::new();
    doc_mode_remember_current(&mut store, 4, 40, ImeMode::HalfKatakana);
    composition_set_with_dm(&mut slot, Some(1), 4);
    let mut dropped = 0;
    dispose_dm_resources(&mut store, &mut slot, 4, |dm| dropped = dm);
    assert_eq!(dropped, 4);
    assert_eq!(composition_clone(&slot), None);
    let cfg = InputConfig::default();
    assert_eq!(
        doc_mode_on_focus_change(&mut store, &cfg, ImeMode::On, 0, 5, 40, false),
        Some(ImeMode::HalfKatakana)
    );
}

#[test]
fn a_switch_reaches_every_place_at_once() {
    let mut state = IMEState::new();
    let mut cell = ModeCell::new();
    let mut store = ModeStore::new();
    let mut ready = Readiness::new();
    let input = InputConfig::default();
    let plan = apply(
        &mut state, true, &mut cell, &mut store, &mut ready, &input, 1, 10, ImeMode::Off, true,
        true,
    );
    assert_eq!(plan.from, Some(ImeMode::On));
    assert!(plan.changed);
    assert_eq!(plan.write_open, Some(false));
    assert_eq!(state.ime_mode, ImeMode::Off);
    assert_eq!(ime_mode_get_atomic(&cell), ImeMode::Off);
    assert!(langbar_update_take(&mut ready));
    assert_eq!(
        doc_mode_on_focus_change(&mut store, &input, ImeMode::On, 0, 1, 10, false),
        Some(ImeMode::Off)
    );
    let refused = apply(
        &mut state, true, &mut cell, &mut store, &mut ready, &input, 1, 10,
        ImeMode::HalfKatakana, false, true,
    );
    assert_eq!(refused.mode, ImeMode::On);
    assert_eq!(refused.write_open, None);
    let busy = apply(
        &mut state, false, &mut cell, &mut store, &mut ready, &input, 1, 10, ImeMode::Off, true,
        true,
    );
    assert_eq!((busy.from, busy.changed), (None, false));
    assert_eq!(state.ime_mode, ImeMode::On);
}

#[test]
fn focus_is_normalised_and_repeats_are_ignored() {
    assert_eq!(foreground_root_hwnd(0, 5), 0);
    assert_eq!(foreground_root_hwnd(3, 0), 3);
    assert_eq!(foreground_root_hwnd(3, 9), 9);
    assert!(on_set_focus(1, 2));
    assert!(!on_set_focus(2, 2));
}
