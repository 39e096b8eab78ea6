use rakukan_tsf::config::{
    AppConfig, AppearanceCache, ConfigLoadError, ConfigManager, DefaultImeMode, DigitCandidateKind,
    DigitWidth, KeyboardLayout, candidate_font_height, current_config, default_config_text,
    effective_num_candidates, get_live_conv_beam_size, get_live_conv_min_chars, get_num_candidates,
    init_config_manager, is_auto_learn_enabled, is_digit_separator_auto_enabled, keyboard_layout,
    maybe_reload_on_mode_switch,
};
use rakukan_tsf::config_file::{ConfigFile, config_from_file};
use rakukan_tsf::engine_config::build_engine_config_json;

fn text_of(table: Option<&toml::Table>, key: &str) -> Option<String> {
    table?.get(key)?.as_str().map(str::to_string)
}

fn int_of(table: Option<&toml::Table>, key: &str) -> Option<i64> {
    table?.get(key)?.as_integer()
}

fn bool_of(table: Option<&toml::Table>, key: &str) -> Option<bool> {
    table?.get(key)?.as_bool()
}

fn parse(text: &str) -> Result<AppConfig, ConfigLoadError> {
    let root: toml::Table = text.parse().expect("config should parse");
    let section = |name: &str| root.get(name).and_then(|v| v.as_table());
    let mut file = ConfigFile::empty();
    let general = section("general");
    file.general.log_level = text_of(general, "log_level");
    file.general.gpu_backend = text_of(general, "gpu_backend");
    file.general.n_gpu_layers = int_of(general, "n_gpu_layers").map(|n| n as u32);
    file.general.main_gpu = int_of(general, "main_gpu").map(|n| n as i32);
    file.general.model_variant = text_of(general, "model_variant");
    let keyboard = section("keyboard");
    file.keyboard.layout = text_of(keyboard, "layout");
    file.keyboard.reload_on_mode_switch = bool_of(keyboard, "reload_on_mode_switch");
    let input = section("input");
    file.input.default_mode = text_of(input, "default_mode");
    file.input.remember_last_kana_mode = bool_of(input, "remember_last_kana_mode");
    file.input.digit_width = text_of(input, "digit_width");
    file.input.alpha_width = text_of(input, "alpha_width");
    file.input.symbol_width = text_of(input, "symbol_width");
    file.input.digit_separator_auto = bool_of(input, "digit_separator_auto");
    file.input.digit_candidates_order = input
        .and_then(|t| t.get("digit_candidates_order"))
        .and_then(|v| v.as_array())
        .map(|v| v.iter().map(|k| k.as_str().unwrap().to_string()).collect());
    file.input.auto_learn = bool_of(input, "auto_learn");
    file.input.half_katakana_mode_enabled = bool_of(input, "half_katakana_mode_enabled");
    file.input.full_alphanumeric_mode_enabled = bool_of(input, "full_alphanumeric_mode_enabled");
    let live = section("live_conversion");
    file.live_conversion.enabled = bool_of(live, "enabled");
    file.live_conversion.debounce_ms = int_of(live, "debounce_ms").map(|n| n as u64);
    file.live_conversion.use_llm = bool_of(live, "use_llm");
    file.live_conversion.prefer_dictionary_first = bool_of(live, "prefer_dictionary_first");
    file.live_conversion.beam_size = int_of(live, "beam_size").map(|n| n as usize);
    file.live_conversion.min_chars = int_of(live, "min_chars").map(|n| n as usize);
    let conversion = section("conversion");
    file.conversion.beam_size = int_of(conversion, "beam_size").map(|n| n as usize);
    file.conversion.num_candidates = int_of(conversion, "num_candidates").map(|n| n as usize);
    let appearance = section("appearance");
    file.appearance.candidate_font_height =
        int_of(appearance, "candidate_font_height").map(|n| n as i32);
    let diagnostics = section("diagnostics");
    file.diagnostics.dump_active_config = bool_of(diagnostics, "dump_active_config");
    file.diagnostics.warn_on_unknown_key = bool_of(diagnostics, "warn_on_unknown_key");
    file.num_candidates = int_of(Some(&root), "num_candidates").map(|n| n as usize);
    config_from_file(file)
}

#[test]
fn effective_num_candidates_reads_new_conversion_key() {
    let cfg: AppConfig = parse(
        r#"
[conversion]
num_candidates = 12
"#,
    )
    .expect("config should parse");

    assert_eq!(cfg.effective_num_candidates(), 12);
}

#[test]
fn effective_num_candidates_falls_back_to_legacy_root_key() {
    let cfg: AppConfig = parse("num_candidates = 7").expect("config should parse");

    assert_eq!(cfg.effective_num_candidates(), 7);
}

#[test]
fn effective_num_candidates_defaults_to_fast_profile() {
    let cfg = AppConfig::default();

    assert_eq!(cfg.effective_num_candidates(), 6);
    assert_eq!(cfg.live_conversion.beam_size, 1);
    assert_eq!(cfg.conversion.beam_size, 6);
}

#[test]
fn live_conversion_min_chars_defaults_to_three() {
    let cfg = AppConfig::default();
    assert_eq!(cfg.live_conversion.min_chars, 3);
}

#[test]
fn live_conversion_min_chars_parses_from_toml() {
    let cfg: AppConfig = parse(
        r#"
[live_conversion]
enabled = true
min_chars = 2
"#,
    )
    .expect("config should parse");
    assert_eq!(cfg.live_conversion.min_chars, 2);
    assert!(cfg.live_conversion.enabled);
}

#[test]
fn live_conversion_min_chars_falls_back_to_default_when_omitted() {
    let cfg: AppConfig = parse(
        r#"
[live_conversion]
enabled = true
"#,
    )
    .expect("config should parse");
    assert_eq!(cfg.live_conversion.min_chars, 3);
}

#[test]
fn default_file_stands_for_its_own_values() {
    let cfg = parse(default_config_text()).expect("config should parse");
    assert_eq!(cfg.general.log_level, "info");
    assert_eq!(cfg.general.gpu_backend.as_deref(), Some("auto"));
    assert_eq!(cfg.general.n_gpu_layers, Some(16));
    assert_eq!(cfg.general.model_variant.as_deref(), Some("jinen-v1-xsmall-q5"));
    assert!(cfg.keyboard.layout == KeyboardLayout::Jis);
    assert!(cfg.input.default_mode == DefaultImeMode::Off);
    assert!(cfg.input.digit_width == DigitWidth::Halfwidth);
    assert!(cfg.live_conversion.enabled);
    assert!(cfg.input.auto_learn);
    assert_eq!(cfg.appearance.candidate_font_height, 17);
    assert_eq!(cfg.input.digit_candidates_order.len(), 5);
}

#[test]
fn old_mode_names_are_understood_and_unknown_ones_are_not() {
    let on = parse("[input]\ndefault_mode = \"hiragana\"\n").unwrap();
    assert!(on.input.default_mode == DefaultImeMode::On);
    let off = parse("[input]\ndefault_mode = \"alphanumeric\"\n").unwrap();
    assert!(off.input.default_mode == DefaultImeMode::Off);
    assert_eq!(parse("[input]\ndefault_mode = \"kana\"\n").err(), Some(ConfigLoadError));
    assert_eq!(parse("[keyboard]\nlayout = \"dvorak\"\n").err(), Some(ConfigLoadError));
    assert_eq!(parse("[input]\nalpha_width = \"wide\"\n").err(), Some(ConfigLoadError));
    assert_eq!(
        parse("[input]\ndigit_candidates_order = [\"arabic\", \"roman\"]\n").err(),
        Some(ConfigLoadError)
    );
}

#[test]
fn candidate_counts_and_font_heights_are_clamped() {
    let mut cfg = AppConfig::default();
    cfg.conversion.num_candidates = Some(0);
    assert_eq!(cfg.effective_num_candidates(), 1);
    cfg.conversion.num_candidates = Some(31);
    assert_eq!(cfg.effective_num_candidates(), 30);
    cfg.num_candidates = Some(9);
    assert_eq!(cfg.effective_num_candidates(), 30);

    let mut cache = AppearanceCache { font_height: 0, seen: None };
    cfg.appearance.candidate_font_height = 200;
    let mut mgr = ConfigManager::new(&mut cache, Some(cfg), Some(1));
    assert_eq!(candidate_font_height(&cache), 72);
    assert_eq!(get_num_candidates(&mgr), 30);
    assert_eq!(effective_num_candidates(&mgr), 30);

    mgr.current.live_conversion.beam_size = 50;
    mgr.current.live_conversion.min_chars = 0;
    assert_eq!(get_live_conv_beam_size(&mgr), 9);
    assert_eq!(get_live_conv_min_chars(&mgr), 1);
    assert!(keyboard_layout(&mgr) == KeyboardLayout::Jis);
    assert!(is_auto_learn_enabled(&mgr));
    assert!(is_digit_separator_auto_enabled(&mgr));
}

#[test]
fn files_are_read_again_only_when_their_stamp_changes() {
    let mut cache = AppearanceCache { font_height: 17, seen: None };
    let mut mgr = ConfigManager::new(&mut cache, None, Some(1));
    assert_eq!(current_config(&mgr).effective_num_candidates(), 6);

    let mut other = AppConfig::default();
    other.num_candidates = Some(3);
    assert!(!maybe_reload_on_mode_switch(&mut mgr, &mut cache, Some(1), Some(other.clone())));
    assert_eq!(current_config(&mgr).effective_num_candidates(), 6);
    assert_eq!(mgr.reload_if_changed(&mut cache, Some(2), None), Err(ConfigLoadError));
    assert_eq!(mgr.last_modified, Some(1));
    assert!(maybe_reload_on_mode_switch(&mut mgr, &mut cache, Some(2), Some(other.clone())));
    assert_eq!(current_config(&mgr).effective_num_candidates(), 3);

    mgr.current.keyboard.reload_on_mode_switch = false;
    assert!(!maybe_reload_on_mode_switch(&mut mgr, &mut cache, Some(3), Some(other.clone())));
    init_config_manager(&mut mgr, &mut cache, None, Some(4));
    assert_eq!(current_config(&mgr).effective_num_candidates(), 6);
    assert_eq!(mgr.last_modified, Some(4));
}

#[test]
fn engine_settings_are_written_as_json() {
    let mut cfg = AppConfig::default();
    cfg.general.main_gpu = -1;
    cfg.general.model_variant = Some("jinen-v1-small-q5".to_string());
    cfg.input.digit_candidates_order =
        vec![DigitCandidateKind::PerDigit, DigitCandidateKind::Daiji];
    let json = build_engine_config_json(&cfg);
    assert_eq!(
        json,
        r#"{"num_candidates":6,"n_gpu_layers":4294967295,"main_gpu":-1,"n_threads":0,"digit_width":"halfwidth","alpha_width":"fullwidth","symbol_width":"fullwidth","digit_separator_auto":true,"digit_candidates_order":["per_digit","daiji"],"live_conv_beam_size":1,"convert_beam_size":6,"model_variant":"jinen-v1-small-q5"}"#
    );
    let value: serde_json::Value = serde_json::from_str(&json).unwrap();
    assert_eq!(value["n_threads"], 0);
    cfg.general.model_variant = None;
    cfg.general.n_gpu_layers = Some(16);
    cfg.input.digit_candidates_order = Vec::new();
    cfg.conversion.beam_size = 99;
    let value: serde_json::Value =
        serde_json::from_str(&build_engine_config_json(&cfg)).unwrap();
    assert_eq!(value["n_gpu_layers"], 16);
    assert_eq!(value["convert_beam_size"], 30);
    assert_eq!(value["digit_candidates_order"].as_array().unwrap().len(), 0);
    assert!(value.get("model_variant").is_none());
}
