//! Settings as a file gives them: any key may be missing, and choices are names.
use vstd::prelude::*;
use vstd::string::*;
use crate::config;
use crate::config::{
    AlphaWidth, AppConfig, AppearanceConfig, ConfigLoadError, ConversionConfig, DefaultImeMode,
    DiagnosticsConfig, DigitCandidateKind, DigitWidth, GeneralConfig, InputConfig, KeyboardConfig,
    KeyboardLayout, LiveConversionConfig, SymbolWidth, default_auto_learn,
    default_candidate_font_height, default_convert_beam_size, default_debounce_ms,
    default_digit_candidates_order, default_digit_separator_auto, default_dump_active_config,
    default_ime_mode, default_keyboard_layout, default_live_conv_beam_size,
    default_live_conv_min_chars, default_live_conversion_enabled, default_log_level,
    default_prefer_dictionary_first, default_reload_on_mode_switch,
    default_remember_last_kana_mode, default_warn_on_unknown_key,
};
use crate::text::str_eq;

verus! {

/// The keys of a settings file, section by section. What is missing is `None`; a
/// missing section misses all its keys.
pub struct ConfigFile {
    pub general: GeneralKeys,
    pub keyboard: KeyboardKeys,
    pub input: InputKeys,
    pub live_conversion: LiveConversionKeys,
    pub conversion: ConversionKeys,
    pub appearance: AppearanceKeys,
    pub diagnostics: DiagnosticsKeys,
    pub num_candidates: Option<usize>,
}

pub struct GeneralKeys {
    pub log_level: Option<String>,
    pub gpu_backend: Option<String>,
    pub n_gpu_layers: Option<u32>,
    pub main_gpu: Option<i32>,
    pub model_variant: Option<String>,
}

pub struct KeyboardKeys {
    pub layout: Option<String>,
    pub reload_on_mode_switch: Option<bool>,
}

pub struct InputKeys {
    pub default_mode: Option<String>,
    pub remember_last_kana_mode: Option<bool>,
    pub digit_width: Option<String>,
    pub alpha_width: Option<String>,
    pub symbol_width: Option<String>,
    pub digit_separator_auto: Option<bool>,
    pub digit_candidates_order: Option<Vec<String>>,
    pub auto_learn: Option<bool>,
    pub half_katakana_mode_enabled: Option<bool>,
    pub full_alphanumeric_mode_enabled: Option<bool>,
}

pub struct LiveConversionKeys {
    pub enabled: Option<bool>,
    pub debounce_ms: Option<u64>,
    pub use_llm: Option<bool>,
    pub prefer_dictionary_first: Option<bool>,
    pub beam_size: Option<usize>,
    pub min_chars: Option<usize>,
}

pub struct ConversionKeys {
    pub beam_size: Option<usize>,
    pub num_candidates: Option<usize>,
}

pub struct AppearanceKeys {
    pub candidate_font_height: Option<i32>,
}

pub struct DiagnosticsKeys {
    pub dump_active_config: Option<bool>,
    pub warn_on_unknown_key: Option<bool>,
}

impl ConfigFile {
    /// A file without any key.
    pub fn empty() -> (r: Self)
        ensures
            r.is_empty(),
    {
        ConfigFile {
            general: GeneralKeys {
                log_level: None,
                gpu_backend: None,
                n_gpu_layers: None,
                main_gpu: None,
                model_variant: None,
            },
            keyboard: KeyboardKeys { layout: None, reload_on_mode_switch: None },
            input: InputKeys {
                default_mode: None,
                remember_last_kana_mode: None,
                digit_width: None,
                alpha_width: None,
                symbol_width: None,
                digit_separator_auto: None,
                digit_candidates_order: None,
                auto_learn: None,
                half_katakana_mode_enabled: None,
                full_alphanumeric_mode_enabled: None,
            },
            live_conversion: LiveConversionKeys {
                enabled: None,
                debounce_ms: None,
                use_llm: None,
                prefer_dictionary_first: None,
                beam_size: None,
                min_chars: None,
            },
            conversion: ConversionKeys { beam_size: None, num_candidates: None },
            appearance: AppearanceKeys { candidate_font_height: None },
            diagnostics: DiagnosticsKeys { dump_active_config: None, warn_on_unknown_key: None },
            num_candidates: None,
        }
    }

    pub open spec fn is_empty(self) -> bool {
        &&& self.general == (GeneralKeys {
            log_level: None,
            gpu_backend: None,
            n_gpu_layers: None,
            main_gpu: None,
            model_variant: None,
        })
        &&& self.keyboard == (KeyboardKeys { layout: None, reload_on_mode_switch: None })
        &&& self.input == (InputKeys {
            default_mode: None,
            remember_last_kana_mode: None,
            digit_width: None,
            alpha_width: None,
            symbol_width: None,
            digit_separator_auto: None,
            digit_candidates_order: None,
            auto_learn: None,
            half_katakana_mode_enabled: None,
            full_alphanumeric_mode_enabled: None,
        })
        &&& self.live_conversion == (LiveConversionKeys {
            enabled: None,
            debounce_ms: None,
            use_llm: None,
            prefer_dictionary_first: None,
            beam_size: None,
            min_chars: None,
        })
        &&& self.conversion == (ConversionKeys { beam_size: None, num_candidates: None })
        &&& self.appearance == (AppearanceKeys { candidate_font_height: None })
        &&& self.diagnostics == (DiagnosticsKeys {
            dump_active_config: None,
            warn_on_unknown_key: None,
        })
        &&& self.num_candidates is None
    }
}

// Names

pub open spec fn layout_named(s: Seq<char>) -> Option<KeyboardLayout> {
    if s == "us"@ {
        Some(KeyboardLayout::Us)
    } else if s == "jis"@ {
        Some(KeyboardLayout::Jis)
    } else if s == "custom"@ {
        Some(KeyboardLayout::Custom)
    } else {
        None
    }
}

/// Older files name the two modes "hiragana" and "alphanumeric".
pub open spec fn mode_named(s: Seq<char>) -> Option<DefaultImeMode> {
    if s == "on"@ || s == "hiragana"@ {
        Some(DefaultImeMode::On)
    } else if s == "off"@ || s == "alphanumeric"@ {
        Some(DefaultImeMode::Off)
    } else {
        None
    }
}

/// Whether a width is full.
pub open spec fn width_named(s: Seq<char>) -> Option<bool> {
    if s == "fullwidth"@ {
        Some(true)
    } else if s == "halfwidth"@ {
        Some(false)
    } else {
        None
    }
}

pub open spec fn kind_named(s: Seq<char>) -> Option<DigitCandidateKind> {
    if s == "arabic"@ {
        Some(DigitCandidateKind::Arabic)
    } else if s == "fullwidth"@ {
        Some(DigitCandidateKind::Fullwidth)
    } else if s == "positional"@ {
        Some(DigitCandidateKind::Positional)
    } else if s == "per_digit"@ {
        Some(DigitCandidateKind::PerDigit)
    } else if s == "daiji"@ {
        Some(DigitCandidateKind::Daiji)
    } else {
        None
    }
}

fn parse_layout(s: &str) -> (r: Option<KeyboardLayout>)
    ensures
        r == layout_named(s@),
{
    if str_eq(s, "us") {
        Some(KeyboardLayout::Us)
    } else if str_eq(s, "jis") {
        Some(KeyboardLayout::Jis)
    } else if str_eq(s, "custom") {
        Some(KeyboardLayout::Custom)
    } else {
        None
    }
}

fn parse_mode(s: &str) -> (r: Option<DefaultImeMode>)
    ensures
        r == mode_named(s@),
{
    if str_eq(s, "on") || str_eq(s, "hiragana") {
        Some(DefaultImeMode::On)
    } else if str_eq(s, "off") || str_eq(s, "alphanumeric") {
        Some(DefaultImeMode::Off)
    } else {
        None
    }
}

fn parse_width(s: &str) -> (r: Option<bool>)
    ensures
        r == width_named(s@),
{
    if str_eq(s, "fullwidth") {
        Some(true)
    } else if str_eq(s, "halfwidth") {
        Some(false)
    } else {
        None
    }
}

fn parse_kind(s: &str) -> (r: Option<DigitCandidateKind>)
    ensures
        r == kind_named(s@),
{
    if str_eq(s, "arabic") {
        Some(DigitCandidateKind::Arabic)
    } else if str_eq(s, "fullwidth") {
        Some(DigitCandidateKind::Fullwidth)
    } else if str_eq(s, "positional") {
        Some(DigitCandidateKind::Positional)
    } else if str_eq(s, "per_digit") {
        Some(DigitCandidateKind::PerDigit)
    } else if str_eq(s, "daiji") {
        Some(DigitCandidateKind::Daiji)
    } else {
        None
    }
}

// From names to choices

impl KeyboardKeys {
    pub open spec fn chosen_layout(self) -> Option<KeyboardLayout> {
        match self.layout {
            Some(s) => layout_named(s@),
            None => Some(KeyboardLayout::Jis),
        }
    }
}

impl InputKeys {
    pub open spec fn chosen_mode(self) -> Option<DefaultImeMode> {
        match self.default_mode {
            Some(s) => mode_named(s@),
            None => Some(DefaultImeMode::Off),
        }
    }

    pub open spec fn chosen_kinds(self) -> Option<Seq<DigitCandidateKind>> {
        match self.digit_candidates_order {
            Some(names) => if forall|i: int|
                0 <= i < names@.len() ==> kind_named((#[trigger] names@[i])@) is Some {
                Some(Seq::new(names@.len(), |i: int| kind_named(names@[i]@)->0))
            } else {
                None
            },
            None => Some(config::all_digit_candidates()),
        }
    }

    /// All names are known.
    pub open spec fn understood(self) -> bool {
        &&& self.chosen_mode() is Some
        &&& width_or(self.digit_width, false) is Some
        &&& width_or(self.alpha_width, true) is Some
        &&& width_or(self.symbol_width, true) is Some
        &&& self.chosen_kinds() is Some
    }
}

/// Whether the named width is full; `missing` where none is named.
pub open spec fn width_or(name: Option<String>, missing: bool) -> Option<bool> {
    match name {
        Some(s) => width_named(s@),
        None => Some(missing),
    }
}

fn full_width_or(name: &Option<String>, missing: bool) -> (r: Option<bool>)
    ensures
        r == width_or(*name, missing),
{
    match name {
        Some(s) => parse_width(s.as_str()),
        None => Some(missing),
    }
}

fn parse_kinds(names: &Vec<String>) -> (r: Option<Vec<DigitCandidateKind>>)
    ensures
        r is Some == (forall|i: int|
            0 <= i < names@.len() ==> kind_named((#[trigger] names@[i])@) is Some),
        r is Some ==> r->0@ == Seq::new(names@.len(), |i: int| kind_named(names@[i]@)->0),
{
    let mut kinds: Vec<DigitCandidateKind> = Vec::new();
    let mut i: usize = 0;
    while i < names.len()
        invariant
            i <= names@.len(),
            kinds@.len() == i,
            forall|k: int|
                0 <= k < i ==> kind_named((#[trigger] names@[k])@) == Some(kinds@[k]),
        decreases names@.len() - i,
    {
        match parse_kind(names[i].as_str()) {
            Some(kind) => {
                kinds.push(kind);
            },
            None => {
                assert(kind_named(names@[i as int]@) is None);
                return None;
            },
        }
        i = i + 1;
    }
    assert(kinds@ =~= Seq::new(names@.len(), |i: int| kind_named(names@[i]@)->0));
    Some(kinds)
}

impl InputConfig {
    /// The settings that the keys stand for, once their names are understood.
    pub open spec fn stands_for(self, keys: InputKeys) -> bool {
        &&& Some(self.default_mode) == keys.chosen_mode()
        &&& self.remember_last_kana_mode == keys.remember_last_kana_mode.unwrap_or(true)
        &&& Some(self.digit_width is Fullwidth) == width_or(keys.digit_width, false)
        &&& Some(self.alpha_width is Fullwidth) == width_or(keys.alpha_width, true)
        &&& Some(self.symbol_width is Fullwidth) == width_or(keys.symbol_width, true)
        &&& self.digit_separator_auto == keys.digit_separator_auto.unwrap_or(true)
        &&& Some(self.digit_candidates_order@) == keys.chosen_kinds()
        &&& self.auto_learn == keys.auto_learn.unwrap_or(true)
        &&& self.half_katakana_mode_enabled == keys.half_katakana_mode_enabled.unwrap_or(false)
        &&& self.full_alphanumeric_mode_enabled == keys.full_alphanumeric_mode_enabled.unwrap_or(
            false,
        )
    }
}

fn input_from(keys: InputKeys) -> (r: Option<InputConfig>)
    ensures
        r is Some == keys.understood(),
        r is Some ==> r->0.stands_for(keys),
{
    let mode = match &keys.default_mode {
        Some(s) => match parse_mode(s.as_str()) {
            Some(m) => m,
            None => {
                return None;
            },
        },
        None => default_ime_mode(),
    };
    let digit = match full_width_or(&keys.digit_width, false) {
        Some(full) => if full {
            DigitWidth::Fullwidth
        } else {
            DigitWidth::Halfwidth
        },
        None => {
            return None;
        },
    };
    let alpha = match full_width_or(&keys.alpha_width, true) {
        Some(full) => if full {
            AlphaWidth::Fullwidth
        } else {
            AlphaWidth::Halfwidth
        },
        None => {
            return None;
        },
    };
    let symbol = match full_width_or(&keys.symbol_width, true) {
        Some(full) => if full {
            SymbolWidth::Fullwidth
        } else {
            SymbolWidth::Halfwidth
        },
        None => {
            return None;
        },
    };
    let kinds = match &keys.digit_candidates_order {
        Some(names) => match parse_kinds(names) {
            Some(k) => k,
            None => {
                return None;
            },
        },
        None => default_digit_candidates_order(),
    };
    Some(
        InputConfig {
            default_mode: mode,
            remember_last_kana_mode: keys.remember_last_kana_mode.unwrap_or(
                default_remember_last_kana_mode(),
            ),
            digit_width: digit,
            alpha_width: alpha,
            symbol_width: symbol,
            digit_separator_auto: keys.digit_separator_auto.unwrap_or(
                default_digit_separator_auto(),
            ),
            digit_candidates_order: kinds,
            auto_learn: keys.auto_learn.unwrap_or(default_auto_learn()),
            half_katakana_mode_enabled: keys.half_katakana_mode_enabled.unwrap_or(false),
            full_alphanumeric_mode_enabled: keys.full_alphanumeric_mode_enabled.unwrap_or(false),
        },
    )
}

impl AppConfig {
    /// The settings that a file stands for: its keys, and the defaults for those
    /// that it misses.
    pub open spec fn stands_for(self, file: ConfigFile) -> bool {
        &&& match file.general.log_level {
            Some(s) => self.general.log_level == s,
            None => self.general.log_level@ == "info"@,
        }
        &&& self.general.gpu_backend == file.general.gpu_backend
        &&& self.general.n_gpu_layers == file.general.n_gpu_layers
        &&& self.general.main_gpu == file.general.main_gpu.unwrap_or(0)
        &&& self.general.model_variant == file.general.model_variant
        &&& Some(self.keyboard.layout) == file.keyboard.chosen_layout()
        &&& self.keyboard.reload_on_mode_switch == file.keyboard.reload_on_mode_switch.unwrap_or(
            true,
        )
        &&& self.input.stands_for(file.input)
        &&& self.live_conversion.enabled == file.live_conversion.enabled.unwrap_or(true)
        &&& self.live_conversion.debounce_ms == file.live_conversion.debounce_ms.unwrap_or(80)
        &&& self.live_conversion.use_llm == file.live_conversion.use_llm.unwrap_or(false)
        &&& self.live_conversion.prefer_dictionary_first
            == file.live_conversion.prefer_dictionary_first.unwrap_or(true)
        &&& self.live_conversion.beam_size == file.live_conversion.beam_size.unwrap_or(1)
        &&& self.live_conversion.min_chars == file.live_conversion.min_chars.unwrap_or(3)
        &&& self.conversion.beam_size == file.conversion.beam_size.unwrap_or(6)
        &&& self.conversion.num_candidates == file.conversion.num_candidates
        &&& self.appearance.candidate_font_height
            == file.appearance.candidate_font_height.unwrap_or(
            config::DEFAULT_CANDIDATE_FONT_HEIGHT,
        )
        &&& self.diagnostics.dump_active_config == file.diagnostics.dump_active_config.unwrap_or(
            false,
        )
        &&& self.diagnostics.warn_on_unknown_key
            == file.diagnostics.warn_on_unknown_key.unwrap_or(true)
        &&& self.num_candidates == file.num_candidates
    }
}

impl ConfigFile {
    /// Every name in the file is known.
    pub open spec fn understood(self) -> bool {
        self.keyboard.chosen_layout() is Some && self.input.understood()
    }
}

/// The settings of a file. A name that is not known makes the whole file unusable.
pub fn config_from_file(file: ConfigFile) -> (r: Result<AppConfig, ConfigLoadError>)
    ensures
        r is Ok == file.understood(),
        r is Ok ==> r->Ok_0.stands_for(file),
{
    let layout = match &file.keyboard.layout {
        Some(s) => match parse_layout(s.as_str()) {
            Some(l) => l,
            None => {
                return Err(ConfigLoadError);
            },
        },
        None => default_keyboard_layout(),
    };
    let input = match input_from(file.input) {
        Some(i) => i,
        None => {
            return Err(ConfigLoadError);
        },
    };
    let log_level = match file.general.log_level {
        Some(s) => s,
        None => default_log_level(),
    };
    Ok(
        AppConfig {
            general: GeneralConfig {
                log_level,
                gpu_backend: file.general.gpu_backend,
                n_gpu_layers: file.general.n_gpu_layers,
                main_gpu: file.general.main_gpu.unwrap_or(0),
                model_variant: file.general.model_variant,
            },
            keyboard: KeyboardConfig {
                layout,
                reload_on_mode_switch: file.keyboard.reload_on_mode_switch.unwrap_or(
                    default_reload_on_mode_switch(),
                ),
            },
            input,
            live_conversion: LiveConversionConfig {
                enabled: file.live_conversion.enabled.unwrap_or(default_live_conversion_enabled()),
                debounce_ms: file.live_conversion.debounce_ms.unwrap_or(default_debounce_ms()),
                use_llm: file.live_conversion.use_llm.unwrap_or(false),
                prefer_dictionary_first: file.live_conversion.prefer_dictionary_first.unwrap_or(
                    default_prefer_dictionary_first(),
                ),
                beam_size: file.live_conversion.beam_size.unwrap_or(default_live_conv_beam_size()),
                min_chars: file.live_conversion.min_chars.unwrap_or(default_live_conv_min_chars()),
            },
            conversion: ConversionConfig {
                beam_size: file.conversion.beam_size.unwrap_or(default_convert_beam_size()),
                num_candidates: file.conversion.num_candidates,
            },
            appearance: AppearanceConfig {
                candidate_font_height: file.appearance.candidate_font_height.unwrap_or(
                    default_candidate_font_height(),
                ),
            },
            diagnostics: DiagnosticsConfig {
                dump_active_config: file.diagnostics.dump_active_config.unwrap_or(
                    default_dump_active_config(),
                ),
                warn_on_unknown_key: file.diagnostics.warn_on_unknown_key.unwrap_or(
                    default_warn_on_unknown_key(),
                ),
            },
            num_candidates: file.num_candidates,
        },
    )
}

/// An empty file stands for the defaults.
pub proof fn empty_files_give_the_defaults(file: ConfigFile, cfg: AppConfig)
    requires
        file.is_empty(),
        cfg.stands_for(file),
    ensures
        file.understood(),
        cfg.is_default(),
{
}

/// Each choice has its name in a file, two names for the modes of older files, and
/// any other name is not understood.
pub proof fn choices_go_by_their_names(s: Seq<char>)
    ensures
        layout_named(s) == Some(KeyboardLayout::Us) <==> s == "us"@,
        layout_named(s) == Some(KeyboardLayout::Jis) <==> s == "jis"@,
        layout_named(s) == Some(KeyboardLayout::Custom) <==> s == "custom"@,
        mode_named(s) == Some(DefaultImeMode::On) <==> s == "on"@ || s == "hiragana"@,
        mode_named(s) == Some(DefaultImeMode::Off) <==> s == "off"@ || s == "alphanumeric"@,
        width_named(s) == Some(true) <==> s == "fullwidth"@,
        width_named(s) == Some(false) <==> s == "halfwidth"@,
        kind_named(s) == Some(DigitCandidateKind::Arabic) <==> s == "arabic"@,
        kind_named(s) == Some(DigitCandidateKind::Fullwidth) <==> s == "fullwidth"@,
        kind_named(s) == Some(DigitCandidateKind::Positional) <==> s == "positional"@,
        kind_named(s) == Some(DigitCandidateKind::PerDigit) <==> s == "per_digit"@,
        kind_named(s) == Some(DigitCandidateKind::Daiji) <==> s == "daiji"@,
{
    reveal_strlit("us");
    reveal_strlit("jis");
    reveal_strlit("custom");
    reveal_strlit("on");
    reveal_strlit("hiragana");
    reveal_strlit("off");
    reveal_strlit("alphanumeric");
    reveal_strlit("fullwidth");
    reveal_strlit("halfwidth");
    reveal_strlit("arabic");
    reveal_strlit("positional");
    reveal_strlit("per_digit");
    reveal_strlit("daiji");
    assert("us"@.len() == 2 && "jis"@.len() == 3 && "custom"@.len() == 6);
    assert("on"@.len() == 2 && "off"@.len() == 3 && "hiragana"@.len() == 8 && "alphanumeric"@.len()
        == 12);
    assert("fullwidth"@[0] == 'f' && "halfwidth"@[0] == 'h');
    assert("arabic"@.len() == 6 && "fullwidth"@.len() == 9 && "positional"@.len() == 10
        && "per_digit"@.len() == 9 && "daiji"@.len() == 5);
    assert("per_digit"@[0] == 'p');
}

/// What a file says is what is used, key by key.
pub proof fn keys_of_a_file_count(file: ConfigFile, cfg: AppConfig)
    requires
        cfg.stands_for(file),
    ensures
        file.general.log_level is Some ==> cfg.general.log_level == file.general.log_level->0,
        cfg.general.gpu_backend == file.general.gpu_backend,
        cfg.general.n_gpu_layers == file.general.n_gpu_layers,
        file.general.main_gpu is Some ==> cfg.general.main_gpu == file.general.main_gpu->0,
        cfg.general.model_variant == file.general.model_variant,
        file.keyboard.layout is Some ==> Some(cfg.keyboard.layout) == layout_named(
            file.keyboard.layout->0@,
        ),
        file.keyboard.reload_on_mode_switch is Some ==> cfg.keyboard.reload_on_mode_switch
            == file.keyboard.reload_on_mode_switch->0,
        file.input.default_mode is Some ==> Some(cfg.input.default_mode) == mode_named(
            file.input.default_mode->0@,
        ),
        file.input.remember_last_kana_mode is Some ==> cfg.input.remember_last_kana_mode
            == file.input.remember_last_kana_mode->0,
        file.input.digit_width is Some ==> Some(cfg.input.digit_width is Fullwidth) == width_named(
            file.input.digit_width->0@,
        ),
        file.input.alpha_width is Some ==> Some(cfg.input.alpha_width is Fullwidth) == width_named(
            file.input.alpha_width->0@,
        ),
        file.input.symbol_width is Some ==> Some(cfg.input.symbol_width is Fullwidth)
            == width_named(file.input.symbol_width->0@),
        file.input.digit_separator_auto is Some ==> cfg.input.digit_separator_auto
            == file.input.digit_separator_auto->0,
        file.input.digit_candidates_order is Some ==> {
            let names = file.input.digit_candidates_order->0@;
            &&& cfg.input.digit_candidates_order@.len() == names.len()
            &&& forall|i: int|
                0 <= i < names.len() ==> kind_named((#[trigger] names[i])@) == Some(
                    cfg.input.digit_candidates_order@[i],
                )
        },
        file.input.auto_learn is Some ==> cfg.input.auto_learn == file.input.auto_learn->0,
        file.input.half_katakana_mode_enabled is Some ==> cfg.input.half_katakana_mode_enabled
            == file.input.half_katakana_mode_enabled->0,
        file.input.full_alphanumeric_mode_enabled is Some
            ==> cfg.input.full_alphanumeric_mode_enabled
            == file.input.full_alphanumeric_mode_enabled->0,
        file.live_conversion.enabled is Some ==> cfg.live_conversion.enabled
            == file.live_conversion.enabled->0,
        file.live_conversion.debounce_ms is Some ==> cfg.live_conversion.debounce_ms
            == file.live_conversion.debounce_ms->0,
        file.live_conversion.use_llm is Some ==> cfg.live_conversion.use_llm
            == file.live_conversion.use_llm->0,
        file.live_conversion.prefer_dictionary_first is Some
            ==> cfg.live_conversion.prefer_dictionary_first
            == file.live_conversion.prefer_dictionary_first->0,
        file.live_conversion.beam_size is Some ==> cfg.live_conversion.beam_size
            == file.live_conversion.beam_size->0,
        file.live_conversion.min_chars is Some ==> cfg.live_conversion.min_chars
            == file.live_conversion.min_chars->0,
        file.conversion.beam_size is Some ==> cfg.conversion.beam_size
            == file.conversion.beam_size->0,
        cfg.conversion.num_candidates == file.conversion.num_candidates,
        file.appearance.candidate_font_height is Some ==> cfg.appearance.candidate_font_height
            == file.appearance.candidate_font_height->0,
        file.diagnostics.dump_active_config is Some ==> cfg.diagnostics.dump_active_config
            == file.diagnostics.dump_active_config->0,
        file.diagnostics.warn_on_unknown_key is Some ==> cfg.diagnostics.warn_on_unknown_key
            == file.diagnostics.warn_on_unknown_key->0,
        cfg.num_candidates == file.num_candidates,
{
    if file.input.digit_candidates_order is Some {
        let names = file.input.digit_candidates_order->0@;
        let kinds = Seq::new(names.len(), |i: int| kind_named(names[i]@)->0);
        assert(cfg.input.digit_candidates_order@ == kinds);
    }
}

/// A key that a file misses has its default, whatever else the file says.
pub proof fn missing_keys_have_their_defaults(file: ConfigFile, cfg: AppConfig, fresh: AppConfig)
    requires
        cfg.stands_for(file),
        fresh.is_default(),
    ensures
        file.general.log_level is None ==> cfg.general.log_level@ == fresh.general.log_level@,
        file.general.main_gpu is None ==> cfg.general.main_gpu == fresh.general.main_gpu,
        file.keyboard.layout is None ==> cfg.keyboard.layout == fresh.keyboard.layout,
        file.keyboard.reload_on_mode_switch is None ==> cfg.keyboard.reload_on_mode_switch
            == fresh.keyboard.reload_on_mode_switch,
        file.input.default_mode is None ==> cfg.input.default_mode == fresh.input.default_mode,
        file.input.remember_last_kana_mode is None ==> cfg.input.remember_last_kana_mode
            == fresh.input.remember_last_kana_mode,
        file.input.digit_width is None ==> cfg.input.digit_width == fresh.input.digit_width,
        file.input.alpha_width is None ==> cfg.input.alpha_width == fresh.input.alpha_width,
        file.input.symbol_width is None ==> cfg.input.symbol_width == fresh.input.symbol_width,
        file.input.digit_separator_auto is None ==> cfg.input.digit_separator_auto
            == fresh.input.digit_separator_auto,
        file.input.digit_candidates_order is None ==> cfg.input.digit_candidates_order@
            == fresh.input.digit_candidates_order@,
        file.input.auto_learn is None ==> cfg.input.auto_learn == fresh.input.auto_learn,
        file.input.half_katakana_mode_enabled is None ==> !cfg.input.half_katakana_mode_enabled,
        file.input.full_alphanumeric_mode_enabled is None
            ==> !cfg.input.full_alphanumeric_mode_enabled,
        file.live_conversion.enabled is None ==> cfg.live_conversion.enabled
            == fresh.live_conversion.enabled,
        file.live_conversion.debounce_ms is None ==> cfg.live_conversion.debounce_ms
            == fresh.live_conversion.debounce_ms,
        file.live_conversion.use_llm is None ==> cfg.live_conversion.use_llm
            == fresh.live_conversion.use_llm,
        file.live_conversion.prefer_dictionary_first is None
            ==> cfg.live_conversion.prefer_dictionary_first
            == fresh.live_conversion.prefer_dictionary_first,
        file.live_conversion.beam_size is None ==> cfg.live_conversion.beam_size
            == fresh.live_conversion.beam_size,
        file.live_conversion.min_chars is None ==> cfg.live_conversion.min_chars
            == fresh.live_conversion.min_chars,
        file.conversion.beam_size is None ==> cfg.conversion.beam_size
            == fresh.conversion.beam_size,
        file.appearance.candidate_font_height is None ==> cfg.appearance.candidate_font_height
            == fresh.appearance.candidate_font_height,
        file.diagnostics.dump_active_config is None ==> cfg.diagnostics.dump_active_config
            == fresh.diagnostics.dump_active_config,
        file.diagnostics.warn_on_unknown_key is None ==> cfg.diagnostics.warn_on_unknown_key
            == fresh.diagnostics.warn_on_unknown_key,
{
}

/// One name that is not known makes the whole file unusable, and nothing else does.
pub proof fn unknown_names_make_a_file_unusable(file: ConfigFile)
    ensures
        file.understood() <==> {
            &&& file.keyboard.layout is Some ==> layout_named(file.keyboard.layout->0@) is Some
            &&& file.input.default_mode is Some ==> mode_named(file.input.default_mode->0@) is Some
            &&& file.input.digit_width is Some ==> width_named(file.input.digit_width->0@) is Some
            &&& file.input.alpha_width is Some ==> width_named(file.input.alpha_width->0@) is Some
            &&& file.input.symbol_width is Some ==> width_named(file.input.symbol_width->0@) is Some
            &&& file.input.digit_candidates_order is Some ==> forall|i: int|
                0 <= i < file.input.digit_candidates_order->0@.len() ==> kind_named(
                    (#[trigger] file.input.digit_candidates_order->0@[i])@,
                ) is Some
        },
{
}

}
