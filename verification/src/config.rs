//! Settings: their shape, their defaults, and when a settings file is read again.
use vstd::prelude::*;
use crate::config_text::DEFAULT_CONFIG_TEXT;

verus! {

/// `v` moved into `lo..=hi`.
pub open spec fn clamp_int(v: int, lo: int, hi: int) -> int {
    if v < lo {
        lo
    } else if v > hi {
        hi
    } else {
        v
    }
}

pub fn clamp_usize(v: usize, lo: usize, hi: usize) -> (r: usize)
    ensures
        r == clamp_int(v as int, lo as int, hi as int),
{
    if v < lo {
        lo
    } else if v > hi {
        hi
    } else {
        v
    }
}

pub fn clamp_i32(v: i32, lo: i32, hi: i32) -> (r: i32)
    ensures
        r == clamp_int(v as int, lo as int, hi as int),
{
    if v < lo {
        lo
    } else if v > hi {
        hi
    } else {
        v
    }
}

#[derive(Debug, Clone)]
pub struct AppConfig {
    pub general: GeneralConfig,
    pub keyboard: KeyboardConfig,
    pub input: InputConfig,
    pub live_conversion: LiveConversionConfig,
    pub conversion: ConversionConfig,
    pub appearance: AppearanceConfig,
    pub diagnostics: DiagnosticsConfig,
    /// The key of older files, which hold it outside any section.
    pub num_candidates: Option<usize>,
}

/// The look of the candidate window. Its row height, padding and minimum width
/// scale with the font height.
#[derive(Debug, Clone)]
pub struct AppearanceConfig {
    /// Logical pixels at 96 DPI.
    pub candidate_font_height: i32,
}

pub const DEFAULT_CANDIDATE_FONT_HEIGHT: i32 = 17;

pub const MIN_CANDIDATE_FONT_HEIGHT: i32 = 10;

pub const MAX_CANDIDATE_FONT_HEIGHT: i32 = 72;

#[derive(Debug, Clone)]
pub struct GeneralConfig {
    pub log_level: String,
    pub gpu_backend: Option<String>,
    pub n_gpu_layers: Option<u32>,
    pub main_gpu: i32,
    pub model_variant: Option<String>,
}

#[derive(Debug, Clone, Copy, PartialEq, Eq, Structural)]
pub enum KeyboardLayout {
    Us,
    Jis,
    Custom,
}

#[derive(Debug, Clone)]
pub struct KeyboardConfig {
    pub layout: KeyboardLayout,
    pub reload_on_mode_switch: bool,
}

/// Whether the service starts, and first meets a document, switched on or off.
#[derive(Debug, Clone, Copy, PartialEq, Eq, Structural)]
pub enum DefaultImeMode {
    On,
    Off,
}

#[derive(Debug, Clone, Copy, PartialEq, Eq, Structural)]
pub enum DigitWidth {
    Fullwidth,
    Halfwidth,
}

#[derive(Debug, Clone, Copy, PartialEq, Eq, Structural)]
pub enum AlphaWidth {
    Fullwidth,
    Halfwidth,
}

#[derive(Debug, Clone, Copy, PartialEq, Eq, Structural)]
pub enum SymbolWidth {
    Fullwidth,
    Halfwidth,
}

#[derive(Debug, Clone, Copy, PartialEq, Eq, Structural)]
pub enum DigitCandidateKind {
    Arabic,
    Fullwidth,
    Positional,
    PerDigit,
    Daiji,
}

#[derive(Debug, Clone)]
pub struct InputConfig {
    pub default_mode: DefaultImeMode,
    pub remember_last_kana_mode: bool,
    pub digit_width: DigitWidth,
    /// Width of typed letters, and of the first candidate for them.
    pub alpha_width: AlphaWidth,
    /// Width of typed symbols, and of the first candidate for them.
    pub symbol_width: SymbolWidth,
    /// Reads `、` and `。` right behind a digit as `,` and `.`.
    pub digit_separator_auto: bool,
    /// Which readings of a number are offered, and in what order.
    pub digit_candidates_order: Vec<DigitCandidateKind>,
    /// Learns from what is committed.
    pub auto_learn: bool,
    pub half_katakana_mode_enabled: bool,
    pub full_alphanumeric_mode_enabled: bool,
}

#[derive(Debug, Clone)]
pub struct LiveConversionConfig {
    pub enabled: bool,
    pub debounce_ms: u64,
    pub use_llm: bool,
    pub prefer_dictionary_first: bool,
    /// Beam width of live conversion; 1 is greedy.
    pub beam_size: usize,
    /// Fewest characters that start live conversion. Zero counts as one.
    pub min_chars: usize,
}

#[derive(Debug, Clone)]
pub struct ConversionConfig {
    /// Upper bound of the beam width of an explicit conversion.
    pub beam_size: usize,
    /// How many candidates an explicit conversion asks for.
    pub num_candidates: Option<usize>,
}

#[derive(Debug, Clone)]
pub struct DiagnosticsConfig {
    pub dump_active_config: bool,
    pub warn_on_unknown_key: bool,
}

// Defaults

pub fn default_candidate_font_height() -> (r: i32)
    ensures
        r == DEFAULT_CANDIDATE_FONT_HEIGHT,
{
    DEFAULT_CANDIDATE_FONT_HEIGHT
}

pub fn default_log_level() -> (r: String)
    ensures
        r@ == "info"@,
{
    "info".to_owned()
}

pub fn default_keyboard_layout() -> (r: KeyboardLayout)
    ensures
        r == KeyboardLayout::Jis,
{
    KeyboardLayout::Jis
}

pub fn default_reload_on_mode_switch() -> (r: bool)
    ensures
        r,
{
    true
}

pub fn default_ime_mode() -> (r: DefaultImeMode)
    ensures
        r == DefaultImeMode::Off,
{
    DefaultImeMode::Off
}

pub fn default_remember_last_kana_mode() -> (r: bool)
    ensures
        r,
{
    true
}

pub fn default_digit_separator_auto() -> (r: bool)
    ensures
        r,
{
    true
}

/// Every reading of a number, plain digits first and formal kanji last.
pub open spec fn all_digit_candidates() -> Seq<DigitCandidateKind> {
    seq![
        DigitCandidateKind::Arabic,
        DigitCandidateKind::Fullwidth,
        DigitCandidateKind::Positional,
        DigitCandidateKind::PerDigit,
        DigitCandidateKind::Daiji,
    ]
}

pub fn default_digit_candidates_order() -> (r: Vec<DigitCandidateKind>)
    ensures
        r@ == all_digit_candidates(),
{
    let mut r: Vec<DigitCandidateKind> = Vec::new();
    r.push(DigitCandidateKind::Arabic);
    r.push(DigitCandidateKind::Fullwidth);
    r.push(DigitCandidateKind::Positional);
    r.push(DigitCandidateKind::PerDigit);
    r.push(DigitCandidateKind::Daiji);
    assert(r@ =~= all_digit_candidates());
    r
}

pub fn default_auto_learn() -> (r: bool)
    ensures
        r,
{
    true
}

pub fn default_live_conversion_enabled() -> (r: bool)
    ensures
        r,
{
    true
}

pub fn default_debounce_ms() -> (r: u64)
    ensures
        r == 80,
{
    80
}

pub fn default_prefer_dictionary_first() -> (r: bool)
    ensures
        r,
{
    true
}

pub fn default_live_conv_beam_size() -> (r: usize)
    ensures
        r == 1,
{
    1
}

pub fn default_live_conv_min_chars() -> (r: usize)
    ensures
        r == 3,
{
    3
}

pub fn default_convert_beam_size() -> (r: usize)
    ensures
        r == 6,
{
    6
}

pub fn default_dump_active_config() -> (r: bool)
    ensures
        !r,
{
    false
}

pub fn default_warn_on_unknown_key() -> (r: bool)
    ensures
        r,
{
    true
}

impl Default for AppearanceConfig {
    fn default() -> (r: Self)
        ensures
            r.candidate_font_height == DEFAULT_CANDIDATE_FONT_HEIGHT,
    {
        AppearanceConfig { candidate_font_height: default_candidate_font_height() }
    }
}

impl GeneralConfig {
    pub open spec fn is_default(self) -> bool {
        &&& self.log_level@ == "info"@
        &&& self.gpu_backend is None
        &&& self.n_gpu_layers is None
        &&& self.main_gpu == 0
        &&& self.model_variant is None
    }
}

impl Default for GeneralConfig {
    fn default() -> (r: Self)
        ensures
            r.is_default(),
    {
        GeneralConfig {
            log_level: default_log_level(),
            gpu_backend: None,
            n_gpu_layers: None,
            main_gpu: 0,
            model_variant: None,
        }
    }
}

impl Default for KeyboardConfig {
    fn default() -> (r: Self)
        ensures
            r.layout == KeyboardLayout::Jis,
            r.reload_on_mode_switch,
    {
        KeyboardConfig {
            layout: default_keyboard_layout(),
            reload_on_mode_switch: default_reload_on_mode_switch(),
        }
    }
}

impl Default for DigitWidth {
    fn default() -> (r: Self)
        ensures
            r == DigitWidth::Halfwidth,
    {
        DigitWidth::Halfwidth
    }
}

impl Default for AlphaWidth {
    fn default() -> (r: Self)
        ensures
            r == AlphaWidth::Fullwidth,
    {
        AlphaWidth::Fullwidth
    }
}

impl Default for SymbolWidth {
    fn default() -> (r: Self)
        ensures
            r == SymbolWidth::Fullwidth,
    {
        SymbolWidth::Fullwidth
    }
}

impl InputConfig {
    pub open spec fn is_default(self) -> bool {
        &&& self.default_mode == DefaultImeMode::Off
        &&& self.remember_last_kana_mode
        &&& self.digit_width == DigitWidth::Halfwidth
        &&& self.alpha_width == AlphaWidth::Fullwidth
        &&& self.symbol_width == SymbolWidth::Fullwidth
        &&& self.digit_separator_auto
        &&& self.digit_candidates_order@ == all_digit_candidates()
        &&& self.auto_learn
        &&& !self.half_katakana_mode_enabled
        &&& !self.full_alphanumeric_mode_enabled
    }
}

impl Default for InputConfig {
    fn default() -> (r: Self)
        ensures
            r.is_default(),
    {
        InputConfig {
            default_mode: default_ime_mode(),
            remember_last_kana_mode: default_remember_last_kana_mode(),
            digit_width: DigitWidth::default(),
            alpha_width: AlphaWidth::default(),
            symbol_width: SymbolWidth::default(),
            digit_separator_auto: default_digit_separator_auto(),
            digit_candidates_order: default_digit_candidates_order(),
            auto_learn: default_auto_learn(),
            half_katakana_mode_enabled: false,
            full_alphanumeric_mode_enabled: false,
        }
    }
}

impl LiveConversionConfig {
    pub open spec fn is_default(self) -> bool {
        &&& self.enabled
        &&& self.debounce_ms == 80
        &&& !self.use_llm
        &&& self.prefer_dictionary_first
        &&& self.beam_size == 1
        &&& self.min_chars == 3
    }

    /// The beam width that live conversion runs with.
    pub open spec fn effective_beam_size(self) -> int {
        clamp_int(self.beam_size as int, 1, 9)
    }

    /// The length from which a reading is converted live.
    pub open spec fn effective_min_chars(self) -> int {
        if self.min_chars == 0 {
            1
        } else {
            self.min_chars as int
        }
    }
}

impl Default for LiveConversionConfig {
    fn default() -> (r: Self)
        ensures
            r.is_default(),
    {
        LiveConversionConfig {
            enabled: default_live_conversion_enabled(),
            debounce_ms: default_debounce_ms(),
            use_llm: false,
            prefer_dictionary_first: default_prefer_dictionary_first(),
            beam_size: default_live_conv_beam_size(),
            min_chars: default_live_conv_min_chars(),
        }
    }
}

impl Default for ConversionConfig {
    fn default() -> (r: Self)
        ensures
            r.beam_size == 6,
            r.num_candidates is None,
    {
        ConversionConfig { beam_size: default_convert_beam_size(), num_candidates: None }
    }
}

impl Default for DiagnosticsConfig {
    fn default() -> (r: Self)
        ensures
            !r.dump_active_config,
            r.warn_on_unknown_key,
    {
        DiagnosticsConfig {
            dump_active_config: default_dump_active_config(),
            warn_on_unknown_key: default_warn_on_unknown_key(),
        }
    }
}

impl AppConfig {
    pub open spec fn is_default(self) -> bool {
        &&& self.general.is_default()
        &&& self.keyboard.layout == KeyboardLayout::Jis
        &&& self.keyboard.reload_on_mode_switch
        &&& self.input.is_default()
        &&& self.live_conversion.is_default()
        &&& self.conversion.beam_size == 6
        &&& self.conversion.num_candidates is None
        &&& self.appearance.candidate_font_height == DEFAULT_CANDIDATE_FONT_HEIGHT
        &&& !self.diagnostics.dump_active_config
        &&& self.diagnostics.warn_on_unknown_key
        &&& self.num_candidates is None
    }

    /// How many candidates to ask for: the key of the conversion section, else
    /// the key of older files, else six; always one to thirty.
    pub open spec fn candidate_count(self) -> int {
        let asked: int = match self.conversion.num_candidates {
            Some(n) => n as int,
            None => match self.num_candidates {
                Some(n) => n as int,
                None => 6,
            },
        };
        clamp_int(asked, 1, 30)
    }

    /// The font height that the candidate window is drawn with.
    pub open spec fn drawn_font_height(self) -> int {
        clamp_int(
            self.appearance.candidate_font_height as int,
            MIN_CANDIDATE_FONT_HEIGHT as int,
            MAX_CANDIDATE_FONT_HEIGHT as int,
        )
    }

    pub fn effective_num_candidates(&self) -> (r: usize)
        ensures
            r == self.candidate_count(),
    {
        let asked: usize = match self.conversion.num_candidates {
            Some(n) => n,
            None => match self.num_candidates {
                Some(n) => n,
                None => 6,
            },
        };
        clamp_usize(asked, 1, 30)
    }
}

impl Default for AppConfig {
    fn default() -> (r: Self)
        ensures
            r.is_default(),
    {
        AppConfig {
            general: GeneralConfig::default(),
            keyboard: KeyboardConfig::default(),
            input: InputConfig::default(),
            live_conversion: LiveConversionConfig::default(),
            conversion: ConversionConfig::default(),
            appearance: AppearanceConfig::default(),
            diagnostics: DiagnosticsConfig::default(),
            num_candidates: None,
        }
    }
}

/// The text of the settings file that is written where there is none.
pub fn default_config_text() -> (r: &'static str)
    ensures
        r@ == DEFAULT_CONFIG_TEXT@,
{
    DEFAULT_CONFIG_TEXT
}

// Reading the file again

/// The font height for painting, kept apart from the settings so that a paint
/// does not wait for them, and the file stamp that was seen with it.
#[derive(Debug, Clone)]
pub struct AppearanceCache {
    pub font_height: i32,
    /// `None` before the first look; `Some(None)` where there was no file.
    pub seen: Option<Option<u128>>,
}

impl AppearanceCache {
    pub fn new() -> (r: Self)
        ensures
            r.font_height == DEFAULT_CANDIDATE_FONT_HEIGHT,
            r.seen is None,
    {
        AppearanceCache { font_height: DEFAULT_CANDIDATE_FONT_HEIGHT, seen: None }
    }

    /// Whether a file with this stamp has not been looked at yet.
    pub open spec fn stale_for(self, modified: Option<u128>) -> bool {
        self.seen != Some(modified)
    }
}

fn same_stamp(a: Option<u128>, b: Option<u128>) -> (r: bool)
    ensures
        r == (a == b),
{
    match a {
        Some(x) => match b {
            Some(y) => x == y,
            None => false,
        },
        None => b.is_none(),
    }
}

pub fn publish_atomics(cache: &mut AppearanceCache, cfg: &AppConfig)
    ensures
        final(cache).font_height == cfg.drawn_font_height(),
        final(cache).seen == old(cache).seen,
{
    cache.font_height = clamp_i32(
        cfg.appearance.candidate_font_height,
        MIN_CANDIDATE_FONT_HEIGHT,
        MAX_CANDIDATE_FONT_HEIGHT,
    );
}

pub fn candidate_font_height(cache: &AppearanceCache) -> (r: i32)
    ensures
        r == cache.font_height,
{
    cache.font_height
}

/// Whether the settings file has to be loaded before
/// [`refresh_appearance_if_changed`] is called with its stamp.
pub fn appearance_needs_load(cache: &AppearanceCache, modified: Option<u128>) -> (r: bool)
    ensures
        r == cache.stale_for(modified),
{
    match cache.seen {
        Some(seen) => !same_stamp(seen, modified),
        None => true,
    }
}

/// Takes the font height from the settings file where its stamp has changed.
/// A file that does not load leaves the font height, and is not tried again
/// before its next change.
pub fn refresh_appearance_if_changed(
    cache: &mut AppearanceCache,
    modified: Option<u128>,
    loaded: Option<&AppConfig>,
)
    ensures
        !old(cache).stale_for(modified) ==> *final(cache) == *old(cache),
        old(cache).stale_for(modified) ==> {
            &&& final(cache).seen == Some(modified)
            &&& final(cache).font_height == (match loaded {
                Some(cfg) => cfg.drawn_font_height(),
                None => old(cache).font_height as int,
            })
        },
{
    if !appearance_needs_load(cache, modified) {
        return;
    }
    cache.seen = Some(modified);
    match loaded {
        Some(cfg) => publish_atomics(cache, cfg),
        None => {},
    }
}

/// The settings in force and the stamp of the file they were read from.
#[derive(Debug, Clone)]
pub struct ConfigManager {
    pub last_modified: Option<u128>,
    pub current: AppConfig,
}

/// A settings file that could not be read or understood.
#[derive(Debug, Clone, Copy, PartialEq, Eq, Structural)]
pub struct ConfigLoadError;

impl ConfigManager {
    /// Starts with the loaded settings, or with the defaults where none load.
    pub fn new(
        cache: &mut AppearanceCache,
        loaded: Option<AppConfig>,
        modified: Option<u128>,
    ) -> (r: Self)
        ensures
            r.last_modified == modified,
            match loaded {
                Some(cfg) => r.current == cfg,
                None => r.current.is_default(),
            },
            final(cache).font_height == r.current.drawn_font_height(),
            final(cache).seen == old(cache).seen,
    {
        let current = match loaded {
            Some(cfg) => cfg,
            None => AppConfig::default(),
        };
        publish_atomics(cache, &current);
        ConfigManager { last_modified: modified, current }
    }

    /// Whether the file has another stamp than the one the settings came from.
    pub fn needs_reload(&self, modified: Option<u128>) -> (r: bool)
        ensures
            r == (modified != self.last_modified),
    {
        !same_stamp(modified, self.last_modified)
    }

    /// Takes over newly loaded settings where the file's stamp has changed. A
    /// file that does not load leaves everything as it was, so that it is tried
    /// again.
    pub fn reload_if_changed(
        &mut self,
        cache: &mut AppearanceCache,
        modified: Option<u128>,
        loaded: Option<AppConfig>,
    ) -> (r: Result<bool, ConfigLoadError>)
        ensures
            modified == old(self).last_modified ==> {
                &&& r == Ok::<bool, ConfigLoadError>(false)
                &&& *final(self) == *old(self)
                &&& *final(cache) == *old(cache)
            },
            modified != old(self).last_modified && loaded is None ==> {
                &&& r == Err::<bool, ConfigLoadError>(ConfigLoadError)
                &&& *final(self) == *old(self)
                &&& *final(cache) == *old(cache)
            },
            modified != old(self).last_modified && loaded is Some ==> {
                &&& r == Ok::<bool, ConfigLoadError>(true)
                &&& final(self).last_modified == modified
                &&& final(self).current == loaded->0
                &&& final(cache).font_height == loaded->0.drawn_font_height()
                &&& final(cache).seen == old(cache).seen
            },
    {
        if !self.needs_reload(modified) {
            return Ok(false);
        }
        match loaded {
            None => Err(ConfigLoadError),
            Some(cfg) => {
                publish_atomics(cache, &cfg);
                self.current = cfg;
                self.last_modified = modified;
                Ok(true)
            },
        }
    }
}

/// Reads the settings again whatever their stamp; the defaults take the place of
/// a file that does not load.
pub fn init_config_manager(
    mgr: &mut ConfigManager,
    cache: &mut AppearanceCache,
    loaded: Option<AppConfig>,
    modified: Option<u128>,
)
    ensures
        final(mgr).last_modified == modified,
        match loaded {
            Some(cfg) => final(mgr).current == cfg,
            None => final(mgr).current.is_default(),
        },
        final(cache).font_height == final(mgr).current.drawn_font_height(),
        final(cache).seen == old(cache).seen,
{
    *mgr = ConfigManager::new(cache, loaded, modified);
}

pub fn current_config(mgr: &ConfigManager) -> (r: &AppConfig)
    ensures
        *r == mgr.current,
{
    &mgr.current
}

pub fn effective_num_candidates(mgr: &ConfigManager) -> (r: usize)
    ensures
        r == mgr.current.candidate_count(),
{
    current_config(mgr).effective_num_candidates()
}

pub fn keyboard_layout(mgr: &ConfigManager) -> (r: KeyboardLayout)
    ensures
        r == mgr.current.keyboard.layout,
{
    current_config(mgr).keyboard.layout
}

/// Reads a changed settings file when the input mode is switched, unless the
/// settings forbid it. Returns whether new settings are in force.
pub fn maybe_reload_on_mode_switch(
    mgr: &mut ConfigManager,
    cache: &mut AppearanceCache,
    modified: Option<u128>,
    loaded: Option<AppConfig>,
) -> (r: bool)
    ensures
        r == (old(mgr).current.keyboard.reload_on_mode_switch && modified != old(mgr).last_modified
            && loaded is Some),
        !r ==> *final(mgr) == *old(mgr) && *final(cache) == *old(cache),
        r ==> {
            &&& final(mgr).last_modified == modified
            &&& final(mgr).current == loaded->0
            &&& final(cache).font_height == loaded->0.drawn_font_height()
            &&& final(cache).seen == old(cache).seen
        },
{
    if !mgr.current.keyboard.reload_on_mode_switch {
        return false;
    }
    match mgr.reload_if_changed(cache, modified, loaded) {
        Ok(changed) => changed,
        Err(_) => false,
    }
}

// Values derived from the settings

pub fn get_num_candidates(mgr: &ConfigManager) -> (r: usize)
    ensures
        r == mgr.current.candidate_count(),
{
    effective_num_candidates(mgr)
}

pub fn get_live_conv_beam_size(mgr: &ConfigManager) -> (r: usize)
    ensures
        r == mgr.current.live_conversion.effective_beam_size(),
{
    clamp_usize(mgr.current.live_conversion.beam_size, 1, 9)
}

pub fn get_live_conv_min_chars(mgr: &ConfigManager) -> (r: usize)
    ensures
        r == mgr.current.live_conversion.effective_min_chars(),
{
    let n = mgr.current.live_conversion.min_chars;
    if n == 0 {
        1
    } else {
        n
    }
}

pub fn is_auto_learn_enabled(mgr: &ConfigManager) -> (r: bool)
    ensures
        r == mgr.current.input.auto_learn,
{
    mgr.current.input.auto_learn
}

pub fn is_digit_separator_auto_enabled(mgr: &ConfigManager) -> (r: bool)
    ensures
        r == mgr.current.input.digit_separator_auto,
{
    mgr.current.input.digit_separator_auto
}

// Laws

/// Whatever a settings file asks for, the values that are used stay in the
/// ranges that the settings documentation gives.
pub proof fn used_settings_stay_in_range(cfg: AppConfig)
    ensures
        1 <= cfg.candidate_count() <= 30,
        MIN_CANDIDATE_FONT_HEIGHT <= cfg.drawn_font_height() <= MAX_CANDIDATE_FONT_HEIGHT,
        1 <= cfg.live_conversion.effective_beam_size() <= 9,
        1 <= cfg.live_conversion.effective_min_chars(),
{
}

/// The key of the conversion section wins over the key of older files, which
/// still counts where the new one is missing.
pub proof fn conversion_section_wins_over_root_key(cfg: AppConfig, n: usize)
    requires
        1 <= n <= 30,
    ensures
        cfg.conversion.num_candidates == Some(n) ==> cfg.candidate_count() == n,
        cfg.conversion.num_candidates is None && cfg.num_candidates == Some(n)
            ==> cfg.candidate_count() == n,
{
}

/// A value that is in range is used as it is, and one that is not is moved to the
/// nearer end of the range.
pub proof fn settings_in_range_are_used_as_they_are(cfg: AppConfig, v: int, lo: int, hi: int)
    requires
        lo <= hi,
    ensures
        lo <= v <= hi ==> clamp_int(v, lo, hi) == v,
        v < lo ==> clamp_int(v, lo, hi) == lo,
        v > hi ==> clamp_int(v, lo, hi) == hi,
        1 <= cfg.live_conversion.beam_size <= 9 ==> cfg.live_conversion.effective_beam_size()
            == cfg.live_conversion.beam_size,
        cfg.live_conversion.beam_size == 0 ==> cfg.live_conversion.effective_beam_size() == 1,
        cfg.live_conversion.beam_size > 9 ==> cfg.live_conversion.effective_beam_size() == 9,
        cfg.live_conversion.min_chars > 0 ==> cfg.live_conversion.effective_min_chars()
            == cfg.live_conversion.min_chars,
        cfg.live_conversion.min_chars == 0 ==> cfg.live_conversion.effective_min_chars() == 1,
        10 <= cfg.appearance.candidate_font_height <= 72 ==> cfg.drawn_font_height()
            == cfg.appearance.candidate_font_height,
        cfg.appearance.candidate_font_height < 10 ==> cfg.drawn_font_height() == 10,
        cfg.appearance.candidate_font_height > 72 ==> cfg.drawn_font_height() == 72,
{
}

/// The number of candidates is the one asked for in the conversion section, else the
/// one of older files, else six, and at least one and at most thirty of them.
pub proof fn candidates_are_counted_as_asked(cfg: AppConfig, n: usize)
    ensures
        cfg.conversion.num_candidates is None && cfg.num_candidates is None
            ==> cfg.candidate_count() == 6,
        cfg.conversion.num_candidates == Some(n) || cfg.conversion.num_candidates is None
            && cfg.num_candidates == Some(n) ==> {
            &&& n < 1 ==> cfg.candidate_count() == 1
            &&& 1 <= n <= 30 ==> cfg.candidate_count() == n
            &&& n > 30 ==> cfg.candidate_count() == 30
        },
{
}

/// Every reading of a number is offered once, plain digits first and formal kanji
/// last.
pub proof fn every_number_reading_is_offered_once(kind: DigitCandidateKind)
    ensures
        all_digit_candidates().contains(kind),
        all_digit_candidates().no_duplicates(),
        all_digit_candidates().first() == DigitCandidateKind::Arabic,
        all_digit_candidates().last() == DigitCandidateKind::Daiji,
{
    let all = all_digit_candidates();
    assert(all[0] == DigitCandidateKind::Arabic);
    assert(all[1] == DigitCandidateKind::Fullwidth);
    assert(all[2] == DigitCandidateKind::Positional);
    assert(all[3] == DigitCandidateKind::PerDigit);
    assert(all[4] == DigitCandidateKind::Daiji);
}

/// Fresh settings start switched off, remember modes, learn, convert live from the
/// third character on and greedily, and offer no optional mode.
pub proof fn fresh_settings_are_the_documented_ones(cfg: AppConfig)
    requires
        cfg.is_default(),
    ensures
        cfg.input.default_mode == DefaultImeMode::Off,
        cfg.input.remember_last_kana_mode,
        cfg.input.auto_learn,
        cfg.input.digit_separator_auto,
        cfg.input.digit_width is Halfwidth,
        cfg.input.alpha_width is Fullwidth,
        cfg.input.symbol_width is Fullwidth,
        !cfg.input.half_katakana_mode_enabled,
        !cfg.input.full_alphanumeric_mode_enabled,
        cfg.keyboard.layout == KeyboardLayout::Jis,
        cfg.keyboard.reload_on_mode_switch,
        cfg.live_conversion.enabled,
        !cfg.live_conversion.use_llm,
        cfg.live_conversion.prefer_dictionary_first,
        cfg.live_conversion.debounce_ms == 80,
        cfg.live_conversion.effective_min_chars() == 3,
        cfg.live_conversion.effective_beam_size() == 1,
        cfg.conversion.beam_size == 6,
        cfg.candidate_count() == 6,
        cfg.drawn_font_height() == 17,
        cfg.general.n_gpu_layers is None,
        cfg.general.main_gpu == 0,
        !cfg.diagnostics.dump_active_config,
        cfg.diagnostics.warn_on_unknown_key,
{
}

/// A file is looked at again exactly when its stamp is another one, and before the
/// first look.
pub proof fn unseen_stamps_are_stale(cache: AppearanceCache, a: Option<u128>, b: Option<u128>)
    ensures
        cache.seen is None ==> cache.stale_for(a),
        cache.seen == Some(a) ==> (cache.stale_for(b) <==> a != b),
{
}

}
