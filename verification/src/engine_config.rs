//! The settings that the conversion engine is started with, as JSON text.
use vstd::prelude::*;
use vstd::string::*;
use crate::config;
use crate::config::{
    AlphaWidth, AppConfig, DigitCandidateKind, DigitWidth, SymbolWidth, clamp_usize,
};
use crate::text;
use crate::text::{decimal_int_text, decimal_text};

verus! {

pub open spec fn width_text(full: bool) -> Seq<char> {
    if full {
        "fullwidth"@
    } else {
        "halfwidth"@
    }
}

pub open spec fn bool_text(b: bool) -> Seq<char> {
    if b {
        "true"@
    } else {
        "false"@
    }
}

/// A kind of number candidate, as a JSON string.
pub open spec fn kind_text(kind: DigitCandidateKind) -> Seq<char> {
    match kind {
        DigitCandidateKind::Arabic => "\"arabic\""@,
        DigitCandidateKind::Fullwidth => "\"fullwidth\""@,
        DigitCandidateKind::Positional => "\"positional\""@,
        DigitCandidateKind::PerDigit => "\"per_digit\""@,
        DigitCandidateKind::Daiji => "\"daiji\""@,
    }
}

/// The kinds in order, with commas between them.
pub open spec fn kinds_text(kinds: Seq<DigitCandidateKind>) -> Seq<char>
    decreases kinds.len(),
{
    if kinds.len() == 0 {
        Seq::empty()
    } else if kinds.len() == 1 {
        kind_text(kinds[0])
    } else {
        kinds_text(kinds.drop_last()) + ","@ + kind_text(kinds.last())
    }
}

/// All GPU layers are asked for where the settings name no number.
pub open spec fn gpu_layers(cfg: AppConfig) -> u32 {
    match cfg.general.n_gpu_layers {
        Some(n) => n,
        None => u32::MAX,
    }
}

pub open spec fn model_variant_text(variant: Option<String>) -> Seq<char> {
    match variant {
        Some(v) => ",\"model_variant\":\""@ + v@ + "\""@,
        None => Seq::empty(),
    }
}

/// The whole JSON object, key by key.
pub open spec fn engine_config_text(cfg: AppConfig) -> Seq<char> {
    "{\"num_candidates\":"@ + text::decimal(cfg.candidate_count() as nat) + ",\"n_gpu_layers\":"@
        + text::decimal(gpu_layers(cfg) as nat) + ",\"main_gpu\":"@ + text::decimal_int(
        cfg.general.main_gpu as int,
    ) + ",\"n_threads\":0,\"digit_width\":\""@ + width_text(cfg.input.digit_width is Fullwidth)
        + "\",\"alpha_width\":\""@ + width_text(cfg.input.alpha_width is Fullwidth)
        + "\",\"symbol_width\":\""@ + width_text(cfg.input.symbol_width is Fullwidth)
        + "\",\"digit_separator_auto\":"@ + bool_text(cfg.input.digit_separator_auto)
        + ",\"digit_candidates_order\":["@ + kinds_text(cfg.input.digit_candidates_order@)
        + "],\"live_conv_beam_size\":"@ + text::decimal(
        cfg.live_conversion.effective_beam_size() as nat,
    ) + ",\"convert_beam_size\":"@ + text::decimal(
        config::clamp_int(cfg.conversion.beam_size as int, 1, 30) as nat,
    ) + model_variant_text(cfg.general.model_variant) + "}"@
}

fn width_name(full: bool) -> (r: &'static str)
    ensures
        r@ == width_text(full),
{
    if full {
        "fullwidth"
    } else {
        "halfwidth"
    }
}

fn kind_name(kind: &DigitCandidateKind) -> (r: &'static str)
    ensures
        r@ == kind_text(*kind),
{
    match kind {
        DigitCandidateKind::Arabic => "\"arabic\"",
        DigitCandidateKind::Fullwidth => "\"fullwidth\"",
        DigitCandidateKind::Positional => "\"positional\"",
        DigitCandidateKind::PerDigit => "\"per_digit\"",
        DigitCandidateKind::Daiji => "\"daiji\"",
    }
}

fn kinds_list(kinds: &Vec<DigitCandidateKind>) -> (r: String)
    ensures
        r@ == kinds_text(kinds@),
{
    let mut r = String::new();
    let mut i: usize = 0;
    while i < kinds.len()
        invariant
            i <= kinds@.len(),
            r@ == kinds_text(kinds@.take(i as int)),
        decreases kinds@.len() - i,
    {
        let ghost longer = kinds@.take(i + 1);
        assert(longer.drop_last() =~= kinds@.take(i as int));
        assert(longer.last() == kinds@[i as int]);
        if i > 0 {
            r.append(",");
        }
        r.append(kind_name(&kinds[i]));
        assert(r@ =~= kinds_text(longer));
        i = i + 1;
    }
    assert(kinds@.take(kinds@.len() as int) =~= kinds@);
    r
}

pub fn build_engine_config_json(cfg: &AppConfig) -> (r: String)
    ensures
        r@ == engine_config_text(*cfg),
{
    let n_gpu_layers: u32 = match cfg.general.n_gpu_layers {
        Some(n) => n,
        None => u32::MAX,
    };
    let digit_full = match cfg.input.digit_width {
        DigitWidth::Fullwidth => true,
        DigitWidth::Halfwidth => false,
    };
    let alpha_full = match cfg.input.alpha_width {
        AlphaWidth::Fullwidth => true,
        AlphaWidth::Halfwidth => false,
    };
    let symbol_full = match cfg.input.symbol_width {
        SymbolWidth::Fullwidth => true,
        SymbolWidth::Halfwidth => false,
    };
    let live_beam: usize = clamp_usize(cfg.live_conversion.beam_size, 1, 9);
    let convert_beam: usize = clamp_usize(cfg.conversion.beam_size, 1, 30);
    let mut r = "{\"num_candidates\":".to_owned();
    r.append(decimal_text(cfg.effective_num_candidates() as u64).as_str());
    r.append(",\"n_gpu_layers\":");
    r.append(decimal_text(n_gpu_layers as u64).as_str());
    r.append(",\"main_gpu\":");
    r.append(decimal_int_text(cfg.general.main_gpu as i64).as_str());
    r.append(",\"n_threads\":0,\"digit_width\":\"");
    r.append(width_name(digit_full));
    r.append("\",\"alpha_width\":\"");
    r.append(width_name(alpha_full));
    r.append("\",\"symbol_width\":\"");
    r.append(width_name(symbol_full));
    r.append("\",\"digit_separator_auto\":");
    r.append(if cfg.input.digit_separator_auto { "true" } else { "false" });
    r.append(",\"digit_candidates_order\":[");
    r.append(kinds_list(&cfg.input.digit_candidates_order).as_str());
    r.append("],\"live_conv_beam_size\":");
    r.append(decimal_text(live_beam as u64).as_str());
    r.append(",\"convert_beam_size\":");
    r.append(decimal_text(convert_beam as u64).as_str());
    if let Some(v) = &cfg.general.model_variant {
        r.append(",\"model_variant\":\"");
        r.append(v.as_str());
        r.append("\"");
    }
    r.append("}");
    assert(r@ =~= engine_config_text(*cfg));
    r
}

/// The engine only ever gets widths of beams and lists that it can work with.
pub proof fn engine_settings_stay_in_range(cfg: AppConfig)
    ensures
        1 <= cfg.candidate_count() <= 30,
        1 <= cfg.live_conversion.effective_beam_size() <= 9,
        1 <= config::clamp_int(cfg.conversion.beam_size as int, 1, 30) <= 30,
        cfg.general.n_gpu_layers is None ==> gpu_layers(cfg) == u32::MAX,
{
}

/// The engine is told widths and kinds of number candidates by the names that a
/// settings file has for them.
pub proof fn the_engine_is_told_by_name(kind: DigitCandidateKind, full: bool, on: bool)
    ensures
        crate::config_file::width_named(width_text(full)) == Some(full),
        kind_text(kind).len() > 2,
        kind_text(kind).first() == '"' && kind_text(kind).last() == '"',
        crate::config_file::kind_named(kind_text(kind).subrange(1, kind_text(kind).len() - 1))
            == Some(kind),
        bool_text(on) == "true"@ <==> on,
        bool_text(on) == "false"@ <==> !on,
{
    reveal_strlit("true");
    reveal_strlit("false");
    assert("true"@.len() == 4 && "false"@.len() == 5);
    crate::config_file::choices_go_by_their_names("fullwidth"@);
    crate::config_file::choices_go_by_their_names("halfwidth"@);
    reveal_strlit("\"arabic\"");
    reveal_strlit("\"fullwidth\"");
    reveal_strlit("\"positional\"");
    reveal_strlit("\"per_digit\"");
    reveal_strlit("\"daiji\"");
    reveal_strlit("arabic");
    reveal_strlit("fullwidth");
    reveal_strlit("positional");
    reveal_strlit("per_digit");
    reveal_strlit("daiji");
    let inner = kind_text(kind).subrange(1, kind_text(kind).len() - 1);
    crate::config_file::choices_go_by_their_names(inner);
    match kind {
        DigitCandidateKind::Arabic => {
            assert(inner =~= "arabic"@);
        },
        DigitCandidateKind::Fullwidth => {
            assert(inner =~= "fullwidth"@);
        },
        DigitCandidateKind::Positional => {
            assert(inner =~= "positional"@);
        },
        DigitCandidateKind::PerDigit => {
            assert(inner =~= "per_digit"@);
        },
        DigitCandidateKind::Daiji => {
            assert(inner =~= "daiji"@);
        },
    }
}

/// The kinds are listed in their order, with commas between them.
pub proof fn kinds_are_listed_in_order(kinds: Seq<DigitCandidateKind>, kind: DigitCandidateKind)
    ensures
        kinds_text(Seq::empty()).len() == 0,
        kinds_text(seq![kind]) == kind_text(kind),
        kinds.len() > 0 ==> kinds_text(kinds.push(kind)) == kinds_text(kinds).push(',') + kind_text(
            kind,
        ),
{
    reveal_strlit(",");
    assert(kinds.push(kind).drop_last() =~= kinds);
    if kinds.len() > 0 {
        assert(kinds_text(kinds.push(kind)) =~= kinds_text(kinds).push(',') + kind_text(kind));
    }
}

/// The first `k` parts of a text, one behind the other.
spec fn joined(parts: Seq<Seq<char>>, k: nat) -> Seq<char>
    decreases k,
{
    if k == 0 {
        Seq::empty()
    } else {
        joined(parts, (k - 1) as nat) + parts[k - 1]
    }
}

/// Two neighbouring parts stand in the whole text.
proof fn lemma_neighbours(parts: Seq<Seq<char>>, k: nat, i: int)
    requires
        0 <= i,
        i + 2 <= k <= parts.len(),
    ensures
        text::contains_text(joined(parts, k), parts[i] + parts[i + 1]),
    decreases k,
{
    let pat = parts[i] + parts[i + 1];
    let all = joined(parts, k);
    if i + 2 == k {
        let before = joined(parts, i as nat);
        reveal_with_fuel(joined, 3);
        assert(all =~= before + pat);
        assert(all.subrange(before.len() as int, (before.len() + pat.len()) as int) =~= pat);
        assert(text::occurs_at(all, before.len() as int, pat));
    } else {
        lemma_neighbours(parts, (k - 1) as nat, i);
        let shorter = joined(parts, (k - 1) as nat);
        let at = choose|at: int| #[trigger] text::occurs_at(shorter, at, pat);
        assert(all.subrange(at, at + pat.len()) =~= shorter.subrange(at, at + pat.len()));
        assert(text::occurs_at(all, at, pat));
    }
}

/// The engine gets the number of candidates, the layers, the card, the widths and
/// the beams that the settings ask for, each behind its own key.
pub proof fn the_engine_gets_the_settings(cfg: AppConfig)
    ensures
        ({
            let all = engine_config_text(cfg);
            let layers = match cfg.general.n_gpu_layers {
                Some(n) => n,
                None => u32::MAX,
            };
            let beam = if cfg.conversion.beam_size == 0 {
                1
            } else if cfg.conversion.beam_size > 30 {
                30
            } else {
                cfg.conversion.beam_size as nat
            };
            &&& text::contains_text(
                all,
                "{\"num_candidates\":"@ + text::decimal(cfg.candidate_count() as nat),
            )
            &&& text::contains_text(all, ",\"n_gpu_layers\":"@ + text::decimal(layers as nat))
            &&& text::contains_text(
                all,
                ",\"main_gpu\":"@ + text::decimal_int(cfg.general.main_gpu as int),
            )
            &&& text::contains_text(
                all,
                ",\"n_threads\":0,\"digit_width\":\""@ + width_text(
                    cfg.input.digit_width is Fullwidth,
                ),
            )
            &&& text::contains_text(
                all,
                "\",\"alpha_width\":\""@ + width_text(cfg.input.alpha_width is Fullwidth),
            )
            &&& text::contains_text(
                all,
                "\",\"symbol_width\":\""@ + width_text(cfg.input.symbol_width is Fullwidth),
            )
            &&& text::contains_text(
                all,
                "\",\"digit_separator_auto\":"@ + bool_text(cfg.input.digit_separator_auto),
            )
            &&& text::contains_text(
                all,
                ",\"digit_candidates_order\":["@ + kinds_text(cfg.input.digit_candidates_order@),
            )
            &&& text::contains_text(
                all,
                "],\"live_conv_beam_size\":"@ + text::decimal(
                    cfg.live_conversion.effective_beam_size() as nat,
                ),
            )
            &&& text::contains_text(all, ",\"convert_beam_size\":"@ + text::decimal(beam))
            &&& cfg.general.model_variant is Some ==> text::contains_text(
                all,
                ",\"model_variant\":\""@ + cfg.general.model_variant->0@ + "\""@ + "}"@,
            )
        }),
{
    let parts = seq![
        "{\"num_candidates\":"@,
        text::decimal(cfg.candidate_count() as nat),
        ",\"n_gpu_layers\":"@,
        text::decimal(gpu_layers(cfg) as nat),
        ",\"main_gpu\":"@,
        text::decimal_int(cfg.general.main_gpu as int),
        ",\"n_threads\":0,\"digit_width\":\""@,
        width_text(cfg.input.digit_width is Fullwidth),
        "\",\"alpha_width\":\""@,
        width_text(cfg.input.alpha_width is Fullwidth),
        "\",\"symbol_width\":\""@,
        width_text(cfg.input.symbol_width is Fullwidth),
        "\",\"digit_separator_auto\":"@,
        bool_text(cfg.input.digit_separator_auto),
        ",\"digit_candidates_order\":["@,
        kinds_text(cfg.input.digit_candidates_order@),
        "],\"live_conv_beam_size\":"@,
        text::decimal(cfg.live_conversion.effective_beam_size() as nat),
        ",\"convert_beam_size\":"@,
        text::decimal(config::clamp_int(cfg.conversion.beam_size as int, 1, 30) as nat),
        model_variant_text(cfg.general.model_variant),
        "}"@,
    ];
    assert(engine_config_text(cfg) == joined(parts, 22)) by {
        reveal_with_fuel(joined, 23);
        assert(Seq::<char>::empty() + parts[0] =~= parts[0]);
    }
    lemma_neighbours(parts, 22, 0);
    lemma_neighbours(parts, 22, 2);
    lemma_neighbours(parts, 22, 4);
    lemma_neighbours(parts, 22, 6);
    lemma_neighbours(parts, 22, 8);
    lemma_neighbours(parts, 22, 10);
    lemma_neighbours(parts, 22, 12);
    lemma_neighbours(parts, 22, 14);
    lemma_neighbours(parts, 22, 16);
    lemma_neighbours(parts, 22, 18);
    lemma_neighbours(parts, 22, 20);
}

}
