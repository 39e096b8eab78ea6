//! Which committed candidates are learned.
use vstd::prelude::*;
use vstd::string::*;
use crate::config::ConfigManager;
use crate::config::is_auto_learn_enabled;
use crate::session::CandidateViewSource;
use crate::text::str_eq;

verus! {

/// Sources whose candidates are worth learning: the model, the dictionary, and a
/// live preview that was taken over.
pub open spec fn learning_source(source: CandidateViewSource) -> bool {
    source is Bg || source is Dict || source is LivePreview
}

pub fn is_candidate_learning_target(source: CandidateViewSource) -> (r: bool)
    ensures
        r == learning_source(source),
{
    match source {
        CandidateViewSource::Bg => true,
        CandidateViewSource::Dict => true,
        CandidateViewSource::LivePreview => true,
        CandidateViewSource::Preedit => false,
        CandidateViewSource::Fallback => false,
        CandidateViewSource::Reconversion => false,
    }
}

/// Learning is switched on, the text says more than its reading, and its source,
/// where one is known, is worth learning.
pub open spec fn learns(
    auto_learn: bool,
    reading: Seq<char>,
    text: Seq<char>,
    source: Option<CandidateViewSource>,
) -> bool {
    auto_learn && text != reading && (source is Some ==> learning_source(source->0))
}

pub fn should_learn_and_log(
    mgr: &ConfigManager,
    reading: &str,
    text: &str,
    source: Option<CandidateViewSource>,
) -> (r: bool)
    ensures
        r == learns(mgr.current.input.auto_learn, reading@, text@, source),
{
    if !is_auto_learn_enabled(mgr) {
        return false;
    }
    if str_eq(text, reading) {
        return false;
    }
    match source {
        Some(s) => is_candidate_learning_target(s),
        None => true,
    }
}

/// Nothing is learned while learning is switched off, and a reading is never
/// learned as its own conversion.
pub proof fn learning_is_withheld(
    reading: Seq<char>,
    text: Seq<char>,
    source: Option<CandidateViewSource>,
    auto_learn: bool,
)
    ensures
        !learns(false, reading, text, source),
        !learns(auto_learn, reading, reading, source),
        !learns(auto_learn, reading, text, Some(CandidateViewSource::Fallback)),
        !learns(auto_learn, reading, text, Some(CandidateViewSource::Preedit)),
{
}

/// A conversion by the model, the dictionary or a live preview that says more than
/// its reading is learned wherever learning is on; one whose source is not known
/// too. Text that was never converted, or was taken from the document, is not.
pub proof fn conversions_are_learned(
    reading: Seq<char>,
    text: Seq<char>,
    source: CandidateViewSource,
)
    requires
        text != reading,
    ensures
        learns(true, reading, text, None),
        learns(true, reading, text, Some(source)) <==> source == CandidateViewSource::Bg || source
            == CandidateViewSource::Dict || source == CandidateViewSource::LivePreview,
        learning_source(source) <==> !(source is Preedit || source is Fallback
            || source is Reconversion),
{
}

}
