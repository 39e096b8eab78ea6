//! What a key leads to: steps for the engine, the candidate window and the
//! document, carried out in order.
use vstd::prelude::*;
use vstd::string::*;
use crate::text;

verus! {

/// One step.
pub enum Step {
    /// Take back a conversion that runs in the background.
    Reclaim,
    /// Replace the engine's text.
    ForcePreedit { text: String },
    /// Tell the engine what was committed.
    Commit { text: String },
    ResetPreedit,
    ResetAll,
    /// Give characters to the engine one by one, without romaji conversion.
    PushRaw { text: String },
    Learn { reading: String, text: String },
    /// Learn even what is learned only after some time otherwise.
    LearnForce { reading: String, text: String },
    /// Start a live conversion of the reading if it is long enough.
    StartLive { reading: String },
    /// Everything that runs for earlier text is out of date.
    BumpGeneration,
    /// The next live preview is not to be committed.
    SuppressCommit,
    HideCandidates,
    StopLiveTimer,
    StopWaitingTimer,
    StartWaitingTimer,
    /// Previews that wait to be shown are dropped.
    ClearPreviews,
    UpdateSelection { index: usize, info: String },
    /// Show candidates at a place, or at the caret.
    ShowCandidates {
        page: Vec<String>,
        index: usize,
        info: String,
        place: Option<(i32, i32)>,
        clear_status: bool,
    },
    /// Show text that is being composed.
    SetComposition { text: String },
    /// The same, in three parts of which the middle one is marked.
    SetParts { prefix: String, candidate: String, remainder: String },
    /// The same, in two parts of which the first one is marked.
    SetRange { chosen: String, rest: String },
    /// Put the text into the document for good.
    EndComposition { text: String },
    /// Put the text into the document, and go on composing what the engine holds.
    CommitAndContinue { text: String },
}

#[verifier::ext_equal]
pub enum StepModel {
    Reclaim,
    ForcePreedit { text: Seq<char> },
    Commit { text: Seq<char> },
    ResetPreedit,
    ResetAll,
    PushRaw { text: Seq<char> },
    Learn { reading: Seq<char>, text: Seq<char> },
    LearnForce { reading: Seq<char>, text: Seq<char> },
    StartLive { reading: Seq<char> },
    BumpGeneration,
    SuppressCommit,
    HideCandidates,
    StopLiveTimer,
    StopWaitingTimer,
    StartWaitingTimer,
    ClearPreviews,
    UpdateSelection { index: int, info: Seq<char> },
    ShowCandidates {
        page: Seq<Seq<char>>,
        index: int,
        info: Seq<char>,
        place: Option<(i32, i32)>,
        clear_status: bool,
    },
    SetComposition { text: Seq<char> },
    SetParts { prefix: Seq<char>, candidate: Seq<char>, remainder: Seq<char> },
    SetRange { chosen: Seq<char>, rest: Seq<char> },
    EndComposition { text: Seq<char> },
    CommitAndContinue { text: Seq<char> },
}

impl View for Step {
    type V = StepModel;

    open spec fn view(&self) -> StepModel {
        match self {
            Step::Reclaim => StepModel::Reclaim,
            Step::ForcePreedit { text } => StepModel::ForcePreedit { text: text@ },
            Step::Commit { text } => StepModel::Commit { text: text@ },
            Step::ResetPreedit => StepModel::ResetPreedit,
            Step::ResetAll => StepModel::ResetAll,
            Step::PushRaw { text } => StepModel::PushRaw { text: text@ },
            Step::Learn { reading, text } => StepModel::Learn { reading: reading@, text: text@ },
            Step::LearnForce { reading, text } => StepModel::LearnForce {
                reading: reading@,
                text: text@,
            },
            Step::StartLive { reading } => StepModel::StartLive { reading: reading@ },
            Step::BumpGeneration => StepModel::BumpGeneration,
            Step::SuppressCommit => StepModel::SuppressCommit,
            Step::HideCandidates => StepModel::HideCandidates,
            Step::StopLiveTimer => StepModel::StopLiveTimer,
            Step::StopWaitingTimer => StepModel::StopWaitingTimer,
            Step::StartWaitingTimer => StepModel::StartWaitingTimer,
            Step::ClearPreviews => StepModel::ClearPreviews,
            Step::UpdateSelection { index, info } => StepModel::UpdateSelection {
                index: *index as int,
                info: info@,
            },
            Step::ShowCandidates { page, index, info, place, clear_status } => {
                StepModel::ShowCandidates {
                    page: text::texts(page@),
                    index: *index as int,
                    info: info@,
                    place: *place,
                    clear_status: *clear_status,
                }
            },
            Step::SetComposition { text } => StepModel::SetComposition { text: text@ },
            Step::SetParts { prefix, candidate, remainder } => StepModel::SetParts {
                prefix: prefix@,
                candidate: candidate@,
                remainder: remainder@,
            },
            Step::SetRange { chosen, rest } => StepModel::SetRange {
                chosen: chosen@,
                rest: rest@,
            },
            Step::EndComposition { text } => StepModel::EndComposition { text: text@ },
            Step::CommitAndContinue { text } => StepModel::CommitAndContinue { text: text@ },
        }
    }
}

pub open spec fn step_models(steps: Seq<Step>) -> Seq<StepModel> {
    steps.map_values(|s: Step| s@)
}

/// What a key led to: whether it is kept from the application, and the steps.
pub struct Outcome {
    pub eaten: bool,
    pub steps: Vec<Step>,
}

#[verifier::ext_equal]
pub struct OutcomeModel {
    pub eaten: bool,
    pub steps: Seq<StepModel>,
}

impl View for Outcome {
    type V = OutcomeModel;

    open spec fn view(&self) -> OutcomeModel {
        OutcomeModel { eaten: self.eaten, steps: step_models(self.steps@) }
    }
}

impl OutcomeModel {
    /// No steps.
    pub open spec fn nothing(eaten: bool) -> OutcomeModel {
        OutcomeModel { eaten, steps: Seq::empty() }
    }

    /// The key is kept and the steps are carried out.
    pub open spec fn did(steps: Seq<StepModel>) -> OutcomeModel {
        OutcomeModel { eaten: true, steps }
    }
}

impl Outcome {
    /// No steps.
    pub fn nothing(eaten: bool) -> (r: Self)
        ensures
            r@ == OutcomeModel::nothing(eaten),
    {
        let r = Outcome { eaten, steps: Vec::new() };
        assert(step_models(r.steps@) =~= Seq::empty());
        r
    }

    /// The key is kept and the steps are carried out.
    pub fn did(steps: Vec<Step>) -> (r: Self)
        ensures
            r@ == OutcomeModel::did(step_models(steps@)),
    {
        Outcome { eaten: true, steps }
    }
}

/// Text that a list of steps puts into the document for good.
pub open spec fn committed_text(steps: Seq<StepModel>) -> Seq<char>
    decreases steps.len(),
{
    if steps.len() == 0 {
        Seq::empty()
    } else {
        committed_text(steps.drop_last()) + (match steps.last() {
            StepModel::EndComposition { text } => text,
            StepModel::CommitAndContinue { text } => text,
            _ => Seq::empty(),
        })
    }
}

/// The engine's text after the first `k` steps, from what it held before.
pub open spec fn engine_text_upto(steps: Seq<StepModel>, before: Seq<char>, k: nat) -> Seq<char>
    decreases k,
{
    if k == 0 {
        before
    } else {
        let held = engine_text_upto(steps, before, (k - 1) as nat);
        match steps[k - 1] {
            StepModel::ForcePreedit { text } => text,
            StepModel::PushRaw { text } => held + text,
            StepModel::ResetPreedit => Seq::empty(),
            StepModel::ResetAll => Seq::empty(),
            _ => held,
        }
    }
}

/// The engine's text after all steps.
pub open spec fn engine_text_after(steps: Seq<StepModel>, before: Seq<char>) -> Seq<char> {
    engine_text_upto(steps, before, steps.len())
}

/// The text that stands in the document as being composed once a step is carried
/// out; `engine` is what the engine holds then.
pub open spec fn composed_by(step: StepModel, engine: Seq<char>) -> Option<Seq<char>> {
    match step {
        StepModel::SetComposition { text } => Some(text),
        StepModel::SetParts { prefix, candidate, remainder } => Some(
            prefix + candidate + remainder,
        ),
        StepModel::SetRange { chosen, rest } => Some(chosen + rest),
        StepModel::EndComposition { text } => Some(Seq::empty()),
        StepModel::CommitAndContinue { text } => Some(engine),
        _ => None,
    }
}

/// Handling a key without any steps and keeping it without handling it are told
/// apart: an outcome with steps always keeps the key.
pub proof fn outcomes_keep_what_they_are_given(eaten: bool, steps: Seq<StepModel>)
    ensures
        OutcomeModel::nothing(eaten).eaten == eaten,
        OutcomeModel::nothing(eaten).steps.len() == 0,
        OutcomeModel::did(steps).eaten,
        OutcomeModel::did(steps).steps == steps,
        OutcomeModel::did(steps) == OutcomeModel::nothing(eaten) ==> eaten && steps.len() == 0,
{
}

}
