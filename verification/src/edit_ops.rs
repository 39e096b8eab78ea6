//! Keys that act on text being composed: kana and letter forms, candidates,
//! blocks, ranges and punctuation.
//!
//! Each handler changes the session and gives the steps that follow. What it
//! needs of the engine comes as arguments; `None` stands for no engine.
use vstd::prelude::*;
use vstd::string::*;
use crate::config::{ConfigManager, is_digit_separator_auto_enabled};
use crate::learning::should_learn_and_log;
use crate::session::{CandidateViewSource, ListModel, SessionModel, SessionState};
use crate::steps::{Outcome, OutcomeModel, Step, StepModel};
use crate::steps;
use crate::text;
use crate::text::{chars_of, concat2, concat3, with_char};

verus! {

#[derive(Clone, Copy, Debug, PartialEq, Eq, Structural)]
pub enum CandidateDir {
    Next,
    Prev,
}

impl ListModel {
    /// What the list shows in the document: the chosen candidate, or the reading
    /// where there is none.
    pub open spec fn shown_text(self) -> Seq<char> {
        match self.current_view() {
            Some(v) => v.text,
            None => self.original_preedit,
        }
    }

    /// The step that shows the page in view.
    pub open spec fn page_shown(self, place: Option<(i32, i32)>, clear_status: bool) -> StepModel {
        StepModel::ShowCandidates {
            page: if self.len() > 0 {
                self.page_texts()
            } else {
                Seq::empty()
            },
            index: self.selected - self.page_first(),
            info: self.page_label(),
            place,
            clear_status,
        }
    }

    /// The step that shows the list's text in the document.
    pub open spec fn parts_shown(self) -> StepModel {
        StepModel::SetParts {
            prefix: self.prefix,
            candidate: self.shown_text(),
            remainder: self.remainder,
        }
    }

    /// All that the list stands for in the document.
    pub open spec fn whole_text(self) -> Seq<char> {
        self.prefix + self.shown_text() + self.remainder
    }
}

impl SessionModel {
    /// The text of the first page of the block in focus.
    pub open spec fn block_page(self) -> Seq<Seq<char>> {
        match self.focused_block() {
            Some(b) => if b.candidates.len() <= crate::session_blocks::BLOCK_PAGE_SIZE {
                b.candidates
            } else {
                b.candidates.take(crate::session_blocks::BLOCK_PAGE_SIZE as int)
            },
            None => Seq::empty(),
        }
    }

    pub open spec fn block_page_index(self) -> int {
        match self.focused_block() {
            Some(b) => if b.selected < crate::session_blocks::BLOCK_PAGE_SIZE {
                b.selected as int
            } else {
                crate::session_blocks::BLOCK_PAGE_SIZE - 1
            },
            None => 0,
        }
    }

    /// The steps that show a row of blocks.
    pub open spec fn blocks_shown(self) -> Seq<StepModel> {
        seq![
            StepModel::UpdateSelection { index: self.block_page_index(), info: Seq::empty() },
            StepModel::ShowCandidates {
                page: self.block_page(),
                index: self.block_page_index(),
                info: Seq::empty(),
                place: None,
                clear_status: false,
            },
            StepModel::SetParts {
                prefix: self.block_parts()->Some_0.0,
                candidate: self.block_parts()->Some_0.1,
                remainder: self.block_parts()->Some_0.2,
            },
        ]
    }

    pub open spec fn range_shown(self) -> StepModel {
        StepModel::SetRange {
            chosen: self.range_parts()->Some_0.0,
            rest: self.range_parts()->Some_0.1,
        }
    }

    /// The text that stands in the document, as far as the session knows it.
    pub open spec fn visible_text(self) -> Seq<char> {
        match self {
            SessionModel::LiveConv { preview, .. } => preview,
            SessionModel::BlockSelecting { blocks, .. } => crate::session::block_text(blocks),
            SessionModel::Selecting { list } => list.whole_text(),
            SessionModel::RangeSelect { full_reading, .. } => full_reading,
            SessionModel::Waiting { text, .. } => text,
            _ => Seq::empty(),
        }
    }
}

/// The steps that show the page in view, in reaction to a key.
pub(crate) fn show_page(sess: &SessionState, place: Option<(i32, i32)>, clear_status: bool) -> (r: Step)
    requires
        sess@ is Selecting,
        sess@.well_formed(),
    ensures
        r@ == sess@->list.page_shown(place, clear_status),
{
    proof {
        crate::paging::lemma_page_start(
            sess@->list.selected as int,
            sess@->list.page_size as int,
        );
    }
    Step::ShowCandidates {
        page: sess.page_candidates(),
        index: sess.page_selected(),
        info: sess.page_info(),
        place,
        clear_status,
    }
}

/// What a candidate list shows in the document.
pub(crate) fn list_text(sess: &SessionState) -> (r: String)
    requires
        sess@ is Selecting,
    ensures
        r@ == sess@->list.shown_text(),
{
    match sess.current_candidate() {
        Some(c) => c.to_owned(),
        None => match sess.original_preedit() {
            Some(p) => p.to_owned(),
            None => String::new(),
        },
    }
}

pub(crate) fn show_parts(sess: &SessionState) -> (r: Step)
    requires
        sess@ is Selecting,
    ensures
        r@ == sess@->list.parts_shown(),
{
    Step::SetParts {
        prefix: sess.selecting_prefix_clone(),
        candidate: list_text(sess),
        remainder: sess.selecting_remainder_clone(),
    }
}

fn show_blocks(sess: &SessionState) -> (r: Outcome)
    requires
        sess@ is BlockSelecting,
    ensures
        r@ == OutcomeModel::did(sess@.blocks_shown()),
{
    let page = sess.block_selecting_page_candidates();
    let index: usize = sess.block_selecting_page_selected();
    let (prefix, candidate, remainder) = match sess.block_selecting_composition_parts() {
        Some(parts) => parts,
        None => (String::new(), String::new(), String::new()),
    };
    let steps = vec![
        Step::UpdateSelection { index, info: String::new() },
        Step::ShowCandidates {
            page,
            index,
            info: String::new(),
            place: None,
            clear_status: false,
        },
        Step::SetParts { prefix, candidate, remainder },
    ];
    assert(steps::step_models(steps@) =~= sess@.blocks_shown());
    Outcome::did(steps)
}

fn show_range(sess: &SessionState) -> (r: Step)
    requires
        sess@ is RangeSelect,
    ensures
        r@ == sess@.range_shown(),
{
    match sess.range_select_parts() {
        Some((chosen, rest)) => Step::SetRange { chosen, rest },
        None => Step::SetRange { chosen: String::new(), rest: String::new() },
    }
}

/// The session after the candidate keys.
pub open spec fn candidate_moved(s: SessionModel, dir: CandidateDir) -> SessionModel {
    match (s, dir) {
        (SessionModel::BlockSelecting { .. }, CandidateDir::Next) => s.after_block_next(),
        (SessionModel::BlockSelecting { .. }, CandidateDir::Prev) => s.after_block_prev(),
        (_, CandidateDir::Next) => s.map_list(|l: ListModel| l.after_next()),
        (_, CandidateDir::Prev) => s.map_list(|l: ListModel| l.after_prev()),
    }
}

/// The session after the page keys. A row of blocks has one page, so that they
/// act as the candidate keys there.
pub open spec fn page_moved(s: SessionModel, dir: CandidateDir) -> SessionModel {
    match (s, dir) {
        (SessionModel::BlockSelecting { .. }, CandidateDir::Next) => s.after_block_next(),
        (SessionModel::BlockSelecting { .. }, CandidateDir::Prev) => s.after_block_prev(),
        (_, CandidateDir::Next) => s.map_list(|l: ListModel| l.after_next_page()),
        (_, CandidateDir::Prev) => s.map_list(|l: ListModel| l.after_prev_page()),
    }
}

/// Next and previous candidate. `has_preedit` tells whether the engine holds text.
pub fn on_candidate_move(sess: &mut SessionState, has_preedit: bool, dir: CandidateDir) -> (r:
    Outcome)
    requires
        old(sess)@.well_formed(),
    ensures
        final(sess)@.well_formed(),
        final(sess)@ == candidate_moved(old(sess)@, dir),
        r@ == (match final(sess)@ {
            SessionModel::BlockSelecting { .. } => OutcomeModel::did(final(sess)@.blocks_shown()),
            SessionModel::Selecting { list } => OutcomeModel::did(
                seq![
                    StepModel::UpdateSelection {
                        index: list.selected - list.page_first(),
                        info: list.page_label(),
                    },
                    list.page_shown(None, false),
                    list.parts_shown(),
                ],
            ),
            _ => OutcomeModel::nothing(has_preedit),
        }),
{
    if sess.is_block_selecting() {
        match dir {
            CandidateDir::Next => sess.block_selecting_next(),
            CandidateDir::Prev => sess.block_selecting_prev(),
        }
        return show_blocks(sess);
    }
    if !sess.is_selecting() {
        return Outcome::nothing(has_preedit);
    }
    match dir {
        CandidateDir::Next => sess.next_with_page_wrap(),
        CandidateDir::Prev => sess.prev(),
    }
    let steps = vec![
        Step::UpdateSelection { index: sess.page_selected(), info: sess.page_info() },
        show_page(sess, None, false),
        show_parts(sess),
    ];
    assert(steps::step_models(steps@) =~= seq![
        StepModel::UpdateSelection {
            index: sess@->list.selected - sess@->list.page_first(),
            info: sess@->list.page_label(),
        },
        sess@->list.page_shown(None, false),
        sess@->list.parts_shown(),
    ]);
    Outcome::did(steps)
}

/// Next and previous page.
pub fn on_candidate_page(sess: &mut SessionState, has_preedit: bool, dir: CandidateDir) -> (r:
    Outcome)
    requires
        old(sess)@.well_formed(),
    ensures
        final(sess)@.well_formed(),
        final(sess)@ == page_moved(old(sess)@, dir),
        r@ == (match final(sess)@ {
            SessionModel::BlockSelecting { .. } => OutcomeModel::did(final(sess)@.blocks_shown()),
            SessionModel::Selecting { list } => OutcomeModel::did(
                seq![list.page_shown(None, false), list.parts_shown()],
            ),
            _ => OutcomeModel::nothing(has_preedit),
        }),
{
    if sess.is_block_selecting() {
        match dir {
            CandidateDir::Next => sess.block_selecting_next(),
            CandidateDir::Prev => sess.block_selecting_prev(),
        }
        return show_blocks(sess);
    }
    if !sess.is_selecting() {
        return Outcome::nothing(has_preedit);
    }
    match dir {
        CandidateDir::Next => sess.next_page(),
        CandidateDir::Prev => sess.prev_page(),
    }
    let steps = vec![show_page(sess, None, false), show_parts(sess)];
    assert(steps::step_models(steps@) =~= seq![
        sess@->list.page_shown(None, false),
        sess@->list.parts_shown(),
    ]);
    Outcome::did(steps)
}

impl ListModel {
    /// The part that is committed when the chosen candidate is taken: what stands
    /// before it, the candidate, and the punctuation held back.
    pub open spec fn confirmed_text(self) -> Seq<char> {
        self.prefix + self.shown_text() + crate::session::punct_text(self.punct_pending)
    }

    /// Learning the chosen candidate, where it is learned.
    pub open spec fn learning_steps(self, auto_learn: bool) -> Seq<StepModel> {
        let source = match self.current_view() {
            Some(v) => Some(v.source),
            None => None,
        };
        if !crate::learning::learns(auto_learn, self.original_preedit, self.shown_text(), source) {
            Seq::empty()
        } else if source == Some(CandidateViewSource::Bg) {
            seq![
                StepModel::LearnForce { reading: self.original_preedit, text: self.shown_text() },
            ]
        } else {
            seq![StepModel::Learn { reading: self.original_preedit, text: self.shown_text() }]
        }
    }

    /// Taking the chosen candidate. A reading that is left is composed further; a
    /// literal rest is committed with the candidate.
    pub open spec fn taking_steps(self, auto_learn: bool) -> Seq<StepModel> {
        self.learning_steps(auto_learn) + (if self.remainder_reading.len() > 0 {
            seq![
                StepModel::HideCandidates,
                StepModel::Commit { text: self.confirmed_text() },
                StepModel::ResetPreedit,
                StepModel::PushRaw { text: self.remainder_reading },
                StepModel::StartLive { reading: self.remainder_reading },
                StepModel::CommitAndContinue { text: self.confirmed_text() },
            ]
        } else {
            seq![
                StepModel::HideCandidates,
                StepModel::Commit { text: self.confirmed_text() + self.remainder },
                StepModel::ResetPreedit,
                StepModel::EndComposition { text: self.confirmed_text() + self.remainder },
            ]
        })
    }

    /// The session after taking the chosen candidate.
    pub open spec fn after_taking(self) -> SessionModel {
        if self.remainder_reading.len() > 0 {
            SessionModel::Preedit { text: self.remainder_reading }
        } else {
            SessionModel::Idle
        }
    }
}

/// Takes candidate `n` of the page in view. A number without a candidate is used
/// up and changes nothing.
pub fn on_candidate_select(
    sess: &mut SessionState,
    mgr: &ConfigManager,
    has_preedit: Option<bool>,
    n: u8,
) -> (r: Outcome)
    requires
        old(sess)@.well_formed(),
    ensures
        final(sess)@.well_formed(),
        match (has_preedit, old(sess)@) {
            (None, s) => final(sess)@ == s && r@ == OutcomeModel::nothing(false),
            (Some(_), SessionModel::Selecting { list }) => if list.has_nth(n as int) {
                &&& final(sess)@ == list.after_select_nth(n as int).after_taking()
                &&& r@ == OutcomeModel::did(
                    list.after_select_nth(n as int).taking_steps(mgr.current.input.auto_learn),
                )
            } else {
                final(sess)@ == old(sess)@ && r@ == OutcomeModel::nothing(true)
            },
            (Some(_), SessionModel::BlockSelecting { .. }) => final(sess)@ == old(sess)@ && r@
                == OutcomeModel::nothing(true),
            (Some(p), s) => final(sess)@ == s && r@ == OutcomeModel::nothing(p),
        },
{
    let has_preedit = match has_preedit {
        None => {
            return Outcome::nothing(false);
        },
        Some(p) => p,
    };
    if !sess.is_candidate_list_active() {
        return Outcome::nothing(has_preedit);
    }
    if !sess.select_nth_in_page(n as usize) {
        return Outcome::nothing(true);
    }
    let ghost list = sess@->list;
    let chosen = list_text(sess);
    let reading = match sess.original_preedit() {
        Some(p) => p.to_owned(),
        None => String::new(),
    };
    let prefix = sess.selecting_prefix_clone();
    let source = match sess.current_candidate_view() {
        Some(v) => Some(v.source),
        None => None,
    };
    let punct = sess.take_punct_pending();
    let remainder = sess.take_selecting_remainder();
    let remainder_reading = sess.selecting_remainder_reading_clone();
    sess.set_idle();
    let mut confirmed = concat2(prefix.as_str(), chosen.as_str());
    if let Some(p) = punct {
        confirmed.push(p);
    }
    assert(confirmed@ =~= list.confirmed_text());
    let mut steps: Vec<Step> = Vec::new();
    if should_learn_and_log(mgr, reading.as_str(), chosen.as_str(), source) {
        if source == Some(CandidateViewSource::Bg) {
            steps.push(Step::LearnForce { reading, text: chosen });
        } else {
            steps.push(Step::Learn { reading, text: chosen });
        }
    }
    assert(steps::step_models(steps@) =~= list.learning_steps(mgr.current.input.auto_learn));
    steps.push(Step::HideCandidates);
    if remainder_reading.as_str().unicode_len() > 0 {
        steps.push(Step::Commit { text: confirmed.clone() });
        steps.push(Step::ResetPreedit);
        steps.push(Step::PushRaw { text: remainder_reading.clone() });
        steps.push(Step::StartLive { reading: remainder_reading.clone() });
        steps.push(Step::CommitAndContinue { text: confirmed });
        sess.set_preedit(remainder_reading);
    } else {
        confirmed.append(remainder.as_str());
        steps.push(Step::Commit { text: confirmed.clone() });
        steps.push(Step::ResetPreedit);
        steps.push(Step::EndComposition { text: confirmed });
    }
    assert(steps::step_models(steps@) =~= list.taking_steps(mgr.current.input.auto_learn));
    Outcome::did(steps)
}


/// The text that is committed when the input method is switched: what the session
/// shows, or what the engine holds where the session shows nothing of its own.
pub open spec fn text_to_commit(s: SessionModel, engine_text: Seq<char>) -> Seq<char> {
    if s.visible_text().len() > 0 {
        s.visible_text()
    } else {
        engine_text
    }
}

/// The text that the session shows, empty where the engine's text is shown.
fn visible(sess: &SessionState) -> (r: String)
    ensures
        r@ == sess@.visible_text(),
{
    match sess {
        SessionState::LiveConv { preview, .. } => preview.clone(),
        SessionState::BlockSelecting { .. } => match sess.block_selecting_full_text() {
            Some(t) => t,
            None => String::new(),
        },
        SessionState::Selecting { .. } => {
            let prefix = sess.selecting_prefix_clone();
            let remainder = sess.selecting_remainder_clone();
            concat3(prefix.as_str(), list_text(sess).as_str(), remainder.as_str())
        },
        SessionState::RangeSelect { full_reading, .. } => full_reading.clone(),
        SessionState::Waiting { text, .. } => text.clone(),
        _ => String::new(),
    }
}

/// Commits all text that is shown as being composed, and ends the session.
/// `engine_text` is what the engine shows.
pub fn commit_visible_composition(sess: &mut SessionState, engine_text: Option<&str>) -> (r: Vec<
    Step,
>)
    ensures
        ({
            let t = text_to_commit(old(sess)@, engine_text->0@);
            if engine_text is None || t.len() == 0 {
                final(sess)@ == old(sess)@ && steps::step_models(r@) == Seq::<StepModel>::empty()
            } else {
                final(sess)@ is Idle && steps::step_models(r@) == seq![
                    StepModel::Reclaim,
                    StepModel::Commit { text: t },
                    StepModel::ResetPreedit,
                    StepModel::HideCandidates,
                    StepModel::StopLiveTimer,
                    StepModel::EndComposition { text: t },
                ]
            }
        }),
{
    let engine_text = match engine_text {
        None => {
            let none: Vec<Step> = Vec::new();
            assert(steps::step_models(none@) =~= Seq::empty());
            return none;
        },
        Some(t) => t,
    };
    let shown = visible(sess);
    let whole = if shown.as_str().unicode_len() > 0 {
        shown
    } else {
        engine_text.to_owned()
    };
    if whole.as_str().unicode_len() == 0 {
        let none: Vec<Step> = Vec::new();
        assert(steps::step_models(none@) =~= Seq::empty());
        return none;
    }
    sess.set_idle();
    let steps = vec![
        Step::Reclaim,
        Step::Commit { text: whole.clone() },
        Step::ResetPreedit,
        Step::HideCandidates,
        Step::StopLiveTimer,
        Step::EndComposition { text: whole },
    ];
    assert(steps::step_models(steps@) =~= seq![
        StepModel::Reclaim,
        StepModel::Commit { text: whole@ },
        StepModel::ResetPreedit,
        StepModel::HideCandidates,
        StepModel::StopLiveTimer,
        StepModel::EndComposition { text: whole@ },
    ]);
    steps
}

/// Commits what the engine shows as it is. `preedit` is that text; `None`, an
/// engine that cannot be had, gives nothing.
pub fn engine_commit_hiragana(sess: &mut SessionState, preedit: Option<&str>) -> (r: Option<
    Vec<Step>,
>)
    ensures
        old(sess)@.well_formed() ==> final(sess)@.well_formed(),
        r is Some == preedit is Some,
        final(sess)@ == (if preedit is Some && (old(sess)@ is Waiting || old(sess)@ is Selecting) {
            SessionModel::Idle
        } else {
            old(sess)@
        }),
        r is Some ==> steps::step_models(r->0@) == (if preedit->0@.len() == 0 {
            Seq::empty()
        } else {
            seq![
                StepModel::Reclaim,
                StepModel::Commit { text: preedit->0@ },
                StepModel::ResetPreedit,
                StepModel::EndComposition { text: preedit->0@ },
            ]
        }),
{
    match preedit {
        None => None,
        Some(p) => {
            if sess.is_waiting() || sess.is_selecting() {
                sess.set_idle();
            }
            if p.unicode_len() == 0 {
                let none: Vec<Step> = Vec::new();
                assert(steps::step_models(none@) =~= Seq::empty());
                return Some(none);
            }
            let steps = vec![
                Step::Reclaim,
                Step::Commit { text: p.to_owned() },
                Step::ResetPreedit,
                Step::EndComposition { text: p.to_owned() },
            ];
            assert(steps::step_models(steps@) =~= seq![
                StepModel::Reclaim,
                StepModel::Commit { text: p@ },
                StepModel::ResetPreedit,
                StepModel::EndComposition { text: p@ },
            ]);
            Some(steps)
        },
    }
}

/// The candidates of a conversion that was waited for: the text itself where
/// there are none.
pub fn engine_convert_sync_multi(merged: Vec<String>, preedit: &str) -> (r: Vec<String>)
    ensures
        text::texts(r@) == (if merged@.len() == 0 {
            seq![preedit@]
        } else {
            text::texts(merged@)
        }),
        r@.len() > 0,
{
    if merged.len() == 0 {
        let r = vec![preedit.to_owned()];
        assert(text::texts(r@) =~= seq![preedit@]);
        r
    } else {
        merged
    }
}

/// The application has ended the composition by itself: its text stands in the
/// document, and nothing of it is to come up again.
pub fn on_composition_terminated(sess: &mut SessionState) -> (r: Vec<Step>)
    ensures
        final(sess)@ is Idle,
        steps::step_models(r@) == seq![
            StepModel::HideCandidates,
            StepModel::StopLiveTimer,
            StepModel::Reclaim,
            StepModel::ResetAll,
        ],
{
    sess.set_idle();
    let steps = vec![Step::HideCandidates, Step::StopLiveTimer, Step::Reclaim, Step::ResetAll];
    assert(steps::step_models(steps@) =~= seq![
        StepModel::HideCandidates,
        StepModel::StopLiveTimer,
        StepModel::Reclaim,
        StepModel::ResetAll,
    ]);
    steps
}

// Punctuation

/// An Arabic digit, narrow or wide.
pub open spec fn numeric_digit(c: char) -> bool {
    ('0' <= c && c <= '9') || ('０' <= c && c <= '９')
}

pub fn is_numeric_digit(c: char) -> (r: bool)
    ensures
        r == numeric_digit(c),
{
    ('0' <= c && c <= '9') || ('０' <= c && c <= '９')
}

/// The separator that a punctuation mark stands for behind a digit.
pub open spec fn separator_for(reading: Seq<char>, c: char) -> Option<char> {
    if reading.len() == 0 || !numeric_digit(reading.last()) {
        None
    } else if c == '、' || c == ',' {
        Some(',')
    } else if c == '。' || c == '.' {
        Some('.')
    } else {
        None
    }
}

pub fn numeric_separator_after_digit(reading: &str, c: char) -> (r: Option<char>)
    ensures
        r == separator_for(reading@, c),
{
    let chars: Vec<char> = chars_of(reading);
    let n: usize = chars.len();
    if n == 0 || !is_numeric_digit(chars[n - 1]) {
        return None;
    }
    if c == '、' || c == ',' {
        Some(',')
    } else if c == '。' || c == '.' {
        Some('.')
    } else {
        None
    }
}

/// The symbol that is put in for a punctuation key.
pub open spec fn symbol_for(reading: Seq<char>, c: char, auto_separator: bool) -> char {
    match separator_for(reading, c) {
        Some(s) if auto_separator => s,
        _ => c,
    }
}

/// The steps before a symbol is put in: nothing that runs for the text counts any more.
pub open spec fn before_symbol() -> Seq<StepModel> {
    seq![
        StepModel::BumpGeneration,
        StepModel::HideCandidates,
        StepModel::StopLiveTimer,
        StepModel::StopWaitingTimer,
    ]
}

/// A symbol that goes into text which the session shows: the text shown then, its
/// reading where one is kept, and the text that the engine is set to before the
/// symbol, where it is set.
pub enum SymbolPlan {
    /// The engine gets the symbol and knows what to show.
    ByEngine,
    /// The engine gets the symbol, `force` first; `display` is shown for `reading`.
    Live { force: Option<Seq<char>>, push: bool, reading: Seq<char>, display: Seq<char> },
    /// The engine gets the symbol, and the text shown is the preedit.
    Plain { display: Seq<char> },
}

impl ListModel {
    /// The reading of what stands behind the candidate. A literal rest has none
    /// of its own and reads as itself.
    pub open spec fn rest_reading(self) -> Seq<char> {
        if self.remainder_reading.len() == 0 {
            self.remainder
        } else {
            self.remainder_reading
        }
    }
}

pub open spec fn symbol_plan(s: SessionModel, has_preedit: bool, symbol: char) -> SymbolPlan {
    if !has_preedit {
        SymbolPlan::ByEngine
    } else {
        match s {
            SessionModel::LiveConv { reading, preview, .. } => SymbolPlan::Live {
                force: None,
                push: true,
                reading: reading.push(symbol),
                display: preview.push(symbol),
            },
            SessionModel::BlockSelecting { blocks, full_reading, .. } => SymbolPlan::Live {
                force: Some(full_reading),
                push: true,
                reading: full_reading.push(symbol),
                display: crate::session::block_text(blocks).push(symbol),
            },
            SessionModel::Selecting { list } => {
                let reading = (list.prefix_reading + list.original_preedit).push(symbol)
                    + list.rest_reading();
                SymbolPlan::Live {
                    force: Some(reading),
                    push: false,
                    reading,
                    display: (list.prefix + list.shown_text()).push(symbol) + list.remainder,
                }
            },
            SessionModel::Waiting { text, .. } => SymbolPlan::Plain { display: text.push(symbol) },
            _ => SymbolPlan::ByEngine,
        }
    }
}

impl SymbolPlan {
    pub open spec fn steps(self, symbol: char) -> Seq<StepModel> {
        before_symbol() + (match self {
            SymbolPlan::ByEngine => seq![StepModel::PushRaw { text: seq![symbol] }],
            SymbolPlan::Live { force, push, display, .. } => (match force {
                Some(t) => seq![StepModel::ForcePreedit { text: t }],
                None => Seq::empty(),
            }) + (if push {
                seq![StepModel::PushRaw { text: seq![symbol] }]
            } else {
                Seq::empty()
            }) + seq![StepModel::SetComposition { text: display }],
            SymbolPlan::Plain { display } => seq![
                StepModel::PushRaw { text: seq![symbol] },
                StepModel::SetComposition { text: display },
            ],
        })
    }

    pub open spec fn session(self, s: SessionModel) -> SessionModel {
        match self {
            SymbolPlan::ByEngine => s,
            SymbolPlan::Live { reading, display, .. } => SessionModel::LiveConv {
                reading,
                preview: display,
                preview_for: reading,
            },
            SymbolPlan::Plain { display } => SessionModel::Preedit { text: display },
        }
    }
}

/// What a punctuation key led to. Where the engine knows what to show, its text
/// goes to [`show_engine_preedit`] after the steps.
pub struct PunctuateOutcome {
    pub outcome: Outcome,
    pub await_display: bool,
}

fn one_char(c: char) -> (r: String)
    ensures
        r@ == seq![c],
{
    let mut s = String::new();
    s.push(c);
    assert(s@ =~= seq![c]);
    s
}

/// A punctuation key. The symbol joins the text that is shown: nothing is
/// converted anew, no candidates are shown and nothing is committed. Without any
/// text it starts some. `reading_before` is what the engine reads so far.
pub fn on_punctuate(
    sess: &mut SessionState,
    mgr: &ConfigManager,
    has_preedit: Option<bool>,
    reading_before: &str,
    c: char,
) -> (r: PunctuateOutcome)
    requires
        old(sess)@.well_formed(),
    ensures
        final(sess)@.well_formed(),
        match has_preedit {
            None => {
                &&& r.outcome@ == OutcomeModel::nothing(false)
                &&& !r.await_display
                &&& final(sess)@ == old(sess)@
            },
            Some(p) => {
                let symbol = symbol_for(
                    reading_before@,
                    c,
                    mgr.current.input.digit_separator_auto,
                );
                let plan = symbol_plan(old(sess)@, p, symbol);
                &&& r.outcome@ == OutcomeModel::did(plan.steps(symbol))
                &&& r.await_display == (plan is ByEngine)
                &&& final(sess)@ == plan.session(old(sess)@)
            },
        },
{
    let has_preedit = match has_preedit {
        None => {
            return PunctuateOutcome { outcome: Outcome::nothing(false), await_display: false };
        },
        Some(p) => p,
    };
    let symbol = match numeric_separator_after_digit(reading_before, c) {
        Some(s) => if is_digit_separator_auto_enabled(mgr) {
            s
        } else {
            c
        },
        None => c,
    };
    let ghost plan = symbol_plan(sess@, has_preedit, symbol);
    let mut steps = vec![
        Step::BumpGeneration,
        Step::HideCandidates,
        Step::StopLiveTimer,
        Step::StopWaitingTimer,
    ];
    assert(steps::step_models(steps@) =~= before_symbol());
    if has_preedit {
        if let SessionState::LiveConv { reading, preview, .. } = sess {
            let display = with_char(preview.as_str(), symbol);
            let next = with_char(reading.as_str(), symbol);
            steps.push(Step::PushRaw { text: one_char(symbol) });
            steps.push(Step::SetComposition { text: display.clone() });
            sess.set_live_conv(next.clone(), display, next);
            assert(steps::step_models(steps@) =~= plan.steps(symbol));
            return PunctuateOutcome { outcome: Outcome::did(steps), await_display: false };
        }
        if sess.is_block_selecting() {
            let full_text = match sess.block_selecting_full_text() {
                Some(t) => t,
                None => String::new(),
            };
            let full_reading = match sess.block_selecting_full_reading() {
                Some(t) => t,
                None => String::new(),
            };
            let display = with_char(full_text.as_str(), symbol);
            let next = with_char(full_reading.as_str(), symbol);
            steps.push(Step::ForcePreedit { text: full_reading });
            steps.push(Step::PushRaw { text: one_char(symbol) });
            steps.push(Step::SetComposition { text: display.clone() });
            sess.set_live_conv(next.clone(), display, next);
            assert(steps::step_models(steps@) =~= plan.steps(symbol));
            return PunctuateOutcome { outcome: Outcome::did(steps), await_display: false };
        }
        if sess.is_selecting() {
            let ghost list = sess@->list;
            let chosen = list_text(sess);
            let prefix = sess.selecting_prefix_clone();
            let prefix_reading = sess.selecting_prefix_reading_clone();
            let reading = match sess.original_preedit() {
                Some(p) => p.to_owned(),
                None => String::new(),
            };
            let remainder = sess.selecting_remainder_clone();
            let mut rest_reading = sess.selecting_remainder_reading_clone();
            if rest_reading.as_str().unicode_len() == 0 {
                rest_reading = remainder.clone();
            }
            let mut display = concat2(prefix.as_str(), chosen.as_str());
            display.push(symbol);
            display.append(remainder.as_str());
            let mut next = concat2(prefix_reading.as_str(), reading.as_str());
            next.push(symbol);
            next.append(rest_reading.as_str());
            steps.push(Step::ForcePreedit { text: next.clone() });
            steps.push(Step::SetComposition { text: display.clone() });
            sess.set_live_conv(next.clone(), display, next);
            assert(steps::step_models(steps@) =~= plan.steps(symbol));
            return PunctuateOutcome { outcome: Outcome::did(steps), await_display: false };
        }
        if let SessionState::Waiting { text, .. } = sess {
            let display = with_char(text.as_str(), symbol);
            steps.push(Step::PushRaw { text: one_char(symbol) });
            steps.push(Step::SetComposition { text: display.clone() });
            sess.set_preedit(display);
            assert(steps::step_models(steps@) =~= plan.steps(symbol));
            return PunctuateOutcome { outcome: Outcome::did(steps), await_display: false };
        }
    }
    steps.push(Step::PushRaw { text: one_char(symbol) });
    assert(steps::step_models(steps@) =~= plan.steps(symbol));
    PunctuateOutcome { outcome: Outcome::did(steps), await_display: true }
}

/// The engine's text becomes the preedit and is shown.
pub fn show_engine_preedit(sess: &mut SessionState, display: String) -> (r: Outcome)
    ensures
        final(sess)@ == (SessionModel::Preedit { text: display@ }),
        r@ == OutcomeModel::did(seq![StepModel::SetComposition { text: display@ }]),
{
    sess.set_preedit(display.clone());
    let steps = vec![Step::SetComposition { text: display }];
    assert(steps::step_models(steps@) =~= seq![StepModel::SetComposition { text: display@ }]);
    Outcome::did(steps)
}


// Blocks and ranges

/// Left and Right: the focus moves from block to block. At the two ends the key
/// is used up; without blocks it is used up while there is text.
pub fn on_block_focus_move(sess: &mut SessionState, has_preedit: Option<bool>, forward: bool) -> (r:
    Outcome)
    ensures
        old(sess)@.well_formed() ==> final(sess)@.well_formed(),
        match (has_preedit, old(sess)@) {
            (None, s) => final(sess)@ == s && r@ == OutcomeModel::nothing(false),
            (Some(_), SessionModel::BlockSelecting { .. }) => {
                let moved = if forward {
                    old(sess)@.after_block_move_next()
                } else {
                    old(sess)@.after_block_move_prev()
                };
                &&& final(sess)@ == moved
                &&& r@ == (if forward && old(sess)@.block_can_move_next() || !forward && old(
                    sess,
                )@.block_can_move_prev() {
                    OutcomeModel::did(moved.blocks_shown())
                } else {
                    OutcomeModel::nothing(true)
                })
            },
            (Some(p), s) => final(sess)@ == s && r@ == OutcomeModel::nothing(p),
        },
{
    let has_preedit = match has_preedit {
        None => {
            return Outcome::nothing(false);
        },
        Some(p) => p,
    };
    if !sess.is_block_selecting() {
        return Outcome::nothing(has_preedit);
    }
    let moved = if forward {
        sess.block_selecting_move_next()
    } else {
        sess.block_selecting_move_prev()
    };
    if !moved {
        return Outcome::nothing(true);
    }
    show_blocks(sess)
}

pub fn on_segment_move_left(sess: &mut SessionState, has_preedit: Option<bool>) -> (r: Outcome)
    ensures
        old(sess)@.well_formed() ==> final(sess)@.well_formed(),
        has_preedit is Some ==> final(sess)@ == old(sess)@.after_block_move_prev(),
        has_preedit is None ==> final(sess)@ == old(sess)@,
        r@ == (if has_preedit is None {
            OutcomeModel::nothing(false)
        } else if old(sess)@.block_can_move_prev() {
            OutcomeModel::did(final(sess)@.blocks_shown())
        } else {
            OutcomeModel::nothing(old(sess)@ is BlockSelecting || has_preedit->0)
        }),
{
    on_block_focus_move(sess, has_preedit, false)
}

pub fn on_segment_move_right(sess: &mut SessionState, has_preedit: Option<bool>) -> (r: Outcome)
    ensures
        old(sess)@.well_formed() ==> final(sess)@.well_formed(),
        has_preedit is Some ==> final(sess)@ == old(sess)@.after_block_move_next(),
        has_preedit is None ==> final(sess)@ == old(sess)@,
        r@ == (if has_preedit is None {
            OutcomeModel::nothing(false)
        } else if old(sess)@.block_can_move_next() {
            OutcomeModel::did(final(sess)@.blocks_shown())
        } else {
            OutcomeModel::nothing(old(sess)@ is BlockSelecting || has_preedit->0)
        }),
{
    on_block_focus_move(sess, has_preedit, true)
}

/// A range selection that begins with a key, and the steps before it is shown.
pub struct RangeStart {
    pub session: SessionModel,
    pub steps: Seq<StepModel>,
}

pub open spec fn start_range(
    reading: Seq<char>,
    select_end: int,
    preview: Seq<char>,
    steps: Seq<StepModel>,
) -> RangeStart {
    let session = SessionModel::RangeSelect {
        full_reading: reading,
        select_end: select_end as usize,
        original_preview: preview,
    };
    RangeStart { session, steps: steps.push(session.range_shown()) }
}

/// Where Shift+Left (`shrink`) and Shift+Right put the end of a new range: one
/// character before the end of the reading, or behind its first character. One
/// character is always chosen.
pub open spec fn first_boundary(reading: Seq<char>, shrink: bool) -> int {
    if shrink && reading.len() > 1 {
        reading.len() - 1
    } else {
        1
    }
}

/// How Shift+Left (`shrink`) and Shift+Right begin a range selection.
pub open spec fn range_start(s: SessionModel, shrink: bool, hiragana: Seq<char>) -> Option<
    RangeStart,
> {
    match s {
        SessionModel::LiveConv { reading, preview, .. } if reading.len() > 0 => Some(
            start_range(
                reading,
                first_boundary(reading, shrink),
                preview,
                seq![StepModel::HideCandidates, StepModel::StopLiveTimer, StepModel::Reclaim],
            ),
        ),
        SessionModel::Selecting { list } if list.original_preedit.len() > 0 => Some(
            start_range(
                list.original_preedit,
                first_boundary(list.original_preedit, shrink),
                Seq::empty(),
                seq![
                    StepModel::HideCandidates,
                    StepModel::StopLiveTimer,
                    StepModel::Reclaim,
                    StepModel::ForcePreedit { text: list.original_preedit },
                ],
            ),
        ),
        SessionModel::Preedit { .. } if (shrink && hiragana.len() > 1) || (!shrink && hiragana.len()
            > 0) => Some(
            start_range(
                hiragana,
                first_boundary(hiragana, shrink),
                Seq::empty(),
                seq![StepModel::StopLiveTimer, StepModel::Reclaim],
            ),
        ),
        _ => None,
    }
}

/// The boundary before the last of `count` characters, but behind the first one.
fn last_but_one(count: usize) -> (r: usize)
    ensures
        r == (if count > 1 {
            count - 1
        } else {
            1
        }),
{
    if count > 1 {
        count - 1
    } else {
        1
    }
}

/// Begins a range selection over `reading` and shows it.
fn begin_range(
    sess: &mut SessionState,
    reading: String,
    select_end: usize,
    preview: String,
    steps: &mut Vec<Step>,
)
    ensures
        final(sess)@ == start_range(
            reading@,
            select_end as int,
            preview@,
            steps::step_models(old(steps)@),
        ).session,
        steps::step_models(final(steps)@) == start_range(
            reading@,
            select_end as int,
            preview@,
            steps::step_models(old(steps)@),
        ).steps,
{
    let ghost before = steps::step_models(steps@);
    sess.set_range_select(reading, select_end, preview);
    steps.push(show_range(sess));
    assert(steps::step_models(steps@) =~= before.push(sess@.range_shown()));
}

/// What follows a key that would begin or change a range selection. `moved` is
/// the session after the boundary was moved, where it can be.
pub open spec fn range_key_outcome(
    s: SessionModel,
    shrink: bool,
    can_move: bool,
    moved: SessionModel,
    hiragana: Seq<char>,
    has_preedit: bool,
) -> (SessionModel, OutcomeModel) {
    match range_start(s, shrink, hiragana) {
        Some(start) => (start.session, OutcomeModel::did(start.steps)),
        None => if s is RangeSelect {
            if can_move {
                (moved, OutcomeModel::did(seq![moved.range_shown()]))
            } else {
                (s, OutcomeModel::nothing(true))
            }
        } else if s is LiveConv || (s is Selecting && shrink) {
            (s, OutcomeModel::nothing(true))
        } else {
            (s, OutcomeModel::nothing(has_preedit))
        },
    }
}

/// Shift+Left: the chosen range ends one character further left, or begins with
/// all but the last character, though never with none. `hiragana` is the engine's reading.
pub fn on_segment_shrink(sess: &mut SessionState, has_preedit: Option<bool>, hiragana: &str) -> (r:
    Outcome)
    requires
        old(sess)@.well_formed(),
    ensures
        final(sess)@.well_formed(),
        old(sess)@.range_in_reading() ==> final(sess)@.range_in_reading(),
        !(old(sess)@ is RangeSelect) ==> final(sess)@.range_in_reading(),
        match has_preedit {
            None => final(sess)@ == old(sess)@ && r@ == OutcomeModel::nothing(false),
            Some(p) => (final(sess)@, r@) == range_key_outcome(
                old(sess)@,
                true,
                old(sess)@.range_can_shrink(),
                old(sess)@.after_range_shrink(),
                hiragana@,
                p,
            ),
        },
{
    let has_preedit = match has_preedit {
        None => {
            return Outcome::nothing(false);
        },
        Some(p) => p,
    };
    match sess {
        SessionState::LiveConv { reading, preview, .. } => {
            let count: usize = reading.as_str().unicode_len();
            if count == 0 {
                return Outcome::nothing(true);
            }
            let (reading, preview) = (reading.clone(), preview.clone());
            let mut steps = vec![Step::HideCandidates, Step::StopLiveTimer, Step::Reclaim];
            assert(steps::step_models(steps@) =~= seq![
                StepModel::HideCandidates,
                StepModel::StopLiveTimer,
                StepModel::Reclaim,
            ]);
            begin_range(sess, reading, last_but_one(count), preview, &mut steps);
            Outcome::did(steps)
        },
        SessionState::RangeSelect { .. } => {
            if !sess.range_select_shrink() {
                return Outcome::nothing(true);
            }
            let steps = vec![show_range(sess)];
            assert(steps::step_models(steps@) =~= seq![sess@.range_shown()]);
            Outcome::did(steps)
        },
        SessionState::Selecting { original_preedit, .. } => {
            let count: usize = original_preedit.as_str().unicode_len();
            if count == 0 {
                return Outcome::nothing(true);
            }
            let reading = original_preedit.clone();
            let mut steps = vec![
                Step::HideCandidates,
                Step::StopLiveTimer,
                Step::Reclaim,
                Step::ForcePreedit { text: reading.clone() },
            ];
            assert(steps::step_models(steps@) =~= seq![
                StepModel::HideCandidates,
                StepModel::StopLiveTimer,
                StepModel::Reclaim,
                StepModel::ForcePreedit { text: reading@ },
            ]);
            begin_range(sess, reading, last_but_one(count), String::new(), &mut steps);
            Outcome::did(steps)
        },
        SessionState::Preedit { .. } => {
            let count: usize = hiragana.unicode_len();
            if count <= 1 {
                return Outcome::nothing(has_preedit);
            }
            let mut steps = vec![Step::StopLiveTimer, Step::Reclaim];
            assert(steps::step_models(steps@) =~= seq![
                StepModel::StopLiveTimer,
                StepModel::Reclaim,
            ]);
            begin_range(sess, hiragana.to_owned(), count - 1, String::new(), &mut steps);
            Outcome::did(steps)
        },
        _ => Outcome::nothing(has_preedit),
    }
}

/// Shift+Right: the chosen range ends one character further right, or begins with
/// the first character.
pub fn on_segment_extend(sess: &mut SessionState, has_preedit: Option<bool>, hiragana: &str) -> (r:
    Outcome)
    requires
        old(sess)@.well_formed(),
    ensures
        final(sess)@.well_formed(),
        old(sess)@.range_in_reading() ==> final(sess)@.range_in_reading(),
        !(old(sess)@ is RangeSelect) ==> final(sess)@.range_in_reading(),
        match has_preedit {
            None => final(sess)@ == old(sess)@ && r@ == OutcomeModel::nothing(false),
            Some(p) => (final(sess)@, r@) == range_key_outcome(
                old(sess)@,
                false,
                old(sess)@.range_can_extend(),
                old(sess)@.after_range_extend(),
                hiragana@,
                p,
            ),
        },
{
    let has_preedit = match has_preedit {
        None => {
            return Outcome::nothing(false);
        },
        Some(p) => p,
    };
    match sess {
        SessionState::LiveConv { reading, preview, .. } => {
            if reading.as_str().unicode_len() == 0 {
                return Outcome::nothing(true);
            }
            let (reading, preview) = (reading.clone(), preview.clone());
            let mut steps = vec![Step::HideCandidates, Step::StopLiveTimer, Step::Reclaim];
            assert(steps::step_models(steps@) =~= seq![
                StepModel::HideCandidates,
                StepModel::StopLiveTimer,
                StepModel::Reclaim,
            ]);
            begin_range(sess, reading, 1, preview, &mut steps);
            Outcome::did(steps)
        },
        SessionState::RangeSelect { .. } => {
            if !sess.range_select_extend() {
                return Outcome::nothing(true);
            }
            let steps = vec![show_range(sess)];
            assert(steps::step_models(steps@) =~= seq![sess@.range_shown()]);
            Outcome::did(steps)
        },
        SessionState::Selecting { original_preedit, .. } => {
            if original_preedit.as_str().unicode_len() == 0 {
                return Outcome::nothing(has_preedit);
            }
            let reading = original_preedit.clone();
            let mut steps = vec![
                Step::HideCandidates,
                Step::StopLiveTimer,
                Step::Reclaim,
                Step::ForcePreedit { text: reading.clone() },
            ];
            assert(steps::step_models(steps@) =~= seq![
                StepModel::HideCandidates,
                StepModel::StopLiveTimer,
                StepModel::Reclaim,
                StepModel::ForcePreedit { text: reading@ },
            ]);
            begin_range(sess, reading, 1, String::new(), &mut steps);
            Outcome::did(steps)
        },
        SessionState::Preedit { .. } => {
            if hiragana.unicode_len() == 0 {
                return Outcome::nothing(has_preedit);
            }
            let mut steps = vec![Step::StopLiveTimer, Step::Reclaim];
            assert(steps::step_models(steps@) =~= seq![
                StepModel::StopLiveTimer,
                StepModel::Reclaim,
            ]);
            begin_range(sess, hiragana.to_owned(), 1, String::new(), &mut steps);
            Outcome::did(steps)
        },
        _ => Outcome::nothing(has_preedit),
    }
}

/// Home and End: they move the end of a chosen range, are used up while there is
/// any text, and go to the application else.
pub fn on_cursor_jump(sess: &mut SessionState, has_preedit: Option<bool>, to_end: bool) -> (r:
    Outcome)
    ensures
        old(sess)@.well_formed() ==> final(sess)@.well_formed(),
        old(sess)@.range_in_reading() ==> final(sess)@.range_in_reading(),
        match has_preedit {
            None => final(sess)@ == old(sess)@ && r@ == OutcomeModel::nothing(false),
            Some(p) => {
                let moved = if to_end {
                    old(sess)@.after_range_to_end()
                } else {
                    old(sess)@.after_range_to_start()
                };
                let can = if to_end {
                    old(sess)@.range_can_extend()
                } else {
                    old(sess)@.range_can_shrink()
                };
                &&& final(sess)@ == moved
                &&& r@ == (if can {
                    OutcomeModel::did(seq![moved.range_shown()])
                } else {
                    OutcomeModel::nothing(p || old(sess)@.selecting_flag())
                })
            },
        },
{
    let has_preedit = match has_preedit {
        None => {
            return Outcome::nothing(false);
        },
        Some(p) => p,
    };
    if !has_preedit && !crate::session::session_is_selecting_fast(sess) {
        return Outcome::nothing(false);
    }
    if sess.is_range_select() {
        let moved = if to_end {
            sess.range_select_to_end()
        } else {
            sess.range_select_to_start()
        };
        if !moved {
            return Outcome::nothing(true);
        }
        let steps = vec![show_range(sess)];
        assert(steps::step_models(steps@) =~= seq![sess@.range_shown()]);
        return Outcome::did(steps);
    }
    Outcome::nothing(true)
}


// Kana and letter forms

/// Hiragana, katakana or narrow katakana.
pub open spec fn kana_char(c: char) -> bool {
    (0x3041 <= c as u32 && c as u32 <= 0x3096) || (0x30A1 <= c as u32 && c as u32 <= 0x30FC) || (
    0xFF65 <= c as u32 && c as u32 <= 0xFF9F)
}

pub open spec fn holds_kana(s: Seq<char>) -> bool {
    exists|i: int| 0 <= i < s.len() && kana_char(#[trigger] s[i])
}

/// Whether a text holds any kana. One without was turned into letters before.
pub fn has_kana(s: &str) -> (r: bool)
    ensures
        r == holds_kana(s@),
{
    let chars: Vec<char> = chars_of(s);
    let mut i: usize = 0;
    while i < chars.len()
        invariant
            i <= chars@.len(),
            chars@ == s@,
            forall|k: int| 0 <= k < i ==> !kana_char(#[trigger] chars@[k]),
        decreases chars@.len() - i,
    {
        let n: u32 = chars[i] as u32;
        if (0x3041 <= n && n <= 0x3096) || (0x30A1 <= n && n <= 0x30FC) || (0xFF65 <= n && n
            <= 0xFF9F) {
            assert(kana_char(s@[i as int]));
            return true;
        }
        i = i + 1;
    }
    false
}

/// The text that a kana key converts: what is shown, or the kana that were typed
/// where letters are shown. `from_log` is what was typed, as hiragana.
pub open spec fn kana_source(preedit: Seq<char>, from_log: Seq<char>) -> Seq<char> {
    if holds_kana(preedit) || from_log.len() == 0 {
        preedit
    } else {
        from_log
    }
}

pub fn kana_convert_source(preedit: &str, from_log: &str) -> (r: String)
    ensures
        r@ == kana_source(preedit@, from_log@),
{
    if has_kana(preedit) || from_log.unicode_len() == 0 {
        preedit.to_owned()
    } else {
        from_log.to_owned()
    }
}

/// What a letter key converts.
pub enum LatinSource {
    /// Letters that were typed for kana.
    Romaji { text: String },
    /// Letters that are shown already: their next form.
    Cycle { text: String },
}

/// What F9 and F10 convert. `from_log` is what was typed as hiragana, `romaji_log`
/// the letters typed for it; letters not yet turned into kana follow them.
pub fn latin_convert_source(preedit: &str, from_log: &str, romaji_log: &str) -> (r: LatinSource)
    ensures
        match r {
            LatinSource::Romaji { text } => holds_kana(preedit@) && text@ == romaji_log@
                + text::suffix_after_prefix(preedit@, from_log@),
            LatinSource::Cycle { text } => !holds_kana(preedit@) && text@ == preedit@,
        },
{
    if has_kana(preedit) {
        let pending = text::suffix_after_prefix_or_empty(preedit, from_log);
        LatinSource::Romaji { text: concat2(romaji_log, pending.as_str()) }
    } else {
        LatinSource::Cycle { text: preedit.to_owned() }
    }
}

/// The session after its text was given another form.
pub open spec fn reformed(s: SessionModel, t: Seq<char>) -> SessionModel {
    if s is Selecting || s is LiveConv || s is Waiting {
        SessionModel::Preedit { text: t }
    } else {
        s
    }
}

pub open spec fn reform_steps(s: SessionModel, t: Seq<char>) -> Seq<StepModel> {
    seq![StepModel::Reclaim, StepModel::ForcePreedit { text: t }, StepModel::SuppressCommit] + (
    if s is Selecting || s is LiveConv {
        seq![StepModel::HideCandidates, StepModel::StopLiveTimer]
    } else if s is Waiting {
        seq![StepModel::HideCandidates, StepModel::StopWaitingTimer]
    } else {
        Seq::empty()
    }) + seq![StepModel::SetComposition { text: t }]
}

/// F6, F7, F8: the text becomes `converted`. `preedit` is what the engine shows;
/// without any the key goes to the application.
pub fn on_kana_convert(sess: &mut SessionState, preedit: Option<&str>, converted: &str) -> (r:
    Outcome)
    ensures
        old(sess)@.well_formed() ==> final(sess)@.well_formed(),
        if preedit is Some && preedit->0@.len() > 0 {
            &&& final(sess)@ == reformed(old(sess)@, converted@)
            &&& r@ == OutcomeModel::did(reform_steps(old(sess)@, converted@))
        } else {
            &&& final(sess)@ == old(sess)@
            &&& r@ == OutcomeModel::nothing(false)
        },
{
    let empty = match preedit {
        Some(p) => p.unicode_len() == 0,
        None => true,
    };
    if empty {
        return Outcome::nothing(false);
    }
    let ghost s = sess@;
    let mut steps = vec![
        Step::Reclaim,
        Step::ForcePreedit { text: converted.to_owned() },
        Step::SuppressCommit,
    ];
    if sess.is_selecting() || sess.is_live_conv() {
        sess.set_preedit(converted.to_owned());
        steps.push(Step::HideCandidates);
        steps.push(Step::StopLiveTimer);
    } else if sess.is_waiting() {
        sess.set_preedit(converted.to_owned());
        steps.push(Step::HideCandidates);
        steps.push(Step::StopWaitingTimer);
    }
    steps.push(Step::SetComposition { text: converted.to_owned() });
    assert(steps::step_models(steps@) =~= reform_steps(s, converted@));
    Outcome::did(steps)
}

/// F9, F10: the same with letters.
pub fn on_latin_convert(sess: &mut SessionState, preedit: Option<&str>, converted: &str) -> (r:
    Outcome)
    ensures
        old(sess)@.well_formed() ==> final(sess)@.well_formed(),
        if preedit is Some && preedit->0@.len() > 0 {
            &&& final(sess)@ == reformed(old(sess)@, converted@)
            &&& r@ == OutcomeModel::did(reform_steps(old(sess)@, converted@))
        } else {
            &&& final(sess)@ == old(sess)@
            &&& r@ == OutcomeModel::nothing(false)
        },
{
    on_kana_convert(sess, preedit, converted)
}

/// The next form of a text on the ring hiragana, katakana, narrow katakana.
pub open spec fn next_kana_form(
    shown: Seq<char>,
    hiragana: Seq<char>,
    katakana: Seq<char>,
    half: Seq<char>,
) -> Seq<char> {
    if shown == hiragana {
        katakana
    } else if shown == katakana {
        half
    } else {
        hiragana
    }
}

/// The key that goes round the kana forms. `hiragana`, `katakana` and `half` are
/// the three forms of the text shown.
pub fn on_cycle_kana(
    sess: &mut SessionState,
    preedit: Option<&str>,
    hiragana: &str,
    katakana: &str,
    half: &str,
) -> (r: Outcome)
    ensures
        old(sess)@.well_formed() ==> final(sess)@.well_formed(),
        if preedit is Some && preedit->0@.len() > 0 {
            let t = next_kana_form(preedit->0@, hiragana@, katakana@, half@);
            &&& final(sess)@ == reformed(old(sess)@, t)
            &&& r@ == OutcomeModel::did(reform_steps(old(sess)@, t))
        } else {
            &&& final(sess)@ == old(sess)@
            &&& r@ == OutcomeModel::nothing(false)
        },
{
    let next = match preedit {
        Some(p) => if text::str_eq(p, hiragana) {
            katakana
        } else if text::str_eq(p, katakana) {
            half
        } else {
            hiragana
        },
        None => hiragana,
    };
    on_kana_convert(sess, preedit, next)
}

// Switching the input method

/// What switching does, in this order: commit the text shown, take the mode over
/// everywhere, redraw the language bar, show the mode at the caret, and look for
/// changed settings.
#[derive(Clone, Copy, Debug, PartialEq, Eq, Structural)]
pub struct SwitchPlan {
    pub commit_first: bool,
    pub mode: crate::ime_mode::ImeMode,
    pub show_indicator: bool,
}

/// Whether and how the mode is switched. A mode that the settings do not enable is
/// not entered. Only with a document at hand is there text to commit and a caret.
pub fn switch_ime(
    input: &crate::config::InputConfig,
    has_context: bool,
    new: crate::ime_mode::ImeMode,
) -> (r: Option<SwitchPlan>)
    ensures
        r == (if new.allowed_by(*input) {
            Some(SwitchPlan { commit_first: has_context, mode: new, show_indicator: has_context })
        } else {
            None
        }),
{
    if !new.allowed(input) {
        return None;
    }
    Some(SwitchPlan { commit_first: has_context, mode: new, show_indicator: has_context })
}

// Laws

/// A punctuation key loses no text: what was shown is shown still, with the symbol
/// in its place, and the symbol is part of the reading.
pub proof fn punctuation_keeps_the_text(s: SessionModel, symbol: char)
    ensures
        match symbol_plan(s, true, symbol) {
            SymbolPlan::Live { reading, display, .. } => {
                &&& s is LiveConv || s is BlockSelecting ==> display == s.visible_text().push(
                    symbol,
                )
                &&& s is LiveConv || s is BlockSelecting ==> reading == s.reading()->0.push(symbol)
                &&& s is Selecting ==> display.len() == s.visible_text().len() + 1
                &&& s is Selecting ==> display.remove(
                    (s->list.prefix + s->list.shown_text()).len() as int,
                ) == s.visible_text()
            },
            SymbolPlan::Plain { display } => display == s.visible_text().push(symbol),
            SymbolPlan::ByEngine => s is Idle || s is Preedit || s is RangeSelect,
        },
{
    if let SessionModel::Selecting { list } = s {
        let at = (list.prefix + list.shown_text()).len() as int;
        let display = (list.prefix + list.shown_text()).push(symbol) + list.remainder;
        assert(display.remove(at) =~= s.visible_text());
    }
}

/// A punctuation key commits nothing.
pub proof fn punctuation_commits_nothing(s: SessionModel, has_preedit: bool, symbol: char)
    ensures
        steps::committed_text(symbol_plan(s, has_preedit, symbol).steps(symbol)) == Seq::<
            char,
        >::empty(),
{
    let all = symbol_plan(s, has_preedit, symbol).steps(symbol);
    assert forall|i: int| 0 <= i < all.len() implies !(#[trigger] all[i] is EndComposition)
        && !(all[i] is CommitAndContinue) by {}
    lemma_nothing_committed(all);
}

proof fn lemma_nothing_committed(all: Seq<StepModel>)
    requires
        forall|i: int|
            0 <= i < all.len() ==> !(#[trigger] all[i] is EndComposition) && !(
            all[i] is CommitAndContinue),
    ensures
        steps::committed_text(all) == Seq::<char>::empty(),
    decreases all.len(),
{
    if all.len() > 0 {
        let shorter = all.drop_last();
        assert forall|i: int| 0 <= i < shorter.len() implies !(#[trigger] shorter[i] is EndComposition)
            && !(shorter[i] is CommitAndContinue) by {
            assert(shorter[i] == all[i]);
        }
        lemma_nothing_committed(shorter);
        assert(all.last() == all[all.len() - 1]);
        assert(steps::committed_text(all) =~= Seq::<char>::empty());
    }
}

/// Steps of which only the last one commits.
proof fn lemma_last_commits(before: Seq<StepModel>, last: StepModel)
    requires
        forall|i: int|
            0 <= i < before.len() ==> !(#[trigger] before[i] is EndComposition) && !(
            before[i] is CommitAndContinue),
        last is EndComposition || last is CommitAndContinue,
    ensures
        steps::committed_text(before.push(last)) == (match last {
            StepModel::EndComposition { text } => text,
            StepModel::CommitAndContinue { text } => text,
            _ => Seq::empty(),
        }),
{
    lemma_nothing_committed(before);
    assert(before.push(last).drop_last() =~= before);
    assert(before.push(last).last() == last);
    let text = match last {
        StepModel::EndComposition { text } => text,
        StepModel::CommitAndContinue { text } => text,
        _ => Seq::empty(),
    };
    assert(Seq::<char>::empty() + text =~= text);
}

/// Taking a candidate loses no text: what is committed and what is composed
/// further make up the candidate with all that stood round it.
pub proof fn taking_a_candidate_keeps_the_text(list: ListModel, auto_learn: bool)
    ensures
        list.remainder_reading.len() == 0 && list.punct_pending is None ==> steps::committed_text(
            list.taking_steps(auto_learn),
        ) == list.whole_text() && list.after_taking() is Idle,
        list.remainder_reading.len() > 0 ==> steps::committed_text(list.taking_steps(auto_learn))
            == list.confirmed_text() && list.after_taking().reading() == Some(
            list.remainder_reading,
        ),
{
    let all = list.taking_steps(auto_learn);
    lemma_last_commits(all.drop_last(), all.last());
    assert(all.drop_last().push(all.last()) =~= all);
    assert(list.prefix + list.shown_text() + Seq::<char>::empty() + list.remainder
        =~= list.whole_text());
}

/// Switching the input method commits exactly the text that was shown, however
/// the session came by it: no block and no part of a range is left out.
pub proof fn switching_commits_all_that_is_shown(s: SessionModel, engine_text: Seq<char>)
    ensures
        s.visible_text().len() > 0 ==> text_to_commit(s, engine_text) == s.visible_text(),
        s is Preedit || s is Idle ==> text_to_commit(s, engine_text) == engine_text,
        s is BlockSelecting && s.blocks_text()->0.len() > 0 ==> text_to_commit(s, engine_text)
            == s.blocks_text()->0,
        steps::committed_text(
            seq![
                StepModel::Reclaim,
                StepModel::Commit { text: text_to_commit(s, engine_text) },
                StepModel::ResetPreedit,
                StepModel::HideCandidates,
                StepModel::StopLiveTimer,
                StepModel::EndComposition { text: text_to_commit(s, engine_text) },
            ],
        ) == text_to_commit(s, engine_text),
{
    let t = text_to_commit(s, engine_text);
    let before = seq![
        StepModel::Reclaim,
        StepModel::Commit { text: t },
        StepModel::ResetPreedit,
        StepModel::HideCandidates,
        StepModel::StopLiveTimer,
    ];
    let last = StepModel::EndComposition { text: t };
    lemma_last_commits(before, last);
    assert(before.push(last) =~= seq![
        StepModel::Reclaim,
        StepModel::Commit { text: t },
        StepModel::ResetPreedit,
        StepModel::HideCandidates,
        StepModel::StopLiveTimer,
        StepModel::EndComposition { text: t },
    ]);
}

/// Moving between blocks never changes the whole text in the document: the three
/// parts shown always join to it.
pub proof fn block_steps_show_the_whole_text(s: SessionModel)
    requires
        s is BlockSelecting,
    ensures
        s.blocks_shown()[2] matches StepModel::SetParts { prefix, candidate, remainder } && prefix
            + candidate + remainder == s.visible_text(),
{
    crate::session_blocks::block_parts_join_to_full_text(s);
}

/// A range selection always shows the whole reading, cut in two.
pub proof fn range_steps_show_the_whole_reading(s: SessionModel)
    requires
        s is RangeSelect,
    ensures
        s.range_shown() matches StepModel::SetRange { chosen, rest } && chosen + rest
            == s.visible_text(),
{
    crate::session_range::range_parts_join_to_reading(s);
}

/// A range selection that a key begins or changes always has an end inside the
/// reading, with one character chosen at least: the keys establish this from any
/// other state, and keep it.
pub proof fn range_keys_keep_the_end_in_the_reading(
    s: SessionModel,
    shrink: bool,
    hiragana: Seq<char>,
    has_preedit: bool,
)
    requires
        s.range_in_reading(),
        s.reading() is Some ==> s.reading()->0.len() <= usize::MAX,
        hiragana.len() <= usize::MAX,
    ensures
        range_start(s, shrink, hiragana) is Some ==> range_start(
            s,
            shrink,
            hiragana,
        )->0.session.range_in_reading(),
        range_key_outcome(
            s,
            true,
            s.range_can_shrink(),
            s.after_range_shrink(),
            hiragana,
            has_preedit,
        ).0.range_in_reading(),
        range_key_outcome(
            s,
            false,
            s.range_can_extend(),
            s.after_range_extend(),
            hiragana,
            has_preedit,
        ).0.range_in_reading(),
{
}

/// Beginning a range selection goes back to the reading, all of it: what is chosen
/// and what is left join to it.
pub proof fn choosing_a_range_keeps_the_reading(
    s: SessionModel,
    shrink: bool,
    hiragana: Seq<char>,
)
    ensures
        match range_start(s, shrink, hiragana) {
            Some(start) => {
                &&& start.session is RangeSelect
                &&& start.session.visible_text() == (if s is Preedit {
                    hiragana
                } else {
                    s.reading()->0
                })
                &&& start.steps.last() == start.session.range_shown()
            },
            None => true,
        },
{
}

/// Moving the end of a range, the focus of blocks or the choice in a list changes
/// nothing else: the reading stays, and so does what stands round a candidate.
pub proof fn moving_keys_keep_the_reading(s: SessionModel, dir: CandidateDir)
    ensures
        s.after_range_extend().visible_text() == s.visible_text(),
        s.after_range_shrink().visible_text() == s.visible_text(),
        s.after_range_to_start().visible_text() == s.visible_text(),
        s.after_range_to_end().visible_text() == s.visible_text(),
        s.after_block_move_next().visible_text() == s.visible_text(),
        s.after_block_move_prev().visible_text() == s.visible_text(),
        candidate_moved(s, dir).reading() == s.reading(),
        page_moved(s, dir).reading() == s.reading(),
        candidate_moved(s, dir).list_prefix() == s.list_prefix(),
        candidate_moved(s, dir).list_remainder() == s.list_remainder(),
        page_moved(s, dir).list_prefix() == s.list_prefix(),
        page_moved(s, dir).list_remainder() == s.list_remainder(),
{
}

/// Home and End are used up exactly when they were announced to be: while there is
/// text or something is being chosen.
pub proof fn home_and_end_are_used_up_as_announced(s: SessionModel, p: bool)
    ensures
        (s.range_can_extend() || p || s.selecting_flag())
            == crate::action::UserAction::CursorEnd.eaten(p || s.selecting_flag()),
        (s.range_can_shrink() || p || s.selecting_flag())
            == crate::action::UserAction::CursorHome.eaten(p || s.selecting_flag()),
{
}

/// The kana forms go round: hiragana, katakana, narrow katakana, hiragana.
pub proof fn kana_forms_go_round(hiragana: Seq<char>, katakana: Seq<char>, half: Seq<char>)
    requires
        hiragana != katakana,
        katakana != half,
        half != hiragana,
    ensures
        next_kana_form(hiragana, hiragana, katakana, half) == katakana,
        next_kana_form(katakana, hiragana, katakana, half) == half,
        next_kana_form(half, hiragana, katakana, half) == hiragana,
{
}

/// A punctuation key in a candidate list keeps the whole reading: the symbol goes
/// in behind what was converted, what stands before and behind it reads as before,
/// and the engine is set to the very same reading.
pub proof fn punctuation_keeps_the_reading_of_a_list(list: ListModel, symbol: char)
    ensures
        ({
            let at = (list.prefix_reading + list.original_preedit).len() as int;
            let whole = list.prefix_reading + list.original_preedit + (
            if list.remainder_reading.len() > 0 {
                list.remainder_reading
            } else {
                list.remainder
            });
            let s = SessionModel::Selecting { list };
            let plan = symbol_plan(s, true, symbol);
            &&& plan is Live
            &&& plan->reading.len() == whole.len() + 1
            &&& plan->reading[at] == symbol
            &&& plan->reading.remove(at) == whole
            &&& plan.session(s).reading() == Some(plan->reading)
            &&& plan->force == Some(plan->reading)
            &&& plan.steps(symbol).contains(StepModel::ForcePreedit { text: plan->reading })
        }),
{
    let s = SessionModel::Selecting { list };
    let plan = symbol_plan(s, true, symbol);
    let at = (list.prefix_reading + list.original_preedit).len() as int;
    let whole = list.prefix_reading + list.original_preedit + list.rest_reading();
    assert(plan->reading.remove(at) =~= whole);
    assert(plan.steps(symbol)[4] == (StepModel::ForcePreedit { text: plan->reading }));
}

/// After a punctuation key the engine, the session and the document agree: the
/// engine has got the symbol behind its text, or holds the reading that the session
/// has; and the document shows what the session shows.
pub proof fn punctuation_keeps_the_engine_in_step(
    s: SessionModel,
    has_preedit: bool,
    symbol: char,
    engine: Seq<char>,
)
    ensures
        ({
            let plan = symbol_plan(s, has_preedit, symbol);
            let after = plan.session(s);
            let held = steps::engine_text_after(plan.steps(symbol), engine);
            &&& plan is ByEngine || plan is Plain ==> held == engine.push(symbol)
            &&& plan is Live && (s is LiveConv ==> s.reading() == Some(engine)) ==> after.reading()
                == Some(held)
            &&& plan is ByEngine ==> after == s
            &&& plan is ByEngine <==> !has_preedit || s is Idle || s is Preedit || s is RangeSelect
            &&& !(plan is ByEngine) ==> steps::composed_by(plan.steps(symbol).last(), held)
                == after.preedit()
            &&& plan is Live ==> after is LiveConv && after->LiveConv_preview_for
                == after->LiveConv_reading
            &&& plan is Plain ==> after is Preedit
        }),
{
    let plan = symbol_plan(s, has_preedit, symbol);
    let all = plan.steps(symbol);
    reveal_with_fuel(steps::engine_text_upto, 10);
    assert(engine + seq![symbol] =~= engine.push(symbol));
    if let SymbolPlan::Live { force, reading, .. } = plan {
        if let Some(t) = force {
            assert(t + seq![symbol] =~= t.push(symbol));
        }
    }
}

/// Before a symbol goes in, all that runs for the earlier text is called off and
/// the candidates are hidden.
pub proof fn punctuation_calls_off_what_runs(s: SessionModel, has_preedit: bool, symbol: char)
    ensures
        ({
            let all = symbol_plan(s, has_preedit, symbol).steps(symbol);
            &&& all.contains(StepModel::BumpGeneration)
            &&& all.contains(StepModel::HideCandidates)
            &&& all.contains(StepModel::StopLiveTimer)
            &&& all.contains(StepModel::StopWaitingTimer)
        }),
{
    let all = symbol_plan(s, has_preedit, symbol).steps(symbol);
    assert(all[0] == StepModel::BumpGeneration);
    assert(all[1] == StepModel::HideCandidates);
    assert(all[2] == StepModel::StopLiveTimer);
    assert(all[3] == StepModel::StopWaitingTimer);
}

/// Behind a digit, and only there, the two Japanese punctuation marks become the
/// separators of a number, where the settings ask for it. Every other symbol goes
/// in as it was typed.
pub proof fn separators_follow_digits(reading: Seq<char>, digit: char, c: char, auto: bool)
    ensures
        symbol_for(reading, c, auto) != c ==> auto && reading.len() > 0 && numeric_digit(
            reading.last(),
        ) && (c == '、' || c == '。'),
        numeric_digit(digit) && auto ==> {
            &&& symbol_for(reading.push(digit), '、', auto) == ','
            &&& symbol_for(reading.push(digit), '。', auto) == '.'
        },
        symbol_for(reading, c, false) == c,
        symbol_for(reading, ',', auto) == ',',
        symbol_for(reading, '.', auto) == '.',
        separator_for(reading, c) is Some ==> reading.len() > 0 && numeric_digit(reading.last()),
        separator_for(reading, c) is Some <==> reading.len() > 0 && numeric_digit(reading.last()) && (c
            == '、' || c == '。' || c == ',' || c == '.'),
        '0' <= digit <= '9' || '０' <= digit <= '９' <==> numeric_digit(digit),
{
    assert(reading.push(digit).last() == digit);
}

/// A form key leaves a plain text in the new form: a list, a live conversion or an
/// awaited one is over, its candidates are hidden and its timer is stopped. The
/// engine, the document and what would be committed next are that text. A session
/// that is none of these stays as it is.
pub proof fn forms_end_the_conversion(s: SessionModel, t: Seq<char>, engine: Seq<char>)
    ensures
        s is Selecting || s is LiveConv || s is Waiting ==> {
            &&& reformed(s, t) == (SessionModel::Preedit { text: t })
            &&& reform_steps(s, t).contains(StepModel::HideCandidates)
            &&& text_to_commit(
                reformed(s, t),
                steps::engine_text_after(reform_steps(s, t), engine),
            ) == t
        },
        s is Selecting || s is LiveConv ==> reform_steps(s, t).contains(StepModel::StopLiveTimer),
        s is Waiting ==> reform_steps(s, t).contains(StepModel::StopWaitingTimer),
        s is Preedit || s is Idle ==> text_to_commit(
            reformed(s, t),
            steps::engine_text_after(reform_steps(s, t), engine),
        ) == t,
        !(s is Selecting || s is LiveConv || s is Waiting) ==> reformed(s, t) == s
            && !reform_steps(s, t).contains(StepModel::HideCandidates),
        steps::engine_text_after(reform_steps(s, t), engine) == t,
        steps::composed_by(reform_steps(s, t).last(), t) == Some(t),
        reform_steps(s, t).contains(StepModel::Reclaim),
        reform_steps(s, t).contains(StepModel::SuppressCommit),
        steps::committed_text(reform_steps(s, t)) == Seq::<char>::empty(),
{
    let all = reform_steps(s, t);
    reveal_with_fuel(steps::engine_text_upto, 8);
    assert(all[0] == StepModel::Reclaim);
    assert(all[2] == StepModel::SuppressCommit);
    if s is Selecting || s is LiveConv || s is Waiting {
        assert(all[3] == StepModel::HideCandidates);
        if s is Waiting {
            assert(all[4] == StepModel::StopWaitingTimer);
        } else {
            assert(all[4] == StepModel::StopLiveTimer);
        }
    }
    lemma_nothing_committed(all);
}

/// The kana keys convert what is shown while it holds kana; letters are taken back
/// to the kana that were typed for them, where these are known.
pub proof fn kana_keys_go_back_to_kana(preedit: Seq<char>, from_log: Seq<char>)
    ensures
        holds_kana(preedit) ==> kana_source(preedit, from_log) == preedit,
        !holds_kana(preedit) && from_log.len() > 0 ==> kana_source(preedit, from_log) == from_log,
        from_log.len() == 0 ==> kana_source(preedit, from_log) == preedit,
{
}

/// Hiragana, katakana with the long vowel mark, and narrow katakana are kana;
/// ASCII letters, digits and wide letters are not.
pub proof fn kana_are_told_from_letters(c: char, before: Seq<char>, after: Seq<char>)
    ensures
        'ぁ' <= c <= 'ゖ' ==> kana_char(c),
        'ァ' <= c <= 'ー' ==> kana_char(c),
        '･' <= c <= 'ﾟ' ==> kana_char(c),
        c < 'ぁ' ==> !kana_char(c),
        '！' <= c <= '～' ==> !kana_char(c),
        '一' <= c <= '龯' ==> !kana_char(c),
        kana_char(c) ==> holds_kana(before.push(c) + after),
        holds_kana(before + after) <==> holds_kana(before) || holds_kana(after),
        !holds_kana(Seq::empty()),
{
    assert((before.push(c) + after)[before.len() as int] == c);
    let all = before + after;
    if holds_kana(before) {
        let i = choose|i: int| 0 <= i < before.len() && kana_char(#[trigger] before[i]);
        assert(all[i] == before[i]);
    }
    if holds_kana(after) {
        let i = choose|i: int| 0 <= i < after.len() && kana_char(#[trigger] after[i]);
        assert(all[before.len() + i] == after[i]);
    }
    if holds_kana(all) {
        let i = choose|i: int| 0 <= i < all.len() && kana_char(#[trigger] all[i]);
        if i < before.len() {
            assert(before[i] == all[i]);
        } else {
            assert(after[i - before.len()] == all[i]);
        }
    }
}

/// A text in no kana form becomes hiragana, and every step on the ring shows one
/// of the three forms.
pub proof fn kana_ring_starts_with_hiragana(
    shown: Seq<char>,
    hiragana: Seq<char>,
    katakana: Seq<char>,
    half: Seq<char>,
)
    ensures
        ({
            let next = next_kana_form(shown, hiragana, katakana, half);
            &&& shown != hiragana && shown != katakana ==> next == hiragana
            &&& shown == hiragana ==> next == katakana
            &&& shown == katakana && shown != hiragana ==> next == half
        }),
{
}

/// What a session shows in the document is what its parts show: a list shows its
/// candidate between what stands round it, a preview stands for its reading, and
/// text that the engine shows is not shown by the session.
pub proof fn sessions_show_their_parts(s: SessionModel)
    ensures
        match s {
            SessionModel::Selecting { list } => {
                &&& s.visible_text() == list.prefix + list.shown_text() + list.remainder
                &&& steps::composed_by(list.parts_shown(), Seq::empty()) == Some(s.visible_text())
                &&& list.parts_shown() matches StepModel::SetParts { candidate, .. } && candidate
                    == list.shown_text()
                &&& list.current_view() is Some ==> list.shown_text() == s.current_text()->0
                &&& list.current_view() is None ==> list.shown_text() == s.reading()->0
            },
            SessionModel::LiveConv { .. } => Some(s.visible_text()) == s.preedit(),
            SessionModel::Waiting { .. } => Some(s.visible_text()) == s.preedit(),
            SessionModel::RangeSelect { .. } => Some(s.visible_text()) == s.reading(),
            SessionModel::BlockSelecting { .. } => Some(s.visible_text()) == s.blocks_text(),
            SessionModel::Preedit { .. } => s.visible_text().len() == 0,
            SessionModel::Idle => s.visible_text().len() == 0,
        },
{
}

/// The candidate window marks the entry that stands in the document, on the page
/// that holds it.
pub proof fn the_window_marks_what_is_shown(
    list: ListModel,
    place: Option<(i32, i32)>,
    clear: bool,
)
    requires
        list.well_formed(),
        list.len() > 0,
    ensures
        list.page_shown(place, clear) matches StepModel::ShowCandidates {
            page,
            index,
            info,
            place: at,
            clear_status,
        } && {
            &&& 0 <= index < page.len()
            &&& page[index] == list.shown_text()
            &&& page == list.page_texts()
            &&& info == list.page_label()
            &&& at == place
            &&& clear_status == clear
        },
{
    crate::session_select::chosen_candidate_is_on_its_page(list);
}

/// The window of a row of blocks offers the candidates of the block in focus from
/// the first one on, and marks the one that stands in the document while it is
/// among them, else the last place. It stays where it is.
pub proof fn the_window_marks_the_focused_block(s: SessionModel)
    requires
        s.focused_block() is Some,
    ensures
        ({
            let b = s.focused_block()->0;
            let shown = s.blocks_shown();
            &&& s.block_page().is_prefix_of(b.candidates)
            &&& s.block_page().len() == b.candidates.len() || s.block_page().len()
                == crate::session_blocks::BLOCK_PAGE_SIZE
            &&& s.block_page().len() <= crate::session_blocks::BLOCK_PAGE_SIZE
            &&& b.selected < s.block_page().len() ==> s.block_page()[s.block_page_index()]
                == b.current()
            &&& b.selected >= crate::session_blocks::BLOCK_PAGE_SIZE ==> s.block_page_index() + 1
                == crate::session_blocks::BLOCK_PAGE_SIZE
            &&& shown.len() == 3
            &&& shown[0] == (StepModel::UpdateSelection {
                index: s.block_page_index(),
                info: Seq::empty(),
            })
            &&& shown[1] == (StepModel::ShowCandidates {
                page: s.block_page(),
                index: s.block_page_index(),
                info: Seq::empty(),
                place: None,
                clear_status: false,
            })
            &&& shown[2] matches StepModel::SetParts { candidate, .. } && candidate == b.current()
        }),
{
    let b = s.focused_block()->0;
    assert(s.block_page() =~= b.candidates.subrange(0, s.block_page().len() as int));
}

/// The candidate keys go one candidate on or back and the page keys one page, and
/// they change nothing but the choice. A state without candidates stays as it is.
pub proof fn candidate_keys_change_only_the_choice(s: SessionModel, dir: CandidateDir)
    requires
        s.well_formed(),
        s is Selecting ==> 0 < s->list.len() <= usize::MAX,
    ensures
        s is Selecting ==> {
            let list = s->list;
            let n = list.len();
            let moved = candidate_moved(s, dir);
            let paged = page_moved(s, dir);
            &&& moved == (SessionModel::Selecting {
                list: ListModel { selected: moved->list.selected, ..list },
            })
            &&& paged == (SessionModel::Selecting {
                list: ListModel { selected: paged->list.selected, ..list },
            })
            &&& dir == CandidateDir::Next ==> moved->list.selected == (if list.selected + 1 < n {
                list.selected + 1
            } else {
                0
            })
            &&& dir == CandidateDir::Prev ==> moved->list.selected == (if list.selected > 0 {
                list.selected - 1
            } else {
                n - 1
            })
            &&& dir == CandidateDir::Next ==> paged->list.page_number() == (if list.page_number()
                + 1 < list.page_total() {
                list.page_number() + 1
            } else {
                0
            })
            &&& dir == CandidateDir::Prev ==> paged->list.page_number() == (if list.page_number()
                > 0 {
                list.page_number() - 1
            } else {
                list.page_total() - 1
            })
            &&& paged->list.selected == paged->list.page_first()
        },
        s is BlockSelecting ==> {
            &&& candidate_moved(s, CandidateDir::Next) == s.after_block_next()
            &&& candidate_moved(s, CandidateDir::Prev) == s.after_block_prev()
            &&& page_moved(s, dir) == candidate_moved(s, dir)
        },
        !(s is Selecting || s is BlockSelecting) ==> candidate_moved(s, dir) == s && page_moved(
            s,
            dir,
        ) == s,
{
    if s is Selecting {
        crate::session_select::next_visits_every_candidate(s->list);
        crate::session_select::pages_turn_round(s->list);
        crate::paging::lemma_page_start(s->list.selected as int, s->list.page_size as int);
    }
}

/// Taking a candidate commits what stands before it, the candidate, and the
/// punctuation held back, in this order. A rest with a reading is what the engine
/// holds and the document shows next, and its conversion begins; a rest without one
/// is committed too, and nothing is left.
pub proof fn taken_candidates_are_committed_in_order(
    list: ListModel,
    auto_learn: bool,
    engine: Seq<char>,
)
    ensures
        ({
            let all = list.taking_steps(auto_learn);
            let before = list.prefix + list.shown_text() + (match list.punct_pending {
                Some(p) => seq![p],
                None => Seq::empty(),
            });
            let left = steps::engine_text_after(all, engine);
            let committed = steps::committed_text(all);
            &&& left == list.remainder_reading
            &&& list.remainder_reading.len() > 0 ==> {
                &&& committed == before
                &&& list.after_taking() == (SessionModel::Preedit { text: list.remainder_reading })
                &&& all.contains(StepModel::StartLive { reading: list.remainder_reading })
                &&& steps::composed_by(all.last(), left) == Some(list.remainder_reading)
            }
            &&& list.remainder_reading.len() == 0 ==> {
                &&& committed == before + list.remainder
                &&& list.after_taking() is Idle
                &&& steps::composed_by(all.last(), left) == Some(Seq::<char>::empty())
            }
            &&& all.contains(StepModel::Commit { text: committed })
            &&& all.contains(StepModel::HideCandidates)
        }),
{
    let all = list.taking_steps(auto_learn);
    let n = list.learning_steps(auto_learn).len() as int;
    reveal_with_fuel(steps::engine_text_upto, 9);
    lemma_last_commits(all.drop_last(), all.last());
    assert(all.drop_last().push(all.last()) =~= all);
    assert(Seq::<char>::empty() + list.remainder_reading =~= list.remainder_reading);
    let committed = steps::committed_text(all);
    assert(all[n] == StepModel::HideCandidates);
    assert(all[n + 1] == (StepModel::Commit { text: committed }));
    if list.remainder_reading.len() > 0 {
        assert(all[n + 4] == (StepModel::StartLive { reading: list.remainder_reading }));
    }
}

/// A number key commits the text that carries this number on the page in view.
pub proof fn numbers_commit_what_they_number(list: ListModel, n: int, auto_learn: bool)
    requires
        list.well_formed(),
        list.len() <= usize::MAX,
        1 <= n <= list.page_texts().len(),
    ensures
        ({
            let all = list.after_select_nth(n).taking_steps(auto_learn);
            let chosen = list.prefix + list.page_texts()[n - 1] + crate::session::punct_text(
                list.punct_pending,
            );
            &&& list.remainder_reading.len() > 0 ==> steps::committed_text(all) == chosen
            &&& list.remainder_reading.len() == 0 ==> steps::committed_text(all) == chosen
                + list.remainder
        }),
{
    crate::session_select::numbers_choose_what_the_page_shows(list, n);
    taken_candidates_are_committed_in_order(list.after_select_nth(n), auto_learn, Seq::empty());
}

/// What is learned from taking a candidate is that candidate for the reading it was
/// offered for, once at most, at once where the model gave it, and nothing where
/// learning is withheld.
pub proof fn only_the_taken_candidate_is_learned(list: ListModel, auto_learn: bool)
    requires
        list.current_view() is Some,
    ensures
        ({
            let v = list.current_view()->0;
            let learned = list.learning_steps(auto_learn);
            if crate::learning::learns(auto_learn, list.original_preedit, v.text, Some(v.source)) {
                learned == seq![
                    if v.source == CandidateViewSource::Bg {
                        StepModel::LearnForce { reading: list.original_preedit, text: v.text }
                    } else {
                        StepModel::Learn { reading: list.original_preedit, text: v.text }
                    },
                ]
            } else {
                learned.len() == 0
            }
        }),
{
}

/// Shift+Left and Shift+Right begin a range wherever there is a reading to cut.
/// Shift+Left leaves out the last character, Shift+Right takes the first one; what
/// was shown before is kept, candidates go away, and the engine holds the reading.
pub proof fn range_keys_cut_the_reading(
    s: SessionModel,
    shrink: bool,
    hiragana: Seq<char>,
    engine: Seq<char>,
)
    requires
        s.reading() is Some ==> s.reading()->0.len() <= usize::MAX,
        hiragana.len() <= usize::MAX,
    ensures
        ({
            let whole = if s is Preedit {
                hiragana
            } else {
                s.reading()->0
            };
            let begun = range_start(s, shrink, hiragana);
            &&& begun is Some <==> (s is LiveConv || s is Selecting) && whole.len() > 0 || s is Preedit
                && (whole.len() > 1 || whole.len() == 1 && !shrink)
            &&& begun is Some ==> {
                let r = begun->0.session;
                let all = begun->0.steps;
                let end = if shrink && whole.len() > 1 {
                    whole.len() - 1
                } else {
                    1
                };
                &&& r is RangeSelect
                &&& r.reading() == Some(whole)
                &&& r.range_parts() == Some((whole.take(end), whole.skip(end)))
                &&& r->RangeSelect_original_preview == (if s is LiveConv {
                    s->LiveConv_preview
                } else {
                    Seq::empty()
                })
                &&& steps::composed_by(all.last(), engine) == Some(whole)
                &&& all.last() == (StepModel::SetRange {
                    chosen: whole.take(end),
                    rest: whole.skip(end),
                })
                &&& all.contains(StepModel::StopLiveTimer)
                &&& all.contains(StepModel::Reclaim)
                &&& s is LiveConv || s is Selecting ==> all.contains(StepModel::HideCandidates)
                &&& steps::engine_text_after(all, engine) == (if s is Selecting {
                    whole
                } else {
                    engine
                })
            }
        }),
{
    reveal_with_fuel(steps::engine_text_upto, 7);
    let begun = range_start(s, shrink, hiragana);
    if begun is Some {
        let r = begun->0.session;
        let all = begun->0.steps;
        let whole = r->RangeSelect_full_reading;
        let end = r->RangeSelect_select_end as int;
        assert(r.range_parts()->Some_0.0 =~= whole.take(end));
        assert(r.range_parts()->Some_0.1 =~= whole.skip(end));
        assert(whole.take(end) + whole.skip(end) =~= whole);
        if s is Preedit {
            assert(all[0] == StepModel::StopLiveTimer);
            assert(all[1] == StepModel::Reclaim);
        } else {
            assert(all[0] == StepModel::HideCandidates);
            assert(all[1] == StepModel::StopLiveTimer);
            assert(all[2] == StepModel::Reclaim);
        }
    }
}

/// In a range the same keys move its end by one character and show the reading cut
/// there; at an end the key is used up. Any other state without a reading to cut
/// stays as it is.
pub proof fn range_keys_move_the_cut(
    s: SessionModel,
    shrink: bool,
    hiragana: Seq<char>,
    has_preedit: bool,
)
    requires
        s.range_in_reading(),
        s is RangeSelect ==> s->RangeSelect_full_reading.len() < usize::MAX,
    ensures
        ({
            let r = if shrink {
                range_key_outcome(
                    s,
                    true,
                    s.range_can_shrink(),
                    s.after_range_shrink(),
                    hiragana,
                    has_preedit,
                )
            } else {
                range_key_outcome(
                    s,
                    false,
                    s.range_can_extend(),
                    s.after_range_extend(),
                    hiragana,
                    has_preedit,
                )
            };
            let whole = s->RangeSelect_full_reading;
            let end = s->RangeSelect_select_end as int;
            let next = if shrink {
                end - 1
            } else {
                end + 1
            };
            &&& s is RangeSelect && 1 <= next <= whole.len() ==> {
                &&& r.0.reading() == s.reading()
                &&& r.0->RangeSelect_select_end == next
                &&& r.0->RangeSelect_original_preview == s->RangeSelect_original_preview
                &&& r.1 == OutcomeModel::did(
                    seq![StepModel::SetRange { chosen: whole.take(next), rest: whole.skip(next) }],
                )
            }
            &&& s is RangeSelect && !(1 <= next <= whole.len()) ==> r == (
                s,
                OutcomeModel::nothing(true),
            )
            &&& !(s is RangeSelect) && range_start(s, shrink, hiragana) is None ==> {
                &&& r.0 == s
                &&& r.1.steps.len() == 0
                &&& s is LiveConv ==> r.1.eaten
                &&& s is Idle || s is Preedit || s is Waiting || s is BlockSelecting ==> r.1.eaten
                    == has_preedit
            }
            &&& range_start(s, shrink, hiragana) is Some ==> r.1.eaten && r.1.steps == range_start(
                s,
                shrink,
                hiragana,
            )->0.steps && r.0 == range_start(s, shrink, hiragana)->0.session
        }),
{
    if s is RangeSelect {
        let whole = s->RangeSelect_full_reading;
        let end = s->RangeSelect_select_end as int;
        crate::session_range::range_moves_by_one_character(s);
        if shrink && end > 1 {
            crate::session_range::range_moves_by_one_character(s.after_range_shrink());
        }
        if !shrink && end < whole.len() {
            crate::session_range::range_moves_by_one_character(s.after_range_extend());
        }
    }
}

}
