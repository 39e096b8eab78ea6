//! From an action to its handler.
//!
//! Before an action is handled, what happened in the meantime is taken in: a
//! preview that could not be shown, and candidates that have arrived. Each
//! function here takes what the caller found out and tells in an [`Ask`] what to
//! do next.
use vstd::prelude::*;
use vstd::string::*;
use crate::action::UserAction;
use crate::config::InputConfig;
use crate::edit_ops::{CandidateDir, show_page, show_parts};
use crate::engine_slot::{Watchdog, bg_timeout_watchdog};
use crate::ime_mode::ImeMode;
use crate::session::{CandidateViewSource, ListModel, SessionModel, SessionState};
use crate::steps::{Outcome, OutcomeModel, Step, StepModel};
use crate::steps;
use crate::text;
use crate::text::{concat2, str_eq, suffix_after_prefix_or_empty};

verus! {

/// How many dictionary candidates join those of the model.
pub const DICT_LIMIT: usize = 40;

/// What the engine says of a conversion in the background.
#[derive(Clone, Copy, Debug, PartialEq, Eq, Structural)]
pub enum BgStatus {
    Running,
    Done,
    Other,
}

impl BgStatus {
    pub open spec fn of_text(t: Seq<char>) -> BgStatus {
        if t == "running"@ {
            BgStatus::Running
        } else if t == "done"@ {
            BgStatus::Done
        } else {
            BgStatus::Other
        }
    }

    pub fn parse(t: &str) -> (r: Self)
        ensures
            r == BgStatus::of_text(t@),
    {
        if str_eq(t, "running") {
            BgStatus::Running
        } else if str_eq(t, "done") {
            BgStatus::Done
        } else {
            BgStatus::Other
        }
    }
}

/// What the engine holds when an action comes.
pub struct EngineGlance {
    pub hiragana: String,
    pub preedit: String,
    pub bg: BgStatus,
}

/// A preview that was made while no document could be written to, with what it
/// was made for.
pub struct PreviewEntry {
    pub preview: String,
    pub reading: String,
    pub gen_when_requested: u64,
    pub session_nonce_at_request: u64,
}

#[derive(Clone, Copy, Debug, PartialEq, Eq, Structural)]
pub enum KanaForm {
    Hiragana,
    Katakana,
    HalfKatakana,
}

/// Who handles an action.
#[derive(Clone, Copy, Debug, PartialEq, Eq, Structural)]
pub enum Handler {
    Input { c: char },
    InputRaw { c: char },
    Punctuate { c: char },
    FullWidthSpace,
    Convert,
    CommitRaw,
    Backspace,
    Cancel,
    Kana { form: KanaForm },
    Latin { full: bool },
    CycleKana,
    CandidateMove { dir: CandidateDir },
    CandidatePage { dir: CandidateDir },
    CandidateSelect { n: u8 },
    BlockFocus { forward: bool },
    CursorJump { to_end: bool },
    SegmentShrink,
    SegmentExtend,
    SwitchIme,
    /// The application gets the key.
    Nobody,
}

/// What the caller does next, and which function takes the result.
pub enum Ask {
    /// Put the text of the direct mode into the document and switch to plain on;
    /// then look at the engine.
    LeaveDirect,
    /// Let the direct mode handle the action; then [`handle_action_after_direct`].
    RunDirect,
    /// Look at the engine; then [`handle_action_with_engine`].
    Engine,
    /// Show the text; then look at the engine again, and
    /// [`handle_action_after_preview`].
    ShowPreview { text: String },
    /// Fetch the candidates for `key` and merge them with the dictionary's; then
    /// [`handle_action_after_selecting_take`].
    TakeForSelecting { key: String },
    /// The same; then [`handle_action_after_waiting_take`].
    TakeForWaiting { key: String },
    Route { handler: Handler },
    Finish { outcome: Outcome },
}

#[verifier::ext_equal]
pub enum AskModel {
    LeaveDirect,
    RunDirect,
    Engine,
    ShowPreview { text: Seq<char> },
    TakeForSelecting { key: Seq<char> },
    TakeForWaiting { key: Seq<char> },
    Route { handler: Handler },
    Finish { outcome: OutcomeModel },
}

impl View for Ask {
    type V = AskModel;

    open spec fn view(&self) -> AskModel {
        match self {
            Ask::LeaveDirect => AskModel::LeaveDirect,
            Ask::RunDirect => AskModel::RunDirect,
            Ask::Engine => AskModel::Engine,
            Ask::ShowPreview { text } => AskModel::ShowPreview { text: text@ },
            Ask::TakeForSelecting { key } => AskModel::TakeForSelecting { key: key@ },
            Ask::TakeForWaiting { key } => AskModel::TakeForWaiting { key: key@ },
            Ask::Route { handler } => AskModel::Route { handler: *handler },
            Ask::Finish { outcome } => AskModel::Finish { outcome: outcome@ },
        }
    }
}

/// The handler of an action. A key whose character is a symbol (`symbol`) goes in
/// as punctuation.
pub open spec fn handler_of(action: UserAction, symbol: Option<char>) -> Handler {
    match action {
        UserAction::Input(c) => match symbol {
            Some(s) => Handler::Punctuate { c: s },
            None => Handler::Input { c },
        },
        UserAction::InputRaw(c) => match symbol {
            Some(s) => Handler::Punctuate { c: s },
            None => Handler::InputRaw { c },
        },
        UserAction::FullWidthSpace => Handler::FullWidthSpace,
        UserAction::Convert => Handler::Convert,
        UserAction::CommitRaw => Handler::CommitRaw,
        UserAction::Backspace => Handler::Backspace,
        UserAction::Cancel => Handler::Cancel,
        UserAction::CancelAll => Handler::Cancel,
        UserAction::Hiragana => Handler::Kana { form: KanaForm::Hiragana },
        UserAction::Katakana => Handler::Kana { form: KanaForm::Katakana },
        UserAction::HalfKatakana => Handler::Kana { form: KanaForm::HalfKatakana },
        UserAction::FullLatin => Handler::Latin { full: true },
        UserAction::HalfLatin => Handler::Latin { full: false },
        UserAction::CycleKana => Handler::CycleKana,
        UserAction::CandidateNext => Handler::CandidateMove { dir: CandidateDir::Next },
        UserAction::CandidatePrev => Handler::CandidateMove { dir: CandidateDir::Prev },
        UserAction::CandidatePageDown => Handler::CandidatePage { dir: CandidateDir::Next },
        UserAction::CandidatePageUp => Handler::CandidatePage { dir: CandidateDir::Prev },
        UserAction::CandidateSelect(n) => Handler::CandidateSelect { n },
        UserAction::CursorLeft => Handler::BlockFocus { forward: false },
        UserAction::CursorRight => Handler::BlockFocus { forward: true },
        UserAction::CursorHome => Handler::CursorJump { to_end: false },
        UserAction::CursorEnd => Handler::CursorJump { to_end: true },
        UserAction::Punctuate(c) => Handler::Punctuate { c },
        UserAction::SegmentShrink => Handler::SegmentShrink,
        UserAction::SegmentExtend => Handler::SegmentExtend,
        UserAction::ImeToggle => Handler::SwitchIme,
        UserAction::ImeOff => Handler::SwitchIme,
        UserAction::ImeOn => Handler::SwitchIme,
        UserAction::Other => Handler::Nobody,
    }
}

pub fn route(action: &UserAction, symbol: Option<char>) -> (r: Handler)
    ensures
        r == handler_of(*action, symbol),
{
    match *action {
        UserAction::Input(c) => match symbol {
            Some(s) => Handler::Punctuate { c: s },
            None => Handler::Input { c },
        },
        UserAction::InputRaw(c) => match symbol {
            Some(s) => Handler::Punctuate { c: s },
            None => Handler::InputRaw { c },
        },
        UserAction::FullWidthSpace => Handler::FullWidthSpace,
        UserAction::Convert => Handler::Convert,
        UserAction::CommitRaw => Handler::CommitRaw,
        UserAction::Backspace => Handler::Backspace,
        UserAction::Cancel => Handler::Cancel,
        UserAction::CancelAll => Handler::Cancel,
        UserAction::Hiragana => Handler::Kana { form: KanaForm::Hiragana },
        UserAction::Katakana => Handler::Kana { form: KanaForm::Katakana },
        UserAction::HalfKatakana => Handler::Kana { form: KanaForm::HalfKatakana },
        UserAction::FullLatin => Handler::Latin { full: true },
        UserAction::HalfLatin => Handler::Latin { full: false },
        UserAction::CycleKana => Handler::CycleKana,
        UserAction::CandidateNext => Handler::CandidateMove { dir: CandidateDir::Next },
        UserAction::CandidatePrev => Handler::CandidateMove { dir: CandidateDir::Prev },
        UserAction::CandidatePageDown => Handler::CandidatePage { dir: CandidateDir::Next },
        UserAction::CandidatePageUp => Handler::CandidatePage { dir: CandidateDir::Prev },
        UserAction::CandidateSelect(n) => Handler::CandidateSelect { n },
        UserAction::CursorLeft => Handler::BlockFocus { forward: false },
        UserAction::CursorRight => Handler::BlockFocus { forward: true },
        UserAction::CursorHome => Handler::CursorJump { to_end: false },
        UserAction::CursorEnd => Handler::CursorJump { to_end: true },
        UserAction::Punctuate(c) => Handler::Punctuate { c },
        UserAction::SegmentShrink => Handler::SegmentShrink,
        UserAction::SegmentExtend => Handler::SegmentExtend,
        UserAction::ImeToggle => Handler::SwitchIme,
        UserAction::ImeOff => Handler::SwitchIme,
        UserAction::ImeOn => Handler::SwitchIme,
        UserAction::Other => Handler::Nobody,
    }
}

/// The preview belongs to the text as it is now.
pub open spec fn preview_fresh(entry: PreviewEntry, gen: u64, nonce: u64, reading: Seq<char>) -> bool {
    entry.gen_when_requested == gen && entry.session_nonce_at_request == nonce && entry.reading@
        == reading
}

/// A preview is shown only while plain text is typed, only where it belongs to
/// that text, and never by the key that commits: what is committed was seen.
pub open spec fn preview_applies(
    s: SessionModel,
    action: UserAction,
    entry: PreviewEntry,
    gen: u64,
    nonce: u64,
    reading: Seq<char>,
) -> bool {
    !(action is CommitRaw) && preview_fresh(entry, gen, nonce, reading) && s is Preedit
        && reading.len() > 0
}

/// Takes in a preview that waits. Gives the text to show: the preview, and behind
/// it what has been typed but not yet become kana.
pub fn apply_queued_preview(
    sess: &mut SessionState,
    action: &UserAction,
    entry: &PreviewEntry,
    gen: u64,
    nonce: u64,
    glance: &EngineGlance,
) -> (r: Option<String>)
    ensures
        old(sess)@.well_formed() ==> final(sess)@.well_formed(),
        if preview_applies(old(sess)@, *action, *entry, gen, nonce, glance.hiragana@) {
            &&& final(sess)@ == (SessionModel::LiveConv {
                reading: glance.hiragana@,
                preview: entry.preview@,
                preview_for: glance.hiragana@,
            })
            &&& text::opt_string(r) == Some(
                entry.preview@ + text::suffix_after_prefix(glance.preedit@, glance.hiragana@),
            )
        } else {
            &&& final(sess)@ == old(sess)@
            &&& r is None
        },
{
    let commit_key = match *action {
        UserAction::CommitRaw => true,
        _ => false,
    };
    if commit_key {
        return None;
    }
    if entry.gen_when_requested != gen || entry.session_nonce_at_request != nonce || !str_eq(
        entry.reading.as_str(),
        glance.hiragana.as_str(),
    ) {
        return None;
    }
    if !sess.is_preedit() || glance.hiragana.as_str().unicode_len() == 0 {
        return None;
    }
    let pending = suffix_after_prefix_or_empty(glance.preedit.as_str(), glance.hiragana.as_str());
    sess.set_live_conv(glance.hiragana.clone(), entry.preview.clone(), glance.hiragana.clone());
    Some(concat2(entry.preview.as_str(), pending.as_str()))
}

impl SessionModel {
    /// The reading whose candidates are to be fetched for a shown list.
    pub open spec fn selecting_key(self, bg: BgStatus) -> Option<Seq<char>> {
        match self {
            SessionModel::Selecting { list } if list.llm_pending && bg == BgStatus::Done => Some(
                list.original_preedit,
            ),
            _ => None,
        }
    }

    /// The reading whose candidates are to be fetched while nothing is shown yet.
    /// Keys that cancel do not wait for them.
    pub open spec fn waiting_key(self, action: UserAction, bg: BgStatus) -> Option<Seq<char>> {
        match self {
            SessionModel::Waiting { text, .. } if bg == BgStatus::Done && !cancels(action) => Some(
                text,
            ),
            _ => None,
        }
    }
}

pub open spec fn cancels(action: UserAction) -> bool {
    action is Cancel || action is CancelAll
}

impl ListModel {
    /// The list once the model's candidates have come.
    pub open spec fn completed(self, merged: Seq<Seq<char>>) -> ListModel {
        ListModel {
            llm_pending: false,
            ..self.after_replace_candidates(merged, CandidateViewSource::Bg)
        }
    }
}

fn selecting_poll_key(sess: &SessionState, bg: BgStatus) -> (r: Option<String>)
    ensures
        text::opt_string(r) == sess@.selecting_key(bg),
{
    match sess {
        SessionState::Selecting { original_preedit, llm_pending, .. } => {
            if *llm_pending && bg == BgStatus::Done {
                Some(original_preedit.clone())
            } else {
                None
            }
        },
        _ => None,
    }
}

fn waiting_poll_key(sess: &SessionState, action: &UserAction, bg: BgStatus) -> (r: Option<String>)
    ensures
        text::opt_string(r) == sess@.waiting_key(*action, bg),
{
    let cancel = match *action {
        UserAction::Cancel => true,
        UserAction::CancelAll => true,
        _ => false,
    };
    match sess {
        SessionState::Waiting { text, .. } => {
            if bg == BgStatus::Done && !cancel {
                Some(text.clone())
            } else {
                None
            }
        },
        _ => None,
    }
}

/// What follows a look at the engine.
pub open spec fn polled(
    s: SessionModel,
    action: UserAction,
    symbol: Option<char>,
    bg: BgStatus,
) -> AskModel {
    match (s.selecting_key(bg), s.waiting_key(action, bg)) {
        (Some(key), _) => AskModel::TakeForSelecting { key },
        (None, Some(key)) => AskModel::TakeForWaiting { key },
        (None, None) => AskModel::Route { handler: handler_of(action, symbol) },
    }
}

/// Whether a conversion is watched: it is awaited and nothing cancels it.
pub open spec fn watched(s: SessionModel, action: UserAction) -> bool {
    s is Waiting && !cancels(action)
}

/// The watch over an awaited conversion after a look at the engine.
pub open spec fn watch_after(
    w: Watchdog,
    s: SessionModel,
    action: UserAction,
    bg: BgStatus,
    now_secs: u64,
) -> Watchdog {
    if watched(s, action) {
        w.after_look(bg == BgStatus::Running, now_secs)
    } else {
        w
    }
}

/// What follows a look at the engine, with the watch over a conversion that is
/// awaited. Tells whether the engine is to be restarted.
fn poll(
    sess: &SessionState,
    watchdog: &mut Watchdog,
    action: &UserAction,
    symbol: Option<char>,
    bg: BgStatus,
    now_secs: u64,
) -> (r: (Ask, bool))
    ensures
        r.0@ == polled(sess@, *action, symbol, bg),
        r.1 == (watched(sess@, *action) && bg == BgStatus::Running && old(watchdog).expired(
            now_secs,
        )),
        *final(watchdog) == watch_after(*old(watchdog), sess@, *action, bg, now_secs),
{
    if let Some(key) = selecting_poll_key(sess, bg) {
        return (Ask::TakeForSelecting { key }, false);
    }
    let cancel = match *action {
        UserAction::Cancel => true,
        UserAction::CancelAll => true,
        _ => false,
    };
    let mut restart = false;
    if sess.is_waiting() && !cancel {
        restart = bg_timeout_watchdog(watchdog, bg == BgStatus::Running, now_secs);
    }
    match waiting_poll_key(sess, action, bg) {
        Some(key) => (Ask::TakeForWaiting { key }, restart),
        None => (Ask::Route { handler: route(action, symbol) }, restart),
    }
}

/// The first step for an action. A direct mode handles it by itself; one that the
/// settings no longer allow is left first.
pub fn handle_action(mode: ImeMode, input: &InputConfig) -> (r: Ask)
    ensures
        r@ == (if !mode.direct() {
            AskModel::Engine
        } else if !mode.allowed_by(*input) {
            AskModel::LeaveDirect
        } else {
            AskModel::RunDirect
        }),
{
    if !mode.is_direct() {
        Ask::Engine
    } else if !mode.allowed(input) {
        Ask::LeaveDirect
    } else {
        Ask::RunDirect
    }
}

/// After a direct mode was asked: `eaten` is its answer, nothing where it leaves
/// the action to the others.
pub fn handle_action_after_direct(eaten: Option<bool>) -> (r: Ask)
    ensures
        r@ == (match eaten {
            Some(e) => AskModel::Finish { outcome: OutcomeModel::nothing(e) },
            None => AskModel::Engine,
        }),
{
    match eaten {
        Some(e) => Ask::Finish { outcome: Outcome::nothing(e) },
        None => Ask::Engine,
    }
}

/// After a look at the engine; without one the application gets the key.
/// `preview` is the preview that waited, which is used up in any case.
pub fn handle_action_with_engine(
    sess: &mut SessionState,
    watchdog: &mut Watchdog,
    action: &UserAction,
    symbol: Option<char>,
    glance: Option<&EngineGlance>,
    preview: Option<&PreviewEntry>,
    gen: u64,
    nonce: u64,
    now_secs: u64,
) -> (r: (Ask, bool))
    ensures
        old(sess)@.well_formed() ==> final(sess)@.well_formed(),
        match glance {
            None => {
                &&& r.0@ == (AskModel::Finish { outcome: OutcomeModel::nothing(false) })
                &&& !r.1
                &&& final(sess)@ == old(sess)@
                &&& *final(watchdog) == *old(watchdog)
            },
            Some(g) => if preview is Some && preview_applies(
                old(sess)@,
                *action,
                *preview->0,
                gen,
                nonce,
                g.hiragana@,
            ) {
                &&& r.0@ == (AskModel::ShowPreview {
                    text: preview->0.preview@ + text::suffix_after_prefix(g.preedit@, g.hiragana@),
                })
                &&& !r.1
                &&& final(sess)@ == (SessionModel::LiveConv {
                    reading: g.hiragana@,
                    preview: preview->0.preview@,
                    preview_for: g.hiragana@,
                })
                &&& *final(watchdog) == *old(watchdog)
            } else {
                &&& r.0@ == polled(old(sess)@, *action, symbol, g.bg)
                &&& r.1 == (watched(old(sess)@, *action) && g.bg == BgStatus::Running && old(
                    watchdog,
                ).expired(now_secs))
                &&& final(sess)@ == old(sess)@
                &&& *final(watchdog) == watch_after(
                    *old(watchdog),
                    old(sess)@,
                    *action,
                    g.bg,
                    now_secs,
                )
            },
        },
{
    let g = match glance {
        None => {
            return (Ask::Finish { outcome: Outcome::nothing(false) }, false);
        },
        Some(g) => g,
    };
    if let Some(entry) = preview {
        if let Some(text) = apply_queued_preview(sess, action, entry, gen, nonce, g) {
            return (Ask::ShowPreview { text }, false);
        }
    }
    poll(sess, watchdog, action, symbol, g.bg, now_secs)
}

/// After a preview was shown and the engine looked at again.
pub fn handle_action_after_preview(
    sess: &SessionState,
    watchdog: &mut Watchdog,
    action: &UserAction,
    symbol: Option<char>,
    bg: Option<BgStatus>,
    now_secs: u64,
) -> (r: (Ask, bool))
    ensures
        r.0@ == (match bg {
            None => AskModel::Finish { outcome: OutcomeModel::nothing(false) },
            Some(b) => polled(sess@, *action, symbol, b),
        }),
        r.1 == (bg == Some(BgStatus::Running) && watched(sess@, *action) && old(watchdog).expired(
            now_secs,
        )),
        *final(watchdog) == (match bg {
            None => *old(watchdog),
            Some(b) => watch_after(*old(watchdog), sess@, *action, b, now_secs),
        }),
{
    match bg {
        None => (Ask::Finish { outcome: Outcome::nothing(false) }, false),
        Some(b) => poll(sess, watchdog, action, symbol, b, now_secs),
    }
}

/// After the candidates of a shown list were fetched. `merged` is nothing where
/// they could not be had; then, and where there are none, the action is handled.
pub fn handle_action_after_selecting_take(
    sess: &mut SessionState,
    action: &UserAction,
    symbol: Option<char>,
    merged: Option<Vec<String>>,
) -> (r: Ask)
    requires
        old(sess)@.well_formed(),
        old(sess)@ is Selecting,
    ensures
        final(sess)@.well_formed(),
        ({
            let list = old(sess)@->list;
            if merged is Some && merged->0@.len() > 0 {
                let done = list.completed(text::texts(merged->0@));
                &&& final(sess)@ == (SessionModel::Selecting { list: done })
                &&& r@ == (AskModel::Finish {
                    outcome: OutcomeModel::did(
                        seq![done.page_shown(None, true), done.parts_shown()],
                    ),
                })
            } else {
                &&& final(sess)@ == old(sess)@
                &&& r@ == (AskModel::Route { handler: handler_of(*action, symbol) })
            }
        }),
{
    if let Some(m) = merged {
        if m.len() > 0 {
            sess.replace_selecting_candidates(m, CandidateViewSource::Bg);
            sess.clear_llm_pending();
            let steps = vec![show_page(sess, None, true), show_parts(sess)];
            assert(steps::step_models(steps@) =~= seq![
                sess@->list.page_shown(None, true),
                sess@->list.parts_shown(),
            ]);
            return Ask::Finish { outcome: Outcome::did(steps) };
        }
    }
    Ask::Route { handler: route(action, symbol) }
}

impl SessionModel {
    /// The list that is shown when awaited candidates have come.
    pub open spec fn awaited_list(self, merged: Seq<Seq<char>>) -> ListModel {
        match self {
            SessionModel::Waiting { text, pos_x, pos_y, remainder, remainder_reading } => {
                ListModel::first_shown(
                    merged,
                    text,
                    pos_x,
                    pos_y,
                    false,
                    Seq::empty(),
                    Seq::empty(),
                    remainder,
                    remainder_reading,
                )
            },
            _ => ListModel::first_shown(
                merged,
                Seq::empty(),
                0,
                0,
                false,
                Seq::empty(),
                Seq::empty(),
                Seq::empty(),
                Seq::empty(),
            ),
        }
    }
}

/// The step that shows the first candidate, with the rest of the text behind it
/// where there is one.
pub open spec fn first_candidate_shown(list: ListModel) -> StepModel {
    if list.remainder.len() == 0 {
        StepModel::SetComposition { text: list.shown_text() }
    } else {
        list.parts_shown()
    }
}

/// After awaited candidates were fetched. An answer of the engine, even an empty
/// one, ends the watch over it.
pub fn handle_action_after_waiting_take(
    sess: &mut SessionState,
    watchdog: &mut Watchdog,
    action: &UserAction,
    symbol: Option<char>,
    merged: Option<Vec<String>>,
) -> (r: Ask)
    requires
        old(sess)@ is Waiting,
    ensures
        final(sess)@.well_formed(),
        merged is None ==> *final(watchdog) == *old(watchdog),
        merged is Some ==> final(watchdog).since_secs is None,
        if merged is Some && merged->0@.len() > 0 {
            let list = old(sess)@.awaited_list(text::texts(merged->0@));
            &&& final(sess)@ == (SessionModel::Selecting { list })
            &&& r@ == (AskModel::Finish {
                outcome: OutcomeModel::did(
                    seq![
                        StepModel::StopWaitingTimer,
                        list.page_shown(Some((list.pos_x, list.pos_y)), true),
                        first_candidate_shown(list),
                    ],
                ),
            })
        } else {
            &&& final(sess)@ == old(sess)@
            &&& r@ == (AskModel::Route { handler: handler_of(*action, symbol) })
        },
{
    if let Some(m) = merged {
        bg_timeout_watchdog(watchdog, false, 0);
        if m.len() > 0 {
            let ghost list = sess@.awaited_list(text::texts(m@));
            if let SessionState::Waiting { text, pos_x, pos_y, remainder, remainder_reading } = sess {
                let text = text.clone();
                let (x, y): (i32, i32) = (*pos_x, *pos_y);
                let remainder = remainder.clone();
                let remainder_reading = remainder_reading.clone();
                let plain = remainder.as_str().unicode_len() == 0;
                sess.activate_selecting_with_affixes(
                    m,
                    text,
                    x,
                    y,
                    false,
                    String::new(),
                    String::new(),
                    remainder,
                    remainder_reading,
                );
                assert(sess@->list == list);
                let parts = if plain {
                    Step::SetComposition { text: crate::edit_ops::list_text(sess) }
                } else {
                    show_parts(sess)
                };
                let steps = vec![
                    Step::StopWaitingTimer,
                    show_page(sess, Some((x, y)), true),
                    parts,
                ];
                assert(steps::step_models(steps@) =~= seq![
                    StepModel::StopWaitingTimer,
                    list.page_shown(Some((list.pos_x, list.pos_y)), true),
                    first_candidate_shown(list),
                ]);
                return Ask::Finish { outcome: Outcome::did(steps) };
            }
        }
    }
    Ask::Route { handler: route(action, symbol) }
}


/// What is committed was seen: the key that commits never takes in a preview that
/// was not shown, and a preview for other text is never shown at all.
pub proof fn unseen_previews_are_never_committed(
    s: SessionModel,
    action: UserAction,
    entry: PreviewEntry,
    gen: u64,
    nonce: u64,
    reading: Seq<char>,
)
    ensures
        !preview_applies(s, UserAction::CommitRaw, entry, gen, nonce, reading),
        entry.reading@ != reading ==> !preview_applies(s, action, entry, gen, nonce, reading),
        entry.gen_when_requested != gen ==> !preview_applies(s, action, entry, gen, nonce, reading),
        entry.session_nonce_at_request != nonce ==> !preview_applies(
            s,
            action,
            entry,
            gen,
            nonce,
            reading,
        ),
        !(s is Preedit) ==> !preview_applies(s, action, entry, gen, nonce, reading),
{
}

/// Keys that cancel reach their handler whatever has arrived for a waiting text.
pub proof fn cancelling_never_waits(
    s: SessionModel,
    action: UserAction,
    symbol: Option<char>,
    bg: BgStatus,
)
    requires
        cancels(action),
        s is Waiting,
    ensures
        polled(s, action, symbol, bg) == (AskModel::Route { handler: Handler::Cancel }),
{
}

/// Candidates are fetched at most once for each action, and only when they are
/// there; else the action goes straight to its handler.
pub proof fn candidates_are_fetched_only_when_done(
    s: SessionModel,
    action: UserAction,
    symbol: Option<char>,
    bg: BgStatus,
)
    ensures
        bg != BgStatus::Done ==> polled(s, action, symbol, bg) == (AskModel::Route {
            handler: handler_of(action, symbol),
        }),
        !(s is Selecting || s is Waiting) ==> polled(s, action, symbol, bg) == (AskModel::Route {
            handler: handler_of(action, symbol),
        }),
{
}

/// Candidates that were awaited for a part of the text are shown with the rest of
/// it, and the rest is still there to be converted.
pub proof fn awaited_candidates_keep_the_rest(s: SessionModel, merged: Seq<Seq<char>>)
    requires
        s is Waiting,
        merged.len() > 0,
    ensures
        s.awaited_list(merged).whole_text() == merged[0] + s->Waiting_remainder,
        s.awaited_list(merged).remainder_reading == s->Waiting_remainder_reading,
        s.awaited_list(merged).original_preedit == s->Waiting_text,
{
    let list = s.awaited_list(merged);
    assert(list.shown_text() == merged[0]);
    assert(list.whole_text() =~= merged[0] + s->Waiting_remainder);
}

/// A list that was completed shows the new candidates, keeps its reading and what
/// stands round it, and is not completed again.
pub proof fn completed_lists_wait_no_more(list: ListModel, merged: Seq<Seq<char>>, bg: BgStatus)
    ensures
        (SessionModel::Selecting { list: list.completed(merged) }).selecting_key(bg) is None,
        list.completed(merged).candidates == merged,
        list.completed(merged).original_preedit == list.original_preedit,
        list.completed(merged).prefix == list.prefix,
        list.completed(merged).remainder == list.remainder,
{
}

/// Each action has a handler of its own kind: Enter alone commits, only the keys
/// that cancel cancel, Backspace alone deletes, Space alone converts, and only the
/// keys that switch the input method switch it.
pub proof fn handlers_serve_their_own_keys(action: UserAction, symbol: Option<char>)
    ensures
        handler_of(action, symbol) == Handler::CommitRaw <==> action is CommitRaw,
        handler_of(action, symbol) == Handler::Cancel <==> action is Cancel || action is CancelAll,
        handler_of(action, symbol) == Handler::Backspace <==> action is Backspace,
        handler_of(action, symbol) == Handler::Convert <==> action is Convert,
        handler_of(action, symbol) == Handler::FullWidthSpace <==> action is FullWidthSpace,
        handler_of(action, symbol) == Handler::SwitchIme <==> action.switches_ime(),
        handler_of(action, symbol) == Handler::Nobody <==> action is Other,
        handler_of(action, symbol) == Handler::SegmentShrink <==> action is SegmentShrink,
        handler_of(action, symbol) == Handler::SegmentExtend <==> action is SegmentExtend,
        handler_of(action, symbol) == Handler::CycleKana <==> action is CycleKana,
        handler_of(action, symbol) is CandidateSelect <==> action is CandidateSelect,
        handler_of(action, symbol) is CandidateMove <==> action is CandidateNext
            || action is CandidatePrev,
        handler_of(action, symbol) is CandidatePage <==> action is CandidatePageDown
            || action is CandidatePageUp,
        handler_of(action, symbol) is BlockFocus <==> action is CursorLeft || action is CursorRight,
        handler_of(action, symbol) is CursorJump <==> action is CursorHome || action is CursorEnd,
        handler_of(action, symbol) is Kana <==> action is Hiragana || action is Katakana
            || action is HalfKatakana,
        handler_of(action, symbol) is Latin <==> action is FullLatin || action is HalfLatin,
        handler_of(action, symbol) is Input || handler_of(action, symbol) is InputRaw || handler_of(
            action,
            symbol,
        ) is Punctuate <==> action is Input || action is InputRaw || action is Punctuate,
{
}

/// Handlers that act in two directions or forms act in the one that the key names.
pub proof fn handlers_act_as_their_keys_say(n: u8, symbol: Option<char>)
    ensures
        handler_of(UserAction::CandidateNext, symbol) == (Handler::CandidateMove {
            dir: CandidateDir::Next,
        }),
        handler_of(UserAction::CandidatePrev, symbol) == (Handler::CandidateMove {
            dir: CandidateDir::Prev,
        }),
        handler_of(UserAction::CandidatePageDown, symbol) == (Handler::CandidatePage {
            dir: CandidateDir::Next,
        }),
        handler_of(UserAction::CandidatePageUp, symbol) == (Handler::CandidatePage {
            dir: CandidateDir::Prev,
        }),
        handler_of(UserAction::CandidateSelect(n), symbol) == (Handler::CandidateSelect { n }),
        handler_of(UserAction::CursorLeft, symbol) == (Handler::BlockFocus { forward: false }),
        handler_of(UserAction::CursorRight, symbol) == (Handler::BlockFocus { forward: true }),
        handler_of(UserAction::CursorHome, symbol) == (Handler::CursorJump { to_end: false }),
        handler_of(UserAction::CursorEnd, symbol) == (Handler::CursorJump { to_end: true }),
        handler_of(UserAction::Hiragana, symbol) == (Handler::Kana { form: KanaForm::Hiragana }),
        handler_of(UserAction::Katakana, symbol) == (Handler::Kana { form: KanaForm::Katakana }),
        handler_of(UserAction::HalfKatakana, symbol) == (Handler::Kana {
            form: KanaForm::HalfKatakana,
        }),
        handler_of(UserAction::FullLatin, symbol) == (Handler::Latin { full: true }),
        handler_of(UserAction::HalfLatin, symbol) == (Handler::Latin { full: false }),
{
}

/// A typed character reaches the typing handlers as it is; a key whose character is
/// a symbol goes in as that symbol. Only typed characters look at the symbol.
pub proof fn typed_characters_reach_the_text(c: char, s: char, action: UserAction)
    ensures
        handler_of(UserAction::Input(c), None) == (Handler::Input { c }),
        handler_of(UserAction::InputRaw(c), None) == (Handler::InputRaw { c }),
        handler_of(UserAction::Input(c), Some(s)) == (Handler::Punctuate { c: s }),
        handler_of(UserAction::InputRaw(c), Some(s)) == (Handler::Punctuate { c: s }),
        handler_of(UserAction::Punctuate(c), Some(s)) == (Handler::Punctuate { c }),
        !(action is Input || action is InputRaw) ==> handler_of(action, Some(s)) == handler_of(
            action,
            None,
        ),
{
}

/// A preview that was made for the text as it stands is shown by any key but the
/// one that commits.
pub proof fn previews_of_the_present_text_are_shown(
    text: Seq<char>,
    action: UserAction,
    entry: PreviewEntry,
)
    requires
        entry.reading@.len() > 0,
        !(action is CommitRaw),
    ensures
        preview_applies(
            SessionModel::Preedit { text },
            action,
            entry,
            entry.gen_when_requested,
            entry.session_nonce_at_request,
            entry.reading@,
        ),
{
}

/// Candidates that are there are fetched before the action is handled: those of a
/// shown list that waits for them, and those of a reading for which nothing is
/// shown yet. They are fetched for the reading of the session.
pub proof fn arrived_candidates_are_fetched(
    s: SessionModel,
    action: UserAction,
    symbol: Option<char>,
)
    ensures
        s is Selecting && s->list.llm_pending ==> polled(s, action, symbol, BgStatus::Done) == (
        AskModel::TakeForSelecting { key: s.reading()->0 }),
        s is Selecting && !s->list.llm_pending ==> polled(s, action, symbol, BgStatus::Done) == (
        AskModel::Route { handler: handler_of(action, symbol) }),
        s is Waiting && !(action is Cancel || action is CancelAll) ==> polled(
            s,
            action,
            symbol,
            BgStatus::Done,
        ) == (AskModel::TakeForWaiting { key: s.reading()->0 }),
{
}

/// A conversion that is awaited is watched by every key but those that cancel, and
/// no other state is.
pub proof fn awaited_conversions_are_watched(
    w: Watchdog,
    s: SessionModel,
    action: UserAction,
    bg: BgStatus,
    now: u64,
)
    ensures
        watched(s, action) <==> s is Waiting && handler_of(action, None) != Handler::Cancel,
        !(s is Waiting) ==> watch_after(w, s, action, bg, now) == w,
        s is Waiting && action is Cancel ==> watch_after(w, s, action, bg, now) == w,
        s is Waiting && !(action is Cancel || action is CancelAll) ==> watch_after(
            w,
            s,
            action,
            bg,
            now,
        ) == w.after_look(bg == BgStatus::Running, now),
{
}

/// The engine's words for a conversion in the background are told apart.
pub proof fn engine_words_are_told_apart(t: Seq<char>)
    ensures
        BgStatus::of_text(t) == BgStatus::Running <==> t == "running"@,
        BgStatus::of_text(t) == BgStatus::Done <==> t == "done"@,
{
    reveal_strlit("running");
    reveal_strlit("done");
    assert("running"@.len() != "done"@.len());
}

/// A list that was completed changes in nothing but its candidates, a choice that
/// they do not reach, and that it waits no more.
pub proof fn completed_lists_keep_their_place(list: ListModel, merged: Seq<Seq<char>>)
    requires
        0 < merged.len() <= usize::MAX,
        list.page_size > 0,
    ensures
        ({
            let done = list.completed(merged);
            &&& !done.llm_pending
            &&& done.well_formed()
            &&& list.selected < merged.len() ==> done.shown_text() == merged[list.selected as int]
            &&& list.selected >= merged.len() ==> done.shown_text() == merged.last()
            &&& done == (ListModel {
                candidates: merged,
                candidate_views: done.candidate_views,
                selected: done.selected,
                llm_pending: false,
                ..list
            })
        }),
{
}

/// Awaited candidates are shown where they were asked for, the first one chosen,
/// with the whole text in the document, and nothing is waited for any more.
pub proof fn awaited_candidates_take_their_place(s: SessionModel, merged: Seq<Seq<char>>)
    requires
        s is Waiting,
        merged.len() > 0,
    ensures
        ({
            let list = s.awaited_list(merged);
            &&& list.well_formed()
            &&& list.candidates == merged
            &&& list.shown_text() == merged[0]
            &&& list.pos_x == s->Waiting_pos_x
            &&& list.pos_y == s->Waiting_pos_y
            &&& !list.llm_pending
            &&& list.punct_pending is None
            &&& list.prefix.len() == 0
            &&& list.prefix_reading.len() == 0
            &&& steps::composed_by(first_candidate_shown(list), Seq::empty()) == Some(
                merged[0] + s->Waiting_remainder,
            )
        }),
{
    let list = s.awaited_list(merged);
    assert(list.whole_text() =~= merged[0] + s->Waiting_remainder);
    if list.remainder.len() == 0 {
        assert(merged[0] + s->Waiting_remainder =~= merged[0]);
    }
}

}
