//! Typing in the optional modes: characters are converted one by one, without
//! dictionary or model.
//!
//! Narrow katakana go through a romaji converter that the caller keeps; what it
//! holds comes in as a [`KanaInput`].
use vstd::prelude::*;
use vstd::string::*;
use crate::action::UserAction;
use crate::ime_mode::ImeMode;
use crate::session::{SessionModel, SessionState};
use crate::steps::{Outcome, OutcomeModel, Step, StepModel};
use crate::steps;
use crate::text::str_eq;

verus! {

/// What the romaji converter holds, in narrow katakana: the text to show, the part
/// that is finished, and the letters that are not yet kana.
pub struct KanaInput {
    pub shown: String,
    pub output: String,
    pub pending: String,
}

/// Text typed in a direct mode, and the document that it is typed in.
pub struct Buffer {
    pub context: usize,
    pub mode: ImeMode,
    /// No romaji converter has been begun for this text yet: whatever the caller's
    /// converter holds was typed elsewhere.
    pub fresh: bool,
    pub kana: KanaInput,
    pub latin: String,
}

#[verifier::ext_equal]
pub struct BufferModel {
    pub context: usize,
    pub mode: ImeMode,
    pub fresh: bool,
    pub kana_shown: Seq<char>,
    pub kana_output: Seq<char>,
    pub kana_pending: Seq<char>,
    pub latin: Seq<char>,
}

impl View for Buffer {
    type V = BufferModel;

    open spec fn view(&self) -> BufferModel {
        BufferModel {
            context: self.context,
            mode: self.mode,
            fresh: self.fresh,
            kana_shown: self.kana.shown@,
            kana_output: self.kana.output@,
            kana_pending: self.kana.pending@,
            latin: self.latin@,
        }
    }
}

/// The wide form of a character: letters, digits, symbols and the space have one.
pub open spec fn full_width(c: char) -> char {
    if c == ' ' {
        '　'
    } else if '!' <= c && c <= '~' {
        (c as int + 0xfee0) as char
    } else {
        c
    }
}

pub open spec fn ascii_lower(c: char) -> char {
    if 'A' <= c && c <= 'Z' {
        (c as int + 32) as char
    } else {
        c
    }
}

pub fn to_full_width(c: char) -> (r: char)
    ensures
        r == full_width(c),
{
    if c == ' ' {
        '　'
    } else if '!' <= c && c <= '~' {
        match char::from_u32(c as u32 + 0xfee0) {
            Some(wide) => wide,
            None => c,
        }
    } else {
        c
    }
}

fn to_ascii_lower(c: char) -> (r: char)
    ensures
        r == ascii_lower(c),
{
    if 'A' <= c && c <= 'Z' {
        match char::from_u32(c as u32 + 32) {
            Some(l) => l,
            None => c,
        }
    } else {
        c
    }
}

impl BufferModel {
    pub open spec fn empty(context: usize, mode: ImeMode) -> BufferModel {
        BufferModel {
            context,
            mode,
            fresh: true,
            kana_shown: Seq::empty(),
            kana_output: Seq::empty(),
            kana_pending: Seq::empty(),
            latin: Seq::empty(),
        }
    }

    pub open spec fn text(self) -> Seq<char> {
        if !(self.mode is HalfKatakana) {
            self.latin
        } else if self.fresh {
            Seq::empty()
        } else {
            self.kana_shown
        }
    }

    /// The same text once a converter has been begun for it.
    pub open spec fn begun(self) -> BufferModel {
        BufferModel { fresh: false, ..self }
    }

    /// The same text with what its converter holds.
    pub open spec fn with_kana(
        self,
        shown: Seq<char>,
        output: Seq<char>,
        pending: Seq<char>,
    ) -> BufferModel {
        BufferModel {
            fresh: false,
            kana_shown: shown,
            kana_output: output,
            kana_pending: pending,
            ..self
        }
    }

    pub open spec fn after_push(self, ch: char) -> BufferModel {
        if self.mode is HalfKatakana {
            self.begun()
        } else {
            BufferModel { latin: self.latin.push(full_width(ch)), ..self.begun() }
        }
    }

    pub open spec fn after_backspace(self) -> BufferModel {
        if self.mode is HalfKatakana || self.latin.len() == 0 {
            self.begun()
        } else {
            BufferModel { latin: self.latin.drop_last(), ..self.begun() }
        }
    }

    /// A lone "n" is left to the end and then stands for the syllable.
    pub open spec fn pending_n(self) -> bool {
        self.mode is HalfKatakana && !self.fresh && self.kana_pending == "n"@
    }

    /// The text to commit; `flushed` is what the converter shows once it is flushed.
    /// A converter that was not begun for this text does not count.
    pub open spec fn finished(self, flushed: Seq<char>) -> Seq<char> {
        if !(self.mode is HalfKatakana) {
            self.latin
        } else if self.fresh {
            Seq::empty()
        } else if self.pending_n() {
            self.kana_output + "ﾝ"@
        } else {
            flushed
        }
    }
}

impl Buffer {
    pub fn new(context: usize, mode: ImeMode) -> (r: Self)
        ensures
            r@ == BufferModel::empty(context, mode),
    {
        Buffer {
            context,
            mode,
            fresh: true,
            kana: KanaInput {
                shown: String::new(),
                output: String::new(),
                pending: String::new(),
            },
            latin: String::new(),
        }
    }

    /// Takes a typed character. In katakana mode it gives the character that the
    /// romaji converter gets instead.
    pub fn push(&mut self, ch: char) -> (r: Option<char>)
        ensures
            final(self)@ == old(self)@.after_push(ch),
            r == (if old(self)@.mode is HalfKatakana {
                Some(ascii_lower(ch))
            } else {
                None
            }),
    {
        self.fresh = false;
        if self.mode == ImeMode::HalfKatakana {
            return Some(to_ascii_lower(ch));
        }
        self.latin.push(to_full_width(ch));
        None
    }

    /// Takes over what the romaji converter holds.
    pub fn set_kana(&mut self, kana: KanaInput)
        ensures
            final(self)@ == old(self)@.with_kana(kana.shown@, kana.output@, kana.pending@),
    {
        self.fresh = false;
        self.kana = kana;
    }

    pub fn text(&self) -> (r: String)
        ensures
            r@ == self@.text(),
    {
        if self.mode != ImeMode::HalfKatakana {
            self.latin.clone()
        } else if self.fresh {
            String::new()
        } else {
            self.kana.shown.clone()
        }
    }

    /// Whether a lone "n" is pending: then the converter is not flushed.
    pub fn holds_pending_n(&self) -> (r: bool)
        ensures
            r == self@.pending_n(),
    {
        self.mode == ImeMode::HalfKatakana && !self.fresh && str_eq(
            self.kana.pending.as_str(),
            "n",
        )
    }

    /// The text to commit. `flushed` is what the converter shows once it is
    /// flushed; it counts in katakana mode only, and only where the converter was
    /// begun for this text.
    pub fn finish(&mut self, flushed: &str) -> (r: String)
        ensures
            r@ == old(self)@.finished(flushed@),
            final(self)@ == (if old(self)@.mode is HalfKatakana && !old(self)@.fresh && !old(
                self,
            )@.pending_n() {
                BufferModel { kana_shown: flushed@, ..old(self)@ }
            } else {
                old(self)@
            }),
    {
        if self.holds_pending_n() {
            let mut r = self.kana.output.clone();
            r.append("ﾝ");
            return r;
        }
        if self.mode == ImeMode::HalfKatakana && !self.fresh {
            self.kana.shown = flushed.to_owned();
        }
        self.text()
    }

    /// Takes back the last character. Tells whether the romaji converter is to do
    /// so instead.
    pub fn backspace(&mut self) -> (r: bool)
        ensures
            final(self)@ == old(self)@.after_backspace(),
            r == (old(self)@.mode is HalfKatakana),
    {
        self.fresh = false;
        if self.mode == ImeMode::HalfKatakana {
            return true;
        }
        let _ = self.latin.pop();
        false
    }
}

/// What the caller does for an action in a direct mode.
pub enum DirectStep {
    /// Commit the text with [`finish_direct_mode`], then switch the mode.
    Switch { mode: ImeMode },
    /// Commit the text with [`finish_direct_mode`]; the key is used up.
    Commit,
    /// Carry out the steps; the key is used up or not.
    Done { outcome: Outcome },
    /// A character was typed or taken back. Where `restart` is set, a new romaji
    /// converter is begun; it gets `feed`, or takes back one character. Then
    /// [`direct_mode_typed`] shows the text.
    Typed { restart: bool, feed: Option<char>, take_back: bool },
}

/// What an action types in a direct mode.
pub open spec fn typed_char(action: UserAction) -> Option<char> {
    match action {
        UserAction::Input(ch) => Some(ch),
        UserAction::InputRaw(ch) => Some(ch),
        UserAction::Punctuate(ch) => Some(ch),
        UserAction::Convert => Some(' '),
        UserAction::FullWidthSpace => Some('　'),
        _ => None,
    }
}

fn char_of_action(action: &UserAction) -> (r: Option<char>)
    ensures
        r == typed_char(*action),
{
    match *action {
        UserAction::Input(ch) => Some(ch),
        UserAction::InputRaw(ch) => Some(ch),
        UserAction::Punctuate(ch) => Some(ch),
        UserAction::Convert => Some(' '),
        UserAction::FullWidthSpace => Some('　'),
        _ => None,
    }
}

pub open spec fn opt_buffer(slot: Option<Buffer>) -> Option<BufferModel> {
    match slot {
        Some(b) => Some(b@),
        None => None,
    }
}

/// A buffer is begun anew without a composition, and where it belongs to another
/// document or mode.
pub open spec fn buffer_restarts(
    slot: Option<BufferModel>,
    idle: bool,
    context: usize,
    mode: ImeMode,
) -> bool {
    idle || slot is None || slot->0.context != context || slot->0.mode != mode
}

/// The buffer that an action types into.
pub open spec fn buffer_for(
    slot: Option<BufferModel>,
    idle: bool,
    context: usize,
    mode: ImeMode,
) -> BufferModel {
    if buffer_restarts(slot, idle, context, mode) {
        BufferModel::empty(context, mode)
    } else {
        slot->0
    }
}

/// What is committed into document `context`: nothing but text that was typed there,
/// and only into a composition.
pub open spec fn direct_commit(
    slot: Option<BufferModel>,
    idle: bool,
    context: usize,
    flushed: Seq<char>,
) -> Option<Seq<char>> {
    match slot {
        Some(b) if b.context == context && !idle => Some(b.finished(flushed)),
        _ => None,
    }
}

/// Commits the text of a direct mode, where it was typed in this document and a
/// composition is there. The buffer is used up in any case. `flushed` is what the
/// romaji converter shows once it is flushed.
pub fn finish_direct_mode(
    sess: &mut SessionState,
    slot: &mut Option<Buffer>,
    context: usize,
    flushed: &str,
) -> (r: Vec<Step>)
    ensures
        *final(slot) is None,
        old(sess)@.well_formed() ==> final(sess)@.well_formed(),
        match direct_commit(opt_buffer(*old(slot)), old(sess)@ is Idle, context, flushed@) {
            Some(text) => {
                &&& final(sess)@ is Idle
                &&& steps::step_models(r@) == seq![StepModel::EndComposition { text }]
            },
            None => {
                &&& final(sess)@ == old(sess)@
                &&& steps::step_models(r@) == Seq::<StepModel>::empty()
            },
        },
{
    let active = !sess.is_idle();
    let taken = slot.take();
    if let Some(buffer) = taken {
        let mut buffer = buffer;
        if buffer.context == context && active {
            let text = buffer.finish(flushed);
            sess.set_idle();
            let steps = vec![Step::EndComposition { text }];
            assert(steps::step_models(steps@) =~= seq![
                StepModel::EndComposition { text: text@ },
            ]);
            return steps;
        }
    }
    let none: Vec<Step> = Vec::new();
    assert(steps::step_models(none@) =~= Seq::empty());
    none
}

/// What an action asks for in a direct mode.
pub open spec fn direct_intent(action: UserAction, idle: bool) -> DirectIntent {
    if action.switches_ime() {
        DirectIntent::Switch {
            mode: if action is ImeOn {
                ImeMode::On
            } else {
                ImeMode::Off
            },
        }
    } else if action is CommitRaw && !idle {
        DirectIntent::Commit
    } else if (action is Cancel || action is CancelAll) && !idle {
        DirectIntent::Cancel
    } else if action is Backspace && !idle {
        DirectIntent::TakeBack
    } else if typed_char(action) is Some {
        DirectIntent::Type { c: typed_char(action)->0 }
    } else if action is CommitRaw || action is Cancel || action is CancelAll || action is Backspace {
        DirectIntent::Leave
    } else {
        DirectIntent::Swallow
    }
}

pub enum DirectIntent {
    Switch { mode: ImeMode },
    Commit,
    Cancel,
    TakeBack,
    Type { c: char },
    /// The application gets the key.
    Leave,
    /// Kept from the application while there is a composition.
    Swallow,
}

/// Decides on an action in direct mode `mode`, typed in document `context`.
pub fn handle_direct_mode(
    sess: &mut SessionState,
    slot: &mut Option<Buffer>,
    action: &UserAction,
    context: usize,
    mode: ImeMode,
) -> (r: DirectStep)
    ensures
        old(sess)@.well_formed() ==> final(sess)@.well_formed(),
        !(direct_intent(*action, old(sess)@ is Idle) is Cancel) ==> final(sess)@ == old(sess)@,
        ({
            let idle = old(sess)@ is Idle;
            let before = opt_buffer(*old(slot));
            match direct_intent(*action, idle) {
                DirectIntent::Switch { mode: next } => r == (DirectStep::Switch { mode: next })
                    && *final(slot) == *old(slot),
                DirectIntent::Commit => r == DirectStep::Commit && *final(slot) == *old(slot),
                DirectIntent::Cancel => {
                    &&& r matches DirectStep::Done { outcome } && outcome@ == OutcomeModel::did(
                        seq![StepModel::EndComposition { text: Seq::empty() }],
                    )
                    &&& final(sess)@ is Idle
                    &&& *final(slot) is None
                },
                DirectIntent::Leave => {
                    &&& r matches DirectStep::Done { outcome } && outcome@ == OutcomeModel::nothing(
                        false,
                    )
                    &&& *final(slot) == *old(slot)
                },
                DirectIntent::Swallow => {
                    &&& r matches DirectStep::Done { outcome } && outcome@ == OutcomeModel::nothing(
                        !idle,
                    )
                    &&& opt_buffer(*final(slot)) == Some(buffer_for(before, idle, context, mode))
                },
                DirectIntent::Type { c } => {
                    &&& r == (DirectStep::Typed {
                        restart: buffer_for(before, idle, context, mode).fresh,
                        feed: if mode is HalfKatakana {
                            Some(ascii_lower(c))
                        } else {
                            None
                        },
                        take_back: false,
                    })
                    &&& opt_buffer(*final(slot)) == Some(
                        buffer_for(before, idle, context, mode).after_push(c),
                    )
                },
                DirectIntent::TakeBack => {
                    &&& r == (DirectStep::Typed {
                        restart: buffer_for(before, idle, context, mode).fresh,
                        feed: None,
                        take_back: mode is HalfKatakana,
                    })
                    &&& opt_buffer(*final(slot)) == Some(
                        buffer_for(before, idle, context, mode).after_backspace(),
                    )
                },
            }
        }),
{
    match *action {
        UserAction::ImeOn => {
            return DirectStep::Switch { mode: ImeMode::On };
        },
        UserAction::ImeOff => {
            return DirectStep::Switch { mode: ImeMode::Off };
        },
        UserAction::ImeToggle => {
            return DirectStep::Switch { mode: ImeMode::Off };
        },
        _ => {},
    }
    let idle = sess.is_idle();
    match *action {
        UserAction::CommitRaw => {
            if idle {
                return DirectStep::Done { outcome: Outcome::nothing(false) };
            }
            return DirectStep::Commit;
        },
        UserAction::Cancel | UserAction::CancelAll => {
            if idle {
                return DirectStep::Done { outcome: Outcome::nothing(false) };
            }
            *slot = None;
            sess.set_idle();
            let steps = vec![Step::EndComposition { text: String::new() }];
            assert(steps::step_models(steps@) =~= seq![
                StepModel::EndComposition { text: Seq::empty() },
            ]);
            return DirectStep::Done { outcome: Outcome::did(steps) };
        },
        UserAction::Backspace => {
            if idle {
                return DirectStep::Done { outcome: Outcome::nothing(false) };
            }
        },
        _ => {},
    }
    let taken = slot.take();
    let mut buffer = match taken {
        Some(b) => if idle || b.context != context || b.mode != mode {
            Buffer::new(context, mode)
        } else {
            b
        },
        None => Buffer::new(context, mode),
    };
    let restart = buffer.fresh;
    let back = match *action {
        UserAction::Backspace => true,
        _ => false,
    };
    let step = if back {
        let take_back = buffer.backspace();
        DirectStep::Typed { restart, feed: None, take_back }
    } else {
        match char_of_action(action) {
            Some(c) => {
                let feed = buffer.push(c);
                DirectStep::Typed { restart, feed, take_back: false }
            },
            None => DirectStep::Done { outcome: Outcome::nothing(!idle) },
        }
    };
    *slot = Some(buffer);
    step
}

/// Shows what has been typed so far; an emptied text ends the composition. `kana`
/// is what the romaji converter holds now, in katakana mode.
pub fn direct_mode_typed(sess: &mut SessionState, buffer: &mut Buffer, kana: Option<KanaInput>) -> (r:
    Outcome)
    ensures
        ({
            let after = match kana {
                Some(k) => old(buffer)@.with_kana(k.shown@, k.output@, k.pending@),
                None => old(buffer)@,
            };
            &&& final(buffer)@ == after
            &&& if after.text().len() == 0 {
                &&& final(sess)@ is Idle
                &&& r@ == OutcomeModel::did(
                    seq![
                        StepModel::HideCandidates,
                        StepModel::StopLiveTimer,
                        StepModel::EndComposition { text: Seq::empty() },
                    ],
                )
            } else {
                &&& final(sess)@ == (SessionModel::Preedit { text: after.text() })
                &&& r@ == OutcomeModel::did(
                    seq![
                        StepModel::HideCandidates,
                        StepModel::StopLiveTimer,
                        StepModel::SetComposition { text: after.text() },
                    ],
                )
            }
        }),
{
    if let Some(k) = kana {
        buffer.set_kana(k);
    }
    let text = buffer.text();
    if text.as_str().unicode_len() == 0 {
        sess.set_idle();
        let steps = vec![
            Step::HideCandidates,
            Step::StopLiveTimer,
            Step::EndComposition { text: String::new() },
        ];
        assert(steps::step_models(steps@) =~= seq![
            StepModel::HideCandidates,
            StepModel::StopLiveTimer,
            StepModel::EndComposition { text: Seq::empty() },
        ]);
        Outcome::did(steps)
    } else {
        sess.set_preedit(text.clone());
        let steps = vec![
            Step::HideCandidates,
            Step::StopLiveTimer,
            Step::SetComposition { text },
        ];
        assert(steps::step_models(steps@) =~= seq![
            StepModel::HideCandidates,
            StepModel::StopLiveTimer,
            StepModel::SetComposition { text: text@ },
        ]);
        Outcome::did(steps)
    }
}

/// Backspace takes back exactly what was typed last.
pub proof fn backspace_undoes_typing(b: BufferModel, ch: char)
    ensures
        b.after_push(ch).after_backspace() == b.begun(),
{
    assert(b.latin.push(full_width(ch)).drop_last() =~= b.latin);
}

/// Wide characters tell narrow ones apart: nothing that was typed is lost.
pub proof fn full_width_is_injective(a: char, b: char)
    requires
        ' ' <= a && a <= '~',
        ' ' <= b && b <= '~',
        a != b,
    ensures
        full_width(a) != full_width(b),
        full_width(a) != a,
{
}

/// Text typed in wide letters is committed as it was shown.
pub proof fn direct_text_is_committed_as_shown(b: BufferModel, flushed: Seq<char>)
    requires
        !(b.mode is HalfKatakana),
    ensures
        b.finished(flushed) == b.text(),
{
}

/// What has been typed into the caller's converter after one more character.
pub open spec fn fed(held: Seq<char>, restart: bool, c: char) -> Seq<char> {
    if restart {
        seq![c]
    } else {
        held.push(c)
    }
}

/// Text typed in one document, or in another mode, is never shown in or committed
/// into another. Once a text is begun anew, keys that are ignored change nothing of
/// that, a commit gives no text, and the next character alone is shown. `held` is
/// what the caller's converter was fed before, and `kana` what a converter shows,
/// has finished and keeps pending for what it was fed.
pub proof fn text_stays_in_its_document(
    slot: Option<BufferModel>,
    idle: bool,
    context: usize,
    mode: ImeMode,
    c: char,
    flushed: Seq<char>,
    held: Seq<char>,
    kana: spec_fn(Seq<char>) -> (Seq<char>, Seq<char>, Seq<char>),
)
    requires
        buffer_restarts(slot, idle, context, mode),
    ensures
        ({
            let anew = buffer_for(slot, idle, context, mode);
            let k = kana(fed(held, anew.fresh, ascii_lower(c)));
            let typed = if mode is HalfKatakana {
                anew.after_push(c).with_kana(k.0, k.1, k.2)
            } else {
                anew.after_push(c)
            };
            &&& anew.context == context
            &&& anew.mode == mode
            &&& buffer_for(Some(anew), false, context, mode) == anew
            &&& direct_commit(Some(anew), false, context, flushed) == Some(Seq::<char>::empty())
            &&& typed.text() == (if mode is HalfKatakana {
                kana(seq![ascii_lower(c)]).0
            } else {
                seq![full_width(c)]
            })
        }),
        slot is Some && slot->0.context != context ==> direct_commit(slot, idle, context, flushed)
            is None,
{
    assert(Seq::<char>::empty().push(full_width(c)) =~= seq![full_width(c)]);
}

/// Wide forms keep the order of the narrow ones: each printable character lies as
/// far behind the wide exclamation mark as its narrow form behind the narrow one.
/// The space has a form of its own, and no other character is changed.
pub proof fn wide_forms_follow_the_narrow_ones(c: char)
    ensures
        '!' <= c <= '~' ==> full_width(c) as int - '！' as int == c as int - '!' as int,
        full_width(' ') == '　',
        c < ' ' || c > '~' ==> full_width(c) == c,
        'A' <= c <= 'Z' ==> ascii_lower(c) as int - 'a' as int == c as int - 'A' as int,
        !('A' <= c <= 'Z') ==> ascii_lower(c) == c,
{
}

/// Each key means one thing in a direct mode: the keys that switch switch, Enter
/// commits, the keys that cancel cancel and Backspace takes back while there is
/// text; without text these four go to the application. Typing keys type their
/// character, and every other key is kept while there is text.
pub proof fn direct_keys_mean_one_thing(action: UserAction, idle: bool)
    ensures
        ({
            let intent = direct_intent(action, idle);
            let editing = action is CommitRaw || action is Cancel || action is CancelAll
                || action is Backspace;
            &&& action is ImeOn ==> intent == (DirectIntent::Switch { mode: ImeMode::On })
            &&& action is ImeOff || action is ImeToggle ==> intent == (DirectIntent::Switch {
                mode: ImeMode::Off,
            })
            &&& intent is Switch <==> action is ImeOn || action is ImeOff || action is ImeToggle
            &&& intent is Commit <==> action is CommitRaw && !idle
            &&& intent is Cancel <==> (action is Cancel || action is CancelAll) && !idle
            &&& intent is TakeBack <==> action is Backspace && !idle
            &&& intent is Leave <==> editing && idle
            &&& intent is Type <==> action is Input || action is InputRaw || action is Punctuate
                || action is Convert || action is FullWidthSpace
        }),
{
}

/// Typing keys type the character they carry; Space types a space, and the key for
/// the wide space types that.
pub proof fn direct_keys_type_their_character(c: char, idle: bool)
    ensures
        direct_intent(UserAction::Input(c), idle) == (DirectIntent::Type { c }),
        direct_intent(UserAction::InputRaw(c), idle) == (DirectIntent::Type { c }),
        direct_intent(UserAction::Punctuate(c), idle) == (DirectIntent::Type { c }),
        direct_intent(UserAction::Convert, idle) == (DirectIntent::Type { c: ' ' }),
        direct_intent(UserAction::FullWidthSpace, idle) == (DirectIntent::Type { c: '　' }),
{
}

/// In wide letters each typed character joins the end of the text, in its wide form.
pub proof fn wide_letters_join_the_text(b: BufferModel, c: char)
    requires
        !(b.mode is HalfKatakana),
    ensures
        b.after_push(c).text() == b.text().push(full_width(c)),
        b.text().len() > 0 ==> b.after_backspace().text() == b.text().take(b.text().len() - 1),
        b.text().len() == 0 ==> b.after_backspace().text().len() == 0,
        b.after_push(c).context == b.context && b.after_push(c).mode == b.mode,
        b.after_backspace().context == b.context && b.after_backspace().mode == b.mode,
        !b.after_push(c).fresh && !b.after_backspace().fresh,
{
    if b.text().len() > 0 {
        assert(b.latin.drop_last() =~= b.latin.take(b.latin.len() - 1));
    }
}

/// In katakana the text is what the converter shows, and what is committed is what it
/// shows once it is flushed; a lone "n" stands for its syllable behind what is
/// finished. Typing and taking back leave the rest to the converter.
pub proof fn katakana_come_from_the_converter(
    b: BufferModel,
    c: char,
    shown: Seq<char>,
    output: Seq<char>,
    pending: Seq<char>,
    flushed: Seq<char>,
)
    requires
        b.mode is HalfKatakana,
    ensures
        ({
            let k = b.with_kana(shown, output, pending);
            &&& k.text() == shown
            &&& pending != "n"@ ==> k.finished(flushed) == flushed
            &&& pending == "n"@ ==> k.finished(flushed) == output + "ﾝ"@
            &&& k.pending_n() <==> pending == "n"@
            &&& k.after_push(c) == k
            &&& k.after_backspace() == k
            &&& k.context == b.context && k.mode == b.mode
        }),
{
}

/// While text is typed in one document and mode, it is kept; and it is committed
/// into the document it was typed in.
pub proof fn typed_text_is_kept_and_committed(b: BufferModel, flushed: Seq<char>)
    ensures
        buffer_for(Some(b), false, b.context, b.mode) == b,
        direct_commit(Some(b), false, b.context, flushed) == Some(b.finished(flushed)),
        direct_commit(Some(b), true, b.context, flushed) is None,
        direct_commit(None, false, b.context, flushed) is None,
        buffer_for(Some(b), true, b.context, b.mode).fresh,
        !(b.mode is HalfKatakana) ==> buffer_for(Some(b), true, b.context, b.mode).text().len()
            == 0,
        BufferModel::empty(b.context, b.mode).text().len() == 0,
{
}

}
