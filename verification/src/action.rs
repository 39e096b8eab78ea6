//! What a key asks for, and which keys are kept from the application.
use vstd::prelude::*;
use vstd::string::*;
use crate::ime_mode::ImeMode;

verus! {

/// What a key asks for.
#[derive(Clone, Copy, Debug, PartialEq, Eq, Structural)]
pub enum UserAction {
    Input(char),
    InputRaw(char),
    FullWidthSpace,
    Convert,
    CommitRaw,
    Backspace,
    Cancel,
    CancelAll,
    Hiragana,
    Katakana,
    HalfKatakana,
    FullLatin,
    HalfLatin,
    CycleKana,
    CandidateNext,
    CandidatePrev,
    CandidatePageDown,
    CandidatePageUp,
    CandidateSelect(u8),
    CursorLeft,
    CursorRight,
    CursorHome,
    CursorEnd,
    Punctuate(char),
    SegmentShrink,
    SegmentExtend,
    ImeToggle,
    ImeOff,
    ImeOn,
    /// Anything that is not handled here.
    Other,
}

impl UserAction {
    /// The action switches the input method on or off.
    pub open spec fn switches_ime(self) -> bool {
        self is ImeToggle || self is ImeOff || self is ImeOn
    }

    /// The action starts or changes text whether or not there is any.
    pub open spec fn always_eaten(self) -> bool {
        self is Input || self is InputRaw || self is FullWidthSpace || self is Convert
            || self is Punctuate || self.switches_ime()
    }

    /// Whether the key is kept from the application while the input method is on.
    pub open spec fn eaten(self, has_preedit: bool) -> bool {
        self.always_eaten() || (has_preedit && !(self is Other))
    }

    pub open spec fn name_text(self) -> Seq<char> {
        match self {
            UserAction::Input(_) => "Input"@,
            UserAction::InputRaw(_) => "InputRaw"@,
            UserAction::FullWidthSpace => "FullWidthSpace"@,
            UserAction::Convert => "Convert"@,
            UserAction::CommitRaw => "CommitRaw"@,
            UserAction::Backspace => "Backspace"@,
            UserAction::Cancel => "Cancel"@,
            UserAction::CancelAll => "CancelAll"@,
            UserAction::Hiragana => "Hiragana"@,
            UserAction::Katakana => "Katakana"@,
            UserAction::HalfKatakana => "HalfKatakana"@,
            UserAction::FullLatin => "FullLatin"@,
            UserAction::HalfLatin => "HalfLatin"@,
            UserAction::CycleKana => "CycleKana"@,
            UserAction::CandidateNext => "CandidateNext"@,
            UserAction::CandidatePrev => "CandidatePrev"@,
            UserAction::CandidatePageDown => "CandidatePageDown"@,
            UserAction::CandidatePageUp => "CandidatePageUp"@,
            UserAction::CandidateSelect(_) => "CandidateSelect"@,
            UserAction::CursorLeft => "CursorLeft"@,
            UserAction::CursorRight => "CursorRight"@,
            UserAction::CursorHome => "CursorHome"@,
            UserAction::CursorEnd => "CursorEnd"@,
            UserAction::Punctuate(_) => "Punctuate"@,
            UserAction::SegmentShrink => "SegmentShrink"@,
            UserAction::SegmentExtend => "SegmentExtend"@,
            UserAction::ImeToggle => "ImeToggle"@,
            UserAction::ImeOn => "ImeOn"@,
            UserAction::ImeOff => "ImeOff"@,
            UserAction::Other => "Other"@,
        }
    }

    /// The mode that an action switches to.
    pub open spec fn target_mode(self, current: ImeMode) -> Option<ImeMode> {
        match self {
            UserAction::ImeToggle => Some(current.toggle()),
            UserAction::ImeOff => Some(ImeMode::Off),
            UserAction::ImeOn => Some(ImeMode::On),
            _ => None,
        }
    }
}

pub fn key_should_eat(action: &UserAction, has_preedit: bool) -> (r: bool)
    ensures
        r == action.eaten(has_preedit),
{
    match action {
        UserAction::Input(_) => true,
        UserAction::InputRaw(_) => true,
        UserAction::FullWidthSpace => true,
        UserAction::Convert => true,
        UserAction::ImeToggle => true,
        UserAction::ImeOff => true,
        UserAction::ImeOn => true,
        UserAction::Punctuate(_) => true,
        UserAction::Other => false,
        _ => has_preedit,
    }
}

pub fn action_name(a: &UserAction) -> (r: &'static str)
    ensures
        r@ == a.name_text(),
{
    match a {
        UserAction::Input(_) => "Input",
        UserAction::InputRaw(_) => "InputRaw",
        UserAction::FullWidthSpace => "FullWidthSpace",
        UserAction::Convert => "Convert",
        UserAction::CommitRaw => "CommitRaw",
        UserAction::Backspace => "Backspace",
        UserAction::Cancel => "Cancel",
        UserAction::CancelAll => "CancelAll",
        UserAction::Hiragana => "Hiragana",
        UserAction::Katakana => "Katakana",
        UserAction::HalfKatakana => "HalfKatakana",
        UserAction::FullLatin => "FullLatin",
        UserAction::HalfLatin => "HalfLatin",
        UserAction::CycleKana => "CycleKana",
        UserAction::CandidateNext => "CandidateNext",
        UserAction::CandidatePrev => "CandidatePrev",
        UserAction::CandidatePageDown => "CandidatePageDown",
        UserAction::CandidatePageUp => "CandidatePageUp",
        UserAction::CandidateSelect(_) => "CandidateSelect",
        UserAction::CursorLeft => "CursorLeft",
        UserAction::CursorRight => "CursorRight",
        UserAction::CursorHome => "CursorHome",
        UserAction::CursorEnd => "CursorEnd",
        UserAction::Punctuate(_) => "Punctuate",
        UserAction::SegmentShrink => "SegmentShrink",
        UserAction::SegmentExtend => "SegmentExtend",
        UserAction::ImeToggle => "ImeToggle",
        UserAction::ImeOn => "ImeOn",
        UserAction::ImeOff => "ImeOff",
        UserAction::Other => "Other",
    }
}

/// Whether an action switches the input method on or off.
pub fn is_ime_switch(action: &UserAction) -> (r: bool)
    ensures
        r == action.switches_ime(),
{
    match action {
        UserAction::ImeToggle => true,
        UserAction::ImeOff => true,
        UserAction::ImeOn => true,
        _ => false,
    }
}

/// The mode that the on/off keys lead to.
pub fn ime_target(action: &UserAction, current: ImeMode) -> (r: Option<ImeMode>)
    ensures
        r == action.target_mode(current),
{
    match action {
        UserAction::ImeToggle => Some(current.toggled()),
        UserAction::ImeOff => Some(ImeMode::Off),
        UserAction::ImeOn => Some(ImeMode::On),
        _ => None,
    }
}

/// The answer to "will this key be handled?". Only the keys that switch it on are
/// handled while the input method is off; an unmapped key never is.
/// `has_preedit` tells of text in the engine, `selecting` of a choice in progress.
pub fn on_test_key_down(
    action: Option<UserAction>,
    mode: ImeMode,
    has_preedit: bool,
    selecting: bool,
) -> (r: bool)
    ensures
        r == (action is Some && (if mode.on() {
            action->0.eaten(has_preedit || selecting)
        } else {
            action->0.switches_ime()
        })),
{
    match action {
        None => false,
        Some(a) => if mode.is_on() {
            key_should_eat(&a, has_preedit || selecting)
        } else {
            is_ime_switch(&a)
        },
    }
}

/// What is done with a key that was pressed.
#[derive(Clone, Copy, Debug, PartialEq, Eq, Structural)]
pub enum KeyStep {
    /// Write the diagnostic report; the key is used up.
    DumpSnapshot,
    /// Leave the key to the application.
    Ignore { reason: IgnoreReason },
    Handle { action: UserAction },
}

#[derive(Clone, Copy, Debug, PartialEq, Eq, Structural)]
pub enum IgnoreReason {
    Unmapped,
    NoContext,
    NoSink,
    ImeOff,
}

impl IgnoreReason {
    pub open spec fn reason_text(self) -> Seq<char> {
        match self {
            IgnoreReason::Unmapped => "unmapped"@,
            IgnoreReason::NoContext => "no_ctx"@,
            IgnoreReason::NoSink => "no_sink"@,
            IgnoreReason::ImeOff => "ime_off"@,
        }
    }

    pub fn as_str(self) -> (r: &'static str)
        ensures
            r@ == self.reason_text(),
    {
        match self {
            IgnoreReason::Unmapped => "unmapped",
            IgnoreReason::NoContext => "no_ctx",
            IgnoreReason::NoSink => "no_sink",
            IgnoreReason::ImeOff => "ime_off",
        }
    }
}

/// The virtual key of F12.
pub const VK_F12: u16 = 0x7B;

pub open spec fn key_step(
    vk: u16,
    ctrl: bool,
    shift: bool,
    action: Option<UserAction>,
    has_context: bool,
    has_sink: bool,
    mode: ImeMode,
) -> KeyStep {
    if vk == VK_F12 && ctrl && shift {
        KeyStep::DumpSnapshot
    } else if action is None {
        KeyStep::Ignore { reason: IgnoreReason::Unmapped }
    } else if !has_context {
        KeyStep::Ignore { reason: IgnoreReason::NoContext }
    } else if !has_sink {
        KeyStep::Ignore { reason: IgnoreReason::NoSink }
    } else if !mode.on() && !action->0.switches_ime() {
        KeyStep::Ignore { reason: IgnoreReason::ImeOff }
    } else {
        KeyStep::Handle { action: action->0 }
    }
}

/// Decides on a pressed key. Applications may send keys that were declined when
/// tested, so the mode is looked at here again.
pub fn on_key_down(
    vk: u16,
    ctrl: bool,
    shift: bool,
    action: Option<UserAction>,
    has_context: bool,
    has_sink: bool,
    mode: ImeMode,
) -> (r: KeyStep)
    ensures
        r == key_step(vk, ctrl, shift, action, has_context, has_sink, mode),
{
    if vk == VK_F12 && ctrl && shift {
        return KeyStep::DumpSnapshot;
    }
    match action {
        None => KeyStep::Ignore { reason: IgnoreReason::Unmapped },
        Some(a) => {
            if !has_context {
                return KeyStep::Ignore { reason: IgnoreReason::NoContext };
            }
            if !has_sink {
                return KeyStep::Ignore { reason: IgnoreReason::NoSink };
            }
            if !mode.is_on() && !is_ime_switch(&a) {
                return KeyStep::Ignore { reason: IgnoreReason::ImeOff };
            }
            KeyStep::Handle { action: a }
        },
    }
}

/// While the input method is off, no key but those that switch it reaches it:
/// neither when tested nor when pressed.
pub proof fn switched_off_keys_go_to_the_application(
    vk: u16,
    ctrl: bool,
    shift: bool,
    action: UserAction,
    mode: ImeMode,
)
    requires
        !mode.on(),
        !action.switches_ime(),
    ensures
        !(key_step(vk, ctrl, shift, Some(action), true, true, mode) is Handle),
{
}

/// Home, End, Left and Right are gated alike: kept while there is text, and left
/// to the application else.
pub proof fn cursor_keys_are_gated_alike(has_preedit: bool)
    ensures
        UserAction::CursorHome.eaten(has_preedit) == has_preedit,
        UserAction::CursorEnd.eaten(has_preedit) == has_preedit,
        UserAction::CursorLeft.eaten(has_preedit) == has_preedit,
        UserAction::CursorRight.eaten(has_preedit) == has_preedit,
        UserAction::SegmentShrink.eaten(has_preedit) == has_preedit,
        UserAction::SegmentExtend.eaten(has_preedit) == has_preedit,
{
}

/// Text that is being composed only ever makes more keys stay with the input method.
pub proof fn preedit_keeps_more_keys(action: UserAction)
    ensures
        action.eaten(false) ==> action.eaten(true),
        !(action is Other) ==> action.eaten(true),
{
}

/// Keys that bring or convert text, and those that switch the input method, are
/// kept in any case; all other known keys only while there is text, and unknown
/// keys never.
pub proof fn keys_are_kept_for_a_reason(action: UserAction)
    ensures
        action.eaten(false) <==> action is Input || action is InputRaw || action is Punctuate
            || action is FullWidthSpace || action is Convert || action is ImeToggle
            || action is ImeOn || action is ImeOff,
        action.eaten(true) <==> !(action is Other),
{
}

/// The on and off keys lead to on and off from every mode, the toggle key out of
/// the state it finds, and no other key switches.
pub proof fn switching_keys_lead_where_they_say(action: UserAction, current: ImeMode)
    ensures
        action is ImeOn ==> action.target_mode(current) == Some(ImeMode::On),
        action is ImeOff ==> action.target_mode(current) == Some(ImeMode::Off),
        action is ImeToggle ==> action.target_mode(current) is Some && action.target_mode(
            current,
        )->0.on() != current.on(),
        action.target_mode(current) is Some <==> action.switches_ime(),
        action.switches_ime() <==> action is ImeToggle || action is ImeOff || action is ImeOn,
{
}

/// A pressed key is handled as the action it is mapped to, wherever there is a
/// document to write to and the input method is on or the key switches it. The
/// first reason to leave it alone is the one that is named.
pub proof fn pressed_keys_are_handled(
    vk: u16,
    ctrl: bool,
    shift: bool,
    action: Option<UserAction>,
    has_context: bool,
    has_sink: bool,
    mode: ImeMode,
)
    ensures
        ({
            let step = key_step(vk, ctrl, shift, action, has_context, has_sink, mode);
            let report = vk == 0x7B && ctrl && shift;
            &&& step == KeyStep::DumpSnapshot <==> report
            &&& step is Handle <==> !report && action is Some && has_context && has_sink && (
            mode.on() || action->0.switches_ime())
            &&& step is Handle ==> step == (KeyStep::Handle { action: action->0 })
            &&& step == (KeyStep::Ignore { reason: IgnoreReason::Unmapped }) <==> !report && action
                is None
            &&& step == (KeyStep::Ignore { reason: IgnoreReason::NoContext }) <==> !report && action
                is Some && !has_context
            &&& step == (KeyStep::Ignore { reason: IgnoreReason::NoSink }) <==> !report && action
                is Some && has_context && !has_sink
        }),
{
}

/// The reasons can be told apart by their names.
pub proof fn reasons_have_distinct_names(a: IgnoreReason, b: IgnoreReason)
    ensures
        a.reason_text() == b.reason_text() <==> a == b,
{
    reveal_strlit("unmapped");
    reveal_strlit("no_ctx");
    reveal_strlit("no_sink");
    reveal_strlit("ime_off");
    if a != b {
        assert(a.reason_text().len() != b.reason_text().len() || a.reason_text()[0]
            != b.reason_text()[0]);
    }
}

}
