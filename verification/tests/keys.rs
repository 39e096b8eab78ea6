use rakukan_tsf::action::{
    IgnoreReason, KeyStep, UserAction, action_name, ime_target, key_should_eat, on_key_down,
    on_test_key_down,
};
use rakukan_tsf::ime_mode::ImeMode;

#[test]
fn home_end_are_eaten_only_while_preedit_exists() {
    for action in [UserAction::CursorHome, UserAction::CursorEnd] {
        assert!(key_should_eat(&action, true), "{action:?} with preedit");
        assert!(
            !key_should_eat(&action, false),
            "{action:?} without preedit"
        );
    }
}

#[test]
fn left_right_keep_the_same_gating_as_home_end() {
    for has_preedit in [true, false] {
        assert_eq!(
            key_should_eat(&UserAction::CursorLeft, has_preedit),
            key_should_eat(&UserAction::CursorHome, has_preedit)
        );
        assert_eq!(
            key_should_eat(&UserAction::CursorRight, has_preedit),
            key_should_eat(&UserAction::CursorEnd, has_preedit)
        );
    }
}

#[test]
fn keys_are_gated_by_what_they_do() {
    for action in [
        UserAction::Input('a'),
        UserAction::InputRaw('a'),
        UserAction::FullWidthSpace,
        UserAction::Convert,
        UserAction::Punctuate('、'),
        UserAction::ImeOn,
    ] {
        assert!(key_should_eat(&action, false));
    }
    assert!(!key_should_eat(&UserAction::Backspace, false));
    assert!(key_should_eat(&UserAction::CandidateSelect(1), true));
    assert!(!key_should_eat(&UserAction::Other, true));
    assert_eq!(action_name(&UserAction::CandidateSelect(3)), "CandidateSelect");
    assert_eq!(action_name(&UserAction::Other), "Other");
}

#[test]
fn a_switched_off_method_only_takes_its_switches() {
    let off = ImeMode::Off;
    assert!(!on_test_key_down(Some(UserAction::Input('a')), off, true, true));
    assert!(on_test_key_down(Some(UserAction::ImeToggle), off, false, false));
    assert!(!on_test_key_down(None, ImeMode::On, true, true));
    assert!(on_test_key_down(Some(UserAction::CursorLeft), ImeMode::On, false, true));
    assert_eq!(
        on_key_down(0x41, false, false, Some(UserAction::Input('a')), true, true, off),
        KeyStep::Ignore { reason: IgnoreReason::ImeOff }
    );
    assert_eq!(
        on_key_down(0x41, false, false, None, true, true, ImeMode::On),
        KeyStep::Ignore { reason: IgnoreReason::Unmapped }
    );
    assert_eq!(
        on_key_down(0x41, false, false, Some(UserAction::Convert), false, true, ImeMode::On),
        KeyStep::Ignore { reason: IgnoreReason::NoContext }
    );
    assert_eq!(
        on_key_down(0x41, false, false, Some(UserAction::Convert), true, false, ImeMode::On),
        KeyStep::Ignore { reason: IgnoreReason::NoSink }
    );
    assert_eq!(on_key_down(0x7B, true, true, None, false, false, off), KeyStep::DumpSnapshot);
    assert_eq!(
        on_key_down(0x7B, true, false, Some(UserAction::ImeOn), true, true, off),
        KeyStep::Handle { action: UserAction::ImeOn }
    );
    assert_eq!(IgnoreReason::NoSink.as_str(), "no_sink");
    assert_eq!(IgnoreReason::ImeOff.as_str(), "ime_off");
}

#[test]
fn the_on_off_keys_lead_to_plain_modes() {
    assert_eq!(ime_target(&UserAction::ImeToggle, ImeMode::Off), Some(ImeMode::On));
    assert_eq!(ime_target(&UserAction::ImeToggle, ImeMode::HalfKatakana), Some(ImeMode::Off));
    assert_eq!(ime_target(&UserAction::ImeOn, ImeMode::Off), Some(ImeMode::On));
    assert_eq!(ime_target(&UserAction::ImeOff, ImeMode::On), Some(ImeMode::Off));
    assert_eq!(ime_target(&UserAction::Convert, ImeMode::On), None);
}
