//! The input mode of the text service.
//!
//! Half-width katakana and full-width alphanumeric are optional direct modes.
//! Each is enabled on its own in [`InputConfig`]; both keep the keyboard open.
use vstd::prelude::*;
use crate::config::InputConfig;

verus! {

#[derive(Clone, Copy, Debug, PartialEq, Eq, Structural)]
pub enum ImeMode {
    On,
    Off,
    HalfKatakana,
    FullAlphanumeric,
}

impl Default for ImeMode {
    fn default() -> (r: Self)
        ensures
            r == ImeMode::On,
    {
        ImeMode::On
    }
}

impl ImeMode {
    /// The modes that turn keys into text without the dictionary.
    pub open spec fn direct(self) -> bool {
        self is HalfKatakana || self is FullAlphanumeric
    }

    /// Everything but `Off` keeps the keyboard open.
    pub open spec fn on(self) -> bool {
        !(self is Off)
    }

    /// Whether the settings let this mode be entered.
    pub open spec fn allowed_by(self, input: InputConfig) -> bool {
        match self {
            ImeMode::HalfKatakana => input.half_katakana_mode_enabled,
            ImeMode::FullAlphanumeric => input.full_alphanumeric_mode_enabled,
            ImeMode::On => true,
            ImeMode::Off => true,
        }
    }

    /// The mode behind the on/off key: every open mode closes, `Off` opens as `On`.
    pub open spec fn toggle(self) -> ImeMode {
        if self.on() {
            ImeMode::Off
        } else {
            ImeMode::On
        }
    }

    pub open spec fn label_text(self) -> Seq<char> {
        match self {
            ImeMode::On => "あ"@,
            ImeMode::Off => "A"@,
            ImeMode::HalfKatakana => "ｶ"@,
            ImeMode::FullAlphanumeric => "Ａ"@,
        }
    }

    pub open spec fn name_text(self) -> Seq<char> {
        match self {
            ImeMode::On => "On"@,
            ImeMode::Off => "Off"@,
            ImeMode::HalfKatakana => "HalfKatakana"@,
            ImeMode::FullAlphanumeric => "FullAlphanumeric"@,
        }
    }

    pub fn is_direct(self) -> (r: bool)
        ensures
            r == self.direct(),
    {
        match self {
            ImeMode::HalfKatakana => true,
            ImeMode::FullAlphanumeric => true,
            _ => false,
        }
    }

    pub fn allowed(self, input: &InputConfig) -> (r: bool)
        ensures
            r == self.allowed_by(*input),
    {
        match self {
            ImeMode::HalfKatakana => input.half_katakana_mode_enabled,
            ImeMode::FullAlphanumeric => input.full_alphanumeric_mode_enabled,
            _ => true,
        }
    }

    pub fn is_on(self) -> (r: bool)
        ensures
            r == self.on(),
    {
        match self {
            ImeMode::Off => false,
            _ => true,
        }
    }

    /// The mode for a value of the open/close compartment (open is `true`).
    pub fn from_open(open: bool) -> (r: Self)
        ensures
            r == (if open {
                ImeMode::On
            } else {
                ImeMode::Off
            }),
    {
        if open {
            ImeMode::On
        } else {
            ImeMode::Off
        }
    }

    pub fn toggled(self) -> (r: Self)
        ensures
            r == self.toggle(),
    {
        match self {
            ImeMode::Off => ImeMode::On,
            _ => ImeMode::Off,
        }
    }

    /// The character that the language bar and the mode indicator show.
    pub fn label(self) -> (r: &'static str)
        ensures
            r@ == self.label_text(),
    {
        match self {
            ImeMode::On => "あ",
            ImeMode::Off => "A",
            ImeMode::HalfKatakana => "ｶ",
            ImeMode::FullAlphanumeric => "Ａ",
        }
    }

    /// The name that diagnostic events carry.
    pub fn name(self) -> (r: &'static str)
        ensures
            r@ == self.name_text(),
    {
        match self {
            ImeMode::On => "On",
            ImeMode::Off => "Off",
            ImeMode::HalfKatakana => "HalfKatakana",
            ImeMode::FullAlphanumeric => "FullAlphanumeric",
        }
    }
}

/// The current mode as one byte, for readers that take no lock.
#[derive(Clone, Copy, Debug, PartialEq, Eq, Structural)]
pub struct ModeCell {
    pub code: u8,
}

impl ModeCell {
    /// The mode that a byte stands for. Unknown bytes read as `On`.
    pub open spec fn mode(self) -> ImeMode {
        if self.code == 1 {
            ImeMode::Off
        } else if self.code == 2 {
            ImeMode::HalfKatakana
        } else if self.code == 3 {
            ImeMode::FullAlphanumeric
        } else {
            ImeMode::On
        }
    }

    /// The cell of a process that has not switched modes yet.
    pub fn new() -> (r: Self)
        ensures
            r.mode() == ImeMode::On,
    {
        ModeCell { code: 0 }
    }
}

pub fn ime_mode_set_atomic(cell: &mut ModeCell, mode: ImeMode)
    ensures
        final(cell).mode() == mode,
{
    cell.code = match mode {
        ImeMode::On => 0u8,
        ImeMode::Off => 1u8,
        ImeMode::HalfKatakana => 2u8,
        ImeMode::FullAlphanumeric => 3u8,
    };
}

pub fn ime_mode_get_atomic(cell: &ModeCell) -> (r: ImeMode)
    ensures
        r == cell.mode(),
{
    match cell.code {
        1 => ImeMode::Off,
        2 => ImeMode::HalfKatakana,
        3 => ImeMode::FullAlphanumeric,
        _ => ImeMode::On,
    }
}

/// The on/off key always changes whether the keyboard is open, and two presses
/// lead back to plain on or off, never into a direct mode.
pub proof fn toggling_flips_open_state(mode: ImeMode)
    ensures
        mode.toggle().on() == !mode.on(),
        mode.toggle().toggle().on() == mode.on(),
        !mode.toggle().direct(),
        !mode.direct() ==> mode.toggle().toggle() == mode,
{
}

/// Plain on and off can always be entered; the two direct modes depend on one
/// setting each and on nothing else.
pub proof fn direct_modes_are_enabled_independently(a: InputConfig, b: InputConfig)
    ensures
        ImeMode::On.allowed_by(a),
        ImeMode::Off.allowed_by(a),
        a.half_katakana_mode_enabled == b.half_katakana_mode_enabled
            ==> ImeMode::HalfKatakana.allowed_by(a) == ImeMode::HalfKatakana.allowed_by(b),
        a.full_alphanumeric_mode_enabled == b.full_alphanumeric_mode_enabled
            ==> ImeMode::FullAlphanumeric.allowed_by(a) == ImeMode::FullAlphanumeric.allowed_by(b),
{
}

/// Only `Off` closes the keyboard, and only the two optional modes are direct; each
/// can be entered exactly where its own setting allows it.
pub proof fn modes_follow_their_settings(mode: ImeMode, input: InputConfig)
    ensures
        mode.on() <==> mode != ImeMode::Off,
        mode.direct() <==> mode != ImeMode::On && mode != ImeMode::Off,
        mode.direct() ==> mode.on(),
        ImeMode::HalfKatakana.allowed_by(input) == input.half_katakana_mode_enabled,
        ImeMode::FullAlphanumeric.allowed_by(input) == input.full_alphanumeric_mode_enabled,
        !mode.allowed_by(input) ==> mode.direct(),
        ImeMode::Off.toggle() == ImeMode::On,
        mode.on() ==> mode.toggle() == ImeMode::Off,
{
}

/// The modes can be told apart by what is shown for them and by their names.
pub proof fn modes_are_shown_apart(a: ImeMode, b: ImeMode)
    ensures
        a.label_text() == b.label_text() <==> a == b,
        a.name_text() == b.name_text() <==> a == b,
        a.label_text().len() == 1,
{
    reveal_strlit("あ");
    reveal_strlit("A");
    reveal_strlit("ｶ");
    reveal_strlit("Ａ");
    reveal_strlit("On");
    reveal_strlit("Off");
    reveal_strlit("HalfKatakana");
    reveal_strlit("FullAlphanumeric");
    if a != b {
        assert(a.label_text()[0] != b.label_text()[0]);
        assert(a.name_text().len() != b.name_text().len());
    }
}

/// Unknown bytes read as on, so that no byte closes the keyboard but the one that
/// stands for it.
pub proof fn unknown_bytes_read_as_on(a: ModeCell, b: ModeCell)
    ensures
        a.code > 3 ==> a.mode() == ImeMode::On,
        a.mode() == b.mode() && a.mode() != ImeMode::On ==> a == b,
{
}

}
