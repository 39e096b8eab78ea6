//! The button in the language bar: its sign, its menu and its notifications.
use vstd::prelude::*;
use vstd::string::*;
use crate::config::InputConfig;
use crate::ime_mode::ImeMode;
use crate::text::concat3;
use crate::wide;
use crate::wide::to_wide;

verus! {

pub const LANGBAR_SINK_COOKIE: u32 = 0xACA_CACA;

pub const ID_MENU_IME_ON: u32 = 1;

pub const ID_MENU_IME_OFF: u32 = 2;

pub const ID_MENU_HALF_KATAKANA: u32 = 3;

pub const ID_MENU_FULL_ALPHANUMERIC: u32 = 4;

pub const ID_MENU_SETTINGS: u32 = 10;

pub const ID_MENU_ENGINE_RELOAD: u32 = 11;

/// How many units of a description the system takes, with the zero behind it.
pub const DESCRIPTION_UNITS: usize = 32;

/// A description for the system: cut where it is too long, zeros behind it.
pub open spec fn description_units(w: Seq<u16>) -> Seq<u16> {
    Seq::new(
        DESCRIPTION_UNITS as nat,
        |i: int|
            if i < w.len() && i < DESCRIPTION_UNITS - 1 {
                w[i]
            } else {
                0
            },
    )
}

/// The description of the button, as the system takes it.
pub fn make_langbar_info(description: &str) -> (r: Vec<u16>)
    ensures
        r@ == description_units(wide::encoded(description@)),
{
    let w: Vec<u16> = to_wide(description);
    let mut r: Vec<u16> = Vec::new();
    let mut i: usize = 0;
    while i < DESCRIPTION_UNITS
        invariant
            i <= DESCRIPTION_UNITS,
            w@ == wide::encoded(description@),
            r@.len() == i,
            forall|k: int| 0 <= k < i ==> r@[k] == #[trigger] description_units(w@)[k],
        decreases DESCRIPTION_UNITS - i,
    {
        r.push(
            if i < w.len() && i < DESCRIPTION_UNITS - 1 {
                w[i]
            } else {
                0
            },
        );
        i = i + 1;
    }
    assert(r@ =~= description_units(w@));
    r
}

/// The number that says whether the keyboard is open.
pub fn open_close_value(open: bool) -> (r: i32)
    ensures
        r == (if open {
            1int
        } else {
            0
        }),
{
    if open {
        1
    } else {
        0
    }
}

/// Whether a number says that the keyboard is open; it is where there is none.
pub fn get_open_close(value: Option<i32>) -> (r: bool)
    ensures
        r == (value is None || value->0 != 0),
{
    match value {
        Some(v) => v != 0,
        None => true,
    }
}

/// The other of the two states; a missing number counts as open.
pub fn toggle_open_close(value: Option<i32>) -> (r: i32)
    ensures
        r == (if value == Some(0i32) {
            1int
        } else {
            0
        }),
{
    match value {
        Some(v) => if v == 0 {
            1
        } else {
            0
        },
        None => 0,
    }
}

/// What the button shows: the mode, or a dash while nothing can be converted yet.
pub open spec fn sign(mode: ImeMode, ready: bool) -> Seq<char> {
    if mode == ImeMode::On && !ready {
        "ー"@
    } else {
        mode.label_text()
    }
}

pub fn langbar_mode_char(mode: ImeMode, ready: bool) -> (r: &'static str)
    ensures
        r@ == sign(mode, ready),
{
    if mode == ImeMode::On && !ready {
        "ー"
    } else {
        mode.label()
    }
}

/// The tooltip of the button: what the engine runs on.
pub fn tooltip(backend: Option<&str>) -> (r: String)
    ensures
        r@ == "rakukan ["@ + (match backend {
            Some(b) => b@,
            None => "初期化中..."@,
        }) + "]"@,
{
    match backend {
        Some(b) => concat3("rakukan [", b, "]"),
        None => concat3("rakukan [", "初期化中...", "]"),
    }
}

/// An entry of the menu.
pub enum MenuItem {
    Entry { id: u32, checked: bool, text: &'static str },
    Separator,
}

#[verifier::ext_equal]
pub enum MenuItemModel {
    Entry { id: u32, checked: bool, text: Seq<char> },
    Separator,
}

impl View for MenuItem {
    type V = MenuItemModel;

    open spec fn view(&self) -> MenuItemModel {
        match self {
            MenuItem::Entry { id, checked, text } => MenuItemModel::Entry {
                id: *id,
                checked: *checked,
                text: text@,
            },
            MenuItem::Separator => MenuItemModel::Separator,
        }
    }
}

pub open spec fn menu_models(items: Seq<MenuItem>) -> Seq<MenuItemModel> {
    items.map_values(|i: MenuItem| i@)
}

/// An entry that switches to a mode, marked where that mode is in force.
pub open spec fn mode_entry(id: u32, target: ImeMode, mode: ImeMode, text: Seq<char>) -> MenuItemModel {
    MenuItemModel::Entry { id, checked: mode == target, text }
}

/// The entries for the optional modes that are enabled.
pub open spec fn optional_entries(mode: ImeMode, input: InputConfig) -> Seq<MenuItemModel> {
    (if input.half_katakana_mode_enabled {
        seq![
            mode_entry(ID_MENU_HALF_KATAKANA, ImeMode::HalfKatakana, mode, "半角カタカナ"@),
        ]
    } else {
        Seq::empty()
    }) + (if input.full_alphanumeric_mode_enabled {
        seq![
            mode_entry(ID_MENU_FULL_ALPHANUMERIC, ImeMode::FullAlphanumeric, mode, "全角英数"@),
        ]
    } else {
        Seq::empty()
    })
}

/// The menu: the modes with a mark at the one in force, then settings and restart.
pub open spec fn menu_for(mode: ImeMode, input: InputConfig) -> Seq<MenuItemModel> {
    seq![
        mode_entry(ID_MENU_IME_ON, ImeMode::On, mode, "IME オン"@),
        mode_entry(ID_MENU_IME_OFF, ImeMode::Off, mode, "IME オフ"@),
    ] + optional_entries(mode, input) + seq![
        MenuItemModel::Separator,
        MenuItemModel::Entry { id: ID_MENU_SETTINGS, checked: false, text: "設定..."@ },
        MenuItemModel::Entry { id: ID_MENU_ENGINE_RELOAD, checked: false, text: "エンジン再起動"@ },
    ]
}

/// The entries of the menu that a click opens.
pub fn langbar_menu(mode: ImeMode, input: &InputConfig) -> (r: Vec<MenuItem>)
    ensures
        menu_models(r@) == menu_for(mode, *input),
{
    let mut items = vec![
        MenuItem::Entry {
            id: ID_MENU_IME_ON,
            checked: mode == ImeMode::On,
            text: "IME オン",
        },
        MenuItem::Entry {
            id: ID_MENU_IME_OFF,
            checked: mode == ImeMode::Off,
            text: "IME オフ",
        },
    ];
    if input.half_katakana_mode_enabled {
        items.push(
            MenuItem::Entry {
                id: ID_MENU_HALF_KATAKANA,
                checked: mode == ImeMode::HalfKatakana,
                text: "半角カタカナ",
            },
        );
    }
    if input.full_alphanumeric_mode_enabled {
        items.push(
            MenuItem::Entry {
                id: ID_MENU_FULL_ALPHANUMERIC,
                checked: mode == ImeMode::FullAlphanumeric,
                text: "全角英数",
            },
        );
    }
    items.push(MenuItem::Separator);
    items.push(MenuItem::Entry { id: ID_MENU_SETTINGS, checked: false, text: "設定..." });
    items.push(
        MenuItem::Entry { id: ID_MENU_ENGINE_RELOAD, checked: false, text: "エンジン再起動" },
    );
    assert(menu_models(items@) =~= menu_for(mode, *input));
    items
}

/// What an entry of the menu does.
#[derive(Clone, Copy, Debug, PartialEq, Eq, Structural)]
pub enum MenuCommand {
    SwitchIme { mode: ImeMode },
    OpenSettings,
    /// Read the settings again and restart the engine, whatever they say.
    RestartEngine,
}

pub open spec fn command_of(id: u32) -> Option<MenuCommand> {
    if id == ID_MENU_IME_ON {
        Some(MenuCommand::SwitchIme { mode: ImeMode::On })
    } else if id == ID_MENU_IME_OFF {
        Some(MenuCommand::SwitchIme { mode: ImeMode::Off })
    } else if id == ID_MENU_HALF_KATAKANA {
        Some(MenuCommand::SwitchIme { mode: ImeMode::HalfKatakana })
    } else if id == ID_MENU_FULL_ALPHANUMERIC {
        Some(MenuCommand::SwitchIme { mode: ImeMode::FullAlphanumeric })
    } else if id == ID_MENU_SETTINGS {
        Some(MenuCommand::OpenSettings)
    } else if id == ID_MENU_ENGINE_RELOAD {
        Some(MenuCommand::RestartEngine)
    } else {
        None
    }
}

/// What the chosen entry does; nothing where none was chosen.
pub fn handle_langbar_menu_command(id: u32) -> (r: Option<MenuCommand>)
    ensures
        r == command_of(id),
{
    if id == ID_MENU_IME_ON {
        Some(MenuCommand::SwitchIme { mode: ImeMode::On })
    } else if id == ID_MENU_IME_OFF {
        Some(MenuCommand::SwitchIme { mode: ImeMode::Off })
    } else if id == ID_MENU_HALF_KATAKANA {
        Some(MenuCommand::SwitchIme { mode: ImeMode::HalfKatakana })
    } else if id == ID_MENU_FULL_ALPHANUMERIC {
        Some(MenuCommand::SwitchIme { mode: ImeMode::FullAlphanumeric })
    } else if id == ID_MENU_SETTINGS {
        Some(MenuCommand::OpenSettings)
    } else if id == ID_MENU_ENGINE_RELOAD {
        Some(MenuCommand::RestartEngine)
    } else {
        None
    }
}

/// Why a listener was refused.
#[derive(Clone, Copy, Debug, PartialEq, Eq, Structural)]
pub enum SinkError {
    /// It listens to something else.
    InvalidInterface,
    NullSink,
    BadCookie,
}

/// Registers the listener of the button. `sink` is nothing where none was given,
/// and holds nothing where what was given is no such listener.
pub fn advise_sink<S>(slot: &mut Option<S>, right_interface: bool, sink: Option<Option<S>>) -> (r:
    Result<u32, SinkError>)
    ensures
        !right_interface ==> r == Err::<u32, SinkError>(SinkError::InvalidInterface)
            && *final(slot) == *old(slot),
        right_interface && sink is None ==> r == Err::<u32, SinkError>(SinkError::NullSink)
            && *final(slot) == *old(slot),
        right_interface && sink is Some ==> r == Ok::<u32, SinkError>(LANGBAR_SINK_COOKIE)
            && *final(slot) == (if sink->0 is Some {
            sink->0
        } else {
            *old(slot)
        }),
{
    if !right_interface {
        return Err(SinkError::InvalidInterface);
    }
    match sink {
        None => Err(SinkError::NullSink),
        Some(s) => {
            if s.is_some() {
                *slot = s;
            }
            Ok(LANGBAR_SINK_COOKIE)
        },
    }
}

/// Drops the listener of the button.
pub fn unadvise_sink<S>(slot: &mut Option<S>, cookie: u32) -> (r: Result<(), SinkError>)
    ensures
        cookie != LANGBAR_SINK_COOKIE ==> r == Err::<(), SinkError>(SinkError::BadCookie)
            && *final(slot) == *old(slot),
        cookie == LANGBAR_SINK_COOKIE ==> r == Ok::<(), SinkError>(()) && *final(slot) is None,
{
    if cookie != LANGBAR_SINK_COOKIE {
        return Err(SinkError::BadCookie);
    }
    *slot = None;
    Ok(())
}

/// Every entry of the menu does something, exactly the mode in force is marked,
/// and a mode that the settings do not allow is not offered.
pub proof fn every_entry_has_a_command(mode: ImeMode, input: InputConfig, i: int)
    requires
        0 <= i < menu_for(mode, input).len(),
    ensures
        menu_for(mode, input)[i] matches MenuItemModel::Entry { id, checked, .. } ==> {
            &&& command_of(id) is Some
            &&& checked == (command_of(id) == Some(MenuCommand::SwitchIme { mode }))
            &&& command_of(id)->0 matches MenuCommand::SwitchIme { mode: target }
                ==> target.allowed_by(input)
        },
{
}

/// A description always ends with a zero inside its room; a short one is all there,
/// and of a long one the front.
pub proof fn descriptions_end_with_zero(w: Seq<u16>, i: int)
    requires
        0 <= i < 32,
    ensures
        description_units(w).len() == 32,
        description_units(w)[31] == 0,
        i < w.len() && i < 31 ==> description_units(w)[i] == w[i],
        i >= w.len() ==> description_units(w)[i] == 0,
{
}

/// The button shows the mode, but for plain on while nothing can be converted.
pub proof fn the_button_shows_the_mode(mode: ImeMode, ready: bool)
    ensures
        ready || mode != ImeMode::On ==> sign(mode, ready) == mode.label_text(),
        sign(ImeMode::On, false) != ImeMode::On.label_text(),
        sign(ImeMode::On, false) != ImeMode::Off.label_text(),
{
    reveal_strlit("ー");
    reveal_strlit("あ");
    reveal_strlit("A");
    assert("ー"@[0] != "あ"@[0] && "ー"@[0] != "A"@[0]);
}

/// The menu offers each mode that the settings allow, once, and always the settings
/// and the restart of the engine.
pub proof fn the_menu_offers_every_allowed_mode(mode: ImeMode, input: InputConfig, target: ImeMode)
    requires
        target.allowed_by(input),
    ensures
        exists|i: int|
            0 <= i < menu_for(mode, input).len() && {
                &&& #[trigger] menu_for(mode, input)[i] is Entry
                &&& command_of(menu_for(mode, input)[i]->id) == Some(
                    MenuCommand::SwitchIme { mode: target },
                )
                &&& menu_for(mode, input)[i]->checked == (mode == target)
            },
        menu_for(mode, input).len() == 5 + (if input.half_katakana_mode_enabled {
            1int
        } else {
            0
        }) + (if input.full_alphanumeric_mode_enabled {
            1int
        } else {
            0
        }),
        ({
            let menu = menu_for(mode, input);
            let n = menu.len();
            &&& menu[n - 3] is Separator
            &&& menu[n - 2] is Entry && command_of(menu[n - 2]->id) == Some(
                MenuCommand::OpenSettings,
            )
            &&& menu[n - 1] is Entry && command_of(menu[n - 1]->id) == Some(
                MenuCommand::RestartEngine,
            )
        }),
{
    let menu = menu_for(mode, input);
    let at: int = match target {
        ImeMode::On => 0,
        ImeMode::Off => 1,
        ImeMode::HalfKatakana => 2,
        ImeMode::FullAlphanumeric => if input.half_katakana_mode_enabled {
            3
        } else {
            2
        },
    };
    assert(menu[at] is Entry);
}

/// Each command has one number, and a number that is none of them does nothing.
pub proof fn commands_have_their_numbers(a: u32, b: u32)
    ensures
        command_of(a) is Some && command_of(a) == command_of(b) ==> a == b,
        command_of(1) == Some(MenuCommand::SwitchIme { mode: ImeMode::On }),
        command_of(2) == Some(MenuCommand::SwitchIme { mode: ImeMode::Off }),
        command_of(3) == Some(MenuCommand::SwitchIme { mode: ImeMode::HalfKatakana }),
        command_of(4) == Some(MenuCommand::SwitchIme { mode: ImeMode::FullAlphanumeric }),
        command_of(10) == Some(MenuCommand::OpenSettings),
        command_of(11) == Some(MenuCommand::RestartEngine),
        command_of(0) is None,
{
}

}
