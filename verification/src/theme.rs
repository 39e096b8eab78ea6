//! Light and dark colours. Windows keeps one setting for applications and one for
//! the taskbar.
use vstd::prelude::*;
use vstd::string::*;

verus! {

#[derive(Clone, Copy, Debug, PartialEq, Eq, Structural)]
pub enum Surface {
    App,
    Taskbar,
}

impl Surface {
    pub open spec fn setting(self) -> Seq<char> {
        match self {
            Surface::App => "AppsUseLightTheme"@,
            Surface::Taskbar => "SystemUsesLightTheme"@,
        }
    }

    /// The name of the setting.
    pub fn value_name(self) -> (r: &'static str)
        ensures
            r@ == self.setting(),
    {
        match self {
            Surface::App => "AppsUseLightTheme",
            Surface::Taskbar => "SystemUsesLightTheme",
        }
    }

    /// Applications are light where nothing is set, the taskbar is dark.
    pub fn default_light(self) -> (r: bool)
        ensures
            r == (self is App),
    {
        match self {
            Surface::App => true,
            Surface::Taskbar => false,
        }
    }
}

/// A setting as the registry gives it.
#[derive(Clone, Copy, Debug, PartialEq, Eq, Structural)]
pub struct RegistryValue {
    /// It is a number of four bytes.
    pub is_dword: bool,
    pub size: u32,
    pub data: u32,
}

/// Whether a surface is light. Settings that are missing or of another kind do not
/// count.
pub fn is_light(surface: Surface, value: Option<RegistryValue>) -> (r: bool)
    ensures
        r == (match value {
            Some(v) if v.is_dword && v.size == 4 => v.data != 0,
            _ => surface is App,
        }),
{
    match value {
        Some(v) => if v.is_dword && v.size == 4 {
            v.data != 0
        } else {
            surface.default_light()
        },
        None => surface.default_light(),
    }
}

/// Whether the mode icon is drawn for a light taskbar; dark where that is unknown.
pub fn is_light_mode(value: Option<u32>) -> (r: bool)
    ensures
        r == (value is Some && value->0 != 0),
{
    match value {
        Some(v) => v != 0,
        None => false,
    }
}

/// The colours of the candidate window, each as blue, green and red.
#[derive(Clone, Copy, Debug, PartialEq, Eq, Structural)]
pub struct Palette {
    pub background: u32,
    pub foreground: u32,
    pub selected_background: u32,
    pub selected_foreground: u32,
    pub secondary: u32,
    pub pager_background: u32,
    pub status_background: u32,
}

pub fn palette(light: bool) -> (r: Palette)
    ensures
        light ==> r == (Palette {
            background: 0xffffff,
            foreground: 0x202020,
            selected_background: 0xb44e20,
            selected_foreground: 0xffffff,
            secondary: 0x606060,
            pager_background: 0xf0f0f0,
            status_background: 0xf8f8f8,
        }),
        !light ==> r == (Palette {
            background: 0x202020,
            foreground: 0xf3f3f3,
            selected_background: 0xffc480,
            selected_foreground: 0x101010,
            secondary: 0xb8b8b8,
            pager_background: 0x292929,
            status_background: 0x272727,
        }),
{
    if light {
        Palette {
            background: 0xffffff,
            foreground: 0x202020,
            selected_background: 0xb44e20,
            selected_foreground: 0xffffff,
            secondary: 0x606060,
            pager_background: 0xf0f0f0,
            status_background: 0xf8f8f8,
        }
    } else {
        Palette {
            background: 0x202020,
            foreground: 0xf3f3f3,
            selected_background: 0xffc480,
            selected_foreground: 0x101010,
            secondary: 0xb8b8b8,
            pager_background: 0x292929,
            status_background: 0x272727,
        }
    }
}

/// Takes in the taskbar's theme; tells whether it has changed, so that the icon is
/// drawn anew.
pub fn observe_theme(last_light: &mut bool, light: bool) -> (r: bool)
    ensures
        r == (*old(last_light) != light),
        *final(last_light) == light,
{
    let changed = *last_light != light;
    *last_light = light;
    changed
}

/// Applications and the taskbar have settings of their own.
pub proof fn surfaces_have_their_own_settings(a: Surface, b: Surface)
    ensures
        a.setting() == b.setting() <==> a == b,
        Surface::App.setting().len() > 0 && Surface::App.setting()[0] == 'A',
        Surface::Taskbar.setting().len() > 0 && Surface::Taskbar.setting()[0] == 'S',
{
    reveal_strlit("AppsUseLightTheme");
    reveal_strlit("SystemUsesLightTheme");
    if a != b {
        assert(a.setting()[0] != b.setting()[0]);
    }
}

}
