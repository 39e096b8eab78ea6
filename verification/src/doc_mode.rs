//! The input mode of each document, remembered across focus changes.
//!
//! A document is known by its document manager and by the window that shows it.
//! Browsers make a new document manager for each page, so the window's mode
//! stands in for a document manager that has not been seen before.
use vstd::prelude::*;
use vstd::std_specs::hash::*;
use vstd::string::*;
use std::collections::HashMap;
use crate::config::{DefaultImeMode, InputConfig};
use crate::ime_mode::{ImeMode, ModeCell, ime_mode_set_atomic};
use crate::text::str_eq;

verus! {

broadcast use group_hash_axioms;

/// Remembered modes. Zero stands for no document manager and no window.
pub struct ModeStore {
    pub dm_modes: HashMap<usize, ImeMode>,
    pub hwnd_modes: HashMap<usize, ImeMode>,
    pub dm_to_hwnd: HashMap<usize, usize>,
}

#[verifier::ext_equal]
pub struct ModeStoreModel {
    pub dm_modes: Map<usize, ImeMode>,
    pub hwnd_modes: Map<usize, ImeMode>,
    pub dm_to_hwnd: Map<usize, usize>,
}

impl View for ModeStore {
    type V = ModeStoreModel;

    open spec fn view(&self) -> ModeStoreModel {
        ModeStoreModel {
            dm_modes: self.dm_modes@,
            hwnd_modes: self.hwnd_modes@,
            dm_to_hwnd: self.dm_to_hwnd@,
        }
    }
}

impl ModeStoreModel {
    /// The window that a document manager was last seen in, zero for none.
    pub open spec fn window_of(self, dm: usize) -> usize {
        if self.dm_to_hwnd.dom().contains(dm) {
            self.dm_to_hwnd[dm]
        } else {
            0
        }
    }

    /// The document that loses the focus keeps its mode, and so does its window.
    pub open spec fn saved(self, dm: usize, mode: ImeMode) -> ModeStoreModel {
        if dm == 0 {
            self
        } else {
            ModeStoreModel {
                dm_modes: self.dm_modes.insert(dm, mode),
                hwnd_modes: if self.window_of(dm) != 0 {
                    self.hwnd_modes.insert(self.window_of(dm), mode)
                } else {
                    self.hwnd_modes
                },
                ..self
            }
        }
    }

    /// The window of the document that gets the focus is noted.
    pub open spec fn linked(self, dm: usize, hwnd: usize) -> ModeStoreModel {
        if hwnd != 0 {
            ModeStoreModel { dm_to_hwnd: self.dm_to_hwnd.insert(dm, hwnd), ..self }
        } else {
            self
        }
    }

    /// The mode to restore: that of the document, else that of its window, else
    /// the default.
    pub open spec fn restored(self, dm: usize, hwnd: usize, default: ImeMode) -> ImeMode {
        if self.dm_modes.dom().contains(dm) {
            self.dm_modes[dm]
        } else if self.hwnd_modes.dom().contains(hwnd) {
            self.hwnd_modes[hwnd]
        } else {
            default
        }
    }

    /// A document that is seen for the first time takes its mode on; so does its
    /// window, where that is seen for the first time too.
    pub open spec fn adopted(self, dm: usize, hwnd: usize, default: ImeMode) -> ModeStoreModel {
        if self.dm_modes.dom().contains(dm) {
            self
        } else if self.hwnd_modes.dom().contains(hwnd) {
            ModeStoreModel { dm_modes: self.dm_modes.insert(dm, self.hwnd_modes[hwnd]), ..self }
        } else {
            ModeStoreModel {
                dm_modes: self.dm_modes.insert(dm, default),
                hwnd_modes: if hwnd != 0 {
                    self.hwnd_modes.insert(hwnd, default)
                } else {
                    self.hwnd_modes
                },
                ..self
            }
        }
    }

    /// All of a focus change, where modes are remembered (`remember`) or not.
    pub open spec fn after_focus_change(
        self,
        remember: bool,
        current: ImeMode,
        prev_dm: usize,
        next_dm: usize,
        next_hwnd: usize,
        default: ImeMode,
    ) -> ModeStoreModel {
        let left = if remember {
            self.saved(prev_dm, current)
        } else {
            self
        };
        if next_dm == 0 {
            left
        } else if remember {
            left.linked(next_dm, next_hwnd).adopted(next_dm, next_hwnd, default)
        } else {
            left.linked(next_dm, next_hwnd)
        }
    }

    pub open spec fn after_remember(self, dm: usize, hwnd: usize, mode: ImeMode) -> ModeStoreModel {
        ModeStoreModel {
            dm_modes: if dm != 0 {
                self.dm_modes.insert(dm, mode)
            } else {
                self.dm_modes
            },
            dm_to_hwnd: if dm != 0 && hwnd != 0 {
                self.dm_to_hwnd.insert(dm, hwnd)
            } else {
                self.dm_to_hwnd
            },
            hwnd_modes: if hwnd != 0 {
                self.hwnd_modes.insert(hwnd, mode)
            } else {
                self.hwnd_modes
            },
        }
    }

    /// A document manager goes away: its mode moves to its window.
    pub open spec fn after_remove(self, dm: usize) -> ModeStoreModel {
        ModeStoreModel {
            dm_modes: self.dm_modes.remove(dm),
            dm_to_hwnd: self.dm_to_hwnd.remove(dm),
            hwnd_modes: if self.dm_modes.dom().contains(dm) && self.window_of(dm) != 0 {
                self.hwnd_modes.insert(self.window_of(dm), self.dm_modes[dm])
            } else {
                self.hwnd_modes
            },
        }
    }
}

/// The mode of a document that was never seen: terminals start switched off
/// whatever the settings say.
pub open spec fn first_mode(cfg: InputConfig, terminal: bool) -> ImeMode {
    if terminal || cfg.default_mode is Off {
        ImeMode::Off
    } else {
        ImeMode::On
    }
}

impl ModeStore {
    pub fn new() -> (r: Self)
        ensures
            r@ == (ModeStoreModel {
                dm_modes: Map::empty(),
                hwnd_modes: Map::empty(),
                dm_to_hwnd: Map::empty(),
            }),
    {
        ModeStore {
            dm_modes: HashMap::new(),
            hwnd_modes: HashMap::new(),
            dm_to_hwnd: HashMap::new(),
        }
    }
}

/// Handles the focus going from one document manager to another. `current` is the
/// mode in force, `next_is_terminal` tells whether the next window is a terminal.
/// Returns the mode that the next document is to have.
pub fn doc_mode_on_focus_change(
    store: &mut ModeStore,
    cfg: &InputConfig,
    current: ImeMode,
    prev_dm_ptr: usize,
    next_dm_ptr: usize,
    next_hwnd: usize,
    next_is_terminal: bool,
) -> (r: Option<ImeMode>)
    ensures
        final(store)@ == old(store)@.after_focus_change(
            cfg.remember_last_kana_mode,
            current,
            prev_dm_ptr,
            next_dm_ptr,
            next_hwnd,
            first_mode(*cfg, next_is_terminal),
        ),
        r == (if next_dm_ptr == 0 {
            None
        } else if cfg.remember_last_kana_mode {
            Some(
                old(store)@.saved(prev_dm_ptr, current).restored(
                    next_dm_ptr,
                    next_hwnd,
                    first_mode(*cfg, next_is_terminal),
                ),
            )
        } else {
            Some(first_mode(*cfg, next_is_terminal))
        }),
{
    let remember = cfg.remember_last_kana_mode;
    let default = if next_is_terminal {
        ImeMode::Off
    } else {
        match cfg.default_mode {
            DefaultImeMode::Off => ImeMode::Off,
            DefaultImeMode::On => ImeMode::On,
        }
    };
    if prev_dm_ptr != 0 && remember {
        let hwnd: usize = match store.dm_to_hwnd.get(&prev_dm_ptr) {
            Some(h) => *h,
            None => 0,
        };
        store.dm_modes.insert(prev_dm_ptr, current);
        if hwnd != 0 {
            store.hwnd_modes.insert(hwnd, current);
        }
    }
    if next_dm_ptr == 0 {
        return None;
    }
    if next_hwnd != 0 {
        store.dm_to_hwnd.insert(next_dm_ptr, next_hwnd);
    }
    if !remember {
        return Some(default);
    }
    let by_dm: Option<ImeMode> = match store.dm_modes.get(&next_dm_ptr) {
        Some(m) => Some(*m),
        None => None,
    };
    if let Some(saved) = by_dm {
        return Some(saved);
    }
    let by_hwnd: Option<ImeMode> = match store.hwnd_modes.get(&next_hwnd) {
        Some(m) => Some(*m),
        None => None,
    };
    if let Some(saved) = by_hwnd {
        store.dm_modes.insert(next_dm_ptr, saved);
        return Some(saved);
    }
    store.dm_modes.insert(next_dm_ptr, default);
    if next_hwnd != 0 {
        store.hwnd_modes.insert(next_hwnd, default);
    }
    Some(default)
}

/// Notes a mode change at once for the document and window in focus.
pub fn doc_mode_remember_current(store: &mut ModeStore, dm: usize, hwnd: usize, mode: ImeMode)
    ensures
        final(store)@ == old(store)@.after_remember(dm, hwnd, mode),
{
    if dm != 0 {
        store.dm_modes.insert(dm, mode);
        if hwnd != 0 {
            store.dm_to_hwnd.insert(dm, hwnd);
        }
    }
    if hwnd != 0 {
        store.hwnd_modes.insert(hwnd, mode);
    }
}

/// Forgets a document manager that goes away, but not the mode of its window.
pub fn doc_mode_remove(store: &mut ModeStore, dm_ptr: usize)
    ensures
        final(store)@ == old(store)@.after_remove(dm_ptr),
{
    let mode: Option<ImeMode> = match store.dm_modes.get(&dm_ptr) {
        Some(m) => Some(*m),
        None => None,
    };
    let hwnd: usize = match store.dm_to_hwnd.get(&dm_ptr) {
        Some(h) => *h,
        None => 0,
    };
    if let Some(m) = mode {
        if hwnd != 0 {
            store.hwnd_modes.insert(hwnd, m);
        }
    }
    store.dm_modes.remove(&dm_ptr);
    store.dm_to_hwnd.remove(&dm_ptr);
}

/// The window classes of terminals.
pub open spec fn terminal_class(name: Seq<char>) -> bool {
    name == "CASCADIA_HOSTING_WINDOW_CLASS"@ || name == "ConsoleWindowClass"@ || name
        == "VirtualConsoleClass"@ || name == "mintty"@
}

/// Whether a window with this class name is a terminal.
pub fn is_terminal_class(class_name: &str) -> (r: bool)
    ensures
        r == terminal_class(class_name@),
{
    str_eq(class_name, "CASCADIA_HOSTING_WINDOW_CLASS") || str_eq(class_name, "ConsoleWindowClass")
        || str_eq(class_name, "VirtualConsoleClass") || str_eq(class_name, "mintty")
}

/// Whether a window is a terminal, from its handle and its class name. No handle
/// is no terminal, nor is a window whose class cannot be read.
pub fn is_terminal_hwnd(hwnd_val: usize, class_name: Option<&str>) -> (r: bool)
    ensures
        r == (hwnd_val != 0 && class_name is Some && terminal_class(class_name->0@)),
{
    if hwnd_val == 0 {
        return false;
    }
    match class_name {
        Some(name) => is_terminal_class(name),
        None => false,
    }
}

/// The input mode of this process.
pub struct IMEState {
    pub ime_mode: ImeMode,
    pub cookies: HashMap<u128, u32>,
}

impl IMEState {
    pub fn new() -> (r: Self)
        ensures
            r.ime_mode == ImeMode::On,
            r.cookies@ == Map::<u128, u32>::empty(),
    {
        IMEState { ime_mode: ImeMode::On, cookies: HashMap::new() }
    }

    /// Changes the mode everywhere at once: here, in the cell that key tests read,
    /// and for the document in focus.
    pub fn set_ime_mode(
        &mut self,
        cell: &mut ModeCell,
        store: &mut ModeStore,
        dm: usize,
        hwnd: usize,
        mode: ImeMode,
    )
        ensures
            final(self).ime_mode == mode,
            final(self).cookies == old(self).cookies,
            final(cell).mode() == mode,
            final(store)@ == old(store)@.after_remember(dm, hwnd, mode),
    {
        self.ime_mode = mode;
        ime_mode_set_atomic(cell, mode);
        doc_mode_remember_current(store, dm, hwnd, mode);
    }
}

/// A document that is left and entered again has the mode that it was left with,
/// whatever was in focus in between.
pub proof fn mode_returns_with_the_focus(
    s: ModeStoreModel,
    mode: ImeMode,
    other_mode: ImeMode,
    dm: usize,
    other_dm: usize,
    hwnd: usize,
    other_hwnd: usize,
    default: ImeMode,
)
    requires
        dm != 0,
        dm != other_dm,
    ensures
        s.after_focus_change(true, mode, dm, other_dm, other_hwnd, default).saved(
            other_dm,
            other_mode,
        ).restored(dm, hwnd, default) == mode,
{
}

/// A mode change is kept for the document in focus even where the document
/// manager goes away and a new one takes its place in the same window.
pub proof fn mode_survives_a_new_document_manager(
    s: ModeStoreModel,
    mode: ImeMode,
    dm: usize,
    new_dm: usize,
    hwnd: usize,
    default: ImeMode,
)
    requires
        dm != 0,
        hwnd != 0,
        new_dm != dm,
        !s.dm_modes.dom().contains(new_dm),
    ensures
        s.after_remember(dm, hwnd, mode).after_remove(dm).restored(new_dm, hwnd, default) == mode,
{
}

/// A document that was never seen, in a window that was never seen, gets the
/// default mode, and a terminal is switched off.
pub proof fn unknown_documents_get_the_default(
    s: ModeStoreModel,
    cfg: InputConfig,
    dm: usize,
    hwnd: usize,
)
    requires
        !s.dm_modes.dom().contains(dm),
        !s.hwnd_modes.dom().contains(hwnd),
    ensures
        s.restored(dm, hwnd, first_mode(cfg, true)) == ImeMode::Off,
        cfg.default_mode is On ==> s.restored(dm, hwnd, first_mode(cfg, false)) == ImeMode::On,
        cfg.default_mode is Off ==> s.restored(dm, hwnd, first_mode(cfg, false)) == ImeMode::Off,
{
}

/// Removing a document manager leaves every other document as it was.
pub proof fn removal_touches_one_document(
    s: ModeStoreModel,
    dm: usize,
    other_dm: usize,
    hwnd: usize,
    default: ImeMode,
)
    requires
        s.dm_modes.dom().contains(other_dm),
        other_dm != dm,
    ensures
        s.after_remove(dm).restored(other_dm, hwnd, default) == s.dm_modes[other_dm],
        s.after_remove(dm).window_of(other_dm) == s.window_of(other_dm),
{
}

/// A document has its own mode where it has one, else that of its window, else the
/// default.
pub proof fn a_document_comes_before_its_window(
    s: ModeStoreModel,
    dm: usize,
    hwnd: usize,
    mode: ImeMode,
    window_mode: ImeMode,
    default: ImeMode,
)
    ensures
        (ModeStoreModel { dm_modes: s.dm_modes.insert(dm, mode), ..s }).restored(dm, hwnd, default)
            == mode,
        (ModeStoreModel {
            dm_modes: s.dm_modes.remove(dm),
            hwnd_modes: s.hwnd_modes.insert(hwnd, window_mode),
            ..s
        }).restored(dm, hwnd, default) == window_mode,
        (ModeStoreModel {
            dm_modes: s.dm_modes.remove(dm),
            hwnd_modes: s.hwnd_modes.remove(hwnd),
            ..s
        }).restored(dm, hwnd, default) == default,
{
}

/// A document that loses the focus leaves its mode with itself and with the window
/// it was shown in, and with nothing else.
pub proof fn leaving_saves_one_document(
    s: ModeStoreModel,
    dm: usize,
    mode: ImeMode,
    new_dm: usize,
    other_dm: usize,
    other_hwnd: usize,
    default: ImeMode,
)
    requires
        dm != 0,
    ensures
        ({
            let left = s.saved(dm, mode);
            let hwnd = s.window_of(dm);
            &&& left.restored(dm, other_hwnd, default) == mode
            &&& hwnd != 0 && new_dm != dm && !s.dm_modes.dom().contains(new_dm) ==> left.restored(
                new_dm,
                hwnd,
                default,
            ) == mode
            &&& other_dm != dm && other_hwnd != hwnd ==> left.restored(other_dm, other_hwnd, default)
                == s.restored(other_dm, other_hwnd, default)
            &&& left.dm_to_hwnd == s.dm_to_hwnd
            &&& s.saved(0, mode) == s
        }),
{
}

/// A document that is seen for the first time keeps the mode it is given, and so
/// does a window that is seen for the first time; a known one keeps what it has.
pub proof fn entered_documents_keep_their_first_mode(
    s: ModeStoreModel,
    dm: usize,
    hwnd: usize,
    default: ImeMode,
    later: ImeMode,
    other_dm: usize,
    other_hwnd: usize,
)
    ensures
        ({
            let after = s.adopted(dm, hwnd, default);
            &&& after.restored(dm, hwnd, later) == s.restored(dm, hwnd, default)
            &&& s.dm_modes.dom().contains(dm) ==> after == s
            &&& s.hwnd_modes.dom().contains(hwnd) ==> after.hwnd_modes == s.hwnd_modes
            &&& other_dm != dm && other_hwnd != hwnd ==> after.restored(other_dm, other_hwnd, later)
                == s.restored(other_dm, other_hwnd, later)
            &&& hwnd != 0 && other_dm != dm && !s.dm_modes.dom().contains(dm)
                && !s.dm_modes.dom().contains(other_dm) ==> after.restored(other_dm, hwnd, later)
                == s.restored(dm, hwnd, default)
            &&& after.dm_to_hwnd == s.dm_to_hwnd
        }),
{
}

/// A focus change notes the window of the document that is entered, whether or not
/// modes are remembered. Where they are not, no mode is noted; where no document is
/// entered, only the one that is left is saved.
pub proof fn focus_changes_note_the_window(
    s: ModeStoreModel,
    remember: bool,
    current: ImeMode,
    prev_dm: usize,
    next_dm: usize,
    hwnd: usize,
    default: ImeMode,
)
    ensures
        ({
            let after = s.after_focus_change(remember, current, prev_dm, next_dm, hwnd, default);
            &&& next_dm != 0 && hwnd != 0 ==> after.window_of(next_dm) == hwnd
            &&& next_dm != 0 && hwnd == 0 ==> after.window_of(next_dm) == s.window_of(next_dm)
            &&& !remember ==> after.dm_modes == s.dm_modes && after.hwnd_modes == s.hwnd_modes
            &&& next_dm == 0 && remember ==> after == s.saved(prev_dm, current)
            &&& remember && prev_dm != 0 ==> after.dm_modes.dom().contains(prev_dm)
                && after.dm_modes[prev_dm] == current
            &&& remember && next_dm != 0 ==> after.dm_modes.dom().contains(next_dm)
                && after.dm_modes[next_dm] == s.saved(prev_dm, current).restored(
                next_dm,
                hwnd,
                default,
            )
        }),
{
}

/// A mode that is switched to is noted at once for the document and its window, and
/// for no other.
pub proof fn switched_modes_are_noted_at_once(
    s: ModeStoreModel,
    dm: usize,
    hwnd: usize,
    mode: ImeMode,
    other_dm: usize,
    other_hwnd: usize,
    default: ImeMode,
)
    ensures
        ({
            let after = s.after_remember(dm, hwnd, mode);
            &&& dm != 0 ==> after.restored(dm, other_hwnd, default) == mode
            &&& dm != 0 && hwnd != 0 ==> after.window_of(dm) == hwnd
            &&& hwnd != 0 && other_dm != dm && !s.dm_modes.dom().contains(other_dm)
                ==> after.restored(other_dm, hwnd, default) == mode
            &&& other_dm != dm && other_hwnd != hwnd ==> after.restored(other_dm, other_hwnd, default)
                == s.restored(other_dm, other_hwnd, default)
            &&& other_dm != dm ==> after.window_of(other_dm) == s.window_of(other_dm)
            &&& dm == 0 && hwnd == 0 ==> after == s
        }),
{
}

/// A document manager that goes away is forgotten, but the mode of its document
/// stays with its window.
pub proof fn removed_documents_leave_their_mode_behind(
    s: ModeStoreModel,
    dm: usize,
    new_dm: usize,
    hwnd: usize,
    default: ImeMode,
)
    ensures
        ({
            let after = s.after_remove(dm);
            &&& !after.dm_modes.dom().contains(dm)
            &&& after.window_of(dm) == 0
            &&& s.window_of(dm) != 0 && s.dm_modes.dom().contains(dm) && (new_dm == dm
                || !s.dm_modes.dom().contains(new_dm)) ==> after.restored(
                new_dm,
                s.window_of(dm),
                default,
            ) == s.dm_modes[dm]
            &&& hwnd != s.window_of(dm) && s.hwnd_modes.dom().contains(hwnd)
                ==> after.hwnd_modes.dom().contains(hwnd) && after.hwnd_modes[hwnd]
                == s.hwnd_modes[hwnd]
        }),
{
}

/// Terminals are known by the four class names that they use, and no other window
/// is one.
pub proof fn terminals_have_four_classes(name: Seq<char>)
    ensures
        terminal_class(name) <==> seq![
            "ConsoleWindowClass"@,
            "CASCADIA_HOSTING_WINDOW_CLASS"@,
            "mintty"@,
            "VirtualConsoleClass"@,
        ].contains(name),
{
    let all = seq![
        "ConsoleWindowClass"@,
        "CASCADIA_HOSTING_WINDOW_CLASS"@,
        "mintty"@,
        "VirtualConsoleClass"@,
    ];
    assert(all[0] == "ConsoleWindowClass"@);
    assert(all[1] == "CASCADIA_HOSTING_WINDOW_CLASS"@);
    assert(all[2] == "mintty"@);
    assert(all[3] == "VirtualConsoleClass"@);
}

}
