//! Switching the mode everywhere at once.
//!
//! The mode kept here is the true one; what applications and the language bar see
//! is derived from it, so that the two never differ.
use vstd::prelude::*;
use crate::config::InputConfig;
use crate::doc_mode::{IMEState, ModeStore};
use crate::ime_mode::{ImeMode, ModeCell};
use crate::readiness::{Readiness, langbar_update_set};

verus! {

/// What follows a switch.
#[derive(Clone, Copy, Debug, PartialEq, Eq, Structural)]
pub struct ApplyPlan {
    /// The mode before; nothing where the state was in use.
    pub from: Option<ImeMode>,
    /// The mode that is in force now, and published.
    pub mode: ImeMode,
    /// Whether and as what the open state is written for applications.
    pub write_open: Option<bool>,
    /// The mode has changed.
    pub changed: bool,
}

/// The mode that is entered for a wanted one: plain on where the settings do not
/// allow it.
pub open spec fn permitted(wanted: ImeMode, input: InputConfig) -> ImeMode {
    if wanted.allowed_by(input) {
        wanted
    } else {
        ImeMode::On
    }
}

/// Switches to a mode. Where the state is in use (`state_free` is not set), all
/// else is still brought in line. `write_compartment` is not set where the open state was
/// written by someone else and is only taken over.
pub fn apply(
    state: &mut IMEState,
    state_free: bool,
    cell: &mut ModeCell,
    store: &mut ModeStore,
    readiness: &mut Readiness,
    input: &InputConfig,
    dm: usize,
    hwnd: usize,
    new: ImeMode,
    write_compartment: bool,
    has_thread_mgr: bool,
) -> (r: ApplyPlan)
    ensures
        r.mode == permitted(new, *input),
        r.write_open == (if write_compartment && has_thread_mgr {
            Some(r.mode.on())
        } else {
            None
        }),
        *final(readiness) == (Readiness { langbar_pending: true, ..*old(readiness) }),
        r.from == (if state_free {
            Some(old(state).ime_mode)
        } else {
            None
        }),
        r.changed == (state_free && old(state).ime_mode != r.mode),
        final(state).ime_mode == (if state_free {
            r.mode
        } else {
            old(state).ime_mode
        }),
        r.changed ==> final(cell).mode() == r.mode && final(store)@ == old(store)@.after_remember(
            dm,
            hwnd,
            r.mode,
        ),
        !r.changed ==> *final(cell) == *old(cell) && final(store)@ == old(store)@,
        old(cell).mode() == old(state).ime_mode ==> final(cell).mode() == final(state).ime_mode,
{
    let mode = if new.allowed(input) {
        new
    } else {
        ImeMode::On
    };
    let mut from: Option<ImeMode> = None;
    let mut changed = false;
    if state_free {
        from = Some(state.ime_mode);
        if state.ime_mode != mode {
            state.set_ime_mode(cell, store, dm, hwnd, mode);
            changed = true;
        }
    }
    langbar_update_set(readiness);
    let write_open = if write_compartment && has_thread_mgr {
        Some(mode.is_on())
    } else {
        None
    };
    ApplyPlan { from, mode, write_open, changed }
}

/// A mode that the settings do not allow is never entered.
pub proof fn disallowed_modes_are_never_entered(wanted: ImeMode, input: InputConfig)
    ensures
        permitted(wanted, input).allowed_by(input),
        wanted.allowed_by(input) ==> permitted(wanted, input) == wanted,
        permitted(permitted(wanted, input), input) == permitted(wanted, input),
{
}

/// The window that a document is shown in: the top one of those that hold the
/// focused one, where the system tells it.
pub fn foreground_root_hwnd(focused: usize, root: usize) -> (r: usize)
    ensures
        r == (if focused == 0 || root == 0 {
            focused
        } else {
            root
        }),
{
    if focused == 0 {
        return 0;
    }
    if root == 0 {
        focused
    } else {
        root
    }
}

/// Whether a change of focus is taken up: not where it stays in one document.
pub fn on_set_focus(prev_dm: usize, next_dm: usize) -> (r: bool)
    ensures
        r == (prev_dm != next_dm),
{
    prev_dm != next_dm
}

/// A mode that the settings do not allow is replaced by plain on, so that the
/// keyboard stays open; plain on and off are always as wanted.
pub proof fn disallowed_modes_become_plain_on(wanted: ImeMode, input: InputConfig)
    ensures
        !wanted.allowed_by(input) ==> permitted(wanted, input) == ImeMode::On,
        permitted(wanted, input).on() == wanted.on(),
        !wanted.direct() ==> permitted(wanted, input) == wanted,
{
}

}
