//! The text that is being composed in the document, and who owns it.
use vstd::prelude::*;
use crate::doc_mode::{ModeStore, doc_mode_remove};

verus! {

/// A composition in progress and the document manager that it belongs to. One
/// that went stale with its document is kept until it can be dropped safely,
/// but never handed out again.
pub struct CompositionWrapper<C> {
    pub comp: Option<C>,
    pub dm_ptr: usize,
    pub stale: bool,
}

impl<C> CompositionWrapper<C> {
    pub open spec fn is_empty(self) -> bool {
        self.comp is None && self.dm_ptr == 0 && !self.stale
    }

    /// What callers may use.
    pub open spec fn usable(self) -> Option<C> {
        if self.stale {
            None
        } else {
            self.comp
        }
    }

    /// A composition goes stale with its document manager.
    pub open spec fn invalidated(self, dm_ptr: usize) -> Self {
        if dm_ptr != 0 && self.comp is Some && self.dm_ptr == dm_ptr {
            CompositionWrapper { stale: true, ..self }
        } else {
            self
        }
    }

    pub fn new() -> (r: Self)
        ensures
            r.is_empty(),
    {
        CompositionWrapper { comp: None, dm_ptr: 0, stale: false }
    }
}

pub fn composition_set<C>(slot: &mut CompositionWrapper<C>, comp: Option<C>) -> (starting: bool)
    ensures
        starting == comp is Some,
        *final(slot) == (CompositionWrapper { comp, dm_ptr: 0, stale: false }),
{
    composition_set_with_dm(slot, comp, 0)
}

/// Puts a composition in place. Tells whether a new one starts: previews made for
/// an earlier composition are then out of date.
pub fn composition_set_with_dm<C>(
    slot: &mut CompositionWrapper<C>,
    comp: Option<C>,
    dm_ptr: usize,
) -> (starting: bool)
    ensures
        starting == comp is Some,
        *final(slot) == (CompositionWrapper {
            comp,
            dm_ptr: if comp is Some {
                dm_ptr
            } else {
                0
            },
            stale: false,
        }),
{
    let starting = comp.is_some();
    slot.comp = comp;
    slot.dm_ptr = if starting {
        dm_ptr
    } else {
        0
    };
    slot.stale = false;
    starting
}

pub fn composition_take<C>(slot: &mut CompositionWrapper<C>) -> (r: Option<C>)
    ensures
        r == old(slot).usable(),
        final(slot).is_empty(),
{
    let comp = slot.comp.take();
    slot.dm_ptr = 0;
    if slot.stale {
        slot.stale = false;
        return None;
    }
    comp
}

pub fn composition_clone<C: Clone>(slot: &CompositionWrapper<C>) -> (r: Option<C>)
    ensures
        match slot.usable() {
            Some(c) => r is Some && cloned(c, r->0),
            None => r is None,
        },
{
    if slot.stale {
        return None;
    }
    match &slot.comp {
        Some(c) => Some(c.clone()),
        None => None,
    }
}

/// The document manager goes away: a composition in it goes stale.
pub fn invalidate_composition_for_dm<C>(slot: &mut CompositionWrapper<C>, dm_ptr: usize)
    ensures
        *final(slot) == old(slot).invalidated(dm_ptr),
{
    if dm_ptr == 0 {
        return;
    }
    if slot.comp.is_some() && slot.dm_ptr == dm_ptr {
        slot.stale = true;
    }
}

/// Clears away what belongs to a document manager that goes away, in this order: its
/// mode moves to its window, `invalidate_live_context` drops what is being converted
/// live for it, and its composition goes stale.
pub fn dispose_dm_resources<C, F: FnOnce(usize)>(
    store: &mut ModeStore,
    slot: &mut CompositionWrapper<C>,
    dm_ptr: usize,
    invalidate_live_context: F,
)
    requires
        invalidate_live_context.requires((dm_ptr,)),
    ensures
        final(store)@ == old(store)@.after_remove(dm_ptr),
        *final(slot) == old(slot).invalidated(dm_ptr),
        invalidate_live_context.ensures((dm_ptr,), ()),
{
    doc_mode_remove(store, dm_ptr);
    invalidate_live_context(dm_ptr);
    invalidate_composition_for_dm(slot, dm_ptr);
}

/// A composition is never handed out after its document manager went away, and
/// other documents that go away do not disturb it.
pub proof fn stale_compositions_are_never_handed_out<C>(
    slot: CompositionWrapper<C>,
    dm_ptr: usize,
    later: usize,
)
    ensures
        dm_ptr != 0 && slot.dm_ptr == dm_ptr ==> slot.invalidated(dm_ptr).usable() is None,
        dm_ptr != 0 && slot.dm_ptr == dm_ptr ==> slot.invalidated(dm_ptr).invalidated(
            later,
        ).usable() is None,
        slot.dm_ptr != dm_ptr ==> slot.invalidated(dm_ptr).usable() == slot.usable(),
{
}

/// A composition that is in place is handed out until its own document goes away,
/// and is kept, stale, from then on.
pub proof fn compositions_are_handed_out_while_fresh<C>(
    comp: C,
    dm_ptr: usize,
    gone: usize,
)
    ensures
        ({
            let slot = CompositionWrapper { comp: Some(comp), dm_ptr, stale: false };
            &&& slot.usable() == Some(comp)
            &&& gone == 0 || gone != dm_ptr ==> slot.invalidated(gone) == slot
            &&& gone != 0 && gone == dm_ptr ==> slot.invalidated(gone).usable() is None
                && slot.invalidated(gone).comp == Some(comp)
        }),
{
}

/// An empty slot stays empty whatever goes away.
pub proof fn empty_slots_stay_empty<C>(slot: CompositionWrapper<C>, gone: usize)
    requires
        slot.is_empty(),
    ensures
        slot.invalidated(gone) == slot,
        slot.usable() is None,
        slot.dm_ptr == 0,
{
}

}
