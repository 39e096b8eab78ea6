//! Names and identifiers of the text service, and the count of its users.
use vstd::prelude::*;

verus! {

pub const CLSID_PREFIX: &'static str = "CLSID\\";

pub const INPROC_SUFFIX: &'static str = "\\InProcServer32";

pub const SERVICE_NAME: &'static str = "yurukan";

pub const GUID_TEXT_SERVICE: u128 = 0xc0ddf8b0_1f1e_4c2d_a9e3_5f7b8d6e2a4c;

pub const GUID_PROFILE: u128 = 0xc0ddf8b1_1f1e_4c2d_a9e3_5f7b8d6e2a4c;

/// The line under a candidate that is being chosen.
pub const GUID_DISPLAY_ATTRIBUTE: u128 = 0xc0ddf8b2_1f1e_4c2d_a9e3_5f7b8d6e2a4c;

/// The line under text that is being typed.
pub const GUID_DISPLAY_ATTRIBUTE_INPUT: u128 = 0xc0ddf8b3_1f1e_4c2d_a9e3_5f7b8d6e2a4c;

pub const TEXTSERVICE_LANGBARITEMSINK_COOKIE: u32 = 0x414D414B;

/// The loaded library: how many use it, and its handle.
#[derive(Clone, Copy, Debug, PartialEq, Eq, Structural)]
pub struct DllModule {
    pub ref_count: usize,
    pub hinst: Option<usize>,
}

impl DllModule {
    pub fn new() -> (r: Self)
        ensures
            r.ref_count == 0,
            r.hinst is None,
    {
        DllModule { ref_count: 0, hinst: None }
    }

    /// Counts one user more, round to zero; gives the count before.
    pub fn add_ref(&mut self) -> (r: usize)
        ensures
            r == old(self).ref_count,
            final(self).ref_count == (if old(self).ref_count == usize::MAX {
                0
            } else {
                old(self).ref_count + 1
            }),
            final(self).hinst == old(self).hinst,
    {
        let before: usize = self.ref_count;
        self.ref_count = if before == usize::MAX {
            0
        } else {
            before + 1
        };
        before
    }

    /// Counts one user less, round from zero; gives the count before.
    pub fn release(&mut self) -> (r: usize)
        ensures
            r == old(self).ref_count,
            final(self).ref_count == (if old(self).ref_count == 0 {
                usize::MAX as int
            } else {
                old(self).ref_count - 1
            }),
            final(self).hinst == old(self).hinst,
    {
        let before: usize = self.ref_count;
        self.ref_count = if before == 0 {
            usize::MAX
        } else {
            before - 1
        };
        before
    }
}

}
