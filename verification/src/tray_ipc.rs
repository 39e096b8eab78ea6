//! The input mode as one number, shared with the program in the notification area.
//!
//! The upper half is the process that the mode belongs to; bit eight is set while
//! the input method is on.
use vstd::prelude::*;
use vstd::string::*;
use crate::ime_mode::ImeMode;

verus! {

pub const MAP_NAME: &'static str = "Local\\rakukan.mode.v2";

pub const EVT_NAME: &'static str = "Local\\rakukan.mode.v2.changed";

/// The number for a process and whether the input method is on.
pub open spec fn encoded(pid: u32, on: bool) -> int {
    pid * 0x1_0000_0000 + (if on {
        0x100int
    } else {
        0
    })
}

/// The process that a number belongs to.
pub open spec fn owner(value: u64) -> u32 {
    (value / 0x1_0000_0000) as u32
}

/// Whether a number says that the input method is on.
pub open spec fn says_on(value: u64) -> bool {
    (value / 0x100) % 2 == 1
}

pub fn encode(pid: u32, mode: ImeMode) -> (r: u64)
    ensures
        r == encoded(pid, mode.on()),
{
    let on: u64 = if mode.is_on() {
        0x100
    } else {
        0
    };
    pid as u64 * 0x1_0000_0000 + on
}

/// The number to publish. Only the process in the foreground publishes: others
/// would overwrite its mode.
pub fn publish(foreground_pid: u32, own_pid: u32, mode: ImeMode) -> (r: Option<u64>)
    ensures
        r is Some == (foreground_pid == own_pid),
        r is Some ==> r->0 == encoded(own_pid, mode.on()),
{
    if foreground_pid != own_pid {
        return None;
    }
    Some(encode(own_pid, mode))
}

/// Whether a process that ends its service takes back what is published: only
/// what it has published itself.
pub fn clear(current: u64, own_pid: u32) -> (r: bool)
    ensures
        r == (owner(current) == own_pid),
{
    (current / 0x1_0000_0000) as u32 == own_pid
}

/// What is published can be read again.
pub proof fn published_modes_read_back(pid: u32, on: bool)
    ensures
        0 <= encoded(pid, on) <= u64::MAX,
        owner(encoded(pid, on) as u64) == pid,
        says_on(encoded(pid, on) as u64) == on,
{
    let v = encoded(pid, on);
    assert(v / 0x1_0000_0000 == pid);
    assert((v / 0x100) % 2 == (if on {
        1int
    } else {
        0
    }));
}

/// The number is that of the process, four bytes up, and bit eight for on; the other
/// bits stay clear.
pub proof fn the_number_is_process_and_bit(pid: u32, other: u32)
    ensures
        encoded(pid, false) == 4294967296 * pid,
        encoded(pid, true) == 4294967296 * pid + 256,
        owner((4294967296 * pid + other) as u64) == pid,
        other < 256 ==> !says_on((4294967296 * pid + other) as u64),
        256 <= other < 512 ==> says_on((4294967296 * pid + other) as u64),
{
    let v = (4294967296 * pid + other) as u64;
    assert(v / 0x1_0000_0000 == pid);
    assert((v / 0x100) % 2 == (other / 0x100) % 2);
}

}
