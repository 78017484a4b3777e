//! Messages of the windowing substrate and the word-packing helpers used by
//! message parameter structs.

use vstd::prelude::*;
use crate::handle::Hwnd;

verus! {

/// A window message: an identifier and its two parameter fields.
#[derive(Clone, Copy, Debug, PartialEq, Eq, Structural)]
pub struct WndMsg {
    pub msg_id: u32,
    pub wparam: usize,
    pub lparam: isize,
}

/// A queue-level message: a target window plus the message itself.
#[derive(Clone, Copy, Debug, PartialEq, Eq, Structural)]
pub struct Msg {
    pub hwnd: Hwnd,
    pub wm: WndMsg,
}

/// Sent once when a raw window is being created.
pub const WM_CREATE: u32 = 0x0001;

/// Sent when a window's client size has changed.
pub const WM_SIZE: u32 = 0x0005;

/// Sent once when a dialog is being initialized.
pub const WM_INITDIALOG: u32 = 0x0110;

/// First message id available for private application messages.
pub const WM_APP: u32 = 0x8000;

/// The reserved message id permanently owned by this engine for cross-thread
/// payload delivery; it must not be reused elsewhere. Its wparam carries the
/// self-tag (the id itself) and its lparam the payload reference.
pub const WM_UI_THREAD: u32 = WM_APP + 0x3fff;

/// Low word of a 32-bit value.
#[allow(non_snake_case)]
pub fn LOWORD(v: u32) -> (r: u16)
    ensures
        r == v % 0x10000,
{
    proof {
        assert(v & 0xffff == v % 0x10000 && v & 0xffff <= 0xffff) by (bit_vector);
    }
    (v & 0xffff) as u16
}

/// High word of a 32-bit value.
#[allow(non_snake_case)]
pub fn HIWORD(v: u32) -> (r: u16)
    ensures
        r == v / 0x10000,
{
    proof {
        assert(v >> 16 == v / 0x10000 && v >> 16 <= 0xffff) by (bit_vector);
    }
    (v >> 16) as u16
}

/// The packed value [`MAKEDWORD`] builds, low word first.
pub open spec fn spec_make_dword(lo: u16, hi: u16) -> u32 {
    (lo + hi * 0x10000) as u32
}

/// Packs two 16-bit words into a 32-bit value, low word first.
#[allow(non_snake_case)]
pub fn MAKEDWORD(lo: u16, hi: u16) -> (r: u32)
    ensures
        r == lo + hi * 0x10000,
        r == spec_make_dword(lo, hi),
{
    let l: u32 = lo as u32;
    let h: u32 = hi as u32;
    proof {
        assert(l < 0x10000 && h < 0x10000 ==> (l | (h << 16)) == l + h * 0x10000u32)
            by (bit_vector);
    }
    l | (h << 16)
}

/// Encodes a payload slot key as an LPARAM field, for message structs.
pub fn ref_to_lparam(slot: usize) -> (r: isize)
    requires
        slot <= 0x7fff_ffff,
    ensures
        r == slot as isize,
        0 <= r <= 0x7fff_ffff,
{
    slot as isize
}

} // verus!
