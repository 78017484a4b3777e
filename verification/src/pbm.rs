//! Progress-bar message parameter structs.
//!
//! Each struct packs its typed parameters into a generic [`WndMsg`] for
//! sending, and converts the raw result of the send back into its typed
//! return value, mirroring the substrate's wire conventions.

use vstd::prelude::*;
use crate::error::{SysError, ERROR_BAD_ARGUMENTS};
use crate::msg::{spec_make_dword, MAKEDWORD, WndMsg};

verus! {

/// First message id of the private control ranges.
pub const WM_USER: u32 = 0x0400;

pub const PBM_SETRANGE: u32 = WM_USER + 1;

pub const PBM_SETPOS: u32 = WM_USER + 2;

pub const PBM_DELTAPOS: u32 = WM_USER + 3;

pub const PBM_SETSTEP: u32 = WM_USER + 4;

pub const PBM_STEPIT: u32 = WM_USER + 5;

pub const PBM_SETRANGE32: u32 = WM_USER + 6;

pub const PBM_GETRANGE: u32 = WM_USER + 7;

pub const PBM_GETPOS: u32 = WM_USER + 8;

pub const PBM_SETBARCOLOR: u32 = WM_USER + 9;

pub const PBM_SETMARQUEE: u32 = WM_USER + 10;

pub const PBM_GETSTEP: u32 = WM_USER + 13;

pub const PBM_GETBKCOLOR: u32 = WM_USER + 14;

pub const PBM_GETBARCOLOR: u32 = WM_USER + 15;

pub const PBM_SETSTATE: u32 = WM_USER + 16;

pub const PBM_GETSTATE: u32 = WM_USER + 17;

/// The common-control shared id the progress bar reuses for its background
/// color.
pub const PBM_SETBKCOLOR: u32 = 0x2001;

/// A color reported or set as "use the default".
pub const CLR_DEFAULT: u32 = 0xFF00_0000;

/// Progress-bar state: normal (green).
pub const PBST_NORMAL: u32 = 1;

/// Progress-bar state: error (red).
pub const PBST_ERROR: u32 = 2;

/// Progress-bar state: paused (yellow).
pub const PBST_PAUSED: u32 = 3;

/// An RGB color value as the substrate carries it.
#[derive(Clone, Copy, Debug, PartialEq, Eq, Structural)]
pub struct ColorRef {
    pub raw: u32,
}

/// The typed color a color-message result stands for: the default-color
/// sentinel becomes nothing.
pub open spec fn spec_color_ret(v: isize) -> Option<ColorRef> {
    if v as u32 == CLR_DEFAULT {
        None
    } else {
        Some(ColorRef { raw: v as u32 })
    }
}

/// Converts a raw color result; shared by the four color messages.
fn color_ret(v: isize) -> (r: Option<ColorRef>)
    ensures
        r == spec_color_ret(v),
{
    let c: u32 = #[verifier::truncate] (v as u32);
    if c == CLR_DEFAULT {
        None
    } else {
        Some(ColorRef { raw: c })
    }
}

/// Advances the position by an amount. Return: the prior position.
#[derive(Clone, Copy, Debug, PartialEq, Eq, Structural)]
pub struct DeltaPos {
    pub advance_amount: u32,
}

impl DeltaPos {
    pub fn convert_ret(&self, v: isize) -> (r: u32)
        ensures
            r == v as u32,
    {
        #[verifier::truncate] (v as u32)
    }

    pub fn as_generic_wm(&self) -> (r: WndMsg)
        ensures
            r == (WndMsg {
                msg_id: PBM_DELTAPOS,
                wparam: self.advance_amount as usize,
                lparam: 0,
            }),
    {
        WndMsg { msg_id: PBM_DELTAPOS, wparam: self.advance_amount as usize, lparam: 0 }
    }
}

/// Retrieves the bar color. Return: the color, or nothing for the default.
#[derive(Clone, Copy, Debug, PartialEq, Eq, Structural)]
pub struct GetBarColor {}

impl GetBarColor {
    pub fn convert_ret(&self, v: isize) -> (r: Option<ColorRef>)
        ensures
            r == spec_color_ret(v),
    {
        color_ret(v)
    }

    pub fn as_generic_wm(&self) -> (r: WndMsg)
        ensures
            r == (WndMsg { msg_id: PBM_GETBARCOLOR, wparam: 0, lparam: 0 }),
    {
        WndMsg { msg_id: PBM_GETBARCOLOR, wparam: 0, lparam: 0 }
    }
}

/// Retrieves the background color. Return: the color, or nothing for the
/// default.
#[derive(Clone, Copy, Debug, PartialEq, Eq, Structural)]
pub struct GetBkColor {}

impl GetBkColor {
    pub fn convert_ret(&self, v: isize) -> (r: Option<ColorRef>)
        ensures
            r == spec_color_ret(v),
    {
        color_ret(v)
    }

    pub fn as_generic_wm(&self) -> (r: WndMsg)
        ensures
            r == (WndMsg { msg_id: PBM_GETBKCOLOR, wparam: 0, lparam: 0 }),
    {
        WndMsg { msg_id: PBM_GETBKCOLOR, wparam: 0, lparam: 0 }
    }
}

/// Retrieves the current position.
#[derive(Clone, Copy, Debug, PartialEq, Eq, Structural)]
pub struct GetPos {}

impl GetPos {
    pub fn convert_ret(&self, v: isize) -> (r: u32)
        ensures
            r == v as u32,
    {
        #[verifier::truncate] (v as u32)
    }

    pub fn as_generic_wm(&self) -> (r: WndMsg)
        ensures
            r == (WndMsg { msg_id: PBM_GETPOS, wparam: 0, lparam: 0 }),
    {
        WndMsg { msg_id: PBM_GETPOS, wparam: 0, lparam: 0 }
    }
}

/// Retrieves a range limit. `ranges`, when given, is an LPARAM-encoded
/// reference to a range out-buffer the substrate fills. Return: the low or
/// the high limit, per `return_low`.
#[derive(Clone, Copy, Debug, PartialEq, Eq, Structural)]
pub struct GetRange {
    pub return_low: bool,
    pub ranges: Option<isize>,
}

impl GetRange {
    pub fn convert_ret(&self, v: isize) -> (r: i32)
        ensures
            r == v as i32,
    {
        #[verifier::truncate] (v as i32)
    }

    pub fn as_generic_wm(&self) -> (r: WndMsg)
        ensures
            r == (WndMsg {
                msg_id: PBM_GETRANGE,
                wparam: if self.return_low {
                    1
                } else {
                    0
                },
                lparam: match self.ranges {
                    Some(enc) => enc,
                    None => 0,
                },
            }),
    {
        WndMsg {
            msg_id: PBM_GETRANGE,
            wparam: if self.return_low {
                1
            } else {
                0
            },
            lparam: match self.ranges {
                Some(enc) => enc,
                None => 0,
            },
        }
    }
}

/// Retrieves the state.
#[derive(Clone, Copy, Debug, PartialEq, Eq, Structural)]
pub struct GetState {}

impl GetState {
    pub fn convert_ret(&self, v: isize) -> (r: u32)
        ensures
            r == v as u32,
    {
        #[verifier::truncate] (v as u32)
    }

    pub fn as_generic_wm(&self) -> (r: WndMsg)
        ensures
            r == (WndMsg { msg_id: PBM_GETSTATE, wparam: 0, lparam: 0 }),
    {
        WndMsg { msg_id: PBM_GETSTATE, wparam: 0, lparam: 0 }
    }
}

/// Retrieves the step increment.
#[derive(Clone, Copy, Debug, PartialEq, Eq, Structural)]
pub struct GetStep {}

impl GetStep {
    pub fn convert_ret(&self, v: isize) -> (r: u32)
        ensures
            r == v as u32,
    {
        #[verifier::truncate] (v as u32)
    }

    pub fn as_generic_wm(&self) -> (r: WndMsg)
        ensures
            r == (WndMsg { msg_id: PBM_SETSTEP, wparam: 0, lparam: 0 }),
    {
        WndMsg { msg_id: PBM_SETSTEP, wparam: 0, lparam: 0 }
    }
}

/// Sets the bar color; nothing means the default. Return: the prior color,
/// or nothing for the default.
#[derive(Clone, Copy, Debug, PartialEq, Eq, Structural)]
pub struct SetBarColor {
    pub color: Option<ColorRef>,
}

impl SetBarColor {
    pub fn convert_ret(&self, v: isize) -> (r: Option<ColorRef>)
        ensures
            r == spec_color_ret(v),
    {
        color_ret(v)
    }

    pub fn as_generic_wm(&self) -> (r: WndMsg)
        ensures
            r == (WndMsg {
                msg_id: PBM_SETBARCOLOR,
                wparam: match self.color {
                    Some(c) => c.raw as usize,
                    None => CLR_DEFAULT as usize,
                },
                lparam: 0,
            }),
    {
        WndMsg {
            msg_id: PBM_SETBARCOLOR,
            wparam: match self.color {
                Some(c) => c.raw as usize,
                None => CLR_DEFAULT as usize,
            },
            lparam: 0,
        }
    }
}

/// Sets the background color; nothing means the default. Return: the prior
/// color, or nothing for the default.
#[derive(Clone, Copy, Debug, PartialEq, Eq, Structural)]
pub struct SetBkColor {
    pub color: Option<ColorRef>,
}

impl SetBkColor {
    pub fn convert_ret(&self, v: isize) -> (r: Option<ColorRef>)
        ensures
            r == spec_color_ret(v),
    {
        color_ret(v)
    }

    pub fn as_generic_wm(&self) -> (r: WndMsg)
        ensures
            r == (WndMsg {
                msg_id: PBM_SETBKCOLOR,
                wparam: match self.color {
                    Some(c) => c.raw as usize,
                    None => CLR_DEFAULT as usize,
                },
                lparam: 0,
            }),
    {
        WndMsg {
            msg_id: PBM_SETBKCOLOR,
            wparam: match self.color {
                Some(c) => c.raw as usize,
                None => CLR_DEFAULT as usize,
            },
            lparam: 0,
        }
    }
}

/// Turns marquee mode on or off, with an optional update interval in
/// milliseconds.
#[derive(Clone, Copy, Debug, PartialEq, Eq, Structural)]
pub struct SetMarquee {
    pub turn_on: bool,
    pub time_ms: Option<u32>,
}

impl SetMarquee {
    pub fn convert_ret(&self, _v: isize)
    {
    }

    pub fn as_generic_wm(&self) -> (r: WndMsg)
        ensures
            r == (WndMsg {
                msg_id: PBM_SETMARQUEE,
                wparam: if self.turn_on {
                    1
                } else {
                    0
                },
                lparam: match self.time_ms {
                    Some(t) => t as isize,
                    None => 0,
                },
            }),
    {
        WndMsg {
            msg_id: PBM_SETMARQUEE,
            wparam: if self.turn_on {
                1
            } else {
                0
            },
            lparam: match self.time_ms {
                Some(t) => #[verifier::truncate] (t as isize),
                None => 0,
            },
        }
    }
}

/// Sets the position. Return: the prior position.
#[derive(Clone, Copy, Debug, PartialEq, Eq, Structural)]
pub struct SetPos {
    pub position: u32,
}

impl SetPos {
    pub fn convert_ret(&self, v: isize) -> (r: u32)
        ensures
            r == v as u32,
    {
        #[verifier::truncate] (v as u32)
    }

    pub fn as_generic_wm(&self) -> (r: WndMsg)
        ensures
            r == (WndMsg { msg_id: PBM_SETPOS, wparam: self.position as usize, lparam: 0 }),
    {
        WndMsg { msg_id: PBM_SETPOS, wparam: self.position as usize, lparam: 0 }
    }
}

/// Sets the 16-bit range. Return: the prior range as (low, high), or a
/// failure when the substrate reports none.
#[derive(Clone, Copy, Debug, PartialEq, Eq, Structural)]
pub struct SetRange {
    pub min: u16,
    pub max: u16,
}

impl SetRange {
    pub fn convert_ret(&self, v: isize) -> (r: Result<(u16, u16), SysError>)
        ensures
            v == 0 ==> r == Result::<(u16, u16), SysError>::Err(
                SysError { code: ERROR_BAD_ARGUMENTS },
            ),
            v != 0 ==> r == Result::<(u16, u16), SysError>::Ok(
                (((v as u32) % 0x10000) as u16, ((v as u32) / 0x10000) as u16),
            ),
    {
        if v == 0 {
            Err(SysError { code: ERROR_BAD_ARGUMENTS })
        } else {
            let w: u32 = #[verifier::truncate] (v as u32);
            proof {
                assert(w & 0xffff == w % 0x10000 && w & 0xffff <= 0xffff) by (bit_vector);
                assert(w >> 16 == w / 0x10000 && w >> 16 <= 0xffff) by (bit_vector);
            }
            Ok(((w & 0xffff) as u16, (w >> 16) as u16))
        }
    }

    pub fn as_generic_wm(&self) -> (r: WndMsg)
        ensures
            r == (WndMsg {
                msg_id: PBM_SETRANGE,
                wparam: 0,
                lparam: spec_make_dword(self.min, self.max) as isize,
            }),
    {
        let packed = MAKEDWORD(self.min, self.max);
        WndMsg {
            msg_id: PBM_SETRANGE,
            wparam: 0,
            lparam: #[verifier::truncate] (packed as isize),
        }
    }
}

/// Sets the 32-bit range.
#[derive(Clone, Copy, Debug, PartialEq, Eq, Structural)]
pub struct SetRange32 {
    pub min: u32,
    pub max: u32,
}

impl SetRange32 {
    pub fn convert_ret(&self, _v: isize)
    {
    }

    pub fn as_generic_wm(&self) -> (r: WndMsg)
        ensures
            r == (WndMsg {
                msg_id: PBM_SETRANGE32,
                wparam: self.min as usize,
                lparam: self.max as isize,
            }),
    {
        WndMsg {
            msg_id: PBM_SETRANGE32,
            wparam: self.min as usize,
            lparam: #[verifier::truncate] (self.max as isize),
        }
    }
}

/// Sets the state. Return: the prior state.
#[derive(Clone, Copy, Debug, PartialEq, Eq, Structural)]
pub struct SetState {
    pub state: u32,
}

impl SetState {
    pub fn convert_ret(&self, v: isize) -> (r: u32)
        ensures
            r == v as u32,
    {
        #[verifier::truncate] (v as u32)
    }

    pub fn as_generic_wm(&self) -> (r: WndMsg)
        ensures
            r == (WndMsg { msg_id: PBM_SETSTATE, wparam: self.state as usize, lparam: 0 }),
    {
        WndMsg { msg_id: PBM_SETSTATE, wparam: self.state as usize, lparam: 0 }
    }
}

/// Sets the step increment. Return: the prior step.
#[derive(Clone, Copy, Debug, PartialEq, Eq, Structural)]
pub struct SetStep {
    pub step: u32,
}

impl SetStep {
    pub fn convert_ret(&self, v: isize) -> (r: u32)
        ensures
            r == v as u32,
    {
        #[verifier::truncate] (v as u32)
    }

    pub fn as_generic_wm(&self) -> (r: WndMsg)
        ensures
            r == (WndMsg { msg_id: PBM_SETSTEP, wparam: self.step as usize, lparam: 0 }),
    {
        WndMsg { msg_id: PBM_SETSTEP, wparam: self.step as usize, lparam: 0 }
    }
}

/// Advances the position by the step increment. Return: the prior
/// position.
#[derive(Clone, Copy, Debug, PartialEq, Eq, Structural)]
pub struct StepIt {}

impl StepIt {
    pub fn convert_ret(&self, v: isize) -> (r: u32)
        ensures
            r == v as u32,
    {
        #[verifier::truncate] (v as u32)
    }

    pub fn as_generic_wm(&self) -> (r: WndMsg)
        ensures
            r == (WndMsg { msg_id: PBM_STEPIT, wparam: 0, lparam: 0 }),
    {
        WndMsg { msg_id: PBM_STEPIT, wparam: 0, lparam: 0 }
    }
}

} // verus!
