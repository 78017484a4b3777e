//! Opaque handles of the windowing substrate.
//!
//! A window handle is equality-comparable and has a NULL sentinel meaning
//! "the native window does not exist yet". The engine never looks inside a
//! handle; it only compares it against NULL and against other handles.

use vstd::prelude::*;

verus! {

/// A window handle. `Hwnd { raw: 0 }` is the NULL sentinel.
#[derive(Clone, Copy, Debug, PartialEq, Eq, Structural)]
pub struct Hwnd {
    pub raw: u64,
}

impl Hwnd {
    /// The NULL sentinel: no native window exists.
    pub fn null() -> (r: Hwnd)
        ensures
            r.raw == 0,
    {
        Hwnd { raw: 0 }
    }

    /// Whether this handle is the NULL sentinel.
    pub open spec fn spec_is_null(self) -> bool {
        self.raw == 0
    }

    /// Whether this handle is the NULL sentinel.
    pub fn is_null(&self) -> (r: bool)
        ensures
            r == self.spec_is_null(),
    {
        self.raw == 0
    }
}

/// A module instance handle, as reported by the substrate.
#[derive(Clone, Copy, Debug, PartialEq, Eq, Structural)]
pub struct HInstance {
    pub raw: u64,
}

/// An accelerator-table handle, as loaded by the substrate.
#[derive(Clone, Copy, Debug, PartialEq, Eq, Structural)]
pub struct Haccel {
    pub raw: u64,
}

} // verus!
