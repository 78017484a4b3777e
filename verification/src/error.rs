//! Error kinds of the engine and the result-conversion helpers shared by the
//! substrate wrappers.
//!
//! Handler bodies and cross-thread payloads live with the embedder; their
//! failures reach the engine as numeric codes, carried by [`GuiError`].

use vstd::prelude::*;

verus! {

/// The error kinds the engine can surface.
#[derive(Clone, Copy, Debug, PartialEq, Eq, Structural)]
pub enum GuiError {
    /// Registration was attempted after the native window was created.
    UseAfterCreation,
    /// A child handle was added to a layout arranger twice.
    DuplicateLayoutChild,
    /// A registered handler returned an error (its code).
    HandlerFailure(u32),
    /// A marshaled cross-thread payload returned an error (its code).
    CrossThreadPayloadFailure(u32),
    /// The blocking retrieval primitive itself failed (its system error code);
    /// distinct from an ordinary quit.
    LoopRetrievalFailure(u32),
}

/// A system error code of the windowing substrate.
#[derive(Clone, Copy, Debug, PartialEq, Eq, Structural)]
pub struct SysError {
    pub code: u32,
}

/// The system error code used when a message reports failure without a
/// detailed code: invalid arguments.
pub const ERROR_BAD_ARGUMENTS: u32 = 160;

/// Maps a zero message result to a failure, any other value to itself.
pub fn zero_as_err(v: isize) -> (r: Result<isize, SysError>)
    ensures
        r == if v == 0 {
            Result::<isize, SysError>::Err(SysError { code: ERROR_BAD_ARGUMENTS })
        } else {
            Result::<isize, SysError>::Ok(v)
        },
{
    if v == 0 {
        Err(SysError { code: ERROR_BAD_ARGUMENTS })
    } else {
        Ok(v)
    }
}

/// Maps a system error code to a result: zero is success, anything else is
/// the error itself.
pub fn error_to_sysresult(code: u32) -> (r: Result<(), SysError>)
    ensures
        r == if code == 0 {
            Result::<(), SysError>::Ok(())
        } else {
            Result::<(), SysError>::Err(SysError { code })
        },
{
    if code == 0 {
        Ok(())
    } else {
        Err(SysError { code })
    }
}

/// Maps an HRESULT to a result: zero (S_OK) is success, anything else is the
/// error itself.
pub fn ok_to_hrresult(hres: i32) -> (r: Result<(), i32>)
    ensures
        r == if hres == 0 {
            Result::<(), i32>::Ok(())
        } else {
            Result::<(), i32>::Err(hres)
        },
{
    if hres == 0 {
        Ok(())
    } else {
        Err(hres)
    }
}

/// Maps an HRESULT to a boolean result: zero (S_OK) is true, one (S_FALSE) is
/// false, anything else is the error itself.
pub fn okfalse_to_hrresult(hres: i32) -> (r: Result<bool, i32>)
    ensures
        r == if hres == 0 {
            Result::<bool, i32>::Ok(true)
        } else if hres == 1 {
            Result::<bool, i32>::Ok(false)
        } else {
            Result::<bool, i32>::Err(hres)
        },
{
    if hres == 0 {
        Ok(true)
    } else if hres == 1 {
        Ok(false)
    } else {
        Err(hres)
    }
}

} // verus!
