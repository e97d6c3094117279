//! What the raw outcome of a native call means, as a typed result.

use vstd::prelude::*;
use crate::co::{ERROR, HRESULT};

verus! {

/// Result of a call that fails with a system error code.
pub type SysResult<T> = Result<T, ERROR>;

/// Result of a call that fails with a system error code.
pub type WinResult<T> = Result<T, ERROR>;

/// Result of a call that fails with a COM result code.
pub type HrResult<T> = Result<T, HRESULT>;

/// Outcome of a call that returns a boolean: zero is failure, and the error is
/// the last error code, read after the call.
pub fn bool_to_sysresult(expr: i32, last_error: ERROR) -> (r: SysResult<()>)
    ensures
        expr == 0 ==> r == Err::<(), ERROR>(last_error),
        expr != 0 ==> r == Ok::<(), ERROR>(()),
{
    if expr == 0 {
        Err(last_error)
    } else {
        Ok(())
    }
}

/// Outcome of a call that returns a handle: null is failure, and the error is
/// the last error code, read after the call.
pub fn ptr_to_sysresult_handle(ptr: usize, last_error: ERROR) -> (r: SysResult<usize>)
    ensures
        ptr == 0 ==> r == Err::<usize, ERROR>(last_error),
        ptr != 0 ==> r == Ok::<usize, ERROR>(ptr),
{
    if ptr == 0 {
        Err(last_error)
    } else {
        Ok(ptr)
    }
}

/// Outcome of a call that returns a COM result code: `S_OK` is success, every
/// other code is the error.
pub fn ok_to_hrresult(hr: u32) -> (r: HrResult<()>)
    ensures
        hr == HRESULT::S_OK ==> r == Ok::<(), HRESULT>(()),
        hr != HRESULT::S_OK ==> r == Err::<(), HRESULT>(HRESULT(hr)),
{
    if hr == HRESULT::S_OK {
        Ok(())
    } else {
        Err(HRESULT(hr))
    }
}

/// Outcome of a call that returns a COM result code, with the code carried as a
/// system error: `S_OK` is success, every other code is the error.
pub fn hr_to_winresult(hr: i32) -> (r: WinResult<()>)
    ensures
        hr == 0 ==> r == Ok::<(), ERROR>(()),
        hr != 0 ==> r == Err::<(), ERROR>(ERROR(hr as u32)),
{
    if hr == 0 {
        Ok(())
    } else {
        Err(ERROR(#[verifier::truncate] (hr as u32)))
    }
}

} // verus!
