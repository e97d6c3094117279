//! What is handed to the native subclassing functions, held as plain values,
//! and what their outcomes mean.
//!
//! Each value is made by the method of `comctl_Hwnd` of the same name. The
//! caller makes the native call with it. A subclass procedure is named by its
//! address.

use vstd::prelude::*;
use crate::co::ERROR;
use crate::privs::{bool_to_sysresult, SysResult};

verus! {

/// Hands a message to the next procedure in a window's subclass chain. What
/// the call returns is the raw result of the message.
#[derive(Clone, Copy, Debug, PartialEq, Eq, Structural)]
pub struct DefSubclassProc {
    pub hwnd: usize,
    pub msg: u32,
    pub wparam: usize,
    pub lparam: isize,
}

/// Takes a subclass procedure out of a window's chain.
#[derive(Clone, Copy, Debug, PartialEq, Eq, Structural)]
pub struct RemoveWindowSubclass {
    pub hwnd: usize,
    pub subclass_proc: usize,
    pub subclass_id: usize,
}

impl RemoveWindowSubclass {
    /// The outcome, from the boolean that came back and the last error code,
    /// read right after the call.
    pub fn finish(&self, ret: i32, last_error: ERROR) -> (r: SysResult<()>)
        ensures
            r == if ret == 0 {
                Err::<(), ERROR>(last_error)
            } else {
                Ok::<(), ERROR>(())
            },
    {
        bool_to_sysresult(ret, last_error)
    }
}

/// Puts a subclass procedure into a window's chain, or updates the data of
/// one that is in it.
#[derive(Clone, Copy, Debug, PartialEq, Eq, Structural)]
pub struct SetWindowSubclass {
    pub hwnd: usize,
    pub subclass_proc: usize,
    pub subclass_id: usize,
    pub ref_data: usize,
}

impl SetWindowSubclass {
    /// The outcome, from the boolean that came back and the last error code,
    /// read right after the call.
    pub fn finish(&self, ret: i32, last_error: ERROR) -> (r: SysResult<()>)
        ensures
            r == if ret == 0 {
                Err::<(), ERROR>(last_error)
            } else {
                Ok::<(), ERROR>(())
            },
    {
        bool_to_sysresult(ret, last_error)
    }
}

} // verus!
