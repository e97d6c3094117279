//! Header control messages.

use vstd::prelude::*;
use crate::co::{ERROR, HDM, WM};
use crate::msg::{MsgSend, WndMsg};
use crate::privs::WinResult;

verus! {

/// Asks a header control for the number of its items.
#[derive(Clone, Copy, Debug, PartialEq, Eq, Structural)]
pub struct GetItemCount {}

impl MsgSend for GetItemCount {
    type RetType = WinResult<u32>;

    open spec fn generic_wm(&self) -> WndMsg {
        WndMsg { msg_id: WM(HDM::GETITEMCOUNT), wparam: 0, lparam: 0 }
    }

    /// The number of items; -1 says that the control refused.
    open spec fn ret(&self, v: isize) -> WinResult<u32> {
        if v == -1 {
            Err(ERROR(ERROR::BAD_ARGUMENTS))
        } else {
            Ok(v as u32)
        }
    }

    fn as_generic_wm(&self) -> (r: WndMsg) {
        WndMsg { msg_id: WM(HDM::GETITEMCOUNT), wparam: 0, lparam: 0 }
    }

    fn convert_ret(&self, v: isize) -> (r: WinResult<u32>) {
        if v == -1 {
            Err(ERROR(ERROR::BAD_ARGUMENTS))
        } else {
            Ok(#[verifier::truncate] (v as u32))
        }
    }
}

} // verus!
