//! Subclassing methods of the window handle.

use vstd::prelude::*;
use crate::comctl::calls;
use crate::handles::{Handle, HWND};
use crate::msg::MsgSend;

verus! {

/// Subclassing methods of the window handle. Each says what is handed to the
/// native function of its name; see `calls` for the outcomes.
pub trait comctl_Hwnd: Handle {
    /// Hands the message, in its generic form, to the next procedure in the
    /// window's subclass chain. What the message gives is what its
    /// `convert_ret` makes of the raw word that the call returns.
    fn DefSubclassProc<M: MsgSend>(&self, msg: &M) -> (r: calls::DefSubclassProc)
        ensures
            r == (calls::DefSubclassProc {
                hwnd: self.raw(),
                msg: msg.generic_wm().msg_id.0,
                wparam: msg.generic_wm().wparam,
                lparam: msg.generic_wm().lparam,
            }),
    {
        let wm_any = msg.as_generic_wm();
        calls::DefSubclassProc {
            hwnd: self.ptr(),
            msg: wm_any.msg_id.0,
            wparam: wm_any.wparam,
            lparam: wm_any.lparam,
        }
    }

    /// Takes the subclass procedure at the given address, with the given
    /// identifier, out of the window's chain.
    fn RemoveWindowSubclass(&self, subclass_func: usize, subclass_id: usize) -> (r:
        calls::RemoveWindowSubclass)
        ensures
            r == (calls::RemoveWindowSubclass {
                hwnd: self.raw(),
                subclass_proc: subclass_func,
                subclass_id,
            }),
    {
        calls::RemoveWindowSubclass { hwnd: self.ptr(), subclass_proc: subclass_func, subclass_id }
    }

    /// Puts the subclass procedure at the given address into the window's
    /// chain, with the given identifier and data.
    fn SetWindowSubclass(&self, subclass_proc: usize, subclass_id: usize, ref_data: usize) -> (r:
        calls::SetWindowSubclass)
        ensures
            r == (calls::SetWindowSubclass {
                hwnd: self.raw(),
                subclass_proc,
                subclass_id,
                ref_data,
            }),
    {
        calls::SetWindowSubclass { hwnd: self.ptr(), subclass_proc, subclass_id, ref_data }
    }
}

impl comctl_Hwnd for HWND {

}

} // verus!
