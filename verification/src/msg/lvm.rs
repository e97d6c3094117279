//! List view messages.
//!
//! A message that carries a description has the address of the description,
//! laid out as the system wants it, for its second word. The layout is the
//! caller's, so the caller gives the address.

use vstd::prelude::*;
use crate::co::{ERROR, LVM, LVNI, WM};
use crate::handles::HWND;
use crate::msg::{MsgSend, WndMsg};
use crate::privs::WinResult;
use crate::structs::{LVCOLUMN, LVITEM};

verus! {

/// What a message that the control either takes or refuses gives: zero says
/// that the control refused.
pub open spec fn zero_is_refusal(v: isize) -> WinResult<()> {
    if v == 0 {
        Err(ERROR(ERROR::BAD_ARGUMENTS))
    } else {
        Ok(())
    }
}

/// See `zero_is_refusal`.
pub fn zero_to_refusal(v: isize) -> (r: WinResult<()>)
    ensures
        r == zero_is_refusal(v),
{
    if v == 0 {
        Err(ERROR(ERROR::BAD_ARGUMENTS))
    } else {
        Ok(())
    }
}

/// Inserts a column at the given index.
#[derive(Debug, PartialEq, Eq)]
pub struct InsertColumn {
    pub index: u32,
    pub lvcolumn: LVCOLUMN,
}

impl InsertColumn {
    /// The generic form of the message, with the address of the description.
    pub fn as_generic_wm(&self, lvcolumn: isize) -> (r: WndMsg)
        ensures
            r == (WndMsg {
                msg_id: WM(LVM::INSERTCOLUMN),
                wparam: self.index as usize,
                lparam: lvcolumn,
            }),
    {
        WndMsg { msg_id: WM(LVM::INSERTCOLUMN), wparam: self.index as usize, lparam: lvcolumn }
    }

    /// The index of the new column; -1 says that the control refused.
    pub fn convert_ret(&self, v: isize) -> (r: WinResult<u32>)
        ensures
            r == if v == -1 {
                Err::<u32, ERROR>(ERROR(ERROR::BAD_ARGUMENTS))
            } else {
                Ok::<u32, ERROR>(v as u32)
            },
    {
        if v == -1 {
            Err(ERROR(ERROR::BAD_ARGUMENTS))
        } else {
            Ok(#[verifier::truncate] (v as u32))
        }
    }
}

/// Asks for the description of a column; the valid members of `lvcolumn` say
/// what is asked for.
#[derive(Debug, PartialEq, Eq)]
pub struct GetColumn {
    pub index: u32,
    pub lvcolumn: LVCOLUMN,
}

impl GetColumn {
    /// The generic form of the message, with the address of the description.
    pub fn as_generic_wm(&self, lvcolumn: isize) -> (r: WndMsg)
        ensures
            r == (WndMsg {
                msg_id: WM(LVM::GETCOLUMN),
                wparam: self.index as usize,
                lparam: lvcolumn,
            }),
    {
        WndMsg { msg_id: WM(LVM::GETCOLUMN), wparam: self.index as usize, lparam: lvcolumn }
    }

    /// Zero says that the control refused.
    pub fn convert_ret(&self, v: isize) -> (r: WinResult<()>)
        ensures
            r == zero_is_refusal(v),
    {
        zero_to_refusal(v)
    }
}

/// Sets the members of a column that `lvcolumn` marks as valid.
#[derive(Debug, PartialEq, Eq)]
pub struct SetColumn {
    pub index: u32,
    pub lvcolumn: LVCOLUMN,
}

impl SetColumn {
    /// The generic form of the message, with the address of the description.
    pub fn as_generic_wm(&self, lvcolumn: isize) -> (r: WndMsg)
        ensures
            r == (WndMsg {
                msg_id: WM(LVM::SETCOLUMN),
                wparam: self.index as usize,
                lparam: lvcolumn,
            }),
    {
        WndMsg { msg_id: WM(LVM::SETCOLUMN), wparam: self.index as usize, lparam: lvcolumn }
    }

    /// Zero says that the control refused.
    pub fn convert_ret(&self, v: isize) -> (r: WinResult<()>)
        ensures
            r == zero_is_refusal(v),
    {
        zero_to_refusal(v)
    }
}

/// Asks for the text of an item; `lvitem` says at which column, and how many
/// UTF-16 units the buffer that receives the text has.
#[derive(Clone, Copy, Debug, PartialEq, Eq, Structural)]
pub struct GetItemText {
    pub index: u32,
    pub lvitem: LVITEM,
}

impl GetItemText {
    /// The generic form of the message, with the address of the description.
    pub fn as_generic_wm(&self, lvitem: isize) -> (r: WndMsg)
        ensures
            r == (WndMsg {
                msg_id: WM(LVM::GETITEMTEXT),
                wparam: self.index as usize,
                lparam: lvitem,
            }),
    {
        WndMsg { msg_id: WM(LVM::GETITEMTEXT), wparam: self.index as usize, lparam: lvitem }
    }

    /// The number of UTF-16 units that were written, the final zero not
    /// counted.
    pub fn convert_ret(&self, v: isize) -> (r: u32)
        ensures
            r == v as u32,
    {
        #[verifier::truncate]
        (v as u32)
    }
}

/// Asks for the width of a column.
#[derive(Clone, Copy, Debug, PartialEq, Eq, Structural)]
pub struct GetColumnWidth {
    pub index: u32,
}

impl MsgSend for GetColumnWidth {
    type RetType = WinResult<u32>;

    open spec fn generic_wm(&self) -> WndMsg {
        WndMsg { msg_id: WM(LVM::GETCOLUMNWIDTH), wparam: self.index as usize, lparam: 0 }
    }

    /// The width; zero says that the control refused.
    open spec fn ret(&self, v: isize) -> WinResult<u32> {
        if v == 0 {
            Err(ERROR(ERROR::BAD_ARGUMENTS))
        } else {
            Ok(v as u32)
        }
    }

    fn as_generic_wm(&self) -> (r: WndMsg) {
        WndMsg { msg_id: WM(LVM::GETCOLUMNWIDTH), wparam: self.index as usize, lparam: 0 }
    }

    fn convert_ret(&self, v: isize) -> (r: WinResult<u32>) {
        if v == 0 {
            Err(ERROR(ERROR::BAD_ARGUMENTS))
        } else {
            Ok(#[verifier::truncate] (v as u32))
        }
    }
}

/// Sets the width of a column.
#[derive(Clone, Copy, Debug, PartialEq, Eq, Structural)]
pub struct SetColumnWidth {
    pub index: u32,
    pub width: u32,
}

impl MsgSend for SetColumnWidth {
    type RetType = WinResult<()>;

    open spec fn generic_wm(&self) -> WndMsg {
        WndMsg {
            msg_id: WM(LVM::SETCOLUMNWIDTH),
            wparam: self.index as usize,
            lparam: self.width as isize,
        }
    }

    /// Zero says that the control refused.
    open spec fn ret(&self, v: isize) -> WinResult<()> {
        zero_is_refusal(v)
    }

    fn as_generic_wm(&self) -> (r: WndMsg) {
        WndMsg {
            msg_id: WM(LVM::SETCOLUMNWIDTH),
            wparam: self.index as usize,
            lparam: #[verifier::truncate] (self.width as isize),
        }
    }

    fn convert_ret(&self, v: isize) -> (r: WinResult<()>) {
        zero_to_refusal(v)
    }
}

/// Asks for the number of items.
#[derive(Clone, Copy, Debug, PartialEq, Eq, Structural)]
pub struct GetItemCount {}

impl MsgSend for GetItemCount {
    type RetType = u32;

    open spec fn generic_wm(&self) -> WndMsg {
        WndMsg { msg_id: WM(LVM::GETITEMCOUNT), wparam: 0, lparam: 0 }
    }

    open spec fn ret(&self, v: isize) -> u32 {
        v as u32
    }

    fn as_generic_wm(&self) -> (r: WndMsg) {
        WndMsg { msg_id: WM(LVM::GETITEMCOUNT), wparam: 0, lparam: 0 }
    }

    fn convert_ret(&self, v: isize) -> (r: u32) {
        #[verifier::truncate]
        (v as u32)
    }
}

/// Asks for the number of selected items.
#[derive(Clone, Copy, Debug, PartialEq, Eq, Structural)]
pub struct GetSelectedCount {}

impl MsgSend for GetSelectedCount {
    type RetType = u32;

    open spec fn generic_wm(&self) -> WndMsg {
        WndMsg { msg_id: WM(LVM::GETSELECTEDCOUNT), wparam: 0, lparam: 0 }
    }

    open spec fn ret(&self, v: isize) -> u32 {
        v as u32
    }

    fn as_generic_wm(&self) -> (r: WndMsg) {
        WndMsg { msg_id: WM(LVM::GETSELECTEDCOUNT), wparam: 0, lparam: 0 }
    }

    fn convert_ret(&self, v: isize) -> (r: u32) {
        #[verifier::truncate]
        (v as u32)
    }
}

/// Asks for the handle of the header control.
#[derive(Clone, Copy, Debug, PartialEq, Eq, Structural)]
pub struct GetHeader {}

impl MsgSend for GetHeader {
    type RetType = WinResult<HWND>;

    open spec fn generic_wm(&self) -> WndMsg {
        WndMsg { msg_id: WM(LVM::GETHEADER), wparam: 0, lparam: 0 }
    }

    /// The handle of the header; the null handle says that there is none.
    open spec fn ret(&self, v: isize) -> WinResult<HWND> {
        if v == 0 {
            Err(ERROR(ERROR::BAD_ARGUMENTS))
        } else {
            Ok(HWND(v as usize))
        }
    }

    fn as_generic_wm(&self) -> (r: WndMsg) {
        WndMsg { msg_id: WM(LVM::GETHEADER), wparam: 0, lparam: 0 }
    }

    fn convert_ret(&self, v: isize) -> (r: WinResult<HWND>) {
        if v == 0 {
            Err(ERROR(ERROR::BAD_ARGUMENTS))
        } else {
            Ok(HWND(#[verifier::truncate] (v as usize)))
        }
    }
}

/// Asks for the next item after `initial_index` that stands in the given
/// relationship; with no initial index the search starts at the first item.
#[derive(Clone, Copy, Debug, PartialEq, Eq, Structural)]
pub struct GetNextItem {
    pub initial_index: Option<u32>,
    pub relationship: LVNI,
}

impl MsgSend for GetNextItem {
    type RetType = Option<u32>;

    /// The first word is the index to start after, or -1 to start at the first
    /// item; the second is the relationship.
    open spec fn generic_wm(&self) -> WndMsg {
        WndMsg {
            msg_id: WM(LVM::GETNEXTITEM),
            wparam: match self.initial_index {
                Some(idx) => (idx as i32) as usize,
                None => (-1i32) as usize,
            },
            lparam: self.relationship.0 as isize,
        }
    }

    /// The index of the item that was found; -1 says that none was.
    open spec fn ret(&self, v: isize) -> Option<u32> {
        if v == -1 {
            None
        } else {
            Some(v as u32)
        }
    }

    fn as_generic_wm(&self) -> (r: WndMsg) {
        let start: i32 = match self.initial_index {
            Some(idx) => #[verifier::truncate] (idx as i32),
            None => -1,
        };
        WndMsg {
            msg_id: WM(LVM::GETNEXTITEM),
            wparam: #[verifier::truncate] (start as usize),
            lparam: #[verifier::truncate] (self.relationship.0 as isize),
        }
    }

    fn convert_ret(&self, v: isize) -> (r: Option<u32>) {
        if v == -1 {
            None
        } else {
            Some(#[verifier::truncate] (v as u32))
        }
    }
}

} // verus!
