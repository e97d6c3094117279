//! The shell item interface.
//!
//! An item is named by the raw value of its interface pointer. The methods
//! say what is handed to the native function or to the entry of the
//! interface's table; the caller makes the call and hands what came back to
//! `finish`. Whoever holds an item owes it one release.

use vstd::prelude::*;
use crate::co::{ERROR, SFGAO, SIGDN};
use crate::privs::{hr_to_winresult, WinResult};

verus! {

/// A shell item: the raw value of its interface pointer.
#[derive(Debug, PartialEq, Eq)]
pub struct IShellItem {
    pub ppvt: usize,
}

/// Creates a shell item from the path of a file or folder.
#[derive(Debug, PartialEq, Eq)]
pub struct SHCreateItemFromParsingName {
    pub path: String,
}

impl SHCreateItemFromParsingName {
    /// The outcome, from the result code that came back and the pointer that
    /// was written: the new item.
    pub fn finish(&self, hr: i32, ppv_queried: usize) -> (r: WinResult<IShellItem>)
        ensures
            r == if hr == 0 {
                Ok::<IShellItem, ERROR>(IShellItem { ppvt: ppv_queried })
            } else {
                Err::<IShellItem, ERROR>(ERROR(hr as u32))
            },
    {
        match hr_to_winresult(hr) {
            Ok(_) => Ok(IShellItem { ppvt: ppv_queried }),
            Err(e) => Err(e),
        }
    }
}

/// Asks an item for those of its attributes that the mask names.
#[derive(Clone, Copy, Debug, PartialEq, Eq, Structural)]
pub struct GetAttributes {
    pub ppvt: usize,
    pub mask: u32,
}

impl GetAttributes {
    /// The outcome, from the result code that came back and the attributes
    /// that were written. Two codes are success: `S_OK`, where the item has
    /// all the attributes asked for, and `S_FALSE`, where it has not.
    pub fn finish(&self, hr: i32, attrs: u32) -> (r: WinResult<SFGAO>)
        ensures
            r == if hr as u32 == ERROR::S_OK || hr as u32 == ERROR::S_FALSE {
                Ok::<SFGAO, ERROR>(SFGAO(attrs))
            } else {
                Err::<SFGAO, ERROR>(ERROR(hr as u32))
            },
    {
        let err = ERROR(#[verifier::truncate] (hr as u32));
        if err.0 == ERROR::S_OK || err.0 == ERROR::S_FALSE {
            Ok(SFGAO(attrs))
        } else {
            Err(err)
        }
    }
}

/// Asks an item for its name in a given form.
#[derive(Clone, Copy, Debug, PartialEq, Eq, Structural)]
pub struct GetDisplayName {
    pub ppvt: usize,
    pub sigdn_name: u32,
}

impl GetDisplayName {
    /// The outcome, from the result code that came back. Only on success was
    /// a name written: the caller then reads it and frees it.
    pub fn finish(&self, hr: i32) -> (r: WinResult<()>)
        ensures
            r == if hr == 0 {
                Ok::<(), ERROR>(())
            } else {
                Err::<(), ERROR>(ERROR(hr as u32))
            },
    {
        hr_to_winresult(hr)
    }
}

/// Asks an item for its parent.
#[derive(Clone, Copy, Debug, PartialEq, Eq, Structural)]
pub struct GetParent {
    pub ppvt: usize,
}

impl GetParent {
    /// The outcome, from the result code that came back and the pointer that
    /// was written: the parent.
    pub fn finish(&self, hr: i32, ppv_queried: usize) -> (r: WinResult<IShellItem>)
        ensures
            r == if hr == 0 {
                Ok::<IShellItem, ERROR>(IShellItem { ppvt: ppv_queried })
            } else {
                Err::<IShellItem, ERROR>(ERROR(hr as u32))
            },
    {
        match hr_to_winresult(hr) {
            Ok(_) => Ok(IShellItem { ppvt: ppv_queried }),
            Err(e) => Err(e),
        }
    }
}

impl IShellItem {
    /// Creates a new shell item, using the given folder or file path.
    pub fn from_path(file_or_folder_path: &str) -> (r: SHCreateItemFromParsingName)
        ensures
            r.path@ == file_or_folder_path@,
    {
        SHCreateItemFromParsingName { path: file_or_folder_path.to_owned() }
    }

    /// Asks for those attributes of the item that the mask names.
    pub fn GetAttributes(&self, sfgaoMask: SFGAO) -> (r: GetAttributes)
        ensures
            r == (GetAttributes { ppvt: self.ppvt, mask: sfgaoMask.0 }),
    {
        GetAttributes { ppvt: self.ppvt, mask: sfgaoMask.0 }
    }

    /// Asks for the name of the item in the given form.
    pub fn GetDisplayName(&self, sigdnName: SIGDN) -> (r: GetDisplayName)
        ensures
            r == (GetDisplayName { ppvt: self.ppvt, sigdn_name: sigdnName.0 }),
    {
        GetDisplayName { ppvt: self.ppvt, sigdn_name: sigdnName.0 }
    }

    /// Asks for the parent of the item.
    pub fn GetParent(&self) -> (r: GetParent)
        ensures
            r == (GetParent { ppvt: self.ppvt }),
    {
        GetParent { ppvt: self.ppvt }
    }
}

} // verus!
