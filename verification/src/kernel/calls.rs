//! What is handed to the native file functions, held as plain values, and
//! what their outcomes mean.
//!
//! Each value is made by the method of `kernel_Hfile` of the same name. The
//! caller makes the native call with it and hands what came back to `finish`.
//! `last_error` is always the last error code, read right after the call.

use vstd::prelude::*;
use crate::co::{ERROR, FILE_TYPE};
use crate::handles::HFILE;
use crate::privs::{bool_to_sysresult, ptr_to_sysresult_handle, SysResult};

verus! {

/// Asks for the text of a message. The buffer that receives the text is the
/// caller's to name; with the option to allocate it, the system makes it and
/// the caller frees it once the text is read.
#[derive(Clone, Copy, Debug, PartialEq, Eq, Structural)]
pub struct FormatMessageW {
    pub flags: u32,
    pub message_id: u32,
    pub language_id: u32,
}

/// Opens or creates a file.
#[derive(Debug, PartialEq, Eq)]
pub struct CreateFileW {
    pub file_name: String,
    pub desired_access: u32,
    pub share_mode: u32,
    pub creation_disposition: u32,
    pub flags_and_attributes: u32,
    pub template_file: usize,
}

impl CreateFileW {
    /// The outcome, from the handle that came back: the null and the invalid
    /// handle are failure, with the last error code. Any other handle is the
    /// open file; the last error code comes with it, because it can carry
    /// information even if the file was opened.
    pub fn finish(&self, handle: usize, last_error: ERROR) -> (r: SysResult<(HFILE, ERROR)>)
        ensures
            r == if handle == 0 || handle == HFILE::invalid_raw() {
                Err::<(HFILE, ERROR), ERROR>(last_error)
            } else {
                Ok::<(HFILE, ERROR), ERROR>((HFILE(handle), last_error))
            },
    {
        if handle == 0 || handle == usize::MAX {
            Err(last_error)
        } else {
            Ok((HFILE(handle), last_error))
        }
    }
}

/// Creates a file mapping.
#[derive(Debug, PartialEq, Eq)]
pub struct CreateFileMappingFromApp {
    pub hfile: usize,
    pub page_protection: u32,
    pub maximum_size: u64,
    pub name: Option<String>,
}

impl CreateFileMappingFromApp {
    /// The outcome, from the handle that came back: the raw value of the
    /// mapping's handle, or the last error code where it is null.
    pub fn finish(&self, handle: usize, last_error: ERROR) -> (r: SysResult<usize>)
        ensures
            r == if handle == 0 {
                Err::<usize, ERROR>(last_error)
            } else {
                Ok::<usize, ERROR>(handle)
            },
    {
        ptr_to_sysresult_handle(handle, last_error)
    }
}

/// Asks for information about a file.
#[derive(Clone, Copy, Debug, PartialEq, Eq, Structural)]
pub struct GetFileInformationByHandle {
    pub hfile: usize,
}

impl GetFileInformationByHandle {
    /// The outcome, from the boolean that came back.
    pub fn finish(&self, ret: i32, last_error: ERROR) -> (r: SysResult<()>)
        ensures
            r == if ret == 0 {
                Err::<(), ERROR>(last_error)
            } else {
                Ok::<(), ERROR>(())
            },
    {
        bool_to_sysresult(ret, last_error)
    }
}

/// Asks for the size of a file.
#[derive(Clone, Copy, Debug, PartialEq, Eq, Structural)]
pub struct GetFileSizeEx {
    pub hfile: usize,
}

impl GetFileSizeEx {
    /// The outcome, from the boolean that came back and the size that was
    /// written: the size, taken as unsigned.
    pub fn finish(&self, ret: i32, size: i64, last_error: ERROR) -> (r: SysResult<u64>)
        ensures
            r == if ret == 0 {
                Err::<u64, ERROR>(last_error)
            } else {
                Ok::<u64, ERROR>(size as u64)
            },
    {
        match bool_to_sysresult(ret, last_error) {
            Ok(_) => Ok(#[verifier::truncate] (size as u64)),
            Err(e) => Err(e),
        }
    }
}

/// Asks for the type of a file.
#[derive(Clone, Copy, Debug, PartialEq, Eq, Structural)]
pub struct GetFileType {
    pub hfile: usize,
}

impl GetFileType {
    /// The outcome, from the type that came back. The unknown type is what a
    /// failed call returns too: it is the file's type only where the last
    /// error code is success, and else that code is the error.
    pub fn finish(&self, file_type: u32, last_error: ERROR) -> (r: SysResult<FILE_TYPE>)
        ensures
            r == if file_type == FILE_TYPE::UNKNOWN && last_error.0 != ERROR::SUCCESS {
                Err::<FILE_TYPE, ERROR>(last_error)
            } else {
                Ok::<FILE_TYPE, ERROR>(FILE_TYPE(file_type))
            },
    {
        if file_type == FILE_TYPE::UNKNOWN {
            if last_error.0 == ERROR::SUCCESS {
                Ok(FILE_TYPE(FILE_TYPE::UNKNOWN))
            } else {
                Err(last_error)
            }
        } else {
            Ok(FILE_TYPE(file_type))
        }
    }
}

/// Unlocks a region of a file; to be called once when the lock is given up.
#[derive(Clone, Copy, Debug, PartialEq, Eq, Structural)]
pub struct UnlockFile {
    pub hfile: usize,
    pub offset_low: u32,
    pub offset_high: u32,
    pub number_of_bytes_to_unlock_low: u32,
    pub number_of_bytes_to_unlock_high: u32,
}

/// Locks a region of a file.
#[derive(Clone, Copy, Debug, PartialEq, Eq, Structural)]
pub struct LockFile {
    pub hfile: usize,
    pub offset_low: u32,
    pub offset_high: u32,
    pub number_of_bytes_to_lock_low: u32,
    pub number_of_bytes_to_lock_high: u32,
}

impl LockFile {
    /// The call that gives up this lock: same file, same region.
    pub open spec fn unlock(self) -> UnlockFile {
        UnlockFile {
            hfile: self.hfile,
            offset_low: self.offset_low,
            offset_high: self.offset_high,
            number_of_bytes_to_unlock_low: self.number_of_bytes_to_lock_low,
            number_of_bytes_to_unlock_high: self.number_of_bytes_to_lock_high,
        }
    }

    /// The outcome, from the boolean that came back: where the region was
    /// locked, the call that unlocks it, which is owed once.
    pub fn finish(&self, ret: i32, last_error: ERROR) -> (r: SysResult<UnlockFile>)
        ensures
            r == if ret == 0 {
                Err::<UnlockFile, ERROR>(last_error)
            } else {
                Ok::<UnlockFile, ERROR>(self.unlock())
            },
    {
        match bool_to_sysresult(ret, last_error) {
            Ok(_) => Ok(
                UnlockFile {
                    hfile: self.hfile,
                    offset_low: self.offset_low,
                    offset_high: self.offset_high,
                    number_of_bytes_to_unlock_low: self.number_of_bytes_to_lock_low,
                    number_of_bytes_to_unlock_high: self.number_of_bytes_to_lock_high,
                },
            ),
            Err(e) => Err(e),
        }
    }
}

/// Reads from a file into a buffer of the given size.
#[derive(Clone, Copy, Debug, PartialEq, Eq, Structural)]
pub struct ReadFile {
    pub hfile: usize,
    pub number_of_bytes_to_read: u32,
}

impl ReadFile {
    /// The outcome, from the boolean that came back and the count that was
    /// written: the number of bytes read.
    pub fn finish(&self, ret: i32, bytes_read: u32, last_error: ERROR) -> (r: SysResult<u32>)
        ensures
            r == if ret == 0 {
                Err::<u32, ERROR>(last_error)
            } else {
                Ok::<u32, ERROR>(bytes_read)
            },
    {
        match bool_to_sysresult(ret, last_error) {
            Ok(_) => Ok(bytes_read),
            Err(e) => Err(e),
        }
    }
}

/// Sets the end of a file to where its pointer stands.
#[derive(Clone, Copy, Debug, PartialEq, Eq, Structural)]
pub struct SetEndOfFile {
    pub hfile: usize,
}

impl SetEndOfFile {
    /// The outcome, from the boolean that came back.
    pub fn finish(&self, ret: i32, last_error: ERROR) -> (r: SysResult<()>)
        ensures
            r == if ret == 0 {
                Err::<(), ERROR>(last_error)
            } else {
                Ok::<(), ERROR>(())
            },
    {
        bool_to_sysresult(ret, last_error)
    }
}

/// Moves the pointer of a file.
#[derive(Clone, Copy, Debug, PartialEq, Eq, Structural)]
pub struct SetFilePointerEx {
    pub hfile: usize,
    pub distance_to_move: i64,
    pub move_method: u32,
}

impl SetFilePointerEx {
    /// The outcome, from the boolean that came back and the offset that was
    /// written: where the pointer stands now.
    pub fn finish(&self, ret: i32, new_offset: i64, last_error: ERROR) -> (r: SysResult<i64>)
        ensures
            r == if ret == 0 {
                Err::<i64, ERROR>(last_error)
            } else {
                Ok::<i64, ERROR>(new_offset)
            },
    {
        match bool_to_sysresult(ret, last_error) {
            Ok(_) => Ok(new_offset),
            Err(e) => Err(e),
        }
    }
}

/// Writes the given number of bytes to a file.
#[derive(Clone, Copy, Debug, PartialEq, Eq, Structural)]
pub struct WriteFile {
    pub hfile: usize,
    pub number_of_bytes_to_write: u32,
}

impl WriteFile {
    /// The outcome, from the boolean that came back and the count that was
    /// written: the number of bytes written.
    pub fn finish(&self, ret: i32, bytes_written: u32, last_error: ERROR) -> (r: SysResult<u32>)
        ensures
            r == if ret == 0 {
                Err::<u32, ERROR>(last_error)
            } else {
                Ok::<u32, ERROR>(bytes_written)
            },
    {
        match bool_to_sysresult(ret, last_error) {
            Ok(_) => Ok(bytes_written),
            Err(e) => Err(e),
        }
    }
}

} // verus!
