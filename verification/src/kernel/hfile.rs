//! Methods of the file handle.

use vstd::prelude::*;
use crate::co::{
    DISPOSITION, FILE_ATTRIBUTE, FILE_FLAG, FILE_SECURITY, FILE_SHARE, FILE_STARTING_POINT, GENERIC,
    PAGE,
};
use crate::handles::{Handle, HFILE};
use crate::kernel::calls;
use crate::kernel::funcs::{HIDWORD, LODWORD};

verus! {

/// Says that a security quality of service is given among the flags of a file
/// to open.
pub const SECURITY_SQOS_PRESENT: u32 = 0x0010_0000;

/// The flags and attributes of a file to open, as one value: the attributes,
/// the flags if any, and, where a security quality of service is given, that
/// together with the bit that says so.
pub open spec fn flags_and_attributes(
    attributes: FILE_ATTRIBUTE,
    flags: Option<FILE_FLAG>,
    security: Option<FILE_SECURITY>,
) -> u32 {
    attributes.0 | (match flags {
        Some(f) => f.0,
        None => 0u32,
    }) | (match security {
        Some(s) => SECURITY_SQOS_PRESENT | s.0,
        None => 0u32,
    })
}

/// Methods of the file handle. Each says what is handed to the native
/// function of its name; see `calls` for the outcomes.
pub trait kernel_Hfile: Handle {
    /// Opens or creates a file. A missing share mode shares nothing, and a
    /// missing template is the null handle.
    fn CreateFile(
        file_name: &str,
        desired_access: GENERIC,
        share_mode: Option<FILE_SHARE>,
        creation_disposition: DISPOSITION,
        attributes: FILE_ATTRIBUTE,
        flags: Option<FILE_FLAG>,
        security: Option<FILE_SECURITY>,
        hfile_template: Option<&HFILE>,
    ) -> (r: calls::CreateFileW)
        ensures
            r.file_name@ == file_name@,
            r.desired_access == desired_access.0,
            r.share_mode == match share_mode {
                Some(s) => s.0,
                None => 0,
            },
            r.creation_disposition == creation_disposition.0,
            r.flags_and_attributes == flags_and_attributes(attributes, flags, security),
            r.template_file == match hfile_template {
                Some(h) => h.0,
                None => 0,
            },
    {
        let share: u32 = match share_mode {
            Some(s) => s.0,
            None => 0,
        };
        let flag_bits: u32 = match flags {
            Some(f) => f.0,
            None => 0,
        };
        let security_bits: u32 = match security {
            Some(s) => SECURITY_SQOS_PRESENT | s.0,
            None => 0,
        };
        let template_file: usize = match hfile_template {
            Some(h) => h.0,
            None => 0,
        };
        calls::CreateFileW {
            file_name: file_name.to_owned(),
            desired_access: desired_access.0,
            share_mode: share,
            creation_disposition: creation_disposition.0,
            flags_and_attributes: attributes.0 | flag_bits | security_bits,
            template_file,
        }
    }

    /// Creates a mapping of the file. A missing maximum size is zero, which
    /// stands for the size of the file.
    fn CreateFileMapping(&self, protect: PAGE, max_size: Option<u64>, mapping_name: Option<&str>) -> (r:
        calls::CreateFileMappingFromApp)
        ensures
            r.hfile == self.raw(),
            r.page_protection == protect.0,
            r.maximum_size == match max_size {
                Some(s) => s,
                None => 0,
            },
            match mapping_name {
                Some(n) => r.name matches Some(m) && m@ == n@,
                None => r.name is None,
            },
    {
        calls::CreateFileMappingFromApp {
            hfile: self.ptr(),
            page_protection: protect.0,
            maximum_size: match max_size {
                Some(s) => s,
                None => 0,
            },
            name: match mapping_name {
                Some(n) => Some(n.to_owned()),
                None => None,
            },
        }
    }

    /// Asks for information about the file.
    fn GetFileInformationByHandle(&self) -> (r: calls::GetFileInformationByHandle)
        ensures
            r == (calls::GetFileInformationByHandle { hfile: self.raw() }),
    {
        calls::GetFileInformationByHandle { hfile: self.ptr() }
    }

    /// Asks for the size of the file.
    fn GetFileSizeEx(&self) -> (r: calls::GetFileSizeEx)
        ensures
            r == (calls::GetFileSizeEx { hfile: self.raw() }),
    {
        calls::GetFileSizeEx { hfile: self.ptr() }
    }

    /// Asks for the type of the file.
    fn GetFileType(&self) -> (r: calls::GetFileType)
        ensures
            r == (calls::GetFileType { hfile: self.raw() }),
    {
        calls::GetFileType { hfile: self.ptr() }
    }

    /// Locks the region of the file that starts at `offset` and has
    /// `num_bytes_to_lock` bytes. Each of the two goes as its low and its high
    /// 32 bits.
    fn LockFile(&self, offset: u64, num_bytes_to_lock: u64) -> (r: calls::LockFile)
        ensures
            r == (calls::LockFile {
                hfile: self.raw(),
                offset_low: (offset % 0x1_0000_0000) as u32,
                offset_high: (offset / 0x1_0000_0000) as u32,
                number_of_bytes_to_lock_low: (num_bytes_to_lock % 0x1_0000_0000) as u32,
                number_of_bytes_to_lock_high: (num_bytes_to_lock / 0x1_0000_0000) as u32,
            }),
    {
        calls::LockFile {
            hfile: self.ptr(),
            offset_low: LODWORD(offset),
            offset_high: HIDWORD(offset),
            number_of_bytes_to_lock_low: LODWORD(num_bytes_to_lock),
            number_of_bytes_to_lock_high: HIDWORD(num_bytes_to_lock),
        }
    }

    /// Reads from the file into the buffer: as many bytes as the buffer has,
    /// the count cut to 32 bits.
    fn ReadFile(&self, buffer: &[u8]) -> (r: calls::ReadFile)
        ensures
            r == (calls::ReadFile {
                hfile: self.raw(),
                number_of_bytes_to_read: buffer@.len() as u32,
            }),
    {
        calls::ReadFile {
            hfile: self.ptr(),
            number_of_bytes_to_read: #[verifier::truncate] (buffer.len() as u32),
        }
    }

    /// Sets the end of the file to where its pointer stands.
    fn SetEndOfFile(&self) -> (r: calls::SetEndOfFile)
        ensures
            r == (calls::SetEndOfFile { hfile: self.raw() }),
    {
        calls::SetEndOfFile { hfile: self.ptr() }
    }

    /// Moves the pointer of the file.
    fn SetFilePointerEx(&self, distance_to_move: i64, move_method: FILE_STARTING_POINT) -> (r:
        calls::SetFilePointerEx)
        ensures
            r == (calls::SetFilePointerEx {
                hfile: self.raw(),
                distance_to_move,
                move_method: move_method.0,
            }),
    {
        calls::SetFilePointerEx { hfile: self.ptr(), distance_to_move, move_method: move_method.0 }
    }

    /// Writes the data to the file: as many bytes as the data has, the count
    /// cut to 32 bits.
    fn WriteFile(&self, data: &[u8]) -> (r: calls::WriteFile)
        ensures
            r == (calls::WriteFile {
                hfile: self.raw(),
                number_of_bytes_to_write: data@.len() as u32,
            }),
    {
        calls::WriteFile {
            hfile: self.ptr(),
            number_of_bytes_to_write: #[verifier::truncate] (data.len() as u32),
        }
    }
}

impl kernel_Hfile for HFILE {

}

} // verus!
