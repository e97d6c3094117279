//! Typed native constants.
//!
//! Each type wraps the raw integer that the platform uses; the associated
//! constants are raw values, to be wrapped where a typed value is wanted.

use vstd::prelude::*;
use crate::kernel::calls::FormatMessageW;

verus! {

/// A system error code, as the platform's "last error" mechanism reports it,
/// or a COM result code carried in the same 32 bits.
#[derive(Clone, Copy, Debug, PartialEq, Eq, Structural)]
pub struct ERROR(pub u32);

impl ERROR {
    pub const SUCCESS: u32 = 0;
    pub const INVALID_FUNCTION: u32 = 1;
    pub const FILE_NOT_FOUND: u32 = 2;
    pub const PATH_NOT_FOUND: u32 = 3;
    pub const BAD_ARGUMENTS: u32 = 160;
    pub const S_OK: u32 = 0;
    pub const S_FALSE: u32 = 1;

    /// The raw code.
    pub fn raw(self) -> (r: u32)
        ensures
            r == self.0,
    {
        self.0
    }

    /// What is handed to the native function that gives the textual
    /// description of this error: the text comes from the system's table of
    /// messages, in the default language, into a buffer that the system
    /// allocates, and with the insert sequences left as they are.
    pub fn FormatMessage(self) -> (r: FormatMessageW)
        ensures
            r == (FormatMessageW {
                flags: FORMAT_MESSAGE::ALLOCATE_BUFFER | FORMAT_MESSAGE::FROM_SYSTEM
                    | FORMAT_MESSAGE::IGNORE_INSERTS,
                message_id: self.0,
                language_id: LANG(LANG::NEUTRAL).langid(SUBLANG(SUBLANG::DEFAULT)) as u32,
            }),
            r.flags == 0x1300,
            r.language_id == 0x0400,
    {
        assert(0x0000_0100u32 | 0x0000_1000u32 | 0x0000_0200u32 == 0x1300u32) by (bit_vector);
        assert((0x01u16 << 10u16) | 0x00u16 == 0x0400u16) by (bit_vector);
        FormatMessageW {
            flags: FORMAT_MESSAGE::ALLOCATE_BUFFER | FORMAT_MESSAGE::FROM_SYSTEM
                | FORMAT_MESSAGE::IGNORE_INSERTS,
            message_id: self.0,
            language_id: LANG(LANG::NEUTRAL).MAKELANGID(SUBLANG(SUBLANG::DEFAULT)) as u32,
        }
    }
}

/// A COM result code.
#[derive(Clone, Copy, Debug, PartialEq, Eq, Structural)]
pub struct HRESULT(pub u32);

impl HRESULT {
    pub const S_OK: u32 = 0;
    pub const S_FALSE: u32 = 1;

    /// The raw code.
    pub fn raw(self) -> (r: u32)
        ensures
            r == self.0,
    {
        self.0
    }
}

/// A window message identifier.
#[derive(Clone, Copy, Debug, PartialEq, Eq, Structural)]
pub struct WM(pub u32);

impl WM {
    pub const SETFONT: u32 = 0x0030;
    pub const NCDESTROY: u32 = 0x0082;
    pub const INITDIALOG: u32 = 0x0110;
}

/// A list view message identifier.
#[derive(Clone, Copy, Debug, PartialEq, Eq, Structural)]
pub struct LVM(pub u32);

impl LVM {
    pub const GETITEMCOUNT: u32 = 0x1004;
    pub const GETNEXTITEM: u32 = 0x100c;
    pub const GETCOLUMNWIDTH: u32 = 0x101d;
    pub const SETCOLUMNWIDTH: u32 = 0x101e;
    pub const GETHEADER: u32 = 0x101f;
    pub const GETSELECTEDCOUNT: u32 = 0x1032;
    pub const GETCOLUMN: u32 = 0x105f;
    pub const SETCOLUMN: u32 = 0x1060;
    pub const INSERTCOLUMN: u32 = 0x1061;
    pub const GETITEMTEXT: u32 = 0x1073;
}

/// A header control message identifier.
#[derive(Clone, Copy, Debug, PartialEq, Eq, Structural)]
pub struct HDM(pub u32);

impl HDM {
    pub const GETITEMCOUNT: u32 = 0x1200;
}

/// Index of a value in a window's extra memory.
#[derive(Clone, Copy, Debug, PartialEq, Eq, Structural)]
pub enum GWLP {
    DWLP_MSGRESULT,
    DWLP_DLGPROC,
    DWLP_USER,
}

/// Which members of a list view column description are valid.
#[derive(Clone, Copy, Debug, PartialEq, Eq, Structural)]
pub struct LVCF(pub u32);

impl LVCF {
    pub const FMT: u32 = 0x0001;
    pub const WIDTH: u32 = 0x0002;
    pub const TEXT: u32 = 0x0004;
    pub const SUBITEM: u32 = 0x0008;
}

/// Relationship of a list view item to the one a search starts from.
#[derive(Clone, Copy, Debug, PartialEq, Eq, Structural)]
pub struct LVNI(pub u32);

impl LVNI {
    pub const SELECTED: u32 = 0x0002;
}

/// Options of the message formatting function.
#[derive(Clone, Copy, Debug, PartialEq, Eq, Structural)]
pub struct FORMAT_MESSAGE(pub u32);

impl FORMAT_MESSAGE {
    pub const ALLOCATE_BUFFER: u32 = 0x0000_0100;
    pub const IGNORE_INSERTS: u32 = 0x0000_0200;
    pub const FROM_STRING: u32 = 0x0000_0400;
    pub const FROM_HMODULE: u32 = 0x0000_0800;
    pub const FROM_SYSTEM: u32 = 0x0000_1000;
    pub const ARGUMENT_ARRAY: u32 = 0x0000_2000;
}

/// A sublanguage identifier.
#[derive(Clone, Copy, Debug, PartialEq, Eq, Structural)]
pub struct SUBLANG(pub u16);

impl SUBLANG {
    pub const NEUTRAL: u16 = 0x00;
    pub const DEFAULT: u16 = 0x01;
}

/// A primary language identifier.
#[derive(Clone, Copy, Debug, PartialEq, Eq, Structural)]
pub struct LANG(pub u16);

impl LANG {
    pub const NEUTRAL: u16 = 0x00;

    /// The language identifier made of a primary language and a sublanguage:
    /// the sublanguage in the bits from 10 up, the primary language below.
    pub open spec fn langid(self, sublang: SUBLANG) -> u16 {
        (sublang.0 << 10u16) | self.0
    }

    /// Builds a language identifier from this primary language and a
    /// sublanguage.
    pub fn MAKELANGID(self, sublang: SUBLANG) -> (r: u16)
        ensures
            r == self.langid(sublang),
    {
        (sublang.0 << 10u16) | self.0
    }
}

/// Generic access rights.
#[derive(Clone, Copy, Debug, PartialEq, Eq, Structural)]
pub struct GENERIC(pub u32);

/// File sharing modes.
#[derive(Clone, Copy, Debug, PartialEq, Eq, Structural)]
pub struct FILE_SHARE(pub u32);

/// What to do with a file that exists or does not exist.
#[derive(Clone, Copy, Debug, PartialEq, Eq, Structural)]
pub struct DISPOSITION(pub u32);

/// File attributes.
#[derive(Clone, Copy, Debug, PartialEq, Eq, Structural)]
pub struct FILE_ATTRIBUTE(pub u32);

/// File flags.
#[derive(Clone, Copy, Debug, PartialEq, Eq, Structural)]
pub struct FILE_FLAG(pub u32);

/// Security quality of service of a file.
#[derive(Clone, Copy, Debug, PartialEq, Eq, Structural)]
pub struct FILE_SECURITY(pub u32);

/// The type of a file.
#[derive(Clone, Copy, Debug, PartialEq, Eq, Structural)]
pub struct FILE_TYPE(pub u32);

impl FILE_TYPE {
    pub const UNKNOWN: u32 = 0x0000;
}

/// Where a move of a file pointer starts.
#[derive(Clone, Copy, Debug, PartialEq, Eq, Structural)]
pub struct FILE_STARTING_POINT(pub u32);

/// Protection of the pages of a file mapping.
#[derive(Clone, Copy, Debug, PartialEq, Eq, Structural)]
pub struct PAGE(pub u32);

/// Properties of visual styles in an application.
#[derive(Clone, Copy, Debug, PartialEq, Eq, Structural)]
pub struct STAP(pub u32);

/// A property of a theme.
#[derive(Clone, Copy, Debug, PartialEq, Eq, Structural)]
pub struct TMT(pub i32);

/// The form in which the name of a shell item is asked for.
#[derive(Clone, Copy, Debug, PartialEq, Eq, Structural)]
pub struct SIGDN(pub u32);

/// Type of a registry value.
#[derive(Clone, Copy, Debug, PartialEq, Eq, Structural)]
pub struct REG(pub u32);

/// Attributes of a shell item.
#[derive(Clone, Copy, Debug, PartialEq, Eq, Structural)]
pub struct SFGAO(pub u32);

/// A part of a themed control and the state it is drawn in.
#[derive(Clone, Copy, Debug, PartialEq, Eq, Structural)]
pub struct VS {
    pub part: i32,
    pub state: i32,
}

} // verus!
