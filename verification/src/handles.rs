//! Native handles: each wraps one raw value that names a resource of the
//! system. Zero is the null handle.

use vstd::prelude::*;

verus! {

/// What every handle offers: its raw value.
pub trait Handle: Sized {
    /// The raw value of the handle.
    spec fn raw(&self) -> usize;

    /// The raw value, as it is handed to native functions.
    fn ptr(&self) -> (r: usize)
        ensures
            r == self.raw(),
    ;

    /// Tells whether this is the null handle.
    fn is_null(&self) -> (r: bool)
        ensures
            r == (self.raw() == 0),
    {
        self.ptr() == 0
    }

    /// The raw value of the handle where it names a resource: neither the
    /// null nor the invalid handle does, and neither is to be released.
    fn as_opt(&self) -> (r: Option<usize>)
        ensures
            r == if self.raw() == 0 || self.raw() == usize::MAX {
                None
            } else {
                Some(self.raw())
            },
    {
        let ptr = self.ptr();
        if ptr == 0 || ptr == usize::MAX {
            None
        } else {
            Some(ptr)
        }
    }
}

/// Handle to a window.
#[derive(Clone, Copy, Debug, PartialEq, Eq, Structural)]
pub struct HWND(pub usize);

impl HWND {
    /// The null handle.
    pub fn null() -> (r: HWND)
        ensures
            r == HWND(0),
    {
        HWND(0)
    }
}

impl Handle for HWND {
    open spec fn raw(&self) -> usize {
        self.0
    }

    fn ptr(&self) -> (r: usize) {
        self.0
    }
}

/// Handle to a file.
#[derive(Clone, Copy, Debug, PartialEq, Eq, Structural)]
pub struct HFILE(pub usize);

impl HFILE {
    /// The raw value of the invalid handle: all bits set.
    pub open spec fn invalid_raw() -> usize {
        usize::MAX
    }

    /// The null handle.
    pub fn null() -> (r: HFILE)
        ensures
            r == HFILE(0),
    {
        HFILE(0)
    }

    /// The invalid handle, which a failed open returns.
    pub fn invalid() -> (r: HFILE)
        ensures
            r == HFILE(Self::invalid_raw()),
    {
        HFILE(usize::MAX)
    }
}

impl Handle for HFILE {
    open spec fn raw(&self) -> usize {
        self.0
    }

    fn ptr(&self) -> (r: usize) {
        self.0
    }
}

/// Handle to a theme.
#[derive(Clone, Copy, Debug, PartialEq, Eq, Structural)]
pub struct HTHEME(pub usize);

impl Handle for HTHEME {
    open spec fn raw(&self) -> usize {
        self.0
    }

    fn ptr(&self) -> (r: usize) {
        self.0
    }
}

/// Handle to a device context.
#[derive(Clone, Copy, Debug, PartialEq, Eq, Structural)]
pub struct HDC(pub usize);

impl Handle for HDC {
    open spec fn raw(&self) -> usize {
        self.0
    }

    fn ptr(&self) -> (r: usize) {
        self.0
    }
}

/// Handle to a module instance.
#[derive(Clone, Copy, Debug, PartialEq, Eq, Structural)]
pub struct HINSTANCE(pub usize);

impl Handle for HINSTANCE {
    open spec fn raw(&self) -> usize {
        self.0
    }

    fn ptr(&self) -> (r: usize) {
        self.0
    }
}

/// Handle to a region.
#[derive(Clone, Copy, Debug, PartialEq, Eq, Structural)]
pub struct HRGN(pub usize);

impl Handle for HRGN {
    open spec fn raw(&self) -> usize {
        self.0
    }

    fn ptr(&self) -> (r: usize) {
        self.0
    }
}

/// Handle to a font.
#[derive(Clone, Copy, Debug, PartialEq, Eq, Structural)]
pub struct HFONT(pub usize);

impl Handle for HFONT {
    open spec fn raw(&self) -> usize {
        self.0
    }

    fn ptr(&self) -> (r: usize) {
        self.0
    }
}

} // verus!
