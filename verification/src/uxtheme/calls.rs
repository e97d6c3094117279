//! What is handed to the native theme functions, held as plain values, and
//! what their outcomes mean.
//!
//! Each value is made by the method of `uxtheme_Htheme` of the same name. The
//! caller makes the native call with it and hands what came back to `finish`.

use vstd::prelude::*;
use crate::co::{HRESULT, STAP};
use crate::handles::HRGN;
use crate::privs::{ok_to_hrresult, HrResult};
use crate::structs::{COLORREF, RECT};

verus! {

/// Draws the background of a part of a themed control.
#[derive(Clone, Copy, Debug, PartialEq, Eq, Structural)]
pub struct DrawThemeBackground {
    pub htheme: usize,
    pub hdc: usize,
    pub part_id: i32,
    pub state_id: i32,
    pub rc: RECT,
    pub rc_clip: RECT,
}

impl DrawThemeBackground {
    /// The outcome, from the result code that came back.
    pub fn finish(&self, hr: u32) -> (r: HrResult<()>)
        ensures
            r == if hr == HRESULT::S_OK {
                Ok::<(), HRESULT>(())
            } else {
                Err::<(), HRESULT>(HRESULT(hr))
            },
    {
        ok_to_hrresult(hr)
    }
}

/// Asks for the properties of visual styles in the application.
#[derive(Clone, Copy, Debug, PartialEq, Eq, Structural)]
pub struct GetThemeAppProperties {}

impl GetThemeAppProperties {
    /// The properties, from the raw value that came back.
    pub fn finish(&self, raw: u32) -> (r: STAP)
        ensures
            r == STAP(raw),
    {
        STAP(raw)
    }
}

/// Asks for the content area of the background of a part, given its bounds.
#[derive(Clone, Copy, Debug, PartialEq, Eq, Structural)]
pub struct GetThemeBackgroundContentRect {
    pub htheme: usize,
    pub hdc: usize,
    pub part_id: i32,
    pub state_id: i32,
    pub bounds: RECT,
}

impl GetThemeBackgroundContentRect {
    /// The outcome, from the result code that came back and the rectangle that
    /// was written.
    pub fn finish(&self, hr: u32, rc_content: RECT) -> (r: HrResult<RECT>)
        ensures
            r == if hr == HRESULT::S_OK {
                Ok::<RECT, HRESULT>(rc_content)
            } else {
                Err::<RECT, HRESULT>(HRESULT(hr))
            },
    {
        match ok_to_hrresult(hr) {
            Ok(_) => Ok(rc_content),
            Err(e) => Err(e),
        }
    }
}

/// Asks for the extent of the background of a part, given its content area.
#[derive(Clone, Copy, Debug, PartialEq, Eq, Structural)]
pub struct GetThemeBackgroundExtent {
    pub htheme: usize,
    pub hdc: usize,
    pub part_id: i32,
    pub state_id: i32,
    pub rc_content: RECT,
}

impl GetThemeBackgroundExtent {
    /// The outcome, from the result code that came back and the rectangle that
    /// was written.
    pub fn finish(&self, hr: u32, rc_extent: RECT) -> (r: HrResult<RECT>)
        ensures
            r == if hr == HRESULT::S_OK {
                Ok::<RECT, HRESULT>(rc_extent)
            } else {
                Err::<RECT, HRESULT>(HRESULT(hr))
            },
    {
        match ok_to_hrresult(hr) {
            Ok(_) => Ok(rc_extent),
            Err(e) => Err(e),
        }
    }
}

/// Asks for the region of the background of a part within a rectangle.
#[derive(Clone, Copy, Debug, PartialEq, Eq, Structural)]
pub struct GetThemeBackgroundRegion {
    pub htheme: usize,
    pub hdc: usize,
    pub part_id: i32,
    pub state_id: i32,
    pub rc: RECT,
}

impl GetThemeBackgroundRegion {
    /// The outcome, from the result code that came back and the handle that
    /// was written: the region, which its holder is to delete once.
    pub fn finish(&self, hr: u32, hrgn: usize) -> (r: HrResult<HRGN>)
        ensures
            r == if hr == HRESULT::S_OK {
                Ok::<HRGN, HRESULT>(HRGN(hrgn))
            } else {
                Err::<HRGN, HRESULT>(HRESULT(hr))
            },
    {
        match ok_to_hrresult(hr) {
            Ok(_) => Ok(HRGN(hrgn)),
            Err(e) => Err(e),
        }
    }
}

/// Asks for a colour property of a part.
#[derive(Clone, Copy, Debug, PartialEq, Eq, Structural)]
pub struct GetThemeColor {
    pub htheme: usize,
    pub part_id: i32,
    pub state_id: i32,
    pub prop_id: i32,
}

impl GetThemeColor {
    /// The outcome, from the result code that came back and the colour that
    /// was written.
    pub fn finish(&self, hr: u32, color: COLORREF) -> (r: HrResult<COLORREF>)
        ensures
            r == if hr == HRESULT::S_OK {
                Ok::<COLORREF, HRESULT>(color)
            } else {
                Err::<COLORREF, HRESULT>(HRESULT(hr))
            },
    {
        match ok_to_hrresult(hr) {
            Ok(_) => Ok(color),
            Err(e) => Err(e),
        }
    }
}

/// Asks whether the background of a part is partially transparent.
#[derive(Clone, Copy, Debug, PartialEq, Eq, Structural)]
pub struct IsThemeBackgroundPartiallyTransparent {
    pub htheme: usize,
    pub part_id: i32,
    pub state_id: i32,
}

impl IsThemeBackgroundPartiallyTransparent {
    /// The answer, from the boolean that came back: anything but zero is yes.
    pub fn finish(&self, ret: i32) -> (r: bool)
        ensures
            r == (ret != 0),
    {
        ret != 0
    }
}

/// Asks whether the theme defines a part.
#[derive(Clone, Copy, Debug, PartialEq, Eq, Structural)]
pub struct IsThemePartDefined {
    pub htheme: usize,
    pub part_id: i32,
    pub state_id: i32,
}

impl IsThemePartDefined {
    /// The answer, from the boolean that came back: anything but zero is yes.
    pub fn finish(&self, ret: i32) -> (r: bool)
        ensures
            r == (ret != 0),
    {
        ret != 0
    }
}

} // verus!
