//! Methods of the theme handle.

use vstd::prelude::*;
use crate::co::{TMT, VS};
use crate::handles::{Handle, HDC, HTHEME};
use crate::structs::RECT;
use crate::uxtheme::calls;

verus! {

/// Methods of the theme handle. Each says what is handed to the native
/// function of its name; see `calls` for the outcomes.
pub trait uxtheme_Htheme: Handle {
    /// Draws the background of a part in a state, into `rc` and clipped by
    /// `rc_clip`.
    fn DrawThemeBackground(&self, hdc: &HDC, part_state: VS, rc: RECT, rc_clip: RECT) -> (r:
        calls::DrawThemeBackground)
        ensures
            r == (calls::DrawThemeBackground {
                htheme: self.raw(),
                hdc: hdc.0,
                part_id: part_state.part,
                state_id: part_state.state,
                rc,
                rc_clip,
            }),
    {
        calls::DrawThemeBackground {
            htheme: self.ptr(),
            hdc: hdc.0,
            part_id: part_state.part,
            state_id: part_state.state,
            rc,
            rc_clip,
        }
    }

    /// Asks for the properties of visual styles in the application. The call
    /// takes nothing, so there is nothing in what is handed over.
    fn GetThemeAppProperties() -> (r: calls::GetThemeAppProperties)
        ensures
            r == (calls::GetThemeAppProperties {  }),
    {
        calls::GetThemeAppProperties {  }
    }

    /// Asks for the content area of the background of a part in a state.
    fn GetThemeBackgroundContentRect(&self, hdc: &HDC, part_state: VS, bounds: RECT) -> (r:
        calls::GetThemeBackgroundContentRect)
        ensures
            r == (calls::GetThemeBackgroundContentRect {
                htheme: self.raw(),
                hdc: hdc.0,
                part_id: part_state.part,
                state_id: part_state.state,
                bounds,
            }),
    {
        calls::GetThemeBackgroundContentRect {
            htheme: self.ptr(),
            hdc: hdc.0,
            part_id: part_state.part,
            state_id: part_state.state,
            bounds,
        }
    }

    /// Asks for the extent of the background of a part in a state.
    fn GetThemeBackgroundExtent(&self, hdc: &HDC, part_state: VS, rc_content: RECT) -> (r:
        calls::GetThemeBackgroundExtent)
        ensures
            r == (calls::GetThemeBackgroundExtent {
                htheme: self.raw(),
                hdc: hdc.0,
                part_id: part_state.part,
                state_id: part_state.state,
                rc_content,
            }),
    {
        calls::GetThemeBackgroundExtent {
            htheme: self.ptr(),
            hdc: hdc.0,
            part_id: part_state.part,
            state_id: part_state.state,
            rc_content,
        }
    }

    /// Asks for the region of the background of a part in a state.
    fn GetThemeBackgroundRegion(&self, hdc: &HDC, part_state: VS, rc: RECT) -> (r:
        calls::GetThemeBackgroundRegion)
        ensures
            r == (calls::GetThemeBackgroundRegion {
                htheme: self.raw(),
                hdc: hdc.0,
                part_id: part_state.part,
                state_id: part_state.state,
                rc,
            }),
    {
        calls::GetThemeBackgroundRegion {
            htheme: self.ptr(),
            hdc: hdc.0,
            part_id: part_state.part,
            state_id: part_state.state,
            rc,
        }
    }

    /// Asks for a colour property of a part in a state.
    fn GetThemeColor(&self, part_state: VS, prop: TMT) -> (r: calls::GetThemeColor)
        ensures
            r == (calls::GetThemeColor {
                htheme: self.raw(),
                part_id: part_state.part,
                state_id: part_state.state,
                prop_id: prop.0,
            }),
    {
        calls::GetThemeColor {
            htheme: self.ptr(),
            part_id: part_state.part,
            state_id: part_state.state,
            prop_id: prop.0,
        }
    }

    /// Asks whether the background of a part in a state is partially
    /// transparent.
    fn IsThemeBackgroundPartiallyTransparent(&self, part_state: VS) -> (r:
        calls::IsThemeBackgroundPartiallyTransparent)
        ensures
            r == (calls::IsThemeBackgroundPartiallyTransparent {
                htheme: self.raw(),
                part_id: part_state.part,
                state_id: part_state.state,
            }),
    {
        calls::IsThemeBackgroundPartiallyTransparent {
            htheme: self.ptr(),
            part_id: part_state.part,
            state_id: part_state.state,
        }
    }

    /// Asks whether the theme defines a part in a state.
    fn IsThemePartDefined(&self, part_state: VS) -> (r: calls::IsThemePartDefined)
        ensures
            r == (calls::IsThemePartDefined {
                htheme: self.raw(),
                part_id: part_state.part,
                state_id: part_state.state,
            }),
    {
        calls::IsThemePartDefined {
            htheme: self.ptr(),
            part_id: part_state.part,
            state_id: part_state.state,
        }
    }
}

impl uxtheme_Htheme for HTHEME {

}

} // verus!
