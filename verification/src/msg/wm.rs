//! Generic window messages.

use vstd::prelude::*;
use crate::co::WM;
use crate::handles::{HFONT, HWND};
use crate::msg::{MsgSend, WndMsg};

verus! {

/// Sets the font of a window.
#[derive(Clone, Copy, Debug, PartialEq, Eq, Structural)]
pub struct SetFont {
    pub hfont: HFONT,
    pub redraw: bool,
}

impl MsgSend for SetFont {
    type RetType = ();

    /// The first word is the font, the second says whether to redraw.
    open spec fn generic_wm(&self) -> WndMsg {
        WndMsg {
            msg_id: WM(WM::SETFONT),
            wparam: self.hfont.0,
            lparam: if self.redraw {
                1
            } else {
                0
            },
        }
    }

    open spec fn ret(&self, v: isize) -> () {
        ()
    }

    fn as_generic_wm(&self) -> (r: WndMsg) {
        WndMsg {
            msg_id: WM(WM::SETFONT),
            wparam: self.hfont.0,
            lparam: if self.redraw {
                1
            } else {
                0
            },
        }
    }

    fn convert_ret(&self, v: isize) -> (r: ()) {
        ()
    }
}

/// The first message that a dialog receives.
#[derive(Clone, Copy, Debug, PartialEq, Eq, Structural)]
pub struct InitDialog {
    pub hwnd_focus: HWND,
    pub additional_data: isize,
}

impl InitDialog {
    /// Reads the message's parameters: the first is the window that receives
    /// the focus, the second is the value given when the dialog was created.
    pub fn from_generic_wm(p: WndMsg) -> (r: InitDialog)
        ensures
            r == (InitDialog { hwnd_focus: HWND(p.wparam), additional_data: p.lparam }),
    {
        InitDialog { hwnd_focus: HWND(p.wparam), additional_data: p.lparam }
    }
}

} // verus!
