//! Window messages, held as plain values: what is sent, and to which window.

pub mod hdm;
pub mod lvm;
pub mod wm;

use vstd::prelude::*;
use crate::co::{GWLP, WM};
use crate::handles::HWND;

verus! {

/// A message as a window procedure receives it.
#[derive(Clone, Copy, Debug, PartialEq, Eq, Structural)]
pub struct WndMsg {
    pub msg_id: WM,
    pub wparam: usize,
    pub lparam: isize,
}

/// A message that can be sent: it has a generic form, made of the raw words
/// that the system takes, and it says what the raw word that comes back
/// means.
pub trait MsgSend {
    /// What sending the message gives.
    type RetType;

    /// The generic form of the message.
    spec fn generic_wm(&self) -> WndMsg;

    /// What the raw word that came back means.
    spec fn ret(&self, v: isize) -> Self::RetType;

    /// Turns the message into its generic form.
    fn as_generic_wm(&self) -> (r: WndMsg)
        ensures
            r == self.generic_wm(),
    ;

    /// Turns the raw word that came back into what the message gives.
    fn convert_ret(&self, v: isize) -> (r: Self::RetType)
        ensures
            r == self.ret(v),
    ;
}

/// A message together with the window that it is to be sent to.
#[derive(Debug, PartialEq, Eq)]
pub struct MsgTo<M> {
    pub hwnd: HWND,
    pub msg: M,
}

/// A value to be read from a window's extra memory.
#[derive(Clone, Copy, Debug, PartialEq, Eq, Structural)]
pub struct GetWindowLongPtr {
    pub hwnd: HWND,
    pub index: GWLP,
}

/// A value to be written into a window's extra memory.
#[derive(Clone, Copy, Debug, PartialEq, Eq, Structural)]
pub struct SetWindowLongPtr {
    pub hwnd: HWND,
    pub index: GWLP,
    pub new_long: isize,
}

} // verus!
