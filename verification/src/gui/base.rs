//! What every window of the library holds.

use vstd::prelude::*;
use crate::handles::HWND;

verus! {

/// What became of a message that was offered to the user's handlers.
#[derive(Clone, Copy, Debug, PartialEq, Eq, Structural)]
pub enum ProcessResult {
    /// A handler took the message and gave the value to return.
    HandledWithRet(isize),
    /// A handler took the message and gave no value.
    HandledWithoutRet,
    /// No handler took the message.
    NotHandled,
}

/// Where the module instance that a window is created in comes from.
#[derive(Clone, Copy, Debug, PartialEq, Eq, Structural)]
pub enum ParentHinstance {
    /// From the parent window: the instance that it belongs to.
    OfWindow(HWND),
    /// From the running module, there being no parent.
    OfModule,
}

/// What a `Base` holds.
pub struct BaseView {
    pub hwnd: HWND,
    pub has_parent: bool,
    pub is_dialog: bool,
}

/// Base to all windows: the handle of the window, null until the window is
/// created and again after it is destroyed.
///
/// The parent itself is not held, only whether there is one: where the
/// parent's handle is needed, the caller passes the parent.
#[derive(Debug)]
pub struct Base {
    hwnd: HWND,
    has_parent: bool,
    is_dialog: bool,
}

impl View for Base {
    type V = BaseView;

    closed spec fn view(&self) -> BaseView {
        BaseView { hwnd: self.hwnd, has_parent: self.has_parent, is_dialog: self.is_dialog }
    }
}

impl Base {
    /// A base for a window that is not created yet.
    pub fn new(parent_base_ref: Option<&Base>, is_dialog: bool) -> (r: Base)
        ensures
            r@ == (BaseView { hwnd: HWND(0), has_parent: parent_base_ref is Some, is_dialog }),
    {
        Base { hwnd: HWND(0), has_parent: parent_base_ref.is_some(), is_dialog }
    }

    /// The handle of the window.
    pub fn hwnd_ref(&self) -> (r: &HWND)
        ensures
            *r == self@.hwnd,
    {
        &self.hwnd
    }

    /// Tells whether the window was given a parent.
    pub fn has_parent(&self) -> (r: bool)
        ensures
            r == self@.has_parent,
    {
        self.has_parent
    }

    /// Tells whether the window is a dialog.
    pub fn is_dialog(&self) -> (r: bool)
        ensures
            r == self@.is_dialog,
    {
        self.is_dialog
    }

    /// Where the module instance for a window with the given parent comes
    /// from: from the parent's window where there is a parent.
    pub fn parent_hinstance(parent_base_ref: Option<&Base>) -> (r: ParentHinstance)
        ensures
            r == match parent_base_ref {
                Some(parent) => ParentHinstance::OfWindow(parent@.hwnd),
                None => ParentHinstance::OfModule,
            },
    {
        match parent_base_ref {
            Some(parent) => ParentHinstance::OfWindow(*parent.hwnd_ref()),
            None => ParentHinstance::OfModule,
        }
    }

    /// Stores the handle of the window.
    pub fn set_hwnd(&mut self, hwnd: HWND)
        ensures
            final(self)@ == (BaseView { hwnd, ..old(self)@ }),
    {
        self.hwnd = hwnd;
    }
}

} // verus!
