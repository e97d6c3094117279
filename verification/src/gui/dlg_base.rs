//! Base to all dialog windows.
//!
//! A dialog object is tied to its window through one value in the window's
//! extra memory, which names the object. The value is stored when the first
//! message arrives, read on every later message, and cleared when the last
//! message arrives. While no value is stored, messages go to the default
//! procedure and the object is not touched.
//!
//! Nothing here talks to the system. The functions say what is to be read from
//! and written to the window, and what the dialog procedure returns; the
//! caller performs the reads and writes and runs the user's handlers.

use vstd::prelude::*;
use crate::co::{ERROR, GWLP, WM};
use crate::enums::IdStr;
use crate::gui::base::{Base, BaseView, ProcessResult};
use crate::handles::{HFONT, HINSTANCE, HWND};
use crate::msg::wm::{InitDialog, SetFont};
use crate::msg::{GetWindowLongPtr, MsgTo, SetWindowLongPtr, WndMsg};
use crate::privs::{ptr_to_sysresult_handle, WinResult};

verus! {

/// What is handed to the native functions that create a dialog from a
/// resource. The dialog procedure and the value that names the dialog object
/// are the caller's to add.
#[derive(Debug, PartialEq, Eq)]
pub struct DialogParam {
    pub hinstance: HINSTANCE,
    pub resource_id: IdStr,
    pub hwnd_parent: Option<HWND>,
}

/// How the dialog procedure learns which object a message is for.
#[derive(Clone, Copy, Debug, PartialEq, Eq, Structural)]
pub enum UserData {
    /// The message brought the value: it is written to the window.
    Store(SetWindowLongPtr),
    /// The value is read from the window.
    Retrieve(GetWindowLongPtr),
}

/// Where a message goes, once the value that names the object is known.
#[derive(Clone, Copy, Debug, PartialEq, Eq, Structural)]
pub enum Route {
    /// No object is tied to the window: the default procedure takes the
    /// message, and what it returns is returned.
    DefWindowProc,
    /// The object that the value names takes the message.
    Object,
}

/// How the dialog procedure ends for a message that the object took.
#[derive(Clone, Copy, Debug, PartialEq, Eq, Structural)]
pub struct Left {
    /// What is to be written to the window before returning, if anything.
    pub clear: Option<SetWindowLongPtr>,
    /// What the dialog procedure returns.
    pub ret: isize,
}

/// What a `DlgBase` holds.
pub struct DlgBaseView {
    pub base: BaseView,
    pub dialog_id: i32,
}

impl DlgBaseView {
    /// The object once a message for it has arrived: the first message
    /// brings the window's handle.
    pub open spec fn entered(self, hwnd: HWND, wm_any: WndMsg) -> DlgBaseView {
        if wm_any.msg_id.0 == WM::INITDIALOG {
            DlgBaseView { base: BaseView { hwnd, ..self.base }, ..self }
        } else {
            self
        }
    }

    /// The object once the handlers have run: the last message takes the
    /// window's handle away.
    pub open spec fn left(self, wm_any: WndMsg) -> DlgBaseView {
        if wm_any.msg_id.0 == WM::NCDESTROY {
            DlgBaseView { base: BaseView { hwnd: HWND(0), ..self.base }, ..self }
        } else {
            self
        }
    }
}

/// Base to all dialog windows.
#[derive(Debug)]
pub struct DlgBase {
    base: Base,
    dialog_id: i32,
}

impl View for DlgBase {
    type V = DlgBaseView;

    closed spec fn view(&self) -> DlgBaseView {
        DlgBaseView { base: self.base@, dialog_id: self.dialog_id }
    }
}

impl DlgBase {
    /// A dialog that is not created yet, to be loaded from the resource with
    /// the given number.
    pub fn new(parent_base_ref: Option<&Base>, dialog_id: i32) -> (r: DlgBase)
        ensures
            r@.base == (BaseView {
                hwnd: HWND(0),
                has_parent: parent_base_ref is Some,
                is_dialog: true,
            }),
            r@.dialog_id == dialog_id,
    {
        DlgBase { base: Base::new(parent_base_ref, true), dialog_id }
    }

    pub fn base_ref(&self) -> (r: &Base)
        ensures
            r@ == self@.base,
    {
        &self.base
    }

    /// The number of the dialog resource.
    pub fn dialog_id(&self) -> (r: i32)
        ensures
            r == self@.dialog_id,
    {
        self.dialog_id
    }

    /// What both ways of creating the dialog hand to the system, or the error
    /// that kept the module instance from being found.
    pub open spec fn dialog_param(
        self,
        parent_base_ref: Option<&Base>,
        parent_hinstance: WinResult<HINSTANCE>,
    ) -> WinResult<DialogParam> {
        match parent_hinstance {
            Err(e) => Err(e),
            Ok(hinstance) => Ok(
                DialogParam {
                    hinstance,
                    resource_id: IdStr::Id(self@.dialog_id),
                    hwnd_parent: match parent_base_ref {
                        Some(parent) => Some(parent@.hwnd),
                        None => None,
                    },
                },
            ),
        }
    }

    /// What to hand to the system to create the dialog as a modeless window.
    ///
    /// `parent_hinstance` is the module instance of the parent, as it was
    /// looked up; where the lookup failed, its error is returned. The parent's
    /// handle is read from `parent_base_ref` now, since the parent is created
    /// after its children are declared.
    ///
    /// A dialog cannot be created twice: the dialog must have no window.
    pub fn create_dialog_param(
        &self,
        parent_base_ref: Option<&Base>,
        parent_hinstance: WinResult<HINSTANCE>,
    ) -> (r: WinResult<DialogParam>)
        requires
            self@.base.hwnd == HWND(0),
        ensures
            r == self.dialog_param(parent_base_ref, parent_hinstance),
    {
        self.make_dialog_param(parent_base_ref, parent_hinstance)
    }

    /// What to hand to the system to run the dialog as a modal window; see
    /// `create_dialog_param`.
    ///
    /// A dialog cannot be created twice: the dialog must have no window.
    pub fn dialog_box_param(
        &self,
        parent_base_ref: Option<&Base>,
        parent_hinstance: WinResult<HINSTANCE>,
    ) -> (r: WinResult<DialogParam>)
        requires
            self@.base.hwnd == HWND(0),
        ensures
            r == self.dialog_param(parent_base_ref, parent_hinstance),
    {
        self.make_dialog_param(parent_base_ref, parent_hinstance)
    }

    fn make_dialog_param(
        &self,
        parent_base_ref: Option<&Base>,
        parent_hinstance: WinResult<HINSTANCE>,
    ) -> (r: WinResult<DialogParam>)
        ensures
            r == self.dialog_param(parent_base_ref, parent_hinstance),
    {
        match parent_hinstance {
            Err(e) => Err(e),
            Ok(hinstance) => {
                let hwnd_parent = match parent_base_ref {
                    Some(parent) => Some(*parent.hwnd_ref()),
                    None => None,
                };
                Ok(DialogParam { hinstance, resource_id: IdStr::Id(self.dialog_id), hwnd_parent })
            },
        }
    }

    /// The outcome of creating the dialog as a modeless window, from the
    /// handle that came back and the last error code, read right after the
    /// call: the null handle is failure.
    pub fn create_dialog_result(hwnd: usize, last_error: ERROR) -> (r: WinResult<()>)
        ensures
            r == if hwnd == 0 {
                Err::<(), ERROR>(last_error)
            } else {
                Ok::<(), ERROR>(())
            },
    {
        match ptr_to_sysresult_handle(hwnd, last_error) {
            Ok(_) => Ok(()),
            Err(e) => Err(e),
        }
    }

    /// The outcome of running the dialog as a modal window, from the value
    /// that came back and the last error code, read right after the call: -1
    /// is failure, and any other value is the one that ended the dialog, cut
    /// to 32 bits.
    pub fn dialog_box_result(ret: isize, last_error: ERROR) -> (r: WinResult<i32>)
        ensures
            r == if ret == -1 {
                Err::<i32, ERROR>(last_error)
            } else {
                Ok::<i32, ERROR>(ret as i32)
            },
    {
        if ret == -1 {
            Err(last_error)
        } else {
            Ok(#[verifier::truncate] (ret as i32))
        }
    }

    /// How the value that names the object is learnt for a message.
    pub open spec fn user_data(hwnd: HWND, wm_any: WndMsg) -> UserData {
        if wm_any.msg_id.0 == WM::INITDIALOG {
            UserData::Store(
                SetWindowLongPtr { hwnd, index: GWLP::DWLP_USER, new_long: wm_any.lparam },
            )
        } else {
            UserData::Retrieve(GetWindowLongPtr { hwnd, index: GWLP::DWLP_USER })
        }
    }

    /// Where a message goes: to the object, unless the value is zero.
    pub open spec fn route(ptr_self: isize) -> Route {
        if ptr_self == 0 {
            Route::DefWindowProc
        } else {
            Route::Object
        }
    }

    /// What the dialog procedure returns for a message that the object took.
    pub open spec fn ret(maybe_processed: ProcessResult) -> isize {
        match maybe_processed {
            ProcessResult::HandledWithRet(res) => res,
            ProcessResult::HandledWithoutRet => 1,
            ProcessResult::NotHandled => 0,
        }
    }

    /// What is written to the window once the object has taken a message: on
    /// the last message the value that names the object is cleared.
    pub open spec fn clear(hwnd: HWND, wm_any: WndMsg) -> Option<SetWindowLongPtr> {
        if wm_any.msg_id.0 == WM::NCDESTROY {
            Some(SetWindowLongPtr { hwnd, index: GWLP::DWLP_USER, new_long: 0 })
        } else {
            None
        }
    }

    /// First step of the dialog procedure: how to learn which object the
    /// message is for.
    ///
    /// The first message that a dialog handles brings the value that was given
    /// when the dialog was created; it is stored in the window. For every
    /// other message the value is read from the window.
    pub fn dialog_proc_user_data(hwnd: HWND, wm_any: WndMsg) -> (r: UserData)
        ensures
            r == Self::user_data(hwnd, wm_any),
    {
        if wm_any.msg_id.0 == WM::INITDIALOG {
            let wm_idlg = InitDialog::from_generic_wm(wm_any);
            UserData::Store(
                SetWindowLongPtr {
                    hwnd,
                    index: GWLP::DWLP_USER,
                    new_long: wm_idlg.additional_data,
                },
            )
        } else {
            UserData::Retrieve(GetWindowLongPtr { hwnd, index: GWLP::DWLP_USER })
        }
    }

    /// Second step of the dialog procedure: where the message goes, given the
    /// value that was stored or read.
    ///
    /// With no value stored, no processing is done. This keeps messages that
    /// come before the first and after the last away from the object.
    pub fn dialog_proc_route(ptr_self: isize) -> (r: Route)
        ensures
            r == Self::route(ptr_self),
    {
        if ptr_self == 0 {
            Route::DefWindowProc
        } else {
            Route::Object
        }
    }

    /// Third step of the dialog procedure, on the object that the value names,
    /// before the handlers run.
    ///
    /// On the first message the window's handle is stored in the object.
    /// Returns whether, once the privileged handlers have run, the font is to
    /// be set on the dialog and its children: they create the child controls,
    /// so this is done on the first message only, after them.
    pub fn dialog_proc_enter(&mut self, hwnd: HWND, wm_any: WndMsg) -> (set_ui_font: bool)
        ensures
            final(self)@ == old(self)@.entered(hwnd, wm_any),
            set_ui_font == (wm_any.msg_id.0 == WM::INITDIALOG),
    {
        if wm_any.msg_id.0 == WM::INITDIALOG {
            self.base.set_hwnd(hwnd);
            true
        } else {
            false
        }
    }

    /// Last step of the dialog procedure, on the object, after the handlers
    /// have run.
    ///
    /// On the last message the value in the window is to be cleared, and the
    /// handle in the object is cleared. The value to return is the handler's,
    /// or 1 where a handler took the message and gave none, or 0 where none
    /// took it.
    pub fn dialog_proc_leave(
        &mut self,
        hwnd: HWND,
        wm_any: WndMsg,
        maybe_processed: ProcessResult,
    ) -> (r: Left)
        ensures
            final(self)@ == old(self)@.left(wm_any),
            r.ret == Self::ret(maybe_processed),
            r.clear == Self::clear(hwnd, wm_any),
    {
        let clear = if wm_any.msg_id.0 == WM::NCDESTROY {
            self.base.set_hwnd(HWND::null());
            Some(SetWindowLongPtr { hwnd, index: GWLP::DWLP_USER, new_long: 0 })
        } else {
            None
        };
        let ret: isize = match maybe_processed {
            ProcessResult::HandledWithRet(res) => res,
            ProcessResult::HandledWithoutRet => 1,
            ProcessResult::NotHandled => 0,
        };
        Left { clear, ret }
    }

    /// The messages that set the font on the dialog and on each of its
    /// children: first the dialog's own, then one for each child, in the order
    /// given. None asks for a redraw.
    pub fn set_ui_font_on_children(&self, hfont: HFONT, children: &Vec<HWND>) -> (r: Vec<
        MsgTo<SetFont>,
    >)
        ensures
            r.len() == children.len() + 1,
            r[0].hwnd == self@.base.hwnd,
            forall|i: int| 0 <= i < children.len() ==> (#[trigger] r[i + 1]).hwnd == children[i],
            forall|i: int| 0 <= i < r.len() ==> (#[trigger] r[i]).msg == (SetFont { hfont, redraw: false }),
    {
        let mut msgs: Vec<MsgTo<SetFont>> = Vec::new();
        msgs.push(MsgTo { hwnd: *self.base.hwnd_ref(), msg: SetFont { hfont, redraw: false } });
        let mut i: usize = 0;
        while i < children.len()
            invariant
                i <= children.len(),
                msgs.len() == i + 1,
                msgs[0].hwnd == self@.base.hwnd,
                forall|j: int| 0 <= j < i ==> (#[trigger] msgs[j + 1]).hwnd == children[j],
                forall|j: int|
                    0 <= j < msgs.len() ==> (#[trigger] msgs[j]).msg == (SetFont {
                        hfont,
                        redraw: false,
                    }),
            decreases children.len() - i,
        {
            msgs.push(MsgTo { hwnd: children[i], msg: SetFont { hfont, redraw: false } });
            i += 1;
        }
        msgs
    }

    /// What is to be written to the window when the object goes away while
    /// its window lives: the value that names the object is cleared.
    pub fn clear_on_drop(&self) -> (r: Option<SetWindowLongPtr>)
        ensures
            r == if self@.base.hwnd == HWND(0) {
                None
            } else {
                Some(
                    SetWindowLongPtr {
                        hwnd: self@.base.hwnd,
                        index: GWLP::DWLP_USER,
                        new_long: 0,
                    },
                )
            },
    {
        let hwnd = *self.base.hwnd_ref();
        if hwnd.0 == 0 {
            None
        } else {
            Some(SetWindowLongPtr { hwnd, index: GWLP::DWLP_USER, new_long: 0 })
        }
    }
}

/// A dialog window and the object tied to it, as the dialog procedure finds
/// them when a message arrives.
pub struct Dialog {
    /// The handle of the window.
    pub hwnd: HWND,
    /// The value in the window's extra memory; zero while no object is tied to
    /// the window.
    pub user_data: isize,
    /// The object.
    pub dlg: DlgBaseView,
}

impl Dialog {
    /// Whether an object is tied to the window.
    pub open spec fn tied(self) -> bool {
        self.user_data != 0
    }

    /// The window and the object agree: the object holds the window's handle
    /// while it is tied to the window, and no handle while it is not.
    pub open spec fn consistent(self) -> bool {
        &&& self.hwnd != HWND(0)
        &&& self.tied() ==> self.dlg.base.hwnd == self.hwnd
        &&& !self.tied() ==> self.dlg.base.hwnd == HWND(0)
    }

    /// The value that names the object for a message: the one that the message
    /// brought, or the one in the window.
    pub open spec fn ptr_self(self, wm_any: WndMsg) -> isize {
        match DlgBase::user_data(self.hwnd, wm_any) {
            UserData::Store(set) => set.new_long,
            UserData::Retrieve(_) => self.user_data,
        }
    }

    /// The window and the object after the dialog procedure has run for one
    /// message, its steps taken in order and each write performed.
    pub open spec fn dispatch(self, wm_any: WndMsg) -> Dialog {
        let ptr_self = self.ptr_self(wm_any);
        match DlgBase::route(ptr_self) {
            Route::DefWindowProc => Dialog { user_data: ptr_self, ..self },
            Route::Object => Dialog {
                user_data: match DlgBase::clear(self.hwnd, wm_any) {
                    Some(set) => set.new_long,
                    None => ptr_self,
                },
                dlg: self.dlg.entered(self.hwnd, wm_any).left(wm_any),
                ..self
            },
        }
    }

    /// The window and the object after the dialog procedure has run for each
    /// of the messages in turn.
    pub open spec fn run(self, msgs: Seq<WndMsg>) -> Dialog
        decreases msgs.len(),
    {
        if msgs.len() == 0 {
            self
        } else {
            self.run(msgs.drop_last()).dispatch(msgs.last())
        }
    }

    /// Whether each first message among `msgs` brings a value that names an
    /// object.
    pub open spec fn well_addressed(msgs: Seq<WndMsg>) -> bool {
        forall|i: int|
            0 <= i < msgs.len() && (#[trigger] msgs[i]).msg_id.0 == WM::INITDIALOG
                ==> msgs[i].lparam != 0
    }

    /// While no object is tied to the window, every message but the first goes
    /// to the default procedure, and neither the window's value nor the object
    /// changes.
    pub proof fn lemma_untied_is_left_alone(self, wm_any: WndMsg)
        requires
            !self.tied(),
            wm_any.msg_id.0 != WM::INITDIALOG,
        ensures
            DlgBase::route(self.ptr_self(wm_any)) == Route::DefWindowProc,
            self.dispatch(wm_any) == self,
    {
    }

    /// The first message ties the object that it names to the window: the
    /// value is in the window, and the object holds the window's handle.
    pub proof fn lemma_first_message_ties(self, wm_any: WndMsg)
        requires
            wm_any.msg_id.0 == WM::INITDIALOG,
            wm_any.lparam != 0,
        ensures
            DlgBase::route(self.ptr_self(wm_any)) == Route::Object,
            self.dispatch(wm_any).user_data == wm_any.lparam,
            self.dispatch(wm_any).dlg.base.hwnd == self.hwnd,
    {
    }

    /// The last message unties the object: the value in the window is zero,
    /// and the object holds no handle.
    pub proof fn lemma_last_message_unties(self, wm_any: WndMsg)
        requires
            self.tied(),
            wm_any.msg_id.0 == WM::NCDESTROY,
        ensures
            DlgBase::route(self.ptr_self(wm_any)) == Route::Object,
            !self.dispatch(wm_any).tied(),
            self.dispatch(wm_any).dlg.base.hwnd == HWND(0),
    {
    }

    /// Between the first message and the last, every message goes to the
    /// object, and neither the window's value nor the object changes.
    pub proof fn lemma_tied_stays_tied(self, wm_any: WndMsg)
        requires
            self.tied(),
            wm_any.msg_id.0 != WM::INITDIALOG,
            wm_any.msg_id.0 != WM::NCDESTROY,
        ensures
            DlgBase::route(self.ptr_self(wm_any)) == Route::Object,
            self.dispatch(wm_any) == self,
    {
    }

    /// Whatever messages arrive, the window and the object go on agreeing, as
    /// long as each first message names an object.
    pub proof fn lemma_run_keeps_consistent(self, msgs: Seq<WndMsg>)
        requires
            self.consistent(),
            Self::well_addressed(msgs),
        ensures
            self.run(msgs).consistent(),
            self.run(msgs).hwnd == self.hwnd,
        decreases msgs.len(),
    {
        if msgs.len() > 0 {
            let before = msgs.drop_last();
            assert(Self::well_addressed(before)) by {
                assert forall|i: int|
                    0 <= i < before.len() && (#[trigger] before[i]).msg_id.0
                        == WM::INITDIALOG implies before[i].lparam != 0 by {
                    assert(before[i] == msgs[i]);
                }
            }
            self.lemma_run_keeps_consistent(before);
            assert(msgs.last() == msgs[msgs.len() - 1]);
        }
    }
}

} // verus!
