use winsafe::co::{ERROR, WM};
use winsafe::comctl::calls::{DefSubclassProc, RemoveWindowSubclass, SetWindowSubclass};
use winsafe::comctl::hwnd::comctl_Hwnd;
use winsafe::handles::{Handle, HFONT, HWND};
use winsafe::msg::lvm::GetColumnWidth;
use winsafe::msg::wm::{InitDialog, SetFont};
use winsafe::msg::WndMsg;

#[test]
fn window_handle_knows_null() {
    assert!(HWND::null().is_null());
    assert_eq!(HWND::null(), HWND(0));
    assert!(!HWND(1).is_null());
    assert_eq!(HWND(0x51).ptr(), 0x51);
}

#[test]
fn handle_that_names_nothing_is_not_released() {
    assert_eq!(HWND(0).as_opt(), None);
    assert_eq!(HWND(usize::MAX).as_opt(), None);
    assert_eq!(HWND(0x51).as_opt(), Some(0x51));
    assert_eq!(HWND(1).as_opt(), Some(1));
}

#[test]
fn def_subclass_proc_hands_on_the_generic_message() {
    assert_eq!(
        HWND(0x51).DefSubclassProc(&SetFont { hfont: HFONT(0xf0), redraw: true }),
        DefSubclassProc { hwnd: 0x51, msg: 0x0030, wparam: 0xf0, lparam: 1 }
    );
    assert_eq!(
        HWND(0x51).DefSubclassProc(&GetColumnWidth { index: 3 }),
        DefSubclassProc { hwnd: 0x51, msg: 0x101d, wparam: 3, lparam: 0 }
    );
}

#[test]
fn remove_window_subclass() {
    let call = HWND(0x51).RemoveWindowSubclass(0x7000, 12);
    assert_eq!(call, RemoveWindowSubclass { hwnd: 0x51, subclass_proc: 0x7000, subclass_id: 12 });
    assert_eq!(call.finish(1, ERROR(0)), Ok(()));
    assert_eq!(call.finish(0, ERROR(1400)), Err(ERROR(1400)));
}

#[test]
fn set_window_subclass() {
    let call = HWND(0x51).SetWindowSubclass(0x7000, 12, 0xabc);
    assert_eq!(
        call,
        SetWindowSubclass { hwnd: 0x51, subclass_proc: 0x7000, subclass_id: 12, ref_data: 0xabc }
    );
    assert_eq!(call.finish(-1, ERROR(0)), Ok(()));
    assert_eq!(call.finish(0, ERROR(8)), Err(ERROR(8)));
}

#[test]
fn init_dialog_reads_focus_and_data() {
    let wm_any = WndMsg { msg_id: WM(WM::INITDIALOG), wparam: 0x60, lparam: 0x1000 };
    assert_eq!(
        InitDialog::from_generic_wm(wm_any),
        InitDialog { hwnd_focus: HWND(0x60), additional_data: 0x1000 }
    );
}
