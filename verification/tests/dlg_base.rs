use winsafe::co::{ERROR, GWLP, WM};
use winsafe::enums::IdStr;
use winsafe::gui::base::{Base, ParentHinstance, ProcessResult};
use winsafe::gui::dlg_base::{DialogParam, DlgBase, Left, Route, UserData};
use winsafe::handles::{HFONT, HINSTANCE, HWND};
use winsafe::msg::wm::SetFont;
use winsafe::msg::{GetWindowLongPtr, SetWindowLongPtr, WndMsg};

fn init_dialog(additional_data: isize) -> WndMsg {
    WndMsg { msg_id: WM(WM::INITDIALOG), wparam: 7, lparam: additional_data }
}

fn nc_destroy() -> WndMsg {
    WndMsg { msg_id: WM(WM::NCDESTROY), wparam: 0, lparam: 0 }
}

fn other_message() -> WndMsg {
    WndMsg { msg_id: WM(0x0111), wparam: 3, lparam: 4 }
}

/// A window as the system holds it, standing in for the real one: its handle
/// and the value in its extra memory.
struct FakeWindow {
    hwnd: HWND,
    user_data: isize,
}

/// What the dialog procedure did for one message.
#[derive(Debug, PartialEq, Eq)]
enum Outcome {
    Defaulted,
    Processed { set_ui_font: bool, ret: isize },
}

/// Runs the steps of the dialog procedure for one message, doing to the fake
/// window what they say. The handlers answer with `processed`.
fn run_dialog_proc(
    window: &mut FakeWindow,
    dlg: &mut DlgBase,
    wm_any: WndMsg,
    processed: ProcessResult,
) -> Outcome {
    let ptr_self = match DlgBase::dialog_proc_user_data(window.hwnd, wm_any) {
        UserData::Store(set) => {
            assert_eq!(set.hwnd, window.hwnd);
            assert_eq!(set.index, GWLP::DWLP_USER);
            window.user_data = set.new_long;
            set.new_long
        },
        UserData::Retrieve(get) => {
            assert_eq!(get.hwnd, window.hwnd);
            assert_eq!(get.index, GWLP::DWLP_USER);
            window.user_data
        },
    };
    match DlgBase::dialog_proc_route(ptr_self) {
        Route::DefWindowProc => Outcome::Defaulted,
        Route::Object => {
            let set_ui_font = dlg.dialog_proc_enter(window.hwnd, wm_any);
            let left = dlg.dialog_proc_leave(window.hwnd, wm_any, processed);
            if let Some(set) = left.clear {
                assert_eq!(set.hwnd, window.hwnd);
                window.user_data = set.new_long;
            }
            Outcome::Processed { set_ui_font, ret: left.ret }
        },
    }
}

#[test]
fn new_dialog_has_no_window() {
    let dlg = DlgBase::new(None, 101);
    assert_eq!(*dlg.base_ref().hwnd_ref(), HWND(0));
    assert!(dlg.base_ref().is_dialog());
    assert!(!dlg.base_ref().has_parent());
    assert_eq!(dlg.dialog_id(), 101);
}

#[test]
fn new_dialog_remembers_that_it_has_a_parent() {
    let parent = Base::new(None, false);
    let dlg = DlgBase::new(Some(&parent), 5);
    assert!(dlg.base_ref().has_parent());
    assert!(!parent.is_dialog());
}

#[test]
fn base_set_hwnd_stores_the_handle() {
    let mut base = Base::new(None, false);
    base.set_hwnd(HWND(0x40));
    assert_eq!(*base.hwnd_ref(), HWND(0x40));
    assert!(!base.has_parent());
}

#[test]
fn create_dialog_param_without_parent() {
    let dlg = DlgBase::new(None, 101);
    let got = dlg.create_dialog_param(None, Ok(HINSTANCE(0x400000)));
    assert_eq!(
        got,
        Ok(DialogParam {
            hinstance: HINSTANCE(0x400000),
            resource_id: IdStr::Id(101),
            hwnd_parent: None,
        })
    );
}

#[test]
fn create_dialog_param_reads_the_parent_handle_at_the_call() {
    let mut parent = Base::new(None, false);
    let dlg = DlgBase::new(Some(&parent), 102);
    parent.set_hwnd(HWND(0x77));
    let got = dlg.create_dialog_param(Some(&parent), Ok(HINSTANCE(9)));
    assert_eq!(
        got,
        Ok(DialogParam {
            hinstance: HINSTANCE(9),
            resource_id: IdStr::Id(102),
            hwnd_parent: Some(HWND(0x77)),
        })
    );
}

#[test]
fn create_dialog_param_returns_the_error_of_the_instance_lookup() {
    let dlg = DlgBase::new(None, 101);
    assert_eq!(dlg.create_dialog_param(None, Err(ERROR(126))), Err(ERROR(126)));
}

#[test]
fn dialog_box_param_hands_over_the_same_as_create() {
    let parent = Base::new(None, false);
    let dlg = DlgBase::new(Some(&parent), -3);
    assert_eq!(
        dlg.dialog_box_param(Some(&parent), Ok(HINSTANCE(1))),
        Ok(DialogParam {
            hinstance: HINSTANCE(1),
            resource_id: IdStr::Id(-3),
            hwnd_parent: Some(HWND(0)),
        })
    );
    assert_eq!(dlg.dialog_box_param(None, Err(ERROR(2))), Err(ERROR(2)));
}

#[test]
fn create_dialog_fails_on_the_null_handle() {
    assert_eq!(DlgBase::create_dialog_result(0, ERROR(1813)), Err(ERROR(1813)));
    assert_eq!(DlgBase::create_dialog_result(0x88, ERROR(1813)), Ok(()));
}

#[test]
fn dialog_box_result_is_cut_to_32_bits() {
    assert_eq!(DlgBase::dialog_box_result(1, ERROR(0)), Ok(1));
    assert_eq!(DlgBase::dialog_box_result(0, ERROR(5)), Ok(0));
    assert_eq!(DlgBase::dialog_box_result(-2, ERROR(5)), Ok(-2));
    if isize::BITS == 64 {
        let wide: isize = (1isize << 32) + 7;
        assert_eq!(DlgBase::dialog_box_result(wide, ERROR(0)), Ok(7));
    }
}

#[test]
fn dialog_box_fails_on_minus_one() {
    assert_eq!(DlgBase::dialog_box_result(-1, ERROR(1813)), Err(ERROR(1813)));
}

#[test]
fn module_instance_comes_from_the_parent_where_there_is_one() {
    let mut parent = Base::new(None, false);
    parent.set_hwnd(HWND(0x77));
    assert_eq!(Base::parent_hinstance(Some(&parent)), ParentHinstance::OfWindow(HWND(0x77)));
    assert_eq!(Base::parent_hinstance(None), ParentHinstance::OfModule);
}

#[test]
fn first_message_stores_the_value_it_brings() {
    let got = DlgBase::dialog_proc_user_data(HWND(5), init_dialog(0x1000));
    assert_eq!(
        got,
        UserData::Store(SetWindowLongPtr {
            hwnd: HWND(5),
            index: GWLP::DWLP_USER,
            new_long: 0x1000,
        })
    );
}

#[test]
fn other_messages_read_the_value_from_the_window() {
    let expected = UserData::Retrieve(GetWindowLongPtr { hwnd: HWND(5), index: GWLP::DWLP_USER });
    assert_eq!(DlgBase::dialog_proc_user_data(HWND(5), other_message()), expected);
    assert_eq!(DlgBase::dialog_proc_user_data(HWND(5), nc_destroy()), expected);
}

#[test]
fn route_goes_to_the_object_unless_the_value_is_zero() {
    assert_eq!(DlgBase::dialog_proc_route(0), Route::DefWindowProc);
    assert_eq!(DlgBase::dialog_proc_route(0x1000), Route::Object);
    assert_eq!(DlgBase::dialog_proc_route(-1), Route::Object);
}

#[test]
fn enter_stores_the_handle_on_the_first_message_only() {
    let mut dlg = DlgBase::new(None, 1);
    assert!(!dlg.dialog_proc_enter(HWND(8), other_message()));
    assert_eq!(*dlg.base_ref().hwnd_ref(), HWND(0));
    assert!(dlg.dialog_proc_enter(HWND(8), init_dialog(0x1000)));
    assert_eq!(*dlg.base_ref().hwnd_ref(), HWND(8));
    assert!(!dlg.dialog_proc_enter(HWND(9), nc_destroy()));
    assert_eq!(*dlg.base_ref().hwnd_ref(), HWND(8));
}

#[test]
fn leave_returns_what_the_handlers_gave() {
    let mut dlg = DlgBase::new(None, 1);
    dlg.dialog_proc_enter(HWND(8), init_dialog(0x1000));
    assert_eq!(
        dlg.dialog_proc_leave(HWND(8), other_message(), ProcessResult::HandledWithRet(42)),
        Left { clear: None, ret: 42 }
    );
    assert_eq!(
        dlg.dialog_proc_leave(HWND(8), other_message(), ProcessResult::HandledWithRet(-9)),
        Left { clear: None, ret: -9 }
    );
    assert_eq!(
        dlg.dialog_proc_leave(HWND(8), other_message(), ProcessResult::HandledWithoutRet),
        Left { clear: None, ret: 1 }
    );
    assert_eq!(
        dlg.dialog_proc_leave(HWND(8), other_message(), ProcessResult::NotHandled),
        Left { clear: None, ret: 0 }
    );
    assert_eq!(*dlg.base_ref().hwnd_ref(), HWND(8));
}

#[test]
fn leave_clears_value_and_handle_on_the_last_message() {
    let mut dlg = DlgBase::new(None, 1);
    dlg.dialog_proc_enter(HWND(8), init_dialog(0x1000));
    let left = dlg.dialog_proc_leave(HWND(8), nc_destroy(), ProcessResult::HandledWithoutRet);
    assert_eq!(
        left,
        Left {
            clear: Some(SetWindowLongPtr { hwnd: HWND(8), index: GWLP::DWLP_USER, new_long: 0 }),
            ret: 1,
        }
    );
    assert_eq!(*dlg.base_ref().hwnd_ref(), HWND(0));
}

#[test]
fn messages_before_the_first_are_not_processed() {
    let mut window = FakeWindow { hwnd: HWND(8), user_data: 0 };
    let mut dlg = DlgBase::new(None, 1);
    let got = run_dialog_proc(&mut window, &mut dlg, other_message(), ProcessResult::NotHandled);
    assert_eq!(got, Outcome::Defaulted);
    assert_eq!(window.user_data, 0);
    assert_eq!(*dlg.base_ref().hwnd_ref(), HWND(0));
}

#[test]
fn dialog_goes_from_first_message_to_last() {
    let mut window = FakeWindow { hwnd: HWND(8), user_data: 0 };
    let mut dlg = DlgBase::new(None, 1);

    let got =
        run_dialog_proc(&mut window, &mut dlg, init_dialog(0x2000), ProcessResult::NotHandled);
    assert_eq!(got, Outcome::Processed { set_ui_font: true, ret: 0 });
    assert_eq!(window.user_data, 0x2000);
    assert_eq!(*dlg.base_ref().hwnd_ref(), HWND(8));

    let got = run_dialog_proc(
        &mut window,
        &mut dlg,
        other_message(),
        ProcessResult::HandledWithRet(11),
    );
    assert_eq!(got, Outcome::Processed { set_ui_font: false, ret: 11 });
    assert_eq!(window.user_data, 0x2000);
    assert_eq!(*dlg.base_ref().hwnd_ref(), HWND(8));

    let got =
        run_dialog_proc(&mut window, &mut dlg, nc_destroy(), ProcessResult::HandledWithoutRet);
    assert_eq!(got, Outcome::Processed { set_ui_font: false, ret: 1 });
    assert_eq!(window.user_data, 0);
    assert_eq!(*dlg.base_ref().hwnd_ref(), HWND(0));

    let got = run_dialog_proc(
        &mut window,
        &mut dlg,
        other_message(),
        ProcessResult::HandledWithRet(11),
    );
    assert_eq!(got, Outcome::Defaulted);
    assert_eq!(window.user_data, 0);
    assert_eq!(*dlg.base_ref().hwnd_ref(), HWND(0));
}

#[test]
fn font_goes_to_the_dialog_and_then_to_each_child() {
    let mut dlg = DlgBase::new(None, 1);
    dlg.dialog_proc_enter(HWND(8), init_dialog(0x1000));
    let children = vec![HWND(20), HWND(21), HWND(22)];
    let msgs = dlg.set_ui_font_on_children(HFONT(0xf0), &children);
    let targets: Vec<HWND> = msgs.iter().map(|m| m.hwnd).collect();
    assert_eq!(targets, vec![HWND(8), HWND(20), HWND(21), HWND(22)]);
    for m in msgs.iter() {
        assert_eq!(m.msg, SetFont { hfont: HFONT(0xf0), redraw: false });
    }
}

#[test]
fn font_goes_to_the_dialog_alone_where_it_has_no_children() {
    let dlg = DlgBase::new(None, 1);
    let msgs = dlg.set_ui_font_on_children(HFONT(1), &Vec::new());
    assert_eq!(msgs.len(), 1);
    assert_eq!(msgs[0].hwnd, HWND(0));
    assert_eq!(msgs[0].msg, SetFont { hfont: HFONT(1), redraw: false });
}

#[test]
fn dropping_clears_the_value_only_while_the_window_lives() {
    let mut dlg = DlgBase::new(None, 1);
    assert_eq!(dlg.clear_on_drop(), None);
    dlg.dialog_proc_enter(HWND(8), init_dialog(0x1000));
    assert_eq!(
        dlg.clear_on_drop(),
        Some(SetWindowLongPtr { hwnd: HWND(8), index: GWLP::DWLP_USER, new_long: 0 })
    );
    dlg.dialog_proc_leave(HWND(8), nc_destroy(), ProcessResult::NotHandled);
    assert_eq!(dlg.clear_on_drop(), None);
}
