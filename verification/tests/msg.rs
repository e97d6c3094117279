use winsafe::co::{ERROR, HDM, LVM, LVNI, WM};
use winsafe::gui::native_controls::list_view_items::{ItemText, TextRetrieve, BLOCK, LAST_TO_GROW};
use winsafe::gui::privs::{multiply_dpi, Dpi, MulDiv, BASE_DPI};
use winsafe::handles::{HFONT, HWND};
use winsafe::msg::wm::SetFont;
use winsafe::msg::{hdm, lvm, MsgSend, MsgTo, WndMsg};
use winsafe::structs::{LVCOLUMN, LVITEM, SIZE};

const REFUSED: ERROR = ERROR(160);

fn generic(msg_id: u32, wparam: usize, lparam: isize) -> WndMsg {
    WndMsg { msg_id: WM(msg_id), wparam, lparam }
}

#[test]
fn message_identifiers() {
    assert_eq!(ERROR::BAD_ARGUMENTS, 160);
    assert_eq!([WM::SETFONT, WM::NCDESTROY, WM::INITDIALOG], [0x30, 0x82, 0x110]);
    assert_eq!(
        [LVM::GETITEMCOUNT, LVM::GETNEXTITEM, LVM::GETCOLUMNWIDTH, LVM::SETCOLUMNWIDTH],
        [0x1000 + 4, 0x1000 + 12, 0x1000 + 29, 0x1000 + 30]
    );
    assert_eq!(
        [LVM::GETHEADER, LVM::GETSELECTEDCOUNT, LVM::GETCOLUMN, LVM::SETCOLUMN],
        [0x1000 + 31, 0x1000 + 50, 0x1000 + 95, 0x1000 + 96]
    );
    assert_eq!([LVM::INSERTCOLUMN, LVM::GETITEMTEXT], [0x1000 + 97, 0x1000 + 115]);
    assert_eq!(HDM::GETITEMCOUNT, 0x1200);
    assert_eq!(LVNI::SELECTED, 2);
}

#[test]
fn set_font() {
    let m = SetFont { hfont: HFONT(0xf0), redraw: false };
    assert_eq!(m.as_generic_wm(), generic(0x30, 0xf0, 0));
    assert_eq!(SetFont { hfont: HFONT(0xf0), redraw: true }.as_generic_wm(), generic(0x30, 0xf0, 1));
    assert_eq!(m.convert_ret(5), ());
}

#[test]
fn insert_column() {
    let m = lvm::InsertColumn { index: 0xffff, lvcolumn: LVCOLUMN::default() };
    assert_eq!(m.as_generic_wm(0x7000), generic(0x1061, 0xffff, 0x7000));
    assert_eq!(m.convert_ret(-1), Err(REFUSED));
    assert_eq!(m.convert_ret(0), Ok(0));
    assert_eq!(m.convert_ret(3), Ok(3));
}

#[test]
fn get_and_set_column() {
    let get = lvm::GetColumn { index: 2, lvcolumn: LVCOLUMN::default() };
    assert_eq!(get.as_generic_wm(0x7000), generic(0x105f, 2, 0x7000));
    assert_eq!(get.convert_ret(0), Err(REFUSED));
    assert_eq!(get.convert_ret(1), Ok(()));
    let set = lvm::SetColumn { index: 2, lvcolumn: LVCOLUMN::default() };
    assert_eq!(set.as_generic_wm(0x7000), generic(0x1060, 2, 0x7000));
    assert_eq!(set.convert_ret(0), Err(REFUSED));
    assert_eq!(set.convert_ret(-1), Ok(()));
    assert_eq!(lvm::zero_to_refusal(0), Err(REFUSED));
    assert_eq!(lvm::zero_to_refusal(1), Ok(()));
}

#[test]
fn get_item_text() {
    let m = lvm::GetItemText { index: 7, lvitem: LVITEM { iSubItem: 1, cchTextMax: 64 } };
    assert_eq!(m.as_generic_wm(0x7000), generic(0x1073, 7, 0x7000));
    assert_eq!(m.convert_ret(0), 0);
    assert_eq!(m.convert_ret(63), 63);
}

#[test]
fn get_column_width() {
    let m = lvm::GetColumnWidth { index: 6 };
    assert_eq!(m.as_generic_wm(), generic(0x101d, 6, 0));
    assert_eq!(m.convert_ret(0), Err(REFUSED));
    assert_eq!(m.convert_ret(120), Ok(120));
}

#[test]
fn set_column_width() {
    let m = lvm::SetColumnWidth { index: 6, width: 120 };
    assert_eq!(m.as_generic_wm(), generic(0x101e, 6, 120));
    assert_eq!(m.convert_ret(0), Err(REFUSED));
    assert_eq!(m.convert_ret(1), Ok(()));
}

#[test]
fn counts() {
    assert_eq!(lvm::GetItemCount {}.as_generic_wm(), generic(0x1004, 0, 0));
    assert_eq!(lvm::GetItemCount {}.convert_ret(12), 12);
    assert_eq!(lvm::GetSelectedCount {}.as_generic_wm(), generic(0x1032, 0, 0));
    assert_eq!(lvm::GetSelectedCount {}.convert_ret(0), 0);
    assert_eq!(hdm::GetItemCount {}.as_generic_wm(), generic(0x1200, 0, 0));
    assert_eq!(hdm::GetItemCount {}.convert_ret(4), Ok(4));
    assert_eq!(hdm::GetItemCount {}.convert_ret(0), Ok(0));
    assert_eq!(hdm::GetItemCount {}.convert_ret(-1), Err(REFUSED));
}

#[test]
fn get_header() {
    assert_eq!(lvm::GetHeader {}.as_generic_wm(), generic(0x101f, 0, 0));
    assert_eq!(lvm::GetHeader {}.convert_ret(0), Err(REFUSED));
    assert_eq!(lvm::GetHeader {}.convert_ret(0x31), Ok(HWND(0x31)));
}

#[test]
fn get_next_item() {
    let first = lvm::GetNextItem { initial_index: None, relationship: LVNI(LVNI::SELECTED) };
    assert_eq!(first.as_generic_wm(), generic(0x100c, usize::MAX, 2));
    let later = lvm::GetNextItem { initial_index: Some(4), relationship: LVNI(2) };
    assert_eq!(later.as_generic_wm(), generic(0x100c, 4, 2));
    assert_eq!(first.convert_ret(-1), None);
    assert_eq!(first.convert_ret(0), Some(0));
    assert_eq!(first.convert_ret(9), Some(9));
}

#[test]
fn text_is_asked_for_into_a_growing_buffer() {
    let ask = ItemText { hwnd: HWND(0x30), item_index: 4, column_index: 1 };
    let mut retrieving = ask.retrieve();
    assert_eq!([BLOCK, LAST_TO_GROW], [64, i32::MAX as u32 - 64]);
    assert_eq!(retrieving, TextRetrieve { ask, buf_sz: 64 });
    assert_eq!(
        retrieving.step(),
        MsgTo {
            hwnd: HWND(0x30),
            msg: lvm::GetItemText { index: 4, lvitem: LVITEM { iSubItem: 1, cchTextMax: 64 } },
        }
    );
    assert!(!retrieving.retrieved(63));
    assert_eq!(retrieving.buf_sz, 128);
    assert_eq!(retrieving.step().msg.lvitem.cchTextMax, 128);
    assert!(!retrieving.retrieved(127));
    assert_eq!(retrieving.buf_sz, 192);
    assert!(retrieving.retrieved(190));
    assert_eq!(retrieving.buf_sz, 192);
}

#[test]
fn text_that_leaves_room_is_complete() {
    let ask = ItemText { hwnd: HWND(0x30), item_index: 0, column_index: 0 };
    let mut retrieving = ask.retrieve();
    assert!(retrieving.retrieved(0));
    assert!(retrieving.retrieved(62));
    assert_eq!(retrieving.buf_sz, 64);
    assert!(!retrieving.retrieved(u32::MAX));
    assert_eq!(retrieving.buf_sz, 128);
}

#[test]
fn buffer_that_cannot_grow_is_taken_as_it_is() {
    let ask = ItemText { hwnd: HWND(0x30), item_index: 0, column_index: 0 };
    let mut retrieving = TextRetrieve { ask, buf_sz: LAST_TO_GROW };
    assert!(!retrieving.retrieved(LAST_TO_GROW - 1));
    assert_eq!(retrieving.buf_sz, i32::MAX as u32);
    assert_eq!(retrieving.step().msg.lvitem.cchTextMax, i32::MAX);
    assert!(retrieving.retrieved(i32::MAX as u32 - 1));
    assert_eq!(retrieving.buf_sz, i32::MAX as u32);
}

#[test]
fn sizes_are_multiplied_by_the_dpi_over_96() {
    assert_eq!(BASE_DPI, 96);
    let (horizontal, vertical) = multiply_dpi(SIZE { cx: 300, cy: 20 }, Dpi { x: 144, y: 120 });
    assert_eq!(horizontal, MulDiv { number: 300, numerator: 144, denominator: 96 });
    assert_eq!(vertical, MulDiv { number: 20, numerator: 120, denominator: 96 });
}

#[test]
fn dpi_is_read_once() {
    assert!(Dpi::unread().is_unread());
    assert_eq!(Dpi::unread(), Dpi { x: 0, y: 0 });
    assert!(!Dpi { x: 96, y: 96 }.is_unread());
}
