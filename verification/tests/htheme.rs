use winsafe::co::{HRESULT, STAP, TMT, VS};
use winsafe::handles::{HDC, HRGN, HTHEME};
use winsafe::structs::{COLORREF, RECT};
use winsafe::uxtheme::calls::{
    DrawThemeBackground, GetThemeBackgroundContentRect, GetThemeBackgroundExtent,
    GetThemeBackgroundRegion, GetThemeColor, IsThemeBackgroundPartiallyTransparent,
    IsThemePartDefined,
};
use winsafe::uxtheme::htheme::uxtheme_Htheme;

const E_FAIL: u32 = 0x8000_4005;

fn rect(left: i32, top: i32, right: i32, bottom: i32) -> RECT {
    RECT { left, top, right, bottom }
}

#[test]
fn draw_theme_background() {
    let call = HTHEME(3).DrawThemeBackground(
        &HDC(4),
        VS { part: 1, state: 2 },
        rect(0, 0, 10, 10),
        rect(1, 1, 9, 9),
    );
    assert_eq!(
        call,
        DrawThemeBackground {
            htheme: 3,
            hdc: 4,
            part_id: 1,
            state_id: 2,
            rc: rect(0, 0, 10, 10),
            rc_clip: rect(1, 1, 9, 9),
        }
    );
    assert_eq!(call.finish(0), Ok(()));
    assert_eq!(call.finish(E_FAIL), Err(HRESULT(E_FAIL)));
    assert_eq!(call.finish(1), Err(HRESULT(1)));
}

#[test]
fn get_theme_app_properties() {
    assert_eq!(HTHEME::GetThemeAppProperties().finish(7), STAP(7));
}

#[test]
fn get_theme_background_content_rect() {
    let call =
        HTHEME(3).GetThemeBackgroundContentRect(&HDC(4), VS { part: 5, state: 6 }, rect(0, 0, 8, 8));
    assert_eq!(
        call,
        GetThemeBackgroundContentRect {
            htheme: 3,
            hdc: 4,
            part_id: 5,
            state_id: 6,
            bounds: rect(0, 0, 8, 8),
        }
    );
    assert_eq!(call.finish(0, rect(1, 1, 7, 7)), Ok(rect(1, 1, 7, 7)));
    assert_eq!(call.finish(E_FAIL, rect(1, 1, 7, 7)), Err(HRESULT(E_FAIL)));
}

#[test]
fn get_theme_background_extent() {
    let call =
        HTHEME(3).GetThemeBackgroundExtent(&HDC(4), VS { part: 5, state: 6 }, rect(1, 1, 7, 7));
    assert_eq!(
        call,
        GetThemeBackgroundExtent {
            htheme: 3,
            hdc: 4,
            part_id: 5,
            state_id: 6,
            rc_content: rect(1, 1, 7, 7),
        }
    );
    assert_eq!(call.finish(0, rect(0, 0, 8, 8)), Ok(rect(0, 0, 8, 8)));
    assert_eq!(call.finish(E_FAIL, rect(0, 0, 8, 8)), Err(HRESULT(E_FAIL)));
}

#[test]
fn get_theme_background_region() {
    let call =
        HTHEME(3).GetThemeBackgroundRegion(&HDC(4), VS { part: 5, state: 6 }, rect(0, 0, 8, 8));
    assert_eq!(
        call,
        GetThemeBackgroundRegion { htheme: 3, hdc: 4, part_id: 5, state_id: 6, rc: rect(0, 0, 8, 8) }
    );
    assert_eq!(call.finish(0, 0x90), Ok(HRGN(0x90)));
    assert_eq!(call.finish(E_FAIL, 0), Err(HRESULT(E_FAIL)));
}

#[test]
fn get_theme_color() {
    let call = HTHEME(3).GetThemeColor(VS { part: 5, state: 6 }, TMT(3803));
    assert_eq!(call, GetThemeColor { htheme: 3, part_id: 5, state_id: 6, prop_id: 3803 });
    assert_eq!(call.finish(0, COLORREF(0x00ff_8000)), Ok(COLORREF(0x00ff_8000)));
    assert_eq!(call.finish(E_FAIL, COLORREF(0)), Err(HRESULT(E_FAIL)));
}

#[test]
fn is_theme_background_partially_transparent() {
    let call = HTHEME(3).IsThemeBackgroundPartiallyTransparent(VS { part: 5, state: 6 });
    assert_eq!(call, IsThemeBackgroundPartiallyTransparent { htheme: 3, part_id: 5, state_id: 6 });
    assert!(call.finish(1));
    assert!(call.finish(-1));
    assert!(!call.finish(0));
}

#[test]
fn is_theme_part_defined() {
    let call = HTHEME(3).IsThemePartDefined(VS { part: 5, state: 0 });
    assert_eq!(call, IsThemePartDefined { htheme: 3, part_id: 5, state_id: 0 });
    assert!(call.finish(1));
    assert!(!call.finish(0));
}
