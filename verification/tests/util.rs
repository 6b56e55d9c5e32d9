use win7_notifications::layout::{body_area, close_button, NH, NIS, NM, NW, SC, TC, WC};
use win7_notifications::util::{
    encode_wide, rect_contains, Rect, GET_X_LPARAM, GET_Y_LPARAM, RGB,
};

fn pack(x: i16, y: i16) -> isize {
    (((y as u16 as u32) << 16) | (x as u16 as u32)) as isize
}

#[test]
fn rgb_packs_red_lowest() {
    assert_eq!(RGB(50, 57, 69), 0x0045_3932);
    assert_eq!(RGB(255, 0, 0), 0x0000_00FF);
    assert_eq!(RGB(0, 255, 0), 0x0000_FF00);
    assert_eq!(RGB(0, 0, 255), 0x00FF_0000);
    assert_eq!(RGB(1, 2, 3), 1 + 2 * 256 + 3 * 65536);
}

#[test]
fn rgb_keeps_what_is_shifted_out_of_reach() {
    assert_eq!(RGB(0x100, 0, 0), 0x100);
    assert_eq!(RGB(0, 0, 0x1_0000), 0);
    assert_eq!(RGB(0, 0x0100_0000, 0), 0);
}

#[test]
fn palette_is_mixed_from_its_parts() {
    assert_eq!(WC, RGB(50, 57, 69));
    assert_eq!(TC, RGB(255, 255, 255));
    assert_eq!(SC, RGB(200, 200, 200));
}

#[test]
fn pointer_coordinates_are_the_two_low_words() {
    assert_eq!(GET_X_LPARAM(pack(337, 17)), 337);
    assert_eq!(GET_Y_LPARAM(pack(337, 17)), 17);
    assert_eq!(GET_X_LPARAM(1_114_449), 337);
    assert_eq!(GET_Y_LPARAM(1_114_449), 17);
    assert_eq!(GET_X_LPARAM(0), 0);
    assert_eq!(GET_Y_LPARAM(0), 0);
}

#[test]
fn pointer_coordinates_are_signed() {
    assert_eq!(GET_X_LPARAM(pack(-5, 10)), -5);
    assert_eq!(GET_Y_LPARAM(pack(-5, 10)), 10);
    assert_eq!(GET_X_LPARAM(720_891), -5);
    assert_eq!(GET_Y_LPARAM(pack(3, -2)), -2);
    assert_eq!(GET_X_LPARAM(0x7FFF), i16::MAX);
    assert_eq!(GET_X_LPARAM(0x8000), i16::MIN);
    assert_eq!(GET_Y_LPARAM(0x8000_0000), i16::MIN);
}

#[test]
fn pointer_coordinates_of_a_negative_parameter() {
    assert_eq!(GET_X_LPARAM(-1), -1);
    assert_eq!(GET_Y_LPARAM(-1), -1);
    assert_eq!(GET_X_LPARAM(-65536), 0);
    assert_eq!(GET_Y_LPARAM(-65536), -1);
}

#[test]
fn rect_contains_its_interior() {
    let rect = Rect { left: 336, top: 16, right: 344, bottom: 24 };
    assert!(rect_contains(rect, 337, 17));
    assert!(rect_contains(rect, 343, 23));
    assert!(rect_contains(rect, 340, 20));
}

#[test]
fn rect_excludes_its_boundary() {
    let rect = Rect { left: 336, top: 16, right: 344, bottom: 24 };
    assert!(!rect_contains(rect, 336, 20));
    assert!(!rect_contains(rect, 344, 20));
    assert!(!rect_contains(rect, 340, 16));
    assert!(!rect_contains(rect, 340, 24));
    assert!(!rect_contains(rect, 336, 16));
    assert!(!rect_contains(rect, 344, 24));
}

#[test]
fn rect_excludes_what_is_outside() {
    let rect = Rect { left: 336, top: 16, right: 344, bottom: 24 };
    assert!(!rect_contains(rect, 0, 0));
    assert!(!rect_contains(rect, 335, 20));
    assert!(!rect_contains(rect, 345, 20));
    assert!(!rect_contains(rect, 340, 15));
    assert!(!rect_contains(rect, 340, 25));
    assert!(!rect_contains(rect, i32::MIN, i32::MAX));
}

#[test]
fn empty_rect_contains_nothing() {
    let rect = Rect { left: 5, top: 5, right: 5, bottom: 5 };
    assert!(!rect_contains(rect, 5, 5));
    let thin = Rect { left: 5, top: 5, right: 6, bottom: 9 };
    assert!(!rect_contains(thin, 5, 6));
    assert!(!rect_contains(thin, 6, 6));
}

#[test]
fn close_button_is_a_square_at_the_top_right() {
    assert_eq!(
        close_button(),
        Rect { left: 336, top: 16, right: 344, bottom: 24 }
    );
    assert_eq!(close_button().left, NW - NM - NM / 2);
    assert_eq!(close_button().right - close_button().left, 8);
    assert_eq!(close_button().bottom - close_button().top, 8);
}

#[test]
fn body_area_is_below_the_title() {
    assert_eq!(
        body_area(),
        Rect { left: 16, top: 65, right: 344, bottom: 154 }
    );
    assert_eq!(body_area().top, NM + NIS + NM / 2 + 17 + NM / 2);
    assert_eq!(body_area().bottom, NH - NM);
}

#[test]
fn encode_wide_closes_with_zero() {
    assert_eq!(encode_wide(""), vec![0]);
    assert_eq!(encode_wide("a"), vec![97, 0]);
    assert_eq!(
        encode_wide("null"),
        vec![110, 117, 108, 108, 0]
    );
}

#[test]
fn encode_wide_is_utf16() {
    assert_eq!(encode_wide("\u{e9}"), vec![0x00E9, 0]);
    assert_eq!(encode_wide("\u{20ac}"), vec![0x20AC, 0]);
    assert_eq!(encode_wide("\u{ffff}"), vec![0xFFFF, 0]);
    assert_eq!(encode_wide("\u{10000}"), vec![0xD800, 0xDC00, 0]);
    assert_eq!(encode_wide("\u{1f600}"), vec![0xD83D, 0xDE00, 0]);
    assert_eq!(encode_wide("\u{10ffff}"), vec![0xDBFF, 0xDFFF, 0]);
}

#[test]
fn encode_wide_agrees_with_std() {
    let texts = [
        "win7-notifications",
        "win7-notifications-window",
        "Critical Error",
        "Gr\u{fc}\u{df}e \u{1f44b} \u{4e16}\u{754c}",
    ];
    for text in texts {
        let mut expected: Vec<u16> = text.encode_utf16().collect();
        expected.push(0);
        assert_eq!(encode_wide(text), expected);
    }
}
