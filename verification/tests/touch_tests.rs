use waveshare_s3_3p::layout::Orientation;
use waveshare_s3_3p::touch::{parse_touch_frame, Gesture, TouchState};

fn press_and_release(
    touch: &mut TouchState,
    start: (i16, i16),
    end: (i16, i16),
    release_ms: u32,
) -> Gesture {
    assert_eq!(touch.poll(Some(start), release_ms.wrapping_sub(60)), Gesture::Nothing);
    assert!(touch.is_pressed());
    assert_eq!(touch.poll(Some(end), release_ms.wrapping_sub(30)), Gesture::Nothing);
    let g = touch.poll(None, release_ms);
    assert!(!touch.is_pressed());
    g
}

fn gesture(start: (i16, i16), end: (i16, i16)) -> Gesture {
    press_and_release(&mut TouchState::new(), start, end, 10_000)
}

#[test]
fn swipe_left_outside_cooldown() {
    assert_eq!(gesture((200, 50), (120, 55)), Gesture::SwipeLeft);
}

#[test]
fn swipe_down_outside_cooldown() {
    assert_eq!(gesture((50, 200), (58, 260)), Gesture::SwipeDown);
}

#[test]
fn swipe_right_and_up() {
    assert_eq!(gesture((120, 55), (200, 50)), Gesture::SwipeRight);
    assert_eq!(gesture((58, 260), (50, 200)), Gesture::SwipeUp);
}

#[test]
fn small_moves_are_taps_at_the_release_point() {
    let moves: [(i16, i16); 9] =
        [(0, 0), (18, 0), (0, 18), (-18, 0), (0, -18), (18, 18), (-18, -18), (18, -18), (-7, 11)];
    for (dx, dy) in moves {
        let start = (100, 120);
        let end = (100 + dx, 120 + dy);
        assert_eq!(gesture(start, end), Gesture::Tap { x: end.0, y: end.1 });
    }
}

#[test]
fn tap_is_reported_even_inside_the_swipe_cooldown() {
    let mut touch = TouchState::new();
    assert_eq!(press_and_release(&mut touch, (200, 50), (120, 55), 5_000), Gesture::SwipeLeft);
    assert_eq!(
        press_and_release(&mut touch, (10, 10), (12, 9), 5_100),
        Gesture::Tap { x: 12, y: 9 }
    );
}

#[test]
fn just_beyond_tap_tolerance_is_no_tap() {
    assert_eq!(gesture((100, 100), (119, 100)), Gesture::Nothing);
    assert_eq!(gesture((100, 100), (100, 119)), Gesture::Nothing);
    assert_eq!(gesture((100, 100), (81, 118)), Gesture::Nothing);
}

#[test]
fn second_swipe_within_cooldown_is_suppressed() {
    let ends: [((i16, i16), (i16, i16)); 4] = [
        ((200, 50), (120, 55)),
        ((50, 200), (58, 260)),
        ((0, 0), (479, 319)),
        ((300, 300), (10, 290)),
    ];
    for (start, end) in ends {
        let mut touch = TouchState::new();
        assert_eq!(press_and_release(&mut touch, (200, 50), (120, 55), 5_000), Gesture::SwipeLeft);
        assert_eq!(press_and_release(&mut touch, start, end, 5_299), Gesture::Nothing);
    }
}

#[test]
fn swipe_at_the_end_of_the_cooldown_is_reported() {
    let mut touch = TouchState::new();
    assert_eq!(press_and_release(&mut touch, (200, 50), (120, 55), 5_000), Gesture::SwipeLeft);
    assert_eq!(press_and_release(&mut touch, (50, 200), (58, 260), 5_300), Gesture::SwipeDown);
}

#[test]
fn suppressed_swipe_does_not_extend_the_cooldown() {
    let mut touch = TouchState::new();
    assert_eq!(press_and_release(&mut touch, (200, 50), (120, 55), 5_000), Gesture::SwipeLeft);
    assert_eq!(press_and_release(&mut touch, (200, 50), (120, 55), 5_200), Gesture::Nothing);
    assert_eq!(press_and_release(&mut touch, (200, 50), (120, 55), 5_400), Gesture::SwipeLeft);
}

#[test]
fn cooldown_survives_the_clock_wrapping_around() {
    let mut touch = TouchState::new();
    assert_eq!(
        press_and_release(&mut touch, (200, 50), (120, 55), u32::MAX - 99),
        Gesture::SwipeLeft
    );
    assert_eq!(press_and_release(&mut touch, (200, 50), (120, 55), 150), Gesture::Nothing);
    assert_eq!(press_and_release(&mut touch, (200, 50), (120, 55), 200), Gesture::SwipeLeft);
}

#[test]
fn first_swipe_right_after_start_is_reported() {
    let mut touch = TouchState::new();
    assert_eq!(touch.last_swipe_ms(), None);
    assert_eq!(touch.poll(Some((200, 50)), 50), Gesture::Nothing);
    assert_eq!(touch.poll(Some((120, 55)), 100), Gesture::Nothing);
    assert_eq!(touch.poll(None, 150), Gesture::SwipeLeft);
    assert_eq!(touch.last_swipe_ms(), Some(150));

    let mut touch = TouchState::new();
    assert_eq!(press_and_release(&mut touch, (200, 50), (120, 55), 299), Gesture::SwipeLeft);
    assert_eq!(press_and_release(&mut touch, (200, 50), (120, 55), 598), Gesture::Nothing);
    assert_eq!(press_and_release(&mut touch, (200, 50), (120, 55), 599), Gesture::SwipeLeft);

    let mut touch = TouchState::new();
    assert_eq!(press_and_release(&mut touch, (50, 200), (58, 260), 0), Gesture::SwipeDown);
    assert_eq!(touch.last_swipe_ms(), Some(0));
}

#[test]
fn first_swipe_is_reported_at_any_clock_reading() {
    for release_ms in [0u32, 1, 299, 300, 70_000, u32::MAX - 1, u32::MAX] {
        let mut touch = TouchState::new();
        assert_eq!(
            press_and_release(&mut touch, (200, 50), (120, 55), release_ms),
            Gesture::SwipeLeft
        );
        assert_eq!(touch.last_swipe_ms(), Some(release_ms));
    }
}

#[test]
fn taps_and_unclassified_moves_start_no_cooldown() {
    let mut touch = TouchState::new();
    assert_eq!(
        press_and_release(&mut touch, (10, 10), (12, 9), 1_000),
        Gesture::Tap { x: 12, y: 9 }
    );
    assert_eq!(touch.last_swipe_ms(), None);
    assert_eq!(press_and_release(&mut touch, (100, 100), (130, 100), 1_100), Gesture::Nothing);
    assert_eq!(touch.last_swipe_ms(), None);
    assert_eq!(press_and_release(&mut touch, (200, 50), (120, 55), 1_200), Gesture::SwipeLeft);
    assert_eq!(touch.last_swipe_ms(), Some(1_200));
    assert_eq!(press_and_release(&mut touch, (200, 50), (120, 55), 1_300), Gesture::Nothing);
    assert_eq!(touch.last_swipe_ms(), Some(1_200));
}

#[test]
fn swipe_thresholds() {
    assert_eq!(gesture((100, 100), (164, 100)), Gesture::SwipeRight);
    assert_eq!(gesture((100, 100), (163, 100)), Gesture::Nothing);
    assert_eq!(gesture((100, 100), (100, 148)), Gesture::SwipeDown);
    assert_eq!(gesture((100, 100), (100, 147)), Gesture::Nothing);
    assert_eq!(gesture((100, 100), (36, 100)), Gesture::SwipeLeft);
    assert_eq!(gesture((100, 100), (100, 52)), Gesture::SwipeUp);
}

#[test]
fn equal_travel_on_both_axes_is_vertical() {
    assert_eq!(gesture((100, 100), (170, 170)), Gesture::SwipeDown);
    assert_eq!(gesture((100, 100), (30, 30)), Gesture::SwipeUp);
}

#[test]
fn mostly_horizontal_move_with_steep_cross_travel() {
    assert_eq!(gesture((0, 100), (100, 130)), Gesture::SwipeRight);
    assert_eq!(gesture((0, 100), (100, 147)), Gesture::SwipeRight);
    assert_eq!(gesture((0, 100), (100, 200)), Gesture::SwipeDown);
    assert_eq!(gesture((0, 100), (81, 180)), Gesture::SwipeRight);
}

#[test]
fn idle_polls_report_nothing() {
    let mut touch = TouchState::new();
    for t in 0..5 {
        assert_eq!(touch.poll(None, t * 100), Gesture::Nothing);
        assert!(!touch.is_pressed());
    }
}

#[test]
fn one_gesture_per_press() {
    let mut touch = TouchState::new();
    assert_eq!(touch.poll(Some((200, 50)), 1_000), Gesture::Nothing);
    assert_eq!(touch.poll(Some((160, 52)), 1_100), Gesture::Nothing);
    assert_eq!(touch.poll(Some((120, 55)), 1_200), Gesture::Nothing);
    assert_eq!(touch.poll(None, 1_300), Gesture::SwipeLeft);
    assert_eq!(touch.poll(None, 1_400), Gesture::Nothing);
    assert_eq!(touch.poll(None, 1_500), Gesture::Nothing);
}

#[test]
fn start_point_is_the_first_contact() {
    let mut touch = TouchState::new();
    assert_eq!(touch.poll(Some((10, 10)), 1_000), Gesture::Nothing);
    assert_eq!(touch.poll(Some((300, 10)), 1_100), Gesture::Nothing);
    assert_eq!(touch.poll(Some((12, 11)), 1_200), Gesture::Nothing);
    assert_eq!(touch.poll(None, 1_300), Gesture::Tap { x: 12, y: 11 });
}

#[test]
fn extreme_coordinates_do_not_overflow() {
    assert_eq!(gesture((i16::MIN, 0), (i16::MAX, 0)), Gesture::SwipeRight);
    assert_eq!(gesture((0, i16::MAX), (0, i16::MIN)), Gesture::SwipeUp);
    assert_eq!(gesture((i16::MAX, i16::MAX), (i16::MIN, i16::MIN)), Gesture::SwipeUp);
}

fn frame(points: u8, x: u16, y: u16) -> [u8; 14] {
    let mut f = [0u8; 14];
    f[1] = points;
    f[2] = 0xA0 | ((x >> 8) as u8 & 0x0F);
    f[3] = (x & 0xFF) as u8;
    f[4] = 0x50 | ((y >> 8) as u8 & 0x0F);
    f[5] = (y & 0xFF) as u8;
    f
}

#[test]
fn frames_without_contact() {
    assert_eq!(parse_touch_frame(&frame(0, 10, 10), Orientation::Landscape), None);
    assert_eq!(parse_touch_frame(&frame(3, 10, 10), Orientation::Landscape), None);
    assert_eq!(parse_touch_frame(&[0xBC; 14], Orientation::Landscape), None);
    assert_eq!(parse_touch_frame(&[0u8; 14], Orientation::Portrait), None);
}

#[test]
fn frame_points_turn_with_the_orientation() {
    let f = frame(1, 100, 200);
    assert_eq!(parse_touch_frame(&f, Orientation::Landscape), Some((200, 219)));
    assert_eq!(parse_touch_frame(&f, Orientation::LandscapeFlipped), Some((279, 100)));
    assert_eq!(parse_touch_frame(&f, Orientation::Portrait), Some((100, 200)));
    assert_eq!(parse_touch_frame(&f, Orientation::PortraitFlipped), Some((219, 279)));
    assert_eq!(parse_touch_frame(&frame(2, 0, 0), Orientation::Landscape), Some((0, 319)));
    assert_eq!(parse_touch_frame(&frame(1, 319, 479), Orientation::Landscape), Some((479, 0)));
}

#[test]
fn frame_coordinates_use_twelve_bits() {
    let f = frame(1, 0x0FFF, 0x0ABC);
    assert_eq!(parse_touch_frame(&f, Orientation::Portrait), Some((4095, 0x0ABC)));
    assert_eq!(parse_touch_frame(&f, Orientation::Landscape), Some((0x0ABC, 319 - 4095)));
}
