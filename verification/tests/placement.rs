use emoji_picker::caret_locator::{get_caret_pos, is_readable, CaretReading, Position};
use emoji_picker::handlers::caret_locator::{
    can_place, get_window_position, CaretPosition, Surroundings,
};
use emoji_picker::handlers::no_activate::{setup, WS_EX_NOACTIVATE};

fn screen() -> Surroundings {
    Surroundings { width: 400, height: 300, left: 0, top: 0, right: 1920, bottom: 1040 }
}

#[test]
fn caret_of_the_accessibility_interface_gives_its_lower_left_corner() {
    let reading = CaretReading::Accessible { x: 100, y: 200, w: 2, h: 18 };
    assert!(is_readable(reading));
    assert_eq!(get_caret_pos(reading), Some(Position { x: 100, y: 218 }));
}

#[test]
fn legacy_caret_gives_its_point_on_the_screen() {
    let point = Position { x: -5, y: 12 };
    assert_eq!(get_caret_pos(CaretReading::Legacy { on_screen: Some(point) }), Some(point));
    assert_eq!(get_caret_pos(CaretReading::Legacy { on_screen: None }), None);
}

#[test]
fn caret_that_cannot_be_asked_for_gives_nothing() {
    assert!(is_readable(CaretReading::Unavailable));
    assert_eq!(get_caret_pos(CaretReading::Unavailable), None);
}

#[test]
fn caret_beyond_the_coordinates_is_not_readable() {
    assert!(!is_readable(CaretReading::Accessible { x: 0, y: i32::MAX, w: 1, h: 1 }));
    assert!(is_readable(CaretReading::Accessible { x: 0, y: i32::MAX - 1, w: 1, h: 1 }));
    assert!(!is_readable(CaretReading::Accessible { x: 0, y: i32::MIN, w: 1, h: -1 }));
}

#[test]
fn window_goes_below_the_caret_where_it_fits() {
    let caret = CaretPosition { x: 500, y: 400, w: 2, h: 20 };
    assert!(can_place(caret, Some(screen())));
    assert_eq!(get_window_position(caret, Some(screen())), Position { x: 500, y: 420 });
}

#[test]
fn window_goes_above_the_caret_near_the_bottom() {
    let caret = CaretPosition { x: 500, y: 900, w: 2, h: 20 };
    assert_eq!(get_window_position(caret, Some(screen())), Position { x: 500, y: 600 });
}

#[test]
fn window_is_pulled_left_near_the_right_edge() {
    let caret = CaretPosition { x: 1800, y: 100, w: 2, h: 20 };
    assert_eq!(get_window_position(caret, Some(screen())), Position { x: 1518, y: 120 });
}

#[test]
fn window_starts_at_the_work_area_for_a_caret_outside() {
    let caret = CaretPosition { x: -50, y: -30, w: 2, h: 20 };
    assert_eq!(get_window_position(caret, Some(screen())), Position { x: 0, y: 0 });
}

#[test]
fn window_stays_inside_the_work_area() {
    let caret = CaretPosition { x: 5000, y: 5000, w: 2, h: 20 };
    assert_eq!(get_window_position(caret, Some(screen())), Position { x: 1518, y: 740 });
    let caret = CaretPosition { x: 5000, y: 5000, w: -10, h: 20 };
    assert_eq!(get_window_position(caret, Some(screen())), Position { x: 1520, y: 740 });
    let caret = CaretPosition { x: 100, y: 200, w: 2, h: 20 };
    let tall = Surroundings { width: 400, height: 1000, left: 0, top: 0, right: 1920, bottom: 1040 };
    assert_eq!(get_window_position(caret, Some(tall)), Position { x: 100, y: 0 });
}

#[test]
fn window_goes_just_below_the_caret_without_surroundings() {
    let caret = CaretPosition { x: 7, y: 9, w: 2, h: 20 };
    assert!(can_place(caret, None));
    assert_eq!(get_window_position(caret, None), Position { x: 7, y: 29 });
}

#[test]
fn second_monitor_left_of_the_first() {
    let left = Surroundings { width: 400, height: 300, left: -1920, top: 0, right: 0, bottom: 1080 };
    let caret = CaretPosition { x: -100, y: 50, w: 1, h: 16 };
    assert!(can_place(caret, Some(left)));
    assert_eq!(get_window_position(caret, Some(left)), Position { x: -401, y: 66 });
}

#[test]
fn window_larger_than_the_work_area_cannot_be_placed() {
    let caret = CaretPosition { x: 10, y: 10, w: 2, h: 20 };
    let small = Surroundings { width: 400, height: 300, left: 0, top: 0, right: 300, bottom: 1040 };
    assert!(!can_place(caret, Some(small)));
    let low = Surroundings { width: 400, height: 300, left: 0, top: 0, right: 1920, bottom: 200 };
    assert!(!can_place(caret, Some(low)));
}

#[test]
fn sums_beyond_the_coordinates_cannot_be_placed() {
    let far = CaretPosition { x: i32::MAX - 1, y: 10, w: 2, h: 20 };
    assert!(!can_place(far, Some(screen())));
    let deep = CaretPosition { x: 10, y: i32::MAX, w: 2, h: 20 };
    assert!(!can_place(deep, None));
    assert!(!can_place(deep, Some(screen())));
    let left_of = CaretPosition { x: -10, y: 10, w: i32::MAX, h: 20 };
    assert!(can_place(left_of, Some(screen())));
}

#[test]
fn no_activate_bit_is_set_and_cleared() {
    assert_eq!(WS_EX_NOACTIVATE, 0x0800_0000);
    assert_eq!(setup(0, true), 0x0800_0000);
    assert_eq!(setup(0x0008_0088, true), 0x0808_0088);
    assert_eq!(setup(0x0808_0088, true), 0x0808_0088);
    assert_eq!(setup(0x0808_0088, false), 0x0008_0088);
    assert_eq!(setup(0x0008_0088, false), 0x0008_0088);
    assert_eq!(setup(u32::MAX, false), 0xF7FF_FFFF);
}
