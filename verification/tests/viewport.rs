use candle_chart::event::{Event, MouseButton, MouseEvent, ScrollDelta, Status};
use candle_chart::viewport::{zoom_scale, CandleChartState, SCALE_MAX, SCALE_MIN, SCALE_ONE};

fn press() -> Event {
    Event::Mouse(MouseEvent::ButtonPressed(MouseButton::Middle))
}

fn release() -> Event {
    Event::Mouse(MouseEvent::ButtonReleased(MouseButton::Middle))
}

fn wheel_lines(y: i32) -> Event {
    Event::Mouse(MouseEvent::WheelScrolled { delta: ScrollDelta::Lines { x: 0, y } })
}

fn wheel_pixels(y: i32) -> Event {
    Event::Mouse(MouseEvent::WheelScrolled { delta: ScrollDelta::Pixels { x: 0, y } })
}

#[test]
fn fresh_state_is_unzoomed_with_button_up() {
    let state = CandleChartState::default();
    assert!(!state.button_held());
    assert_eq!(state.price_scale(), SCALE_ONE);
    assert_eq!(state.time_scale(), SCALE_ONE);
    assert_eq!(SCALE_ONE, 1_000_000);
    assert_eq!(SCALE_MIN, 100_000);
    assert_eq!(SCALE_MAX, 10_000_000);
}

#[test]
fn middle_button_sets_and_clears_the_flag() {
    let mut state = CandleChartState::default();
    assert_eq!(state.apply(press()), Status::Captured);
    assert!(state.button_held());
    assert_eq!(state.apply(release()), Status::Captured);
    assert!(!state.button_held());
    assert_eq!(state.price_scale(), 1_000_000);
    assert_eq!(state.time_scale(), 1_000_000);
}

#[test]
fn other_buttons_and_events_are_ignored() {
    let mut state = CandleChartState::default();
    for button in [MouseButton::Left, MouseButton::Right, MouseButton::Other] {
        assert_eq!(state.apply(Event::Mouse(MouseEvent::ButtonPressed(button))), Status::Ignored);
        assert!(!state.button_held());
        assert_eq!(state.apply(Event::Mouse(MouseEvent::ButtonReleased(button))), Status::Ignored);
    }
    assert_eq!(state.apply(Event::Mouse(MouseEvent::Other)), Status::Ignored);
    assert_eq!(state.apply(Event::Other), Status::Ignored);
    state.apply(press());
    assert_eq!(state.apply(Event::Mouse(MouseEvent::ButtonReleased(MouseButton::Left))), Status::Ignored);
    assert!(state.button_held());
    assert_eq!(state.price_scale(), 1_000_000);
}

#[test]
fn wheel_without_button_changes_nothing_and_is_ignored() {
    let mut state = CandleChartState::default();
    assert_eq!(state.apply(wheel_lines(2_000)), Status::Ignored);
    assert_eq!(state.apply(wheel_pixels(-70_000)), Status::Ignored);
    assert_eq!(state.price_scale(), 1_000_000);
    assert_eq!(state.time_scale(), 1_000_000);
    assert!(!state.button_held());

    state.apply(press());
    state.apply(wheel_lines(2_000));
    state.apply(release());
    assert_eq!(state.apply(wheel_lines(2_000)), Status::Ignored);
    assert_eq!(state.price_scale(), 1_200_000);
    assert_eq!(state.time_scale(), 1_200_000);
}

#[test]
fn two_lines_with_button_held_zoom_by_one_point_two() {
    let mut state = CandleChartState::default();
    state.apply(press());
    assert_eq!(state.apply(wheel_lines(2_000)), Status::Captured);
    assert_eq!(state.price_scale(), 1_200_000);
    assert_eq!(state.time_scale(), 1_200_000);
    assert!(state.button_held());
}

#[test]
fn pixels_count_as_a_fiftieth_of_a_line() {
    let mut state = CandleChartState::default();
    state.apply(press());
    // 100 pixels are two lines
    assert_eq!(state.apply(wheel_pixels(100_000)), Status::Captured);
    assert_eq!(state.price_scale(), 1_200_000);
    assert_eq!(state.time_scale(), 1_200_000);
    assert_eq!(zoom_scale(1_000_000, ScrollDelta::Pixels { x: 0, y: 50_000 }), 1_100_000);
    assert_eq!(zoom_scale(1_000_000, ScrollDelta::Lines { x: 0, y: 1_000 }), 1_100_000);
}

#[test]
fn horizontal_component_plays_no_part() {
    assert_eq!(zoom_scale(1_000_000, ScrollDelta::Lines { x: 9_000, y: 0 }), 1_000_000);
    assert_eq!(zoom_scale(1_000_000, ScrollDelta::Pixels { x: -9_000, y: 0 }), 1_000_000);
    assert_eq!(zoom_scale(1_000_000, ScrollDelta::Lines { x: i32::MIN, y: 2_000 }), 1_200_000);
}

#[test]
fn one_line_at_a_time_multiplies_by_one_point_one() {
    let mut state = CandleChartState::default();
    state.apply(press());
    let expected =
        [1_100_000, 1_210_000, 1_331_000, 1_464_100, 1_610_510, 1_771_561, 1_948_717, 2_143_589];
    for want in expected {
        state.apply(wheel_lines(1_000));
        assert_eq!(state.price_scale(), want);
        assert_eq!(state.time_scale(), want);
    }
}

#[test]
fn repeated_zoom_in_saturates_at_exactly_ten() {
    let mut state = CandleChartState::default();
    state.apply(press());
    let expected = [1_500_000, 2_250_000, 3_375_000, 5_062_500, 7_593_750, 10_000_000, 10_000_000, 10_000_000];
    for want in expected {
        assert_eq!(state.apply(wheel_lines(5_000)), Status::Captured);
        assert_eq!(state.price_scale(), want);
        assert_eq!(state.time_scale(), want);
    }
    for _ in 0..1_000 {
        state.apply(wheel_lines(i32::MAX));
        assert_eq!(state.price_scale(), 10_000_000);
        assert_eq!(state.time_scale(), 10_000_000);
    }
}

#[test]
fn repeated_zoom_out_saturates_at_one_tenth() {
    let mut state = CandleChartState::default();
    state.apply(press());
    let expected = [700_000, 490_000, 343_000, 240_100, 168_070, 117_649, 100_000, 100_000];
    for want in expected {
        state.apply(wheel_lines(-3_000));
        assert_eq!(state.price_scale(), want);
        assert_eq!(state.time_scale(), want);
    }
}

#[test]
fn negative_multiplier_clamps_to_the_minimum() {
    // twenty lines back give the multiplier -1
    assert_eq!(zoom_scale(1_000_000, ScrollDelta::Lines { x: 0, y: -20_000 }), 100_000);
    assert_eq!(zoom_scale(10_000_000, ScrollDelta::Lines { x: 0, y: -10_000 }), 100_000);
    assert_eq!(zoom_scale(10_000_000, ScrollDelta::Lines { x: 0, y: i32::MIN }), 100_000);
    assert_eq!(zoom_scale(u32::MAX, ScrollDelta::Pixels { x: 0, y: i32::MIN }), 100_000);
    assert_eq!(zoom_scale(u32::MAX, ScrollDelta::Lines { x: 0, y: i32::MAX }), 10_000_000);
    assert_eq!(zoom_scale(0, ScrollDelta::Lines { x: 0, y: i32::MAX }), 100_000);
}

#[test]
fn zoom_rounds_to_the_nearest_millionth() {
    // 0.123 * 1.1 = 0.1353
    assert_eq!(zoom_scale(123_000, ScrollDelta::Lines { x: 0, y: 1_000 }), 135_300);
    // 1.234567 * 1.1 = 1.3580237
    assert_eq!(zoom_scale(1_234_567, ScrollDelta::Lines { x: 0, y: 1_000 }), 1_358_024);
    // 1.999 * 0.9995 = 1.9980005: a half goes upward
    assert_eq!(zoom_scale(1_999_000, ScrollDelta::Lines { x: 0, y: -5 }), 1_998_001);
    // 1.000001 * 0.9995 = 0.9995009995
    assert_eq!(zoom_scale(1_000_001, ScrollDelta::Lines { x: 0, y: -5 }), 999_501);
    // 1.0 * 0.9999
    assert_eq!(zoom_scale(1_000_000, ScrollDelta::Lines { x: 0, y: -1 }), 999_900);
    assert_eq!(zoom_scale(1_000_000, ScrollDelta::Lines { x: 0, y: 1 }), 1_000_100);
}

#[test]
fn scales_stay_in_range_under_any_events() {
    let mut state = CandleChartState::default();
    let deltas = [
        7_000, -9_500, i32::MAX, i32::MIN, 1, -1, 123_456, -10_000, -10_001, 40_000, -9_999, 3,
    ];
    let mut seed: u32 = 12_345;
    for round in 0..2_000 {
        seed = seed.wrapping_mul(1_664_525).wrapping_add(1_013_904_223);
        let y = deltas[(seed >> 16) as usize % deltas.len()];
        let event = match round % 5 {
            0 => press(),
            1 => wheel_lines(y),
            2 => wheel_pixels(y),
            3 => wheel_lines(-y.saturating_abs() / 3),
            _ => if seed & 1 == 0 { release() } else { wheel_pixels(y) },
        };
        state.apply(event);
        assert!((SCALE_MIN..=SCALE_MAX).contains(&state.price_scale()));
        assert!((SCALE_MIN..=SCALE_MAX).contains(&state.time_scale()));
    }
}
