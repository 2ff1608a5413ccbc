use candle_chart::candle::Candle;
use candle_chart::draw::Bounds;
use candle_chart::event::{Event, MouseButton, MouseEvent, ScrollDelta};
use candle_chart::mapper::CoordinateMapper;
use candle_chart::viewport::CandleChartState;

fn candle(open: i64, high: i64, low: i64, close: i64) -> Candle {
    Candle { open, low, high, close, volume: None, time: 0 }
}

fn state_after(lines: &[i32]) -> CandleChartState {
    let mut state = CandleChartState::default();
    state.apply(Event::Mouse(MouseEvent::ButtonPressed(MouseButton::Middle)));
    for y in lines {
        state.apply(Event::Mouse(MouseEvent::WheelScrolled { delta: ScrollDelta::Lines { x: 0, y: *y } }));
    }
    state
}

fn walk() -> Vec<Candle> {
    let mut out = Vec::new();
    let mut seed: u64 = 7;
    let mut open: i64 = 10_000;
    for _ in 0..40 {
        seed = seed.wrapping_mul(6_364_136_223_846_793_005).wrapping_add(1_442_695_040_888_963_407);
        let up = (seed >> 33) as i64 % 500;
        let down = (seed >> 13) as i64 % 500;
        let close = open - down + (seed >> 23) as i64 % (up + down + 1);
        out.push(candle(open, open + up, open - down, close));
        open = close;
    }
    out
}

/// The pixel that floating point gives for a price, all in ordinary units.
fn float_y(candles: &[Candle], height: f64, price_scale: f64, price: f64) -> f64 {
    let (min, max) = candles.iter().fold((f64::INFINITY, f64::NEG_INFINITY), |(min, max), c| {
        (f64::min(min, c.low as f64 / 100.0), f64::max(max, c.high as f64 / 100.0))
    });
    let range = (max - min) / price_scale;
    let mid = (max + min) / 2.0;
    let bottom = mid - range / 2.0;
    let top = mid + range / 2.0;
    height - ((price - bottom) / (top - bottom + f64::EPSILON)) * height
}

#[test]
fn price_to_y_agrees_with_floating_point() {
    let candles = walk();
    let area = Bounds { width: 800_000, height: 600_000 };
    for lines in [vec![], vec![2_000], vec![-3_000], vec![5_000, 5_000], vec![-3_000, -3_000, -3_000]] {
        let state = state_after(&lines);
        let mapper = CoordinateMapper::new(&candles, area, &state).unwrap();
        let scale = state.price_scale() as f64 / 1_000_000.0;
        for c in &candles {
            for p in [c.open, c.high, c.low, c.close] {
                let want = float_y(&candles, 600.0, scale, p as f64 / 100.0);
                let got = mapper.price_to_y(p) as f64 / 1000.0;
                assert!((got - want).abs() < 0.002, "{} against {}", got, want);
            }
        }
    }
}

#[test]
fn horizontal_places_agree_with_floating_point() {
    let candles = walk();
    let area = Bounds { width: 800_000, height: 600_000 };
    for lines in [vec![], vec![2_000], vec![-3_000], vec![5_000, 5_000], vec![-9_000]] {
        let state = state_after(&lines);
        let mapper = CoordinateMapper::new(&candles, area, &state).unwrap();
        let scaled_count = candles.len() as f64 * (state.time_scale() as f64 / 1_000_000.0);
        let spacing = 800.0 / scaled_count.max(1.0);
        let width = spacing * 0.7;
        assert!((mapper.candle_spacing() as f64 / 1000.0 - spacing).abs() < 0.002);
        assert!((mapper.candle_width() as f64 / 1000.0 - width).abs() < 0.002);
        for i in 0..candles.len() {
            let x = i as f64 * spacing + spacing / 2.0;
            assert!((mapper.index_to_x(i) as f64 / 1000.0 - x).abs() < 0.002);
            assert!((mapper.body_left(i) as f64 / 1000.0 - (x - width / 2.0)).abs() < 0.002);
        }
    }
}

#[test]
fn levels_agree_with_floating_point() {
    let candles = walk();
    let area = Bounds { width: 800_000, height: 600_000 };
    for lines in [vec![], vec![2_000], vec![-3_000]] {
        let state = state_after(&lines);
        let mapper = CoordinateMapper::new(&candles, area, &state).unwrap();
        let scale = state.price_scale() as f64 / 1_000_000.0;
        let min = mapper.min_price() as f64 / 100.0;
        let max = mapper.max_price() as f64 / 100.0;
        let range = (max - min) / scale;
        let bottom = (max + min) / 2.0 - range / 2.0;
        for j in 0..=5u8 {
            let price = bottom + (j as f64 / 5.0) * range;
            let want = float_y(&candles, 600.0, scale, price);
            assert!((mapper.level_to_y(j) as f64 / 1000.0 - want).abs() < 0.002);
            assert!((mapper.level_price(j) as f64 / 100.0 - price).abs() <= 0.005 + 1e-9);
        }
    }
}

#[test]
fn zoom_agrees_with_floating_point() {
    let mut state = CandleChartState::default();
    state.apply(Event::Mouse(MouseEvent::ButtonPressed(MouseButton::Middle)));
    let mut price_scale: f64 = 1.0;
    let moves = [1.0, 1.0, -2.0, 0.5, 3.0, -1.0, -1.0, -1.0, 7.0, 7.0, -4.0];
    for lines in moves {
        let y = (lines * 1000.0) as i32;
        state.apply(Event::Mouse(MouseEvent::WheelScrolled { delta: ScrollDelta::Lines { x: 0, y } }));
        let before = state.price_scale() as f64 / 1_000_000.0;
        price_scale *= 1.0 + lines * 0.1;
        price_scale = price_scale.clamp(0.1, 10.0);
        // each step rounds by no more than half a millionth
        assert!((price_scale - before).abs() < 0.0001, "{} against {}", before, price_scale);
    }
}
