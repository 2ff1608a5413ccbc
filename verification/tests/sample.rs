use candle_chart::candle::Candle;
use candle_chart::sample::{candles_from_draws, sample_candles, Draws, FIRST_OPEN, HOUR, SWING, VOLUME_SPAN};

const START: i64 = 1_664_582_400;

#[test]
fn a_candle_from_draws_exact_values() {
    let d = Draws { rise: 1 << 31, fall: 1 << 30, close: 1 << 31, volume: u32::MAX };
    let c = Candle::from_draws(10_000, START, d);
    // half of 5.00 up, a quarter of 5.00 down, the close half way between
    assert_eq!(
        c,
        Candle { open: 10_000, low: 9_875, high: 10_250, close: 10_062, volume: Some(99_999), time: START }
    );
    let still = Draws { rise: 0, fall: 0, close: u32::MAX, volume: 0 };
    let c = Candle::from_draws(-7, 3, still);
    assert_eq!(c, Candle { open: -7, low: -7, high: -7, close: -7, volume: Some(0), time: 3 });
    let most = Draws { rise: u32::MAX, fall: u32::MAX, close: u32::MAX, volume: 1 << 31 };
    let c = Candle::from_draws(0, 0, most);
    assert_eq!(c, Candle { open: 0, low: -499, high: 499, close: 498, volume: Some(50_000), time: 0 });
}

#[test]
fn a_walk_from_draws_chains_the_candles() {
    let draws = vec![
        Draws { rise: 1 << 31, fall: 1 << 30, close: 1 << 31, volume: 0 },
        Draws { rise: 0, fall: u32::MAX, close: 0, volume: 1 << 31 },
        Draws { rise: 1 << 30, fall: 0, close: u32::MAX, volume: u32::MAX },
    ];
    let out = candles_from_draws(START, &draws);
    assert_eq!(
        out,
        vec![
            Candle { open: 10_000, low: 9_875, high: 10_250, close: 10_062, volume: Some(0), time: START },
            Candle { open: 10_062, low: 9_563, high: 10_062, close: 9_563, volume: Some(50_000), time: START + 3_600 },
            Candle { open: 9_563, low: 9_563, high: 9_688, close: 9_687, volume: Some(99_999), time: START + 7_200 },
        ]
    );
    assert_eq!(candles_from_draws(START, &Vec::new()), Vec::new());
}

#[test]
fn a_random_walk_is_well_formed() {
    assert_eq!(FIRST_OPEN, 10_000);
    assert_eq!(SWING, 500);
    assert_eq!(VOLUME_SPAN, 100_000);
    assert_eq!(HOUR, 3_600);
    for _ in 0..50 {
        let out = sample_candles(START, 24);
        assert_eq!(out.len(), 24);
        assert_eq!(out[0].open, FIRST_OPEN);
        for (i, c) in out.iter().enumerate() {
            assert_eq!(c.time, START + HOUR * i as i64);
            assert!(c.low <= c.open && c.open <= c.high);
            assert!(c.low <= c.close && c.close <= c.high);
            assert!(c.high - c.open < SWING as i64);
            assert!(c.open - c.low < SWING as i64);
            assert!(c.volume.unwrap() < VOLUME_SPAN);
            if i > 0 {
                assert_eq!(c.open, out[i - 1].close);
            }
        }
    }
    assert!(sample_candles(START, 0).is_empty());
}

#[test]
fn random_walks_differ() {
    let a = sample_candles(START, 24);
    let mut differs = false;
    for _ in 0..20 {
        if sample_candles(START, 24) != a {
            differs = true;
        }
    }
    assert!(differs);
}
