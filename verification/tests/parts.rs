use sentiment::config::SentimentConfig;
use sentiment::engine::derive_sentiment;
use sentiment::mood::MarketMood;
use sentiment::noise::{uniform_draw, uniform_draws};
use sentiment::stock::{all_distinct, instrument_ids, instrument_ports, Stock};
use sentiment::store::SentimentStore;
use sentiment::units::{clamp_to_unit, div_toward_zero, isqrt, SCALE};
use sentiment::window::SampleWindow;
use sentiment::wire::{destination, encode_sentiment, multicast_group, push_decimal};

#[test]
fn default_config_has_documented_values() {
    let c = SentimentConfig::default();
    assert_eq!(c.tick_interval_ms, 100);
    assert_eq!(c.mean, 0);
    assert_eq!(c.reversion_speed, 500_000);
    assert_eq!(c.volatility, 200_000);
    assert_eq!(c.broadcast_interval_ms, 5);
    assert_eq!(c.multicast_ttl, 1);
    assert_eq!(c.offset, 500_000);
    assert!(c.is_valid());
}

#[test]
fn config_is_valid_only_with_positive_volatility() {
    let base = SentimentConfig::default();
    assert!(SentimentConfig { volatility: 1, ..base }.is_valid());
    assert!(!SentimentConfig { volatility: 0, ..base }.is_valid());
    assert!(!SentimentConfig { volatility: i32::MIN, ..base }.is_valid());
}

#[test]
fn scale_is_one_million() {
    assert_eq!(SCALE, 1_000_000);
}

#[test]
fn clamp_limits_to_unit_interval() {
    assert_eq!(clamp_to_unit(0), 0);
    assert_eq!(clamp_to_unit(999_999), 999_999);
    assert_eq!(clamp_to_unit(1_000_000), 1_000_000);
    assert_eq!(clamp_to_unit(1_000_001), 1_000_000);
    assert_eq!(clamp_to_unit(-1_000_000), -1_000_000);
    assert_eq!(clamp_to_unit(-1_000_001), -1_000_000);
    assert_eq!(clamp_to_unit(i128::MAX), 1_000_000);
    assert_eq!(clamp_to_unit(i128::MIN), -1_000_000);
}

#[test]
fn division_rounds_toward_zero() {
    assert_eq!(div_toward_zero(7, 2), 3);
    assert_eq!(div_toward_zero(-7, 2), -3);
    assert_eq!(div_toward_zero(6, 2), 3);
    assert_eq!(div_toward_zero(-6, 2), -3);
    assert_eq!(div_toward_zero(1, 10), 0);
    assert_eq!(div_toward_zero(-1, 10), 0);
    assert_eq!(div_toward_zero(0, 10), 0);
}

#[test]
fn isqrt_rounds_down() {
    assert_eq!(isqrt(0), 0);
    assert_eq!(isqrt(1), 1);
    assert_eq!(isqrt(3), 1);
    assert_eq!(isqrt(4), 2);
    assert_eq!(isqrt(99), 9);
    assert_eq!(isqrt(100), 10);
    assert_eq!(isqrt(100_000_000_000), 316_227);
    assert_eq!(isqrt(u64::MAX), 4_294_967_295);
}

#[test]
fn mood_starts_neutral_and_follows_the_recurrence() {
    let cfg = SentimentConfig::default();
    let mut mood = MarketMood::new();
    assert_eq!(mood.value(), 0);
    // 0.2 * 1.0 * sqrt(0.1)
    assert_eq!(mood.advance(&cfg, 1_000_000), 63_245);
    assert_eq!(mood.value(), 63_245);
    // 0.063245 + 0.5 * -0.063245 * 0.1 + 0.2 * -0.5 * sqrt(0.1)
    assert_eq!(mood.advance(&cfg, -500_000), 63_245 - 3_162 - 31_622);
}

#[test]
fn mood_is_pulled_toward_the_mean() {
    let cfg = SentimentConfig { mean: 800_000, reversion_speed: 2_000_000, volatility: 1, ..SentimentConfig::default() };
    let mut mood = MarketMood::new();
    // 2.0 * (0.8 - 0) * 0.1
    assert_eq!(mood.advance(&cfg, 0), 160_000);
    // 0.16 + 2.0 * 0.64 * 0.1
    assert_eq!(mood.advance(&cfg, 0), 288_000);
}

#[test]
fn mood_is_clamped_at_both_ends() {
    let cfg = SentimentConfig::default();
    let mut mood = MarketMood::new();
    assert_eq!(mood.advance(&cfg, i64::MAX), 1_000_000);
    assert_eq!(mood.advance(&cfg, i64::MIN), -1_000_000);
    let wild = SentimentConfig {
        tick_interval_ms: u32::MAX,
        mean: i32::MAX,
        reversion_speed: i32::MAX,
        volatility: i32::MAX,
        ..cfg
    };
    assert_eq!(mood.advance(&wild, i64::MAX), 1_000_000);
    let down = SentimentConfig { mean: i32::MIN, ..wild };
    assert_eq!(mood.advance(&down, i64::MIN), -1_000_000);
}

#[test]
fn sentiment_is_mood_plus_noise_plus_offset() {
    let cfg = SentimentConfig::default();
    assert_eq!(derive_sentiment(&cfg, 0, 0), 500_000);
    assert_eq!(derive_sentiment(&cfg, 0, 1_000_000), 520_000);
    assert_eq!(derive_sentiment(&cfg, 0, -999_999), 480_001);
    assert_eq!(derive_sentiment(&cfg, -700_000, 500_000), -190_000);
    assert_eq!(derive_sentiment(&cfg, 600_000, 0), 1_000_000);
    let low = SentimentConfig { offset: -500_000, ..cfg };
    assert_eq!(derive_sentiment(&low, -600_000, 0), -1_000_000);
    assert_eq!(derive_sentiment(&low, i64::MIN, i64::MIN), -1_000_000);
    assert_eq!(derive_sentiment(&cfg, i64::MAX, i64::MAX), 1_000_000);
}

#[test]
fn uniform_draws_lie_in_range_and_vary() {
    let draws = uniform_draws(1000);
    assert_eq!(draws.len(), 1000);
    assert!(draws.iter().all(|d| -SCALE <= *d && *d < SCALE));
    assert!(draws.iter().any(|d| *d != -SCALE));
    assert!(draws.iter().any(|d| *d != draws[0]));
    assert!(uniform_draws(0).is_empty());
    let one = uniform_draw();
    assert!(-SCALE <= one && one < SCALE);
}

fn stock(id: u64, port: u64) -> Stock {
    Stock {
        ticker: format!("T{}", id),
        id,
        company_name: format!("Company {}", id),
        total_float: 1,
        initial_price: 1_000_000,
        sentiment_port: port,
    }
}

#[test]
fn ids_and_ports_come_in_order() {
    let stocks = vec![stock(3, 30), stock(1, 10), stock(2, 20)];
    assert_eq!(instrument_ids(&stocks), vec![3, 1, 2]);
    assert_eq!(instrument_ports(&stocks), vec![30, 10, 20]);
    assert!(instrument_ids(&Vec::new()).is_empty());
}

#[test]
fn all_distinct_finds_repeats() {
    assert!(all_distinct(&vec![]));
    assert!(all_distinct(&vec![5]));
    assert!(all_distinct(&vec![1, 2, 3]));
    assert!(!all_distinct(&vec![1, 2, 1]));
    assert!(!all_distinct(&vec![2, 2]));
    assert!(!all_distinct(&vec![1, 2, 3, 3]));
}

#[test]
fn store_holds_exactly_the_given_ids() {
    let mut store = SentimentStore::new(&vec![1, 2]);
    assert!(store.contains(1));
    assert!(store.contains(2));
    assert!(!store.contains(3));
    assert_eq!(store.get(1), 0);
    assert_eq!(store.get(3), 0);

    assert!(store.set(1, 250_000));
    assert_eq!(store.get(1), 250_000);
    assert_eq!(store.get(2), 0);
    assert!(store.set(1, -1));
    assert_eq!(store.get(1), -1);

    assert!(!store.set(3, 777));
    assert!(!store.contains(3));
    assert_eq!(store.get(3), 0);
    assert_eq!(store.get(1), -1);
}

#[test]
fn payload_text_has_six_digits_after_the_point() {
    assert_eq!(encode_sentiment(123_456), b"0.123456".to_vec());
    assert_eq!(encode_sentiment(0), b"0.000000".to_vec());
    assert_eq!(encode_sentiment(1), b"0.000001".to_vec());
    assert_eq!(encode_sentiment(-1), b"-0.000001".to_vec());
    assert_eq!(encode_sentiment(-500_000), b"-0.500000".to_vec());
    assert_eq!(encode_sentiment(1_000_000), b"1.000000".to_vec());
    assert_eq!(encode_sentiment(-1_000_000), b"-1.000000".to_vec());
    assert_eq!(encode_sentiment(12_345_000_050), b"12345.000050".to_vec());
    assert_eq!(encode_sentiment(i64::MAX), b"9223372036854.775807".to_vec());
    assert_eq!(encode_sentiment(i64::MIN), b"-9223372036854.775808".to_vec());
}

#[test]
fn payload_text_agrees_with_float_formatting() {
    for v in [-1_000_000i64, -999_999, -250_000, -1, 0, 1, 63_245, 500_000, 1_000_000] {
        let expected = format!("{:.6}", v as f64 / 1_000_000.0);
        assert_eq!(String::from_utf8(encode_sentiment(v)).unwrap(), expected);
    }
}

#[test]
fn decimal_is_appended_without_leading_zeros() {
    let mut out = b"x".to_vec();
    push_decimal(&mut out, 0);
    push_decimal(&mut out, 7);
    push_decimal(&mut out, 10);
    push_decimal(&mut out, 18001);
    push_decimal(&mut out, u64::MAX);
    assert_eq!(out, b"x07101800118446744073709551615".to_vec());
}

#[test]
fn destination_is_group_and_port() {
    assert_eq!(multicast_group(), [224, 0, 0, 123]);
    assert_eq!(destination(18001), b"224.0.0.123:18001".to_vec());
    assert_eq!(destination(0), b"224.0.0.123:0".to_vec());
    assert_eq!(destination(70000), b"224.0.0.123:70000".to_vec());
}

#[test]
fn window_keeps_the_latest_samples() {
    let mut w: SampleWindow<[f64; 2]> = SampleWindow::new(3);
    assert_eq!(w.capacity(), 3);
    assert_eq!(w.len(), 0);
    for i in 0..3 {
        w.push([i as f64, 0.5]);
    }
    assert_eq!(w.samples(), &vec![[0.0, 0.5], [1.0, 0.5], [2.0, 0.5]]);
    w.push([3.0, -0.5]);
    assert_eq!(w.samples(), &vec![[1.0, 0.5], [2.0, 0.5], [3.0, -0.5]]);
    assert_eq!(w.len(), 3);
}

#[test]
fn window_of_a_thousand_drops_the_oldest() {
    let mut w: SampleWindow<u32> = SampleWindow::new(1_000);
    for i in 0..1_500u32 {
        w.push(i);
    }
    assert_eq!(w.len(), 1_000);
    assert_eq!(w.samples()[0], 500);
    assert_eq!(w.samples()[999], 1_499);
}

#[test]
fn window_without_room_stays_empty() {
    let mut w: SampleWindow<u8> = SampleWindow::new(0);
    w.push(1);
    assert_eq!(w.len(), 0);
}
