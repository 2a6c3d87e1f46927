//! Tests of the rolling Z-score engine.
//!
//! The engine's public interface carries IEEE 754 binary64 values as their
//! bit patterns (`u64`); these tests build the patterns with `f64::to_bits`
//! and read results back with `f64::from_bits`.

use quant_scalper_rust::ZScoreEngine;

fn up(engine: &mut ZScoreEngine, price: f64) -> Option<f64> {
    engine.update(price.to_bits()).map(f64::from_bits)
}

fn mean_of(engine: &ZScoreEngine) -> Option<f64> {
    engine.get_mean().map(f64::from_bits)
}

fn std_of(engine: &ZScoreEngine) -> Option<f64> {
    engine.get_std().map(f64::from_bits)
}

fn z_of(engine: &ZScoreEngine) -> Option<f64> {
    engine.get_zscore().map(f64::from_bits)
}

fn prices_of(engine: &ZScoreEngine) -> Vec<f64> {
    engine.get_prices().into_iter().map(f64::from_bits).collect()
}

/// Naive two-pass reference calculation, for comparison only.
fn reference_zscore(prices: &[f64], current: f64) -> Option<f64> {
    if prices.is_empty() {
        return None;
    }

    let n = prices.len() as f64;
    let mean: f64 = prices.iter().sum::<f64>() / n;

    let variance: f64 = prices.iter().map(|&x| (x - mean).powi(2)).sum::<f64>() / n;

    if variance < 1e-10 {
        return Some(0.0);
    }

    Some((current - mean) / variance.sqrt())
}

#[test]
fn test_new_engine() {
    let engine = ZScoreEngine::new(20);
    assert_eq!(engine.count(), 0);
    assert!(!engine.is_ready());
    assert_eq!(engine.lookback(), 20);
}

#[test]
fn test_warmup() {
    let mut engine = ZScoreEngine::new(5);

    // First 4 updates should return None
    for i in 0..4 {
        assert!(up(&mut engine, 100.0 + i as f64).is_none());
        assert!(!engine.is_ready());
    }

    // 5th update should return a value
    assert!(up(&mut engine, 104.0).is_some());
    assert!(engine.is_ready());
}

#[test]
fn test_zscore_at_mean() {
    let mut engine = ZScoreEngine::new(5);

    // Add prices with mean = 100
    for p in [98.0, 99.0, 100.0, 101.0, 102.0] {
        up(&mut engine, p);
    }

    // Current price (102) is not at mean, but let's verify mean
    let mean = mean_of(&engine).unwrap();
    assert!((mean - 100.0).abs() < 0.001);

    // Update with price at mean
    let z = up(&mut engine, 100.0).unwrap();
    // Z-Score should be close to 0 (actually slightly negative due to window shift)
    assert!(z.abs() < 0.5);
}

#[test]
fn test_no_variance() {
    let mut engine = ZScoreEngine::new(5);

    // All same prices = no variance
    for _ in 0..5 {
        up(&mut engine, 100.0);
    }

    let z = z_of(&engine).unwrap();
    assert_eq!(z, 0.0);
}

#[test]
fn test_reset() {
    let mut engine = ZScoreEngine::new(5);

    for _ in 0..10 {
        up(&mut engine, 100.0);
    }
    assert!(engine.is_ready());

    engine.reset();

    assert_eq!(engine.count(), 0);
    assert!(!engine.is_ready());
    assert!(z_of(&engine).is_none());
}

#[test]
fn test_sliding_window() {
    let mut engine = ZScoreEngine::new(5);

    // Add 10 prices: 0, 1, 2, ..., 9
    for i in 0..10 {
        up(&mut engine, i as f64);
    }

    // Window should contain: 5, 6, 7, 8, 9
    // Mean should be 7
    let mean = mean_of(&engine).unwrap();
    assert!((mean - 7.0).abs() < 0.001);

    assert_eq!(engine.count(), 5);
}

#[test]
fn test_batch_update() {
    let mut engine = ZScoreEngine::new(5);

    let prices = vec![100.0, 101.0, 102.0, 103.0, 104.0, 105.0];
    let z = engine.update_batch(prices.into_iter().map(f64::to_bits).collect());

    assert!(z.is_some());
    assert!(engine.is_ready());
}

// ========== NUMERICAL STABILITY TESTS ==========

#[test]
/// Test: Small values should closely match reference implementation
fn test_small_values_accuracy() {
    let mut engine = ZScoreEngine::new(10);
    let prices: Vec<f64> = (0..20).map(|i| 100.0 + i as f64 * 0.1).collect();

    for price in &prices {
        up(&mut engine, *price);
    }

    let engine_z = z_of(&engine).unwrap();
    let reference_z =
        reference_zscore(prices_of(&engine).as_slice(), *prices.last().unwrap()).unwrap();

    // Allow some tolerance due to different computational paths
    // The shifted data algorithm may have minor numerical differences
    assert!(
        (engine_z - reference_z).abs() < 0.1,
        "Small values: Engine Z={} doesn't closely match reference Z={}",
        engine_z,
        reference_z
    );
}

#[test]
/// Test: Large values shouldn't cause catastrophic cancellation
fn test_large_values_stability() {
    let mut engine = ZScoreEngine::new(20);
    let large_offset = 1_000_000_000.0; // 1 billion

    // Create a series with consistent small variation around a large offset
    // Mean should be large_offset, std dev should be ~0.816 (std dev of [0,1,2])
    for i in 0..30 {
        let price = large_offset + (i % 3) as f64;
        up(&mut engine, price);
    }

    let mean = mean_of(&engine).unwrap();
    let std = std_of(&engine).unwrap();

    // Mean should be close to large_offset + 1.0
    assert!(
        (mean - (large_offset + 1.0)).abs() < 0.1,
        "Large values: Mean drifted too much. Got {}, expected ~{}",
        mean,
        large_offset + 1.0
    );

    // Std dev should be around 0.816 (std dev of [0,1,2])
    assert!(
        (std - 0.816).abs() < 0.01,
        "Large values: Std dev incorrect. Got {}, expected ~0.816",
        std
    );

    // Z-score at the mean should be close to 0
    let z_at_mean = up(&mut engine, large_offset + 1.0);
    assert!(
        z_at_mean.unwrap().abs() < 0.1,
        "Large values: Z-score at mean incorrect. Got {}",
        z_at_mean.unwrap()
    );
}

#[test]
/// Test: Very large values (1e15) - extreme case
fn test_very_large_values() {
    let mut engine = ZScoreEngine::new(10);
    let huge_offset = 1e15;

    // Small variations around huge offset
    for i in 0..15 {
        let price = huge_offset + (i as f64 % 5.0);
        up(&mut engine, price);
    }

    let mean = mean_of(&engine).unwrap();
    let std = std_of(&engine).unwrap();

    // Should maintain precision even at 1e15 scale
    assert!(
        mean.is_finite(),
        "Very large values: Mean became infinite or NaN. Got {}",
        mean
    );

    assert!(
        std.is_finite() && std > 0.0,
        "Very large values: Std dev is invalid: {}",
        std
    );
}

#[test]
/// Test: Wikipedia's example that breaks naive algorithm
/// Sample: (10^9 + 4, 10^9 + 7, 10^9 + 13, 10^9 + 16)
/// True variance: 30
fn test_wikipedia_catastrophic_cancellation() {
    let mut engine = ZScoreEngine::new(4);
    let offset = 1_000_000_000.0;

    // The exact example from Wikipedia
    let prices = [offset + 4.0, offset + 7.0, offset + 13.0, offset + 16.0];

    for price in prices {
        up(&mut engine, price);
    }

    let mean = mean_of(&engine).unwrap();
    let std = std_of(&engine).unwrap();

    // Mean should be offset + 10
    assert!(
        (mean - (offset + 10.0)).abs() < 0.001,
        "Wikipedia example: Mean incorrect. Got {}, expected {}",
        mean,
        offset + 10.0
    );

    // Std dev should be sqrt(30) ≈ 5.477
    let expected_std = (30.0_f64).sqrt();
    assert!(
        (std - expected_std).abs() < 0.001,
        "Wikipedia example: Std dev incorrect. Got {}, expected {}",
        std,
        expected_std
    );

    // Most importantly: std must be POSITIVE (naive would give NaN or crash)
    assert!(
        std > 0.0,
        "Wikipedia example: Std dev should be positive, got {}",
        std
    );
}

#[test]
/// Test: Extreme Wikipedia example (10^9 + offset)
fn test_wikipedia_extreme_case() {
    let mut engine = ZScoreEngine::new(4);
    let offset = 1_000_000_000.0;

    // Same relative values, larger offset (10^9)
    let prices = [offset + 4.0, offset + 7.0, offset + 13.0, offset + 16.0];

    for price in prices {
        up(&mut engine, price);
    }

    let std = std_of(&engine).unwrap();

    // Std dev should still be sqrt(30) ≈ 5.477
    let expected_std = (30.0_f64).sqrt();
    assert!(
        (std - expected_std).abs() < 0.001,
        "Extreme case: Std dev incorrect. Got {}, expected {}",
        std,
        expected_std
    );

    // With naive algorithm at this scale, variance would be NEGATIVE!
    assert!(
        std > 0.0,
        "Extreme case: Std dev should be positive (naive would fail)"
    );
}

#[test]
/// Test: Mixed large and small values
fn test_mixed_scale_values() {
    let mut engine = ZScoreEngine::new(10);

    // Start with small values, then go large
    for i in 0..5 {
        up(&mut engine, 100.0 + i as f64);
    }

    let large_offset = 1e10;
    for i in 0..5 {
        up(&mut engine, large_offset + i as f64);
    }

    let mean = mean_of(&engine).unwrap();
    let std = std_of(&engine).unwrap();

    assert!(mean.is_finite(), "Mixed scale: Mean is invalid: {}", mean);

    assert!(std.is_finite(), "Mixed scale: Std dev is invalid: {}", std);
}

#[test]
/// Test: Negative large values
fn test_negative_large_values() {
    let mut engine = ZScoreEngine::new(10);
    let large_offset = -1_000_000_000.0;

    for i in 0..15 {
        let price = large_offset + (i % 3) as f64;
        up(&mut engine, price);
    }

    let mean = mean_of(&engine).unwrap();
    let std = std_of(&engine).unwrap();

    assert!(mean.is_finite(), "Negative large values: Mean is invalid");

    assert!(
        std.is_finite() && std > 0.0,
        "Negative large values: Std dev is invalid"
    );
}

#[test]
/// Test: Variance should never be negative (numerical precision issue)
fn test_variance_never_negative() {
    let mut engine = ZScoreEngine::new(20);

    // Add values that could cause precision issues with naive algorithm
    for i in 0..30 {
        let price = 1e10 + (i as f64 % 100.0);
        up(&mut engine, price);
    }

    let std = std_of(&engine).unwrap();

    // Std dev must be positive (naive would crash or return NaN)
    assert!(std >= 0.0, "Std dev should never be negative: {}", std);
}

#[test]
/// Test: Zero variance handling
fn test_zero_variance_stability() {
    let mut engine = ZScoreEngine::new(10);

    // All same value - zero variance
    for _ in 0..20 {
        up(&mut engine, 100.0);
    }

    let z = z_of(&engine).unwrap();
    assert_eq!(z, 0.0, "Zero variance should return Z=0");

    // Update with same value
    let z2 = up(&mut engine, 100.0);
    assert_eq!(
        z2.unwrap(),
        0.0,
        "Zero variance with same value should return Z=0"
    );
}

#[test]
/// Test: Nearly zero variance (should handle gracefully)
fn test_nearly_zero_variance() {
    let mut engine = ZScoreEngine::new(10);

    // Very small variations
    for i in 0..15 {
        let price = 100.0 + (i as f64 * 1e-10); // Tiny variations
        up(&mut engine, price);
    }

    let z = z_of(&engine).unwrap();

    // Should be close to 0 but finite
    assert!(
        z.is_finite(),
        "Nearly zero variance produced infinite Z-score: {}",
        z
    );

    // Should be very small since all values are nearly identical
    assert!(
        z.abs() < 10.0,
        "Nearly zero variance produced too large Z-score: {}",
        z
    );
}

#[test]
/// Test: Consistency across different lookback periods
fn test_consistency_across_lookbacks() {
    let prices: Vec<f64> = (0..50).map(|i| 100.0 + i as f64 * 0.5).collect();

    for lookback in [5, 10, 20, 30] {
        let mut engine = ZScoreEngine::new(lookback);

        for price in &prices {
            up(&mut engine, *price);
        }

        let mean = mean_of(&engine).unwrap();
        let std = std_of(&engine).unwrap();

        assert!(mean.is_finite(), "Lookback {}: Mean is invalid", lookback);

        assert!(
            std.is_finite() && std > 0.0,
            "Lookback {}: Std dev is invalid: {}",
            lookback,
            std
        );
    }
}

#[test]
/// Test: Long sequence (simulate extended usage)
fn test_long_sequence_stability() {
    let mut engine = ZScoreEngine::new(20);
    let base = 1_000_000.0;

    // Simulate 1000 updates
    for i in 0..1000 {
        let price = base + ((i as f64).sin() * 10.0); // Oscillating values
        up(&mut engine, price);
    }

    let mean = mean_of(&engine).unwrap();
    let std = std_of(&engine).unwrap();

    assert!(mean.is_finite(), "Long sequence: Mean became invalid");

    assert!(
        std.is_finite() && std > 0.0,
        "Long sequence: Std dev is invalid: {}",
        std
    );

    // Mean should be close to base
    assert!(
        (mean - base).abs() < 1.0,
        "Long sequence: Mean drifted too far. Got {}, expected ~{}",
        mean,
        base
    );
}

#[test]
/// Test: Extreme value followed by normal values
fn test_extreme_value_recovery() {
    let mut engine = ZScoreEngine::new(10);

    // Normal values first
    for i in 0..10 {
        up(&mut engine, 100.0 + i as f64);
    }

    // Extreme value
    up(&mut engine, 1e15);

    // Normal values again
    for i in 0..10 {
        up(&mut engine, 100.0 + i as f64);
    }

    // Should recover and produce valid results
    let mean = mean_of(&engine).unwrap();
    let std = std_of(&engine).unwrap();

    assert!(mean.is_finite(), "Extreme value: Mean never recovered");

    assert!(std.is_finite(), "Extreme value: Std dev never recovered");
}

#[test]
/// Test: Comparison with numpy-style calculation for real-world prices
fn test_realistic_trading_prices() {
    let mut engine = ZScoreEngine::new(20);

    // Simulate realistic BTC prices (around $50,000)
    let base_price = 50_000.0;
    let prices: Vec<f64> = (0..30)
        .map(|i| base_price + (i as f64 * 10.0) + ((i as f64).sin() * 100.0))
        .collect();

    for price in &prices {
        up(&mut engine, *price);
    }

    let mean = mean_of(&engine).unwrap();
    let std = std_of(&engine).unwrap();

    assert!(
        mean.is_finite() && mean > base_price,
        "Realistic prices: Mean is invalid: {}",
        mean
    );

    assert!(
        std.is_finite() && std > 0.0,
        "Realistic prices: Std dev is invalid: {}",
        std
    );

    // Std dev should be reasonable (not tiny or huge)
    assert!(
        std > 10.0 && std < 1000.0,
        "Realistic prices: Std dev out of expected range: {}",
        std
    );
}
