use keyscan::config::{ConfigError, ScanConfig};
use keyscan::engine::ScanEngine;
use keyscan::sim::SimPort;

fn engine_for(config: ScanConfig) -> Result<ScanEngine<SimPort>, ConfigError> {
    ScanEngine::new(SimPort::new(Vec::new()), config)
}

#[test]
fn derives_documented_timing_constants() {
    // tick_rate 1 MHz, target 10 kHz, quiet 1000 us:
    // half period = 1_000_000 / 20_000 = 50 ticks,
    // quiet period = 1_000 * 1_000_000 / 1_000_000 = 1_000 ticks.
    let engine = engine_for(ScanConfig {
        target_frequency_hz: 10_000,
        tick_rate_hz: 1_000_000,
        quiet_duration_us: 1_000,
    })
    .unwrap();
    assert_eq!(engine.half_period_ticks, 50);
    assert_eq!(engine.quiet_period_ticks, 1_000);
}

#[test]
fn accepts_band_edges() {
    let low_edge = engine_for(ScanConfig {
        target_frequency_hz: 1_000,
        tick_rate_hz: 1_000_000,
        quiet_duration_us: 0,
    })
    .unwrap();
    assert_eq!(low_edge.half_period_ticks, 500);
    assert!(low_edge.half_period_ticks >= 1);

    let high_edge = engine_for(ScanConfig {
        target_frequency_hz: 512_000,
        tick_rate_hz: 1_024_000,
        quiet_duration_us: 0,
    })
    .unwrap();
    assert_eq!(high_edge.half_period_ticks, 1);
}

#[test]
fn rounds_half_period_toward_zero() {
    // 1_000_000 / (2 * 3_000) = 166.66..., rounded toward zero.
    let engine = engine_for(ScanConfig {
        target_frequency_hz: 3_000,
        tick_rate_hz: 1_000_000,
        quiet_duration_us: 0,
    })
    .unwrap();
    assert_eq!(engine.half_period_ticks, 166);
}

#[test]
fn rounds_quiet_period_toward_zero() {
    // 1_500 us at 999_999 ticks/s: 1_500 * 999_999 / 1_000_000 = 1_499.99...
    let engine = engine_for(ScanConfig {
        target_frequency_hz: 10_000,
        tick_rate_hz: 999_999,
        quiet_duration_us: 1_500,
    })
    .unwrap();
    assert_eq!(engine.quiet_period_ticks, 1_499);
}

#[test]
fn survives_extreme_configuration_values() {
    let engine = engine_for(ScanConfig {
        target_frequency_hz: 1_000,
        tick_rate_hz: u32::MAX,
        quiet_duration_us: u32::MAX,
    })
    .unwrap();
    assert_eq!(engine.half_period_ticks, (u32::MAX as u64) / 2_000);
    assert_eq!(
        engine.quiet_period_ticks,
        (u32::MAX as u64) * (u32::MAX as u64) / 1_000_000
    );
}

#[test]
fn rejects_frequency_below_band() {
    let r = engine_for(ScanConfig {
        target_frequency_hz: 999,
        tick_rate_hz: 1_000_000,
        quiet_duration_us: 0,
    });
    assert!(matches!(r, Err(ConfigError::FrequencyOutOfRange)));
}

#[test]
fn rejects_frequency_above_band() {
    let r = engine_for(ScanConfig {
        target_frequency_hz: 512_001,
        tick_rate_hz: 10_000_000,
        quiet_duration_us: 0,
    });
    assert!(matches!(r, Err(ConfigError::FrequencyOutOfRange)));
}

#[test]
fn rejects_half_period_that_rounds_to_zero() {
    // In band, but 1_000_000 / (2 * 512_000) rounds to 0 ticks.
    let r = engine_for(ScanConfig {
        target_frequency_hz: 512_000,
        tick_rate_hz: 1_000_000,
        quiet_duration_us: 0,
    });
    assert!(matches!(r, Err(ConfigError::FrequencyOutOfRange)));
}

#[test]
fn rejects_zero_tick_rate() {
    let r = engine_for(ScanConfig {
        target_frequency_hz: 10_000,
        tick_rate_hz: 0,
        quiet_duration_us: 0,
    });
    assert!(matches!(r, Err(ConfigError::FrequencyOutOfRange)));
}
