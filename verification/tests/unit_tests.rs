use bot_state::{AccuracyMetrics, Action, Signal};

/// A price in micro-units.
fn micro(price: f64) -> u64 {
    (price * 1_000_000.0) as u64
}

/// A confidence in basis points.
fn bps(confidence: f64) -> u64 {
    (confidence * 10_000.0).round() as u64
}

/// A price in whole units.
fn price_of(micro: u64) -> f64 {
    micro as f64 / 1_000_000.0
}

/// A share in percent.
fn percent_of(bps: u64) -> f64 {
    bps as f64 / 100.0
}

#[test]
fn test_signal_validation_success() {
    let signal = Signal {
        timestamp: 1000000,
        action: Action::Buy,
        predicted_price_micro: micro(2500.0),
        confidence_bps: bps(0.75),
        reasoning: "Strong momentum indicators".to_string(),
        actual_price_micro: None,
    };

    assert!(signal.validate().is_ok());
}

#[test]
fn test_signal_validation_invalid_confidence() {
    let signal = Signal {
        timestamp: 1000000,
        action: Action::Buy,
        predicted_price_micro: micro(2500.0),
        confidence_bps: bps(1.5), // Invalid: > 1.0
        reasoning: "Test".to_string(),
        actual_price_micro: None,
    };

    assert!(signal.validate().is_err());
}

#[test]
fn test_signal_validation_negative_price() {
    let signal = Signal {
        timestamp: 1000000,
        action: Action::Buy,
        predicted_price_micro: micro(-100.0), // Invalid
        confidence_bps: bps(0.75),
        reasoning: "Test".to_string(),
        actual_price_micro: None,
    };

    assert!(signal.validate().is_err());
}

#[test]
fn test_signal_validation_reasoning_too_long() {
    let long_reasoning = "x".repeat(513); // Invalid: > 512 chars
    let signal = Signal {
        timestamp: 1000000,
        action: Action::Buy,
        predicted_price_micro: micro(2500.0),
        confidence_bps: bps(0.75),
        reasoning: long_reasoning,
        actual_price_micro: None,
    };

    assert!(signal.validate().is_err());
}

#[test]
fn test_directional_accuracy_buy_correct() {
    let signal = Signal {
        timestamp: 1000000,
        action: Action::Buy,
        predicted_price_micro: micro(2600.0),
        confidence_bps: bps(0.75),
        reasoning: "Bullish".to_string(),
        actual_price_micro: Some(micro(2550.0)),
    };

    let previous_price = micro(2500.0);
    assert_eq!(signal.is_directionally_correct(previous_price), Some(true));
}

#[test]
fn test_directional_accuracy_buy_incorrect() {
    let signal = Signal {
        timestamp: 1000000,
        action: Action::Buy,
        predicted_price_micro: micro(2600.0),
        confidence_bps: bps(0.75),
        reasoning: "Bullish".to_string(),
        actual_price_micro: Some(micro(2450.0)), // Price went down
    };

    let previous_price = micro(2500.0);
    assert_eq!(signal.is_directionally_correct(previous_price), Some(false));
}

#[test]
fn test_directional_accuracy_sell_correct() {
    let signal = Signal {
        timestamp: 1000000,
        action: Action::Sell,
        predicted_price_micro: micro(2400.0),
        confidence_bps: bps(0.75),
        reasoning: "Bearish".to_string(),
        actual_price_micro: Some(micro(2450.0)), // Price went down
    };

    let previous_price = micro(2500.0);
    assert_eq!(signal.is_directionally_correct(previous_price), Some(true));
}

#[test]
fn test_directional_accuracy_hold_correct() {
    let signal = Signal {
        timestamp: 1000000,
        action: Action::Hold,
        predicted_price_micro: micro(2500.0),
        confidence_bps: bps(0.60),
        reasoning: "Consolidation".to_string(),
        actual_price_micro: Some(micro(2510.0)), // Within 2% threshold
    };

    let previous_price = micro(2500.0);
    assert_eq!(signal.is_directionally_correct(previous_price), Some(true));
}

#[test]
fn test_accuracy_metrics_update() {
    let mut metrics = AccuracyMetrics::default();

    let signal = Signal {
        timestamp: 1000000,
        action: Action::Buy,
        predicted_price_micro: micro(2600.0),
        confidence_bps: bps(0.75),
        reasoning: "Test".to_string(),
        actual_price_micro: Some(micro(2550.0)), // Correct direction
    };

    let previous_price = micro(2500.0);
    let current_time = 2000000;

    assert!(metrics.has_room_for(&signal));
    metrics.update(&signal, previous_price, current_time);

    assert_eq!(metrics.total_predictions(), 1);
    assert_eq!(metrics.correct_predictions(), 1);
    assert_eq!(percent_of(metrics.directional_accuracy_bps()), 100.0);
    assert!(price_of(metrics.rmse_micro()) > 0.0); // Should have some error
    assert_eq!(metrics.last_updated(), current_time);
}

#[test]
fn test_accuracy_metrics_multiple_updates() {
    let mut metrics = AccuracyMetrics::default();
    let previous_price = micro(2500.0);

    // First signal: correct
    let signal1 = Signal {
        timestamp: 1000000,
        action: Action::Buy,
        predicted_price_micro: micro(2600.0),
        confidence_bps: bps(0.75),
        reasoning: "Test".to_string(),
        actual_price_micro: Some(micro(2550.0)),
    };
    assert!(metrics.has_room_for(&signal1));
    metrics.update(&signal1, previous_price, 1000000);

    // Second signal: incorrect
    let signal2 = Signal {
        timestamp: 2000000,
        action: Action::Sell,
        predicted_price_micro: micro(2400.0),
        confidence_bps: bps(0.70),
        reasoning: "Test".to_string(),
        actual_price_micro: Some(micro(2600.0)), // Went up instead of down
    };
    assert!(metrics.has_room_for(&signal2));
    metrics.update(&signal2, micro(2550.0), 2000000);

    assert_eq!(metrics.total_predictions(), 2);
    assert_eq!(metrics.correct_predictions(), 1);
    assert_eq!(percent_of(metrics.directional_accuracy_bps()), 50.0);
}
