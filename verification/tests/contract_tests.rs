use bot_state::{
    AccuracyMetrics, Action, BotState, BotStateContract, Field, Operation, OperationError, Signal,
    SlotState, SubmitError, ValidationError,
};

/// A price in micro-units.
fn micro(price: f64) -> u64 {
    (price * 1_000_000.0) as u64
}

/// A confidence in basis points.
fn bps(confidence: f64) -> u64 {
    (confidence * 10_000.0).round() as u64
}

fn create_and_instantiate_app(bot_id: String) -> BotStateContract {
    let mut contract = BotStateContract::new(BotState::new(String::new()));
    contract.instantiate(bot_id);
    contract
}

fn submit_operation(timestamp: &str, price: &str, confidence_bps: u64) -> Operation {
    Operation::SubmitPrediction {
        timestamp: timestamp.to_string(),
        action: Action::Buy,
        predicted_price_micro: price.to_string(),
        confidence_bps,
        reasoning: "Bullish trend detected".to_string(),
    }
}

fn resolve_operation(timestamp: &str, price: &str) -> Operation {
    Operation::ResolveSignal {
        timestamp: timestamp.to_string(),
        actual_price_micro: price.to_string(),
    }
}

fn copy_of(contract: &BotStateContract) -> BotStateContract {
    BotStateContract::new(BotState {
        bot_id: contract.state.bot_id.clone(),
        latest_signal: contract.state.latest_signal.clone(),
        accuracy_24h: contract.state.accuracy_24h,
        follower_count: contract.state.follower_count,
    })
}

#[test]
fn test_submit_prediction() {
    let bot_id = "test-bot".to_string();
    let mut app = create_and_instantiate_app(bot_id.clone());

    app.execute_operation(
        Operation::SubmitPrediction {
            timestamp: 1000000.to_string(),
            action: Action::Buy,
            predicted_price_micro: micro(2500.0).to_string(),
            confidence_bps: bps(0.75),
            reasoning: "Bullish trend detected".to_string(),
        },
        0,
    )
    .expect("Execution should not be rejected");

    let latest = &app.state.latest_signal;
    assert!(latest.is_some());
    assert_eq!(latest.as_ref().unwrap().timestamp, 1000000);
    assert_eq!(latest.as_ref().unwrap().action, Action::Buy);
}

#[test]
fn test_follower_count() {
    let bot_id = "test-bot".to_string();
    let mut app = create_and_instantiate_app(bot_id);

    // Add follower
    app.execute_operation(Operation::AddFollower, 0)
        .expect("Execution should not be rejected");

    assert_eq!(app.state.follower_count, 1);

    // Add another
    app.execute_operation(Operation::AddFollower, 0)
        .expect("Execution should not be rejected");

    assert_eq!(app.state.follower_count, 2);

    // Remove one
    app.execute_operation(Operation::RemoveFollower, 0)
        .expect("Execution should not be rejected");

    assert_eq!(app.state.follower_count, 1);
}

#[test]
fn instantiate_resets_all_but_the_slot() {
    let mut contract = BotStateContract::new(BotState {
        bot_id: "old".to_string(),
        latest_signal: Some(Signal::pending(5, Action::Hold, 1, 1, String::new())),
        accuracy_24h: AccuracyMetrics::from_parts(4, 2, 100, 9).unwrap(),
        follower_count: 12,
    });
    contract.instantiate("new".to_string());
    assert_eq!(contract.state.bot_id, "new");
    assert_eq!(contract.state.follower_count, 0);
    assert_eq!(contract.state.accuracy_24h, AccuracyMetrics::default());
    assert_eq!(
        contract.state.latest_signal,
        Some(Signal::pending(5, Action::Hold, 1, 1, String::new()))
    );
}

#[test]
fn submit_stores_every_field() {
    let mut app = create_and_instantiate_app("bot".to_string());
    assert_eq!(
        app.execute_operation(submit_operation("1700000000000", "2500000000", 7_500), 99),
        Ok(())
    );
    assert_eq!(
        app.state.latest_signal,
        Some(Signal {
            timestamp: 1_700_000_000_000,
            action: Action::Buy,
            predicted_price_micro: 2_500_000_000,
            confidence_bps: 7_500,
            reasoning: "Bullish trend detected".to_string(),
            actual_price_micro: None,
        })
    );
    assert_eq!(app.state.slot_state(), SlotState::Pending);
}

#[test]
fn malformed_numbers_are_rejected() {
    let mut app = create_and_instantiate_app("bot".to_string());
    let before = copy_of(&app);
    for timestamp in ["", "abc", "-1", "1.5", " 1", "1 ", "18446744073709551616", "1_000", "+"] {
        assert_eq!(
            app.execute_operation(submit_operation(timestamp, "2500000000", 7_500), 0),
            Err(OperationError::InvalidTimestamp),
            "timestamp {:?}",
            timestamp
        );
        assert_eq!(
            app.execute_operation(resolve_operation(timestamp, "2500000000"), 0),
            Err(OperationError::InvalidTimestamp)
        );
        assert_eq!(app, before);
    }
    for price in ["", "2500.0", "$2500", "18446744073709551616"] {
        assert_eq!(
            app.execute_operation(submit_operation("1000", price, 7_500), 0),
            Err(OperationError::InvalidPrice)
        );
        assert_eq!(
            app.execute_operation(resolve_operation("1000", price), 0),
            Err(OperationError::InvalidPrice)
        );
        assert_eq!(app, before);
    }
}

#[test]
fn timestamp_is_checked_before_price() {
    let mut app = create_and_instantiate_app("bot".to_string());
    assert_eq!(
        app.execute_operation(submit_operation("x", "y", 7_500), 0),
        Err(OperationError::InvalidTimestamp)
    );
    assert_eq!(
        app.execute_operation(resolve_operation("x", "y"), 0),
        Err(OperationError::InvalidTimestamp)
    );
}

#[test]
fn numbers_may_carry_a_plus_and_leading_zeros() {
    let mut app = create_and_instantiate_app("bot".to_string());
    assert_eq!(
        app.execute_operation(submit_operation("+0001000", "0002500000000", 7_500), 0),
        Ok(())
    );
    let stored = app.state.latest_signal.as_ref().unwrap();
    assert_eq!(stored.timestamp, 1_000);
    assert_eq!(stored.predicted_price_micro, 2_500_000_000);
    assert_eq!(
        app.execute_operation(submit_operation("18446744073709551615", "18446744073709551615", 1), 0),
        Ok(())
    );
    let stored = app.state.latest_signal.as_ref().unwrap();
    assert_eq!(stored.timestamp, u64::MAX);
    assert_eq!(stored.predicted_price_micro, u64::MAX);
}

#[test]
fn invalid_signals_are_rejected_with_the_field() {
    let mut app = create_and_instantiate_app("bot".to_string());
    let before = copy_of(&app);
    assert_eq!(
        app.execute_operation(submit_operation("1000", "2500000000", 10_001), 0),
        Err(OperationError::Submit(SubmitError::Validation(ValidationError::OutOfRange {
            field: Field::Confidence
        })))
    );
    assert_eq!(
        app.execute_operation(submit_operation("1000", "0", 10_000), 0),
        Err(OperationError::Submit(SubmitError::Validation(ValidationError::OutOfRange {
            field: Field::PredictedPrice
        })))
    );
    assert_eq!(
        app.execute_operation(
            Operation::SubmitPrediction {
                timestamp: "1000".to_string(),
                action: Action::Hold,
                predicted_price_micro: "1".to_string(),
                confidence_bps: 0,
                reasoning: "x".repeat(513),
            },
            0
        ),
        Err(OperationError::Submit(SubmitError::Validation(ValidationError::TooLong {
            field: Field::Reasoning,
            max: 512
        })))
    );
    assert_eq!(app, before);
}

#[test]
fn stale_submits_are_rejected() {
    let mut app = create_and_instantiate_app("bot".to_string());
    assert_eq!(app.execute_operation(submit_operation("1000", "2500000000", 7_500), 0), Ok(()));
    let before = copy_of(&app);
    assert_eq!(
        app.execute_operation(submit_operation("1000", "2600000000", 7_500), 0),
        Err(OperationError::Submit(SubmitError::OutOfOrder))
    );
    assert_eq!(
        app.execute_operation(submit_operation("999", "2600000000", 7_500), 0),
        Err(OperationError::Submit(SubmitError::OutOfOrder))
    );
    assert_eq!(app, before);
    assert_eq!(app.execute_operation(submit_operation("1001", "2600000000", 7_500), 0), Ok(()));
}

#[test]
fn resolve_stamps_the_record_in_milliseconds() {
    let mut app = create_and_instantiate_app("bot".to_string());
    assert_eq!(app.execute_operation(submit_operation("1000", "2600000000", 7_500), 0), Ok(()));
    assert_eq!(app.execute_operation(resolve_operation("1000", "2550000000"), 2_000_000_999), Ok(()));
    assert_eq!(app.state.slot_state(), SlotState::Resolved);
    assert_eq!(app.state.latest_signal.as_ref().unwrap().actual_price_micro, Some(2_550_000_000));
    let metrics = app.state.accuracy_24h;
    assert_eq!(metrics.total_predictions(), 1);
    // Judged against its own prediction, a buy that ended below it is wrong.
    assert_eq!(metrics.correct_predictions(), 0);
    assert_eq!(metrics.directional_accuracy_bps(), 0);
    assert_eq!(metrics.rmse_micro(), 50_000_000);
    assert_eq!(metrics.last_updated(), 2_000_000);
}

#[test]
fn a_mismatched_resolve_is_dropped_in_silence() {
    let mut app = create_and_instantiate_app("bot".to_string());
    assert_eq!(app.execute_operation(resolve_operation("1000", "2550000000"), 5), Ok(()));
    assert_eq!(app, create_and_instantiate_app("bot".to_string()));
    assert_eq!(app.execute_operation(submit_operation("1000", "2600000000", 7_500), 0), Ok(()));
    let before = copy_of(&app);
    assert_eq!(app.execute_operation(resolve_operation("1001", "2550000000"), 5), Ok(()));
    assert_eq!(app, before);
}

#[test]
fn resolving_the_same_timestamp_twice_counts_twice() {
    let mut app = create_and_instantiate_app("bot".to_string());
    assert_eq!(app.execute_operation(submit_operation("1000", "2600000000", 7_500), 0), Ok(()));
    assert_eq!(app.execute_operation(resolve_operation("1000", "2650000000"), 5_000), Ok(()));
    assert_eq!(app.execute_operation(resolve_operation("1000", "2650000000"), 5_000), Ok(()));
    assert_eq!(app.state.accuracy_24h.total_predictions(), 2);
    assert_eq!(app.state.accuracy_24h.correct_predictions(), 2);
    assert_eq!(app.state.accuracy_24h.sum_squared_errors(), 2 * 2_500_000_000_000_000);
}

#[test]
fn counters_at_the_end_of_their_range_reject() {
    let mut app = create_and_instantiate_app("bot".to_string());
    app.state.follower_count = u64::MAX;
    let before = copy_of(&app);
    assert_eq!(app.execute_operation(Operation::AddFollower, 0), Err(OperationError::Overflow));
    assert_eq!(app, before);
    assert_eq!(app.execute_operation(Operation::RemoveFollower, 0), Ok(()));
    assert_eq!(app.state.follower_count, u64::MAX - 1);

    let mut app = create_and_instantiate_app("bot".to_string());
    app.state.accuracy_24h = AccuracyMetrics::from_parts(u64::MAX, 1, 0, 0).unwrap();
    assert_eq!(app.execute_operation(submit_operation("1000", "2600000000", 7_500), 0), Ok(()));
    let before = copy_of(&app);
    assert_eq!(
        app.execute_operation(resolve_operation("1000", "2650000000"), 0),
        Err(OperationError::Overflow)
    );
    assert_eq!(app, before);
    // A request that names no signal is not concerned.
    assert_eq!(app.execute_operation(resolve_operation("7", "2650000000"), 0), Ok(()));
    assert_eq!(app, before);
}

#[test]
fn removing_from_zero_followers_succeeds_and_stays_at_zero() {
    let mut app = create_and_instantiate_app("bot".to_string());
    assert_eq!(app.execute_operation(Operation::RemoveFollower, 0), Ok(()));
    assert_eq!(app.state.follower_count, 0);
}

#[test]
fn the_command_built_from_a_signal_submits_it() {
    let signal = Signal {
        timestamp: 1_700_000_000_123,
        action: Action::Sell,
        predicted_price_micro: 3_575_500_000,
        confidence_bps: 7_500,
        reasoning: "RSI: overbought".to_string(),
        actual_price_micro: Some(1),
    };
    let operation = Operation::submit(&signal);
    assert_eq!(
        operation,
        Operation::SubmitPrediction {
            timestamp: "1700000000123".to_string(),
            action: Action::Sell,
            predicted_price_micro: "3575500000".to_string(),
            confidence_bps: 7_500,
            reasoning: "RSI: overbought".to_string(),
        }
    );
    let mut app = create_and_instantiate_app("bot".to_string());
    assert_eq!(app.execute_operation(operation, 0), Ok(()));
    assert_eq!(
        app.state.latest_signal,
        Some(Signal { actual_price_micro: None, ..signal })
    );
}
