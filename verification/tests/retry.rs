use backon::ExponentialBuilder;
use ferrobus::tcp::retry::BackoffPlan;
use ferrobus::tcp::ModbusTcpRetry;
use ferrobus::time::Duration;
use ferrobus::word_order::Float32;
use ferrobus::ModbusError;

fn assert_validation_message(retry: ModbusTcpRetry, expected: &str) {
    let error = retry.to_backoff().unwrap_err();

    match error {
        ModbusError::ValidationError(message) => assert_eq!(message, expected),
        other => panic!("expected ValidationError, got {other:?}"),
    }
}

#[test]
fn retry_default_is_documented_policy() {
    let retry = ModbusTcpRetry::default();

    assert_eq!(retry.initial_delay, Duration::from_millis(500));
    assert_eq!(retry.max_delay, None);
    assert_eq!(f32::from_bits(retry.multiplier.to_bits()), 1.5);
    assert_eq!(retry.max_elapsed, Duration::from_secs(2));
    assert_eq!(retry.max_times, None);
    assert!(retry.jitter);
}

#[test]
fn to_backoff_rejects_zero_initial_delay() {
    assert_validation_message(
        ModbusTcpRetry {
            initial_delay: Duration::zero(),
            ..ModbusTcpRetry::default()
        },
        "retry initial_delay must be > 0",
    );
}

#[test]
fn to_backoff_rejects_max_delay_below_initial() {
    assert_validation_message(
        ModbusTcpRetry {
            max_delay: Some(Duration::from_millis(1)),
            ..ModbusTcpRetry::default()
        },
        "retry max_delay must be >= initial_delay",
    );
}

#[test]
fn to_backoff_rejects_multiplier_below_one() {
    assert_validation_message(
        ModbusTcpRetry {
            multiplier: Float32::from_bits(0.5f32.to_bits()),
            ..ModbusTcpRetry::default()
        },
        "retry multiplier must be finite and >= 1.0",
    );
}

#[test]
fn to_backoff_rejects_non_finite_multiplier() {
    for multiplier in [f32::NAN, f32::INFINITY] {
        assert_validation_message(
            ModbusTcpRetry {
                multiplier: Float32::from_bits(multiplier.to_bits()),
                ..ModbusTcpRetry::default()
            },
            "retry multiplier must be finite and >= 1.0",
        );
    }
}

#[test]
fn to_backoff_rejects_max_elapsed_below_initial() {
    assert_validation_message(
        ModbusTcpRetry {
            max_elapsed: Duration::from_millis(1),
            ..ModbusTcpRetry::default()
        },
        "retry max_elapsed must be >= initial_delay",
    );
}

#[test]
fn to_backoff_rejects_zero_max_times() {
    assert_validation_message(
        ModbusTcpRetry {
            max_times: Some(0),
            ..ModbusTcpRetry::default()
        },
        "retry max_times must be >= 1",
    );
}

#[test]
fn to_backoff_accepts_unbounded_max_times() {
    ModbusTcpRetry {
        max_times: None,
        ..ModbusTcpRetry::default()
    }
    .to_backoff()
    .unwrap();
}

#[test]
fn to_backoff_accepts_default() {
    ModbusTcpRetry::default().to_backoff().unwrap();
}

#[test]
fn validate_accepts_default() {
    ModbusTcpRetry::default().validate().unwrap();
}

#[test]
fn to_backoff_default_matches_documented_chain() {
    let expected = ExponentialBuilder::default()
        .with_min_delay(std::time::Duration::from_millis(500))
        .with_factor(1.5)
        .with_jitter()
        .with_total_delay(Some(std::time::Duration::from_secs(2)))
        .without_max_times();

    assert_eq!(
        format!(
            "{:?}",
            builder_of(ModbusTcpRetry::default().to_backoff().unwrap())
        ),
        format!("{expected:?}")
    );
}

fn std_duration(span: Duration) -> std::time::Duration {
    std::time::Duration::from_nanos(u64::try_from(span.nanos).unwrap())
}

fn builder_of(plan: BackoffPlan) -> ExponentialBuilder {
    let mut builder = ExponentialBuilder::default()
        .with_min_delay(std_duration(plan.min_delay))
        .with_factor(f32::from_bits(plan.factor.to_bits()))
        .with_total_delay(plan.total_delay.map(std_duration));
    if let Some(max_delay) = plan.max_delay {
        builder = builder.with_max_delay(std_duration(max_delay));
    }
    if plan.jitter {
        builder = builder.with_jitter();
    }
    match plan.max_times {
        Some(max_times) => builder.with_max_times(max_times),
        None => builder.without_max_times(),
    }
}

#[test]
fn to_backoff_hands_every_setting_on() {
    let retry = ModbusTcpRetry {
        initial_delay: Duration::from_millis(10),
        max_delay: Some(Duration::from_millis(40)),
        multiplier: Float32::from_bits(2.0f32.to_bits()),
        max_elapsed: Duration::from_millis(100),
        max_times: Some(3),
        jitter: false,
        retry_gateway_busy: true,
    };

    let plan = retry.to_backoff().unwrap();

    assert_eq!(
        plan,
        BackoffPlan {
            min_delay: Duration::from_millis(10),
            factor: Float32::from_bits(2.0f32.to_bits()),
            max_delay: Some(Duration::from_millis(40)),
            total_delay: Some(Duration::from_millis(100)),
            max_times: Some(3),
            jitter: false,
        }
    );
}

#[test]
fn multiplier_bounds_are_exact() {
    for (multiplier, valid) in [
        (1.0f32, true),
        (0.999_999_94f32, false),
        (-1.0f32, false),
        (-2.0f32, false),
        (f32::MAX, true),
        (f32::NEG_INFINITY, false),
        (0.0f32, false),
        (f32::MIN_POSITIVE, false),
    ] {
        let retry = ModbusTcpRetry {
            multiplier: Float32::from_bits(multiplier.to_bits()),
            ..ModbusTcpRetry::default()
        };
        assert_eq!(retry.validate().is_ok(), valid);
    }
}

#[test]
fn transient_errors_are_retried_and_permanent_ones_are_not() {
    let retry = ModbusTcpRetry::default();

    assert!(retry.should_retry(&ModbusError::ConnectTimeout));
    assert!(retry.should_retry(&ModbusError::MalformedResponse("cut".to_string())));
    assert!(!retry.should_retry(&ModbusError::ValidationError("bad".to_string())));
    assert!(!retry.should_retry(&ModbusError::NoFreeTransactionId));
    assert!(!retry.should_retry(&ModbusError::ExceptionResponse {
        function: 0x83,
        code: 0x02
    }));
}

#[test]
fn busy_gateways_are_retried_on_demand() {
    let busy = ModbusError::ExceptionResponse {
        function: 0x83,
        code: 0x06,
    };

    assert!(!ModbusTcpRetry::default().should_retry(&busy));
    assert!(ModbusTcpRetry {
        retry_gateway_busy: true,
        ..ModbusTcpRetry::default()
    }
    .should_retry(&busy));
}

#[test]
fn policies_compare_by_the_numbers_they_hold() {
    let with_multiplier = |multiplier: f32| ModbusTcpRetry {
        multiplier: Float32::from_bits(multiplier.to_bits()),
        ..ModbusTcpRetry::default()
    };

    assert_eq!(with_multiplier(0.0), with_multiplier(-0.0));
    assert_ne!(with_multiplier(f32::NAN), with_multiplier(f32::NAN));
    assert_ne!(with_multiplier(1.5), with_multiplier(2.0));
    assert_ne!(
        ModbusTcpRetry {
            max_delay: Some(Duration::from_secs(1)),
            ..ModbusTcpRetry::default()
        },
        ModbusTcpRetry::default()
    );
    assert_ne!(
        ModbusTcpRetry {
            max_times: Some(1),
            ..ModbusTcpRetry::default()
        },
        ModbusTcpRetry::default()
    );
}
