use demand_forecast::chart::{chart_bounds, ChartBounds};
use demand_forecast::config::{PipelineConfig, HORIZON_LEN, HORIZON_STEP_SECONDS, MIN_SAMPLES};
use demand_forecast::error::{FitFailure, PipelineError, PredictFailure, RenderFailure};
use demand_forecast::forecast::{align_forecast, ForecastPoint, Growth, ModelOptions, SeasonalityMode, SeasonalityToggle};
use demand_forecast::horizon::{generate, horizon_in_range, plan_horizon};
use demand_forecast::ingest::{
    check_chronological, classify_parsed, classify_row, ingest, prepare_training, training_columns, validate,
};
use demand_forecast::sample::{value_is_positive, RawRecord, Sample, SkipReason, SkippedRow, ValueReading};
use demand_forecast::time_text::{format_timestamp, parse_datetime_to_timestamp};

const JAN_1_2024: i64 = 1_704_067_200;

fn row(ts: &str, value: f64) -> RawRecord {
    RawRecord {
        timestamp_text: Some(ts.to_string()),
        value: ValueReading::Number(value.to_bits()),
    }
}

fn hourly_rows(n: usize) -> Vec<RawRecord> {
    (0..n)
        .map(|i| {
            let text = format_timestamp(JAN_1_2024 + 3600 * i as i64).unwrap();
            row(&text, 10.0 + i as f64)
        })
        .collect()
}

fn sample(timestamp: i64, value: f64) -> Sample {
    Sample { timestamp, value_bits: value.to_bits() }
}

#[test]
fn generate_three_hourly_steps() {
    assert_eq!(generate(1000, 3600, 3), vec![4600, 8200, 11800]);
}

#[test]
fn generate_zero_count_is_empty() {
    assert_eq!(generate(1000, 3600, 0), Vec::<i64>::new());
}

#[test]
fn generate_negative_step() {
    assert_eq!(generate(0, -10, 2), vec![-10, -20]);
}

#[test]
fn horizon_range_check() {
    assert!(horizon_in_range(0, 3600, 168));
    assert!(horizon_in_range(i64::MAX, 3600, 0));
    assert!(!horizon_in_range(i64::MAX - 10, 5, 3));
    assert!(horizon_in_range(i64::MAX - 15, 5, 3));
    assert!(!horizon_in_range(i64::MIN, -1, 1));
}

#[test]
fn empty_source_is_empty_dataset() {
    assert_eq!(ingest(&Vec::new()).unwrap_err(), PipelineError::EmptyDataset);
}

#[test]
fn no_valid_rows_is_empty_dataset() {
    let rows = vec![
        row("2024-01-01 00:00", 0.0),
        row("2024-01-01 01:00", -3.5),
        row("not a time", 4.0),
        RawRecord { timestamp_text: None, value: ValueReading::Number(1.0f64.to_bits()) },
        RawRecord { timestamp_text: Some("2024-01-01 02:00".to_string()), value: ValueReading::Malformed },
    ];
    assert_eq!(ingest(&rows).unwrap_err(), PipelineError::EmptyDataset);
    let config = PipelineConfig::default();
    assert_eq!(prepare_training(&rows, &config).unwrap_err(), PipelineError::EmptyDataset);
}

#[test]
fn accepted_values_are_positive() {
    let rows = vec![
        row("2024-01-01 00:00", 2.5),
        row("2024-01-01 01:00", 0.0),
        row("2024-01-01 02:00", -0.0),
        row("2024-01-01 03:00", -1.0),
        row("2024-01-01 04:00", f64::NAN),
        row("2024-01-01 05:00", f64::INFINITY),
        row("2024-01-01 06:00", f64::MIN_POSITIVE),
    ];
    let ing = ingest(&rows).unwrap();
    let values: Vec<f64> = ing.samples.iter().map(|s| f64::from_bits(s.value_bits)).collect();
    assert_eq!(values, vec![2.5, f64::INFINITY, f64::MIN_POSITIVE]);
    assert!(values.iter().all(|v| *v > 0.0));
    assert_eq!(
        ing.skipped,
        vec![
            SkippedRow { row: 1, reason: SkipReason::NonPositiveValue },
            SkippedRow { row: 2, reason: SkipReason::NonPositiveValue },
            SkippedRow { row: 3, reason: SkipReason::NonPositiveValue },
            SkippedRow { row: 4, reason: SkipReason::NonPositiveValue },
        ]
    );
}

#[test]
fn value_positivity_by_bits() {
    assert!(value_is_positive(1.0f64.to_bits()));
    assert!(value_is_positive(f64::INFINITY.to_bits()));
    assert!(!value_is_positive(0.0f64.to_bits()));
    assert!(!value_is_positive((-0.0f64).to_bits()));
    assert!(!value_is_positive((-2.0f64).to_bits()));
    assert!(!value_is_positive(f64::NAN.to_bits()));
}

#[test]
fn skip_reasons_in_order() {
    let missing_ts = RawRecord { timestamp_text: None, value: ValueReading::Malformed };
    assert_eq!(classify_row(&missing_ts), Err(SkipReason::MissingField));
    let missing_value = RawRecord { timestamp_text: Some("junk".to_string()), value: ValueReading::Missing };
    assert_eq!(classify_row(&missing_value), Err(SkipReason::MissingField));
    let bad_ts = RawRecord { timestamp_text: Some("2024-13-01 00:00".to_string()), value: ValueReading::Malformed };
    assert_eq!(classify_row(&bad_ts), Err(SkipReason::MalformedTimestamp));
    let bad_value = RawRecord { timestamp_text: Some("2024-01-01 00:00".to_string()), value: ValueReading::Malformed };
    assert_eq!(classify_row(&bad_value), Err(SkipReason::MalformedValue));
    assert_eq!(classify_row(&row("2024-01-01 00:00", -1.0)), Err(SkipReason::NonPositiveValue));
}

#[test]
fn timestamp_field_is_trimmed() {
    assert_eq!(
        classify_row(&row("  2024-01-01 13:14\t", 7.0)),
        Ok(sample(JAN_1_2024 + 13 * 3600 + 14 * 60, 7.0))
    );
}

#[test]
fn twenty_nine_rows_are_insufficient() {
    let config = PipelineConfig::default();
    assert_eq!(
        prepare_training(&hourly_rows(29), &config).unwrap_err(),
        PipelineError::InsufficientData { found: 29, required: 30 }
    );
}

#[test]
fn thirty_rows_are_enough() {
    let config = PipelineConfig::default();
    let ing = prepare_training(&hourly_rows(30), &config).unwrap();
    assert_eq!(ing.samples.len(), 30);
    assert!(ing.skipped.is_empty());
}

#[test]
fn validate_threshold() {
    let samples: Vec<Sample> = (0..30).map(|i| sample(i, 1.0)).collect();
    assert_eq!(validate(&samples, 30), Ok(()));
    assert_eq!(
        validate(&samples[..29].to_vec(), 30),
        Err(PipelineError::InsufficientData { found: 29, required: 30 })
    );
}

#[test]
fn default_config_values() {
    let config = PipelineConfig::default();
    assert_eq!(config.min_samples, MIN_SAMPLES);
    assert_eq!(config.min_samples, 30);
    assert_eq!(config.horizon_step, HORIZON_STEP_SECONDS);
    assert_eq!(config.horizon_step, 3600);
    assert_eq!(config.horizon_len, HORIZON_LEN);
    assert_eq!(config.horizon_len, 168);
}

#[test]
fn unordered_timestamps_fail_fit() {
    let samples = vec![sample(10, 1.0), sample(20, 1.0), sample(20, 1.0), sample(5, 1.0)];
    assert_eq!(
        check_chronological(&samples),
        Err(PipelineError::Fit(FitFailure::NotChronological { index: 2 }))
    );
    assert_eq!(check_chronological(&samples[..2].to_vec()), Ok(()));
    assert_eq!(check_chronological(&Vec::new()), Ok(()));
}

#[test]
fn prepare_training_rejects_repeated_rows() {
    let mut rows = hourly_rows(30);
    rows.push(row("2024-01-01 05:00", 3.0));
    let config = PipelineConfig::default();
    assert_eq!(
        prepare_training(&rows, &config).unwrap_err(),
        PipelineError::Fit(FitFailure::NotChronological { index: 30 })
    );
}

#[test]
fn parse_then_format_round_trip() {
    let ts = parse_datetime_to_timestamp("2024-01-01 13:14").unwrap();
    assert_eq!(ts, 1_704_114_840);
    assert_eq!(format_timestamp(ts).unwrap(), "2024-01-01 13:14");
}

#[test]
fn parse_rejects_other_layouts() {
    assert_eq!(parse_datetime_to_timestamp("2024-01-01T13:14"), None);
    assert_eq!(parse_datetime_to_timestamp("2024-01-01"), None);
    assert_eq!(parse_datetime_to_timestamp(""), None);
}

#[test]
fn format_epoch_and_out_of_range() {
    assert_eq!(format_timestamp(0).unwrap(), "1970-01-01 00:00");
    assert_eq!(format_timestamp(i64::MAX), None);
}

#[test]
fn plan_horizon_from_last_sample() {
    let config = PipelineConfig::default();
    let training = vec![sample(100, 1.0), sample(3700, 2.0)];
    let h = plan_horizon(&training, &config).unwrap();
    assert_eq!(h.len(), 168);
    assert_eq!(h[0], 7300);
    assert_eq!(h[167], 3700 + 168 * 3600);
    assert_eq!(plan_horizon(&Vec::new(), &config), Err(PipelineError::EmptyDataset));
    let late = vec![sample(i64::MAX - 100, 1.0)];
    assert_eq!(plan_horizon(&late, &config), Err(PipelineError::HorizonOutOfRange));
}

#[test]
fn align_pairs_horizon_with_own_predictions() {
    let horizon = vec![10, 20];
    let point = vec![1.5f64.to_bits(), 2.5f64.to_bits()];
    let lower = Some(vec![1.0f64.to_bits(), 2.0f64.to_bits()]);
    let f = align_forecast(&horizon, &point, &lower, &None).unwrap();
    assert_eq!(
        f,
        vec![
            ForecastPoint { timestamp: 10, point_bits: 1.5f64.to_bits(), lower_bits: Some(1.0f64.to_bits()), upper_bits: None },
            ForecastPoint { timestamp: 20, point_bits: 2.5f64.to_bits(), lower_bits: Some(2.0f64.to_bits()), upper_bits: None },
        ]
    );
}

#[test]
fn align_rejects_length_mismatch() {
    let horizon = vec![10, 20, 30];
    let point = vec![0u64; 2];
    assert_eq!(
        align_forecast(&horizon, &point, &None, &None),
        Err(PipelineError::Predict(PredictFailure::LengthMismatch { expected: 3, found: 2 }))
    );
    let point = vec![0u64; 3];
    assert_eq!(
        align_forecast(&horizon, &point, &None, &Some(vec![0u64; 4])),
        Err(PipelineError::Predict(PredictFailure::LengthMismatch { expected: 3, found: 4 }))
    );
}

#[test]
fn flat_series_gets_chart_bounds() {
    let actual: Vec<Sample> = (0..5).map(|i| sample(i * 3600, 42.0)).collect();
    let b = chart_bounds(&actual, &Vec::new()).unwrap();
    assert_eq!(b.x_lo, 0);
    assert_eq!(b.x_hi, 4 * 3600);
    assert_eq!(b.y_hi_bits, 42.0f64.to_bits());
    let lo = f64::from_bits(b.y_lo_bits);
    assert!(lo < 42.0 && lo > 41.99);
}

#[test]
fn chart_bounds_use_actual_values_and_later_end() {
    let actual = vec![sample(100, 3.0), sample(200, 1.0), sample(300, 2.0)];
    let forecast = vec![ForecastPoint { timestamp: 500, point_bits: 99.0f64.to_bits(), lower_bits: None, upper_bits: None }];
    assert_eq!(
        chart_bounds(&actual, &forecast),
        Ok(ChartBounds { x_lo: 100, x_hi: 500, y_lo_bits: 1.0f64.to_bits(), y_hi_bits: 3.0f64.to_bits() })
    );
    let early = vec![ForecastPoint { timestamp: 150, point_bits: 0, lower_bits: None, upper_bits: None }];
    assert_eq!(chart_bounds(&actual, &early).unwrap().x_hi, 300);
}

#[test]
fn chart_bounds_errors() {
    assert_eq!(
        chart_bounds(&Vec::new(), &Vec::new()),
        Err(PipelineError::Render(RenderFailure::EmptySeries))
    );
    let single = vec![sample(i64::MAX, 1.0)];
    assert_eq!(
        chart_bounds(&single, &Vec::new()),
        Err(PipelineError::Render(RenderFailure::DegenerateRange))
    );
    let one = vec![sample(7, 1.0)];
    assert_eq!(chart_bounds(&one, &Vec::new()).unwrap().x_hi, 8);
}

#[test]
fn training_columns_split() {
    let samples = vec![sample(1, 2.0), sample(3, 4.0)];
    let (ts, vs) = training_columns(&samples);
    assert_eq!(ts, vec![1, 3]);
    assert_eq!(vs, vec![2.0f64.to_bits(), 4.0f64.to_bits()]);
}

#[test]
fn hourly_demand_options() {
    let o = ModelOptions::hourly_demand();
    assert_eq!(o.growth, Growth::Linear);
    assert_eq!(o.seasonality_mode, SeasonalityMode::Multiplicative);
    assert_eq!(o.daily, SeasonalityToggle::Manual(true));
    assert_eq!(o.weekly, SeasonalityToggle::Manual(true));
    assert_eq!(o.yearly, SeasonalityToggle::Manual(false));
}

#[test]
fn classify_parsed_decides_each_case() {
    let good = ValueReading::Number(3.0f64.to_bits());
    assert_eq!(classify_parsed(Some(60), good), Ok(sample(60, 3.0)));
    assert_eq!(classify_parsed(None, good), Err(SkipReason::MalformedTimestamp));
    assert_eq!(classify_parsed(None, ValueReading::Malformed), Err(SkipReason::MalformedTimestamp));
    assert_eq!(classify_parsed(Some(60), ValueReading::Malformed), Err(SkipReason::MalformedValue));
    assert_eq!(
        classify_parsed(Some(60), ValueReading::Number((-3.0f64).to_bits())),
        Err(SkipReason::NonPositiveValue)
    );
}
