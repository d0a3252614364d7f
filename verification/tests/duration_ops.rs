use temporal_rn::temporal_duration_abs;
use temporal_rn::temporal_duration_add;
use temporal_rn::temporal_duration_from_string;
use temporal_rn::temporal_duration_get_components;
use temporal_rn::temporal_duration_negated;
use temporal_rn::temporal_duration_subtract;
use temporal_rn::temporal_instant_now;
use temporal_rn::DurationComponents;
use temporal_rn::TemporalErrorType;
use temporal_rn::TemporalResult;

fn extract_result(mut result: TemporalResult) -> String {
    if result.error_type != TemporalErrorType::NoError {
        let error_msg = result
            .error_message
            .clone()
            .unwrap_or_else(|| "Unknown error".to_string());
        result.release();
        panic!("TemporalResult error: {}", error_msg);
    }
    let value = result.value.clone().unwrap_or_default();
    result.release();
    value
}

#[test]
fn test_instant_now() {
    let result = temporal_instant_now().unwrap();
    assert!(result.ends_with('Z'), "Expected UTC timestamp: {}", result);
    assert!(result.contains('T'), "Expected ISO format: {}", result);
    println!("Current instant: {}", result);
}

#[test]
fn test_duration_from_string_valid() {
    let result = temporal_duration_from_string(Some("P1Y2M3DT4H5M6S"));
    let result_string = extract_result(result);
    assert!(result_string.starts_with('P'), "Should start with P: {}", result_string);
}

#[test]
fn test_duration_from_string_invalid() {
    let result = temporal_duration_from_string(Some("invalid"));
    assert_eq!(
        result.error_type,
        TemporalErrorType::RangeError,
        "Invalid duration should return RangeError"
    );
    assert!(result.error_message.is_some(), "Should have error message");
}

#[test]
fn test_duration_from_string_null() {
    let result = temporal_duration_from_string(None);
    assert_eq!(
        result.error_type,
        TemporalErrorType::TypeError,
        "Null input should return TypeError"
    );
}

#[test]
fn test_duration_get_components() {
    let mut components = DurationComponents::default();
    temporal_duration_get_components(Some("P1Y2M3W4DT5H6M7S"), &mut components);
    assert_eq!(components.is_valid, 1, "Should be valid");
    assert_eq!(components.years, 1);
    assert_eq!(components.months, 2);
    assert_eq!(components.weeks, 3);
    assert_eq!(components.days, 4);
    assert_eq!(components.hours, 5);
    assert_eq!(components.minutes, 6);
    assert_eq!(components.seconds, 7);
    assert_eq!(components.sign, 1, "Positive duration should have sign 1");
}

#[test]
fn test_duration_get_components_negative() {
    let mut components = DurationComponents::default();
    temporal_duration_get_components(Some("-P1Y2M"), &mut components);
    assert_eq!(components.is_valid, 1);
    assert_eq!(components.years, -1);
    assert_eq!(components.months, -2);
    assert_eq!(components.sign, -1, "Negative duration should have sign -1");
}

#[test]
fn test_duration_get_components_zero() {
    let mut components = DurationComponents::default();
    temporal_duration_get_components(Some("PT0S"), &mut components);
    assert_eq!(components.is_valid, 1);
    assert_eq!(components.sign, 0, "Zero duration should have sign 0");
}

#[test]
fn test_duration_get_components_invalid() {
    let mut components = DurationComponents::default();
    temporal_duration_get_components(Some("invalid"), &mut components);
    assert_eq!(components.is_valid, 0, "Invalid duration should set is_valid to 0");
}

#[test]
fn test_duration_add() {
    let result = temporal_duration_add(Some("PT1H30M"), Some("PT2H15M"));
    let result_string = extract_result(result);
    assert!(result_string.contains("3H"), "1H30M + 2H15M should contain 3H: {}", result_string);
    assert!(result_string.contains("45M"), "1H30M + 2H15M should contain 45M: {}", result_string);
}

#[test]
fn test_duration_subtract() {
    let result = temporal_duration_subtract(Some("PT3H45M"), Some("PT1H15M"));
    let result_string = extract_result(result);
    assert!(result_string.contains("2H"), "3H45M - 1H15M should contain 2H: {}", result_string);
    assert!(result_string.contains("30M"), "3H45M - 1H15M should contain 30M: {}", result_string);
}

#[test]
fn test_duration_negated() {
    let result = temporal_duration_negated(Some("P1Y2M"));
    let result_string = extract_result(result);
    assert!(result_string.starts_with("-P"), "Negated should start with -P: {}", result_string);
}

#[test]
fn test_duration_abs() {
    let result = temporal_duration_abs(Some("-P1Y2M"));
    let result_string = extract_result(result);
    assert!(
        result_string.starts_with('P') && !result_string.starts_with("-P"),
        "Abs should be positive: {}",
        result_string
    );
}

#[test]
fn test_error_types() {
    let result = temporal_duration_from_string(None);
    assert_eq!(result.error_type, TemporalErrorType::TypeError);

    let result = temporal_duration_from_string(Some("not-a-duration"));
    assert_eq!(result.error_type, TemporalErrorType::RangeError);
    let error_msg = result.error_message.clone().unwrap();
    assert!(
        error_msg.contains("not-a-duration"),
        "Error message should include input: {}",
        error_msg
    );
}
