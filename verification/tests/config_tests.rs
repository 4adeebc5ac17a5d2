use facewinunlock::config::{mode_for, parse_i32, Mode, SessionConfig, StoredOptions, OPERATION};
use facewinunlock::limits::{
    DEFAULT_FACE_RECOG_DELAY_MS, DEFAULT_LIVENESS_THRESHOLD_PCT, DEFAULT_RETRY_DELAY_MS,
    LOOP_MILLIS, MAX_RETRY, TIMER_ID_LOCK_CHECK,
};

fn nothing() -> StoredOptions {
    StoredOptions {
        face_recog_type: None,
        face_recog_delay_ms: None,
        camera: None,
        retry_delay_ms: None,
        liveness_enabled: None,
        liveness_threshold_pct: None,
    }
}

#[test]
fn documented_defaults() {
    assert_eq!(DEFAULT_FACE_RECOG_DELAY_MS, 10_000);
    assert_eq!(DEFAULT_RETRY_DELAY_MS, 10_000);
    assert_eq!(DEFAULT_LIVENESS_THRESHOLD_PCT, 50);
    assert_eq!(MAX_RETRY, 3);
    assert_eq!(LOOP_MILLIS, 50);
    assert_eq!(TIMER_ID_LOCK_CHECK, 1001);
    assert_eq!(OPERATION, "operation");
}

#[test]
fn missing_options_take_defaults() {
    assert_eq!(
        SessionConfig::from_options(&nothing()),
        SessionConfig {
            mode: Mode::Immediate,
            delay_ms: 10_000,
            camera_index: 0,
            retry_delay_ms: 10_000,
            liveness_enabled: false,
            liveness_threshold_pct: 50,
        }
    );
    assert_eq!(SessionConfig::from_options(&nothing()), SessionConfig::new());
}

#[test]
fn present_options_are_taken() {
    let options = StoredOptions {
        face_recog_type: Some("delay".to_string()),
        face_recog_delay_ms: Some(1_500),
        camera: Some("2".to_string()),
        retry_delay_ms: Some(250),
        liveness_enabled: Some("true".to_string()),
        liveness_threshold_pct: Some(85),
    };
    assert_eq!(
        SessionConfig::from_options(&options),
        SessionConfig {
            mode: Mode::Delayed,
            delay_ms: 1_500,
            camera_index: 2,
            retry_delay_ms: 250,
            liveness_enabled: true,
            liveness_threshold_pct: 85,
        }
    );
}

#[test]
fn malformed_camera_falls_back_to_zero() {
    for text in ["", "x", "1.5", " 1", "1 ", "99999999999", "--1", "+", "-"] {
        let mut options = nothing();
        options.camera = Some(text.to_string());
        assert_eq!(SessionConfig::from_options(&options).camera_index, 0);
    }
}

#[test]
fn liveness_is_enabled_by_true_only() {
    for (text, enabled) in [("true", true), ("false", false), ("True", false), ("1", false), ("", false), (" true", false)] {
        let mut options = nothing();
        options.liveness_enabled = Some(text.to_string());
        assert_eq!(SessionConfig::from_options(&options).liveness_enabled, enabled);
    }
}

#[test]
fn mode_is_immediate_for_operation_only() {
    assert_eq!(mode_for("operation"), Mode::Immediate);
    assert_eq!(mode_for("delay"), Mode::Delayed);
    assert_eq!(mode_for(""), Mode::Delayed);
    assert_eq!(mode_for("Operation"), Mode::Delayed);
    assert_eq!(mode_for("operation "), Mode::Delayed);
}

#[test]
fn parse_i32_reads_numerals() {
    assert_eq!(parse_i32("0"), Some(0));
    assert_eq!(parse_i32("7"), Some(7));
    assert_eq!(parse_i32("-7"), Some(-7));
    assert_eq!(parse_i32("+7"), Some(7));
    assert_eq!(parse_i32("007"), Some(7));
    assert_eq!(parse_i32("-0"), Some(0));
    assert_eq!(parse_i32("2147483647"), Some(i32::MAX));
    assert_eq!(parse_i32("-2147483648"), Some(i32::MIN));
    assert_eq!(parse_i32("0000000000000000002147483647"), Some(i32::MAX));
}

#[test]
fn parse_i32_rejects_what_is_no_numeral() {
    assert_eq!(parse_i32(""), None);
    assert_eq!(parse_i32("+"), None);
    assert_eq!(parse_i32("-"), None);
    assert_eq!(parse_i32("2147483648"), None);
    assert_eq!(parse_i32("-2147483649"), None);
    assert_eq!(parse_i32("99999999999999999999999999"), None);
    assert_eq!(parse_i32("1a"), None);
    assert_eq!(parse_i32("a1"), None);
    assert_eq!(parse_i32("1 "), None);
    assert_eq!(parse_i32(" 1"), None);
    assert_eq!(parse_i32("1.0"), None);
    assert_eq!(parse_i32("+-1"), None);
    assert_eq!(parse_i32("١"), None);
    assert_eq!(parse_i32("21474836480x"), None);
}

#[test]
fn parse_i32_agrees_with_std() {
    for text in ["", "0", "-1", "+1", "12345", "-2147483648", "2147483647", "2147483648", "x", "1x", "+", "00", "-00012", "4294967296"] {
        assert_eq!(parse_i32(text), text.parse::<i32>().ok());
    }
}
