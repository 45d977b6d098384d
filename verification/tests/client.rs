//! Behaviour of the token lifecycle, the envelope rule, and the parameter
//! builders, on concrete values.

use yingshi::client::{
    camera_list_url, device_alarm_params, device_alarm_url, device_info_params, device_info_url,
    device_list_url, require_serial, server_url, token_url, with_access_token,
};
use yingshi::envelope::process_envelope;
use yingshi::{
    APIError, APIResponse, AlarmStatus, DeviceStatus, Permission, Settings, TokenData, VideoLevel,
};

fn envelope<T>(code: &str, msg: &str, data: Option<T>) -> APIResponse<T> {
    APIResponse { code: code.to_string(), msg: msg.to_string(), page: None, data }
}

fn token_envelope(code: &str, data: Option<TokenData>) -> APIResponse<TokenData> {
    envelope(code, "", data)
}

fn token_data(token: &str, expire_time: i64) -> TokenData {
    TokenData { access_token: token.to_string(), expire_time }
}

#[test]
fn fresh_token_is_returned_from_the_cache() {
    let mut s = Settings::new("k".to_string(), "s".to_string());
    let r = s.apply_token_response(token_envelope("200", Some(token_data("tok-1", 10_000))));
    assert_eq!(r.unwrap(), "tok-1");
    // 9000 ms remain: well over the 1000 ms margin.
    assert_eq!(s.current_token(1_000).unwrap(), "tok-1");
    // Exactly the margin still counts as fresh.
    assert_eq!(s.current_token(9_000).unwrap(), "tok-1");
}

#[test]
fn stale_or_absent_token_requires_a_fetch() {
    let mut s = Settings::new("k".to_string(), "s".to_string());
    assert!(s.current_token(0).is_none());
    s.apply_token_response(token_envelope("200", Some(token_data("tok-1", 10_000))))
        .unwrap();
    // 999 ms remain: under the margin.
    assert!(s.current_token(9_001).is_none());
    // Already expired, remaining negative.
    assert!(s.current_token(20_000).is_none());
}

#[test]
fn token_fetch_success_updates_token_and_expiry_together() {
    let mut s = Settings::new("k".to_string(), "s".to_string());
    s.apply_token_response(token_envelope("200", Some(token_data("tok-2", 77_000))))
        .unwrap();
    let cached = s.cached.as_ref().unwrap();
    assert_eq!(cached.token, "tok-2");
    assert_eq!(cached.expires_at_epoch_millis, 77_000);
}

#[test]
fn token_fetch_rejection_leaves_state_unchanged() {
    let mut s = Settings::new("k".to_string(), "s".to_string());
    s.apply_token_response(token_envelope("200", Some(token_data("tok-3", 50_000))))
        .unwrap();
    let e = s
        .apply_token_response(token_envelope("10017", Some(token_data("bad", 1))))
        .unwrap_err();
    assert_eq!(e.code, "10017");
    let cached = s.cached.as_ref().unwrap();
    assert_eq!(cached.token, "tok-3");
    assert_eq!(cached.expires_at_epoch_millis, 50_000);
}

#[test]
fn token_fetch_missing_payload_is_malformed() {
    let mut s = Settings::new("k".to_string(), "s".to_string());
    let e = s.apply_token_response(token_envelope("200", None)).unwrap_err();
    assert_eq!(e.code, "801");
    assert!(s.cached.is_none());
}

#[test]
fn token_request_carries_the_credentials() {
    let s = Settings::new("my-key".to_string(), "my-secret".to_string());
    let params = s.token_request_params();
    assert_eq!(
        params,
        vec![
            ("appKey".to_string(), "my-key".to_string()),
            ("appSecret".to_string(), "my-secret".to_string()),
        ]
    );
}

#[test]
fn envelope_success_returns_the_payload_unchanged() {
    let r = process_envelope("https://u", envelope("200", "ok", Some(41u32)));
    assert_eq!(r.unwrap(), 41);
}

#[test]
fn envelope_success_without_payload_is_malformed() {
    let r: Result<u32, APIError> = process_envelope("https://u", envelope("200", "ok", None));
    assert_eq!(r.unwrap_err().code, "801");
}

#[test]
fn envelope_rejection_carries_code_and_url() {
    let r: Result<u32, APIError> =
        process_envelope("https://u/path", envelope("60021", "device offline", None));
    let e = r.unwrap_err();
    assert_eq!(e.code, "60021");
    assert_eq!(
        e.message,
        "fail to request url [https://u/path], error message: device offline"
    );
}

#[test]
fn access_token_is_appended_under_its_fixed_name() {
    let params = vec![("deviceSerial".to_string(), "D1".to_string())];
    let with = with_access_token(params, "tok".to_string());
    assert_eq!(
        with,
        vec![
            ("deviceSerial".to_string(), "D1".to_string()),
            ("accessToken".to_string(), "tok".to_string()),
        ]
    );
}

#[test]
fn device_info_params_with_and_without_channel() {
    assert_eq!(
        device_info_params("D1", None),
        vec![("deviceSerial".to_string(), "D1".to_string())]
    );
    assert_eq!(
        device_info_params("D1", Some(-3)),
        vec![
            ("deviceSerial".to_string(), "D1".to_string()),
            ("channel".to_string(), "-3".to_string()),
        ]
    );
}

#[test]
fn device_alarm_params_keeps_the_given_bounds() {
    assert_eq!(
        device_alarm_params("D2", None, None, None),
        vec![("deviceSerial".to_string(), "D2".to_string())]
    );
    assert_eq!(
        device_alarm_params("D2", Some(1_600_000_000_000), Some(-5), Some(AlarmStatus::ALL)),
        vec![
            ("deviceSerial".to_string(), "D2".to_string()),
            ("startTime".to_string(), "1600000000000".to_string()),
            ("endTime".to_string(), "-5".to_string()),
            ("status".to_string(), "2".to_string()),
        ]
    );
    assert_eq!(
        device_alarm_params("D2", None, Some(9), Some(AlarmStatus::UNREAD)),
        vec![
            ("deviceSerial".to_string(), "D2".to_string()),
            ("endTime".to_string(), "9".to_string()),
            ("status".to_string(), "0".to_string()),
        ]
    );
}

#[test]
fn alarm_status_codes() {
    assert_eq!(AlarmStatus::ALL.code(), 2);
    assert_eq!(AlarmStatus::READ.code(), 1);
    assert_eq!(AlarmStatus::UNREAD.code(), 0);
}

#[test]
fn wire_integers_of_the_small_enumerations() {
    assert_eq!(DeviceStatus::Offline.code(), 0);
    assert_eq!(DeviceStatus::Online.code(), 1);
    assert_eq!(VideoLevel::Smooth.code(), 0);
    assert_eq!(VideoLevel::UltraClear.code(), 3);
    assert_eq!(Permission::Preview.bit(), 1);
    assert_eq!(Permission::Replay.bit(), 2);
    assert_eq!(Permission::Alert.bit(), 4);
    assert_eq!(Permission::VoiceTalk.bit(), 8);
}

#[test]
fn new_settings_hold_no_token() {
    let s = Settings::new("k".to_string(), "sec".to_string());
    assert_eq!(s.key, "k");
    assert_eq!(s.secret, "sec");
    assert!(s.cached.is_none());
    assert!(s.default_device_serial.is_none());
}

#[test]
fn endpoint_addresses() {
    assert_eq!(server_url("/x"), "https://open.ys7.com/x");
    assert_eq!(token_url(), "https://open.ys7.com/api/lapp/token/get");
    assert_eq!(device_list_url(), "https://open.ys7.com/api/lapp/device/list");
    assert_eq!(camera_list_url(), "https://open.ys7.com/api/lapp/camera/list");
    assert_eq!(device_info_url(), "https://open.ys7.com/api/lapp/device/status/get");
    assert_eq!(device_alarm_url(), "https://open.ys7.com/api/lapp/alarm/device/list");
}

#[test]
fn serial_choice_prefers_the_explicit_one() {
    let r = require_serial(Some("A".to_string()), Some("B".to_string()));
    assert_eq!(r.unwrap(), "A");
    let r = require_serial(None, Some("B".to_string()));
    assert_eq!(r.unwrap(), "B");
    let e = require_serial(None, None).unwrap_err();
    assert_eq!(e.code, "802");
}

#[test]
fn transport_failure_uses_the_reserved_code() {
    let e = APIError::transport_failure("connection refused".to_string());
    assert_eq!(e.code, "800");
    assert_eq!(e.message, "connection refused");
}

#[test]
fn describe_names_code_and_message() {
    let e = APIError { code: "42".to_string(), message: "boom".to_string() };
    assert_eq!(e.describe(), "request api error, code: 42, message boom");
}

#[test]
fn decimal_rendering_of_extreme_bounds() {
    assert_eq!(
        device_alarm_params("D", Some(i64::MIN), Some(i64::MAX), None),
        vec![
            ("deviceSerial".to_string(), "D".to_string()),
            ("startTime".to_string(), "-9223372036854775808".to_string()),
            ("endTime".to_string(), "9223372036854775807".to_string()),
        ]
    );
    assert_eq!(
        device_alarm_params("D", Some(0), None, None),
        vec![
            ("deviceSerial".to_string(), "D".to_string()),
            ("startTime".to_string(), "0".to_string()),
        ]
    );
}
