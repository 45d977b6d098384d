//! The authenticated-request building blocks: endpoint addresses, parameter
//! lists for each endpoint, token injection, and the choice of device serial.
//!
//! The transport itself (the HTTP POST and the JSON decoding) lives with the
//! caller; everything here is pure. A caller performs one call as: ask the
//! settings for a current token (fetching one first when the cache says so),
//! inject it with [`with_access_token`], post the parameters, and hand the
//! envelope to [`crate::envelope::process_envelope`].

use vstd::prelude::*;
use vstd::string::StringExecFns;

use crate::dto::AlarmStatus;
use crate::errors::APIError;
use crate::text::dec_str;
use crate::text::i64_to_dec_string;

verus! {

/// The fixed platform host followed by `path`.
pub fn server_url(path: &str) -> (r: String)
    ensures
        r@ == "https://open.ys7.com"@ + path@,
{
    let mut r = String::from_str("https://open.ys7.com");
    r.append(path);
    r
}

/// Address of the token endpoint.
pub fn token_url() -> (r: String)
    ensures
        r@ == "https://open.ys7.com"@ + "/api/lapp/token/get"@,
{
    server_url("/api/lapp/token/get")
}

/// Address of the device-list endpoint.
pub fn device_list_url() -> (r: String)
    ensures
        r@ == "https://open.ys7.com"@ + "/api/lapp/device/list"@,
{
    server_url("/api/lapp/device/list")
}

/// Address of the camera-list endpoint.
pub fn camera_list_url() -> (r: String)
    ensures
        r@ == "https://open.ys7.com"@ + "/api/lapp/camera/list"@,
{
    server_url("/api/lapp/camera/list")
}

/// Address of the device-status endpoint.
pub fn device_info_url() -> (r: String)
    ensures
        r@ == "https://open.ys7.com"@ + "/api/lapp/device/status/get"@,
{
    server_url("/api/lapp/device/status/get")
}

/// Address of the device-alarm endpoint.
pub fn device_alarm_url() -> (r: String)
    ensures
        r@ == "https://open.ys7.com"@ + "/api/lapp/alarm/device/list"@,
{
    server_url("/api/lapp/alarm/device/list")
}

/// Appends the bearer token to a parameter list under the endpoint's fixed
/// key name.
pub fn with_access_token(params: Vec<(String, String)>, token: String) -> (r: Vec<
    (String, String),
>)
    ensures
        r.deep_view() == params.deep_view().push(("accessToken"@, token@)),
{
    let ghost orig = params.deep_view();
    let mut p = params;
    p.push((String::from_str("accessToken"), token));
    proof {
        assert(p.deep_view() =~~= orig.push(("accessToken"@, token@)));
    }
    p
}

/// The parameters of a device-status query: the serial, and the channel
/// number when one is given.
pub fn device_info_params(device_serial: &str, channel: Option<i8>) -> (r: Vec<(String, String)>)
    ensures
        r.deep_view() == (match channel {
            Some(c) => seq![("deviceSerial"@, device_serial@), ("channel"@, dec_str(c as int))],
            None => seq![("deviceSerial"@, device_serial@)],
        }),
{
    let mut r: Vec<(String, String)> = Vec::new();
    r.push((String::from_str("deviceSerial"), String::from_str(device_serial)));
    match channel {
        Some(c) => {
            r.push((String::from_str("channel"), i64_to_dec_string(c as i64)));
            proof {
                assert(r.deep_view() =~~= seq![
                    ("deviceSerial"@, device_serial@),
                    ("channel"@, dec_str(c as int)),
                ]);
            }
        },
        None => {
            proof {
                assert(r.deep_view() =~~= seq![("deviceSerial"@, device_serial@)]);
            }
        },
    }
    r
}

/// The parameter list of an alarm query over `serial`, `start`, `end` and
/// `status`: the serial, then each bound or filter that is given, in this
/// order, with timestamps rendered in decimal.
pub open spec fn alarm_params_model(
    serial: Seq<char>,
    start: Option<i64>,
    end: Option<i64>,
    status: Option<AlarmStatus>,
) -> Seq<(Seq<char>, Seq<char>)> {
    seq![("deviceSerial"@, serial)] + (match start {
        Some(t) => seq![("startTime"@, dec_str(t as int))],
        None => Seq::empty(),
    }) + (match end {
        Some(t) => seq![("endTime"@, dec_str(t as int))],
        None => Seq::empty(),
    }) + (match status {
        Some(s) => seq![("status"@, dec_str(s.spec_code()))],
        None => Seq::empty(),
    })
}

/// The parameters of an alarm query: the serial, the optional time range in
/// epoch milliseconds, and the optional status filter as its small integer.
pub fn device_alarm_params(
    device_serial: &str,
    start_time: Option<i64>,
    end_time: Option<i64>,
    status: Option<AlarmStatus>,
) -> (r: Vec<(String, String)>)
    ensures
        r.deep_view() == alarm_params_model(device_serial@, start_time, end_time, status),
{
    let mut r: Vec<(String, String)> = Vec::new();
    r.push((String::from_str("deviceSerial"), String::from_str(device_serial)));
    if let Some(start) = start_time {
        r.push((String::from_str("startTime"), i64_to_dec_string(start)));
    }
    if let Some(end) = end_time {
        r.push((String::from_str("endTime"), i64_to_dec_string(end)));
    }
    if let Some(s) = status {
        r.push((String::from_str("status"), i64_to_dec_string(s.code())));
    }
    proof {
        assert(r.deep_view() =~~= alarm_params_model(
            device_serial@,
            start_time,
            end_time,
            status,
        ));
    }
    r
}

/// Chooses the device serial for a command: one supplied with the command
/// wins over the configured default; with neither, the typed missing-
/// parameter failure (reserved code "802") is returned rather than aborting.
pub fn require_serial(explicit: Option<String>, configured: Option<String>) -> (r: Result<
    String,
    APIError,
>)
    ensures
        explicit is Some ==> r is Ok && r->Ok_0@ == explicit->0@,
        explicit is None && configured is Some ==> r is Ok && r->Ok_0@ == configured->0@,
        explicit is None && configured is None ==> r is Err && r->Err_0.code@ == "802"@,
{
    match explicit {
        Some(s) => Ok(s),
        None => match configured {
            Some(s) => Ok(s),
            None => Err(APIError {
                code: String::from_str("802"),
                message: String::from_str("serial must be provided for this command"),
            }),
        },
    }
}

} // verus!
