//! The uniform response envelope every platform endpoint returns, and the
//! rule that turns an envelope into a payload or a typed failure.

use vstd::prelude::*;
use vstd::string::StringExecFns;

use crate::errors::APIError;

verus! {

/// Paging information some list endpoints attach to their envelope.
pub struct Page {
    pub total: u32,
    pub page: u32,
    pub size: u32,
}

/// The envelope: a status code (the string "200" on success), a message,
/// optional paging, and the payload when there is one.
pub struct APIResponse<T> {
    pub code: String,
    pub msg: String,
    pub page: Option<Page>,
    pub data: Option<T>,
}

/// The payload of a successful token fetch: the bearer token and its
/// absolute expiry in milliseconds since the epoch.
pub struct TokenData {
    pub access_token: String,
    pub expire_time: i64,
}

/// Turns an envelope into its payload or a typed failure.
///
/// A "200" envelope yields its payload; a "200" envelope without one is a
/// malformed success response, reported under the reserved internal code
/// "801"; any other code is a server rejection carried verbatim, with the
/// failing `url` folded into the message for diagnostics.
pub fn process_envelope<T>(url: &str, resp: APIResponse<T>) -> (r: Result<T, APIError>)
    ensures
        resp.code@ == "200"@ && resp.data is Some ==> r is Ok && r->Ok_0 == resp.data->0,
        resp.code@ == "200"@ && resp.data is None ==> r is Err && r->Err_0.code@ == "801"@,
        resp.code@ != "200"@ ==> r is Err && r->Err_0.code@ == resp.code@
            && r->Err_0.message@ == "fail to request url ["@ + url@ + "], error message: "@
            + resp.msg@,
{
    let ok = resp.code == String::from_str("200");
    if ok {
        match resp.data {
            Some(d) => Ok(d),
            None => Err(APIError {
                code: String::from_str("801"),
                message: String::from_str("malformed success response"),
            }),
        }
    } else {
        let mut m = String::from_str("fail to request url [");
        m.append(url);
        m.append("], error message: ");
        m.append(resp.msg.as_str());
        Err(APIError { code: resp.code, message: m })
    }
}

} // verus!
