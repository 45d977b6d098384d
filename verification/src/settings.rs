//! The client's credentials and cached token, and the token lifecycle:
//! when the cache answers, and how a fetch response changes it.

use vstd::prelude::*;

use crate::envelope::{APIResponse, TokenData};
use crate::errors::APIError;

verus! {

/// Safety margin in milliseconds: a cached token this close to its expiry
/// is treated as stale and refreshed before use.
pub const EXPIRE_DELTA: i64 = 1000;

/// A bearer token together with its absolute expiry. Token and expiry are
/// one value: they are set and replaced together, never one without the other.
pub struct CachedToken {
    pub token: String,
    pub expires_at_epoch_millis: i64,
}

/// Credentials for the platform, the cached token when one is held, and the
/// optional default device serial.
pub struct Settings {
    pub key: String,
    pub secret: String,
    pub cached: Option<CachedToken>,
    pub default_device_serial: Option<String>,
}

impl Settings {
    /// Fresh settings for a key/secret pair: no cached token, no default device.
    pub fn new(key: String, secret: String) -> (r: Settings)
        ensures
            r.key@ == key@,
            r.secret@ == secret@,
            r.cached is None,
            r.default_device_serial is None,
    {
        Settings { key, secret, cached: None, default_device_serial: None }
    }

    /// Whether the cached token is still usable at `now_ms`: present, with at
    /// least the safety margin left before its expiry.
    pub open spec fn token_fresh(self, now_ms: i64) -> bool {
        match self.cached {
            Some(c) => c.expires_at_epoch_millis - now_ms >= EXPIRE_DELTA,
            None => false,
        }
    }

    /// The cached token, exactly when it is still usable at `now_ms`; `None`
    /// says a fetch must be performed before the next call. Reads only the
    /// cache: no fetch happens here.
    pub fn current_token(&self, now_ms: i64) -> (r: Option<String>)
        ensures
            r is Some <==> self.token_fresh(now_ms),
            r is Some ==> r->0@ == self.cached->0.token@,
    {
        match &self.cached {
            Some(c) => {
                let remaining: i128 = c.expires_at_epoch_millis as i128 - now_ms as i128;
                if remaining >= EXPIRE_DELTA as i128 {
                    Some(c.token.clone())
                } else {
                    None
                }
            },
            None => None,
        }
    }

    /// The form parameters of a token fetch: the credentials under the
    /// endpoint's fixed names.
    pub fn token_request_params(&self) -> (r: Vec<(String, String)>)
        ensures
            r.deep_view() == seq![("appKey"@, self.key@), ("appSecret"@, self.secret@)],
    {
        let mut r: Vec<(String, String)> = Vec::new();
        r.push((String::from_str("appKey"), self.key.clone()));
        r.push((String::from_str("appSecret"), self.secret.clone()));
        proof {
            assert(r.deep_view() =~~= seq![("appKey"@, self.key@), ("appSecret"@, self.secret@)]);
        }
        r
    }

    /// Applies the envelope a token fetch returned.
    ///
    /// A "200" envelope with a payload replaces token and expiry together and
    /// yields the new token; a "200" envelope without one is a malformed
    /// success response (reserved code "801"); any other code is a server
    /// rejection carried verbatim. On every failure the settings are left
    /// exactly as they were.
    pub fn apply_token_response(&mut self, resp: APIResponse<TokenData>) -> (r: Result<
        String,
        APIError,
    >)
        ensures
            resp.code@ == "200"@ && resp.data is Some ==> {
                &&& r is Ok
                &&& r->Ok_0@ == resp.data->0.access_token@
                &&& final(self).cached is Some
                &&& final(self).cached->0.token@ == resp.data->0.access_token@
                &&& final(self).cached->0.expires_at_epoch_millis == resp.data->0.expire_time
            },
            resp.code@ == "200"@ && resp.data is None ==> r is Err && r->Err_0.code@ == "801"@
                && *final(self) == *old(self),
            resp.code@ != "200"@ ==> r is Err && r->Err_0.code@ == resp.code@
                && r->Err_0.message@ == resp.msg@ && *final(self) == *old(self),
            final(self).key == old(self).key,
            final(self).secret == old(self).secret,
            final(self).default_device_serial == old(self).default_device_serial,
    {
        let ok = resp.code == String::from_str("200");
        if ok {
            match resp.data {
                Some(d) => {
                    let token = d.access_token;
                    self.cached = Some(
                        CachedToken {
                            token: token.clone(),
                            expires_at_epoch_millis: d.expire_time,
                        },
                    );
                    Ok(token)
                },
                None => Err(APIError {
                    code: String::from_str("801"),
                    message: String::from_str("malformed success response"),
                }),
            }
        } else {
            Err(APIError { code: resp.code, message: resp.msg })
        }
    }
}

} // verus!
