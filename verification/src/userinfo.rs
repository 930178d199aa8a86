//! Account information: the single-shot quota and user-info reads.
//!
//! Both are one GET each against the provider; the I/O layer performs the
//! exchange and decodes the body, and the functions here build the query
//! parameters and judge the reply — a non-success HTTP status, an
//! undecodable body and a non-zero provider status each reject it with its
//! own kind.

use vstd::prelude::*;
use vstd::string::StringExecFns;
use crate::decimal::{dec_int_str_of, i64_to_dec, u64_to_dec};
use crate::outcome::{ErrorKind, ExchangeResult};

verus! {

/// The decoded quota reply: total and used space in bytes.
#[derive(Debug)]
pub struct QuotaResponse {
    /// Provider status code; zero means success.
    pub errno: i32,
    /// Provider-assigned request identifier.
    pub request_id: u64,
    /// Total space in bytes.
    pub total: u64,
    /// Used space in bytes.
    pub used: u64,
}

/// The decoded user-info reply.
#[derive(Debug)]
pub struct UserInfoResponse {
    /// Provider status code; zero means success.
    pub errno: i32,
    /// Provider-assigned request identifier.
    pub request_id: String,
    /// Account name.
    pub baidu_name: String,
    /// Display name on the storage service.
    pub netdisk_name: String,
    /// Avatar image URL.
    pub avatar_url: String,
    /// Subscription level of the account.
    pub vip_type: i32,
    /// Numeric user identifier.
    pub uk: u64,
}

/// The account-information client: it keeps the bearer token and prepares
/// and judges the two read-only calls.
pub struct BaiduUserInfo {
    /// Bearer token attached to every outbound call.
    pub access_token: String,
}

/// Endpoint of the quota read.
pub const QUOTA_URL: &'static str = "https://pan.baidu.com/api/quota";

/// Endpoint of the user-info read.
pub const USER_INFO_URL: &'static str = "https://pan.baidu.com/rest/2.0/xpan/nas";

impl BaiduUserInfo {
    /// Keep the token for the reads to come.
    pub fn new(access_token: String) -> (u: Self)
        ensures
            u.access_token == access_token,
    {
        BaiduUserInfo { access_token }
    }

    /// The query parameters of the quota read: the API selector and the
    /// token, then the optional expiry and free-space checks in that order,
    /// each in decimal.
    pub fn quota_query_params(&self, checkexpire: Option<i32>, checkfree: Option<i32>) -> (r: Vec<
        (String, String),
    >)
        ensures
            r@.len() == 2 + (if checkexpire is Some {
                1int
            } else {
                0int
            }) + (if checkfree is Some {
                1int
            } else {
                0int
            }),
            r@[0].0@ == "openapi"@ && r@[0].1@ == "xpansdk"@,
            r@[1].0@ == "access_token"@ && r@[1].1@ == self.access_token@,
            checkexpire matches Some(v) ==> r@[2].0@ == "checkexpire"@ && r@[2].1@
                == dec_int_str_of(v as int),
            checkfree matches Some(v) ==> r@[r@.len() - 1].0@ == "checkfree"@ && r@[r@.len()
                - 1].1@ == dec_int_str_of(v as int),
    {
        let mut r: Vec<(String, String)> = Vec::new();
        r.push((String::from_str("openapi"), String::from_str("xpansdk")));
        r.push((String::from_str("access_token"), self.access_token.clone()));
        if let Some(v) = checkexpire {
            r.push((String::from_str("checkexpire"), i64_to_dec(v as i64)));
        }
        if let Some(v) = checkfree {
            r.push((String::from_str("checkfree"), i64_to_dec(v as i64)));
        }
        r
    }

    /// The query parameters of the user-info read: the method name, the API
    /// selector and the token.
    pub fn user_info_query_params(&self) -> (r: Vec<(String, String)>)
        ensures
            r@.len() == 3,
            r@[0].0@ == "method"@ && r@[0].1@ == "uinfo"@,
            r@[1].0@ == "openapi"@ && r@[1].1@ == "xpansdk"@,
            r@[2].0@ == "access_token"@ && r@[2].1@ == self.access_token@,
    {
        let mut r: Vec<(String, String)> = Vec::new();
        r.push((String::from_str("method"), String::from_str("uinfo")));
        r.push((String::from_str("openapi"), String::from_str("xpansdk")));
        r.push((String::from_str("access_token"), self.access_token.clone()));
        r
    }
}

/// Judge a quota exchange: the reply is accepted exactly when the exchange
/// produced a decodable body with a zero provider status.
pub fn check_quota_reply(result: ExchangeResult<QuotaResponse>) -> (r: Result<
    QuotaResponse,
    (ErrorKind, String),
>)
    ensures
        r is Ok <==> (result matches ExchangeResult::Reply(q) && q.errno == 0),
        result matches ExchangeResult::Reply(q) ==> {
            &&& q.errno == 0 ==> (r matches Ok(out) && out.errno == q.errno && out.request_id
                == q.request_id && out.total == q.total && out.used == q.used)
            &&& q.errno != 0 ==> (r matches Err(e) && e.0 == ErrorKind::ProtocolError)
        },
        result is TransportFailed ==> (r matches Err(e) && e.0 == ErrorKind::TransportError),
        result is HttpFailed ==> (r matches Err(e) && e.0 == ErrorKind::ProtocolError),
        result is Undecodable ==> (r matches Err(e) && e.0 == ErrorKind::ProtocolError),
{
    match result {
        ExchangeResult::TransportFailed(detail) => {
            let mut message = String::from_str("quota read never completed: ");
            message.append(detail.as_str());
            Err((ErrorKind::TransportError, message))
        },
        ExchangeResult::HttpFailed(status, body) => {
            let mut message = String::from_str("quota read answered HTTP ");
            let code = u64_to_dec(status as u64);
            message.append(code.as_str());
            message.append(": ");
            message.append(body.as_str());
            Err((ErrorKind::ProtocolError, message))
        },
        ExchangeResult::Undecodable(detail) => {
            let mut message = String::from_str("undecodable quota reply: ");
            message.append(detail.as_str());
            Err((ErrorKind::ProtocolError, message))
        },
        ExchangeResult::Reply(q) => {
            if q.errno != 0 {
                let mut message = String::from_str("quota read failed with provider status ");
                let code = i64_to_dec(q.errno as i64);
                message.append(code.as_str());
                Err((ErrorKind::ProtocolError, message))
            } else {
                Ok(q)
            }
        },
    }
}

/// Judge a user-info exchange: the reply is accepted exactly when the
/// exchange produced a decodable body with a zero provider status.
pub fn check_user_info_reply(result: ExchangeResult<UserInfoResponse>) -> (r: Result<
    UserInfoResponse,
    (ErrorKind, String),
>)
    ensures
        r is Ok <==> (result matches ExchangeResult::Reply(q) && q.errno == 0),
        result matches ExchangeResult::Reply(q) ==> {
            &&& q.errno == 0 ==> (r matches Ok(out) && out.errno == q.errno && out.uk == q.uk
                && out.vip_type == q.vip_type && out.baidu_name@ == q.baidu_name@
                && out.netdisk_name@ == q.netdisk_name@ && out.avatar_url@ == q.avatar_url@
                && out.request_id@ == q.request_id@)
            &&& q.errno != 0 ==> (r matches Err(e) && e.0 == ErrorKind::ProtocolError)
        },
        result is TransportFailed ==> (r matches Err(e) && e.0 == ErrorKind::TransportError),
        result is HttpFailed ==> (r matches Err(e) && e.0 == ErrorKind::ProtocolError),
        result is Undecodable ==> (r matches Err(e) && e.0 == ErrorKind::ProtocolError),
{
    match result {
        ExchangeResult::TransportFailed(detail) => {
            let mut message = String::from_str("user-info read never completed: ");
            message.append(detail.as_str());
            Err((ErrorKind::TransportError, message))
        },
        ExchangeResult::HttpFailed(status, body) => {
            let mut message = String::from_str("user-info read answered HTTP ");
            let code = u64_to_dec(status as u64);
            message.append(code.as_str());
            message.append(": ");
            message.append(body.as_str());
            Err((ErrorKind::ProtocolError, message))
        },
        ExchangeResult::Undecodable(detail) => {
            let mut message = String::from_str("undecodable user-info reply: ");
            message.append(detail.as_str());
            Err((ErrorKind::ProtocolError, message))
        },
        ExchangeResult::Reply(q) => {
            if q.errno != 0 {
                let mut message = String::from_str("user-info read failed with provider status ");
                let code = i64_to_dec(q.errno as i64);
                message.append(code.as_str());
                Err((ErrorKind::ProtocolError, message))
            } else {
                Ok(q)
            }
        },
    }
}

} // verus!
