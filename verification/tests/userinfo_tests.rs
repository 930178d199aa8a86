use pan_upload::outcome::{ErrorKind, ExchangeResult};
use pan_upload::userinfo::{
    check_quota_reply, check_user_info_reply, BaiduUserInfo, QuotaResponse, UserInfoResponse,
};

fn quota(errno: i32) -> QuotaResponse {
    QuotaResponse { errno, request_id: 42, total: 1000, used: 250 }
}

fn user(errno: i32) -> UserInfoResponse {
    UserInfoResponse {
        errno,
        request_id: "r1".to_string(),
        baidu_name: "alex".to_string(),
        netdisk_name: "alex-disk".to_string(),
        avatar_url: "https://example.invalid/a.png".to_string(),
        vip_type: 1,
        uk: 777,
    }
}

#[test]
fn quota_query_params_without_options() {
    let c = BaiduUserInfo::new("TOK".to_string());
    let p = c.quota_query_params(None, None);
    assert_eq!(p.len(), 2);
    assert_eq!(p[0], ("openapi".to_string(), "xpansdk".to_string()));
    assert_eq!(p[1], ("access_token".to_string(), "TOK".to_string()));
}

#[test]
fn quota_query_params_with_options() {
    let c = BaiduUserInfo::new("TOK".to_string());
    let p = c.quota_query_params(Some(1), Some(0));
    assert_eq!(p.len(), 4);
    assert_eq!(p[2], ("checkexpire".to_string(), "1".to_string()));
    assert_eq!(p[3], ("checkfree".to_string(), "0".to_string()));
}

#[test]
fn user_info_query_params_shape() {
    let c = BaiduUserInfo::new("TOK".to_string());
    let p = c.user_info_query_params();
    assert_eq!(p.len(), 3);
    assert_eq!(p[0], ("method".to_string(), "uinfo".to_string()));
    assert_eq!(p[1], ("openapi".to_string(), "xpansdk".to_string()));
    assert_eq!(p[2], ("access_token".to_string(), "TOK".to_string()));
}

#[test]
fn quota_reply_accepted_on_zero_status() {
    let r = check_quota_reply(ExchangeResult::Reply(quota(0))).expect("accepted");
    assert_eq!((r.total, r.used, r.request_id), (1000, 250, 42));
}

#[test]
fn quota_reply_rejected_on_nonzero_status() {
    let e = check_quota_reply(ExchangeResult::Reply(quota(-6))).unwrap_err();
    assert_eq!(e.0, ErrorKind::ProtocolError);
    assert!(e.1.contains("-6"));
}

#[test]
fn quota_reply_rejected_on_transport_failure() {
    let e = check_quota_reply(ExchangeResult::TransportFailed("tls".to_string())).unwrap_err();
    assert_eq!(e.0, ErrorKind::TransportError);
}

#[test]
fn quota_reply_rejected_on_http_failure() {
    let e = check_quota_reply(ExchangeResult::HttpFailed(503, "busy".to_string())).unwrap_err();
    assert_eq!(e.0, ErrorKind::ProtocolError);
    assert!(e.1.contains("503"));
}

#[test]
fn user_info_reply_accepted_on_zero_status() {
    let r = check_user_info_reply(ExchangeResult::Reply(user(0))).expect("accepted");
    assert_eq!(r.uk, 777);
    assert_eq!(r.baidu_name, "alex");
}

#[test]
fn user_info_reply_rejected_on_undecodable_body() {
    let e = check_user_info_reply(ExchangeResult::Undecodable("bad json".to_string()))
        .unwrap_err();
    assert_eq!(e.0, ErrorKind::ProtocolError);
}

#[test]
fn user_info_reply_rejected_on_nonzero_status() {
    let e = check_user_info_reply(ExchangeResult::Reply(user(111))).unwrap_err();
    assert_eq!(e.0, ErrorKind::ProtocolError);
}
