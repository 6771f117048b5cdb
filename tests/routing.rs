use runner_tunnel::auth::{
    bearer_token, route_request, split_commas, websocket_protocol_token, Auth, RequestHeaders,
    RoutingOutput,
};
use runner_tunnel::ctx::{check_auth_handled, token_from_authorization, ApiCtx};
use runner_tunnel::errors::{ApiError, ApiBadRequest, ApiForbidden, ApiNotFound};
use runner_tunnel::text::{eq_ignore_ascii_case, parse_i64, parse_u16, trim, str_equal, strip_prefix};
use runner_tunnel::url_data::UrlData;

fn ws_headers(protocols: Option<&str>) -> RequestHeaders {
    RequestHeaders {
        upgrade: Some("WebSocket".to_string()),
        sec_websocket_protocol: protocols.map(|s| s.to_string()),
        authorization: None,
    }
}

fn admin(token: &str) -> Option<Auth> {
    Some(Auth { admin_token: token.to_string() })
}

#[test]
fn auth_default_token() {
    assert_eq!(Auth::default().admin_token, "admin");
}

#[test]
fn websocket_token_is_found_among_protocols() {
    assert_eq!(websocket_protocol_token("rivet, rivet_token.secret"), Some("secret"));
    assert_eq!(websocket_protocol_token(" rivet_token.a ,rivet_token.b"), Some("a"));
    assert_eq!(websocket_protocol_token("rivet"), None);
    assert_eq!(websocket_protocol_token(""), None);
}

#[test]
fn split_keeps_empty_pieces() {
    assert_eq!(split_commas("a,,b"), vec!["a", "", "b"]);
    assert_eq!(split_commas(""), vec![""]);
    assert_eq!(split_commas(","), vec!["", ""]);
}

#[test]
fn bearer_prefix() {
    assert_eq!(bearer_token("Bearer abc"), Some("abc"));
    assert_eq!(bearer_token("bearer abc"), None);
    assert_eq!(token_from_authorization(Some("Bearer t")), Some("t".to_string()));
    assert_eq!(token_from_authorization(Some("Basic t")), None);
    assert_eq!(token_from_authorization(None), None);
}

#[test]
fn routing_other_target() {
    let r = route_request("api", &ws_headers(None), &admin("x"));
    assert!(matches!(r, Ok(None)));
}

#[test]
fn routing_without_auth() {
    let h = RequestHeaders { upgrade: None, sec_websocket_protocol: None, authorization: None };
    assert!(matches!(route_request("runner", &h, &None), Ok(Some(RoutingOutput::RunnerTunnel))));
}

#[test]
fn routing_websocket_token() {
    let ok = route_request("runner", &ws_headers(Some("rivet, rivet_token.secret")), &admin("secret"));
    assert!(matches!(ok, Ok(Some(RoutingOutput::RunnerTunnel))));
    let wrong = route_request("runner", &ws_headers(Some("rivet_token.nope")), &admin("secret"));
    assert!(matches!(wrong, Err(ApiError::Forbidden)));
    let missing = route_request("runner", &ws_headers(Some("rivet")), &admin("secret"));
    assert!(matches!(missing, Err(ApiError::MissingHeader { .. })));
}

#[test]
fn routing_http_bearer() {
    let h = RequestHeaders { upgrade: None, sec_websocket_protocol: None, authorization: Some("Bearer secret".to_string()) };
    assert!(matches!(route_request("runner", &h, &admin("secret")), Ok(Some(_))));
    let h = RequestHeaders { upgrade: Some("h2c".to_string()), sec_websocket_protocol: Some("rivet_token.secret".to_string()), authorization: None };
    assert!(matches!(route_request("runner", &h, &admin("secret")), Err(ApiError::MissingHeader { .. })));
}

#[test]
fn api_ctx_auth() {
    let mut c = ApiCtx::new(admin("secret"), Some("secret".to_string()));
    assert!(!c.is_auth_handled());
    assert!(c.auth().is_ok());
    assert!(c.is_auth_handled());
    let mut bad = ApiCtx::new(admin("secret"), Some("x".to_string()));
    assert!(matches!(bad.auth(), Err(ApiError::Forbidden)));
    assert!(bad.is_auth_handled());
    let mut none = ApiCtx::new(admin("secret"), None);
    assert!(none.auth().is_err());
    let mut off = ApiCtx::new(None, None);
    assert!(off.is_auth_handled());
    assert!(off.auth().is_ok());
    let mut skip = ApiCtx::new(admin("secret"), None);
    skip.skip_auth();
    assert!(skip.is_auth_handled());
    assert_eq!(c.token(), Some("secret"));
    assert_eq!(skip.token(), None);
}

#[test]
fn middleware_checks_auth_handling() {
    assert!(check_auth_handled(false, "/", false).is_ok());
    assert!(check_auth_handled(false, "/ui", false).is_ok());
    assert!(check_auth_handled(false, "/ui/app.js", false).is_ok());
    assert!(check_auth_handled(true, "/actors", false).is_ok());
    assert!(check_auth_handled(false, "/actors", true).is_ok());
    assert_eq!(
        check_auth_handled(false, "/actors", false),
        Err("developer error: must explicitly handle auth in all endpoints (path: /actors)".to_string())
    );
    assert!(check_auth_handled(false, "/uix", false).is_err());
}

#[test]
fn api_error_statuses() {
    assert_eq!(ApiNotFound.build().status(), 404);
    assert_eq!(ApiForbidden.build().status(), 403);
    assert_eq!(ApiError::InvalidToken.status(), 401);
    assert_eq!(ApiError::Unauthorized.status(), 401);
    assert_eq!(ApiError::InternalError.status(), 500);
    let b = ApiBadRequest { reason: "x".to_string() }.build();
    assert_eq!(b.status(), 400);
    assert_eq!(b.group(), "api");
    assert_eq!(b.code(), "bad_request");
    assert_eq!(ApiError::Forbidden.code(), "forbidden");
}

#[test]
fn text_helpers() {
    assert!(str_equal("abc", "abc"));
    assert!(!str_equal("abc", "abd"));
    assert!(!str_equal("abc", "ab"));
    assert!(eq_ignore_ascii_case("WebSocket", "websocket"));
    assert!(!eq_ignore_ascii_case("websockets", "websocket"));
    assert_eq!(strip_prefix("rivet_token.x", "rivet_token."), Some("x"));
    assert_eq!(strip_prefix("rivet", "rivet_token."), None);
}

#[test]
fn u16_parsing() {
    assert_eq!(parse_u16("1"), Some(1));
    assert_eq!(parse_u16("+7"), Some(7));
    assert_eq!(parse_u16("0065535"), Some(65535));
    assert_eq!(parse_u16("65536"), None);
    assert_eq!(parse_u16("99999999999"), None);
    assert_eq!(parse_u16(""), None);
    assert_eq!(parse_u16("+"), None);
    assert_eq!(parse_u16("-1"), None);
    assert_eq!(parse_u16("1a"), None);
    for s in ["0", "12", "+300", "65535", "65536", "x", " 1"] {
        assert_eq!(parse_u16(s), s.parse::<u16>().ok());
    }
}

#[test]
fn url_parameters() {
    let d = UrlData::parse_url("?protocol_version=2&namespace=my%20ns&runner_key=k1").ok().unwrap();
    assert_eq!(d.protocol_version, 2);
    assert_eq!(d.namespace, "my ns");
    assert_eq!(d.runner_key, "k1");
    let d = UrlData::parse_url("path?namespace=a&protocol_version=1&runner_key=b&namespace=c").ok().unwrap();
    assert_eq!(d.namespace, "a");
}

#[test]
fn url_errors() {
    for path in [
        "?namespace=a&runner_key=b",
        "?protocol_version=x&namespace=a&runner_key=b",
        "?protocol_version=1&runner_key=b",
        "?protocol_version=1&namespace=a",
        "?protocol_version=70000&namespace=a&runner_key=b",
    ] {
        let e = UrlData::parse_url(path).err().unwrap();
        assert_eq!(e.close_reason(), "ws.invalid_url");
    }
}

#[test]
fn i64_parsing() {
    assert_eq!(parse_i64("90"), Some(90));
    assert_eq!(parse_i64("-90"), Some(-90));
    assert_eq!(parse_i64("+5"), Some(5));
    assert_eq!(parse_i64("9223372036854775807"), Some(i64::MAX));
    assert_eq!(parse_i64("-9223372036854775808"), Some(i64::MIN));
    assert_eq!(parse_i64("9223372036854775808"), None);
    assert_eq!(parse_i64("-9223372036854775809"), None);
    assert_eq!(parse_i64("-"), None);
    assert_eq!(parse_i64(""), None);
    assert_eq!(parse_i64("1.5"), None);
    for s in ["0", "-0", "123456789012", "-12", "+", "99999999999999999999", "--1"] {
        assert_eq!(parse_i64(s), s.parse::<i64>().ok());
    }
}

#[test]
fn trim_matches_std() {
    for s in ["", "   ", " a ", "\t\na b\r\n", "\u{3000}x\u{2028}", "\u{85}y\u{a0}", "z\u{200b}", "\u{1680}\u{205f}"] {
        assert_eq!(trim(s), s.trim());
    }
}
