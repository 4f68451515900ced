use http::header::{HeaderMap, HeaderName, HeaderValue};
use manini::ecs_service_scaler::RequestGuard;
use manini::proxy_service::{
    bad_gateway_response, forward_headers, is_get_html_request, is_supported_method,
    is_timeout_error, proxy_service_fn, ErrorCause, Exchange, LocalResponse, OutboundRequest,
    ProxyAction, ProxyError, ProxyEvent, ProxyServiceOptions, RequestHead,
};
use manini::IpAddr;

fn head(method: &str, headers: &[(&'static str, &str)]) -> RequestHead {
    let mut map = HeaderMap::new();
    for (name, value) in headers {
        map.append(*name, HeaderValue::from_str(value).unwrap());
    }
    RequestHead {
        method: method.to_string(),
        host: None,
        path_and_query: Some("/index?x=1".to_string()),
        headers: map,
    }
}

fn client() -> IpAddr {
    IpAddr::V4("192.0.2.1".to_string())
}

fn options() -> ProxyServiceOptions {
    ProxyServiceOptions { target_port: 3000, remote_addr: client() }
}

fn guard() -> ProxyEvent {
    ProxyEvent::Guard(RequestGuard { addr: IpAddr::V4("10.0.0.7".to_string()) })
}

fn values(headers: &HeaderMap, name: &'static str) -> Vec<String> {
    headers.get_all(name).iter().map(|v| v.to_str().unwrap().to_string()).collect()
}

fn take_up(head: RequestHead) -> Exchange {
    let (exchange, action) = proxy_service_fn(head, options());
    assert!(matches!(action, ProxyAction::AcquireGuard { .. }));
    exchange
}

fn send(head: RequestHead) -> (Exchange, OutboundRequest) {
    let exchange = take_up(head);
    assert!(exchange.accepts_event(&guard()));
    match exchange.step(guard()) {
        (exchange, ProxyAction::Forward(outbound)) => (exchange, outbound),
        other => panic!("not forwarded: {:?}", other),
    }
}

fn send_upgrade(head: RequestHead) -> (Exchange, OutboundRequest) {
    match take_up(head).step(guard()) {
        (exchange, ProxyAction::ForwardUpgrade(outbound)) => (exchange, outbound),
        other => panic!("not forwarded: {:?}", other),
    }
}

#[test]
fn methods_that_are_sent_on() {
    for method in ["GET", "POST", "PUT", "DELETE", "HEAD", "OPTIONS", "PATCH"] {
        assert!(is_supported_method(method));
    }
    for method in ["CONNECT", "TRACE", "get", "PROPFIND", ""] {
        assert!(!is_supported_method(method));
    }
}

#[test]
fn unsupported_method_is_refused_at_once() {
    for method in ["CONNECT", "TRACE", "BREW"] {
        match proxy_service_fn(head(method, &[]), options()) {
            (Exchange::Finished, ProxyAction::Respond { response, guarded: false }) => {
                assert_eq!(response, LocalResponse::MethodNotAllowed);
                assert_eq!(response.status(), 405);
                assert_eq!(response.body(), "");
                assert!(response.headers().is_empty());
            }
            other => panic!("not refused: {:?}", other),
        }
    }
}

#[test]
fn html_requests_are_those_of_browsers() {
    let html = "application/xhtml+xml,Text/HTML;q=0.9,*/*;q=0.8";
    assert!(is_get_html_request(&head("GET", &[("accept", "text/html")])));
    assert!(is_get_html_request(&head("GET", &[("accept", html)])));
    assert!(is_get_html_request(&head("GET", &[("accept", "*/*"), ("accept", html)])));
    assert!(!is_get_html_request(&head("POST", &[("accept", html)])));
    assert!(!is_get_html_request(&head("HEAD", &[("accept", html)])));
    assert!(!is_get_html_request(&head("GET", &[("accept", "*/*")])));
    assert!(!is_get_html_request(&head("GET", &[])));
    assert!(!is_get_html_request(&head("GET", &[("accept", html), ("upgrade", "websocket")])));
    assert!(!is_get_html_request(&head("GET", &[("accept-language", "text/html")])));
}

#[test]
fn browser_is_told_to_wait() {
    let (exchange, action) = proxy_service_fn(head("GET", &[("accept", "text/html")]), options());
    assert!(matches!(action, ProxyAction::AcquireGuard { timeout_secs: Some(5) }));
    assert!(exchange.accepts_event(&ProxyEvent::GuardTimeout));
    match exchange.step(ProxyEvent::GuardTimeout) {
        (Exchange::Finished, ProxyAction::Respond { response, guarded: false }) => {
            assert_eq!(response.status(), 503);
            assert_eq!(
                response.headers(),
                vec![("retry-after", "10"), ("content-type", "text/html; charset=utf-8")]
            );
            assert!(response.body().contains("しばらくお待ちください"));
        }
        other => panic!("no waiting page: {:?}", other),
    }
}

#[test]
fn other_requests_wait_as_long_as_it_takes() {
    let (exchange, action) = proxy_service_fn(head("POST", &[("accept", "text/html")]), options());
    assert!(matches!(action, ProxyAction::AcquireGuard { timeout_secs: None }));
    assert!(!exchange.accepts_event(&ProxyEvent::GuardTimeout));
    assert!(!exchange.accepts_event(&ProxyEvent::Upgraded));
    assert!(matches!(
        exchange.step(ProxyEvent::WorkerDead),
        (Exchange::Finished, ProxyAction::Fail(ProxyError::WorkerDead))
    ));
}

#[test]
fn request_is_sent_to_the_service() {
    let (exchange, outbound) = send(head(
        "PUT",
        &[("host", "example.com"), ("x-custom", "a"), ("x-custom", "b")],
    ));
    assert!(matches!(exchange, Exchange::AwaitResponse));
    assert_eq!(outbound.method, "PUT");
    assert_eq!(outbound.uri, "http://10.0.0.7:3000/index?x=1");
    assert_eq!(outbound.authority, "10.0.0.7:3000");
    assert_eq!(outbound.path_and_query, "/index?x=1");
    assert_eq!(values(&outbound.headers, "host"), vec!["example.com"]);
    assert_eq!(values(&outbound.headers, "x-custom"), vec!["a", "b"]);
    assert_eq!(values(&outbound.headers, "x-forwarded-for"), vec!["192.0.2.1"]);
    assert_eq!(outbound.headers.len(), 4);
}

#[test]
fn host_is_taken_from_the_uri_where_it_is_missing() {
    let request = RequestHead { host: Some("example.org".to_string()), ..head("GET", &[]) };
    let (_, outbound) = send(request);
    assert_eq!(values(&outbound.headers, "host"), vec!["example.org"]);
    let request = RequestHead {
        host: Some("example.org".to_string()),
        ..head("GET", &[("host", "example.com")])
    };
    let (_, outbound) = send(request);
    assert_eq!(values(&outbound.headers, "host"), vec!["example.com"]);
    let (_, outbound) = send(head("GET", &[]));
    assert!(!outbound.headers.contains_key("host"));
}

#[test]
fn client_is_added_behind_other_proxies() {
    let (_, outbound) = send(head(
        "GET",
        &[("x-forwarded-for", "203.0.113.1"), ("x-forwarded-for", "203.0.113.2")],
    ));
    assert_eq!(
        values(&outbound.headers, "x-forwarded-for"),
        vec!["203.0.113.1", "203.0.113.2", "192.0.2.1"]
    );
}

#[test]
fn host_that_cannot_be_a_header_fails() {
    let request = RequestHead { host: Some("exa\nmple".to_string()), ..head("GET", &[]) };
    assert!(matches!(
        take_up(request).step(guard()),
        (Exchange::Finished, ProxyAction::Fail(ProxyError::InvalidHost))
    ));
    let mut headers = HeaderMap::new();
    let deleted = Some("a\u{7f}".to_string());
    assert_eq!(forward_headers(&mut headers, &deleted, &client()), Err(ProxyError::InvalidHost));
    let beyond_ascii = Some("h\u{f6}st\t".to_string());
    assert_eq!(forward_headers(&mut headers, &beyond_ascii, &client()), Ok(()));
    assert_eq!(headers.get("host").unwrap().as_bytes(), "h\u{f6}st\t".as_bytes());
}

#[test]
fn client_address_that_cannot_be_a_header_fails() {
    let mut headers = HeaderMap::new();
    let bad = IpAddr::V6("fe80::1%\n".to_string());
    assert_eq!(
        forward_headers(&mut headers, &None, &bad),
        Err(ProxyError::InvalidRemoteAddress)
    );
}

#[test]
fn request_without_path_fails() {
    let request = RequestHead { path_and_query: None, ..head("GET", &[]) };
    assert!(matches!(
        take_up(request).step(guard()),
        (Exchange::Finished, ProxyAction::Fail(ProxyError::InvalidUri))
    ));
}

fn many_headers(n: usize) -> HeaderMap {
    let mut headers = HeaderMap::new();
    for i in 0..n {
        let name = HeaderName::from_bytes(format!("x-{}", i).as_bytes()).unwrap();
        headers.insert(name, HeaderValue::from_static("1"));
    }
    headers
}

#[test]
fn headers_are_taken_up_to_the_limit_of_the_map() {
    let mut headers = many_headers(6552);
    let host = Some("example.org".to_string());
    assert_eq!(forward_headers(&mut headers, &host, &client()), Ok(()));
    assert_eq!(headers.keys_len(), 6554);
    let mut headers = many_headers(24576);
    assert_eq!(
        forward_headers(&mut headers, &None, &client()),
        Err(ProxyError::TooManyHeaders)
    );
    assert_eq!(
        forward_headers(&mut headers, &host, &client()),
        Err(ProxyError::TooManyHeaders)
    );
    assert_eq!(headers.keys_len(), 24576);
}

#[test]
fn response_of_the_service_is_passed_on() {
    for status in [200, 304, 404, 500, 101] {
        let (exchange, _) = send(head("GET", &[]));
        assert!(exchange.accepts_event(&ProxyEvent::Response { status }));
        assert!(matches!(
            exchange.step(ProxyEvent::Response { status }),
            (Exchange::Finished, ProxyAction::Relay)
        ));
    }
}

#[test]
fn failed_request_is_answered() {
    let timeouts = [
        vec![ErrorCause::Elapsed],
        vec![ErrorCause::Other, ErrorCause::Io { timed_out: true }],
        vec![ErrorCause::Io { timed_out: false }, ErrorCause::Other, ErrorCause::Elapsed],
    ];
    for causes in timeouts {
        assert!(is_timeout_error(&causes));
        assert_eq!(bad_gateway_response(&causes).status(), 504);
        let (exchange, _) = send(head("GET", &[]));
        match exchange.step(ProxyEvent::RequestFailed(causes)) {
            (Exchange::Finished, ProxyAction::Respond { response, guarded: true }) => {
                assert_eq!(response, LocalResponse::GatewayTimeout);
            }
            other => panic!("not answered: {:?}", other),
        }
    }
    for causes in [vec![], vec![ErrorCause::Other, ErrorCause::Io { timed_out: false }]] {
        assert!(!is_timeout_error(&causes));
        let response = bad_gateway_response(&causes);
        assert_eq!(response, LocalResponse::BadGateway);
        assert_eq!(response.status(), 502);
        assert_eq!(response.body(), "");
        assert!(response.headers().is_empty());
    }
}

#[test]
fn upgrade_opens_a_tunnel() {
    let (exchange, outbound) = send_upgrade(head(
        "GET",
        &[("upgrade", "websocket"), ("connection", "Upgrade"), ("accept", "text/html")],
    ));
    assert!(matches!(exchange, Exchange::AwaitUpgradeResponse));
    assert_eq!(values(&outbound.headers, "upgrade"), vec!["websocket"]);
    assert_eq!(values(&outbound.headers, "connection"), vec!["Upgrade"]);
    assert_eq!(outbound.uri, "http://10.0.0.7:3000/index?x=1");
    let (exchange, action) = exchange.step(ProxyEvent::Response { status: 101 });
    assert!(matches!(action, ProxyAction::Upgrade));
    assert!(exchange.accepts_event(&ProxyEvent::Upgraded));
    assert!(matches!(
        exchange.step(ProxyEvent::Upgraded),
        (Exchange::Finished, ProxyAction::Tunnel)
    ));
}

#[test]
fn refused_or_failed_upgrade() {
    let request = || head("GET", &[("upgrade", "websocket")]);
    let (exchange, _) = send_upgrade(request());
    assert!(matches!(
        exchange.step(ProxyEvent::Response { status: 426 }),
        (Exchange::Finished, ProxyAction::Relay)
    ));
    let (exchange, _) = send_upgrade(request());
    assert!(matches!(
        exchange.step(ProxyEvent::RequestFailed(vec![])),
        (
            Exchange::Finished,
            ProxyAction::Respond { response: LocalResponse::BadGateway, guarded: true }
        )
    ));
    let (exchange, _) = send_upgrade(request());
    let (exchange, _) = exchange.step(ProxyEvent::Response { status: 101 });
    assert!(matches!(
        exchange.step(ProxyEvent::UpgradeFailed),
        (Exchange::Finished, ProxyAction::Fail(ProxyError::UpgradeFailed))
    ));
}
