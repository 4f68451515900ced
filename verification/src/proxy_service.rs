//! How a request is answered: by the proxy itself, or by the service behind it.

use crate::address::{socket_authority, IpAddr};
use crate::ecs_service_scaler::RequestGuard;
use crate::headers::{
    append_field, contains_field, field_values, insert_field, parse_field_value,
};
use crate::text::{contains_bytes, same_text, to_ascii_lowercase};
use crate::uri::rewrite_uri;
use vstd::prelude::*;

verus! {

/// How long a browser waits for the service before it is shown the waiting page,
/// in seconds.
pub const WAITING_PAGE_SECS: u64 = 5;

/// The page that a browser is shown while the service starts.
pub const WAITING_RESPONSE: &'static str = "<!DOCTYPE html>
<html lang=\"ja\">
<head>
<meta charset=\"utf-8\">
<meta http-equiv=\"refresh\" content=\"10\">
<title>しばらくお待ちください</title>
</head>
<body>
<p>サービスを起動しています。しばらくお待ちください。</p>
</body>
</html>
";

/// Where requests come from and where they go.
#[derive(Debug)]
pub struct ProxyServiceOptions {
    /// The port of the service.
    pub target_port: u16,
    /// The address of the client.
    pub remote_addr: IpAddr,
}

/// What the proxy reads of a request.
#[derive(Debug)]
pub struct RequestHead {
    pub method: String,
    /// The host that the URI of the request names.
    pub host: Option<String>,
    /// The path of the request with its query.
    pub path_and_query: Option<String>,
    pub headers: http::header::HeaderMap<http::header::HeaderValue>,
}

/// The request that is sent to the service.
#[derive(Debug)]
pub struct OutboundRequest {
    pub method: String,
    /// The whole URI.
    pub uri: String,
    /// The part of the URI that names the address and the port of the service.
    pub authority: String,
    /// The part of the URI that names the path with its query.
    pub path_and_query: String,
    pub headers: http::header::HeaderMap<http::header::HeaderValue>,
}

/// An answer that the proxy gives itself.
#[derive(Debug, Clone, Copy, PartialEq, Eq, Structural)]
pub enum LocalResponse {
    MethodNotAllowed,
    /// The page that asks a browser to wait.
    Waiting,
    BadGateway,
    GatewayTimeout,
}

/// Why a request is not answered.
#[derive(Debug, Clone, Copy, PartialEq, Eq, Structural)]
pub enum ProxyError {
    /// The worker is dead.
    WorkerDead,
    /// The host of the URI cannot be the value of a header.
    InvalidHost,
    /// The address of the client cannot be the value of a header.
    InvalidRemoteAddress,
    /// The request has more headers than can be held.
    TooManyHeaders,
    /// There is no URI that leads to the service.
    InvalidUri,
    /// The connection to the service could not be upgraded.
    UpgradeFailed,
}

/// One of the errors that led to the failure of a request.
#[derive(Debug, Clone, Copy, PartialEq, Eq, Structural)]
pub enum ErrorCause {
    /// A time limit was exceeded.
    Elapsed,
    /// An input or output failed; `timed_out` says whether because it took too long.
    Io { timed_out: bool },
    Other,
}

/// The text of an optional string.
pub open spec fn text_of(text: Option<String>) -> Option<Seq<char>> {
    match text {
        Some(text) => Some(text@),
        None => None,
    }
}

impl LocalResponse {
    /// The status code.
    pub open spec fn code(self) -> u16 {
        match self {
            LocalResponse::MethodNotAllowed => 405,
            LocalResponse::Waiting => 503,
            LocalResponse::BadGateway => 502,
            LocalResponse::GatewayTimeout => 504,
        }
    }

    /// The header fields, each a name and a value.
    pub open spec fn fields(self) -> Seq<(Seq<char>, Seq<char>)> {
        match self {
            LocalResponse::Waiting => seq![
                ("retry-after"@, "10"@),
                ("content-type"@, "text/html; charset=utf-8"@),
            ],
            _ => Seq::empty(),
        }
    }

    /// The body.
    pub open spec fn content(self) -> Seq<char> {
        match self {
            LocalResponse::Waiting => WAITING_RESPONSE@,
            _ => ""@,
        }
    }

    /// The status code.
    pub fn status(&self) -> (r: u16)
        ensures
            r == self.code(),
    {
        match self {
            LocalResponse::MethodNotAllowed => 405,
            LocalResponse::Waiting => 503,
            LocalResponse::BadGateway => 502,
            LocalResponse::GatewayTimeout => 504,
        }
    }

    /// The header fields, each a name and a value.
    pub fn headers(&self) -> (r: Vec<(&'static str, &'static str)>)
        ensures
            r@.map_values(|f: (&'static str, &'static str)| (f.0@, f.1@)) == self.fields(),
    {
        let mut r: Vec<(&'static str, &'static str)> = Vec::new();
        match self {
            LocalResponse::Waiting => {
                r.push(("retry-after", "10"));
                r.push(("content-type", "text/html; charset=utf-8"));
            },
            _ => {},
        }
        assert(r@.map_values(|f: (&'static str, &'static str)| (f.0@, f.1@)) =~= self.fields());
        r
    }

    /// The body.
    pub fn body(&self) -> (r: &'static str)
        ensures
            r@ == self.content(),
    {
        match self {
            LocalResponse::Waiting => WAITING_RESPONSE,
            _ => "",
        }
    }
}

// ---------------------------------------------------------------------------
// What is read of a request
// ---------------------------------------------------------------------------

/// The methods that are sent on: all but `CONNECT`, `TRACE` and unknown ones.
pub open spec fn is_supported(method: Seq<char>) -> bool {
    ||| method == "GET"@
    ||| method == "POST"@
    ||| method == "PUT"@
    ||| method == "DELETE"@
    ||| method == "HEAD"@
    ||| method == "OPTIONS"@
    ||| method == "PATCH"@
}

/// Whether requests with the method are sent on.
pub fn is_supported_method(method: &str) -> (r: bool)
    ensures
        r == is_supported(method@),
{
    same_text(method, "GET") || same_text(method, "POST") || same_text(method, "PUT") || same_text(
        method,
        "DELETE",
    ) || same_text(method, "HEAD") || same_text(method, "OPTIONS") || same_text(method, "PATCH")
}

/// The bytes of `text/html`.
pub open spec fn html_type() -> Seq<u8> {
    seq![0x74u8, 0x65u8, 0x78u8, 0x74u8, 0x2fu8, 0x68u8, 0x74u8, 0x6du8, 0x6cu8]
}

/// One of the values names `text/html`, in capital or small letters.
pub open spec fn names_html(values: Seq<Seq<u8>>) -> bool {
    exists|i: int|
        0 <= i < values.len() && crate::text::occurs_in(
            crate::text::lower_all(#[trigger] values[i]),
            html_type(),
        )
}

/// The fields of a request ask for the connection to be upgraded.
pub open spec fn asks_upgrade(fields: Map<Seq<char>, Seq<Seq<u8>>>) -> bool {
    fields.contains_key("upgrade"@)
}

/// A `GET` request for HTML, as browsers send it, that asks for no upgrade.
pub open spec fn is_get_html(method: Seq<char>, fields: Map<Seq<char>, Seq<Seq<u8>>>) -> bool {
    &&& method == "GET"@
    &&& !asks_upgrade(fields)
    &&& names_html(crate::headers::values_of(fields, "accept"@))
}

/// The names of the fields that the proxy looks at are field names.
proof fn lemma_field_names()
    ensures
        crate::headers::is_field_name("host"@),
        crate::headers::is_field_name("accept"@),
        crate::headers::is_field_name("upgrade"@),
        crate::headers::is_field_name("x-forwarded-for"@),
        "host"@ != "upgrade"@,
        "host"@ != "x-forwarded-for"@,
        "upgrade"@ != "x-forwarded-for"@,
{
    reveal_strlit("host");
    reveal_strlit("accept");
    reveal_strlit("upgrade");
    reveal_strlit("x-forwarded-for");
    assert("host"@.len() == 4);
    assert("upgrade"@.len() == 7);
    assert("x-forwarded-for"@.len() == 15);
}

/// Whether one of the values names `text/html`.
fn any_names_html(values: &Vec<Vec<u8>>) -> (r: bool)
    ensures
        r == names_html(values@.map_values(|v: Vec<u8>| v@)),
{
    let ghost all = values@.map_values(|v: Vec<u8>| v@);
    let html: [u8; 9] = [0x74, 0x65, 0x78, 0x74, 0x2f, 0x68, 0x74, 0x6d, 0x6c];
    assert(html@ =~= html_type());
    let n: usize = values.len();
    for i in 0..n
        invariant
            n == values@.len(),
            all == values@.map_values(|v: Vec<u8>| v@),
            html@ == html_type(),
            forall|j: int|
                0 <= j < i ==> !crate::text::occurs_in(
                    crate::text::lower_all(#[trigger] all[j]),
                    html_type(),
                ),
    {
        let value = &values[i];
        let small: Vec<u8> = to_ascii_lowercase(value.as_slice());
        assert(all[i as int] == value@);
        if contains_bytes(small.as_slice(), html.as_slice()) {
            return true;
        }
    }
    false
}

/// Whether the request is a `GET` request for HTML that asks for no upgrade.
pub fn is_get_html_request(head: &RequestHead) -> (r: bool)
    ensures
        r == is_get_html(head.method@, crate::headers::header_fields(head.headers)),
{
    proof {
        lemma_field_names();
    }
    same_text(head.method.as_str(), "GET") && !contains_field(&head.headers, "upgrade")
        && any_names_html(&field_values(&head.headers, "accept"))
}

// ---------------------------------------------------------------------------
// What is sent to the service
// ---------------------------------------------------------------------------

/// The UTF-8 encoding of a text.
pub open spec fn bytes_of(text: Seq<char>) -> Seq<u8> {
    vstd::utf8::encode_utf8(text)
}

/// The request has no `Host` field, but its URI names a host.
pub open spec fn lacks_host(
    fields: Map<Seq<char>, Seq<Seq<u8>>>,
    host: Option<Seq<char>>,
) -> bool {
    !fields.contains_key("host"@) && host is Some
}

/// The fields with a `Host`, taken from the URI where there was none.
pub open spec fn with_host(
    fields: Map<Seq<char>, Seq<Seq<u8>>>,
    host: Option<Seq<char>>,
) -> Map<Seq<char>, Seq<Seq<u8>>> {
    if lacks_host(fields, host) {
        fields.insert("host"@, seq![bytes_of(host->0)])
    } else {
        fields
    }
}

/// The fields that are sent to the service: those of the request with a `Host`, and
/// the address of the client behind the values of `X-Forwarded-For`.
pub open spec fn forwarded(
    fields: Map<Seq<char>, Seq<Seq<u8>>>,
    host: Option<Seq<char>>,
    remote: Seq<char>,
) -> Map<Seq<char>, Seq<Seq<u8>>> {
    with_host(fields, host).insert(
        "x-forwarded-for"@,
        crate::headers::values_of(fields, "x-forwarded-for"@).push(bytes_of(remote)),
    )
}

/// The error that keeps the fields from being sent on, if what goes into them is
/// at fault.
pub open spec fn header_error(
    fields: Map<Seq<char>, Seq<Seq<u8>>>,
    host: Option<Seq<char>>,
    remote: Seq<char>,
) -> Option<ProxyError> {
    if lacks_host(fields, host) && !crate::headers::is_field_value(bytes_of(host->0)) {
        Some(ProxyError::InvalidHost)
    } else if !crate::headers::is_field_value(bytes_of(remote)) {
        Some(ProxyError::InvalidRemoteAddress)
    } else {
        None
    }
}

/// Prepares the header fields for the service: adds the `Host` where it is missing,
/// and the address of the client to `X-Forwarded-For`.
///
/// Where nothing is wrong with what is added, it fails only where the request has
/// so many fields that the map may have no room.
pub fn forward_headers(
    headers: &mut http::header::HeaderMap<http::header::HeaderValue>,
    host: &Option<String>,
    remote_addr: &IpAddr,
) -> (r: Result<(), ProxyError>)
    ensures
        ({
            let before = crate::headers::header_fields(*old(headers));
            let after = crate::headers::header_fields(*final(headers));
            let error = header_error(before, text_of(*host), remote_addr.text());
            match r {
                Ok(_) => error is None && after == forwarded(
                    before,
                    text_of(*host),
                    remote_addr.text(),
                ),
                Err(ProxyError::TooManyHeaders) => error != Some(ProxyError::InvalidHost)
                    && before.dom().len() >= crate::headers::ROOMY_NAMES,
                Err(e) => error == Some(e),
            }
        }),
{
    proof {
        lemma_field_names();
    }
    let ghost before = crate::headers::header_fields(*headers);
    if !contains_field(headers, "host") {
        match host {
            Some(host) => match parse_field_value(host.as_str()) {
                Ok(value) => match insert_field(headers, "host", &value) {
                    Ok(_) => {
                        proof {
                            let after = crate::headers::header_fields(*headers);
                            assert(before.dom().subset_of(after.dom()));
                            vstd::set_lib::lemma_len_subset(before.dom(), after.dom());
                            assert(after.dom() =~= before.dom().insert("host"@));
                        }
                    },
                    Err(_) => return Err(ProxyError::TooManyHeaders),
                },
                Err(_) => return Err(ProxyError::InvalidHost),
            },
            None => {},
        }
    }
    match parse_field_value(remote_addr.as_text()) {
        Ok(value) => match append_field(headers, "x-forwarded-for", &value) {
            Ok(_) => Ok(()),
            Err(_) => Err(ProxyError::TooManyHeaders),
        },
        Err(_) => Err(ProxyError::InvalidRemoteAddress),
    }
}

// ---------------------------------------------------------------------------
// What a failed request is answered
// ---------------------------------------------------------------------------

/// The cause is that something took too long.
pub open spec fn is_timeout(cause: ErrorCause) -> bool {
    cause is Elapsed || cause == (ErrorCause::Io { timed_out: true })
}

/// One of the causes is that something took too long.
pub open spec fn any_timeout(causes: Seq<ErrorCause>) -> bool {
    exists|i: int| 0 <= i < causes.len() && is_timeout(#[trigger] causes[i])
}

/// Whether a request failed because something took too long.
pub fn is_timeout_error(causes: &Vec<ErrorCause>) -> (r: bool)
    ensures
        r == any_timeout(causes@),
{
    let n: usize = causes.len();
    for i in 0..n
        invariant
            n == causes@.len(),
            forall|j: int| 0 <= j < i ==> !is_timeout(#[trigger] causes@[j]),
    {
        match causes[i] {
            ErrorCause::Elapsed => {
                assert(is_timeout(causes@[i as int]));
                return true;
            },
            ErrorCause::Io { timed_out } => {
                if timed_out {
                    assert(is_timeout(causes@[i as int]));
                    return true;
                }
            },
            ErrorCause::Other => {},
        }
    }
    false
}

/// What a request that failed with the given causes is answered.
pub open spec fn gateway_error(causes: Seq<ErrorCause>) -> LocalResponse {
    if any_timeout(causes) {
        LocalResponse::GatewayTimeout
    } else {
        LocalResponse::BadGateway
    }
}

/// What a request that failed with the given causes is answered.
pub fn bad_gateway_response(causes: &Vec<ErrorCause>) -> (r: LocalResponse)
    ensures
        r == gateway_error(causes@),
{
    if is_timeout_error(causes) {
        LocalResponse::GatewayTimeout
    } else {
        LocalResponse::BadGateway
    }
}

// ---------------------------------------------------------------------------
// The course of a request
// ---------------------------------------------------------------------------

/// What a request is waiting for.
#[derive(Debug)]
pub enum Exchange {
    /// The guard of the service; `impatient` says whether for a limited time.
    AwaitGuard { head: RequestHead, options: ProxyServiceOptions, impatient: bool },
    /// The response of the service.
    AwaitResponse,
    /// The response of the service to a request for an upgrade.
    AwaitUpgradeResponse,
    /// The upgraded connection to the service.
    AwaitUpgrade,
    /// Nothing: the request is answered, or failed.
    Finished,
}

/// Something that a request was waiting for.
#[derive(Debug)]
pub enum ProxyEvent {
    Guard(RequestGuard),
    /// The worker that hands out guards is dead.
    WorkerDead,
    /// There was no guard in time.
    GuardTimeout,
    /// The service answered with the status code.
    Response { status: u16 },
    /// The service could not be asked, for the given causes.
    RequestFailed(Vec<ErrorCause>),
    /// The connection to the service is upgraded.
    Upgraded,
    UpgradeFailed,
}

/// What is done next with a request.
#[derive(Debug)]
pub enum ProxyAction {
    /// Wait for a guard, with a time limit in seconds where one is given.
    AcquireGuard { timeout_secs: Option<u64> },
    /// Send the request to the service, with its body.
    Forward(OutboundRequest),
    /// Send the request to the service as HTTP/1.1 and without a body.
    ForwardUpgrade(OutboundRequest),
    /// Answer the request. `guarded` says whether there is a guard, which is then
    /// kept until the answer has been sent.
    Respond { response: LocalResponse, guarded: bool },
    /// Answer with the response of the service. The guard is kept until the answer
    /// has been sent.
    Relay,
    /// Wait for the upgraded connection to the service.
    Upgrade,
    /// Answer with the response of the service, and connect the two upgraded
    /// connections. The guard is kept until they are closed.
    Tunnel,
    /// Give up.
    Fail(ProxyError),
}

/// The time limit for a guard, in seconds.
pub open spec fn guard_limit(impatient: bool) -> Option<u64> {
    if impatient {
        Some(WAITING_PAGE_SECS)
    } else {
        None
    }
}

/// How the request is taken up: refused where its method is not supported, and
/// made to wait for a guard otherwise, for a limited time where a browser waits.
pub open spec fn taken_up(head: RequestHead, options: ProxyServiceOptions) -> (
    Exchange,
    ProxyAction,
) {
    let impatient = is_get_html(head.method@, crate::headers::header_fields(head.headers));
    if is_supported(head.method@) {
        (
            Exchange::AwaitGuard { head, options, impatient },
            ProxyAction::AcquireGuard { timeout_secs: guard_limit(impatient) },
        )
    } else {
        (
            Exchange::Finished,
            ProxyAction::Respond { response: LocalResponse::MethodNotAllowed, guarded: false },
        )
    }
}

/// `outbound` is the request of `head` as it is sent to the address of the guard:
/// its URI names the address, the port, and the path of the request as it was.
pub open spec fn is_outbound(
    head: RequestHead,
    options: ProxyServiceOptions,
    addr: IpAddr,
    outbound: OutboundRequest,
) -> bool {
    &&& outbound.method@ == head.method@
    &&& crate::uri::target_uri(addr, options.target_port, text_of(head.path_and_query)) == Some(
        outbound.uri@,
    )
    &&& outbound.authority@ == crate::address::authority(addr, options.target_port)
    &&& text_of(head.path_and_query) == Some(outbound.path_and_query@)
    &&& crate::uri::is_path_and_query(outbound.path_and_query@) ==> outbound.uri@
        == crate::uri::plain_uri(
        outbound.authority@,
        crate::uri::shown_target(outbound.path_and_query@),
    )
    &&& crate::headers::header_fields(outbound.headers) == forwarded(
        crate::headers::header_fields(head.headers),
        text_of(head.host),
        options.remote_addr.text(),
    )
}

/// `after` is how a request goes on that got a guard for `addr`: it is sent to the
/// service, as an upgrade where it asks for one, or fails. With a printed address
/// and a path with its query it never fails for want of a URI.
pub open spec fn sent_on(
    head: RequestHead,
    options: ProxyServiceOptions,
    addr: IpAddr,
    after: (Exchange, ProxyAction),
) -> bool {
    let fields = crate::headers::header_fields(head.headers);
    let error = header_error(fields, text_of(head.host), options.remote_addr.text());
    let uri = crate::uri::target_uri(addr, options.target_port, text_of(head.path_and_query));
    match after.1 {
        ProxyAction::Forward(outbound) => {
            &&& error is None
            &&& !asks_upgrade(fields)
            &&& after.0 is AwaitResponse
            &&& is_outbound(head, options, addr, outbound)
        },
        ProxyAction::ForwardUpgrade(outbound) => {
            &&& error is None
            &&& asks_upgrade(fields)
            &&& after.0 is AwaitUpgradeResponse
            &&& is_outbound(head, options, addr, outbound)
        },
        ProxyAction::Fail(ProxyError::TooManyHeaders) => {
            &&& error != Some(ProxyError::InvalidHost)
            &&& fields.dom().len() >= crate::headers::ROOMY_NAMES
            &&& after.0 is Finished
        },
        ProxyAction::Fail(ProxyError::InvalidUri) => {
            &&& error is None
            &&& uri is None
            &&& !(crate::uri::is_printed(addr) && head.path_and_query is Some
                && crate::uri::is_path_and_query(head.path_and_query->0@))
            &&& after.0 is Finished
        },
        ProxyAction::Fail(e) => error == Some(e) && after.0 is Finished,
        _ => false,
    }
}

impl Exchange {
    /// The event answers what the request is waiting for.
    pub open spec fn accepts(self, event: ProxyEvent) -> bool {
        match event {
            ProxyEvent::Guard(_) | ProxyEvent::WorkerDead => self is AwaitGuard,
            ProxyEvent::GuardTimeout => self matches Exchange::AwaitGuard { impatient: true, .. },
            ProxyEvent::Response { .. } | ProxyEvent::RequestFailed(_) => self is AwaitResponse
                || self is AwaitUpgradeResponse,
            ProxyEvent::Upgraded | ProxyEvent::UpgradeFailed => self is AwaitUpgrade,
        }
    }

    /// `after` is how the request goes on after `event`.
    pub open spec fn goes_on(self, event: ProxyEvent, after: (Exchange, ProxyAction)) -> bool {
        match event {
            ProxyEvent::Guard(guard) => sent_on(
                self->head,
                self->options,
                guard.addr,
                after,
            ),
            ProxyEvent::WorkerDead => after == (
                Exchange::Finished,
                ProxyAction::Fail(ProxyError::WorkerDead),
            ),
            ProxyEvent::GuardTimeout => after == (
                Exchange::Finished,
                ProxyAction::Respond { response: LocalResponse::Waiting, guarded: false },
            ),
            ProxyEvent::Response { status } => if self is AwaitUpgradeResponse && status == 101 {
                after == (Exchange::AwaitUpgrade, ProxyAction::Upgrade)
            } else {
                after == (Exchange::Finished, ProxyAction::Relay)
            },
            ProxyEvent::RequestFailed(causes) => after == (
                Exchange::Finished,
                ProxyAction::Respond { response: gateway_error(causes@), guarded: true },
            ),
            ProxyEvent::Upgraded => after == (Exchange::Finished, ProxyAction::Tunnel),
            ProxyEvent::UpgradeFailed => after == (
                Exchange::Finished,
                ProxyAction::Fail(ProxyError::UpgradeFailed),
            ),
        }
    }

    /// Whether `step` takes the event.
    pub fn accepts_event(&self, event: &ProxyEvent) -> (r: bool)
        ensures
            r == self.accepts(*event),
    {
        match event {
            ProxyEvent::Guard(_) | ProxyEvent::WorkerDead => matches!(
                self,
                Exchange::AwaitGuard { .. }
            ),
            ProxyEvent::GuardTimeout => matches!(
                self,
                Exchange::AwaitGuard { impatient: true, .. }
            ),
            ProxyEvent::Response { .. } | ProxyEvent::RequestFailed(_) => matches!(
                self,
                Exchange::AwaitResponse | Exchange::AwaitUpgradeResponse
            ),
            ProxyEvent::Upgraded | ProxyEvent::UpgradeFailed => matches!(
                self,
                Exchange::AwaitUpgrade
            ),
        }
    }

    /// Takes the event, and says what to do next.
    pub fn step(self, event: ProxyEvent) -> (r: (Exchange, ProxyAction))
        requires
            self.accepts(event),
        ensures
            self.goes_on(event, r),
    {
        match event {
            ProxyEvent::Guard(guard) => match self {
                Exchange::AwaitGuard { head, options, .. } => send_on(head, options, &guard),
                _ => (Exchange::Finished, ProxyAction::Fail(ProxyError::WorkerDead)),
            },
            ProxyEvent::WorkerDead => (
                Exchange::Finished,
                ProxyAction::Fail(ProxyError::WorkerDead),
            ),
            ProxyEvent::GuardTimeout => (
                Exchange::Finished,
                ProxyAction::Respond { response: LocalResponse::Waiting, guarded: false },
            ),
            ProxyEvent::Response { status } => match self {
                Exchange::AwaitUpgradeResponse => {
                    if status == 101 {
                        (Exchange::AwaitUpgrade, ProxyAction::Upgrade)
                    } else {
                        (Exchange::Finished, ProxyAction::Relay)
                    }
                },
                _ => (Exchange::Finished, ProxyAction::Relay),
            },
            ProxyEvent::RequestFailed(causes) => (
                Exchange::Finished,
                ProxyAction::Respond { response: bad_gateway_response(&causes), guarded: true },
            ),
            ProxyEvent::Upgraded => (Exchange::Finished, ProxyAction::Tunnel),
            ProxyEvent::UpgradeFailed => (
                Exchange::Finished,
                ProxyAction::Fail(ProxyError::UpgradeFailed),
            ),
        }
    }
}

/// Takes up a request. How it goes on, the steps of the exchange say.
pub fn proxy_service_fn(head: RequestHead, options: ProxyServiceOptions) -> (r: (
    Exchange,
    ProxyAction,
))
    ensures
        r == taken_up(head, options),
{
    if !is_supported_method(head.method.as_str()) {
        return (
            Exchange::Finished,
            ProxyAction::Respond { response: LocalResponse::MethodNotAllowed, guarded: false },
        );
    }
    let impatient: bool = is_get_html_request(&head);
    let timeout_secs: Option<u64> = if impatient {
        Some(WAITING_PAGE_SECS)
    } else {
        None
    };
    (
        Exchange::AwaitGuard { head, options, impatient },
        ProxyAction::AcquireGuard { timeout_secs },
    )
}

/// Sends a request to the service whose guard it got.
fn send_on(head: RequestHead, options: ProxyServiceOptions, guard: &RequestGuard) -> (r: (
    Exchange,
    ProxyAction,
))
    ensures
        sent_on(head, options, guard.addr, r),
{
    let RequestHead { method, host, path_and_query, mut headers } = head;
    match forward_headers(&mut headers, &host, &options.remote_addr) {
        Ok(_) => {},
        Err(error) => return (Exchange::Finished, ProxyAction::Fail(error)),
    }
    let addr: IpAddr = guard.target_addr();
    let uri: String = match rewrite_uri(&addr, options.target_port, path_and_query.as_ref()) {
        Some(uri) => uri,
        None => return (Exchange::Finished, ProxyAction::Fail(ProxyError::InvalidUri)),
    };
    let path_and_query: String = match path_and_query {
        Some(path_and_query) => path_and_query,
        None => return (Exchange::Finished, ProxyAction::Fail(ProxyError::InvalidUri)),
    };
    let authority: String = socket_authority(&addr, options.target_port);
    proof {
        lemma_field_names();
    }
    let upgrade: bool = contains_field(&headers, "upgrade");
    let outbound = OutboundRequest { method, uri, authority, path_and_query, headers };
    if upgrade {
        (Exchange::AwaitUpgradeResponse, ProxyAction::ForwardUpgrade(outbound))
    } else {
        (Exchange::AwaitResponse, ProxyAction::Forward(outbound))
    }
}

} // verus!
