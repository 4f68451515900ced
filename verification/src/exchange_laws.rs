//! What becomes of a request, said of its method and its header fields and of what is
//! sent.

use crate::address::IpAddr;
use crate::ecs_service_scaler::RequestGuard;
use crate::proxy_service::{
    ErrorCause, Exchange, LocalResponse, OutboundRequest, ProxyAction, ProxyError, ProxyEvent,
    ProxyServiceOptions, RequestHead,
};
use vstd::prelude::*;

verus! {

// ---------------------------------------------------------------------------
// How a request is taken up
// ---------------------------------------------------------------------------

/// One of the seven methods that are sent on.
pub open spec fn is_one_of_seven(method: Seq<char>) -> bool {
    seq!["GET"@, "HEAD"@, "POST"@, "PUT"@, "PATCH"@, "DELETE"@, "OPTIONS"@].contains(method)
}

/// The value reads `text/html` from position `at` on, in capital or small letters.
pub open spec fn reads_html(value: Seq<u8>, at: int) -> bool {
    &&& 0 <= at <= value.len() - 9
    &&& forall|k: int|
        0 <= k < 9 ==> (value[at + k] == (#[trigger] "text/html"@[k]) as int || value[at + k] + 32
            == "text/html"@[k] as int && 'A' as int <= value[at + k] <= 'Z' as int)
}

proof fn lemma_seven(method: Seq<char>)
    ensures
        is_one_of_seven(method) <==> crate::proxy_service::is_supported(method),
{
    let seven = seq!["GET"@, "HEAD"@, "POST"@, "PUT"@, "PATCH"@, "DELETE"@, "OPTIONS"@];
    assert(seven[0] == "GET"@ && seven[1] == "HEAD"@ && seven[2] == "POST"@);
    assert(seven[3] == "PUT"@ && seven[4] == "PATCH"@ && seven[5] == "DELETE"@);
    assert(seven[6] == "OPTIONS"@);
    if is_one_of_seven(method) {
        let i = choose|i: int| 0 <= i < seven.len() && seven[i] == method;
        assert(i == 0 || i == 1 || i == 2 || i == 3 || i == 4 || i == 5 || i == 6);
    }
}

proof fn lemma_html_bytes()
    ensures
        crate::proxy_service::html_type().len() == 9,
        "text/html"@.len() == 9,
        forall|k: int|
            0 <= k < 9 ==> (#[trigger] crate::proxy_service::html_type()[k]) as int
                == "text/html"@[k] as int,
{
    reveal_strlit("text/html");
    let bytes = crate::proxy_service::html_type();
    let chars = "text/html"@;
    assert(bytes[0] == chars[0] as int && bytes[1] == chars[1] as int);
    assert(bytes[2] == chars[2] as int && bytes[3] == chars[3] as int);
    assert(bytes[4] == chars[4] as int && bytes[5] == chars[5] as int);
    assert(bytes[6] == chars[6] as int && bytes[7] == chars[7] as int);
    assert(bytes[8] == chars[8] as int);
}

proof fn lemma_reads_html(value: Seq<u8>, at: int)
    ensures
        reads_html(value, at) <==> crate::text::occurs_at(
            crate::text::lower_all(value),
            crate::proxy_service::html_type(),
            at,
        ),
{
    reveal_strlit("text/html");
    lemma_html_bytes();
    let small = crate::text::lower_all(value);
    let html = crate::proxy_service::html_type();
    crate::text_laws::law_occurrence_by_bytes(small, html, at);
    if 0 <= at <= value.len() - 9 {
        assert forall|k: int| 0 <= k < 9 implies (small[at + k] == #[trigger] html[k]) == (value[at
            + k] == "text/html"@[k] as int || value[at + k] + 32 == "text/html"@[k] as int
            && 'A' as int <= value[at + k] <= 'Z' as int) by {
            crate::text_laws::law_lower_all_by_bytes(value, at + k);
            assert(html[k] as int == "text/html"@[k] as int);
        }
        if reads_html(value, at) {
            assert forall|k: int| 0 <= k < html.len() implies small[at + k]
                == #[trigger] html[k] by {
                assert(value[at + k] == (#[trigger] "text/html"@[k]) as int || value[at + k] + 32
                    == "text/html"@[k] as int);
            }
        }
        if crate::text::occurs_at(small, html, at) {
            assert forall|k: int| 0 <= k < 9 implies (value[at + k]
                == (#[trigger] "text/html"@[k]) as int || value[at + k] + 32
                == "text/html"@[k] as int && 'A' as int <= value[at + k] <= 'Z' as int) by {
                assert(small[at + k] == html[k]);
            }
        }
    }
}

/// A request is refused with status code 405 exactly where its method is none of the
/// seven, and otherwise waits for a guard.
pub proof fn law_seven_methods_are_sent_on(head: RequestHead, options: ProxyServiceOptions)
    ensures
        ({
            let (exchange, action) = crate::proxy_service::taken_up(head, options);
            &&& is_one_of_seven(head.method@) <==> action is AcquireGuard
            &&& is_one_of_seven(head.method@) <==> exchange is AwaitGuard
            &&& exchange is AwaitGuard ==> exchange->head == head && exchange->options == options
            &&& !is_one_of_seven(head.method@) ==> exchange is Finished && action == (
            ProxyAction::Respond { response: LocalResponse::MethodNotAllowed, guarded: false })
        }),
{
    lemma_seven(head.method@);
}

/// A `GET` request without an `upgrade` field, one of whose `accept` values reads
/// `text/html` somewhere, in capital or small letters, is given five seconds,
/// whatever other fields it has.
pub proof fn law_browser_is_given_five_seconds(
    head: RequestHead,
    options: ProxyServiceOptions,
    i: int,
    at: int,
)
    requires
        head.method@ == "GET"@,
        !crate::headers::header_fields(head.headers).contains_key("upgrade"@),
        crate::headers::header_fields(head.headers).contains_key("accept"@),
        0 <= i < crate::headers::header_fields(head.headers)["accept"@].len(),
        reads_html(crate::headers::header_fields(head.headers)["accept"@][i], at),
    ensures
        crate::proxy_service::taken_up(head, options) == (
            Exchange::AwaitGuard { head, options, impatient: true },
            ProxyAction::AcquireGuard { timeout_secs: Some(5) },
        ),
{
    let value = crate::headers::header_fields(head.headers)["accept"@][i];
    lemma_reads_html(value, at);
    assert(crate::text::occurs_in(
        crate::text::lower_all(value),
        crate::proxy_service::html_type(),
    ));
}

/// Every other request waits without a limit: one is only given where the method is
/// `GET`, there is no `upgrade` field, and an `accept` value reads `text/html`.
pub proof fn law_limit_is_only_for_browsers(head: RequestHead, options: ProxyServiceOptions)
    ensures
        ({
            let (exchange, action) = crate::proxy_service::taken_up(head, options);
            let fields = crate::headers::header_fields(head.headers);
            action matches ProxyAction::AcquireGuard { timeout_secs } ==> {
                &&& timeout_secs is Some <==> exchange == (Exchange::AwaitGuard {
                    head,
                    options,
                    impatient: true,
                })
                &&& timeout_secs is None <==> exchange == (Exchange::AwaitGuard {
                    head,
                    options,
                    impatient: false,
                })
                &&& timeout_secs is Some ==> {
                    &&& timeout_secs == Some(5u64)
                    &&& head.method@ == "GET"@
                    &&& !fields.contains_key("upgrade"@)
                    &&& fields.contains_key("accept"@)
                    &&& exists|i: int, at: int|
                        0 <= i < fields["accept"@].len() && #[trigger] reads_html(
                            fields["accept"@][i],
                            at,
                        )
                }
            }
        }),
{
    let fields = crate::headers::header_fields(head.headers);
    let action = crate::proxy_service::taken_up(head, options).1;
    if action matches ProxyAction::AcquireGuard { timeout_secs } && timeout_secs is Some {
        let values = crate::headers::values_of(fields, "accept"@);
        let i = choose|i: int|
            0 <= i < values.len() && crate::text::occurs_in(
                crate::text::lower_all(#[trigger] values[i]),
                crate::proxy_service::html_type(),
            );
        let at = choose|at: int|
            crate::text::occurs_at(
                crate::text::lower_all(values[i]),
                crate::proxy_service::html_type(),
                at,
            );
        lemma_reads_html(values[i], at);
        assert(reads_html(fields["accept"@][i], at));
    }
}

// ---------------------------------------------------------------------------
// What is sent to the service
// ---------------------------------------------------------------------------

/// What is sent to the service, be it as a request or as an upgrade.
pub open spec fn sent_request(action: ProxyAction) -> Option<OutboundRequest> {
    match action {
        ProxyAction::Forward(outbound) => Some(outbound),
        ProxyAction::ForwardUpgrade(outbound) => Some(outbound),
        _ => None,
    }
}

/// A request that is sent on is sent as an upgrade, without its body, exactly where
/// its own fields contain `upgrade`, and with its body otherwise, whatever other
/// fields it has.
pub proof fn law_upgrade_field_decides(
    head: RequestHead,
    options: ProxyServiceOptions,
    impatient: bool,
    guard: RequestGuard,
    after: (Exchange, ProxyAction),
)
    requires
        (Exchange::AwaitGuard { head, options, impatient }).goes_on(
            ProxyEvent::Guard(guard),
            after,
        ),
    ensures
        ({
            let upgrade = crate::headers::header_fields(head.headers).contains_key("upgrade"@);
            &&& after.1 is Forward || after.1 is ForwardUpgrade || after.1 is Fail
            &&& after.1 is Forward ==> !upgrade
            &&& after.1 is ForwardUpgrade ==> upgrade
            &&& after.1 is Forward <==> after.0 is AwaitResponse
            &&& after.1 is ForwardUpgrade <==> after.0 is AwaitUpgradeResponse
            &&& after.1 is Fail <==> after.0 is Finished
        }),
{
}

/// Whatever is sent on, as a request or as an upgrade, has the fields of the request
/// and no others: `x-forwarded-for` with the address of the client behind the values
/// that the request had, `host` as in the request or else from its URI, and every
/// other field as it was.
pub proof fn law_sent_fields(
    head: RequestHead,
    options: ProxyServiceOptions,
    impatient: bool,
    guard: RequestGuard,
    after: (Exchange, ProxyAction),
    name: Seq<char>,
)
    requires
        (Exchange::AwaitGuard { head, options, impatient }).goes_on(
            ProxyEvent::Guard(guard),
            after,
        ),
        sent_request(after.1) is Some,
    ensures
        ({
            let had = crate::headers::header_fields(head.headers);
            let sent = crate::headers::header_fields(sent_request(after.1)->0.headers);
            let client = vstd::utf8::encode_utf8(
                match options.remote_addr {
                    IpAddr::V4(text) => text@,
                    IpAddr::V6(text) => text@,
                },
            );
            &&& sent.contains_key("x-forwarded-for"@)
            &&& had.contains_key("x-forwarded-for"@) ==> sent["x-forwarded-for"@]
                == had["x-forwarded-for"@].push(client)
            &&& !had.contains_key("x-forwarded-for"@) ==> sent["x-forwarded-for"@] == seq![client]
            &&& had.contains_key("host"@) ==> sent.contains_key("host"@) && sent["host"@]
                == had["host"@]
            &&& !had.contains_key("host"@) && head.host is Some ==> sent.contains_key("host"@)
                && sent["host"@] == seq![vstd::utf8::encode_utf8(head.host->0@)]
            &&& !had.contains_key("host"@) && head.host is None ==> !sent.contains_key("host"@)
            &&& name != "host"@ && name != "x-forwarded-for"@ ==> (sent.contains_key(name)
                <==> had.contains_key(name)) && (had.contains_key(name) ==> sent[name]
                == had[name])
        }),
{
    reveal_strlit("host");
    reveal_strlit("x-forwarded-for");
    assert("host"@.len() == 4 && "x-forwarded-for"@.len() == 15);
    let had = crate::headers::header_fields(head.headers);
    let client = vstd::utf8::encode_utf8(options.remote_addr.text());
    assert(Seq::<Seq<u8>>::empty().push(client) =~= seq![client]);
}

/// Whatever is sent on keeps its method and its path with its query, and goes to the
/// address of the guard at the port of the options: the authority of its URI is the
/// address, in brackets where it is an IPv6 address, a colon and the port.
pub proof fn law_sent_to_the_guarded_address(
    head: RequestHead,
    options: ProxyServiceOptions,
    impatient: bool,
    guard: RequestGuard,
    after: (Exchange, ProxyAction),
)
    requires
        (Exchange::AwaitGuard { head, options, impatient }).goes_on(
            ProxyEvent::Guard(guard),
            after,
        ),
        sent_request(after.1) is Some,
    ensures
        ({
            let outbound = sent_request(after.1)->0;
            let host = match guard.addr {
                IpAddr::V4(text) => text@,
                IpAddr::V6(text) => "["@ + text@ + "]"@,
            };
            &&& outbound.method@ == head.method@
            &&& head.path_and_query is Some
            &&& outbound.path_and_query@ == head.path_and_query->0@
            &&& crate::text_laws::is_host_and_port(
                outbound.authority@,
                host,
                options.target_port as int,
            )
            &&& crate::uri::is_path_and_query(outbound.path_and_query@)
                && outbound.path_and_query@[0] != '?' ==> outbound.uri@ == "http://"@
                + outbound.authority@ + outbound.path_and_query@
            &&& crate::uri::is_path_and_query(outbound.path_and_query@)
                && outbound.path_and_query@[0] == '?' ==> outbound.uri@ == "http://"@
                + outbound.authority@ + ("/"@ + outbound.path_and_query@)
        }),
{
    reveal_strlit("/");
    assert("/"@ =~= seq!['/']);
    let outbound = sent_request(after.1)->0;
    match guard.addr {
        IpAddr::V4(text) => crate::text_laws::law_authority_names_address_and_port(
            text,
            options.target_port,
        ),
        IpAddr::V6(text) => crate::text_laws::law_authority_names_address_and_port(
            text,
            options.target_port,
        ),
    }
    crate::text_laws::law_plain_uri_by_parts(
        outbound.authority@,
        crate::uri::shown_target(outbound.path_and_query@),
    );
}

/// Each failure has its own cause, and the causes are looked at in this order: a host
/// of the URI that is needed and cannot be a header, an address of the client that
/// cannot be one, and the want of a URI. Where there are 6553 field names or more,
/// there may also be no room for one more.
pub proof fn law_failures_have_causes(
    head: RequestHead,
    options: ProxyServiceOptions,
    impatient: bool,
    guard: RequestGuard,
    after: (Exchange, ProxyAction),
)
    requires
        (Exchange::AwaitGuard { head, options, impatient }).goes_on(
            ProxyEvent::Guard(guard),
            after,
        ),
    ensures
        ({
            let fields = crate::headers::header_fields(head.headers);
            let bad_host = !fields.contains_key("host"@) && head.host is Some
                && !crate::headers::is_field_value(vstd::utf8::encode_utf8(head.host->0@));
            let client = match options.remote_addr {
                IpAddr::V4(text) => text@,
                IpAddr::V6(text) => text@,
            };
            let bad_client = !crate::headers::is_field_value(vstd::utf8::encode_utf8(client));
            let fail = |e: ProxyError| after.1 == ProxyAction::Fail(e);
            &&& bad_host <==> fail(ProxyError::InvalidHost)
            &&& fail(ProxyError::InvalidRemoteAddress) ==> bad_client
            &&& bad_client ==> after.1 is Fail
            &&& fields.dom().len() < 6553 && !bad_host && bad_client ==> fail(
                ProxyError::InvalidRemoteAddress,
            )
            &&& fields.dom().len() < 6553 && !bad_host && !bad_client && head.path_and_query
                is None ==> fail(ProxyError::InvalidUri)
            &&& fail(ProxyError::TooManyHeaders) ==> fields.dom().len() >= 6553
            &&& fail(ProxyError::InvalidUri) ==> head.path_and_query is None
                || !crate::uri::is_path_and_query(head.path_and_query->0@)
                || !crate::uri::is_printed(guard.addr)
            &&& head.path_and_query is None ==> after.1 is Fail
            &&& !fail(ProxyError::WorkerDead)
            &&& !fail(ProxyError::UpgradeFailed)
        }),
{
}

/// A request whose host and client can be headers, that has fewer than 6553 field
/// names, and that has a path, is sent on to a printed address: it does not fail.
pub proof fn law_ordinary_request_is_sent_on(
    head: RequestHead,
    options: ProxyServiceOptions,
    impatient: bool,
    guard: RequestGuard,
    after: (Exchange, ProxyAction),
)
    requires
        (Exchange::AwaitGuard { head, options, impatient }).goes_on(
            ProxyEvent::Guard(guard),
            after,
        ),
        head.host is Some ==> crate::headers::is_field_value(
            vstd::utf8::encode_utf8(head.host->0@),
        ),
        crate::uri::is_printed(options.remote_addr),
        crate::headers::header_fields(head.headers).dom().len() < 6553,
        crate::uri::is_printed(guard.addr),
        head.path_and_query is Some,
        crate::uri::is_path_and_query(head.path_and_query->0@),
    ensures
        crate::headers::header_fields(head.headers).contains_key("upgrade"@) <==> after.1
            is ForwardUpgrade,
        !crate::headers::header_fields(head.headers).contains_key("upgrade"@) <==> after.1
            is Forward,
{
    crate::proxy_laws::law_printed_address_is_field_value(options.remote_addr);
}

// ---------------------------------------------------------------------------
// What is answered
// ---------------------------------------------------------------------------

/// One cause that something took too long, wherever it stands among the causes, has
/// the request answered with status code 504.
pub proof fn law_timeout_cause_is_504(
    exchange: Exchange,
    causes: Vec<ErrorCause>,
    i: int,
    after: (Exchange, ProxyAction),
)
    requires
        exchange.goes_on(ProxyEvent::RequestFailed(causes), after),
        0 <= i < causes@.len(),
        causes@[i] == ErrorCause::Elapsed || causes@[i] == (ErrorCause::Io { timed_out: true }),
    ensures
        after.0 is Finished,
        after.1 matches ProxyAction::Respond { response, guarded } && guarded && response.code()
            == 504,
{
    assert(crate::proxy_service::is_timeout(causes@[i]));
}

/// Without such a cause a failed request is answered with status code 502.
pub proof fn law_other_causes_are_502(
    exchange: Exchange,
    causes: Vec<ErrorCause>,
    after: (Exchange, ProxyAction),
)
    requires
        exchange.goes_on(ProxyEvent::RequestFailed(causes), after),
        forall|i: int|
            0 <= i < causes@.len() ==> (#[trigger] causes@[i]) == ErrorCause::Other || causes@[i]
                == (ErrorCause::Io { timed_out: false }),
    ensures
        after.0 is Finished,
        after.1 matches ProxyAction::Respond { response, guarded } && guarded && response.code()
            == 502,
{
    assert forall|i: int| 0 <= i < causes@.len() implies !crate::proxy_service::is_timeout(
        #[trigger] causes@[i],
    ) by {}
}

/// What each event but a guard leads to: the waiting page where there was no guard in
/// time, the answer of the service as it is but for an agreed upgrade, the tunnel
/// once the connection is upgraded, and a failure where the worker or the upgrade
/// failed.
pub proof fn law_events_lead_to_answers(
    exchange: Exchange,
    status: u16,
    after: (Exchange, ProxyAction),
)
    ensures
        exchange.goes_on(ProxyEvent::GuardTimeout, after) ==> after == (
            Exchange::Finished,
            ProxyAction::Respond { response: LocalResponse::Waiting, guarded: false },
        ),
        exchange.goes_on(ProxyEvent::WorkerDead, after) ==> after == (
            Exchange::Finished,
            ProxyAction::Fail(ProxyError::WorkerDead),
        ),
        exchange.goes_on(ProxyEvent::Response { status }, after) && exchange
            is AwaitUpgradeResponse && status == 101 ==> after == (
            Exchange::AwaitUpgrade,
            ProxyAction::Upgrade,
        ),
        exchange.goes_on(ProxyEvent::Response { status }, after) && !(exchange
            is AwaitUpgradeResponse && status == 101) ==> after == (
            Exchange::Finished,
            ProxyAction::Relay,
        ),
        exchange.goes_on(ProxyEvent::Upgraded, after) ==> after == (
            Exchange::Finished,
            ProxyAction::Tunnel,
        ),
        exchange.goes_on(ProxyEvent::UpgradeFailed, after) ==> after == (
            Exchange::Finished,
            ProxyAction::Fail(ProxyError::UpgradeFailed),
        ),
{
}

/// A request takes a guard, or the word that the worker is dead, exactly while it
/// waits for a guard, and the end of its time exactly where it has a limit. It takes
/// an answer of the service exactly while it waits for one, and the outcome of an
/// upgrade exactly while it waits for that.
pub proof fn law_request_takes_what_it_waits_for(
    exchange: Exchange,
    guard: RequestGuard,
    status: u16,
    causes: Vec<ErrorCause>,
)
    ensures
        exchange.accepts(ProxyEvent::Guard(guard)) <==> exchange is AwaitGuard,
        exchange.accepts(ProxyEvent::WorkerDead) <==> exchange is AwaitGuard,
        exchange.accepts(ProxyEvent::GuardTimeout) <==> exchange is AwaitGuard
            && exchange->impatient,
        exchange.accepts(ProxyEvent::Response { status }) <==> exchange is AwaitResponse
            || exchange is AwaitUpgradeResponse,
        exchange.accepts(ProxyEvent::RequestFailed(causes)) <==> exchange is AwaitResponse
            || exchange is AwaitUpgradeResponse,
        exchange.accepts(ProxyEvent::Upgraded) <==> exchange is AwaitUpgrade,
        exchange.accepts(ProxyEvent::UpgradeFailed) <==> exchange is AwaitUpgrade,
{
}

/// The answers that the proxy gives itself differ in their status codes. Only the
/// waiting page has fields and a body: when to come back, that it is HTML in UTF-8,
/// and the page.
pub proof fn law_own_answers(response: LocalResponse)
    ensures
        LocalResponse::MethodNotAllowed.code() == 405,
        LocalResponse::Waiting.code() == 503,
        LocalResponse::BadGateway.code() == 502,
        LocalResponse::GatewayTimeout.code() == 504,
        LocalResponse::Waiting.fields() == seq![
            ("retry-after"@, "10"@),
            ("content-type"@, "text/html; charset=utf-8"@),
        ],
        LocalResponse::Waiting.content() == crate::proxy_service::WAITING_RESPONSE@,
        !(response is Waiting) ==> response.fields().len() == 0 && response.content().len() == 0,
{
    reveal_strlit("");
}

} // verus!
