//! What holds of every request that the proxy takes up.

use crate::address::IpAddr;
use crate::ecs_service_scaler::RequestGuard;
use crate::proxy_service::{
    Exchange, LocalResponse, ProxyAction, ProxyEvent, ProxyServiceOptions, RequestHead,
};
use vstd::prelude::*;

verus! {

/// Requests with the methods `CONNECT` and `TRACE` are denied.
pub proof fn law_connect_and_trace_are_denied()
    ensures
        !crate::proxy_service::is_supported("CONNECT"@),
        !crate::proxy_service::is_supported("TRACE"@),
{
    reveal_strlit("GET");
    reveal_strlit("POST");
    reveal_strlit("PUT");
    reveal_strlit("DELETE");
    reveal_strlit("HEAD");
    reveal_strlit("OPTIONS");
    reveal_strlit("PATCH");
    reveal_strlit("CONNECT");
    reveal_strlit("TRACE");
    assert("CONNECT"@[0] == 'C' && "OPTIONS"@[0] == 'O');
    assert("TRACE"@[0] == 'T' && "PATCH"@[0] == 'P');
}

/// A request whose method is not supported is answered at once, with status code
/// 405, and waits for no guard, so that it does not start the service.
pub proof fn law_unsupported_method_starts_nothing(
    head: RequestHead,
    options: ProxyServiceOptions,
)
    requires
        !crate::proxy_service::is_supported(head.method@),
    ensures
        crate::proxy_service::taken_up(head, options) == (
            Exchange::Finished,
            ProxyAction::Respond { response: LocalResponse::MethodNotAllowed, guarded: false },
        ),
        LocalResponse::MethodNotAllowed.code() == 405,
{
}

/// Only a browser that asks for a page is told to wait; every other request waits
/// as long as it takes.
pub proof fn law_only_browsers_are_told_to_wait(head: RequestHead, options: ProxyServiceOptions)
    requires
        crate::proxy_service::is_supported(head.method@),
    ensures
        ({
            let (exchange, action) = crate::proxy_service::taken_up(head, options);
            let browser = crate::proxy_service::is_get_html(
                head.method@,
                crate::headers::header_fields(head.headers),
            );
            &&& exchange.accepts(ProxyEvent::GuardTimeout) <==> browser
            &&& action == (ProxyAction::AcquireGuard {
                timeout_secs: if browser {
                    Some(crate::proxy_service::WAITING_PAGE_SECS)
                } else {
                    None
                },
            })
        }),
{
}

/// The waiting page comes with status code 503 and asks the browser to come back
/// after ten seconds; it is what follows when there is no guard in time.
pub proof fn law_waiting_page(exchange: Exchange, after: (Exchange, ProxyAction))
    requires
        exchange.accepts(ProxyEvent::GuardTimeout),
        exchange.goes_on(ProxyEvent::GuardTimeout, after),
    ensures
        after.1 == (ProxyAction::Respond { response: LocalResponse::Waiting, guarded: false }),
        LocalResponse::Waiting.code() == 503,
        LocalResponse::Waiting.fields()[0] == ("retry-after"@, "10"@),
{
}

/// A request for HTML that asks for an upgrade is not taken for one of a browser
/// that can be shown a page.
pub proof fn law_upgrade_is_not_told_to_wait(
    method: Seq<char>,
    fields: Map<Seq<char>, Seq<Seq<u8>>>,
)
    requires
        crate::proxy_service::asks_upgrade(fields),
    ensures
        !crate::proxy_service::is_get_html(method, fields),
{
}

/// The fields of a request reach the service: all but `Host` and `X-Forwarded-For`
/// as they are, `Host` as it is where the request has one, and `X-Forwarded-For`
/// with the address of the client behind the values it had.
pub proof fn law_fields_reach_service(
    fields: Map<Seq<char>, Seq<Seq<u8>>>,
    host: Option<Seq<char>>,
    remote: Seq<char>,
    name: Seq<char>,
)
    ensures
        ({
            let sent = crate::proxy_service::forwarded(fields, host, remote);
            let forwarded_for = sent["x-forwarded-for"@];
            &&& name != "host"@ && name != "x-forwarded-for"@ ==> (sent.contains_key(name)
                <==> fields.contains_key(name)) && crate::headers::values_of(sent, name)
                == crate::headers::values_of(fields, name)
            &&& fields.contains_key("host"@) ==> sent.contains_key("host"@) && sent["host"@]
                == fields["host"@]
            &&& !fields.contains_key("host"@) && host is Some ==> sent.contains_key("host"@)
                && sent["host"@] == seq![crate::proxy_service::bytes_of(host->0)]
            &&& !fields.contains_key("host"@) && host is None ==> !sent.contains_key("host"@)
            &&& sent.contains_key("x-forwarded-for"@)
            &&& forwarded_for.last() == crate::proxy_service::bytes_of(remote)
            &&& forwarded_for.drop_last() == crate::headers::values_of(
                fields,
                "x-forwarded-for"@,
            )
        }),
{
    reveal_strlit("host");
    reveal_strlit("x-forwarded-for");
    assert("host"@.len() == 4 && "x-forwarded-for"@.len() == 15);
    let sent = crate::proxy_service::forwarded(fields, host, remote);
    assert(sent["x-forwarded-for"@].drop_last() =~= crate::headers::values_of(
        fields,
        "x-forwarded-for"@,
    ));
}

/// A printed address can be the value of a header, so that the address of a client
/// never keeps a request from being sent on.
pub proof fn law_printed_address_is_field_value(addr: IpAddr)
    requires
        crate::uri::is_printed(addr),
    ensures
        crate::headers::is_field_value(crate::proxy_service::bytes_of(addr.text())),
{
    let text = addr.text();
    let bytes = crate::proxy_service::bytes_of(text);
    assert(vstd::utf8::is_ascii_chars(text));
    vstd::utf8::is_ascii_chars_encode_utf8(text);
    assert forall|i: int| 0 <= i < bytes.len() implies crate::headers::is_value_byte(
        #[trigger] bytes[i],
    ) by {
        assert(bytes[i] == text[i] as u8);
    }
}

/// A request with a guard goes to the address that the guard names, at the port of
/// the service, with the path and query it came with, unless it has a host that
/// cannot be a header, or so many headers that there may be no room for one more.
pub proof fn law_request_goes_to_service(
    head: RequestHead,
    options: ProxyServiceOptions,
    impatient: bool,
    guard: RequestGuard,
    after: (Exchange, ProxyAction),
)
    requires
        (Exchange::AwaitGuard { head, options, impatient }).goes_on(
            ProxyEvent::Guard(guard),
            after,
        ),
        crate::proxy_service::lacks_host(
            crate::headers::header_fields(head.headers),
            crate::proxy_service::text_of(head.host),
        ) ==> crate::headers::is_field_value(crate::proxy_service::bytes_of(head.host->0@)),
        crate::uri::is_printed(options.remote_addr),
        crate::headers::header_fields(head.headers).dom().len() < crate::headers::ROOMY_NAMES,
        crate::uri::is_printed(guard.addr),
        head.path_and_query is Some,
        crate::uri::is_path_and_query(head.path_and_query->0@),
    ensures
        ({
            let uri = crate::uri::plain_uri(
                crate::address::authority(guard.addr, options.target_port),
                crate::uri::shown_target(head.path_and_query->0@),
            );
            if crate::proxy_service::asks_upgrade(crate::headers::header_fields(head.headers)) {
                after.1 matches ProxyAction::ForwardUpgrade(outbound) && outbound.uri@ == uri
            } else {
                after.1 matches ProxyAction::Forward(outbound) && outbound.uri@ == uri
            }
        }),
{
    law_printed_address_is_field_value(options.remote_addr);
}

/// The event can follow when `action` is done with a request.
pub open spec fn is_answer(action: ProxyAction, event: ProxyEvent) -> bool {
    match action {
        ProxyAction::AcquireGuard { timeout_secs } => event is Guard || event is WorkerDead || event
            is GuardTimeout && timeout_secs is Some,
        ProxyAction::Forward(_) | ProxyAction::ForwardUpgrade(_) => event is Response || event
            is RequestFailed,
        ProxyAction::Upgrade => event is Upgraded || event is UpgradeFailed,
        _ => false,
    }
}

/// A request is never stuck: it takes every answer to what is done with it, from
/// the time it is taken up until it is finished.
pub proof fn law_exchange_takes_every_answer(
    head: RequestHead,
    options: ProxyServiceOptions,
    exchange: Exchange,
    event: ProxyEvent,
    after: (Exchange, ProxyAction),
    answer: ProxyEvent,
)
    requires
        exchange.accepts(event),
        exchange.goes_on(event, after),
    ensures
        ({
            let first = crate::proxy_service::taken_up(head, options);
            &&& is_answer(first.1, answer) ==> first.0.accepts(answer)
            &&& is_answer(after.1, answer) ==> after.0.accepts(answer)
            &&& after.1 is Respond || after.1 is Relay || after.1 is Tunnel || after.1 is Fail
                <==> after.0 is Finished
        }),
{
}

/// The request has its guard.
pub open spec fn has_guard(exchange: Exchange) -> bool {
    exchange is AwaitResponse || exchange is AwaitUpgradeResponse || exchange is AwaitUpgrade
}

/// A request keeps its guard until it is over: what is sent to the client while
/// there is a guard takes the guard along, and without an answer the guard is only
/// given up where the upgrade fails.
pub proof fn law_guard_is_kept(
    exchange: Exchange,
    event: ProxyEvent,
    after: (Exchange, ProxyAction),
)
    requires
        has_guard(exchange),
        exchange.accepts(event),
        exchange.goes_on(event, after),
    ensures
        match after.1 {
            ProxyAction::Respond { guarded, .. } => guarded && after.0 is Finished,
            ProxyAction::Relay | ProxyAction::Tunnel => after.0 is Finished,
            ProxyAction::Upgrade => has_guard(after.0),
            ProxyAction::Fail(_) => event is UpgradeFailed,
            _ => false,
        },
{
}

/// A request that cannot be sent to the service is answered with status code 504
/// where something took too long, and 502 otherwise.
pub proof fn law_failed_request_is_answered(
    exchange: Exchange,
    causes: Vec<crate::proxy_service::ErrorCause>,
    after: (Exchange, ProxyAction),
)
    requires
        exchange.accepts(ProxyEvent::RequestFailed(causes)),
        exchange.goes_on(ProxyEvent::RequestFailed(causes), after),
    ensures
        after.1 matches ProxyAction::Respond { response, guarded: true } && response.code() == if
            crate::proxy_service::any_timeout(causes@) {
            504u16
        } else {
            502u16
        },
{
}

/// An upgrade that the service agrees to connects the client with the service; any
/// other answer of the service is passed on.
pub proof fn law_upgrade_opens_tunnel(
    status: u16,
    after: (Exchange, ProxyAction),
    last: (Exchange, ProxyAction),
)
    requires
        Exchange::AwaitUpgradeResponse.goes_on(ProxyEvent::Response { status }, after),
        after.0.goes_on(ProxyEvent::Upgraded, last),
    ensures
        status == 101 ==> after.1 is Upgrade && after.0.accepts(ProxyEvent::Upgraded) && last.1
            is Tunnel,
        status != 101 ==> after.1 is Relay,
{
}

/// The answer of the service to a request without an upgrade is passed on, whatever
/// its status code.
pub proof fn law_response_is_passed_on(status: u16, after: (Exchange, ProxyAction))
    requires
        Exchange::AwaitResponse.goes_on(ProxyEvent::Response { status }, after),
    ensures
        after.1 is Relay,
{
}

} // verus!
