//! What holds of the worker over all its runs, and of the requests that it serves.

use crate::address::IpAddr;
use crate::ecs::{
    Attachment, NetworkInterface, Reply, Request, ScalerError, Service, ServiceScalerOptions, Task,
};
use crate::ecs_service_scaler::{
    Action, Event, Purpose, RequestAction, RequestEvent, RequestGuard, RequestNotification,
    RequestWait, ServiceScaler, ServiceStatus, Stage, TimeoutAction,
};
use vstd::prelude::*;

verus! {

// ---------------------------------------------------------------------------
// Runs of the worker
// ---------------------------------------------------------------------------

/// The worker after the given events, each with the time at which it came.
pub open spec fn run(scaler: ServiceScaler, inputs: Seq<(u64, Event)>) -> ServiceScaler
    decreases inputs.len(),
{
    if inputs.len() == 0 {
        scaler
    } else {
        run(scaler, inputs.drop_last()).next(inputs.last().0, inputs.last().1).0
    }
}

/// Each of the events answers what the worker was waiting for.
pub open spec fn is_run(scaler: ServiceScaler, inputs: Seq<(u64, Event)>) -> bool
    decreases inputs.len(),
{
    inputs.len() == 0 || is_run(scaler, inputs.drop_last()) && run(
        scaler,
        inputs.drop_last(),
    ).accepts(inputs.last().1)
}

/// How many of the events are the given message.
pub open spec fn messages(inputs: Seq<(u64, Event)>, message: RequestNotification) -> int
    decreases inputs.len(),
{
    if inputs.len() == 0 {
        0
    } else {
        messages(inputs.drop_last(), message) + if inputs.last().1 == Event::Notified(message) {
            1int
        } else {
            0
        }
    }
}

/// The requests that are received and not answered in the events.
pub open spec fn open_requests(inputs: Seq<(u64, Event)>) -> int {
    messages(inputs, RequestNotification::ReceiveRequest) - messages(
        inputs,
        RequestNotification::SentResponse,
    )
}

/// A run keeps the worker well-formed and its options as they are.
pub proof fn law_run_keeps_invariant(scaler: ServiceScaler, inputs: Seq<(u64, Event)>)
    requires
        scaler.wf(),
        is_run(scaler, inputs),
    ensures
        run(scaler, inputs).wf(),
        run(scaler, inputs).options == scaler.options,
    decreases inputs.len(),
{
    if inputs.len() > 0 {
        law_run_keeps_invariant(scaler, inputs.drop_last());
    }
}

/// The worker counts the requests that are received and not yet answered, and that
/// count is never negative.
pub proof fn law_alive_connections_are_open_requests(
    options: ServiceScalerOptions,
    start: u64,
    inputs: Seq<(u64, Event)>,
)
    requires
        is_run(crate::ecs_service_scaler::started(options, start), inputs),
    ensures
        run(crate::ecs_service_scaler::started(options, start), inputs).alive_connections
            == open_requests(inputs),
        open_requests(inputs) >= 0,
    decreases inputs.len(),
{
    let scaler = crate::ecs_service_scaler::started(options, start);
    law_run_keeps_invariant(scaler, inputs);
    if inputs.len() > 0 {
        law_alive_connections_are_open_requests(options, start, inputs.drop_last());
    }
}

/// The service is never told to run no task, nor announced as going down, while a
/// request that the worker was told of is not answered.
pub proof fn law_no_scale_down_under_requests(
    options: ServiceScalerOptions,
    start: u64,
    inputs: Seq<(u64, Event)>,
    now: u64,
    event: Event,
)
    requires
        is_run(crate::ecs_service_scaler::started(options, start), inputs),
        run(crate::ecs_service_scaler::started(options, start), inputs).accepts(event),
    ensures
        ({
            let action = run(crate::ecs_service_scaler::started(options, start), inputs).next(
                now,
                event,
            ).1.action;
            action is SendStatus || (action matches Action::Call(
                Request::UpdateService { desired_count, .. },
            ) && desired_count == 0) ==> open_requests(inputs.push((now, event))) == 0
        }),
{
    let scaler = crate::ecs_service_scaler::started(options, start);
    assert(inputs.push((now, event)).drop_last() =~= inputs);
    law_run_keeps_invariant(scaler, inputs);
    law_alive_connections_are_open_requests(options, start, inputs.push((now, event)));
}

/// The service is told to run no task only after a whole period without a request:
/// the time to scale down is always a period behind the message, or the health
/// check, that set it, and the timeout that scales down is set for that time.
pub proof fn law_scale_down_waits_a_period(scaler: ServiceScaler, now: u64, event: Event)
    requires
        scaler.wf(),
        scaler.accepts(event),
    ensures
        ({
            let (after, step) = scaler.next(now, event);
            &&& after.scale_down_time is None || after.scale_down_time == scaler.scale_down_time
                || after.scale_down_time == scaler.idle_deadline(now)
            &&& step.action matches Action::Select { timeout, until } ==> timeout is ScaleDown
                ==> after.scale_down_time == Some(until)
            &&& step.action is SendStatus ==> event is Timeout && scaler.due().0 is ScaleDown
        }),
{
}

/// The clock does not go back, and a timeout does not come before its time.
pub open spec fn is_clocked(scaler: ServiceScaler, inputs: Seq<(u64, Event)>) -> bool {
    &&& forall|i: int, j: int|
        0 <= i <= j < inputs.len() ==> (#[trigger] inputs[i]).0 <= (#[trigger] inputs[j]).0
    &&& forall|i: int|
        0 <= i < inputs.len() && (#[trigger] inputs[i]).1 is Timeout ==> inputs[i].0 >= run(
            scaler,
            inputs.take(i),
        ).due().1
}

/// In a run by the clock, the time to scale down is a period or more behind every
/// message.
proof fn lemma_deadline_behind_messages(scaler: ServiceScaler, inputs: Seq<(u64, Event)>, i: int)
    requires
        scaler.wf(),
        scaler.scale_down_time is None,
        is_run(scaler, inputs),
        is_clocked(scaler, inputs),
        0 <= i < inputs.len(),
        inputs[i].1 is Notified,
        run(scaler, inputs).scale_down_time is Some,
    ensures
        inputs[i].0 + scaler.options.scale_down_period.in_nanos() <= run(
            scaler,
            inputs,
        ).scale_down_time->0,
    decreases inputs.len(),
{
    let before = inputs.drop_last();
    let last = inputs.last();
    assert(inputs[inputs.len() - 1] == last);
    lemma_clocked_prefix(scaler, inputs);
    law_run_keeps_invariant(scaler, before);
    law_scale_down_waits_a_period(run(scaler, before), last.0, last.1);
    lemma_period_fits(scaler.options.scale_down_period, last.0);
    assert(inputs[i].0 <= last.0);
    if i < before.len() && run(scaler, inputs).scale_down_time == run(
        scaler,
        before,
    ).scale_down_time {
        assert(before[i] == inputs[i]);
        lemma_deadline_behind_messages(scaler, before, i);
    } else if i == before.len() {
        assert(run(scaler, inputs).scale_down_time == run(scaler, before).idle_deadline(last.0));
    }
}

/// A run by the clock is one without its last event too.
proof fn lemma_clocked_prefix(scaler: ServiceScaler, inputs: Seq<(u64, Event)>)
    requires
        inputs.len() > 0,
        is_clocked(scaler, inputs),
    ensures
        is_clocked(scaler, inputs.drop_last()),
{
    let before = inputs.drop_last();
    assert forall|i: int, j: int| 0 <= i <= j < before.len() implies (#[trigger] before[i]).0 <= (
    #[trigger] before[j]).0 by {
        assert(before[i] == inputs[i] && before[j] == inputs[j]);
    }
    assert forall|i: int|
        0 <= i < before.len() && (#[trigger] before[i]).1 is Timeout implies before[i].0 >= run(
        scaler,
        before.take(i),
    ).due().1 by {
        assert(before[i] == inputs[i]);
        assert(before.take(i) =~= inputs.take(i));
    }
}

/// The time to scale down fits into its type.
proof fn lemma_period_fits(period: crate::ecs::Period, now: u64)
    ensures
        0 <= now + period.in_nanos() <= u128::MAX,
{
}

/// The service is announced as going down, and then told to run no task, only where
/// no request has come or been answered for a whole period.
pub proof fn law_scale_down_only_after_quiet_period(
    options: ServiceScalerOptions,
    start: u64,
    inputs: Seq<(u64, Event)>,
    now: u64,
    event: Event,
    i: int,
)
    requires
        is_run(crate::ecs_service_scaler::started(options, start), inputs.push((now, event))),
        is_clocked(crate::ecs_service_scaler::started(options, start), inputs.push((now, event))),
        run(crate::ecs_service_scaler::started(options, start), inputs).next(
            now,
            event,
        ).1.action is SendStatus,
        0 <= i < inputs.len(),
        inputs[i].1 is Notified,
    ensures
        inputs[i].0 + options.scale_down_period.in_nanos() <= now,
{
    let scaler = crate::ecs_service_scaler::started(options, start);
    let all = inputs.push((now, event));
    assert(all.drop_last() =~= inputs);
    assert(all.last() == (now, event));
    lemma_clocked_prefix(scaler, all);
    law_run_keeps_invariant(scaler, inputs);
    law_scale_down_waits_a_period(run(scaler, inputs), now, event);
    assert(all.take(inputs.len() as int) =~= inputs);
    assert(all[inputs.len() as int] == (now, event));
    lemma_deadline_behind_messages(scaler, inputs, i);
}

/// The last response starts the period: with no request left, the time to scale
/// down is a period later.
pub proof fn law_last_response_starts_period(scaler: ServiceScaler, now: u64)
    requires
        scaler.wf(),
        scaler.stage is Idle,
        scaler.alive_connections == 1,
    ensures
        scaler.next(now, Event::Notified(RequestNotification::SentResponse)).0.scale_down_time
            == scaler.idle_deadline(now),
{
}

/// A request that comes before the service is scaled down keeps it running.
pub proof fn law_request_cancels_scale_down(scaler: ServiceScaler, now: u64)
    requires
        scaler.wf(),
        scaler.accepts(Event::Notified(RequestNotification::ReceiveRequest)),
    ensures
        scaler.next(
            now,
            Event::Notified(RequestNotification::ReceiveRequest),
        ).0.scale_down_time is None,
{
}

/// The scale down has begun somewhere in the run.
pub open spec fn scale_down_begun(scaler: ServiceScaler, inputs: Seq<(u64, Event)>) -> bool {
    exists|k: int|
        0 <= k <= inputs.len() && (#[trigger] run(scaler, inputs.take(k))).stage is ScaleDownStatus
}

/// Without messages, nothing puts the scale down off: its time stays as it is
/// until the scale down begins, and whenever the worker waits, it does not wait
/// beyond that time.
pub proof fn law_scale_down_is_not_put_off(
    scaler: ServiceScaler,
    time: u128,
    inputs: Seq<(u64, Event)>,
)
    requires
        scaler.wf(),
        scaler.scale_down_time == Some(time),
        is_run(scaler, inputs),
        forall|i: int| 0 <= i < inputs.len() ==> !((#[trigger] inputs[i]).1 is Notified),
    ensures
        scale_down_begun(scaler, inputs) || run(scaler, inputs).scale_down_time == Some(time)
            && run(scaler, inputs).due().1 <= time,
    decreases inputs.len(),
{
    if inputs.len() > 0 {
        let before = inputs.drop_last();
        assert forall|i: int| 0 <= i < before.len() implies !((#[trigger] before[i]).1 is Notified) by {
            assert(before[i] == inputs[i]);
        }
        law_run_keeps_invariant(scaler, before);
        law_scale_down_is_not_put_off(scaler, time, before);
        if scale_down_begun(scaler, before) {
            let k = choose|k: int|
                0 <= k <= before.len() && (#[trigger] run(scaler, before.take(k))).stage
                    is ScaleDownStatus;
            assert(before.take(k) =~= inputs.take(k));
            assert(run(scaler, inputs.take(k)).stage is ScaleDownStatus);
        } else {
            assert(inputs.take(inputs.len() as int) =~= inputs);
            assert(inputs.last() == inputs[inputs.len() - 1]);
            if run(scaler, inputs).stage is ScaleDownStatus {
                assert(run(scaler, inputs.take(inputs.len() as int)).stage is ScaleDownStatus);
            } else {
                assert(before.take(before.len() as int) =~= before);
                assert(!(run(scaler, before.take(before.len() as int)).stage is ScaleDownStatus));
            }
        }
    }
}

/// When the time to scale down has come, the requests are told that the service
/// goes down, the service is told to run no task, and the worker waits for the next
/// request with a health check a full period away.
pub proof fn law_timeout_scales_down(
    scaler: ServiceScaler,
    now: u64,
    sent: u64,
    updated: u64,
    reply: Reply,
)
    requires
        scaler.wf(),
        scaler.stage is Idle,
        scaler.due().0 is ScaleDown,
        reply is Updated || reply is Failed,
    ensures
        ({
            let (first, announce) = scaler.next(now, Event::Timeout);
            let (second, update) = first.next(sent, Event::Sent(true));
            let (third, wait) = second.next(updated, Event::Reply(reply));
            &&& announce.action == Action::SendStatus(ServiceStatus::Unhealthy)
            &&& first.accepts(Event::Sent(true))
            &&& update.action == Action::Call(
                crate::ecs::update_service_call(scaler.options, 0),
            )
            &&& second.status is Unhealthy
            &&& second.accepts(Event::Reply(reply))
            &&& wait.action == (Action::Select {
                timeout: TimeoutAction::HealthCheck,
                until: (updated + crate::ecs_service_scaler::HEALTH_CHECK_PERIOD) as u128,
            })
            &&& third.stage is Idle
        }),
{
}

/// A request that finds the service down starts it: the worker asks for the state
/// of the service, tells it to run one task where it is meant to run none, and then
/// looks at its tasks.
pub proof fn law_request_starts_service(
    scaler: ServiceScaler,
    services: Vec<Service>,
    now: u64,
    described: u64,
    updated: u64,
)
    requires
        scaler.wf(),
        scaler.accepts(Event::Notified(RequestNotification::ReceiveRequest)),
        scaler.status is Unhealthy,
        services@.len() == 1,
        services@[0].desired_count < 1,
    ensures
        ({
            let (first, describe) = scaler.next(
                now,
                Event::Notified(RequestNotification::ReceiveRequest),
            );
            let (second, update) = first.next(
                described,
                Event::Reply(Reply::Services(services)),
            );
            let (third, list) = second.next(updated, Event::Reply(Reply::Updated));
            &&& describe.action == Action::Call(
                crate::ecs::describe_services_call(scaler.options),
            )
            &&& first.accepts(Event::Reply(Reply::Services(services)))
            &&& update.action == Action::Call(
                crate::ecs::update_service_call(scaler.options, 1),
            )
            &&& second.accepts(Event::Reply(Reply::Updated))
            &&& list.action == Action::Call(crate::ecs::list_tasks_call(scaler.options))
            &&& third.stage is WaitHealthy
        }),
{
}

/// A service that is already meant to run is not changed by a request; the worker
/// only waits for it.
pub proof fn law_running_service_is_left_alone(
    scaler: ServiceScaler,
    services: Vec<Service>,
    now: u64,
)
    requires
        scaler.stage is ScaleUp,
        services@.len() == 1,
        services@[0].desired_count >= 1,
    ensures
        scaler.next(now, Event::Reply(Reply::Services(services))).0.stage is WaitHealthy,
        scaler.next(now, Event::Reply(Reply::Services(services))).1.action == Action::Call(
            crate::ecs::list_tasks_call(scaler.options),
        ),
{
}

/// A starting service is looked at again and again until one of its tasks is
/// healthy, and only then is its address asked for.
pub proof fn law_starting_service_is_awaited(
    scaler: ServiceScaler,
    tasks: Vec<Task>,
    now: u64,
    slept: u64,
)
    requires
        scaler.stage is WaitHealthy,
    ensures
        ({
            let (first, step) = scaler.next(now, Event::Reply(Reply::Tasks(tasks)));
            let (second, again) = first.next(slept, Event::Slept);
            if crate::ecs::any_healthy(tasks@) {
                first.stage == Stage::FindAddress(Purpose::ScaleUp)
            } else {
                &&& step.action == Action::Sleep(crate::ecs_service_scaler::HEALTHY_POLL_SECS)
                &&& first.accepts(Event::Slept)
                &&& second.stage is WaitHealthy
                &&& again.action == Action::Call(crate::ecs::list_tasks_call(scaler.options))
            }
        }),
{
}

/// The text that is read as the address of the service is the private address of
/// its network interface.
pub proof fn law_private_address_is_read(
    scaler: ServiceScaler,
    tasks: Vec<Task>,
    interface: Attachment,
    text: String,
    now: u64,
)
    requires
        scaler.stage is FindAddress,
        !scaler.options.use_public_ip,
        crate::ecs::task_interface(tasks@) == Some(interface),
        crate::ecs::detail_value(interface.details@, "privateIPv4Address"@) == Some(text),
    ensures
        scaler.accepts(Event::Reply(Reply::Tasks(tasks))),
        scaler.next(now, Event::Reply(Reply::Tasks(tasks))).0.stage == scaler.stage,
        scaler.next(now, Event::Reply(Reply::Tasks(tasks))).1.action == Action::ParseAddress(text),
{
}

/// The text that is read as the address of the service is the public address that
/// EC2 knows of its network interface, where the options ask for it.
pub proof fn law_public_address_is_read(
    scaler: ServiceScaler,
    tasks: Vec<Task>,
    interface: Attachment,
    id: String,
    interfaces: Vec<NetworkInterface>,
    text: String,
    now: u64,
    described: u64,
)
    requires
        scaler.stage is FindAddress,
        scaler.options.use_public_ip,
        crate::ecs::task_interface(tasks@) == Some(interface),
        crate::ecs::detail_value(interface.details@, "networkInterfaceId"@) == Some(id),
        crate::ecs::first_public_ip(interfaces@) == Some(text),
    ensures
        ({
            let (first, describe) = scaler.next(now, Event::Reply(Reply::Tasks(tasks)));
            let reply = Event::Reply(Reply::NetworkInterfaces(interfaces));
            let (second, parse) = first.next(described, reply);
            &&& describe.action == Action::Call(Request::DescribeNetworkInterfaces { id })
            &&& first.accepts(reply)
            &&& second.stage == scaler.stage
            &&& parse.action == Action::ParseAddress(text)
        }),
{
}

/// Once the address of a service is read, the requests are told it, and a request
/// that waits for the service then goes on to that address.
pub proof fn law_address_reaches_requests(
    scaler: ServiceScaler,
    addr: IpAddr,
    now: u64,
    published: u64,
)
    requires
        scaler.wf(),
        scaler.stage is FindAddress,
    ensures
        ({
            let (first, publish) = scaler.next(now, Event::Parsed(Some(addr)));
            let (second, _) = first.next(published, Event::Published);
            let (_, grant) = RequestWait::Looking.next(RequestEvent::Status(second.status));
            &&& publish.action == Action::Publish(ServiceStatus::Healthy(addr))
            &&& first.accepts(Event::Published)
            &&& second.stage is Idle
            &&& second.status == ServiceStatus::Healthy(addr)
            &&& grant == RequestAction::Grant(RequestGuard { addr })
        }),
{
}

/// A health check that finds the service healthy while no request is alive sees to
/// it that the service is scaled down after a period, whoever started it.
pub proof fn law_unused_service_is_scheduled(scaler: ServiceScaler, now: u64)
    requires
        scaler.wf(),
        scaler.stage == Stage::Publish(Purpose::HealthCheck),
        scaler.status is Healthy,
        scaler.alive_connections == 0,
    ensures
        scaler.next(now, Event::Published).0.scale_down_time is Some,
        scaler.scale_down_time is None ==> scaler.next(now, Event::Published).0.scale_down_time
            == scaler.idle_deadline(now),
{
}

/// Whenever the worker waits again after an activity, the next health check is a
/// full period away, and the worker does not wait beyond it.
pub proof fn law_health_check_follows_activity(scaler: ServiceScaler, now: u64, event: Event)
    requires
        scaler.wf(),
        scaler.accepts(event),
        !(scaler.stage is Idle),
        scaler.next(now, event).0.stage is Idle,
    ensures
        scaler.next(now, event).0.next_health_check_time == now
            + crate::ecs_service_scaler::HEALTH_CHECK_PERIOD,
        scaler.next(now, event).1.action matches Action::Select { until, .. } && until <= now
            + crate::ecs_service_scaler::HEALTH_CHECK_PERIOD,
{
}

/// Messages do not put off a health check.
pub proof fn law_messages_keep_health_check(
    scaler: ServiceScaler,
    now: u64,
    message: RequestNotification,
)
    requires
        scaler.wf(),
        scaler.accepts(Event::Notified(message)),
    ensures
        scaler.next(now, Event::Notified(message)).0.next_health_check_time
            == scaler.next_health_check_time,
{
}

/// What the worker takes the status to be changes only together with an action that
/// tells the requests, or once the requests have been told that the service goes
/// down.
pub proof fn law_status_changes_are_told(scaler: ServiceScaler, now: u64, event: Event)
    requires
        scaler.wf(),
        scaler.accepts(event),
        scaler.next(now, event).0.status != scaler.status,
    ensures
        scaler.next(now, event).1.action == Action::Publish(scaler.next(now, event).0.status)
            || event == Event::Sent(true) && scaler.next(now, event).0.status is Unhealthy,
{
}

/// A failure of ECS or EC2 changes nothing that the requests see: the worker goes
/// back to waiting.
pub proof fn law_failed_call_changes_nothing(scaler: ServiceScaler, now: u64)
    requires
        scaler.wf(),
        scaler.accepts(Event::Reply(Reply::Failed)),
    ensures
        ({
            let (after, step) = scaler.next(now, Event::Reply(Reply::Failed));
            &&& after.stage is Idle
            &&& after.status == scaler.status
            &&& after.alive_connections == scaler.alive_connections
            &&& after.scale_down_time == scaler.scale_down_time
            &&& step.failure == Some(ScalerError::CallFailed)
        }),
{
}

/// Whatever makes an activity fail, the worker goes back to waiting, and what the
/// requests see and when the service is scaled down stays as it is.
pub proof fn law_failure_changes_nothing(scaler: ServiceScaler, now: u64, event: Event)
    requires
        scaler.wf(),
        scaler.accepts(event),
        scaler.next(now, event).1.failure is Some,
    ensures
        ({
            let (after, step) = scaler.next(now, event);
            &&& after.stage is Idle
            &&& step.action is Select
            &&& after.status == scaler.status
            &&& after.alive_connections == scaler.alive_connections
            &&& after.scale_down_time == scaler.scale_down_time
        }),
{
}

/// A health check that finds no healthy task has the requests told so, and one that
/// finds a healthy task but no network interface has them told that there is no
/// address.
pub proof fn law_health_check_is_told(
    scaler: ServiceScaler,
    tasks: Vec<Task>,
    now: u64,
)
    requires
        scaler.wf(),
    ensures
        ({
            let step = scaler.next(now, Event::Reply(Reply::Tasks(tasks))).1;
            &&& scaler.stage is CheckTasks && !crate::ecs::any_healthy(tasks@) ==> step.action
                == Action::Publish(ServiceStatus::Unhealthy)
            &&& scaler.stage is CheckTasks && crate::ecs::any_healthy(tasks@) ==> step.action
                == Action::Call(crate::ecs::list_tasks_call(scaler.options))
            &&& scaler.stage is FindAddress && crate::ecs::task_interface(tasks@) is None
                ==> step.action == Action::Publish(ServiceStatus::NoIP)
        }),
{
}

/// The reply is one to the request.
pub open spec fn is_reply_to(request: Request, reply: Reply) -> bool {
    reply is Failed || match request {
        Request::DescribeServices { .. } => reply is Services,
        Request::UpdateService { .. } => reply is Updated,
        Request::ListRunningTasks { .. } => reply is TaskArns,
        Request::DescribeTasks { .. } => reply is Tasks,
        Request::DescribeNetworkInterfaces { .. } => reply is NetworkInterfaces,
    }
}

/// The event can follow when the worker does `action`. Messages are left out.
pub open spec fn is_answer(action: Action, event: Event) -> bool {
    match action {
        Action::Select { .. } => event is Timeout || event is NotifyClosed || event is StatusClosed,
        Action::Call(request) => event matches Event::Reply(reply) && is_reply_to(request, reply),
        Action::ParseAddress(_) => event is Parsed,
        Action::Sleep(_) => event is Slept,
        Action::Publish(_) => event is Published,
        Action::SendStatus(_) => event is Sent,
        Action::Stop => false,
    }
}

/// The worker is never stuck: it takes every answer to what it does, from its start
/// on, and while it waits it takes a request.
pub proof fn law_worker_takes_every_answer(
    options: ServiceScalerOptions,
    start: u64,
    scaler: ServiceScaler,
    now: u64,
    event: Event,
    answer: Event,
)
    requires
        scaler.wf(),
        scaler.accepts(event),
    ensures
        ({
            let (first, wait) = crate::ecs_service_scaler::started(options, start).waiting(None);
            let (after, step) = scaler.next(now, event);
            &&& is_answer(wait.action, answer) ==> first.accepts(answer)
            &&& is_answer(step.action, answer) ==> after.accepts(answer)
            &&& step.action is Select && after.alive_connections < isize::MAX ==> after.accepts(
                Event::Notified(RequestNotification::ReceiveRequest),
            )
        }),
{
}

/// The worker ends as soon as no one is left who could send a message or see the
/// status, and takes no event after that.
pub proof fn law_worker_ends(scaler: ServiceScaler, now: u64, closed: Event, event: Event)
    requires
        scaler.wf(),
        scaler.accepts(closed),
        closed is NotifyClosed || closed is StatusClosed || closed == Event::Sent(false),
    ensures
        scaler.next(now, closed).1.action is Stop,
        !scaler.next(now, closed).0.accepts(event),
{
}

// ---------------------------------------------------------------------------
// The status
// ---------------------------------------------------------------------------

/// To say the same of the service is an equivalence.
pub proof fn law_same_status_is_equivalence(a: ServiceStatus, b: ServiceStatus, c: ServiceStatus)
    ensures
        a.same(a),
        a.same(b) ==> b.same(a),
        a.same(b) && b.same(c) ==> a.same(c),
{
}

// ---------------------------------------------------------------------------
// The requests
// ---------------------------------------------------------------------------

/// A waiting request after the given events.
pub open spec fn request_run(events: Seq<RequestEvent>) -> RequestWait
    decreases events.len(),
{
    if events.len() == 0 {
        RequestWait::Notifying
    } else {
        request_run(events.drop_last()).next(events.last()).0
    }
}

/// Each of the events answers what the request was waiting for.
pub open spec fn is_request_run(events: Seq<RequestEvent>) -> bool
    decreases events.len(),
{
    events.len() == 0 || is_request_run(events.drop_last()) && request_run(
        events.drop_last(),
    ).accepts(events.last())
}

/// However a request ends, the worker is told of one response exactly where it was
/// told of the request.
pub proof fn law_one_response_per_request(events: Seq<RequestEvent>)
    requires
        is_request_run(events),
    ensures
        request_run(events).counted() <==> events.len() > 0 && events[0] == RequestEvent::Notified(
            true,
        ),
        events.len() > 0 && events[0] == RequestEvent::Notified(true) <==> request_run(
            events,
        ).farewell() == Some(RequestNotification::SentResponse),
        events.len() == 0 || events[0] == RequestEvent::Notified(false) <==> request_run(
            events,
        ).farewell() is None,
    decreases events.len(),
{
    if events.len() > 0 {
        law_one_response_per_request(events.drop_last());
        if events.len() > 1 {
            assert(events.drop_last()[0] == events[0]);
            assert(!(request_run(events.drop_last()) is Notifying)) by {
                lemma_request_run_moves_on(events.drop_last());
            }
        }
    }
}

/// A request that saw an event is no longer about to tell the worker.
proof fn lemma_request_run_moves_on(events: Seq<RequestEvent>)
    requires
        events.len() > 0,
    ensures
        !(request_run(events) is Notifying),
{
}

/// The event can follow when a waiting request does `action`.
pub open spec fn is_request_answer(action: RequestAction, event: RequestEvent) -> bool {
    match action {
        RequestAction::Notify(_) => event is Notified,
        RequestAction::ReadStatus => event is Status,
        RequestAction::AwaitChange => event is Changed,
        RequestAction::Grant(_) | RequestAction::Fail => false,
    }
}

/// A waiting request takes every answer to what it does.
pub proof fn law_request_takes_every_answer(
    wait: RequestWait,
    event: RequestEvent,
    answer: RequestEvent,
)
    requires
        wait.accepts(event),
    ensures
        is_request_answer(wait.next(event).1, answer) ==> wait.next(event).0.accepts(answer),
        answer is Notified ==> RequestWait::Notifying.accepts(answer),
{
}

/// A request gets a guard only for the address at which the service is said to be
/// healthy.
pub proof fn law_guard_only_for_healthy_service(
    wait: RequestWait,
    event: RequestEvent,
    guard: RequestGuard,
)
    requires
        wait.accepts(event),
        wait.next(event).1 == RequestAction::Grant(guard),
    ensures
        event == RequestEvent::Status(ServiceStatus::Healthy(guard.addr)),
{
}

/// The number of messages of the given kind.
pub open spec fn count_messages(
    messages: Seq<(int, RequestNotification)>,
    message: RequestNotification,
) -> int
    decreases messages.len(),
{
    if messages.len() == 0 {
        0
    } else {
        count_messages(messages.drop_last(), message) + if messages.last().1 == message {
            1int
        } else {
            0
        }
    }
}

/// The requests that sent a message of the given kind.
pub open spec fn senders(
    messages: Seq<(int, RequestNotification)>,
    message: RequestNotification,
) -> Set<int>
    decreases messages.len(),
{
    if messages.len() == 0 {
        Set::empty()
    } else if messages.last().1 == message {
        senders(messages.drop_last(), message).insert(messages.last().0)
    } else {
        senders(messages.drop_last(), message)
    }
}

/// Each response follows the request that it answers, and no request is answered
/// twice.
pub open spec fn is_orderly(messages: Seq<(int, RequestNotification)>) -> bool {
    forall|j: int|
        0 <= j < messages.len() && (#[trigger] messages[j]).1 is SentResponse ==> {
            &&& senders(messages.take(j), RequestNotification::ReceiveRequest).contains(
                messages[j].0,
            )
            &&& !senders(messages.take(j), RequestNotification::SentResponse).contains(
                messages[j].0,
            )
        }
}

/// The requests that are answered are among those received, and no response is
/// counted twice.
proof fn lemma_senders(messages: Seq<(int, RequestNotification)>)
    requires
        is_orderly(messages),
    ensures
        senders(messages, RequestNotification::SentResponse).subset_of(
            senders(messages, RequestNotification::ReceiveRequest),
        ),
        senders(messages, RequestNotification::ReceiveRequest).finite(),
        senders(messages, RequestNotification::SentResponse).finite(),
        senders(messages, RequestNotification::SentResponse).len() == count_messages(
            messages,
            RequestNotification::SentResponse,
        ),
        senders(messages, RequestNotification::ReceiveRequest).len() <= count_messages(
            messages,
            RequestNotification::ReceiveRequest,
        ),
    decreases messages.len(),
{
    if messages.len() > 0 {
        let before = messages.drop_last();
        assert forall|j: int|
            0 <= j < before.len() && (#[trigger] before[j]).1 is SentResponse implies {
            &&& senders(before.take(j), RequestNotification::ReceiveRequest).contains(before[j].0)
            &&& !senders(before.take(j), RequestNotification::SentResponse).contains(before[j].0)
        } by {
            assert(before[j] == messages[j]);
            assert(before.take(j) =~= messages.take(j));
        }
        lemma_senders(before);
        assert(messages.take(messages.len() - 1) =~= before);
        assert(messages[messages.len() - 1] == messages.last());
    }
}

/// Where each request sends its messages in order, there are never more responses
/// than requests, so that the count of the worker never falls below zero.
pub proof fn law_responses_never_outnumber_requests(messages: Seq<(int, RequestNotification)>)
    requires
        is_orderly(messages),
    ensures
        count_messages(messages, RequestNotification::SentResponse) <= count_messages(
            messages,
            RequestNotification::ReceiveRequest,
        ),
{
    lemma_senders(messages);
    vstd::set_lib::lemma_len_subset(
        senders(messages, RequestNotification::SentResponse),
        senders(messages, RequestNotification::ReceiveRequest),
    );
}

/// The messages among the events, in their order.
pub open spec fn notifications(inputs: Seq<(u64, Event)>) -> Seq<RequestNotification>
    decreases inputs.len(),
{
    if inputs.len() == 0 {
        Seq::empty()
    } else {
        match inputs.last().1 {
            Event::Notified(message) => notifications(inputs.drop_last()).push(message),
            _ => notifications(inputs.drop_last()),
        }
    }
}

/// The number of messages of a kind does not depend on who sent them, nor on what
/// else happened.
proof fn lemma_same_counts(
    inputs: Seq<(u64, Event)>,
    messages: Seq<(int, RequestNotification)>,
    message: RequestNotification,
)
    requires
        notifications(inputs) == messages.map_values(|m: (int, RequestNotification)| m.1),
    ensures
        crate::scaler_laws::messages(inputs, message) == count_messages(messages, message),
    decreases inputs.len(),
{
    let kinds = messages.map_values(|m: (int, RequestNotification)| m.1);
    if inputs.len() > 0 {
        match inputs.last().1 {
            Event::Notified(kind) => {
                assert(kinds.len() == messages.len());
                assert(notifications(inputs.drop_last()) =~= kinds.drop_last());
                assert(messages.drop_last().map_values(|m: (int, RequestNotification)| m.1)
                    =~= kinds.drop_last());
                assert(kinds.last() == kind && messages.last().1 == kind);
                lemma_same_counts(inputs.drop_last(), messages.drop_last(), message);
            },
            _ => {
                lemma_same_counts(inputs.drop_last(), messages, message);
            },
        }
    } else {
        assert(messages.len() == kinds.len());
    }
}

/// A worker that waits always takes the response to a request that it was told of,
/// where each request sends its messages in order.
pub proof fn law_orderly_responses_are_accepted(
    options: ServiceScalerOptions,
    start: u64,
    inputs: Seq<(u64, Event)>,
    messages: Seq<(int, RequestNotification)>,
    request: int,
)
    requires
        is_run(crate::ecs_service_scaler::started(options, start), inputs),
        run(crate::ecs_service_scaler::started(options, start), inputs).stage is Idle,
        notifications(inputs) == messages.map_values(|m: (int, RequestNotification)| m.1),
        is_orderly(messages.push((request, RequestNotification::SentResponse))),
    ensures
        run(crate::ecs_service_scaler::started(options, start), inputs).accepts(
            Event::Notified(RequestNotification::SentResponse),
        ),
{
    let all = messages.push((request, RequestNotification::SentResponse));
    assert(all.drop_last() =~= messages);
    law_responses_never_outnumber_requests(all);
    lemma_same_counts(inputs, messages, RequestNotification::ReceiveRequest);
    lemma_same_counts(inputs, messages, RequestNotification::SentResponse);
    law_alive_connections_are_open_requests(options, start, inputs);
}

} // verus!
