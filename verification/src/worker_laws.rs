//! What each event does to the worker, said of the fields of its state and of its
//! options, and how soon an unused service is stopped.

use crate::address::IpAddr;
use crate::ecs::{
    HealthStatus, NetworkInterface, Reply, Request, ScalerError, Service, ServiceScalerOptions,
    Task,
};
use crate::ecs_service_scaler::{
    Action, Event, Purpose, RequestAction, RequestEvent, RequestGuard, RequestNotification,
    RequestWait, ServiceScaler, ServiceStatus, Stage, TimeoutAction, WaitStep,
};
use vstd::prelude::*;

verus! {

// ---------------------------------------------------------------------------
// What changes and what does not
// ---------------------------------------------------------------------------

/// At its start the worker knows of no request, takes the service to be unhealthy,
/// and waits for messages with a health check due at once.
pub proof fn law_worker_starts_with_health_check(options: ServiceScalerOptions, now: u64)
    ensures
        ({
            let scaler = crate::ecs_service_scaler::started(options, now);
            let step = scaler.waiting(None).1;
            &&& scaler.waiting(None).0 == scaler
            &&& scaler.options == options
            &&& scaler.alive_connections == 0
            &&& scaler.next_health_check_time == now
            &&& scaler.scale_down_time is None
            &&& scaler.status is Unhealthy
            &&& scaler.stage is Idle
            &&& step.failure is None
            &&& step.action == (Action::Select {
                timeout: TimeoutAction::HealthCheck,
                until: now as u128,
            })
        }),
{
}

/// Each request adds one to the count, each response takes one off, and nothing else
/// changes it. Nothing changes the options.
pub proof fn law_count_follows_messages(scaler: ServiceScaler, now: u64, event: Event)
    requires
        scaler.accepts(event),
    ensures
        ({
            let after = scaler.next(now, event).0;
            &&& after.options == scaler.options
            &&& event == Event::Notified(RequestNotification::ReceiveRequest)
                ==> after.alive_connections == scaler.alive_connections + 1
            &&& event == Event::Notified(RequestNotification::SentResponse)
                ==> after.alive_connections == scaler.alive_connections - 1
            &&& !(event is Notified) ==> after.alive_connections == scaler.alive_connections
        }),
{
}

/// The service is stopped exactly a configured period after the response that left
/// no request alive: not earlier, and not later.
pub proof fn law_last_response_sets_exact_deadline(scaler: ServiceScaler, now: u64)
    requires
        scaler.stage is Idle,
        scaler.alive_connections == 1,
    ensures
        ({
            let (after, step) = scaler.next(
                now,
                Event::Notified(RequestNotification::SentResponse),
            );
            let period = scaler.options.scale_down_period;
            &&& scaler.accepts(Event::Notified(RequestNotification::SentResponse))
            &&& after.scale_down_time is Some
            &&& after.scale_down_time->0 == now + period.secs * 1_000_000_000 + period.nanos
            &&& after.alive_connections == 0
            &&& after.stage is Idle
            &&& after.status == scaler.status
            &&& step.action matches Action::Select { until, .. } && until <= now + period.secs
                * 1_000_000_000 + period.nanos
        }),
{
}

/// While requests are alive no time to scale down is set, whatever message came.
pub proof fn law_open_requests_clear_deadline(
    scaler: ServiceScaler,
    now: u64,
    message: RequestNotification,
)
    requires
        scaler.accepts(Event::Notified(message)),
        message is ReceiveRequest || scaler.alive_connections >= 2,
        scaler.alive_connections >= 0,
    ensures
        scaler.next(now, Event::Notified(message)).0.scale_down_time is None,
{
}

/// Apart from messages, the time to scale down is cleared when the scale down
/// begins, set to a configured period from now where a health check finds a healthy
/// service without requests and no time is set, and otherwise left as it is.
pub proof fn law_deadline_is_left_alone(scaler: ServiceScaler, now: u64, event: Event)
    requires
        scaler.accepts(event),
        !(event is Notified),
    ensures
        ({
            let after = scaler.next(now, event).0;
            let period = scaler.options.scale_down_period;
            if event is Timeout && scaler.scale_down_time is Some && scaler.scale_down_time->0
                <= scaler.next_health_check_time {
                after.scale_down_time is None
            } else if event is Published && scaler.stage == Stage::Publish(Purpose::HealthCheck)
                && scaler.status is Healthy && scaler.alive_connections <= 0
                && scaler.scale_down_time is None {
                &&& after.scale_down_time is Some
                &&& after.scale_down_time->0 == now + period.secs * 1_000_000_000 + period.nanos
            } else {
                after.scale_down_time == scaler.scale_down_time
            }
        }),
{
}

/// The next health check is thirty seconds after the end of an activity, and is left
/// where it is by everything else.
pub proof fn law_health_check_time_is_thirty_seconds(scaler: ServiceScaler, now: u64, event: Event)
    requires
        scaler.accepts(event),
    ensures
        ({
            let after = scaler.next(now, event).0;
            if !(scaler.stage is Idle) && after.stage is Idle {
                after.next_health_check_time == now + 30_000_000_000
            } else {
                after.next_health_check_time == scaler.next_health_check_time
            }
        }),
{
}

/// The status is what the requests were last told: it changes to what is published,
/// and to unhealthy once the requests have been told of the scale down.
pub proof fn law_status_is_what_was_told(scaler: ServiceScaler, now: u64, event: Event)
    requires
        scaler.accepts(event),
    ensures
        ({
            let (after, step) = scaler.next(now, event);
            match step.action {
                Action::Publish(status) => after.status == status,
                _ => if event == Event::Sent(true) {
                    after.status is Unhealthy
                } else {
                    after.status == scaler.status
                },
            }
        }),
{
}

/// Whenever the worker waits, it waits for the earlier of the health check and the
/// scale down, and for the scale down where they coincide. It takes messages exactly
/// while it waits.
pub proof fn law_worker_waits_for_the_earlier(scaler: ServiceScaler, now: u64, event: Event)
    requires
        scaler.accepts(event),
    ensures
        ({
            let (after, step) = scaler.next(now, event);
            &&& step.action is Select <==> after.stage is Idle
            &&& step.failure is Some ==> step.action is Select
            &&& step.action is Stop <==> after.stage is Stopped
            &&& step.action matches Action::Select { timeout, until } ==> {
                &&& until <= after.next_health_check_time
                &&& after.scale_down_time is Some ==> until <= after.scale_down_time->0
                &&& timeout is ScaleDown ==> after.scale_down_time == Some(until)
                &&& timeout is HealthCheck ==> until == after.next_health_check_time
                &&& timeout is ScaleDown <==> after.scale_down_time is Some
                    && after.scale_down_time->0 <= after.next_health_check_time
            }
        }),
{
}

/// The worker takes messages, timeouts and the end of a channel exactly while it
/// waits. It never takes more responses than it took requests.
pub proof fn law_messages_are_taken_while_waiting(scaler: ServiceScaler)
    ensures
        scaler.accepts(Event::Notified(RequestNotification::ReceiveRequest)) <==> scaler.stage
            is Idle && scaler.alive_connections < isize::MAX,
        scaler.accepts(Event::Notified(RequestNotification::SentResponse)) <==> scaler.stage
            is Idle && scaler.alive_connections >= 1,
        scaler.accepts(Event::Timeout) <==> scaler.stage is Idle,
        scaler.accepts(Event::NotifyClosed) <==> scaler.stage is Idle,
        scaler.accepts(Event::StatusClosed) <==> scaler.stage is Idle,
        scaler.accepts(Event::Slept) <==> scaler.stage is WaitSleep,
        scaler.accepts(Event::Published) <==> scaler.stage is Publish,
        scaler.accepts(Event::Sent(true)) <==> scaler.stage is ScaleDownStatus,
        scaler.accepts(Event::Sent(false)) <==> scaler.stage is ScaleDownStatus,
        scaler.accepts(Event::Parsed(None)) <==> scaler.stage is FindAddress,
{
}

/// The worker ends with the end of a channel, and is otherwise only ended where no
/// one was left to be told of a scale down.
pub proof fn law_worker_ends_only_when_alone(scaler: ServiceScaler, now: u64, event: Event)
    requires
        scaler.accepts(event),
    ensures
        scaler.next(now, event).1.action is Stop <==> event is NotifyClosed || event
            is StatusClosed || event == Event::Sent(false),
{
}

/// A call that fails ends every activity with that failure, and changes neither the
/// status nor the time to scale down.
pub proof fn law_failed_call_ends_activity(scaler: ServiceScaler, now: u64)
    ensures
        ({
            let (after, step) = scaler.next(now, Event::Reply(Reply::Failed));
            &&& scaler.accepts(Event::Reply(Reply::Failed)) <==> scaler.stage is ScaleUp
                || scaler.stage is WaitHealthy || scaler.stage is CheckTasks || scaler.stage
                is FindAddress || scaler.stage is ScaleDown
            &&& scaler.accepts(Event::Reply(Reply::Failed)) ==> after.stage is Idle && step.failure
                == Some(ScalerError::CallFailed) && after.status == scaler.status
                && after.scale_down_time == scaler.scale_down_time
        }),
{
}

// ---------------------------------------------------------------------------
// Messages and timeouts
// ---------------------------------------------------------------------------

/// A message that leaves requests alive has the state of an unhealthy service asked
/// for, so that it is started, and leaves a service with any other status alone.
pub proof fn law_message_starts_only_unhealthy_service(
    scaler: ServiceScaler,
    now: u64,
    message: RequestNotification,
)
    requires
        scaler.accepts(Event::Notified(message)),
        message is ReceiveRequest || scaler.alive_connections >= 2,
        scaler.alive_connections >= 0,
    ensures
        ({
            let (after, step) = scaler.next(now, Event::Notified(message));
            &&& step.failure is None
            &&& after.status == scaler.status
            &&& scaler.status is Unhealthy ==> after.stage is ScaleUp && step.action
                == Action::Call(
                Request::DescribeServices {
                    cluster: scaler.options.cluster_name,
                    service: scaler.options.service_name,
                },
            )
            &&& !(scaler.status is Unhealthy) ==> after.stage is Idle && step.action == (
            Action::Select {
                timeout: TimeoutAction::HealthCheck,
                until: scaler.next_health_check_time,
            })
        }),
{
}

/// A timeout begins the scale down where its time is set and not behind that of the
/// health check, and a health check otherwise.
pub proof fn law_timeout_does_what_is_due(scaler: ServiceScaler, now: u64)
    requires
        scaler.stage is Idle,
    ensures
        ({
            let (after, step) = scaler.next(now, Event::Timeout);
            &&& scaler.accepts(Event::Timeout)
            &&& step.failure is None
            &&& if scaler.scale_down_time is Some && scaler.scale_down_time->0
                <= scaler.next_health_check_time {
                after.stage is ScaleDownStatus && step.action == Action::SendStatus(
                    ServiceStatus::Unhealthy,
                )
            } else {
                after.stage is CheckTasks && step.action == Action::Call(
                    Request::ListRunningTasks {
                        cluster: scaler.options.cluster_name,
                        service: scaler.options.service_name,
                    },
                )
            }
        }),
{
}

/// Once the requests have been told of the scale down, the service is told to run no
/// task; where no one is left to be told, the worker ends and the service is left as
/// it is.
pub proof fn law_told_scale_down_stops_service(scaler: ServiceScaler, now: u64, seen: bool)
    requires
        scaler.stage is ScaleDownStatus,
    ensures
        ({
            let (after, step) = scaler.next(now, Event::Sent(seen));
            &&& step.failure is None
            &&& seen ==> after.stage is ScaleDown && step.action == Action::Call(
                Request::UpdateService {
                    cluster: scaler.options.cluster_name,
                    service: scaler.options.service_name,
                    desired_count: 0,
                },
            )
            &&& !seen ==> after.stage is Stopped && step.action is Stop
        }),
{
}

/// The scale down ends with the reply to the update, and reports whether it failed.
pub proof fn law_scale_down_ends_with_reply(scaler: ServiceScaler, now: u64, reply: Reply)
    requires
        scaler.stage is ScaleDown,
        reply is Updated || reply is Failed,
    ensures
        ({
            let (after, step) = scaler.next(now, Event::Reply(reply));
            &&& scaler.accepts(Event::Reply(reply))
            &&& after.stage is Idle
            &&& reply is Updated ==> step.failure is None
            &&& reply is Failed ==> step.failure == Some(ScalerError::CallFailed)
        }),
{
}

/// Only the service of the options is ever changed. It is told to run one task by a
/// reply while it is scaled up, to run none once the requests have been told of it,
/// and never any other number.
pub proof fn law_service_is_told_zero_or_one(scaler: ServiceScaler, now: u64, event: Event)
    requires
        scaler.accepts(event),
    ensures
        scaler.next(now, event).1.action matches Action::Call(
            Request::UpdateService { cluster, service, desired_count },
        ) ==> {
            &&& cluster == scaler.options.cluster_name
            &&& service == scaler.options.service_name
            &&& desired_count == 1 && scaler.stage is ScaleUp && event is Reply || desired_count
                == 0 && scaler.stage is ScaleDownStatus && event == Event::Sent(true)
        },
{
}

// ---------------------------------------------------------------------------
// Scaling up
// ---------------------------------------------------------------------------

/// What the worker does with the service that it is told of while it scales up.
pub proof fn law_scale_up_follows_described_service(
    scaler: ServiceScaler,
    now: u64,
    services: Vec<Service>,
)
    requires
        scaler.stage is ScaleUp,
    ensures
        ({
            let (after, step) = scaler.next(now, Event::Reply(Reply::Services(services)));
            &&& scaler.accepts(Event::Reply(Reply::Services(services)))
            &&& services@.len() == 0 ==> after.stage is Idle && step.failure == Some(
                ScalerError::ServiceNotFound,
            )
            &&& services@.len() >= 2 ==> after.stage is Idle && step.failure == Some(
                ScalerError::MultipleServices,
            )
            &&& services@.len() == 1 ==> step.failure is None
            &&& services@.len() == 1 && services@[0].desired_count <= 0 ==> after.stage is ScaleUp
                && step.action == Action::Call(
                Request::UpdateService {
                    cluster: scaler.options.cluster_name,
                    service: scaler.options.service_name,
                    desired_count: 1,
                },
            )
            &&& services@.len() == 1 && services@[0].desired_count >= 1 ==> after.stage
                is WaitHealthy && step.action == Action::Call(
                Request::ListRunningTasks {
                    cluster: scaler.options.cluster_name,
                    service: scaler.options.service_name,
                },
            )
        }),
{
}

/// After the update, and after each pause, the worker lists the running tasks.
pub proof fn law_started_service_is_looked_at(scaler: ServiceScaler, now: u64)
    ensures
        ({
            let list = Action::Call(
                Request::ListRunningTasks {
                    cluster: scaler.options.cluster_name,
                    service: scaler.options.service_name,
                },
            );
            let updated = scaler.next(now, Event::Reply(Reply::Updated));
            let slept = scaler.next(now, Event::Slept);
            &&& scaler.stage is ScaleUp ==> scaler.accepts(Event::Reply(Reply::Updated))
                && updated.0.stage is WaitHealthy && updated.1.action == list
                && updated.1.failure is None
            &&& scaler.stage is WaitSleep ==> scaler.accepts(Event::Slept) && slept.0.stage
                is WaitHealthy && slept.1.action == list && slept.1.failure is None
        }),
{
}

/// A service that starts is ready where any of its tasks is healthy, and is otherwise
/// looked at again five seconds later.
pub proof fn law_wait_is_five_seconds()
    ensures
        crate::ecs_service_scaler::after_look(crate::ecs::TaskStatus::Healthy) is Ready,
        crate::ecs_service_scaler::after_look(crate::ecs::TaskStatus::Unhealthy)
            == WaitStep::Again(5),
        crate::ecs_service_scaler::after_look(crate::ecs::TaskStatus::NoTask) == WaitStep::Again(
            5,
        ),
{
}

/// One healthy task, wherever it stands among the tasks, ends the wait for a service
/// that is starting, and has a health check go on to the address.
pub proof fn law_healthy_task_leads_to_address(
    scaler: ServiceScaler,
    now: u64,
    tasks: Vec<Task>,
    i: int,
)
    requires
        scaler.stage is WaitHealthy || scaler.stage is CheckTasks,
        0 <= i < tasks@.len(),
        tasks@[i].health_status == Some(HealthStatus::Healthy),
    ensures
        ({
            let (after, step) = scaler.next(now, Event::Reply(Reply::Tasks(tasks)));
            &&& scaler.accepts(Event::Reply(Reply::Tasks(tasks)))
            &&& scaler.stage is WaitHealthy ==> after.stage == Stage::FindAddress(Purpose::ScaleUp)
            &&& scaler.stage is CheckTasks ==> after.stage == Stage::FindAddress(
                Purpose::HealthCheck,
            )
            &&& step.failure is None
            &&& step.action == Action::Call(
                Request::ListRunningTasks {
                    cluster: scaler.options.cluster_name,
                    service: scaler.options.service_name,
                },
            )
        }),
{
    crate::ecs_laws::law_one_healthy_task_is_enough(scaler.options, tasks, i);
}

/// Without a healthy task a service that is starting is looked at again five seconds
/// later, and a health check tells the requests that the service is unhealthy.
pub proof fn law_without_healthy_task(scaler: ServiceScaler, now: u64, tasks: Vec<Task>)
    requires
        scaler.stage is WaitHealthy || scaler.stage is CheckTasks,
        forall|i: int|
            0 <= i < tasks@.len() ==> (#[trigger] tasks@[i]).health_status != Some(
                HealthStatus::Healthy,
            ),
    ensures
        ({
            let (after, step) = scaler.next(now, Event::Reply(Reply::Tasks(tasks)));
            &&& scaler.accepts(Event::Reply(Reply::Tasks(tasks)))
            &&& step.failure is None
            &&& scaler.stage is WaitHealthy ==> after.stage is WaitSleep && step.action
                == Action::Sleep(5)
            &&& scaler.stage is CheckTasks ==> after.stage == Stage::Publish(Purpose::HealthCheck)
                && step.action == Action::Publish(ServiceStatus::Unhealthy)
        }),
{
    crate::ecs_laws::law_no_healthy_task_is_unhealthy(scaler.options, tasks);
}

/// The tasks that are listed are all described. Where none is listed, a service that
/// is starting is looked at again five seconds later, a health check tells the
/// requests that the service is unhealthy, and where the address was asked for, that
/// there is none.
pub proof fn law_listed_tasks_are_described(
    scaler: ServiceScaler,
    now: u64,
    arns: Option<Vec<String>>,
)
    requires
        scaler.stage is WaitHealthy || scaler.stage is CheckTasks || scaler.stage is FindAddress,
    ensures
        ({
            let (after, step) = scaler.next(now, Event::Reply(Reply::TaskArns(arns)));
            &&& scaler.accepts(Event::Reply(Reply::TaskArns(arns)))
            &&& step.failure is None
            &&& arns is Some && arns->0@.len() > 0 ==> after.stage == scaler.stage && step.action
                == Action::Call(
                Request::DescribeTasks { cluster: scaler.options.cluster_name, tasks: arns->0 },
            )
            &&& arns is None || arns->0@.len() == 0 ==> {
                &&& scaler.stage is WaitHealthy ==> after.stage is WaitSleep && step.action
                    == Action::Sleep(5)
                &&& scaler.stage is CheckTasks ==> after.stage == Stage::Publish(
                    Purpose::HealthCheck,
                ) && step.action == Action::Publish(ServiceStatus::Unhealthy)
                &&& scaler.stage matches Stage::FindAddress(purpose) ==> after.stage
                    == Stage::Publish(purpose) && step.action == Action::Publish(
                    ServiceStatus::NoIP,
                )
            }
        }),
{
}

// ---------------------------------------------------------------------------
// The address
// ---------------------------------------------------------------------------

/// The private address that is read is the value of the first detail of the first
/// attached interface that is named `privateIPv4Address` and has a value.
pub proof fn law_worker_reads_private_address(
    scaler: ServiceScaler,
    now: u64,
    tasks: Vec<Task>,
    t: int,
    a: int,
    d: int,
)
    requires
        scaler.stage is FindAddress,
        !scaler.options.use_public_ip,
        crate::ecs_laws::is_first_attached(tasks@, t, a),
    ensures
        ({
            let details = tasks@[t].attachments@[a].details@;
            let (after, step) = scaler.next(now, Event::Reply(Reply::Tasks(tasks)));
            &&& crate::ecs_laws::is_first_said(details, "privateIPv4Address"@, d) ==> after.stage
                == scaler.stage && step.action == Action::ParseAddress(details[d].value->0)
            &&& crate::ecs_laws::is_not_said(details, "privateIPv4Address"@) ==> after.stage
                is Idle && step.failure == Some(ScalerError::NoPrivateAddress)
        }),
{
    crate::ecs_laws::law_private_address_is_found(scaler.options, tasks, t, a, d);
}

/// The interface that EC2 is asked about is the one that the first detail of the
/// first attached interface that is named `networkInterfaceId` and has a value names.
pub proof fn law_worker_asks_about_interface(
    scaler: ServiceScaler,
    now: u64,
    tasks: Vec<Task>,
    t: int,
    a: int,
    d: int,
)
    requires
        scaler.stage is FindAddress,
        scaler.options.use_public_ip,
        crate::ecs_laws::is_first_attached(tasks@, t, a),
    ensures
        ({
            let details = tasks@[t].attachments@[a].details@;
            let (after, step) = scaler.next(now, Event::Reply(Reply::Tasks(tasks)));
            &&& crate::ecs_laws::is_first_said(details, "networkInterfaceId"@, d) ==> after.stage
                == scaler.stage && step.action == Action::Call(
                Request::DescribeNetworkInterfaces { id: details[d].value->0 },
            )
            &&& crate::ecs_laws::is_not_said(details, "networkInterfaceId"@) ==> after.stage
                is Idle && step.failure == Some(ScalerError::NoInterfaceId)
        }),
{
    crate::ecs_laws::law_interface_id_is_found(scaler.options, tasks, t, a, d);
}

/// Where no task has an attached interface, the requests are told that there is no
/// address.
pub proof fn law_worker_tells_missing_interface(
    scaler: ServiceScaler,
    purpose: Purpose,
    now: u64,
    tasks: Vec<Task>,
)
    requires
        scaler.stage == Stage::FindAddress(purpose),
        forall|i: int, j: int|
            0 <= i < tasks@.len() && 0 <= j < tasks@[i].attachments@.len()
                ==> !crate::ecs_laws::says_attached(#[trigger] tasks@[i].attachments@[j]),
    ensures
        scaler.next(now, Event::Reply(Reply::Tasks(tasks))).0.stage == Stage::Publish(purpose),
        scaler.next(now, Event::Reply(Reply::Tasks(tasks))).1.action == Action::Publish(
            ServiceStatus::NoIP,
        ),
{
    crate::ecs_laws::law_no_attached_interface_is_no_address(scaler.options, tasks);
}

/// The public address that is read is that of the first interface associated with
/// one.
pub proof fn law_worker_reads_public_address(
    scaler: ServiceScaler,
    now: u64,
    interfaces: Vec<NetworkInterface>,
    i: int,
)
    requires
        scaler.stage is FindAddress,
        0 <= i < interfaces@.len(),
        crate::ecs_laws::is_public(interfaces@[i]),
        forall|j: int|
            0 <= j < i ==> !crate::ecs_laws::is_public(#[trigger] interfaces@[j]),
    ensures
        ({
            let (after, step) = scaler.next(
                now,
                Event::Reply(Reply::NetworkInterfaces(interfaces)),
            );
            &&& after.stage == scaler.stage
            &&& step.action == Action::ParseAddress(interfaces@[i].association->0.public_ip->0)
        }),
{
    crate::ecs_laws::law_public_address_is_found(scaler.options, interfaces, i);
}

/// Where no interface is associated with a public address, the activity fails.
pub proof fn law_worker_misses_public_address(
    scaler: ServiceScaler,
    now: u64,
    interfaces: Vec<NetworkInterface>,
)
    requires
        scaler.stage is FindAddress,
        forall|j: int|
            0 <= j < interfaces@.len() ==> !crate::ecs_laws::is_public(#[trigger] interfaces@[j]),
    ensures
        ({
            let (after, step) = scaler.next(
                now,
                Event::Reply(Reply::NetworkInterfaces(interfaces)),
            );
            &&& after.stage is Idle
            &&& step.failure == Some(ScalerError::NoPublicAddress)
        }),
{
    crate::ecs_laws::law_no_public_address_fails(scaler.options, interfaces);
}

/// The requests are told the address that was read; a text that is no address fails
/// the activity.
pub proof fn law_read_address_is_told(
    scaler: ServiceScaler,
    purpose: Purpose,
    now: u64,
    addr: IpAddr,
)
    requires
        scaler.stage == Stage::FindAddress(purpose),
    ensures
        ({
            let (after, step) = scaler.next(now, Event::Parsed(Some(addr)));
            let (failed, failure) = scaler.next(now, Event::Parsed(None));
            &&& scaler.accepts(Event::Parsed(Some(addr)))
            &&& scaler.accepts(Event::Parsed(None))
            &&& after.stage == Stage::Publish(purpose)
            &&& step.failure is None
            &&& step.action == Action::Publish(ServiceStatus::Healthy(addr))
            &&& failed.stage is Idle
            &&& failure.failure == Some(ScalerError::NotAnAddress)
        }),
{
}

/// Once the requests have been told the status, the worker waits again.
pub proof fn law_told_status_ends_activity(scaler: ServiceScaler, now: u64)
    requires
        scaler.stage is Publish,
    ensures
        scaler.accepts(Event::Published),
        scaler.next(now, Event::Published).0.stage is Idle,
        scaler.next(now, Event::Published).1.failure is None,
{
}

// ---------------------------------------------------------------------------
// How soon an unused service is stopped
// ---------------------------------------------------------------------------

/// Every beginning of a run is a run, and its last event was taken.
proof fn lemma_run_prefix(scaler: ServiceScaler, inputs: Seq<(u64, Event)>, m: int)
    requires
        crate::scaler_laws::is_run(scaler, inputs),
        0 <= m <= inputs.len(),
    ensures
        crate::scaler_laws::is_run(scaler, inputs.take(m)),
        m > 0 ==> inputs.take(m).drop_last() == inputs.take(m - 1) && inputs.take(m).last()
            == inputs[m - 1] && crate::scaler_laws::run(scaler, inputs.take(m - 1)).accepts(
            inputs[m - 1].1,
        ),
    decreases inputs.len(),
{
    if m > 0 {
        assert(inputs.take(m).drop_last() =~= inputs.take(m - 1));
    }
    if m == inputs.len() {
        assert(inputs.take(m) =~= inputs);
        if m > 0 {
            assert(inputs.drop_last() =~= inputs.take(m - 1));
        }
    } else {
        let before = inputs.drop_last();
        lemma_run_prefix(scaler, before, m);
        assert(before.take(m) =~= inputs.take(m));
        if m > 0 {
            assert(before.take(m - 1) =~= inputs.take(m - 1));
            assert(before[m - 1] == inputs[m - 1]);
        }
    }
}

/// The scale down began after one of the events behind event `r`.
pub open spec fn begun_behind(scaler: ServiceScaler, inputs: Seq<(u64, Event)>, r: int) -> bool {
    exists|k: int|
        r + 1 < k <= inputs.len() && (#[trigger] crate::scaler_laws::run(
            scaler,
            inputs.take(k),
        )).stage is ScaleDownStatus
}

/// Event `r` is the response that left no request alive, and no message follows it.
pub open spec fn is_last_response(inputs: Seq<(u64, Event)>, r: int) -> bool {
    &&& 0 <= r < inputs.len()
    &&& inputs[r].1 == Event::Notified(RequestNotification::SentResponse)
    &&& crate::scaler_laws::open_requests(inputs.take(r + 1)) == 0
    &&& forall|k: int| r < k < inputs.len() ==> !((#[trigger] inputs[k]).1 is Notified)
}

/// From the response that left no request alive until the scale down begins, the
/// time to scale down is exactly a configured period behind that response, whatever
/// else happens meanwhile.
pub proof fn law_deadline_is_kept_over_run(
    options: ServiceScalerOptions,
    start: u64,
    inputs: Seq<(u64, Event)>,
    r: int,
    m: int,
)
    requires
        crate::scaler_laws::is_run(
            crate::ecs_service_scaler::started(options, start),
            inputs,
        ),
        is_last_response(inputs, r),
        r < m <= inputs.len(),
    ensures
        begun_behind(crate::ecs_service_scaler::started(options, start), inputs, r) || ({
            let time = crate::scaler_laws::run(
                crate::ecs_service_scaler::started(options, start),
                inputs.take(m),
            ).scale_down_time;
            &&& time is Some
            &&& time->0 == inputs[r].0 + options.scale_down_period.secs * 1_000_000_000
                + options.scale_down_period.nanos
        }),
    decreases m,
{
    let scaler = crate::ecs_service_scaler::started(options, start);
    lemma_run_prefix(scaler, inputs, m);
    lemma_run_prefix(scaler, inputs, m - 1);
    let before = crate::scaler_laws::run(scaler, inputs.take(m - 1));
    let after = crate::scaler_laws::run(scaler, inputs.take(m));
    crate::scaler_laws::law_run_keeps_invariant(scaler, inputs.take(m - 1));
    assert(after == before.next(inputs[m - 1].0, inputs[m - 1].1).0);
    if m == r + 1 {
        crate::scaler_laws::law_alive_connections_are_open_requests(
            options,
            start,
            inputs.take(r + 1),
        );
        law_count_follows_messages(before, inputs[r].0, inputs[r].1);
        law_last_response_sets_exact_deadline(before, inputs[r].0);
    } else {
        law_deadline_is_kept_over_run(options, start, inputs, r, m - 1);
        law_deadline_is_left_alone(before, inputs[m - 1].0, inputs[m - 1].1);
        if inputs[m - 1].1 is Timeout {
            law_timeout_does_what_is_due(before, inputs[m - 1].0);
        }
        if after.stage is ScaleDownStatus {
            assert(begun_behind(scaler, inputs, r));
        }
    }
}

/// Behind a timeout at which a health check began, a worker that waits has its next
/// health check later than that timeout.
proof fn lemma_check_is_behind_timeout(
    scaler: ServiceScaler,
    inputs: Seq<(u64, Event)>,
    r: int,
    i: int,
    m: int,
)
    requires
        crate::scaler_laws::is_run(scaler, inputs),
        crate::scaler_laws::is_clocked(scaler, inputs),
        0 <= r < i < m <= inputs.len(),
        inputs[i].1 is Timeout,
        !begun_behind(scaler, inputs, r),
    ensures
        crate::scaler_laws::run(scaler, inputs.take(m)).stage is Idle ==> crate::scaler_laws::run(
            scaler,
            inputs.take(m),
        ).next_health_check_time >= inputs[i].0,
    decreases m,
{
    lemma_run_prefix(scaler, inputs, m);
    let before = crate::scaler_laws::run(scaler, inputs.take(m - 1));
    let after = crate::scaler_laws::run(scaler, inputs.take(m));
    assert(after == before.next(inputs[m - 1].0, inputs[m - 1].1).0);
    law_health_check_time_is_thirty_seconds(before, inputs[m - 1].0, inputs[m - 1].1);
    assert(inputs[i].0 <= inputs[m - 1].0);
    if m == i + 1 {
        law_timeout_does_what_is_due(before, inputs[i].0);
    } else {
        lemma_check_is_behind_timeout(scaler, inputs, r, i, m - 1);
    }
}

/// An unused service is stopped: in a run by the clock with no message behind the
/// last response, the scale down has begun at the latest with the second timeout
/// that comes when a configured period has passed. Only one can be that of a health
/// check.
pub proof fn law_unused_service_is_stopped(
    options: ServiceScalerOptions,
    start: u64,
    inputs: Seq<(u64, Event)>,
    r: int,
    i: int,
    j: int,
)
    requires
        crate::scaler_laws::is_run(crate::ecs_service_scaler::started(options, start), inputs),
        crate::scaler_laws::is_clocked(
            crate::ecs_service_scaler::started(options, start),
            inputs,
        ),
        is_last_response(inputs, r),
        r < i < j < inputs.len(),
        inputs[i].1 is Timeout,
        inputs[j].1 is Timeout,
        inputs[i].0 >= inputs[r].0 + options.scale_down_period.secs * 1_000_000_000
            + options.scale_down_period.nanos,
    ensures
        begun_behind(crate::ecs_service_scaler::started(options, start), inputs, r),
{
    let scaler = crate::ecs_service_scaler::started(options, start);
    if !begun_behind(scaler, inputs, r) {
        lemma_run_prefix(scaler, inputs, j + 1);
        let before = crate::scaler_laws::run(scaler, inputs.take(j));
        law_deadline_is_kept_over_run(options, start, inputs, r, j);
        lemma_check_is_behind_timeout(scaler, inputs, r, i, j);
        law_timeout_does_what_is_due(before, inputs[j].0);
        assert(crate::scaler_laws::run(scaler, inputs.take(j + 1)).stage is ScaleDownStatus);
    }
}

/// A timeout at the due time stops an unused service at once: in a run with no
/// message behind the last response, a timeout begins the scale down unless a health
/// check is due before a configured period has passed.
pub proof fn law_due_timeout_stops_unused_service(
    options: ServiceScalerOptions,
    start: u64,
    inputs: Seq<(u64, Event)>,
    r: int,
    i: int,
)
    requires
        crate::scaler_laws::is_run(crate::ecs_service_scaler::started(options, start), inputs),
        is_last_response(inputs, r),
        r < i < inputs.len(),
        inputs[i].1 is Timeout,
        crate::scaler_laws::run(
            crate::ecs_service_scaler::started(options, start),
            inputs.take(i),
        ).next_health_check_time >= inputs[r].0 + options.scale_down_period.secs * 1_000_000_000
            + options.scale_down_period.nanos,
    ensures
        begun_behind(crate::ecs_service_scaler::started(options, start), inputs, r),
{
    let scaler = crate::ecs_service_scaler::started(options, start);
    if !begun_behind(scaler, inputs, r) {
        lemma_run_prefix(scaler, inputs, i + 1);
        law_deadline_is_kept_over_run(options, start, inputs, r, i);
        law_timeout_does_what_is_due(
            crate::scaler_laws::run(scaler, inputs.take(i)),
            inputs[i].0,
        );
        assert(crate::scaler_laws::run(scaler, inputs.take(i + 1)).stage is ScaleDownStatus);
    }
}

// ---------------------------------------------------------------------------
// The requests
// ---------------------------------------------------------------------------

/// A request that was counted looks at the status, goes on to the address of a
/// healthy service, and otherwise waits for a change and looks again; it fails where
/// the worker is gone.
pub proof fn law_request_waits_for_healthy_service(addr: IpAddr)
    ensures
        RequestWait::Notifying.next(RequestEvent::Notified(true)) == (
            RequestWait::Looking,
            RequestAction::ReadStatus,
        ),
        RequestWait::Looking.next(RequestEvent::Status(ServiceStatus::Healthy(addr))) == (
            RequestWait::Granted,
            RequestAction::Grant(RequestGuard { addr }),
        ),
        RequestWait::Looking.next(RequestEvent::Status(ServiceStatus::NoIP)) == (
            RequestWait::Waiting,
            RequestAction::AwaitChange,
        ),
        RequestWait::Looking.next(RequestEvent::Status(ServiceStatus::Unhealthy)) == (
            RequestWait::Waiting,
            RequestAction::AwaitChange,
        ),
        RequestWait::Waiting.next(RequestEvent::Changed(true)) == (
            RequestWait::Looking,
            RequestAction::ReadStatus,
        ),
        RequestWait::Waiting.next(RequestEvent::Changed(false)) == (
            RequestWait::Abandoned,
            RequestAction::Fail,
        ),
        RequestWait::Notifying.next(RequestEvent::Notified(false)) == (
            RequestWait::Refused,
            RequestAction::Fail,
        ),
{
}

/// Once the requests have been told a status, what they see says the same as it, and
/// they are woken exactly where what they saw before did not. To tell them again
/// changes nothing.
pub proof fn law_told_status_is_seen(current: ServiceStatus, status: ServiceStatus)
    ensures
        ({
            let (seen, modified) = crate::ecs_service_scaler::told(current, status);
            &&& seen.same(status)
            &&& modified ==> seen == status && !current.same(seen)
            &&& !modified ==> seen == current && current.same(status)
            &&& crate::ecs_service_scaler::told(seen, status) == (seen, false)
        }),
{
}

/// A request that waits is one that was not yet told of a healthy service: it waits
/// with a status that is unhealthy or without an address, and with no other.
pub proof fn law_request_waits_only_without_address(wait: RequestWait, event: RequestEvent)
    requires
        wait.accepts(event),
        wait.next(event).1 is AwaitChange,
    ensures
        event == RequestEvent::Status(ServiceStatus::NoIP) || event == RequestEvent::Status(
            ServiceStatus::Unhealthy,
        ),
{
}

/// Two statuses say the same exactly where both are unhealthy, both are without an
/// address, or both name an address of one family with one text.
pub proof fn law_same_status_says_the_same(a: String, b: String)
    ensures
        ServiceStatus::Unhealthy.same(ServiceStatus::Unhealthy),
        ServiceStatus::NoIP.same(ServiceStatus::NoIP),
        !ServiceStatus::NoIP.same(ServiceStatus::Unhealthy),
        !ServiceStatus::Unhealthy.same(ServiceStatus::NoIP),
        ServiceStatus::Healthy(IpAddr::V4(a)).same(ServiceStatus::Healthy(IpAddr::V4(b))) <==> a@
            == b@,
        ServiceStatus::Healthy(IpAddr::V6(a)).same(ServiceStatus::Healthy(IpAddr::V6(b))) <==> a@
            == b@,
        !ServiceStatus::Healthy(IpAddr::V4(a)).same(ServiceStatus::Healthy(IpAddr::V6(b))),
        !ServiceStatus::Healthy(IpAddr::V6(a)).same(ServiceStatus::Healthy(IpAddr::V4(b))),
        !ServiceStatus::Healthy(IpAddr::V4(a)).same(ServiceStatus::NoIP),
        !ServiceStatus::Healthy(IpAddr::V6(a)).same(ServiceStatus::NoIP),
        !ServiceStatus::Healthy(IpAddr::V4(a)).same(ServiceStatus::Unhealthy),
        !ServiceStatus::Healthy(IpAddr::V6(a)).same(ServiceStatus::Unhealthy),
{
}

} // verus!
