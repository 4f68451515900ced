//! What holds of every answer of ECS and EC2, said of the entries of the answers.

use crate::address::IpAddr;
use crate::ecs::{
    Attachment, Detail, HealthStatus, NetworkInterface, Period, Reply, Request, ScaleUpStep,
    ScalerError, Service, ServiceIpEvent, ServiceIpStep, ServiceScalerOptions, Task, TaskStatus,
    TaskStatusStep,
};
use vstd::prelude::*;

verus! {

/// A span has a thousand million nanoseconds for each second, and its nanoseconds.
pub proof fn law_period_in_nanos(period: Period)
    ensures
        period.in_nanos() == 1_000_000_000 * (period.secs as int) + (period.nanos as int),
{
}

// ---------------------------------------------------------------------------
// Scaling up
// ---------------------------------------------------------------------------

/// Exactly one service must be found. It is told to run one task where it is meant
/// to run none, with the cluster and the name of the options, and is otherwise left
/// as it is.
pub proof fn law_scale_up_changes_one_stopped_service(
    options: ServiceScalerOptions,
    services: Vec<Service>,
)
    ensures
        ({
            let step = crate::ecs::after_scale_up_reply(options, Reply::Services(services));
            &&& services@.len() == 0 <==> step == ScaleUpStep::Failed(ScalerError::ServiceNotFound)
            &&& services@.len() >= 2 <==> step == ScaleUpStep::Failed(
                ScalerError::MultipleServices,
            )
            &&& services@.len() == 1 && services@[0].desired_count >= 1 <==> step
                == ScaleUpStep::Done
            &&& services@.len() == 1 && services@[0].desired_count <= 0 <==> step
                == ScaleUpStep::Call(
                Request::UpdateService {
                    cluster: options.cluster_name,
                    service: options.service_name,
                    desired_count: 1,
                },
            )
        }),
{
}

/// Scaling up is done once the service is updated, and fails with a call that fails.
pub proof fn law_scale_up_ends(options: ServiceScalerOptions)
    ensures
        crate::ecs::after_scale_up_reply(options, Reply::Updated) == ScaleUpStep::Done,
        crate::ecs::after_scale_up_reply(options, Reply::Failed) == ScaleUpStep::Failed(
            ScalerError::CallFailed,
        ),
{
}

/// Every call names the cluster and the service of the options.
pub proof fn law_calls_name_the_service(options: ServiceScalerOptions, count: i32)
    ensures
        crate::ecs::describe_services_call(options) == (Request::DescribeServices {
            cluster: options.cluster_name,
            service: options.service_name,
        }),
        crate::ecs::list_tasks_call(options) == (Request::ListRunningTasks {
            cluster: options.cluster_name,
            service: options.service_name,
        }),
        crate::ecs::update_service_call(options, count) == (Request::UpdateService {
            cluster: options.cluster_name,
            service: options.service_name,
            desired_count: count,
        }),
{
}

/// Every reply to a call is taken by the procedure that made the call.
pub proof fn law_replies_are_taken(
    services: Vec<Service>,
    arns: Option<Vec<String>>,
    tasks: Vec<Task>,
    interfaces: Vec<NetworkInterface>,
    addr: Option<IpAddr>,
)
    ensures
        crate::ecs::answers_scale_up(Reply::Services(services)),
        crate::ecs::answers_scale_up(Reply::Updated),
        crate::ecs::answers_scale_up(Reply::Failed),
        crate::ecs::answers_task_status(Reply::TaskArns(arns)),
        crate::ecs::answers_task_status(Reply::Tasks(tasks)),
        crate::ecs::answers_task_status(Reply::Failed),
        crate::ecs::answers_service_ip(ServiceIpEvent::Reply(Reply::TaskArns(arns))),
        crate::ecs::answers_service_ip(ServiceIpEvent::Reply(Reply::Tasks(tasks))),
        crate::ecs::answers_service_ip(
            ServiceIpEvent::Reply(Reply::NetworkInterfaces(interfaces)),
        ),
        crate::ecs::answers_service_ip(ServiceIpEvent::Reply(Reply::Failed)),
        crate::ecs::answers_service_ip(ServiceIpEvent::Parsed(addr)),
{
}

// ---------------------------------------------------------------------------
// The state of the tasks
// ---------------------------------------------------------------------------

/// One healthy task is enough, wherever it stands among the tasks.
pub proof fn law_one_healthy_task_is_enough(
    options: ServiceScalerOptions,
    tasks: Vec<Task>,
    i: int,
)
    requires
        0 <= i < tasks@.len(),
        tasks@[i].health_status == Some(HealthStatus::Healthy),
    ensures
        crate::ecs::any_healthy(tasks@),
        crate::ecs::after_task_status_reply(options, Reply::Tasks(tasks)) == TaskStatusStep::Done(
            TaskStatus::Healthy,
        ),
{
    assert(crate::ecs::is_healthy(tasks@[i]));
}

/// Without a healthy task, be there tasks or not, the tasks are unhealthy.
pub proof fn law_no_healthy_task_is_unhealthy(options: ServiceScalerOptions, tasks: Vec<Task>)
    requires
        forall|i: int|
            0 <= i < tasks@.len() ==> (#[trigger] tasks@[i]).health_status != Some(
                HealthStatus::Healthy,
            ),
    ensures
        !crate::ecs::any_healthy(tasks@),
        crate::ecs::after_task_status_reply(options, Reply::Tasks(tasks)) == TaskStatusStep::Done(
            TaskStatus::Unhealthy,
        ),
{
}

/// All tasks that are listed are described; where none is listed there is no task,
/// and no address.
pub proof fn law_listed_tasks_are_described(options: ServiceScalerOptions, arns: Vec<String>)
    ensures
        ({
            let status = crate::ecs::after_task_status_reply(
                options,
                Reply::TaskArns(Some(arns)),
            );
            let address = crate::ecs::after_service_ip_event(
                options,
                ServiceIpEvent::Reply(Reply::TaskArns(Some(arns))),
            );
            let describe = Request::DescribeTasks { cluster: options.cluster_name, tasks: arns };
            &&& arns@.len() > 0 ==> status == TaskStatusStep::Call(describe)
            &&& arns@.len() > 0 ==> address == ServiceIpStep::Call(describe)
            &&& arns@.len() == 0 ==> status == TaskStatusStep::Done(TaskStatus::NoTask)
            &&& arns@.len() == 0 ==> address == ServiceIpStep::Done(None)
        }),
        crate::ecs::after_task_status_reply(options, Reply::TaskArns(None))
            == TaskStatusStep::Done(TaskStatus::NoTask),
        crate::ecs::after_service_ip_event(options, ServiceIpEvent::Reply(Reply::TaskArns(None)))
            == ServiceIpStep::Done(None),
{
}

/// A call that fails ends the procedure that made it.
pub proof fn law_failed_calls_end_procedures(options: ServiceScalerOptions)
    ensures
        crate::ecs::after_task_status_reply(options, Reply::Failed) == TaskStatusStep::Failed(
            ScalerError::CallFailed,
        ),
        crate::ecs::after_service_ip_event(options, ServiceIpEvent::Reply(Reply::Failed))
            == ServiceIpStep::Failed(ScalerError::CallFailed),
{
}

// ---------------------------------------------------------------------------
// The address of the service
// ---------------------------------------------------------------------------

/// The attachment says that it is a network interface and that it is attached.
pub open spec fn says_attached(attachment: Attachment) -> bool {
    &&& attachment.kind matches Some(kind) && kind@ == "ElasticNetworkInterface"@
    &&& attachment.status matches Some(status) && status@ == "ATTACHED"@
}

/// The detail has the name, and a value.
pub open spec fn says(detail: Detail, name: Seq<char>) -> bool {
    &&& detail.name matches Some(own) && own@ == name
    &&& detail.value is Some
}

/// Attachment `a` of task `t` is the first that says it is an attached network
/// interface, counting the attachments of one task after the other.
pub open spec fn is_first_attached(tasks: Seq<Task>, t: int, a: int) -> bool {
    &&& 0 <= t < tasks.len()
    &&& 0 <= a < tasks[t].attachments@.len()
    &&& says_attached(tasks[t].attachments@[a])
    &&& forall|i: int, j: int|
        0 <= i < tasks.len() && 0 <= j < tasks[i].attachments@.len() && (i < t || i == t && j < a)
            ==> !says_attached(#[trigger] tasks[i].attachments@[j])
}

/// Detail `d` is the first with the name and a value.
pub open spec fn is_first_said(details: Seq<Detail>, name: Seq<char>, d: int) -> bool {
    &&& 0 <= d < details.len()
    &&& says(details[d], name)
    &&& forall|e: int| 0 <= e < d ==> !says(#[trigger] details[e], name)
}

/// None of the details has the name and a value.
pub open spec fn is_not_said(details: Seq<Detail>, name: Seq<char>) -> bool {
    forall|e: int| 0 <= e < details.len() ==> !says(#[trigger] details[e], name)
}

proof fn lemma_first_interface(attachments: Seq<Attachment>, a: int)
    requires
        0 <= a < attachments.len(),
        says_attached(attachments[a]),
        forall|j: int| 0 <= j < a ==> !says_attached(#[trigger] attachments[j]),
    ensures
        crate::ecs::first_interface(attachments) == Some(attachments[a]),
    decreases a,
{
    if a > 0 {
        let rest = attachments.drop_first();
        assert(!says_attached(attachments[0]));
        assert forall|j: int| 0 <= j < a - 1 implies !says_attached(#[trigger] rest[j]) by {
            assert(rest[j] == attachments[j + 1]);
        }
        assert(rest[a - 1] == attachments[a]);
        lemma_first_interface(rest, a - 1);
    }
}

proof fn lemma_no_interface(attachments: Seq<Attachment>)
    requires
        forall|j: int| 0 <= j < attachments.len() ==> !says_attached(#[trigger] attachments[j]),
    ensures
        crate::ecs::first_interface(attachments) is None,
    decreases attachments.len(),
{
    if attachments.len() > 0 {
        let rest = attachments.drop_first();
        assert(!says_attached(attachments[0]));
        assert forall|j: int| 0 <= j < rest.len() implies !says_attached(#[trigger] rest[j]) by {
            assert(rest[j] == attachments[j + 1]);
        }
        lemma_no_interface(rest);
    }
}

/// The interface that is taken is the first attached one of the tasks.
pub proof fn law_first_attached_interface_is_taken(tasks: Seq<Task>, t: int, a: int)
    requires
        is_first_attached(tasks, t, a),
    ensures
        crate::ecs::task_interface(tasks) == Some(tasks[t].attachments@[a]),
    decreases t,
{
    if t == 0 {
        let attachments = tasks[0].attachments@;
        assert forall|j: int| 0 <= j < a implies !says_attached(#[trigger] attachments[j]) by {
            assert(!says_attached(tasks[0].attachments@[j]));
        }
        lemma_first_interface(attachments, a);
    } else {
        let rest = tasks.drop_first();
        let attachments = tasks[0].attachments@;
        assert forall|j: int| 0 <= j < attachments.len() implies !says_attached(
            #[trigger] attachments[j],
        ) by {
            assert(!says_attached(tasks[0].attachments@[j]));
        }
        lemma_no_interface(attachments);
        assert(rest[t - 1] == tasks[t]);
        assert forall|i: int, j: int|
            0 <= i < rest.len() && 0 <= j < rest[i].attachments@.len() && (i < t - 1 || i == t - 1
                && j < a) implies !says_attached(#[trigger] rest[i].attachments@[j]) by {
            assert(rest[i] == tasks[i + 1]);
            assert(!says_attached(tasks[i + 1].attachments@[j]));
        }
        law_first_attached_interface_is_taken(rest, t - 1, a);
    }
}

/// A service none of whose tasks has an attached network interface has no address
/// yet.
pub proof fn law_no_attached_interface_is_no_address(
    options: ServiceScalerOptions,
    tasks: Vec<Task>,
)
    requires
        forall|i: int, j: int|
            0 <= i < tasks@.len() && 0 <= j < tasks@[i].attachments@.len() ==> !says_attached(
                #[trigger] tasks@[i].attachments@[j],
            ),
    ensures
        crate::ecs::after_service_ip_event(options, ServiceIpEvent::Reply(Reply::Tasks(tasks)))
            == ServiceIpStep::Done(None),
{
    lemma_no_task_interface(tasks@);
}

proof fn lemma_no_task_interface(tasks: Seq<Task>)
    requires
        forall|i: int, j: int|
            0 <= i < tasks.len() && 0 <= j < tasks[i].attachments@.len() ==> !says_attached(
                #[trigger] tasks[i].attachments@[j],
            ),
    ensures
        crate::ecs::task_interface(tasks) is None,
    decreases tasks.len(),
{
    if tasks.len() > 0 {
        let rest = tasks.drop_first();
        let attachments = tasks[0].attachments@;
        assert forall|j: int| 0 <= j < attachments.len() implies !says_attached(
            #[trigger] attachments[j],
        ) by {
            assert(!says_attached(tasks[0].attachments@[j]));
        }
        lemma_no_interface(attachments);
        assert forall|i: int, j: int|
            0 <= i < rest.len() && 0 <= j < rest[i].attachments@.len() implies !says_attached(
            #[trigger] rest[i].attachments@[j],
        ) by {
            assert(rest[i] == tasks[i + 1]);
            assert(!says_attached(tasks[i + 1].attachments@[j]));
        }
        lemma_no_task_interface(rest);
    }
}

proof fn lemma_first_said(details: Seq<Detail>, name: Seq<char>, d: int)
    requires
        is_first_said(details, name, d),
    ensures
        crate::ecs::detail_value(details, name) == details[d].value,
    decreases d,
{
    if d > 0 {
        let rest = details.drop_first();
        assert(!says(details[0], name));
        assert forall|e: int| 0 <= e < d - 1 implies !says(#[trigger] rest[e], name) by {
            assert(rest[e] == details[e + 1]);
        }
        assert(rest[d - 1] == details[d]);
        lemma_first_said(rest, name, d - 1);
    }
}

proof fn lemma_not_said(details: Seq<Detail>, name: Seq<char>)
    requires
        is_not_said(details, name),
    ensures
        crate::ecs::detail_value(details, name) is None,
    decreases details.len(),
{
    if details.len() > 0 {
        let rest = details.drop_first();
        assert(!says(details[0], name));
        assert forall|e: int| 0 <= e < rest.len() implies !says(#[trigger] rest[e], name) by {
            assert(rest[e] == details[e + 1]);
        }
        lemma_not_said(rest, name);
    }
}

/// Without a wish for the public address, the text that is read as the address is
/// the value of the first detail of the first attached interface that is named
/// `privateIPv4Address` and has a value, wherever it stands; it fails only where
/// there is none.
pub proof fn law_private_address_is_found(
    options: ServiceScalerOptions,
    tasks: Vec<Task>,
    t: int,
    a: int,
    d: int,
)
    requires
        !options.use_public_ip,
        is_first_attached(tasks@, t, a),
    ensures
        ({
            let details = tasks@[t].attachments@[a].details@;
            let step = crate::ecs::after_service_ip_event(
                options,
                ServiceIpEvent::Reply(Reply::Tasks(tasks)),
            );
            &&& is_first_said(details, "privateIPv4Address"@, d) ==> step == ServiceIpStep::Parse(
                details[d].value->0,
            )
            &&& is_not_said(details, "privateIPv4Address"@) <==> step == ServiceIpStep::Failed(
                ScalerError::NoPrivateAddress,
            )
        }),
{
    let details = tasks@[t].attachments@[a].details@;
    law_first_attached_interface_is_taken(tasks@, t, a);
    lemma_said_or_not(details, "privateIPv4Address"@);
    if is_first_said(details, "privateIPv4Address"@, d) {
        lemma_first_said(details, "privateIPv4Address"@, d);
    }
    if is_not_said(details, "privateIPv4Address"@) {
        lemma_not_said(details, "privateIPv4Address"@);
    }
}

/// With a wish for the public address, EC2 is asked about the interface that the
/// first detail of the first attached interface that is named `networkInterfaceId`
/// and has a value names, wherever it stands; it fails only where there is none.
pub proof fn law_interface_id_is_found(
    options: ServiceScalerOptions,
    tasks: Vec<Task>,
    t: int,
    a: int,
    d: int,
)
    requires
        options.use_public_ip,
        is_first_attached(tasks@, t, a),
    ensures
        ({
            let details = tasks@[t].attachments@[a].details@;
            let step = crate::ecs::after_service_ip_event(
                options,
                ServiceIpEvent::Reply(Reply::Tasks(tasks)),
            );
            &&& is_first_said(details, "networkInterfaceId"@, d) ==> step == ServiceIpStep::Call(
                Request::DescribeNetworkInterfaces { id: details[d].value->0 },
            )
            &&& is_not_said(details, "networkInterfaceId"@) <==> step == ServiceIpStep::Failed(
                ScalerError::NoInterfaceId,
            )
        }),
{
    let details = tasks@[t].attachments@[a].details@;
    law_first_attached_interface_is_taken(tasks@, t, a);
    lemma_said_or_not(details, "networkInterfaceId"@);
    if is_first_said(details, "networkInterfaceId"@, d) {
        lemma_first_said(details, "networkInterfaceId"@, d);
    }
    if is_not_said(details, "networkInterfaceId"@) {
        lemma_not_said(details, "networkInterfaceId"@);
    }
}

/// Where a name is said at all, there is a first detail that says it, and the lookup
/// finds a value.
proof fn lemma_said_or_not(details: Seq<Detail>, name: Seq<char>)
    ensures
        is_not_said(details, name) || exists|d: int| is_first_said(details, name, d),
        !is_not_said(details, name) ==> crate::ecs::detail_value(details, name) is Some,
    decreases details.len(),
{
    if !is_not_said(details, name) {
        let e = choose|e: int| 0 <= e < details.len() && says(#[trigger] details[e], name);
        lemma_least_said(details, name, e);
        let d = choose|d: int| is_first_said(details, name, d);
        lemma_first_said(details, name, d);
    }
}

proof fn lemma_least_said(details: Seq<Detail>, name: Seq<char>, e: int)
    requires
        0 <= e < details.len(),
        says(details[e], name),
    ensures
        exists|d: int| is_first_said(details, name, d),
    decreases e,
{
    if forall|j: int| 0 <= j < e ==> !says(#[trigger] details[j], name) {
        assert(is_first_said(details, name, e));
    } else {
        let j = choose|j: int| 0 <= j < e && says(#[trigger] details[j], name);
        lemma_least_said(details, name, j);
    }
}

/// The interface is associated with a public address.
pub open spec fn is_public(interface: NetworkInterface) -> bool {
    interface.association matches Some(association) && association.public_ip is Some
}

/// The text that is read as the public address is that of the first interface that
/// is associated with one, wherever it stands.
pub proof fn law_public_address_is_found(
    options: ServiceScalerOptions,
    interfaces: Vec<NetworkInterface>,
    i: int,
)
    requires
        0 <= i < interfaces@.len(),
        is_public(interfaces@[i]),
        forall|j: int| 0 <= j < i ==> !is_public(#[trigger] interfaces@[j]),
    ensures
        crate::ecs::after_service_ip_event(
            options,
            ServiceIpEvent::Reply(Reply::NetworkInterfaces(interfaces)),
        ) == ServiceIpStep::Parse(interfaces@[i].association->0.public_ip->0),
{
    lemma_first_public(interfaces@, i);
}

/// Asking for the public address fails where no interface is associated with one.
pub proof fn law_no_public_address_fails(
    options: ServiceScalerOptions,
    interfaces: Vec<NetworkInterface>,
)
    requires
        forall|j: int| 0 <= j < interfaces@.len() ==> !is_public(#[trigger] interfaces@[j]),
    ensures
        crate::ecs::after_service_ip_event(
            options,
            ServiceIpEvent::Reply(Reply::NetworkInterfaces(interfaces)),
        ) == ServiceIpStep::Failed(ScalerError::NoPublicAddress),
{
    lemma_no_public(interfaces@);
}

proof fn lemma_first_public(interfaces: Seq<NetworkInterface>, i: int)
    requires
        0 <= i < interfaces.len(),
        is_public(interfaces[i]),
        forall|j: int| 0 <= j < i ==> !is_public(#[trigger] interfaces[j]),
    ensures
        crate::ecs::first_public_ip(interfaces) == interfaces[i].association->0.public_ip,
    decreases i,
{
    if i > 0 {
        let rest = interfaces.drop_first();
        assert(!is_public(interfaces[0]));
        assert forall|j: int| 0 <= j < i - 1 implies !is_public(#[trigger] rest[j]) by {
            assert(rest[j] == interfaces[j + 1]);
        }
        assert(rest[i - 1] == interfaces[i]);
        lemma_first_public(rest, i - 1);
    }
}

proof fn lemma_no_public(interfaces: Seq<NetworkInterface>)
    requires
        forall|j: int| 0 <= j < interfaces.len() ==> !is_public(#[trigger] interfaces[j]),
    ensures
        crate::ecs::first_public_ip(interfaces) is None,
    decreases interfaces.len(),
{
    if interfaces.len() > 0 {
        let rest = interfaces.drop_first();
        assert(!is_public(interfaces[0]));
        assert forall|j: int| 0 <= j < rest.len() implies !is_public(#[trigger] rest[j]) by {
            assert(rest[j] == interfaces[j + 1]);
        }
        lemma_no_public(rest);
    }
}

/// The address that a text reads as is the address of the service, and a text that
/// is no address fails.
pub proof fn law_read_address_is_the_address(options: ServiceScalerOptions, addr: IpAddr)
    ensures
        crate::ecs::after_service_ip_event(options, ServiceIpEvent::Parsed(Some(addr)))
            == ServiceIpStep::Done(Some(addr)),
        crate::ecs::after_service_ip_event(options, ServiceIpEvent::Parsed(None))
            == ServiceIpStep::Failed(ScalerError::NotAnAddress),
{
}

} // verus!
