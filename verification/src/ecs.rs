//! What is asked of the ECS and EC2 services, what they answer, and what the
//! answers mean.

use crate::address::IpAddr;
use crate::text::same_text;
use vstd::prelude::*;

verus! {

/// A span of time.
#[derive(Debug, Clone, Copy, PartialEq, Eq, Structural)]
pub struct Period {
    pub secs: u64,
    pub nanos: u32,
}

impl Period {
    /// The span in nanoseconds.
    pub open spec fn in_nanos(self) -> nat {
        (self.secs * 1_000_000_000 + self.nanos) as nat
    }

    /// The span in nanoseconds.
    pub fn as_nanos(&self) -> (r: u128)
        ensures
            r == self.in_nanos(),
            r < 0x1_0000_0000_0000_0000_0000_0000,
    {
        (self.secs as u128) * 1_000_000_000 + (self.nanos as u128)
    }
}

/// Which service is scaled, and how.
#[derive(Debug)]
pub struct ServiceScalerOptions {
    /// The cluster that holds the service; the default cluster where it is `None`.
    pub cluster_name: Option<String>,
    pub service_name: String,
    /// Whether the service is reached at its public address.
    pub use_public_ip: bool,
    /// How long the service is kept running without a request.
    pub scale_down_period: Period,
}

/// A call of ECS or EC2.
#[derive(Debug, PartialEq)]
pub enum Request {
    DescribeServices { cluster: Option<String>, service: String },
    UpdateService { cluster: Option<String>, service: String, desired_count: i32 },
    /// Lists the tasks of the service whose desired status is running.
    ListRunningTasks { cluster: Option<String>, service: String },
    DescribeTasks { cluster: Option<String>, tasks: Vec<String> },
    DescribeNetworkInterfaces { id: String },
}

/// The answer to a call of ECS or EC2.
#[derive(Debug)]
pub enum Reply {
    Services(Vec<Service>),
    Updated,
    TaskArns(Option<Vec<String>>),
    Tasks(Vec<Task>),
    NetworkInterfaces(Vec<NetworkInterface>),
    /// The call failed.
    Failed,
}

/// A service, as `DescribeServices` reports it.
#[derive(Debug)]
pub struct Service {
    pub desired_count: i32,
}

/// The health that ECS reports of a task.
#[derive(Debug, Clone, Copy, PartialEq, Eq, Structural)]
pub enum HealthStatus {
    Healthy,
    Unhealthy,
    Unknown,
}

/// A task, as `DescribeTasks` reports it.
#[derive(Debug)]
pub struct Task {
    pub health_status: Option<HealthStatus>,
    pub attachments: Vec<Attachment>,
}

/// Something that is attached to a task, such as a network interface.
#[derive(Debug)]
pub struct Attachment {
    pub kind: Option<String>,
    pub status: Option<String>,
    pub details: Vec<Detail>,
}

/// A named property of an attachment.
#[derive(Debug)]
pub struct Detail {
    pub name: Option<String>,
    pub value: Option<String>,
}

/// A network interface, as `DescribeNetworkInterfaces` reports it.
#[derive(Debug)]
pub struct NetworkInterface {
    pub association: Option<Association>,
}

/// The association of a network interface with a public address.
#[derive(Debug)]
pub struct Association {
    pub public_ip: Option<String>,
}

/// Why an attempt to scale the service, or to find its address, did not succeed.
#[derive(Debug, Clone, Copy, PartialEq, Eq, Structural)]
pub enum ScalerError {
    /// A call of ECS or EC2 failed.
    CallFailed,
    /// The specified service is not found.
    ServiceNotFound,
    /// Multiple services are found.
    MultipleServices,
    /// The attached interface does not say its `networkInterfaceId`.
    NoInterfaceId,
    /// The interface has no public address.
    NoPublicAddress,
    /// The attached interface does not say its `privateIPv4Address`.
    NoPrivateAddress,
    /// The text that was given as an address is none.
    NotAnAddress,
}

/// What is known of the tasks of the service.
#[derive(Debug, Clone, Copy, PartialEq, Eq, Structural)]
pub enum TaskStatus {
    Healthy,
    Unhealthy,
    NoTask,
}

/// A copy of an optional text.
fn copy_text(text: &Option<String>) -> (r: Option<String>)
    ensures
        r == *text,
{
    match text {
        Some(text) => Some(text.clone()),
        None => None,
    }
}

/// The optional text is there and reads `expected`.
pub open spec fn reads(text: Option<String>, expected: Seq<char>) -> bool {
    text is Some && text->0@ == expected
}

/// Whether the optional text is there and reads `expected`.
fn text_reads(text: &Option<String>, expected: &str) -> (r: bool)
    ensures
        r == reads(*text, expected@),
{
    match text {
        Some(text) => same_text(text.as_str(), expected),
        None => false,
    }
}

// ---------------------------------------------------------------------------
// Scaling up and down
// ---------------------------------------------------------------------------

/// The call that asks for the state of the service.
pub open spec fn describe_services_call(options: ServiceScalerOptions) -> Request {
    Request::DescribeServices { cluster: options.cluster_name, service: options.service_name }
}

/// The call that sets how many tasks of the service shall run.
pub open spec fn update_service_call(options: ServiceScalerOptions, desired_count: i32) -> Request {
    Request::UpdateService {
        cluster: options.cluster_name,
        service: options.service_name,
        desired_count,
    }
}

/// Asks for the state of the service.
pub fn describe_services(options: &ServiceScalerOptions) -> (r: Request)
    ensures
        r == describe_services_call(*options),
{
    Request::DescribeServices {
        cluster: copy_text(&options.cluster_name),
        service: options.service_name.clone(),
    }
}

/// Sets how many tasks of the service shall run.
pub fn update_service(options: &ServiceScalerOptions, desired_count: i32) -> (r: Request)
    ensures
        r == update_service_call(*options, desired_count),
{
    Request::UpdateService {
        cluster: copy_text(&options.cluster_name),
        service: options.service_name.clone(),
        desired_count,
    }
}

/// How scaling up goes on.
#[derive(Debug, PartialEq)]
pub enum ScaleUpStep {
    Call(Request),
    Done,
    Failed(ScalerError),
}

/// The reply can come while the service is scaled up.
pub open spec fn answers_scale_up(reply: Reply) -> bool {
    reply is Services || reply is Updated || reply is Failed
}

/// How scaling up goes on after `reply`: the one service that is found is set to
/// one task where it is meant to have fewer, and left alone otherwise.
pub open spec fn after_scale_up_reply(options: ServiceScalerOptions, reply: Reply) -> ScaleUpStep {
    match reply {
        Reply::Services(services) => if services@.len() == 0 {
            ScaleUpStep::Failed(ScalerError::ServiceNotFound)
        } else if services@.len() > 1 {
            ScaleUpStep::Failed(ScalerError::MultipleServices)
        } else if services@[0].desired_count < 1 {
            ScaleUpStep::Call(update_service_call(options, 1))
        } else {
            ScaleUpStep::Done
        },
        Reply::Updated => ScaleUpStep::Done,
        _ => ScaleUpStep::Failed(ScalerError::CallFailed),
    }
}

/// Scales the service up, one reply at a time. It starts with `describe_services`.
pub fn scale_up_service(options: &ServiceScalerOptions, reply: Reply) -> (r: ScaleUpStep)
    requires
        answers_scale_up(reply),
    ensures
        r == after_scale_up_reply(*options, reply),
{
    match reply {
        Reply::Services(services) => {
            if services.len() == 0 {
                ScaleUpStep::Failed(ScalerError::ServiceNotFound)
            } else if services.len() > 1 {
                ScaleUpStep::Failed(ScalerError::MultipleServices)
            } else if services[0].desired_count < 1 {
                ScaleUpStep::Call(update_service(options, 1))
            } else {
                ScaleUpStep::Done
            }
        },
        Reply::Updated => ScaleUpStep::Done,
        _ => ScaleUpStep::Failed(ScalerError::CallFailed),
    }
}

/// Scales the service down: the call that sets it to no task.
pub fn scale_down_service(options: &ServiceScalerOptions) -> (r: Request)
    ensures
        r == update_service_call(*options, 0),
{
    update_service(options, 0)
}

// ---------------------------------------------------------------------------
// The state of the tasks
// ---------------------------------------------------------------------------

/// The call that lists the running tasks of the service.
pub open spec fn list_tasks_call(options: ServiceScalerOptions) -> Request {
    Request::ListRunningTasks { cluster: options.cluster_name, service: options.service_name }
}

/// The call that asks for the state of tasks.
pub open spec fn describe_tasks_call(options: ServiceScalerOptions, tasks: Vec<String>) -> Request {
    Request::DescribeTasks { cluster: options.cluster_name, tasks }
}

/// Lists the running tasks of the service.
pub fn list_running_tasks(options: &ServiceScalerOptions) -> (r: Request)
    ensures
        r == list_tasks_call(*options),
{
    Request::ListRunningTasks {
        cluster: copy_text(&options.cluster_name),
        service: options.service_name.clone(),
    }
}

/// The list names at least one task.
pub open spec fn names_a_task(arns: Option<Vec<String>>) -> bool {
    arns is Some && arns->0@.len() > 0
}

/// ECS reports the task as healthy.
pub open spec fn is_healthy(task: Task) -> bool {
    task.health_status == Some(HealthStatus::Healthy)
}

/// One of the tasks is healthy.
pub open spec fn any_healthy(tasks: Seq<Task>) -> bool {
    exists|i: int| 0 <= i < tasks.len() && is_healthy(#[trigger] tasks[i])
}

/// How asking for the state of the tasks goes on.
#[derive(Debug, PartialEq)]
pub enum TaskStatusStep {
    Call(Request),
    Done(TaskStatus),
    Failed(ScalerError),
}

/// The reply can come while the state of the tasks is asked for.
pub open spec fn answers_task_status(reply: Reply) -> bool {
    reply is TaskArns || reply is Tasks || reply is Failed
}

/// How asking for the state of the tasks goes on after `reply`: the listed tasks
/// are described, and are healthy where one of them is.
pub open spec fn after_task_status_reply(
    options: ServiceScalerOptions,
    reply: Reply,
) -> TaskStatusStep {
    match reply {
        Reply::TaskArns(arns) => if names_a_task(arns) {
            TaskStatusStep::Call(describe_tasks_call(options, arns->0))
        } else {
            TaskStatusStep::Done(TaskStatus::NoTask)
        },
        Reply::Tasks(tasks) => if any_healthy(tasks@) {
            TaskStatusStep::Done(TaskStatus::Healthy)
        } else {
            TaskStatusStep::Done(TaskStatus::Unhealthy)
        },
        _ => TaskStatusStep::Failed(ScalerError::CallFailed),
    }
}

/// Whether one of the tasks is healthy.
fn has_healthy_task(tasks: &Vec<Task>) -> (r: bool)
    ensures
        r == any_healthy(tasks@),
{
    let n: usize = tasks.len();
    for i in 0..n
        invariant
            n == tasks@.len(),
            forall|j: int| 0 <= j < i ==> !is_healthy(#[trigger] tasks@[j]),
    {
        match tasks[i].health_status {
            Some(HealthStatus::Healthy) => {
                assert(is_healthy(tasks@[i as int]));
                return true;
            },
            _ => {},
        }
    }
    false
}

/// Asks for the state of the tasks, one reply at a time. It starts with
/// `list_running_tasks`.
pub fn get_task_status(options: &ServiceScalerOptions, reply: Reply) -> (r: TaskStatusStep)
    requires
        answers_task_status(reply),
    ensures
        r == after_task_status_reply(*options, reply),
{
    match reply {
        Reply::TaskArns(Some(arns)) => {
            if arns.is_empty() {
                TaskStatusStep::Done(TaskStatus::NoTask)
            } else {
                TaskStatusStep::Call(
                    Request::DescribeTasks {
                        cluster: copy_text(&options.cluster_name),
                        tasks: arns,
                    },
                )
            }
        },
        Reply::TaskArns(None) => TaskStatusStep::Done(TaskStatus::NoTask),
        Reply::Tasks(tasks) => {
            if has_healthy_task(&tasks) {
                TaskStatusStep::Done(TaskStatus::Healthy)
            } else {
                TaskStatusStep::Done(TaskStatus::Unhealthy)
            }
        },
        _ => TaskStatusStep::Failed(ScalerError::CallFailed),
    }
}

// ---------------------------------------------------------------------------
// The address of the service
// ---------------------------------------------------------------------------

/// The attachment is a network interface that is attached.
pub open spec fn is_attached_interface(attachment: Attachment) -> bool {
    reads(attachment.kind, "ElasticNetworkInterface"@) && reads(attachment.status, "ATTACHED"@)
}

/// The first attached network interface among the attachments.
pub open spec fn first_interface(attachments: Seq<Attachment>) -> Option<Attachment>
    decreases attachments.len(),
{
    if attachments.len() == 0 {
        None
    } else if is_attached_interface(attachments[0]) {
        Some(attachments[0])
    } else {
        first_interface(attachments.drop_first())
    }
}

/// The first attached network interface of the tasks, in their order.
pub open spec fn task_interface(tasks: Seq<Task>) -> Option<Attachment>
    decreases tasks.len(),
{
    if tasks.len() == 0 {
        None
    } else if first_interface(tasks[0].attachments@) is Some {
        first_interface(tasks[0].attachments@)
    } else {
        task_interface(tasks.drop_first())
    }
}

/// The value of the first detail with the given name that has a value.
pub open spec fn detail_value(details: Seq<Detail>, name: Seq<char>) -> Option<String>
    decreases details.len(),
{
    if details.len() == 0 {
        None
    } else if reads(details[0].name, name) && details[0].value is Some {
        details[0].value
    } else {
        detail_value(details.drop_first(), name)
    }
}

/// The public address of an interface.
pub open spec fn public_ip_of(interface: NetworkInterface) -> Option<String> {
    match interface.association {
        Some(association) => association.public_ip,
        None => None,
    }
}

/// The first public address among the interfaces.
pub open spec fn first_public_ip(interfaces: Seq<NetworkInterface>) -> Option<String>
    decreases interfaces.len(),
{
    if interfaces.len() == 0 {
        None
    } else if public_ip_of(interfaces[0]) is Some {
        public_ip_of(interfaces[0])
    } else {
        first_public_ip(interfaces.drop_first())
    }
}

/// How asking for the address of the service goes on.
#[derive(Debug, PartialEq)]
pub enum ServiceIpStep {
    Call(Request),
    /// The text has to be read as an address.
    Parse(String),
    /// The address of the service; `None` where it has none yet.
    Done(Option<IpAddr>),
    Failed(ScalerError),
}

/// An answer that can come while the address of the service is asked for.
#[derive(Debug)]
pub enum ServiceIpEvent {
    Reply(Reply),
    /// What a text reads as; `None` where it is no address.
    Parsed(Option<IpAddr>),
}

/// The event can come while the address of the service is asked for.
pub open spec fn answers_service_ip(event: ServiceIpEvent) -> bool {
    match event {
        ServiceIpEvent::Reply(reply) => reply is TaskArns || reply is Tasks
            || reply is NetworkInterfaces || reply is Failed,
        ServiceIpEvent::Parsed(_) => true,
    }
}

/// What is asked next about the network interface of the service: the public
/// address that EC2 knows, or the private address that ECS already said.
pub open spec fn after_interface(use_public_ip: bool, interface: Attachment) -> ServiceIpStep {
    if use_public_ip {
        match detail_value(interface.details@, "networkInterfaceId"@) {
            Some(id) => ServiceIpStep::Call(Request::DescribeNetworkInterfaces { id }),
            None => ServiceIpStep::Failed(ScalerError::NoInterfaceId),
        }
    } else {
        match detail_value(interface.details@, "privateIPv4Address"@) {
            Some(address) => ServiceIpStep::Parse(address),
            None => ServiceIpStep::Failed(ScalerError::NoPrivateAddress),
        }
    }
}

/// How asking for the address of the service goes on after `event`.
pub open spec fn after_service_ip_event(
    options: ServiceScalerOptions,
    event: ServiceIpEvent,
) -> ServiceIpStep {
    match event {
        ServiceIpEvent::Reply(Reply::TaskArns(arns)) => if names_a_task(arns) {
            ServiceIpStep::Call(describe_tasks_call(options, arns->0))
        } else {
            ServiceIpStep::Done(None)
        },
        ServiceIpEvent::Reply(Reply::Tasks(tasks)) => match task_interface(tasks@) {
            Some(interface) => after_interface(options.use_public_ip, interface),
            None => ServiceIpStep::Done(None),
        },
        ServiceIpEvent::Reply(Reply::NetworkInterfaces(interfaces)) => match first_public_ip(
            interfaces@,
        ) {
            Some(address) => ServiceIpStep::Parse(address),
            None => ServiceIpStep::Failed(ScalerError::NoPublicAddress),
        },
        ServiceIpEvent::Reply(_) => ServiceIpStep::Failed(ScalerError::CallFailed),
        ServiceIpEvent::Parsed(Some(addr)) => ServiceIpStep::Done(Some(addr)),
        ServiceIpEvent::Parsed(None) => ServiceIpStep::Failed(ScalerError::NotAnAddress),
    }
}

/// The first attached network interface of the tasks, in their order.
fn find_interface(tasks: &Vec<Task>) -> (r: Option<&Attachment>)
    ensures
        match r {
            Some(interface) => task_interface(tasks@) == Some(*interface),
            None => task_interface(tasks@) is None,
        },
{
    let n: usize = tasks.len();
    assert(tasks@.skip(0) =~= tasks@);
    for i in 0..n
        invariant
            n == tasks@.len(),
            task_interface(tasks@) == task_interface(tasks@.skip(i as int)),
    {
        let attachments = &tasks[i].attachments;
        let m: usize = attachments.len();
        assert(tasks@.skip(i as int).drop_first() =~= tasks@.skip(i + 1));
        assert(attachments@.skip(0) =~= attachments@);
        for k in 0..m
            invariant
                i < n == tasks@.len(),
                m == attachments@.len(),
                *attachments == tasks@[i as int].attachments,
                task_interface(tasks@) == task_interface(tasks@.skip(i as int)),
                first_interface(attachments@) == first_interface(attachments@.skip(k as int)),
        {
            let attachment = &attachments[k];
            assert(attachments@.skip(k as int).drop_first() =~= attachments@.skip(k + 1));
            if text_reads(&attachment.kind, "ElasticNetworkInterface") && text_reads(
                &attachment.status,
                "ATTACHED",
            ) {
                return Some(attachment);
            }
        }
        assert(attachments@.skip(m as int).len() == 0);
    }
    assert(tasks@.skip(n as int).len() == 0);
    None
}

/// The value of the first detail with the given name that has a value.
fn find_detail(details: &Vec<Detail>, name: &str) -> (r: Option<String>)
    ensures
        r == detail_value(details@, name@),
{
    let n: usize = details.len();
    assert(details@.skip(0) =~= details@);
    for i in 0..n
        invariant
            n == details@.len(),
            detail_value(details@, name@) == detail_value(details@.skip(i as int), name@),
    {
        let detail = &details[i];
        assert(details@.skip(i as int).drop_first() =~= details@.skip(i + 1));
        if text_reads(&detail.name, name) {
            match &detail.value {
                Some(value) => {
                    return Some(value.clone());
                },
                None => {},
            }
        }
    }
    assert(details@.skip(n as int).len() == 0);
    None
}

/// The first public address among the interfaces.
fn find_public_ip(interfaces: &Vec<NetworkInterface>) -> (r: Option<String>)
    ensures
        r == first_public_ip(interfaces@),
{
    let n: usize = interfaces.len();
    assert(interfaces@.skip(0) =~= interfaces@);
    for i in 0..n
        invariant
            n == interfaces@.len(),
            first_public_ip(interfaces@) == first_public_ip(interfaces@.skip(i as int)),
    {
        assert(interfaces@.skip(i as int).drop_first() =~= interfaces@.skip(i + 1));
        match &interfaces[i].association {
            Some(association) => match &association.public_ip {
                Some(address) => {
                    return Some(address.clone());
                },
                None => {},
            },
            None => {},
        }
    }
    assert(interfaces@.skip(n as int).len() == 0);
    None
}

/// What is asked next about the network interface of the service.
fn address_of_interface(options: &ServiceScalerOptions, interface: &Attachment) -> (r:
    ServiceIpStep)
    ensures
        r == after_interface(options.use_public_ip, *interface),
{
    if options.use_public_ip {
        match find_detail(&interface.details, "networkInterfaceId") {
            Some(id) => ServiceIpStep::Call(Request::DescribeNetworkInterfaces { id }),
            None => ServiceIpStep::Failed(ScalerError::NoInterfaceId),
        }
    } else {
        match find_detail(&interface.details, "privateIPv4Address") {
            Some(address) => ServiceIpStep::Parse(address),
            None => ServiceIpStep::Failed(ScalerError::NoPrivateAddress),
        }
    }
}

/// Asks for the address of the service, one answer at a time. It starts with
/// `list_running_tasks`.
pub fn get_service_ip(options: &ServiceScalerOptions, event: ServiceIpEvent) -> (r: ServiceIpStep)
    requires
        answers_service_ip(event),
    ensures
        r == after_service_ip_event(*options, event),
{
    match event {
        ServiceIpEvent::Reply(Reply::TaskArns(Some(arns))) => {
            if arns.is_empty() {
                ServiceIpStep::Done(None)
            } else {
                ServiceIpStep::Call(
                    Request::DescribeTasks {
                        cluster: copy_text(&options.cluster_name),
                        tasks: arns,
                    },
                )
            }
        },
        ServiceIpEvent::Reply(Reply::TaskArns(None)) => ServiceIpStep::Done(None),
        ServiceIpEvent::Reply(Reply::Tasks(tasks)) => match find_interface(&tasks) {
            Some(interface) => address_of_interface(options, interface),
            None => ServiceIpStep::Done(None),
        },
        ServiceIpEvent::Reply(Reply::NetworkInterfaces(interfaces)) => match find_public_ip(
            &interfaces,
        ) {
            Some(address) => ServiceIpStep::Parse(address),
            None => ServiceIpStep::Failed(ScalerError::NoPublicAddress),
        },
        ServiceIpEvent::Reply(_) => ServiceIpStep::Failed(ScalerError::CallFailed),
        ServiceIpEvent::Parsed(Some(addr)) => ServiceIpStep::Done(Some(addr)),
        ServiceIpEvent::Parsed(None) => ServiceIpStep::Failed(ScalerError::NotAnAddress),
    }
}

} // verus!
