//! The worker that scales the service, and the requests that wait for it.

use crate::address::IpAddr;
use crate::ecs::{
    describe_services, get_service_ip, get_task_status, list_running_tasks, scale_down_service,
    scale_up_service, Reply, Request, ScaleUpStep, ScalerError, ServiceIpEvent, ServiceIpStep,
    ServiceScalerOptions, TaskStatus, TaskStatusStep,
};
use vstd::prelude::*;

verus! {

/// The time between two health checks, in nanoseconds.
pub const HEALTH_CHECK_PERIOD: u64 = 30_000_000_000;

/// The time between two looks at a service that is starting, in seconds.
pub const HEALTHY_POLL_SECS: u64 = 5;

/// What the requests are told of the service.
#[derive(Debug)]
pub enum ServiceStatus {
    /// The service can be reached at the address.
    Healthy(IpAddr),
    /// The service is healthy but no address is attached.
    NoIP,
    Unhealthy,
}

impl ServiceStatus {
    /// The two say the same of the service.
    pub open spec fn same(self, other: ServiceStatus) -> bool {
        match (self, other) {
            (ServiceStatus::Healthy(a), ServiceStatus::Healthy(b)) => a.same(b),
            (ServiceStatus::NoIP, ServiceStatus::NoIP) => true,
            (ServiceStatus::Unhealthy, ServiceStatus::Unhealthy) => true,
            _ => false,
        }
    }
}

impl Clone for ServiceStatus {
    fn clone(&self) -> (r: Self)
        ensures
            r == *self,
    {
        match self {
            ServiceStatus::Healthy(addr) => ServiceStatus::Healthy(addr.clone()),
            ServiceStatus::NoIP => ServiceStatus::NoIP,
            ServiceStatus::Unhealthy => ServiceStatus::Unhealthy,
        }
    }
}

impl PartialEq for ServiceStatus {
    fn eq(&self, other: &Self) -> (r: bool) {
        match (self, other) {
            (ServiceStatus::Healthy(a), ServiceStatus::Healthy(b)) => *a == *b,
            (ServiceStatus::NoIP, ServiceStatus::NoIP) => true,
            (ServiceStatus::Unhealthy, ServiceStatus::Unhealthy) => true,
            _ => false,
        }
    }
}

impl vstd::std_specs::cmp::PartialEqSpecImpl for ServiceStatus {
    open spec fn obeys_eq_spec() -> bool {
        true
    }

    open spec fn eq_spec(&self, other: &Self) -> bool {
        self.same(*other)
    }
}

/// The status that the requests see once they have been told `status`, and whether it
/// was modified: it is left alone where it already says the same.
pub open spec fn told(current: ServiceStatus, status: ServiceStatus) -> (ServiceStatus, bool) {
    if current.same(status) {
        (current, false)
    } else {
        (status, true)
    }
}

/// Replaces the status that the requests see, where the new one differs, and says
/// whether it did.
pub fn send_new_status(current: &mut ServiceStatus, status: &ServiceStatus) -> (modified: bool)
    ensures
        (*final(current), modified) == told(*old(current), *status),
        modified == !old(current).same(*status),
        *final(current) == if modified {
            *status
        } else {
            *old(current)
        },
{
    if *current != *status {
        *current = status.clone();
        return true;
    }
    false
}

/// What a request tells the worker.
#[derive(Debug, Clone, Copy, PartialEq, Eq, Structural)]
pub enum RequestNotification {
    ReceiveRequest,
    SentResponse,
}

/// What is done when no message has come for a while.
#[derive(Debug, Clone, Copy, PartialEq, Eq, Structural)]
pub enum TimeoutAction {
    HealthCheck,
    ScaleDown,
}

/// What the worker asks the tasks and the address of the service for.
#[derive(Debug, Clone, Copy, PartialEq, Eq, Structural)]
pub enum Purpose {
    ScaleUp,
    HealthCheck,
}

/// What the worker is waiting for.
#[derive(Debug, Clone, Copy, PartialEq, Eq, Structural)]
pub enum Stage {
    /// A message, or the next timeout.
    Idle,
    /// The answers that scale the service up.
    ScaleUp,
    /// The state of the tasks of a service that is starting.
    WaitHealthy,
    /// The time at which the tasks are looked at again.
    WaitSleep,
    /// The state of the tasks, for a health check.
    CheckTasks,
    /// The address of the service.
    FindAddress(Purpose),
    /// That the requests have been told the status.
    Publish(Purpose),
    /// That the requests have been told that the service goes down.
    ScaleDownStatus,
    /// The answer to the call that scales the service down.
    ScaleDown,
    /// Nothing: the worker has ended.
    Stopped,
}

/// Something that the worker was waiting for.
#[derive(Debug)]
pub enum Event {
    /// A request sent a message.
    Notified(RequestNotification),
    /// No one is left who could send a message.
    NotifyClosed,
    /// No one is left who could see the status.
    StatusClosed,
    /// The time of the last `Select` has come.
    Timeout,
    /// ECS or EC2 answered.
    Reply(Reply),
    /// What the text of the last `ParseAddress` reads as; `None` where it is no
    /// address.
    Parsed(Option<IpAddr>),
    /// The last `Sleep` is over.
    Slept,
    /// The status of the last `Publish` is known to the requests.
    Published,
    /// Whether there was anyone to see the status of the last `SendStatus`.
    Sent(bool),
}

/// What the worker does next.
#[derive(Debug, PartialEq)]
pub enum Action {
    /// Wait for a message, for one of the channels to close, or until the given
    /// time, in nanoseconds, whatever comes first.
    Select { timeout: TimeoutAction, until: u128 },
    /// Call ECS or EC2.
    Call(Request),
    /// Read the text as an address.
    ParseAddress(String),
    /// Wait for so many seconds.
    Sleep(u64),
    /// Make this the status that the requests see, with `send_new_status`.
    Publish(ServiceStatus),
    /// Make this the status that the requests see, and find out whether anyone does.
    SendStatus(ServiceStatus),
    /// End the worker.
    Stop,
}

/// What the worker does next, and why the activity that has just ended failed, if
/// it did.
#[derive(Debug, PartialEq)]
pub struct Step {
    pub action: Action,
    pub failure: Option<ScalerError>,
}

/// How waiting for a service that is starting goes on.
#[derive(Debug, Clone, Copy, PartialEq, Eq, Structural)]
pub enum WaitStep {
    Ready,
    /// Look again after so many seconds.
    Again(u64),
}

/// How waiting for a service that is starting goes on when its tasks are as
/// `status` says.
pub open spec fn after_look(status: TaskStatus) -> WaitStep {
    if status is Healthy {
        WaitStep::Ready
    } else {
        WaitStep::Again(HEALTHY_POLL_SECS)
    }
}

/// Waits until a service that is starting is healthy.
pub fn wait_until_healthy(status: TaskStatus) -> (r: WaitStep)
    ensures
        r == after_look(status),
{
    match status {
        TaskStatus::Healthy => WaitStep::Ready,
        TaskStatus::Unhealthy => WaitStep::Again(HEALTHY_POLL_SECS),
        TaskStatus::NoTask => WaitStep::Again(HEALTHY_POLL_SECS),
    }
}

/// The status of a healthy service with the given address.
pub open spec fn status_at(addr: Option<IpAddr>) -> ServiceStatus {
    match addr {
        Some(addr) => ServiceStatus::Healthy(addr),
        None => ServiceStatus::NoIP,
    }
}

/// The state of the worker. Times are nanoseconds since some fixed moment.
#[derive(Debug)]
pub struct ServiceScaler {
    pub options: ServiceScalerOptions,
    /// The requests that have been received and not yet answered.
    pub alive_connections: isize,
    pub next_health_check_time: u128,
    /// When the service is scaled down, if no request comes before.
    pub scale_down_time: Option<u128>,
    /// The status that the requests see.
    pub status: ServiceStatus,
    pub stage: Stage,
}

impl ServiceScaler {
    /// The service is only about to be scaled down while no request is alive.
    pub open spec fn wf(self) -> bool {
        &&& self.alive_connections >= 0
        &&& self.scale_down_time is Some ==> self.alive_connections == 0
        &&& self.stage is ScaleDownStatus || self.stage is ScaleDown ==> self.alive_connections == 0
        &&& self.stage is ScaleUp || self.stage is WaitHealthy || self.stage is WaitSleep
            || self.stage == Stage::FindAddress(Purpose::ScaleUp) || self.stage == Stage::Publish(
            Purpose::ScaleUp,
        ) ==> self.alive_connections > 0
    }

    /// The event answers what the worker is waiting for. A response is only
    /// reported for a request that is alive.
    pub open spec fn accepts(self, event: Event) -> bool {
        match event {
            Event::Notified(RequestNotification::ReceiveRequest) => self.stage is Idle
                && self.alive_connections < isize::MAX,
            Event::Notified(RequestNotification::SentResponse) => self.stage is Idle
                && self.alive_connections > 0,
            Event::NotifyClosed | Event::StatusClosed | Event::Timeout => self.stage is Idle,
            Event::Reply(reply) => match self.stage {
                Stage::ScaleUp => crate::ecs::answers_scale_up(reply),
                Stage::WaitHealthy | Stage::CheckTasks => crate::ecs::answers_task_status(reply),
                Stage::FindAddress(_) => crate::ecs::answers_service_ip(
                    ServiceIpEvent::Reply(reply),
                ),
                Stage::ScaleDown => reply is Updated || reply is Failed,
                _ => false,
            },
            Event::Parsed(_) => self.stage is FindAddress,
            Event::Slept => self.stage is WaitSleep,
            Event::Published => self.stage is Publish,
            Event::Sent(_) => self.stage is ScaleDownStatus,
        }
    }

    /// What the next timeout is for, and when it comes: the earlier of the health
    /// check and the scale down, and the scale down where they coincide.
    pub open spec fn due(self) -> (TimeoutAction, u128) {
        match self.scale_down_time {
            Some(time) if time <= self.next_health_check_time => (TimeoutAction::ScaleDown, time),
            _ => (TimeoutAction::HealthCheck, self.next_health_check_time),
        }
    }

    /// The worker waits, after an activity that ended with `failure` or none.
    pub open spec fn waiting(self, failure: Option<ScalerError>) -> (ServiceScaler, Step) {
        let (timeout, until) = self.due();
        (self, Step { action: Action::Select { timeout, until }, failure })
    }

    /// The worker at stage `stage`, about to do `action`.
    pub open spec fn doing(self, stage: Stage, action: Action) -> (ServiceScaler, Step) {
        (ServiceScaler { stage, ..self }, Step { action, failure: None })
    }

    /// The time at which the service is scaled down if no request comes after `now`.
    pub open spec fn idle_deadline(self, now: u64) -> Option<u128> {
        Some((now + self.options.scale_down_period.in_nanos()) as u128)
    }

    /// The worker after an activity that ended at `now`: it waits, and the next
    /// health check is a full period away.
    pub open spec fn ended(self, now: u64, failure: Option<ScalerError>) -> (ServiceScaler, Step) {
        ServiceScaler {
            stage: Stage::Idle,
            next_health_check_time: (now + HEALTH_CHECK_PERIOD) as u128,
            ..self
        }.waiting(failure)
    }

    /// The worker after a message that leaves `alive` requests alive: with none
    /// left the time to scale down is set; with some left it is cleared, and a
    /// service that is not healthy is scaled up.
    pub open spec fn counted(self, now: u64, alive: int) -> (ServiceScaler, Step) {
        let counted = ServiceScaler { alive_connections: alive as isize, ..self };
        if alive <= 0 {
            ServiceScaler { scale_down_time: self.idle_deadline(now), ..counted }.waiting(None)
        } else if self.status is Unhealthy {
            ServiceScaler { scale_down_time: None, ..counted }.doing(
                Stage::ScaleUp,
                Action::Call(crate::ecs::describe_services_call(self.options)),
            )
        } else {
            ServiceScaler { scale_down_time: None, ..counted }.waiting(None)
        }
    }

    /// The worker when the time it was waiting for has come.
    pub open spec fn timed_out(self) -> (ServiceScaler, Step) {
        match self.due().0 {
            TimeoutAction::HealthCheck => self.doing(
                Stage::CheckTasks,
                Action::Call(crate::ecs::list_tasks_call(self.options)),
            ),
            TimeoutAction::ScaleDown => ServiceScaler { scale_down_time: None, ..self }.doing(
                Stage::ScaleDownStatus,
                Action::SendStatus(ServiceStatus::Unhealthy),
            ),
        }
    }

    /// The worker when the requests are to be told `status`.
    pub open spec fn publishing(self, purpose: Purpose, status: ServiceStatus) -> (
        ServiceScaler,
        Step,
    ) {
        ServiceScaler { status, ..self }.doing(Stage::Publish(purpose), Action::Publish(status))
    }

    /// The worker after a reply to what scales the service up.
    pub open spec fn scaled_up(self, now: u64, reply: Reply) -> (ServiceScaler, Step) {
        match crate::ecs::after_scale_up_reply(self.options, reply) {
            ScaleUpStep::Call(request) => self.doing(Stage::ScaleUp, Action::Call(request)),
            ScaleUpStep::Done => self.doing(
                Stage::WaitHealthy,
                Action::Call(crate::ecs::list_tasks_call(self.options)),
            ),
            ScaleUpStep::Failed(error) => self.ended(now, Some(error)),
        }
    }

    /// The worker after a reply on the tasks of a service that is starting.
    pub open spec fn looked(self, now: u64, reply: Reply) -> (ServiceScaler, Step) {
        match crate::ecs::after_task_status_reply(self.options, reply) {
            TaskStatusStep::Call(request) => self.doing(Stage::WaitHealthy, Action::Call(request)),
            TaskStatusStep::Done(status) => match after_look(status) {
                WaitStep::Ready => self.doing(
                    Stage::FindAddress(Purpose::ScaleUp),
                    Action::Call(crate::ecs::list_tasks_call(self.options)),
                ),
                WaitStep::Again(secs) => self.doing(Stage::WaitSleep, Action::Sleep(secs)),
            },
            TaskStatusStep::Failed(error) => self.ended(now, Some(error)),
        }
    }

    /// The worker after a reply on the tasks of the service in a health check.
    pub open spec fn checked(self, now: u64, reply: Reply) -> (ServiceScaler, Step) {
        match crate::ecs::after_task_status_reply(self.options, reply) {
            TaskStatusStep::Call(request) => self.doing(Stage::CheckTasks, Action::Call(request)),
            TaskStatusStep::Done(TaskStatus::Healthy) => self.doing(
                Stage::FindAddress(Purpose::HealthCheck),
                Action::Call(crate::ecs::list_tasks_call(self.options)),
            ),
            TaskStatusStep::Done(_) => self.publishing(
                Purpose::HealthCheck,
                ServiceStatus::Unhealthy,
            ),
            TaskStatusStep::Failed(error) => self.ended(now, Some(error)),
        }
    }

    /// The worker after an answer on the address of the service.
    pub open spec fn located(self, purpose: Purpose, now: u64, event: ServiceIpEvent) -> (
        ServiceScaler,
        Step,
    ) {
        match crate::ecs::after_service_ip_event(self.options, event) {
            ServiceIpStep::Call(request) => self.doing(
                Stage::FindAddress(purpose),
                Action::Call(request),
            ),
            ServiceIpStep::Parse(text) => self.doing(
                Stage::FindAddress(purpose),
                Action::ParseAddress(text),
            ),
            ServiceIpStep::Done(addr) => self.publishing(purpose, status_at(addr)),
            ServiceIpStep::Failed(error) => self.ended(now, Some(error)),
        }
    }

    /// The worker once the requests have been told the status: a health check that
    /// finds a healthy service without requests sets the time to scale it down,
    /// where none is set.
    pub open spec fn published(self, purpose: Purpose, now: u64) -> (ServiceScaler, Step) {
        if purpose is HealthCheck && self.status is Healthy && self.alive_connections <= 0
            && self.scale_down_time is None {
            ServiceScaler { scale_down_time: self.idle_deadline(now), ..self }.ended(now, None)
        } else {
            self.ended(now, None)
        }
    }

    /// The worker once it has told the requests that the service goes down, if
    /// anyone was there to see it.
    pub open spec fn sent(self, seen: bool) -> (ServiceScaler, Step) {
        if seen {
            ServiceScaler { status: ServiceStatus::Unhealthy, ..self }.doing(
                Stage::ScaleDown,
                Action::Call(crate::ecs::update_service_call(self.options, 0)),
            )
        } else {
            self.doing(Stage::Stopped, Action::Stop)
        }
    }

    /// The worker after `event` came at time `now`, and what it does next.
    pub open spec fn next(self, now: u64, event: Event) -> (ServiceScaler, Step) {
        match event {
            Event::Notified(RequestNotification::ReceiveRequest) => self.counted(
                now,
                self.alive_connections + 1,
            ),
            Event::Notified(RequestNotification::SentResponse) => self.counted(
                now,
                self.alive_connections - 1,
            ),
            Event::NotifyClosed | Event::StatusClosed => self.doing(Stage::Stopped, Action::Stop),
            Event::Timeout => self.timed_out(),
            Event::Reply(reply) => match self.stage {
                Stage::ScaleUp => self.scaled_up(now, reply),
                Stage::WaitHealthy => self.looked(now, reply),
                Stage::CheckTasks => self.checked(now, reply),
                Stage::FindAddress(purpose) => self.located(
                    purpose,
                    now,
                    ServiceIpEvent::Reply(reply),
                ),
                _ => self.ended(
                    now,
                    if reply is Failed {
                        Some(ScalerError::CallFailed)
                    } else {
                        None
                    },
                ),
            },
            Event::Parsed(addr) => self.located(
                self.stage->FindAddress_0,
                now,
                ServiceIpEvent::Parsed(addr),
            ),
            Event::Slept => self.doing(
                Stage::WaitHealthy,
                Action::Call(crate::ecs::list_tasks_call(self.options)),
            ),
            Event::Published => self.published(self.stage->Publish_0, now),
            Event::Sent(seen) => self.sent(seen),
        }
    }
}

/// The worker at its start, at time `now`: nothing is known of the service, and a
/// health check is due at once.
pub open spec fn started(options: ServiceScalerOptions, now: u64) -> ServiceScaler {
    ServiceScaler {
        options,
        alive_connections: 0,
        next_health_check_time: now as u128,
        scale_down_time: None,
        status: ServiceStatus::Unhealthy,
        stage: Stage::Idle,
    }
}

/// Starts the worker that scales the service.
pub fn run_scaler(options: ServiceScalerOptions, now: u64) -> (r: (ServiceScaler, Step))
    ensures
        r == started(options, now).waiting(None),
        r.0 == started(options, now),
        r.0.wf(),
{
    let scaler = ServiceScaler {
        options,
        alive_connections: 0,
        next_health_check_time: now as u128,
        scale_down_time: None,
        status: ServiceStatus::Unhealthy,
        stage: Stage::Idle,
    };
    let step: Step = scaler.wait(None);
    (scaler, step)
}

impl ServiceScaler {
    /// Whether `step` takes the event.
    pub fn accepts_event(&self, event: &Event) -> (r: bool)
        ensures
            r == self.accepts(*event),
    {
        match event {
            Event::Notified(RequestNotification::ReceiveRequest) => matches!(
                self.stage,
                Stage::Idle
            ) && self.alive_connections < isize::MAX,
            Event::Notified(RequestNotification::SentResponse) => matches!(self.stage, Stage::Idle)
                && self.alive_connections > 0,
            Event::NotifyClosed | Event::StatusClosed | Event::Timeout => matches!(
                self.stage,
                Stage::Idle
            ),
            Event::Reply(reply) => match self.stage {
                Stage::ScaleUp => matches!(reply, Reply::Services(_) | Reply::Updated | Reply::Failed),
                Stage::WaitHealthy | Stage::CheckTasks => matches!(
                    reply,
                    Reply::TaskArns(_) | Reply::Tasks(_) | Reply::Failed
                ),
                Stage::FindAddress(_) => matches!(
                    reply,
                    Reply::TaskArns(_) | Reply::Tasks(_) | Reply::NetworkInterfaces(_)
                        | Reply::Failed
                ),
                Stage::ScaleDown => matches!(reply, Reply::Updated | Reply::Failed),
                _ => false,
            },
            Event::Parsed(_) => matches!(self.stage, Stage::FindAddress(_)),
            Event::Slept => matches!(self.stage, Stage::WaitSleep),
            Event::Published => matches!(self.stage, Stage::Publish(_)),
            Event::Sent(_) => matches!(self.stage, Stage::ScaleDownStatus),
        }
    }

    /// What the next timeout is for, and when it comes.
    fn next_timeout(&self) -> (r: (TimeoutAction, u128))
        ensures
            r == self.due(),
    {
        match self.scale_down_time {
            Some(time) => {
                if time <= self.next_health_check_time {
                    (TimeoutAction::ScaleDown, time)
                } else {
                    (TimeoutAction::HealthCheck, self.next_health_check_time)
                }
            },
            None => (TimeoutAction::HealthCheck, self.next_health_check_time),
        }
    }

    /// Waits for a message or the next timeout.
    fn wait(&self, failure: Option<ScalerError>) -> (r: Step)
        ensures
            (*self, r) == self.waiting(failure),
    {
        let (timeout, until) = self.next_timeout();
        Step { action: Action::Select { timeout, until }, failure }
    }

    /// Goes to `stage` and does `action`.
    fn go(&mut self, stage: Stage, action: Action) -> (r: Step)
        ensures
            (*final(self), r) == old(self).doing(stage, action),
    {
        self.stage = stage;
        Step { action, failure: None }
    }

    /// Ends an activity.
    fn end(&mut self, now: u64, failure: Option<ScalerError>) -> (r: Step)
        ensures
            (*final(self), r) == old(self).ended(now, failure),
    {
        self.stage = Stage::Idle;
        self.next_health_check_time = now as u128 + HEALTH_CHECK_PERIOD as u128;
        self.wait(failure)
    }

    /// The time at which the service is scaled down if no request comes after `now`.
    fn deadline(&self, now: u64) -> (r: Option<u128>)
        ensures
            r == self.idle_deadline(now),
    {
        Some(now as u128 + self.options.scale_down_period.as_nanos())
    }

    /// Takes note that `alive` requests are alive.
    fn count(&mut self, now: u64, alive: isize) -> (r: Step)
        ensures
            (*final(self), r) == old(self).counted(now, alive as int),
    {
        self.alive_connections = alive;
        if alive <= 0 {
            self.scale_down_time = self.deadline(now);
            self.wait(None)
        } else {
            self.scale_down_time = None;
            match self.status {
                ServiceStatus::Unhealthy => {
                    let request: Request = describe_services(&self.options);
                    self.go(Stage::ScaleUp, Action::Call(request))
                },
                _ => self.wait(None),
            }
        }
    }

    /// Does what the last timeout was for.
    fn time_out(&mut self) -> (r: Step)
        ensures
            (*final(self), r) == old(self).timed_out(),
    {
        match self.next_timeout().0 {
            TimeoutAction::HealthCheck => {
                let request: Request = list_running_tasks(&self.options);
                self.go(Stage::CheckTasks, Action::Call(request))
            },
            TimeoutAction::ScaleDown => {
                self.scale_down_time = None;
                self.go(Stage::ScaleDownStatus, Action::SendStatus(ServiceStatus::Unhealthy))
            },
        }
    }

    /// Tells the requests the status.
    fn publish(&mut self, purpose: Purpose, status: ServiceStatus) -> (r: Step)
        ensures
            (*final(self), r) == old(self).publishing(purpose, status),
    {
        self.status = status.clone();
        self.go(Stage::Publish(purpose), Action::Publish(status))
    }

    /// Goes on scaling the service up.
    fn scale_up(&mut self, now: u64, reply: Reply) -> (r: Step)
        requires
            crate::ecs::answers_scale_up(reply),
        ensures
            (*final(self), r) == old(self).scaled_up(now, reply),
    {
        match scale_up_service(&self.options, reply) {
            ScaleUpStep::Call(request) => self.go(Stage::ScaleUp, Action::Call(request)),
            ScaleUpStep::Done => {
                let request: Request = list_running_tasks(&self.options);
                self.go(Stage::WaitHealthy, Action::Call(request))
            },
            ScaleUpStep::Failed(error) => self.end(now, Some(error)),
        }
    }

    /// Goes on waiting for a service that is starting.
    fn look(&mut self, now: u64, reply: Reply) -> (r: Step)
        requires
            crate::ecs::answers_task_status(reply),
        ensures
            (*final(self), r) == old(self).looked(now, reply),
    {
        match get_task_status(&self.options, reply) {
            TaskStatusStep::Call(request) => self.go(Stage::WaitHealthy, Action::Call(request)),
            TaskStatusStep::Done(status) => match wait_until_healthy(status) {
                WaitStep::Ready => {
                    let request: Request = list_running_tasks(&self.options);
                    self.go(Stage::FindAddress(Purpose::ScaleUp), Action::Call(request))
                },
                WaitStep::Again(secs) => self.go(Stage::WaitSleep, Action::Sleep(secs)),
            },
            TaskStatusStep::Failed(error) => self.end(now, Some(error)),
        }
    }

    /// Goes on with a health check.
    fn check(&mut self, now: u64, reply: Reply) -> (r: Step)
        requires
            crate::ecs::answers_task_status(reply),
        ensures
            (*final(self), r) == old(self).checked(now, reply),
    {
        match get_task_status(&self.options, reply) {
            TaskStatusStep::Call(request) => self.go(Stage::CheckTasks, Action::Call(request)),
            TaskStatusStep::Done(TaskStatus::Healthy) => {
                let request: Request = list_running_tasks(&self.options);
                self.go(Stage::FindAddress(Purpose::HealthCheck), Action::Call(request))
            },
            TaskStatusStep::Done(_) => self.publish(Purpose::HealthCheck, ServiceStatus::Unhealthy),
            TaskStatusStep::Failed(error) => self.end(now, Some(error)),
        }
    }

    /// Goes on asking for the address of the service.
    fn locate(&mut self, purpose: Purpose, now: u64, event: ServiceIpEvent) -> (r: Step)
        requires
            crate::ecs::answers_service_ip(event),
        ensures
            (*final(self), r) == old(self).located(purpose, now, event),
    {
        match get_service_ip(&self.options, event) {
            ServiceIpStep::Call(request) => self.go(
                Stage::FindAddress(purpose),
                Action::Call(request),
            ),
            ServiceIpStep::Parse(text) => self.go(
                Stage::FindAddress(purpose),
                Action::ParseAddress(text),
            ),
            ServiceIpStep::Done(Some(addr)) => self.publish(purpose, ServiceStatus::Healthy(addr)),
            ServiceIpStep::Done(None) => self.publish(purpose, ServiceStatus::NoIP),
            ServiceIpStep::Failed(error) => self.end(now, Some(error)),
        }
    }

    /// Ends the activity whose outcome the requests have been told.
    fn end_published(&mut self, purpose: Purpose, now: u64) -> (r: Step)
        ensures
            (*final(self), r) == old(self).published(purpose, now),
    {
        if matches!(purpose, Purpose::HealthCheck) && matches!(self.status, ServiceStatus::Healthy(_))
            && self.alive_connections <= 0 && self.scale_down_time.is_none() {
            self.scale_down_time = self.deadline(now);
        }
        self.end(now, None)
    }

    /// Scales the service down, if anyone saw that it goes down.
    fn scale_down(&mut self, seen: bool) -> (r: Step)
        ensures
            (*final(self), r) == old(self).sent(seen),
    {
        if seen {
            self.status = ServiceStatus::Unhealthy;
            let request: Request = scale_down_service(&self.options);
            self.go(Stage::ScaleDown, Action::Call(request))
        } else {
            self.go(Stage::Stopped, Action::Stop)
        }
    }

    /// Takes the event that came at time `now`, and says what to do next.
    pub fn step(&mut self, now: u64, event: Event) -> (r: Step)
        requires
            old(self).wf(),
            old(self).accepts(event),
        ensures
            (*final(self), r) == old(self).next(now, event),
            final(self).wf(),
    {
        match event {
            Event::Notified(RequestNotification::ReceiveRequest) => {
                let alive: isize = self.alive_connections + 1;
                self.count(now, alive)
            },
            Event::Notified(RequestNotification::SentResponse) => {
                let alive: isize = self.alive_connections - 1;
                self.count(now, alive)
            },
            Event::NotifyClosed => self.go(Stage::Stopped, Action::Stop),
            Event::StatusClosed => self.go(Stage::Stopped, Action::Stop),
            Event::Timeout => self.time_out(),
            Event::Reply(reply) => match self.stage {
                Stage::ScaleUp => self.scale_up(now, reply),
                Stage::WaitHealthy => self.look(now, reply),
                Stage::CheckTasks => self.check(now, reply),
                Stage::FindAddress(purpose) => self.locate(
                    purpose,
                    now,
                    ServiceIpEvent::Reply(reply),
                ),
                _ => match reply {
                    Reply::Failed => self.end(now, Some(ScalerError::CallFailed)),
                    _ => self.end(now, None),
                },
            },
            Event::Parsed(addr) => match self.stage {
                Stage::FindAddress(purpose) => self.locate(
                    purpose,
                    now,
                    ServiceIpEvent::Parsed(addr),
                ),
                _ => self.end(now, None),
            },
            Event::Slept => {
                let request: Request = list_running_tasks(&self.options);
                self.go(Stage::WaitHealthy, Action::Call(request))
            },
            Event::Published => match self.stage {
                Stage::Publish(purpose) => self.end_published(purpose, now),
                _ => self.end(now, None),
            },
            Event::Sent(seen) => self.scale_down(seen),
        }
    }
}

/// The right to send a request to the service. The request counts as alive until
/// the guard is gone.
#[derive(Debug)]
pub struct RequestGuard {
    pub addr: IpAddr,
}

impl RequestGuard {
    /// The address at which the service is reached.
    pub fn target_addr(&self) -> (r: IpAddr)
        ensures
            r == self.addr,
    {
        self.addr.clone()
    }
}

/// A request that waits for the service.
#[derive(Debug, Clone, Copy, PartialEq, Eq, Structural)]
pub enum RequestWait {
    /// The worker is being told of the request.
    Notifying,
    /// The worker counts the request as alive, and the status is looked at.
    Looking,
    /// The worker counts the request as alive, and the status has to change.
    Waiting,
    /// The request has its guard.
    Granted,
    /// The worker ended before it was told of the request.
    Refused,
    /// The worker ended after it was told of the request.
    Abandoned,
}

/// Something that a request was waiting for.
#[derive(Debug)]
pub enum RequestEvent {
    /// Whether the worker was there to be told.
    Notified(bool),
    /// The status of the service.
    Status(ServiceStatus),
    /// Whether the status changed; otherwise the worker is gone.
    Changed(bool),
}

/// What a request that waits for the service does next.
#[derive(Debug)]
pub enum RequestAction {
    /// Tell the worker.
    Notify(RequestNotification),
    /// Look at the status.
    ReadStatus,
    /// Wait until the status changes.
    AwaitChange,
    /// Go on with the guard.
    Grant(RequestGuard),
    /// Give up: the worker is dead.
    Fail,
}

impl ServiceScaler {
    /// Starts to wait for the service: the worker is told of the request.
    pub fn handle_request() -> (r: (RequestWait, RequestAction))
        ensures
            r == (
                RequestWait::Notifying,
                RequestAction::Notify(RequestNotification::ReceiveRequest),
            ),
    {
        (RequestWait::Notifying, RequestAction::Notify(RequestNotification::ReceiveRequest))
    }
}

impl RequestWait {
    /// The event answers what the request is waiting for.
    pub open spec fn accepts(self, event: RequestEvent) -> bool {
        match event {
            RequestEvent::Notified(_) => self is Notifying,
            RequestEvent::Status(_) => self is Looking,
            RequestEvent::Changed(_) => self is Waiting,
        }
    }

    /// The worker counts the request as alive.
    pub open spec fn counted(self) -> bool {
        !(self is Notifying || self is Refused)
    }

    /// The request after `event`, and what it does next: it goes on as soon as the
    /// status is healthy, to the address that the status says.
    pub open spec fn next(self, event: RequestEvent) -> (RequestWait, RequestAction) {
        match event {
            RequestEvent::Notified(true) => (RequestWait::Looking, RequestAction::ReadStatus),
            RequestEvent::Notified(false) => (RequestWait::Refused, RequestAction::Fail),
            RequestEvent::Status(ServiceStatus::Healthy(addr)) => (
                RequestWait::Granted,
                RequestAction::Grant(RequestGuard { addr }),
            ),
            RequestEvent::Status(_) => (RequestWait::Waiting, RequestAction::AwaitChange),
            RequestEvent::Changed(true) => (RequestWait::Looking, RequestAction::ReadStatus),
            RequestEvent::Changed(false) => (RequestWait::Abandoned, RequestAction::Fail),
        }
    }

    /// Whether `step` takes the event.
    pub fn accepts_event(&self, event: &RequestEvent) -> (r: bool)
        ensures
            r == self.accepts(*event),
    {
        match event {
            RequestEvent::Notified(_) => matches!(*self, RequestWait::Notifying),
            RequestEvent::Status(_) => matches!(*self, RequestWait::Looking),
            RequestEvent::Changed(_) => matches!(*self, RequestWait::Waiting),
        }
    }

    /// Takes the event, and says what to do next.
    pub fn step(&mut self, event: RequestEvent) -> (r: RequestAction)
        requires
            old(self).accepts(event),
        ensures
            (*final(self), r) == old(self).next(event),
    {
        match event {
            RequestEvent::Notified(told) => {
                if told {
                    *self = RequestWait::Looking;
                    RequestAction::ReadStatus
                } else {
                    *self = RequestWait::Refused;
                    RequestAction::Fail
                }
            },
            RequestEvent::Status(ServiceStatus::Healthy(addr)) => {
                *self = RequestWait::Granted;
                RequestAction::Grant(RequestGuard { addr })
            },
            RequestEvent::Status(_) => {
                *self = RequestWait::Waiting;
                RequestAction::AwaitChange
            },
            RequestEvent::Changed(alive) => {
                if alive {
                    *self = RequestWait::Looking;
                    RequestAction::ReadStatus
                } else {
                    *self = RequestWait::Abandoned;
                    RequestAction::Fail
                }
            },
        }
    }

    /// What the worker is told when the request is over, with or without a guard:
    /// that it is answered, where the worker counts it as alive.
    pub open spec fn farewell(self) -> Option<RequestNotification> {
        if self.counted() {
            Some(RequestNotification::SentResponse)
        } else {
            None
        }
    }

    /// What the worker is told when the request is over, with or without a guard.
    pub fn release(&self) -> (r: Option<RequestNotification>)
        ensures
            r == self.farewell(),
    {
        match *self {
            RequestWait::Notifying | RequestWait::Refused => None,
            _ => Some(RequestNotification::SentResponse),
        }
    }
}

} // verus!
