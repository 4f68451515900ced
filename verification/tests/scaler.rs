use manini::ecs::{
    Attachment, Detail, HealthStatus, Period, Reply, Request, ScalerError, Service,
    ServiceScalerOptions, Task, TaskStatus,
};
use manini::ecs_service_scaler::{
    run_scaler, send_new_status, wait_until_healthy, Action, Event, Purpose, RequestAction,
    RequestEvent, RequestNotification, RequestWait, ServiceScaler, ServiceStatus, Stage,
    TimeoutAction, WaitStep,
};
use manini::IpAddr;

const SECOND: u64 = 1_000_000_000;

fn options() -> ServiceScalerOptions {
    ServiceScalerOptions {
        cluster_name: None,
        service_name: "web".to_string(),
        use_public_ip: false,
        scale_down_period: Period { secs: 300, nanos: 0 },
    }
}

fn addr() -> IpAddr {
    IpAddr::V4("10.0.0.7".to_string())
}

fn received() -> Event {
    Event::Notified(RequestNotification::ReceiveRequest)
}

fn answered() -> Event {
    Event::Notified(RequestNotification::SentResponse)
}

fn arns() -> Event {
    Event::Reply(Reply::TaskArns(Some(vec!["arn:1".to_string()])))
}

fn tasks(health: HealthStatus) -> Event {
    let details = vec![Detail {
        name: Some("privateIPv4Address".to_string()),
        value: Some("10.0.0.7".to_string()),
    }];
    let attachment = Attachment {
        kind: Some("ElasticNetworkInterface".to_string()),
        status: Some("ATTACHED".to_string()),
        details,
    };
    Event::Reply(Reply::Tasks(vec![Task {
        health_status: Some(health),
        attachments: vec![attachment],
    }]))
}

fn list() -> Action {
    Action::Call(Request::ListRunningTasks { cluster: None, service: "web".to_string() })
}

fn describe() -> Action {
    Action::Call(Request::DescribeTasks { cluster: None, tasks: vec!["arn:1".to_string()] })
}

fn update(desired_count: i32) -> Action {
    Action::Call(Request::UpdateService {
        cluster: None,
        service: "web".to_string(),
        desired_count,
    })
}

fn select(timeout: TimeoutAction, secs: u64) -> Action {
    Action::Select { timeout, until: secs as u128 * SECOND as u128 }
}

fn step(scaler: &mut ServiceScaler, secs: u64, event: Event) -> Action {
    assert!(scaler.accepts_event(&event));
    scaler.step(secs * SECOND, event).action
}

/// A worker whose service runs, with no request, at the given second.
fn healthy_worker(secs: u64) -> ServiceScaler {
    let (mut scaler, _) = run_scaler(options(), secs * SECOND);
    step(&mut scaler, secs, Event::Timeout);
    step(&mut scaler, secs, arns());
    step(&mut scaler, secs, tasks(HealthStatus::Healthy));
    step(&mut scaler, secs, arns());
    step(&mut scaler, secs, tasks(HealthStatus::Healthy));
    step(&mut scaler, secs, Event::Parsed(Some(addr())));
    step(&mut scaler, secs, Event::Published);
    scaler
}

#[test]
fn worker_starts_with_a_health_check() {
    let (mut scaler, first) = run_scaler(options(), 7 * SECOND);
    assert_eq!(first.action, select(TimeoutAction::HealthCheck, 7));
    assert_eq!(first.failure, None);
    assert_eq!(scaler.status, ServiceStatus::Unhealthy);
    assert_eq!(step(&mut scaler, 7, Event::Timeout), list());
    assert_eq!(
        step(&mut scaler, 8, Event::Reply(Reply::TaskArns(None))),
        Action::Publish(ServiceStatus::Unhealthy)
    );
    assert_eq!(
        step(&mut scaler, 9, Event::Published),
        select(TimeoutAction::HealthCheck, 39)
    );
    assert_eq!(scaler.scale_down_time, None);
}

#[test]
fn request_starts_the_service() {
    let (mut scaler, _) = run_scaler(options(), 0);
    assert_eq!(
        step(&mut scaler, 1, received()),
        Action::Call(Request::DescribeServices { cluster: None, service: "web".to_string() })
    );
    let services = Reply::Services(vec![Service { desired_count: 0 }]);
    assert_eq!(step(&mut scaler, 2, Event::Reply(services)), update(1));
    assert_eq!(step(&mut scaler, 3, Event::Reply(Reply::Updated)), list());
    assert_eq!(
        step(&mut scaler, 4, Event::Reply(Reply::TaskArns(Some(vec![])))),
        Action::Sleep(5)
    );
    assert_eq!(step(&mut scaler, 9, Event::Slept), list());
    assert_eq!(step(&mut scaler, 10, arns()), describe());
    assert_eq!(step(&mut scaler, 11, tasks(HealthStatus::Unknown)), Action::Sleep(5));
    assert_eq!(step(&mut scaler, 16, Event::Slept), list());
    assert_eq!(step(&mut scaler, 17, arns()), describe());
    assert_eq!(step(&mut scaler, 18, tasks(HealthStatus::Healthy)), list());
    assert_eq!(scaler.stage, Stage::FindAddress(Purpose::ScaleUp));
    assert_eq!(step(&mut scaler, 19, arns()), describe());
    assert_eq!(
        step(&mut scaler, 20, tasks(HealthStatus::Healthy)),
        Action::ParseAddress("10.0.0.7".to_string())
    );
    assert_eq!(
        step(&mut scaler, 21, Event::Parsed(Some(addr()))),
        Action::Publish(ServiceStatus::Healthy(addr()))
    );
    assert_eq!(
        step(&mut scaler, 22, Event::Published),
        select(TimeoutAction::HealthCheck, 52)
    );
    assert_eq!(scaler.alive_connections, 1);
    assert_eq!(scaler.scale_down_time, None);
}

#[test]
fn running_service_is_left_alone() {
    let (mut scaler, _) = run_scaler(options(), 0);
    step(&mut scaler, 1, received());
    let services = Reply::Services(vec![Service { desired_count: 2 }]);
    assert_eq!(step(&mut scaler, 2, Event::Reply(services)), list());
    assert_eq!(scaler.stage, Stage::WaitHealthy);
}

#[test]
fn healthy_service_is_not_started_again() {
    let mut scaler = healthy_worker(0);
    assert_eq!(
        step(&mut scaler, 1, received()),
        select(TimeoutAction::HealthCheck, 30)
    );
    assert_eq!(scaler.scale_down_time, None);
}

#[test]
fn service_without_address_is_not_started_again() {
    let (mut scaler, _) = run_scaler(options(), 0);
    step(&mut scaler, 0, Event::Timeout);
    step(&mut scaler, 0, arns());
    step(&mut scaler, 0, tasks(HealthStatus::Healthy));
    assert_eq!(
        step(&mut scaler, 0, Event::Reply(Reply::TaskArns(None))),
        Action::Publish(ServiceStatus::NoIP)
    );
    step(&mut scaler, 0, Event::Published);
    assert_eq!(scaler.scale_down_time, None);
    assert_eq!(
        step(&mut scaler, 1, received()),
        select(TimeoutAction::HealthCheck, 30)
    );
}

#[test]
fn unused_service_is_stopped_after_the_period() {
    let mut scaler = healthy_worker(0);
    assert_eq!(scaler.scale_down_time, Some(300 * SECOND as u128));
    step(&mut scaler, 10, received());
    step(&mut scaler, 11, received());
    assert_eq!(step(&mut scaler, 12, answered()), select(TimeoutAction::HealthCheck, 30));
    assert_eq!(step(&mut scaler, 20, answered()), select(TimeoutAction::HealthCheck, 30));
    assert_eq!(scaler.scale_down_time, Some(320 * SECOND as u128));
    let mut now = 30;
    while now < 300 {
        step(&mut scaler, now, Event::Timeout);
        step(&mut scaler, now, arns());
        step(&mut scaler, now, tasks(HealthStatus::Healthy));
        step(&mut scaler, now, arns());
        step(&mut scaler, now, tasks(HealthStatus::Healthy));
        step(&mut scaler, now, Event::Parsed(Some(addr())));
        let next = step(&mut scaler, now, Event::Published);
        now += 30;
        assert_eq!(next, select(TimeoutAction::HealthCheck, now));
    }
    step(&mut scaler, 300, Event::Timeout);
    assert_eq!(
        scaler.step(300 * SECOND, Event::Reply(Reply::Failed)).action,
        select(TimeoutAction::ScaleDown, 320)
    );
    assert_eq!(
        step(&mut scaler, 320, Event::Timeout),
        Action::SendStatus(ServiceStatus::Unhealthy)
    );
    assert_eq!(step(&mut scaler, 321, Event::Sent(true)), update(0));
    assert_eq!(scaler.status, ServiceStatus::Unhealthy);
    assert_eq!(
        step(&mut scaler, 322, Event::Reply(Reply::Updated)),
        select(TimeoutAction::HealthCheck, 352)
    );
}

#[test]
fn scale_down_wins_where_both_are_due() {
    let mut scaler = healthy_worker(0);
    scaler.next_health_check_time = 300 * SECOND as u128;
    assert_eq!(
        step(&mut scaler, 300, Event::Timeout),
        Action::SendStatus(ServiceStatus::Unhealthy)
    );
}

#[test]
fn request_cancels_the_scale_down() {
    let mut scaler = healthy_worker(0);
    step(&mut scaler, 299, received());
    assert_eq!(scaler.scale_down_time, None);
    assert_eq!(step(&mut scaler, 300, Event::Timeout), list());
}

#[test]
fn failures_lead_back_to_waiting() {
    let (mut scaler, _) = run_scaler(options(), 0);
    step(&mut scaler, 1, received());
    let failed = scaler.step(2 * SECOND, Event::Reply(Reply::Services(vec![])));
    assert_eq!(failed.failure, Some(ScalerError::ServiceNotFound));
    assert_eq!(failed.action, select(TimeoutAction::HealthCheck, 32));
    assert_eq!(scaler.status, ServiceStatus::Unhealthy);
    step(&mut scaler, 32, Event::Timeout);
    let failed = scaler.step(33 * SECOND, Event::Reply(Reply::Failed));
    assert_eq!(failed.failure, Some(ScalerError::CallFailed));
    assert_eq!(failed.action, select(TimeoutAction::HealthCheck, 63));
    let mut scaler = healthy_worker(0);
    scaler.next_health_check_time = u128::MAX;
    step(&mut scaler, 300, Event::Timeout);
    step(&mut scaler, 300, Event::Sent(true));
    let failed = scaler.step(301 * SECOND, Event::Reply(Reply::Failed));
    assert_eq!(failed.failure, Some(ScalerError::CallFailed));
    assert_eq!(failed.action, select(TimeoutAction::HealthCheck, 331));
    assert_eq!(scaler.status, ServiceStatus::Unhealthy);
}

#[test]
fn worker_stops_when_no_one_is_left() {
    for closed in [Event::NotifyClosed, Event::StatusClosed] {
        let mut scaler = healthy_worker(0);
        assert_eq!(step(&mut scaler, 1, closed), Action::Stop);
        assert!(!scaler.accepts_event(&Event::Timeout));
        assert!(!scaler.accepts_event(&received()));
    }
    let mut scaler = healthy_worker(0);
    scaler.next_health_check_time = u128::MAX;
    step(&mut scaler, 300, Event::Timeout);
    assert_eq!(step(&mut scaler, 300, Event::Sent(false)), Action::Stop);
}

#[test]
fn events_are_only_taken_when_they_are_due() {
    let (mut scaler, _) = run_scaler(options(), 0);
    assert!(!scaler.accepts_event(&answered()));
    assert!(!scaler.accepts_event(&Event::Slept));
    assert!(!scaler.accepts_event(&Event::Published));
    assert!(!scaler.accepts_event(&Event::Sent(true)));
    assert!(!scaler.accepts_event(&Event::Parsed(None)));
    assert!(!scaler.accepts_event(&Event::Reply(Reply::Failed)));
    step(&mut scaler, 0, received());
    assert!(!scaler.accepts_event(&received()));
    assert!(!scaler.accepts_event(&arns()));
    assert!(scaler.accepts_event(&Event::Reply(Reply::Failed)));
}

#[test]
fn waiting_for_a_healthy_service() {
    assert_eq!(wait_until_healthy(TaskStatus::Healthy), WaitStep::Ready);
    assert_eq!(wait_until_healthy(TaskStatus::Unhealthy), WaitStep::Again(5));
    assert_eq!(wait_until_healthy(TaskStatus::NoTask), WaitStep::Again(5));
}

#[test]
fn status_is_sent_only_where_it_differs() {
    let mut current = ServiceStatus::Unhealthy;
    assert!(!send_new_status(&mut current, &ServiceStatus::Unhealthy));
    assert!(send_new_status(&mut current, &ServiceStatus::Healthy(addr())));
    assert_eq!(current, ServiceStatus::Healthy(addr()));
    assert!(!send_new_status(&mut current, &ServiceStatus::Healthy(addr())));
    let other = ServiceStatus::Healthy(IpAddr::V4("10.0.0.8".to_string()));
    assert!(send_new_status(&mut current, &other));
    assert_eq!(current, other);
    assert!(send_new_status(&mut current, &ServiceStatus::NoIP));
    assert_eq!(current, ServiceStatus::NoIP);
}

#[test]
fn waiting_request_goes_on_with_a_healthy_service() {
    let (mut wait, first) = ServiceScaler::handle_request();
    assert!(matches!(first, RequestAction::Notify(RequestNotification::ReceiveRequest)));
    assert_eq!(wait.release(), None);
    assert!(wait.accepts_event(&RequestEvent::Notified(true)));
    assert!(matches!(wait.step(RequestEvent::Notified(true)), RequestAction::ReadStatus));
    assert_eq!(wait.release(), Some(RequestNotification::SentResponse));
    assert!(matches!(
        wait.step(RequestEvent::Status(ServiceStatus::Unhealthy)),
        RequestAction::AwaitChange
    ));
    assert!(!wait.accepts_event(&RequestEvent::Status(ServiceStatus::NoIP)));
    assert!(matches!(wait.step(RequestEvent::Changed(true)), RequestAction::ReadStatus));
    assert!(matches!(
        wait.step(RequestEvent::Status(ServiceStatus::NoIP)),
        RequestAction::AwaitChange
    ));
    assert!(matches!(wait.step(RequestEvent::Changed(true)), RequestAction::ReadStatus));
    match wait.step(RequestEvent::Status(ServiceStatus::Healthy(addr()))) {
        RequestAction::Grant(guard) => assert_eq!(guard.target_addr(), addr()),
        other => panic!("no guard: {:?}", other),
    }
    assert_eq!(wait, RequestWait::Granted);
    assert_eq!(wait.release(), Some(RequestNotification::SentResponse));
}

#[test]
fn waiting_request_fails_when_the_worker_is_dead() {
    let (mut wait, _) = ServiceScaler::handle_request();
    assert!(matches!(wait.step(RequestEvent::Notified(false)), RequestAction::Fail));
    assert_eq!(wait.release(), None);
    let (mut wait, _) = ServiceScaler::handle_request();
    wait.step(RequestEvent::Notified(true));
    wait.step(RequestEvent::Status(ServiceStatus::Unhealthy));
    assert!(matches!(wait.step(RequestEvent::Changed(false)), RequestAction::Fail));
    assert_eq!(wait.release(), Some(RequestNotification::SentResponse));
}

#[test]
fn open_requests_keep_the_service_up() {
    let mut scaler = healthy_worker(0);
    step(&mut scaler, 1, received());
    step(&mut scaler, 2, received());
    assert_eq!(scaler.alive_connections, 2);
    step(&mut scaler, 3, answered());
    assert_eq!(scaler.alive_connections, 1);
    assert_eq!(scaler.scale_down_time, None);
    assert_eq!(step(&mut scaler, 10_000, Event::Timeout), list());
    let after = scaler.step(10_000 * SECOND, Event::Reply(Reply::Failed));
    assert_eq!(after.failure, Some(ScalerError::CallFailed));
    assert_eq!(scaler.alive_connections, 1);
    assert_eq!(scaler.status, ServiceStatus::Healthy(addr()));
    step(&mut scaler, 10_001, answered());
    assert_eq!(scaler.alive_connections, 0);
    assert_eq!(scaler.scale_down_time, Some(10_301 * SECOND as u128));
    assert!(!scaler.accepts_event(&answered()));
}

#[test]
fn lost_task_makes_the_service_unhealthy() {
    let mut scaler = healthy_worker(0);
    assert_eq!(step(&mut scaler, 30, Event::Timeout), list());
    assert_eq!(step(&mut scaler, 31, arns()), describe());
    assert_eq!(
        step(&mut scaler, 32, tasks(HealthStatus::Unhealthy)),
        Action::Publish(ServiceStatus::Unhealthy)
    );
    assert_eq!(scaler.status, ServiceStatus::Unhealthy);
    assert_eq!(step(&mut scaler, 33, Event::Published), select(TimeoutAction::HealthCheck, 63));
    assert_eq!(scaler.scale_down_time, Some(300 * SECOND as u128));
}

#[test]
fn address_that_cannot_be_read_fails() {
    let (mut scaler, _) = run_scaler(options(), 0);
    step(&mut scaler, 0, Event::Timeout);
    step(&mut scaler, 0, arns());
    step(&mut scaler, 0, tasks(HealthStatus::Healthy));
    step(&mut scaler, 0, arns());
    step(&mut scaler, 0, tasks(HealthStatus::Healthy));
    let failed = scaler.step(SECOND, Event::Parsed(None));
    assert_eq!(failed.failure, Some(ScalerError::NotAnAddress));
    assert_eq!(failed.action, select(TimeoutAction::HealthCheck, 31));
    assert_eq!(scaler.status, ServiceStatus::Unhealthy);
}

#[test]
fn statuses_compare_by_what_they_say() {
    let healthy = ServiceStatus::Healthy(addr());
    assert_eq!(healthy, healthy.clone());
    assert_ne!(healthy, ServiceStatus::NoIP);
    assert_ne!(ServiceStatus::NoIP, ServiceStatus::Unhealthy);
    assert_ne!(healthy, ServiceStatus::Healthy(IpAddr::V4("10.0.0.8".to_string())));
}
