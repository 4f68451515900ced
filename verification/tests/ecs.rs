use manini::ecs::{
    describe_services, get_service_ip, get_task_status, list_running_tasks, scale_down_service,
    scale_up_service, Association, Attachment, Detail, HealthStatus, NetworkInterface, Period,
    Reply, Request, ScaleUpStep, ScalerError, Service, ServiceIpEvent, ServiceIpStep,
    ServiceScalerOptions, Task, TaskStatus, TaskStatusStep,
};
use manini::IpAddr;

fn options(use_public_ip: bool) -> ServiceScalerOptions {
    ServiceScalerOptions {
        cluster_name: Some("main".to_string()),
        service_name: "web".to_string(),
        use_public_ip,
        scale_down_period: Period { secs: 300, nanos: 0 },
    }
}

fn update(desired_count: i32) -> Request {
    Request::UpdateService {
        cluster: Some("main".to_string()),
        service: "web".to_string(),
        desired_count,
    }
}

fn detail(name: &str, value: &str) -> Detail {
    Detail { name: Some(name.to_string()), value: Some(value.to_string()) }
}

fn interface(status: &str, details: Vec<Detail>) -> Attachment {
    Attachment {
        kind: Some("ElasticNetworkInterface".to_string()),
        status: Some(status.to_string()),
        details,
    }
}

fn task(health_status: Option<HealthStatus>, attachments: Vec<Attachment>) -> Task {
    Task { health_status, attachments }
}

fn public(ip: Option<&str>) -> NetworkInterface {
    NetworkInterface {
        association: Some(Association { public_ip: ip.map(|x| x.to_string()) }),
    }
}

#[test]
fn calls_name_cluster_and_service() {
    let cluster = Some("main".to_string());
    assert_eq!(
        describe_services(&options(false)),
        Request::DescribeServices { cluster: cluster.clone(), service: "web".to_string() }
    );
    assert_eq!(
        list_running_tasks(&options(false)),
        Request::ListRunningTasks { cluster, service: "web".to_string() }
    );
    assert_eq!(scale_down_service(&options(false)), update(0));
    let default_cluster = ServiceScalerOptions { cluster_name: None, ..options(false) };
    assert_eq!(
        list_running_tasks(&default_cluster),
        Request::ListRunningTasks { cluster: None, service: "web".to_string() }
    );
}

#[test]
fn period_in_nanoseconds() {
    assert_eq!(Period { secs: 300, nanos: 5 }.as_nanos(), 300_000_000_005);
    assert_eq!(Period { secs: u64::MAX, nanos: 0 }.as_nanos(), 18_446_744_073_709_551_615_000_000_000);
}

#[test]
fn scale_up_changes_a_stopped_service_only() {
    let reply = |counts: &[i32]| {
        Reply::Services(counts.iter().map(|c| Service { desired_count: *c }).collect())
    };
    let o = options(false);
    assert_eq!(scale_up_service(&o, reply(&[0])), ScaleUpStep::Call(update(1)));
    assert_eq!(scale_up_service(&o, reply(&[1])), ScaleUpStep::Done);
    assert_eq!(scale_up_service(&o, reply(&[4])), ScaleUpStep::Done);
    assert_eq!(scale_up_service(&o, Reply::Updated), ScaleUpStep::Done);
    assert_eq!(
        scale_up_service(&o, reply(&[])),
        ScaleUpStep::Failed(ScalerError::ServiceNotFound)
    );
    assert_eq!(
        scale_up_service(&o, reply(&[0, 0])),
        ScaleUpStep::Failed(ScalerError::MultipleServices)
    );
    assert_eq!(
        scale_up_service(&o, Reply::Failed),
        ScaleUpStep::Failed(ScalerError::CallFailed)
    );
}

#[test]
fn tasks_are_healthy_where_one_is() {
    let o = options(false);
    assert_eq!(
        get_task_status(&o, Reply::TaskArns(None)),
        TaskStatusStep::Done(TaskStatus::NoTask)
    );
    assert_eq!(
        get_task_status(&o, Reply::TaskArns(Some(vec![]))),
        TaskStatusStep::Done(TaskStatus::NoTask)
    );
    let arns = vec!["arn:1".to_string(), "arn:2".to_string()];
    assert_eq!(
        get_task_status(&o, Reply::TaskArns(Some(arns.clone()))),
        TaskStatusStep::Call(Request::DescribeTasks {
            cluster: Some("main".to_string()),
            tasks: arns
        })
    );
    let tasks = |states: &[Option<HealthStatus>]| {
        Reply::Tasks(states.iter().map(|s| task(*s, vec![])).collect())
    };
    assert_eq!(
        get_task_status(
            &o,
            tasks(&[None, Some(HealthStatus::Unhealthy), Some(HealthStatus::Healthy)])
        ),
        TaskStatusStep::Done(TaskStatus::Healthy)
    );
    assert_eq!(
        get_task_status(
            &o,
            tasks(&[None, Some(HealthStatus::Unhealthy), Some(HealthStatus::Unknown)])
        ),
        TaskStatusStep::Done(TaskStatus::Unhealthy)
    );
    assert_eq!(get_task_status(&o, tasks(&[])), TaskStatusStep::Done(TaskStatus::Unhealthy));
    assert_eq!(
        get_task_status(&o, Reply::Failed),
        TaskStatusStep::Failed(ScalerError::CallFailed)
    );
}

#[test]
fn address_of_first_attached_interface() {
    let tasks = vec![
        task(None, vec![]),
        task(
            None,
            vec![
                Attachment {
                    kind: Some("Service Connect".to_string()),
                    status: Some("ATTACHED".to_string()),
                    details: vec![detail("privateIPv4Address", "10.0.0.9")],
                },
                interface("ATTACHING", vec![detail("privateIPv4Address", "10.0.0.8")]),
                interface(
                    "ATTACHED",
                    vec![
                        detail("subnetId", "subnet-1"),
                        Detail { name: Some("privateIPv4Address".to_string()), value: None },
                        detail("privateIPv4Address", "10.0.0.7"),
                        detail("privateIPv4Address", "10.0.0.6"),
                    ],
                ),
            ],
        ),
        task(None, vec![interface("ATTACHED", vec![detail("privateIPv4Address", "10.0.0.5")])]),
    ];
    assert_eq!(
        get_service_ip(&options(false), ServiceIpEvent::Reply(Reply::Tasks(tasks))),
        ServiceIpStep::Parse("10.0.0.7".to_string())
    );
}

#[test]
fn public_address_is_asked_of_ec2() {
    let o = options(true);
    let tasks = vec![task(
        None,
        vec![interface(
            "ATTACHED",
            vec![detail("privateIPv4Address", "10.0.0.7"), detail("networkInterfaceId", "eni-1")],
        )],
    )];
    assert_eq!(
        get_service_ip(&o, ServiceIpEvent::Reply(Reply::Tasks(tasks))),
        ServiceIpStep::Call(Request::DescribeNetworkInterfaces { id: "eni-1".to_string() })
    );
    let interfaces = vec![
        NetworkInterface { association: None },
        public(None),
        public(Some("203.0.113.5")),
        public(Some("203.0.113.6")),
    ];
    assert_eq!(
        get_service_ip(&o, ServiceIpEvent::Reply(Reply::NetworkInterfaces(interfaces))),
        ServiceIpStep::Parse("203.0.113.5".to_string())
    );
}

#[test]
fn service_without_task_or_interface_has_no_address_yet() {
    let o = options(false);
    assert_eq!(
        get_service_ip(&o, ServiceIpEvent::Reply(Reply::TaskArns(None))),
        ServiceIpStep::Done(None)
    );
    assert_eq!(
        get_service_ip(&o, ServiceIpEvent::Reply(Reply::TaskArns(Some(vec![])))),
        ServiceIpStep::Done(None)
    );
    assert_eq!(
        get_service_ip(&o, ServiceIpEvent::Reply(Reply::Tasks(vec![task(None, vec![])]))),
        ServiceIpStep::Done(None)
    );
    assert_eq!(
        get_service_ip(
            &o,
            ServiceIpEvent::Reply(Reply::TaskArns(Some(vec!["arn:1".to_string()])))
        ),
        ServiceIpStep::Call(Request::DescribeTasks {
            cluster: Some("main".to_string()),
            tasks: vec!["arn:1".to_string()]
        })
    );
}

#[test]
fn address_errors() {
    let bare = || Reply::Tasks(vec![task(None, vec![interface("ATTACHED", vec![])])]);
    let failed = |error| ServiceIpStep::Failed(error);
    assert_eq!(
        get_service_ip(&options(true), ServiceIpEvent::Reply(bare())),
        failed(ScalerError::NoInterfaceId)
    );
    assert_eq!(
        get_service_ip(&options(false), ServiceIpEvent::Reply(bare())),
        failed(ScalerError::NoPrivateAddress)
    );
    assert_eq!(
        get_service_ip(
            &options(true),
            ServiceIpEvent::Reply(Reply::NetworkInterfaces(vec![public(None)]))
        ),
        failed(ScalerError::NoPublicAddress)
    );
    assert_eq!(
        get_service_ip(&options(false), ServiceIpEvent::Parsed(None)),
        failed(ScalerError::NotAnAddress)
    );
    assert_eq!(
        get_service_ip(&options(false), ServiceIpEvent::Reply(Reply::Failed)),
        failed(ScalerError::CallFailed)
    );
    let addr = IpAddr::V4("10.0.0.7".to_string());
    assert_eq!(
        get_service_ip(&options(false), ServiceIpEvent::Parsed(Some(addr.clone()))),
        ServiceIpStep::Done(Some(addr))
    );
}
