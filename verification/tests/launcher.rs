use manini::service_scaler::{
    run_scaler, ServiceScaler, TargetAction, TargetEvent, WorkerAction, WorkerEvent,
};
use manini::IpAddr;

#[test]
fn address_is_returned_at_once_where_there_is_one() {
    let (mut wait, first) = ServiceScaler::start();
    assert!(matches!(first, TargetAction::ReadAddress));
    let addr = IpAddr::V4("10.0.0.7".to_string());
    match wait.target_addr(TargetEvent::Address(Some(addr.clone()))) {
        TargetAction::Return(found) => assert_eq!(found, addr),
        other => panic!("no address: {:?}", other),
    }
    assert_eq!(wait, ServiceScaler::Done);
}

#[test]
fn worker_is_woken_once() {
    let (mut wait, _) = ServiceScaler::start();
    assert!(matches!(wait.target_addr(TargetEvent::Address(None)), TargetAction::MarkPending));
    assert!(matches!(
        wait.target_addr(TargetEvent::Marked { already_pending: false }),
        TargetAction::AwaitChange { notify: true }
    ));
    assert!(wait.accepts_event(&TargetEvent::Changed(true)));
    assert!(!wait.accepts_event(&TargetEvent::Address(None)));
    assert!(matches!(wait.target_addr(TargetEvent::Changed(true)), TargetAction::ReadAddress));
    wait.target_addr(TargetEvent::Address(None));
    assert!(matches!(
        wait.target_addr(TargetEvent::Marked { already_pending: true }),
        TargetAction::AwaitChange { notify: false }
    ));
}

#[test]
fn request_waits_for_ever_when_the_worker_is_gone() {
    let (mut wait, _) = ServiceScaler::start();
    wait.target_addr(TargetEvent::Address(None));
    wait.target_addr(TargetEvent::Marked { already_pending: true });
    assert!(matches!(wait.target_addr(TargetEvent::Changed(false)), TargetAction::Pend));
    assert_eq!(wait, ServiceScaler::Never);
}

#[test]
fn launcher_stops_when_no_one_is_left() {
    assert_eq!(run_scaler(WorkerEvent::Notified), WorkerAction::Wait(30));
    assert_eq!(run_scaler(WorkerEvent::Idle), WorkerAction::Wait(30));
    assert_eq!(run_scaler(WorkerEvent::Closed), WorkerAction::Stop);
}
