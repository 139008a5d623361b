use supervisor::coordinator::{InstanceHandler, InstanceStatus};
use supervisor::slot::Slot;
use supervisor::startup::Startup;
use supervisor::steps::{Action, Outcome, Script};

fn started() -> InstanceHandler<u32> {
    let mut h: InstanceHandler<u32> = InstanceHandler::new();
    let mut s = Startup::new();
    let mut out = Outcome::Begin;
    loop {
        match s.next(&mut h, out) {
            Action::Run(_, _) => out = Outcome::Exited(true),
            Action::Spawn(Slot::One) => out = Outcome::Spawned(1),
            Action::Done(ok) => {
                assert!(ok);
                return h;
            }
            _ => panic!("unexpected startup action"),
        }
    }
}

#[test]
fn cold_start_happy_path() {
    let h = started();
    assert_eq!(
        h.status_snapshot(),
        InstanceStatus {
            current_main_instance: Some(Slot::One),
            instance1_running: true,
            instance2_running: false,
            update_in_progress: false,
            queued_update_requests: 0,
        }
    );
    assert_eq!(h.world_backend(), Slot::One);
}

#[test]
fn startup_runs_scripts_in_order() {
    let mut h: InstanceHandler<u32> = InstanceHandler::new();
    let mut s = Startup::new();
    assert!(matches!(s.next(&mut h, Outcome::Begin), Action::Run(Script::PullLatestGitChanges, None)));
    // pulling is advisory
    assert!(matches!(s.next(&mut h, Outcome::Exited(false)), Action::Run(Script::CleanupInstances, None)));
    assert!(matches!(s.next(&mut h, Outcome::Exited(false)), Action::Run(Script::CreateNewBuild, None)));
    assert!(matches!(
        s.next(&mut h, Outcome::Exited(true)),
        Action::Run(Script::MoveBuildToInstance, Some(Slot::One))
    ));
    assert!(matches!(s.next(&mut h, Outcome::Exited(true)), Action::Spawn(Slot::One)));
    assert_eq!(h.active(), Some(Slot::One));
    assert!(matches!(s.next(&mut h, Outcome::Spawned(7)), Action::Done(true)));
    assert!(h.is_running(Slot::One));
}

#[test]
fn startup_stops_on_failed_build() {
    let mut h: InstanceHandler<u32> = InstanceHandler::new();
    let mut s = Startup::new();
    s.next(&mut h, Outcome::Begin);
    s.next(&mut h, Outcome::Exited(true));
    s.next(&mut h, Outcome::Exited(true));
    assert!(matches!(s.next(&mut h, Outcome::Exited(false)), Action::Done(false)));
    assert_eq!(h.active(), None);
    assert!(!h.is_running(Slot::One));
}

#[test]
fn status_snapshot_is_pure() {
    let mut h = started();
    let _rx = h.queue_update_request();
    let first = h.status_snapshot();
    for _ in 0..5 {
        assert_eq!(h.status_snapshot(), first);
    }
    assert!(first.update_in_progress);
    assert_eq!(first.queued_update_requests, 0);
}

#[test]
fn first_caller_admitted_others_parked() {
    let mut h: InstanceHandler<u32> = InstanceHandler::new();
    assert!(h.queue_update_request().is_none());
    assert!(h.status_snapshot().update_in_progress);
    let r1 = h.queue_update_request();
    let r2 = h.queue_update_request();
    assert!(r1.is_some() && r2.is_some());
    assert_eq!(h.status_snapshot().queued_update_requests, 2);
}

#[test]
fn waiters_woken_in_arrival_order() {
    let mut h: InstanceHandler<u32> = InstanceHandler::new();
    assert!(h.queue_update_request().is_none());
    let mut a = h.queue_update_request().unwrap();
    let mut b = h.queue_update_request().unwrap();
    assert!(h.process_next_queued_update());
    assert!(a.try_recv().is_ok());
    assert!(b.try_recv().is_err());
    assert!(h.status_snapshot().update_in_progress);
    assert!(h.process_next_queued_update());
    assert!(b.try_recv().is_ok());
    assert!(!h.process_next_queued_update());
    assert!(!h.status_snapshot().update_in_progress);
    assert_eq!(h.status_snapshot().queued_update_requests, 0);
}

#[test]
fn gone_waiter_is_skipped() {
    let mut h: InstanceHandler<u32> = InstanceHandler::new();
    assert!(h.queue_update_request().is_none());
    let a = h.queue_update_request().unwrap();
    let mut b = h.queue_update_request().unwrap();
    drop(a);
    assert!(h.process_next_queued_update());
    assert!(b.try_recv().is_ok());
    assert_eq!(h.status_snapshot().queued_update_requests, 0);
    assert!(h.status_snapshot().update_in_progress);
}

#[test]
fn release_with_only_gone_waiters_clears_flag() {
    let mut h: InstanceHandler<u32> = InstanceHandler::new();
    assert!(h.queue_update_request().is_none());
    drop(h.queue_update_request());
    assert!(!h.process_next_queued_update());
    assert!(!h.status_snapshot().update_in_progress);
}

#[test]
fn terminate_takes_process_out() {
    let mut h = started();
    assert_eq!(h.terminate_instance(Slot::One), Some(1));
    assert!(!h.is_running(Slot::One));
    assert_eq!(h.terminate_instance(Slot::One), None);
    assert_eq!(h.terminate_instance(Slot::Two), None);
}

#[test]
fn shutdown_clears_everything_and_cancels_waiters() {
    let mut h = started();
    assert!(h.queue_update_request().is_none());
    let mut rx = h.queue_update_request().unwrap();
    let (first, second) = h.shutdown();
    assert_eq!(first, Some(1));
    assert_eq!(second, None);
    assert_eq!(
        h.status_snapshot(),
        InstanceStatus {
            current_main_instance: None,
            instance1_running: false,
            instance2_running: false,
            update_in_progress: false,
            queued_update_requests: 0,
        }
    );
    assert!(matches!(
        rx.try_recv(),
        Err(tokio::sync::oneshot::error::TryRecvError::Closed)
    ));
}

#[test]
fn pop_next_waiter_takes_oldest() {
    let mut h: InstanceHandler<u32> = InstanceHandler::new();
    assert!(h.queue_update_request().is_none());
    let mut a = h.queue_update_request().unwrap();
    let mut b = h.queue_update_request().unwrap();
    let first = h.pop_next_waiter().unwrap();
    assert_eq!(h.status_snapshot().queued_update_requests, 1);
    assert!(h.status_snapshot().update_in_progress);
    assert!(first.send(()).is_ok());
    assert!(a.try_recv().is_ok());
    assert!(b.try_recv().is_err());
    assert!(h.pop_next_waiter().is_some());
    assert!(h.pop_next_waiter().is_none());
    assert!(!h.status_snapshot().update_in_progress);
}
