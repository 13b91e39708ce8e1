//! The use of an owned backend, cycle by cycle.

use mcservernap::backend_use::{BackendCycle, BackendUseCoordinator};

#[test]
fn overlapping_sessions_timestamp_only_the_final_disconnect() {
    let cycle = BackendCycle::from_launch_generation(1);
    let mut coordinator = BackendUseCoordinator::new();
    assert!(coordinator.activity_snapshot().is_none());
    coordinator.begin_cycle(cycle, 10);
    assert_eq!(
        coordinator.activity_snapshot().unwrap().proxy_idle_anchor(),
        Some(10)
    );
    assert!(coordinator.establish_login_transfer_session(cycle));
    assert!(coordinator.establish_login_transfer_session(cycle));
    let busy = coordinator.activity_snapshot().unwrap();
    assert_eq!(busy.active_login_transfer_sessions(), 2);
    assert_eq!(busy.proxy_idle_anchor(), None);

    assert!(coordinator.end_login_transfer_session(cycle, 20));
    let one = coordinator.activity_snapshot().unwrap();
    assert_eq!(one.active_login_transfer_sessions(), 1);
    assert_eq!(one.last_final_session_disconnect(), None);

    assert!(coordinator.end_login_transfer_session(cycle, 30));
    let idle = coordinator.activity_snapshot().unwrap();
    assert_eq!(idle.active_login_transfer_sessions(), 0);
    assert_eq!(idle.last_final_session_disconnect(), Some(30));
    assert_eq!(idle.proxy_idle_anchor(), Some(30));
}

#[test]
fn old_cycle_drop_cannot_change_new_cycle_activity() {
    let old = BackendCycle::from_launch_generation(1);
    let new = BackendCycle::from_launch_generation(2);
    let mut coordinator = BackendUseCoordinator::new();
    coordinator.begin_cycle(old, 10);
    assert!(coordinator.establish_login_transfer_session(old));
    coordinator.begin_cycle(new, 20);
    assert!(!coordinator.end_login_transfer_session(old, 30));
    assert!(!coordinator.establish_login_transfer_session(old));
    let snapshot = coordinator.activity_snapshot().unwrap();
    assert_eq!(snapshot.cycle(), new);
    assert_eq!(snapshot.active_login_transfer_sessions(), 0);
    assert_eq!(snapshot.last_final_session_disconnect(), None);
    assert_eq!(snapshot.proxy_idle_anchor(), Some(20));
}
