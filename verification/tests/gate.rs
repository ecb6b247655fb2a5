use system_manager_server::gate::Gate;

#[test]
fn second_session_waits_until_first_releases() {
    let mut gate = Gate::new();
    let first = gate.acquire(1).expect("a free gate admits");
    assert!(gate.acquire(2).is_none());
    assert_eq!(gate.holder(), Some(1));
    assert_eq!(gate.waiting(), 1);
    assert!(gate.is_waiting(2));
    let second = gate.release(first).expect("the waiting session is admitted");
    assert_eq!(second.session(), 2);
    assert_eq!(gate.holder(), Some(2));
    assert!(!gate.is_waiting(2));
    assert!(gate.release(second).is_none());
    assert_eq!(gate.holder(), None);
}

#[test]
fn many_sessions_are_admitted_one_by_one_in_order() {
    let mut gate = Gate::new();
    let mut token = gate.acquire(10).expect("a free gate admits");
    for session in 11..20u64 {
        assert!(gate.acquire(session).is_none());
    }
    let mut inside = 1;
    for session in 11..20u64 {
        token = gate.release(token).expect("someone waits");
        assert_eq!(token.session(), session);
        assert_eq!(gate.holder(), Some(session));
        assert!(inside <= 1);
        inside = 1;
    }
    assert!(gate.release(token).is_none());
    assert_eq!(gate.waiting(), 0);
}

#[test]
fn asking_twice_does_not_queue_twice() {
    let mut gate = Gate::new();
    let token = gate.acquire(1).expect("admitted");
    assert!(gate.acquire(1).is_none());
    assert_eq!(gate.waiting(), 0);
    assert!(gate.acquire(2).is_none());
    assert!(gate.acquire(2).is_none());
    assert_eq!(gate.waiting(), 1);
    let next = gate.release(token).expect("admitted");
    assert_eq!(next.session(), 2);
}

#[test]
fn withdrawn_session_is_passed_over() {
    let mut gate = Gate::new();
    let token = gate.acquire(1).expect("admitted");
    assert!(gate.acquire(2).is_none());
    assert!(gate.acquire(3).is_none());
    gate.withdraw(2);
    assert!(!gate.is_waiting(2));
    let next = gate.release(token).expect("admitted");
    assert_eq!(next.session(), 3);
}

#[test]
fn token_of_another_gate_releases_nothing() {
    let mut gate = Gate::new();
    let mut other = Gate::new();
    let _inside = gate.acquire(1).expect("admitted");
    let foreign = other.acquire(2).expect("admitted");
    assert!(gate.acquire(3).is_none());
    assert!(gate.release(foreign).is_none());
    assert_eq!(gate.holder(), Some(1));
    assert_eq!(gate.waiting(), 1);
}
