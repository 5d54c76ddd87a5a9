use std::time::Duration;

use hyper_timeout::connector::poll_ready_from;
use hyper_timeout::{ConnectError, Progress, TimeoutConnector};

#[test]
fn new_connector_has_no_deadlines() {
    let c = TimeoutConnector::new(42u32);
    let p = c.plan();
    assert_eq!(p.connect_timeout, None);
    assert_eq!(p.read_timeout, None);
    assert_eq!(p.write_timeout, None);
}

#[test]
fn setters_change_only_their_own_deadline() {
    let mut c = TimeoutConnector::new(0u8);
    c.set_connect_timeout(Some(Duration::from_secs(5)));
    let p = c.plan();
    assert_eq!(p.connect_timeout, Some(Duration::from_secs(5)));
    assert_eq!(p.read_timeout, None);
    assert_eq!(p.write_timeout, None);

    c.set_read_timeout(Some(Duration::from_millis(50)));
    let p = c.plan();
    assert_eq!(p.connect_timeout, Some(Duration::from_secs(5)));
    assert_eq!(p.read_timeout, Some(Duration::from_millis(50)));
    assert_eq!(p.write_timeout, None);

    c.set_write_timeout(Some(Duration::from_millis(7)));
    c.set_connect_timeout(None);
    let p = c.plan();
    assert_eq!(p.connect_timeout, None);
    assert_eq!(p.read_timeout, Some(Duration::from_millis(50)));
    assert_eq!(p.write_timeout, Some(Duration::from_millis(7)));
}

#[test]
fn plan_is_a_snapshot() {
    let mut c = TimeoutConnector::new(0u8);
    c.set_read_timeout(Some(Duration::from_millis(10)));
    let p = c.plan();
    c.set_read_timeout(Some(Duration::from_millis(20)));
    assert_eq!(p.read_timeout, Some(Duration::from_millis(10)));
    assert_eq!(c.plan().read_timeout, Some(Duration::from_millis(20)));
}

#[test]
fn get_mut_reaches_the_inner_connector() {
    let mut c = TimeoutConnector::new(1u32);
    c.set_write_timeout(Some(Duration::from_millis(3)));
    *c.get_mut() += 9;
    assert_eq!(*c.get_mut(), 10);
    assert_eq!(c.plan().write_timeout, Some(Duration::from_millis(3)));
}

#[test]
fn connect_deadline_fires_on_pending_attempt() {
    let mut c = TimeoutConnector::new(());
    c.set_connect_timeout(Some(Duration::from_millis(1)));
    let p = c.plan();
    let r = p.poll_connect(Progress::<Result<u8, String>>::Pending, true);
    match r {
        Progress::Ready(Err(e)) => assert!(e.is_timeout()),
        other => panic!("expected a timeout, got {:?}", other),
    }
}

#[test]
fn connect_deadline_not_yet_fired_stays_pending() {
    let mut c = TimeoutConnector::new(());
    c.set_connect_timeout(Some(Duration::from_millis(1)));
    let r = c.plan().poll_connect(Progress::<Result<u8, String>>::Pending, false);
    assert!(matches!(r, Progress::Pending));
}

#[test]
fn no_connect_deadline_never_times_out() {
    let p = TimeoutConnector::new(()).plan();
    let r = p.poll_connect(Progress::<Result<u8, String>>::Pending, true);
    assert!(matches!(r, Progress::Pending));
    let r = p.poll_connect(Progress::<Result<u8, String>>::Ready(Ok(5)), true);
    match r {
        Progress::Ready(Ok(st)) => assert_eq!(st.into_inner(), 5),
        other => panic!("expected a stream, got {:?}", other),
    }
}

#[test]
fn completion_wins_tie_with_zero_timer() {
    let mut c = TimeoutConnector::new(());
    c.set_connect_timeout(Some(Duration::from_millis(0)));
    c.set_read_timeout(Some(Duration::from_millis(50)));
    let r = c.plan().poll_connect(Progress::<Result<u8, String>>::Ready(Ok(9)), true);
    match r {
        Progress::Ready(Ok(st)) => {
            assert_eq!(st.read_timeout(), Some(Duration::from_millis(50)));
            assert_eq!(st.write_timeout(), None);
            assert_eq!(*st.get_ref(), 9);
        }
        other => panic!("expected a stream, got {:?}", other),
    }
}

#[test]
fn inner_error_is_passed_on_even_when_timer_fired() {
    let mut c = TimeoutConnector::new(());
    c.set_connect_timeout(Some(Duration::from_millis(1)));
    let r = c
        .plan()
        .poll_connect(Progress::<Result<u8, String>>::Ready(Err("refused".to_string())), true);
    match r {
        Progress::Ready(Err(ConnectError::Inner(e))) => assert_eq!(e, "refused"),
        other => panic!("expected the inner error, got {:?}", other),
    }
}

#[test]
fn read_deadline_only_leaves_stream_write_unbounded() {
    let mut c = TimeoutConnector::new(());
    c.set_read_timeout(Some(Duration::from_millis(1)));
    let r = c.plan().poll_connect(Progress::<Result<u8, String>>::Ready(Ok(1)), false);
    match r {
        Progress::Ready(Ok(st)) => {
            assert_eq!(st.read_timeout(), Some(Duration::from_millis(1)));
            assert_eq!(st.write_timeout(), None);
        }
        other => panic!("expected a stream, got {:?}", other),
    }
}

#[test]
fn write_deadline_only_leaves_stream_read_unbounded() {
    let mut c = TimeoutConnector::new(());
    c.set_write_timeout(Some(Duration::from_millis(1)));
    let r = c.plan().poll_connect(Progress::<Result<u8, String>>::Ready(Ok(1)), false);
    match r {
        Progress::Ready(Ok(st)) => {
            assert_eq!(st.read_timeout(), None);
            assert_eq!(st.write_timeout(), Some(Duration::from_millis(1)));
        }
        other => panic!("expected a stream, got {:?}", other),
    }
}

#[test]
fn readiness_is_passed_on() {
    assert!(matches!(
        poll_ready_from(Progress::<Result<(), String>>::Ready(Ok(()))),
        Progress::Ready(Ok(()))
    ));
    assert!(matches!(
        poll_ready_from(Progress::<Result<(), String>>::Pending),
        Progress::Pending
    ));
    match poll_ready_from(Progress::<Result<(), String>>::Ready(Err("busy".to_string()))) {
        Progress::Ready(Err(ConnectError::Inner(e))) => assert_eq!(e, "busy"),
        other => panic!("expected the inner error, got {:?}", other),
    }
}

#[test]
fn timeout_classification() {
    assert!(ConnectError::<String>::TimedOut.is_timeout());
    assert!(!ConnectError::Inner("x".to_string()).is_timeout());
}
