use presutaoru::{check_provenance, readiness_event, EngineError, Event, Lifecycle};

#[test]
fn recv_before_start_fails() {
    let l = Lifecycle::new();
    assert_eq!(l.check_recv(), Err(EngineError::NotStarted));
    let closed = Lifecycle { started: false, closed: true };
    assert_eq!(closed.check_recv(), Err(EngineError::NotStarted));
}

#[test]
fn start_once_then_refuse() {
    let mut l = Lifecycle::new();
    assert_eq!(l.start(), Ok(()));
    assert!(l.started);
    assert_eq!(l.check_recv(), Ok(()));
    assert_eq!(l.start(), Err(EngineError::AlreadyStarted));
    assert!(l.started && !l.closed);
}

#[test]
fn received_event_passes_through() {
    let mut l = Lifecycle::new();
    l.start().unwrap();
    assert_eq!(l.finish_recv(Some(7u32)), Ok(7));
    assert!(!l.closed);
}

#[test]
fn closed_channel_stays_closed() {
    let mut l = Lifecycle::new();
    l.start().unwrap();
    assert_eq!(l.finish_recv::<u32>(None), Err(EngineError::ChannelClosed));
    assert!(l.closed);
    assert_eq!(l.check_recv(), Err(EngineError::ChannelClosed));
    assert_eq!(l.check_recv(), Err(EngineError::ChannelClosed));
    assert_eq!(l.start(), Err(EngineError::AlreadyStarted));
    assert_eq!(l.check_recv(), Err(EngineError::ChannelClosed));
}

#[test]
fn provenance_all_validated() {
    assert_eq!(check_provenance(&vec![true, true, true]), Ok(()));
    assert_eq!(check_provenance(&vec![]), Ok(()));
}

#[test]
fn provenance_rejects_unvalidated_handle() {
    assert_eq!(
        check_provenance(&vec![true, false, true]),
        Err(EngineError::Unvalidated)
    );
    assert_eq!(check_provenance(&vec![false]), Err(EngineError::Unvalidated));
}

#[test]
fn readiness_gives_ready_or_failure() {
    match readiness_event("a", Ok(())) {
        Event::Ready(id) => assert_eq!(id, "a"),
        Event::Failure(e) => panic!("unexpected failure {e}"),
    }
    let err = std::io::Error::from_raw_os_error(5);
    match readiness_event("b", Err(err)) {
        Event::Failure(e) => assert_eq!(e.raw_os_error(), Some(5)),
        Event::Ready(_) => panic!("a failed wait must not be reported ready"),
    }
}
