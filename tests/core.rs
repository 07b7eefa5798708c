use portal_backend::{
    ActionChannel, Backend, BackendError, CloseError, CompletionSlots, Dispatcher, InterfaceKind,
    NameReply, RegisterError, Request, RequestRegistry, RequestState, Response, SendError, Slot,
    SubmitError,
};

#[test]
fn response_codes() {
    assert_eq!(Response::ok(5u8).code(), 0);
    assert_eq!(Response::<u8>::cancelled().code(), 1);
    assert_eq!(Response::<u8>::other().code(), 2);
    assert!(Response::ok(()).is_ok());
    assert!(!Response::<()>::other().is_ok());
}

#[test]
fn channel_is_first_in_first_out() {
    let mut ch = ActionChannel::new(3);
    assert!(ch.try_send(1u32).is_ok());
    assert!(ch.try_send(2u32).is_ok());
    assert!(ch.try_send(3u32).is_ok());
    assert_eq!(ch.len(), 3);
    assert_eq!(ch.poll_next(), Some(1));
    assert_eq!(ch.poll_next(), Some(2));
    assert_eq!(ch.poll_next(), Some(3));
    assert_eq!(ch.poll_next(), None);
}

#[test]
fn channel_full_hands_item_back() {
    let mut ch = ActionChannel::new(1);
    assert!(ch.try_send(7u32).is_ok());
    assert!(ch.is_full());
    match ch.try_send(8u32) {
        Err(SendError::Full(v)) => assert_eq!(v, 8),
        other => panic!("unexpected {:?}", other),
    }
    assert_eq!(ch.len(), 1);
}

#[test]
fn channel_closed_refuses_but_drains() {
    let mut ch = ActionChannel::new(4);
    assert!(ch.try_send(1u32).is_ok());
    ch.close();
    match ch.try_send(2u32) {
        Err(SendError::Closed(v)) => assert_eq!(v, 2),
        other => panic!("unexpected {:?}", other),
    }
    assert_eq!(ch.poll_next(), Some(1));
    assert_eq!(ch.poll_next(), None);
}

#[test]
fn poll_on_empty_channel_returns_none_at_once() {
    let mut ch: ActionChannel<u64> = ActionChannel::new(10);
    let start = std::time::Instant::now();
    for _ in 0..10_000 {
        assert!(ch.poll_next().is_none());
    }
    assert!(start.elapsed() < std::time::Duration::from_secs(2));
    let mut d: Dispatcher<u8, u8> = Dispatcher::new(10);
    assert!(d.poll_next().is_none());
}

#[test]
fn zero_capacity_channel_is_always_full() {
    let mut ch = ActionChannel::new(0);
    assert!(matches!(ch.try_send(1u8), Err(SendError::Full(1))));
    assert_eq!(ch.capacity(), 0);
}

#[test]
fn slot_is_filled_once_and_taken_once() {
    let mut slots = CompletionSlots::new();
    let c = slots.open().unwrap();
    assert_eq!(c, 0);
    assert!(slots.is_waiting(c));
    assert_eq!(slots.take(c), None);
    assert_eq!(slots.fill(c, "a"), Ok(()));
    assert_eq!(slots.fill(c, "b"), Err("b"));
    assert_eq!(slots.take(c), Some("a"));
    assert_eq!(slots.take(c), None);
    assert_eq!(slots.fill(c, "c"), Err("c"));
    assert_eq!(slots.fill(9, "d"), Err("d"));
}

#[test]
fn slot_states_follow_the_call() {
    let mut slots = CompletionSlots::new();
    let c = slots.open().unwrap();
    slots.fill(c, 1u8).unwrap();
    assert!(!slots.is_waiting(c));
    slots.take(c);
    assert_eq!(slots.len(), 1);
    let _ = Slot::<u8>::Delivered;
}

#[test]
fn many_calls_each_get_their_own_answer() {
    let mut d: Dispatcher<u64, u64> = Dispatcher::new(10);
    let mut calls = Vec::new();
    for token in 0..8u64 {
        calls.push(d.submit(None, token * 100).unwrap());
    }
    let mut taken = Vec::new();
    while let Some(action) = d.poll_next() {
        taken.push(action);
    }
    assert_eq!(taken.len(), 8);
    // Answer in reverse order of arrival, echoing each call's own token.
    for action in taken.into_iter().rev() {
        assert!(d.complete(action.call, action.args + 1).is_ok());
    }
    for (token, call) in calls.iter().enumerate() {
        assert_eq!(d.take_response(*call), Some(token as u64 * 100 + 1));
    }
    for call in calls {
        assert_eq!(d.take_response(call), None);
    }
}

#[test]
fn dispatcher_reports_full_and_shut() {
    let mut d: Dispatcher<u8, u8> = Dispatcher::new(2);
    assert_eq!(d.submit(None, 1), Ok(0));
    assert_eq!(d.submit(None, 2), Ok(1));
    assert_eq!(d.submit(None, 3), Err(SubmitError::Full));
    d.shut();
    assert_eq!(d.submit(None, 4), Err(SubmitError::Closed));
    assert_eq!(d.poll_next().map(|a| a.args), Some(1));
    assert_eq!(d.poll_next().map(|a| a.args), Some(2));
}

#[test]
fn dispatcher_second_answer_is_refused() {
    let mut d: Dispatcher<u8, u8> = Dispatcher::new(2);
    let c = d.submit(Some("/r/1".to_string()), 1).unwrap();
    let a = d.poll_next().unwrap();
    assert_eq!(a.handle.as_deref(), Some("/r/1"));
    assert_eq!(d.complete(c, 10), Ok(()));
    assert_eq!(d.complete(c, 11), Err(11));
    assert!(!d.is_waiting(c));
    assert_eq!(d.take_response(c), Some(10));
}

#[test]
fn registry_lifecycle() {
    let mut reg = RequestRegistry::new();
    let h = "/org/freedesktop/portal/desktop/request/1_1/t".to_string();
    assert_eq!(reg.register(h.clone()), Ok(()));
    assert_eq!(reg.register(h.clone()), Err(RegisterError::AlreadyRegistered));
    assert_eq!(reg.state(&h), Some(RequestState::Registered));
    assert_eq!(reg.finish_close(&h), Err(CloseError::NotClosing));
    assert_eq!(reg.begin_close(&h), Ok(()));
    assert_eq!(reg.state(&h), Some(RequestState::Closing));
    assert_eq!(reg.begin_close(&h), Err(CloseError::AlreadyClosing));
    assert_eq!(reg.finish_close(&h), Ok(()));
    assert_eq!(reg.state(&h), None);
    assert_eq!(reg.begin_close(&h), Err(CloseError::NotFound));
    assert_eq!(reg.finish_close(&h), Err(CloseError::NotFound));
    assert_eq!(reg.len(), 0);
}

#[test]
fn registry_keeps_other_requests() {
    let mut reg = RequestRegistry::new();
    let a = "/r/a".to_string();
    let b = "/r/b".to_string();
    let c = "/r/c".to_string();
    reg.register(a.clone()).unwrap();
    reg.register(b.clone()).unwrap();
    reg.register(c.clone()).unwrap();
    reg.begin_close(&b).unwrap();
    reg.finish_close(&b).unwrap();
    assert_eq!(reg.state(&a), Some(RequestState::Registered));
    assert_eq!(reg.state(&b), None);
    assert_eq!(reg.state(&c), Some(RequestState::Registered));
    assert_eq!(reg.len(), 2);
    // The path is free again once its request is closed.
    assert_eq!(reg.register(b.clone()), Ok(()));
}

#[test]
fn backend_fails_when_name_held_elsewhere() {
    let queued = Backend::new("org.freedesktop.impl.portal.desktop.test".to_string(), NameReply::InQueue);
    assert_eq!(queued.err(), Some(BackendError::NameTaken));
    let exists = Backend::new("org.freedesktop.impl.portal.desktop.test".to_string(), NameReply::Exists);
    assert_eq!(exists.err(), Some(BackendError::NameTaken));
}

#[test]
fn backend_registers_each_interface_once() {
    let mut b = Backend::new("org.test.portal".to_string(), NameReply::PrimaryOwner).ok().unwrap();
    assert_eq!(b.name(), "org.test.portal");
    assert!(!b.serves(InterfaceKind::Settings));
    assert_eq!(b.register_interface(InterfaceKind::Settings), Ok(()));
    assert_eq!(b.register_interface(InterfaceKind::Wallpaper), Ok(()));
    assert_eq!(b.register_interface(InterfaceKind::Settings), Err(BackendError::AlreadyRegistered));
    assert!(b.serves(InterfaceKind::Settings));
    assert_eq!(InterfaceKind::Wallpaper.name(), "org.freedesktop.impl.portal.Wallpaper");
}

#[test]
fn backend_releases_name_once() {
    let mut b = Backend::new("org.test.portal".to_string(), NameReply::AlreadyOwner).ok().unwrap();
    b.register_interface(InterfaceKind::Account).unwrap();
    assert!(b.release());
    assert!(b.released());
    assert!(!b.serves(InterfaceKind::Account));
    assert!(!b.release());
    assert_eq!(b.register_interface(InterfaceKind::Account), Err(BackendError::Released));
}

struct CountingCloser {
    closes: std::cell::Cell<u32>,
}

impl portal_backend::RequestImpl for CountingCloser {
    fn close(&self) {
        self.closes.set(self.closes.get() + 1);
    }
}

#[test]
fn request_serves_close_that_came_in_meanwhile() {
    let imp = CountingCloser { closes: std::cell::Cell::new(0) };
    let mut reg = RequestRegistry::new();
    let req = Request::new(&mut reg, "/r/q".to_string()).unwrap();
    assert_eq!(req.handle(), "/r/q");
    assert!(Request::new(&mut reg, "/r/q".to_string()).is_err());
    // Nothing asked to close: nothing happens.
    req.next(&imp, &mut reg);
    assert_eq!(imp.closes.get(), 0);
    assert_eq!(reg.state(&"/r/q".to_string()), Some(RequestState::Registered));
    // A Close arrives while the call is served.
    reg.begin_close(&"/r/q".to_string()).unwrap();
    req.next(&imp, &mut reg);
    assert_eq!(imp.closes.get(), 1);
    assert_eq!(reg.state(&"/r/q".to_string()), None);
}

#[test]
fn serve_close_runs_business_close_once() {
    let imp = CountingCloser { closes: std::cell::Cell::new(0) };
    let mut reg = RequestRegistry::new();
    let h = "/r/z".to_string();
    reg.register(h.clone()).unwrap();
    assert_eq!(portal_backend::serve_close(&imp, &mut reg, &h), Ok(()));
    assert_eq!(portal_backend::serve_close(&imp, &mut reg, &h), Err(CloseError::NotFound));
    assert_eq!(imp.closes.get(), 1);
}
