use actuator_bridge::actuator::ActuatorState;
use actuator_bridge::connection::{
    ConnectionError, ConnectionEvent, ConnectionManager, ConnectionState, Ipv4Address, RetryPolicy,
};
use actuator_bridge::page::CONTROL_PAGE;
use actuator_bridge::router::{
    find_split, reason_of, ContentType, Handled, HttpResponse, Method, Router,
};
use actuator_bridge::decoder::DecodeError;
use actuator_bridge::sink::SinkGuard;
use actuator_bridge::text::chars_of;

fn boot() -> ActuatorState {
    ActuatorState { speed: 0, steering: 0, headlight: false, sequence: 0 }
}

#[test]
fn root_serves_the_control_page() {
    let mut router = Router::new();
    let h = router.handle(Method::Get, "/");
    assert_eq!(h.response.status, 200);
    assert_eq!(h.response.content_type, ContentType::Html);
    assert_eq!(h.response.body, CONTROL_PAGE);
    assert!(h.response.body.starts_with("<!DOCTYPE html>\n<html>"));
    assert!(h.response.body.ends_with("</html>\n"));
    assert_eq!(h.update, None);
    assert_eq!(router.snapshot(), boot());
}

#[test]
fn speed_in_range_is_applied() {
    for v in 0..=100 {
        let mut router = Router::new();
        let raw = format!("{}", v);
        let h = router.handle(Method::Get, &format!("/updateSpeed/{}", raw));
        assert_eq!(h.response.status, 200);
        assert_eq!(h.response.content_type, ContentType::Plain);
        assert_eq!(h.response.body, raw);
        let s = router.snapshot();
        assert_eq!(s.speed, v);
        assert_eq!(s.sequence, 1);
        assert_eq!(h.update, Some(s));
    }
}

#[test]
fn speed_out_of_range_is_refused() {
    for raw in ["-1", "101", "1000", "-100", "4294967296"] {
        let mut router = Router::new();
        router.handle(Method::Get, "/updateSpeed/40");
        let before = router.snapshot();
        let h = router.handle(Method::Get, &format!("/updateSpeed/{}", raw));
        assert_eq!(h.response.status, 400);
        assert_eq!(h.response.body, "OutOfRange");
        assert_eq!(h.update, None);
        assert_eq!(router.snapshot(), before);
    }
}

#[test]
fn speed_that_is_no_number_is_refused() {
    for raw in ["abc", "", "1e2", "a/b", "5/", "/"] {
        let mut router = Router::new();
        router.handle(Method::Get, "/updateSpeed/40");
        let before = router.snapshot();
        let h = router.handle(Method::Get, &format!("/updateSpeed/{}", raw));
        assert_eq!(h.response.status, 400, "{:?}", raw);
        assert_eq!(h.response.body, "NotANumber");
        assert_eq!(h.update, None);
        assert_eq!(router.snapshot(), before);
    }
}

#[test]
fn steering_route() {
    let mut router = Router::new();
    let h = router.handle(Method::Get, "/updateSteering/-45");
    assert_eq!(h.response.status, 200);
    assert_eq!(h.response.body, "-45");
    assert_eq!(router.snapshot().steering, -45);
    let h = router.handle(Method::Get, "/updateSteering/46");
    assert_eq!(h.response.status, 400);
    assert_eq!(h.response.body, "OutOfRange");
    let h = router.handle(Method::Get, "/updateSteering/right");
    assert_eq!(h.response.status, 400);
    assert_eq!(h.response.body, "NotANumber");
    assert_eq!(
        router.snapshot(),
        ActuatorState { speed: 0, steering: -45, headlight: false, sequence: 1 }
    );
}

#[test]
fn headlight_on_then_off() {
    let mut router = Router::new();
    let before = router.snapshot().sequence;
    let on = router.handle(Method::Get, "/toggleHeadlight/true");
    assert_eq!(on.response.status, 200);
    assert_eq!(on.response.body, "true");
    assert!(router.snapshot().headlight);
    let off = router.handle(Method::Get, "/toggleHeadlight/false");
    assert_eq!(off.response.status, 200);
    assert_eq!(off.response.body, "false");
    assert!(!router.snapshot().headlight);
    assert_eq!(router.snapshot().sequence, before + 2);
}

#[test]
fn headlight_takes_only_the_two_literals() {
    let mut router = Router::new();
    for raw in ["True", "1", "", "on", "false/"] {
        let h = router.handle(Method::Get, &format!("/toggleHeadlight/{}", raw));
        assert_eq!(h.response.status, 400, "{:?}", raw);
        assert_eq!(h.response.body, "NotABoolean");
    }
    assert_eq!(router.snapshot(), boot());
}

fn managers_in_every_state() -> Vec<ConnectionManager> {
    let policy = RetryPolicy { timeout: 20, max_attempts: 1, backoff_base: 1, backoff_cap: 1 };
    let disconnected = ConnectionManager::new(policy).unwrap();
    let mut connecting = ConnectionManager::new(policy).unwrap();
    connecting.start(0);
    let mut connected = ConnectionManager::new(policy).unwrap();
    connected.start(0);
    connected.on_event(ConnectionEvent::Joined(Ipv4Address(10, 0, 0, 7)), 1);
    let mut timed_out = ConnectionManager::new(policy).unwrap();
    timed_out.start(0);
    timed_out.on_event(ConnectionEvent::Tick, 21);
    let mut rejected = ConnectionManager::new(policy).unwrap();
    rejected.start(0);
    rejected.on_event(ConnectionEvent::Rejected, 1);
    let mut halted = ConnectionManager::new(policy).unwrap();
    halted.start(0);
    halted.on_event(ConnectionEvent::Rejected, 1);
    halted.on_event(ConnectionEvent::Tick, 2);
    vec![disconnected, connecting, connected, timed_out, rejected, halted]
}

#[test]
fn unknown_route_is_not_found_in_every_connection_state() {
    let managers = managers_in_every_state();
    assert_eq!(managers[0].state(), ConnectionState::Disconnected);
    assert_eq!(managers[1].state(), ConnectionState::Connecting { attempt: 1, started: 0 });
    assert_eq!(managers[2].state(), ConnectionState::Connected { ip: Ipv4Address(10, 0, 0, 7) });
    assert_eq!(managers[3].state(), ConnectionState::Failed { reason: ConnectionError::Timeout });
    assert_eq!(
        managers[4].state(),
        ConnectionState::Failed { reason: ConnectionError::JoinRejected }
    );
    assert_eq!(
        managers[5].state(),
        ConnectionState::Failed { reason: ConnectionError::RetryCapExceeded }
    );
    for _manager in &managers {
        let mut router = Router::new();
        let h = router.handle(Method::Get, "/unknown/1");
        assert_eq!(h.response.status, 404);
        assert_eq!(h.response.body, "NotFound");
        assert_eq!(h.update, None);
        assert_eq!(router.snapshot(), boot());
    }
}

#[test]
fn serving_starts_only_when_connected() {
    for manager in managers_in_every_state() {
        let router = Router::start(&manager.state());
        assert_eq!(router.is_some(), manager.is_connected());
        if let Some(r) = router {
            assert_eq!(r.snapshot(), boot());
            assert!(r.has_room());
        }
    }
}

#[test]
fn unmatched_paths_are_not_found() {
    let mut router = Router::new();
    for path in [
        "",
        "updateSpeed/5",
        "/updateSpeed",
        "/index.html",
        "//5",
        "/updatespeed/5",
        "/updateSpeed1/5",
        "/toggleLED1/true",
        "/UPDATESPEED/5",
        " /updateSpeed/5",
    ] {
        let h = router.handle(Method::Get, path);
        assert_eq!(h.response.status, 404, "{:?}", path);
        assert_eq!(h.response.content_type, ContentType::Plain);
        assert_eq!(h.response.body, "NotFound");
        assert_eq!(h.update, None);
    }
    assert_eq!(router.snapshot(), boot());
}

#[test]
fn other_methods_are_not_found() {
    let mut router = Router::new();
    for method in [
        Method::Head,
        Method::Post,
        Method::Put,
        Method::Delete,
        Method::Options,
        Method::Patch,
        Method::Other,
    ] {
        for path in ["/", "/updateSpeed/5", "/toggleHeadlight/true", "/unknown/1"] {
            let h = router.handle(method, path);
            assert_eq!(h.response.status, 404);
            assert_eq!(h.update, None);
        }
    }
    assert_eq!(router.snapshot(), boot());
}

#[test]
fn path_splits_at_its_second_slash() {
    assert_eq!(find_split(&chars_of("/updateSpeed/5")), Some(12));
    assert_eq!(find_split(&chars_of("/a/b/c")), Some(2));
    assert_eq!(find_split(&chars_of("//")), Some(1));
    assert_eq!(find_split(&chars_of("/a/")), Some(2));
    assert_eq!(find_split(&chars_of("/")), None);
    assert_eq!(find_split(&chars_of("/abc")), None);
    assert_eq!(find_split(&chars_of("a/b")), None);
    assert_eq!(find_split(&chars_of("")), None);
}

#[test]
fn parameter_is_echoed_as_it_came() {
    let mut router = Router::new();
    let h = router.handle(Method::Get, "/updateSpeed/+007");
    assert_eq!(h.response.status, 200);
    assert_eq!(h.response.body, "+007");
    assert_eq!(router.snapshot().speed, 7);
}

#[test]
fn reasons_name_the_error() {
    assert_eq!(reason_of(DecodeError::NotANumber), "NotANumber");
    assert_eq!(reason_of(DecodeError::NotABoolean), "NotABoolean");
    assert_eq!(reason_of(DecodeError::OutOfRange), "OutOfRange");
    assert_eq!(reason_of(DecodeError::UnknownRoute), "UnknownRoute");
}

#[test]
fn responses_are_built_as_asked() {
    let r = HttpResponse::plain(400, "NotANumber");
    assert_eq!(r.status, 400);
    assert_eq!(r.content_type, ContentType::Plain);
    assert_eq!(r.body, "NotANumber");
    assert!(!r.is_success());
    let p = HttpResponse::page();
    assert_eq!(p.status, 200);
    assert_eq!(p.content_type, ContentType::Html);
    assert!(p.is_success());
}

#[test]
fn sink_failure_fails_the_request_only() {
    let mut router = Router::new();
    let h = router.handle(Method::Get, "/updateSpeed/5");
    let r = h.settle(false);
    assert_eq!(r.status, 500);
    assert_eq!(r.body, "SinkFailed");
    // The next request may succeed.
    let h = router.handle(Method::Get, "/updateSpeed/6");
    let r = h.settle(true);
    assert_eq!(r.status, 200);
    assert_eq!(r.body, "6");
    // Where nothing was to be applied, the sink has no say.
    let h = router.handle(Method::Get, "/updateSpeed/abc");
    assert_eq!(h.settle(false).status, 400);
    let h = router.handle(Method::Get, "/");
    assert_eq!(h.settle(false).status, 200);
    let h = Handled { response: HttpResponse::plain(404, "NotFound"), update: None };
    assert_eq!(h.settle(false).status, 404);
}

#[test]
fn sequence_counts_the_accepted_requests() {
    let mut router = Router::new();
    let mut guard = SinkGuard::new(1000);
    let requests = [
        (Method::Get, "/updateSpeed/10"),
        (Method::Get, "/updateSpeed/101"),
        (Method::Get, "/"),
        (Method::Post, "/updateSpeed/20"),
        (Method::Get, "/updateSteering/-5"),
        (Method::Get, "/toggleHeadlight/maybe"),
        (Method::Get, "/toggleHeadlight/true"),
        (Method::Get, "/nowhere/1"),
        (Method::Get, "/updateSpeed/0"),
    ];
    let mut accepted: u64 = 0;
    for (method, path) in requests {
        let before = router.snapshot();
        let h = router.handle(method, path);
        let after = router.snapshot();
        match h.update {
            Some(s) => {
                accepted += 1;
                assert_eq!(h.response.status, 200);
                assert_eq!(s, after);
                assert_eq!(after.sequence, before.sequence + 1);
                // Snapshots reach the hardware in rising order.
                assert!(guard.accept(&s).is_some());
            },
            None => assert_eq!(after, before),
        }
    }
    assert_eq!(accepted, 4);
    assert_eq!(
        router.snapshot(),
        ActuatorState { speed: 0, steering: -5, headlight: true, sequence: 4 }
    );
    assert_eq!(guard.last_applied(), 4);
}
