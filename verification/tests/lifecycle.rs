use pingpong::error::{CallError, ConnectError, Failure};
use pingpong::lifecycle::{Action, Event, Phase, Session, EXIT_FAILURE, EXIT_SUCCESS};
use pingpong::message::{PingRequest, ServiceAddress};

/// What a run did, as its caller saw it.
struct Record {
    connects: Vec<String>,
    calls: Vec<String>,
    printed: Vec<String>,
    reported: Vec<String>,
    exit: Option<u8>,
    steps: usize,
}

/// Runs a session to its end against a stand-in for the service: `connect`
/// answers the connect, `call` answers the call.
fn drive(
    session: &mut Session,
    connect: &dyn Fn(&str) -> Result<(), ConnectError>,
    call: &dyn Fn(&str) -> Result<String, CallError>,
) -> Record {
    let mut record = Record {
        connects: Vec::new(),
        calls: Vec::new(),
        printed: Vec::new(),
        reported: Vec::new(),
        exit: None,
        steps: 0,
    };
    let mut event = Event::Continue;
    loop {
        let action = session.step(event).expect("the session takes the answer to its own action");
        record.steps += 1;
        event = match action {
            Action::Connect(address) => {
                record.connects.push(address.as_str().to_string());
                match connect(address.as_str()) {
                    Ok(()) => Event::Connected,
                    Err(error) => Event::ConnectFailed(error),
                }
            }
            Action::Proceed => Event::Continue,
            Action::Call(request) => {
                record.calls.push(request.ping().to_string());
                match call(request.ping()) {
                    Ok(pong) => Event::Replied(pong),
                    Err(error) => Event::CallFailed(error),
                }
            }
            Action::Print(text) => {
                record.printed.push(text);
                Event::Continue
            }
            Action::Report(text) => {
                record.reported.push(text);
                Event::Continue
            }
            Action::Exit(code) => {
                record.exit = Some(code);
                return record;
            }
        };
    }
}

fn fresh(address: &str, ping: &str) -> Session {
    Session::new(ServiceAddress::new(address), PingRequest::new(ping))
}

#[test]
fn fixed_reply_service_prints_pong_and_exits_zero() {
    let mut session = Session::new(ServiceAddress::local(), PingRequest::new("ping"));
    let record = drive(&mut session, &|_| Ok(()), &|_| Ok("PONG".to_string()));
    assert_eq!(record.connects, vec!["http://localhost:50051".to_string()]);
    assert_eq!(record.calls, vec!["ping".to_string()]);
    assert_eq!(record.printed, vec!["PONG".to_string()]);
    assert!(record.reported.is_empty());
    assert_eq!(record.exit, Some(0));
    assert_eq!(session.exit_status(), Some(EXIT_SUCCESS));
    match session.outcome() {
        Some(Ok(response)) => assert_eq!(response.pong(), "PONG"),
        other => panic!("unexpected outcome {:?}", other),
    }
}

#[test]
fn unreachable_port_reports_connect_error_without_call() {
    let mut session = fresh("http://localhost:1", "ping");
    let record = drive(
        &mut session,
        &|_| Err(ConnectError::new("connection refused")),
        &|_| panic!("the call must not be attempted"),
    );
    assert_eq!(record.connects, vec!["http://localhost:1".to_string()]);
    assert!(record.calls.is_empty());
    assert!(record.printed.is_empty());
    assert_eq!(record.reported, vec!["connect failed: connection refused".to_string()]);
    assert_eq!(record.exit, Some(1));
    assert_ne!(EXIT_FAILURE, 0);
    assert_eq!(session.exit_status(), Some(EXIT_FAILURE));
    assert_eq!(
        session.outcome(),
        Some(Err(&Failure::Connect(ConnectError::new("connection refused"))))
    );
}

#[test]
fn echo_service_returns_any_ping_text() {
    for ping in ["ping", "", "a\"b\\c", "päng \u{1F3D3}", "line\nbreak"] {
        for address in ["http://localhost:50051", "http://10.0.0.7:8080", "https://example.org"] {
            let mut session = fresh(address, ping);
            let record = drive(&mut session, &|_| Ok(()), &|text| Ok(text.to_string()));
            assert_eq!(record.connects, vec![address.to_string()]);
            assert_eq!(record.calls, vec![ping.to_string()]);
            assert_eq!(record.printed, vec![ping.to_string()]);
            assert_eq!(record.exit, Some(0));
            assert_eq!(record.steps, 5);
        }
    }
}

#[test]
fn pong_is_whatever_the_service_defines() {
    let mut session = fresh("http://localhost:50051", "ping");
    let record = drive(&mut session, &|_| Ok(()), &|text| Ok(format!("{}{}", text.len(), text)));
    assert_eq!(record.printed, vec!["4ping".to_string()]);
    assert_eq!(record.exit, Some(0));
}

#[test]
fn dropped_connection_is_a_transport_failure() {
    let mut session = fresh("http://localhost:50051", "ping");
    let record = drive(
        &mut session,
        &|_| Ok(()),
        &|_| Err(CallError::from_status(14, "connection reset by peer".to_string(), true)),
    );
    assert_eq!(record.calls.len(), 1);
    assert!(record.printed.is_empty());
    assert_eq!(record.reported, vec!["transport failure: connection reset by peer".to_string()]);
    assert_eq!(record.exit, Some(1));
    assert_eq!(
        session.outcome(),
        Some(Err(&Failure::Call(CallError::Transport("connection reset by peer".to_string()))))
    );
}

#[test]
fn undecodable_reply_is_a_decode_failure() {
    let mut session = fresh("http://localhost:50051", "ping");
    let record = drive(
        &mut session,
        &|_| Ok(()),
        &|_| Err(CallError::undecodable("invalid wire type".to_string())),
    );
    assert_eq!(record.calls.len(), 1);
    assert!(record.printed.is_empty());
    assert_eq!(record.reported, vec!["decode failure: invalid wire type".to_string()]);
    assert_eq!(record.exit, Some(1));
    assert_eq!(
        session.outcome(),
        Some(Err(&Failure::Call(CallError::Decode("invalid wire type".to_string()))))
    );
}

#[test]
fn error_status_is_a_remote_failure() {
    let mut session = fresh("http://localhost:50051", "ping");
    let record = drive(
        &mut session,
        &|_| Ok(()),
        &|_| Err(CallError::from_status(12, "no such method".to_string(), false)),
    );
    assert_eq!(record.reported, vec!["remote failure (status 12): no such method".to_string()]);
    assert_eq!(record.exit, Some(1));
    assert_eq!(
        session.outcome(),
        Some(Err(&Failure::Call(CallError::Remote {
            code: 12,
            message: "no such method".to_string()
        })))
    );
}

#[test]
fn one_connect_and_at_most_one_call_whatever_happens() {
    let connects: [Result<(), &str>; 2] = [Ok(()), Err("no route to host")];
    let calls: [Result<&str, CallError>; 4] = [
        Ok("PONG"),
        Err(CallError::Transport("timed out".to_string())),
        Err(CallError::Decode("truncated".to_string())),
        Err(CallError::Remote { code: 13, message: "internal".to_string() }),
    ];
    for connect in &connects {
        for call in &calls {
            let mut session = fresh("http://localhost:50051", "ping");
            let record = drive(
                &mut session,
                &|_| match connect {
                    Ok(()) => Ok(()),
                    Err(cause) => Err(ConnectError::new(cause)),
                },
                &|_| match call {
                    Ok(pong) => Ok(pong.to_string()),
                    Err(CallError::Transport(cause)) => Err(CallError::Transport(cause.clone())),
                    Err(CallError::Decode(cause)) => Err(CallError::Decode(cause.clone())),
                    Err(CallError::Remote { code, message }) => {
                        Err(CallError::Remote { code: *code, message: message.clone() })
                    }
                },
            );
            assert_eq!(record.connects.len(), 1);
            assert_eq!(record.calls.len(), if connect.is_ok() { 1 } else { 0 });
            assert_eq!(record.printed.len() + record.reported.len(), 1);
            let succeeded = connect.is_ok() && call.is_ok();
            assert_eq!(record.exit, Some(if succeeded { 0 } else { 1 }));
            assert!(record.steps <= 5);
        }
    }
}

#[test]
fn phases_follow_one_another() {
    let mut session = fresh("http://localhost:50051", "ping");
    assert_eq!(session.phase(), &Phase::Init);
    assert_eq!(session.outcome(), None);
    assert_eq!(session.exit_status(), None);
    assert_eq!(session.address().as_str(), "http://localhost:50051");
    assert_eq!(session.request().ping(), "ping");

    let action = session.step(Event::Continue);
    assert_eq!(action, Some(Action::Connect(ServiceAddress::new("http://localhost:50051"))));
    assert_eq!(session.phase(), &Phase::Connecting);

    let action = session.step(Event::Connected);
    assert_eq!(action, Some(Action::Proceed));
    assert_eq!(session.phase(), &Phase::Connected);

    let action = session.step(Event::Continue);
    assert_eq!(action, Some(Action::Call(PingRequest::new("ping"))));
    assert_eq!(session.phase(), &Phase::Calling);
    assert_eq!(session.outcome(), None);

    let action = session.step(Event::Replied("PONG".to_string()));
    assert_eq!(action, Some(Action::Print("PONG".to_string())));
    assert!(matches!(session.phase(), Phase::Succeeded(response) if response.pong() == "PONG"));
    assert_eq!(session.exit_status(), None);

    let action = session.step(Event::Continue);
    assert_eq!(action, Some(Action::Exit(EXIT_SUCCESS)));
    assert!(matches!(session.phase(), Phase::Terminated(Ok(response)) if response.pong() == "PONG"));
    assert_eq!(session.exit_status(), Some(0));
}

#[test]
fn failure_at_connect_goes_straight_to_the_end() {
    let mut session = fresh("http://localhost:50051", "ping");
    session.step(Event::Continue);
    let action = session.step(Event::ConnectFailed(ConnectError::new("dns error")));
    assert_eq!(action, Some(Action::Report("connect failed: dns error".to_string())));
    assert_eq!(session.phase(), &Phase::Failed(Failure::Connect(ConnectError::new("dns error"))));
    let action = session.step(Event::Continue);
    assert_eq!(action, Some(Action::Exit(EXIT_FAILURE)));
    assert_eq!(
        session.phase(),
        &Phase::Terminated(Err(Failure::Connect(ConnectError::new("dns error"))))
    );
}

#[test]
fn events_out_of_turn_change_nothing() {
    let mut session = fresh("http://localhost:50051", "ping");
    assert_eq!(session.step(Event::Connected), None);
    assert_eq!(session.step(Event::Replied("PONG".to_string())), None);
    assert_eq!(session.step(Event::ConnectFailed(ConnectError::new("x"))), None);
    assert_eq!(session.step(Event::CallFailed(CallError::Decode("x".to_string()))), None);
    assert_eq!(session.phase(), &Phase::Init);

    session.step(Event::Continue);
    assert_eq!(session.step(Event::Continue), None);
    assert_eq!(session.step(Event::Replied("PONG".to_string())), None);
    assert_eq!(session.phase(), &Phase::Connecting);

    session.step(Event::Connected);
    assert_eq!(session.step(Event::Connected), None);
    assert_eq!(session.step(Event::ConnectFailed(ConnectError::new("late"))), None);
    assert_eq!(session.phase(), &Phase::Connected);

    session.step(Event::Continue);
    assert_eq!(session.step(Event::Continue), None);
    assert_eq!(session.step(Event::Connected), None);
    assert_eq!(session.phase(), &Phase::Calling);
}

#[test]
fn a_finished_run_takes_no_event() {
    let mut session = fresh("http://localhost:50051", "ping");
    let record = drive(&mut session, &|_| Ok(()), &|_| Ok("PONG".to_string()));
    assert_eq!(record.exit, Some(0));
    assert_eq!(session.step(Event::Continue), None);
    assert_eq!(session.step(Event::Connected), None);
    assert_eq!(session.step(Event::Replied("again".to_string())), None);
    assert_eq!(session.step(Event::CallFailed(CallError::Transport("late".to_string()))), None);
    match session.outcome() {
        Some(Ok(response)) => assert_eq!(response.pong(), "PONG"),
        other => panic!("unexpected outcome {:?}", other),
    }
}

#[test]
fn a_recorded_failure_is_not_replaced() {
    let mut session = fresh("http://localhost:50051", "ping");
    session.step(Event::Continue);
    session.step(Event::ConnectFailed(ConnectError::new("first")));
    assert_eq!(session.step(Event::ConnectFailed(ConnectError::new("second"))), None);
    assert_eq!(session.step(Event::Connected), None);
    assert_eq!(session.step(Event::Replied("PONG".to_string())), None);
    assert_eq!(session.outcome(), Some(Err(&Failure::Connect(ConnectError::new("first")))));
    session.step(Event::Continue);
    assert_eq!(session.outcome(), Some(Err(&Failure::Connect(ConnectError::new("first")))));
}
