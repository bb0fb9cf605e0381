use libaegis::{
    Action, AegisError, Command, Component, ComponentState, Config, Envelope, Event, Json, LineRead,
    MessageType, Outgoing, Payload, WATCHDOG_PERIOD_SECS,
};

const SEC: u64 = 1_000_000_000;

fn config() -> Config {
    Config {
        socket_path: "/tmp/aegis.sock".to_string(),
        session_token: "tok".to_string(),
        component_name: "market_data".to_string(),
        version: "0.1.0".to_string(),
        supported_symbols: vec!["BTCUSDT".to_string(), "ETHUSDT".to_string()],
        supported_timeframes: vec!["1m".to_string()],
        supported_orderbook_speeds: vec![],
        requires_streams: vec!["klines".to_string()],
        reconnect: true,
        max_reconnect_attempts: 10,
        reconnect_delay: SEC as u128,
        max_reconnect_delay: 30 * SEC as u128,
        ping_timeout: 25 * SEC as u128,
    }
}

fn envelope(id: &str, msg_type: MessageType, command: Command, fields: Vec<(&str, Json)>) -> Event {
    let mut payload = Payload::new();
    for (k, v) in fields {
        payload.insert(k, v);
    }
    Event::Received(LineRead::Line {
        bytes: 1,
        parsed: Ok(Envelope { message_id: id.to_string(), msg_type, command, payload }),
    })
}

fn registered(id: &str, session: &str) -> Event {
    envelope(
        "r",
        MessageType::Lifecycle,
        Command::Registered,
        vec![("component_id", Json::text(id)), ("session_id", Json::text(session))],
    )
}

fn ack() -> Event {
    envelope("a", MessageType::Control, Command::Ack, vec![])
}

fn connected() -> Event {
    Event::Connected { session_token: None, component_id: None }
}

fn step(c: &mut Component, event: Event, now: u64) -> Action {
    assert!(c.accepts(&event));
    c.step(event, now)
}

fn sent(action: Action) -> Outgoing {
    match action {
        Action::Send(m) => m,
        _ => panic!("no message"),
    }
}

fn text(m: &Outgoing, key: &str) -> String {
    m.payload.text_or(key, "<none>")
}

fn closed(action: Action) -> Result<(), AegisError> {
    match action {
        Action::Close(r) => r,
        _ => panic!("still open"),
    }
}

fn listening(action: Action) -> bool {
    matches!(action, Action::Receive { deadline_secs: None })
}

/// Runs the registration and leaves the component listening.
fn register(c: &mut Component, now: u64) {
    step(c, connected(), now);
    step(c, Event::Sent, now);
    step(c, registered("cmp-1", "sess-1"), now);
    step(c, Event::Sent, now);
    step(c, ack(), now);
    step(c, Event::Sent, now);
    assert!(matches!(step(c, ack(), now), Action::StartWatchdog { .. }));
    assert!(listening(step(c, Event::Done, now)));
}

fn configure() -> Event {
    envelope(
        "cfg",
        MessageType::Config,
        Command::Configure,
        vec![
            ("data_stream_socket", Json::text("/tmp/data.sock")),
            ("topics", Json::Array(vec![Json::text("t1"), Json::Number(4), Json::text("t2")])),
        ],
    )
}

/// Registers and configures; the component is running afterwards.
fn running(now: u64) -> Component {
    let mut c = Component::new(config(), now);
    register(&mut c, now);
    step(&mut c, configure(), now);
    step(&mut c, Event::Done, now);
    step(&mut c, Event::Sent, now);
    step(&mut c, Event::Sent, now);
    assert!(matches!(step(&mut c, Event::Sent, now), Action::OnRunning { .. }));
    assert!(listening(step(&mut c, Event::Done, now)));
    c
}

#[test]
fn a_new_component_is_nameless() {
    let c = Component::new(config(), 5);
    assert_eq!(c.component_id(), "");
    assert_eq!(c.session_id(), "");
    assert_eq!(c.state(), ComponentState::Init);
    assert_eq!(c.config().component_name, "market_data");
}

#[test]
fn registration_in_order() {
    let mut c = Component::new(config(), 0);
    let m = sent(step(&mut c, connected(), 0));
    assert_eq!(m.msg_type, MessageType::Lifecycle);
    assert_eq!(m.command, Command::Register);
    assert_eq!(m.source, "component:market_data");
    assert_eq!(m.correlation_id, None);
    assert_eq!(text(&m, "session_token"), "tok");
    assert_eq!(text(&m, "component_name"), "market_data");
    assert_eq!(text(&m, "version"), "0.1.0");
    assert!(m.payload.get("component_id").is_none());
    match m.payload.get("capabilities") {
        Some(Json::Object(fields)) => {
            let names: Vec<&str> = fields.iter().map(|f| f.0.as_str()).collect();
            assert_eq!(
                names,
                vec![
                    "supported_symbols",
                    "supported_timeframes",
                    "supported_orderbook_speeds",
                    "requires_streams"
                ]
            );
            let symbols = fields[0].1.as_array().unwrap();
            assert_eq!(symbols.len(), 2);
            assert_eq!(symbols[1].as_str(), Some("ETHUSDT"));
            assert!(fields[2].1.as_array().unwrap().is_empty());
            assert_eq!(fields[3].1.as_array().unwrap()[0].as_str(), Some("klines"));
        }
        _ => panic!("no capabilities"),
    }

    let a = step(&mut c, Event::Sent, 0);
    assert!(matches!(a, Action::Receive { deadline_secs: Some(15) }));
    let m = sent(step(&mut c, registered("cmp-1", "sess-1"), 0));
    assert_eq!(c.state(), ComponentState::Registered);
    assert_eq!(c.component_id(), "cmp-1");
    assert_eq!(c.session_id(), "sess-1");
    assert_eq!(m.command, Command::StateUpdate);
    assert_eq!(text(&m, "state"), "INITIALIZING");
    assert!(m.payload.get("message").is_none());

    let a = step(&mut c, Event::Sent, 0);
    assert!(matches!(a, Action::Receive { deadline_secs: Some(15) }));
    assert_eq!(c.state(), ComponentState::Initializing);
    let m = sent(step(&mut c, ack(), 0));
    assert_eq!(text(&m, "state"), "READY");
    assert_eq!(c.state(), ComponentState::Initializing);
    step(&mut c, Event::Sent, 0);
    assert_eq!(c.state(), ComponentState::Ready);
    match step(&mut c, ack(), 0) {
        Action::StartWatchdog { timeout } => assert_eq!(timeout, 25 * SEC as u128),
        _ => panic!("no watchdog"),
    }
    assert!(listening(step(&mut c, Event::Done, 0)));
}

#[test]
fn no_watchdog_without_a_timeout() {
    let mut cfg = config();
    cfg.ping_timeout = 0;
    let mut c = Component::new(cfg, 0);
    step(&mut c, connected(), 0);
    step(&mut c, Event::Sent, 0);
    step(&mut c, registered("cmp-1", "sess-1"), 0);
    step(&mut c, Event::Sent, 0);
    step(&mut c, ack(), 0);
    step(&mut c, Event::Sent, 0);
    assert!(listening(step(&mut c, ack(), 0)));
}

#[test]
fn the_environment_fills_in_what_is_missing() {
    let mut cfg = config();
    cfg.session_token = String::new();
    let mut c = Component::new(cfg.clone(), 0);
    let event = Event::Connected {
        session_token: Some("env-tok".to_string()),
        component_id: Some("env-id".to_string()),
    };
    let m = sent(step(&mut c, event, 0));
    assert_eq!(text(&m, "session_token"), "env-tok");
    assert_eq!(text(&m, "component_id"), "env-id");

    let mut c = Component::new(cfg, 0);
    let event = Event::Connected { session_token: None, component_id: Some(String::new()) };
    let m = sent(step(&mut c, event, 0));
    assert_eq!(text(&m, "session_token"), "");
    assert!(m.payload.get("component_id").is_none());
}

#[test]
fn the_configured_token_comes_first() {
    let mut c = Component::new(config(), 0);
    let event = Event::Connected { session_token: Some("env".to_string()), component_id: None };
    assert_eq!(text(&sent(step(&mut c, event, 0)), "session_token"), "tok");
}

#[test]
fn a_reconnect_claims_the_given_identifier() {
    let mut c = running(0);
    assert!(closed(step(&mut c, Event::WatchdogFired, 1)).is_err());
    assert_eq!(c.component_id(), "cmp-1");
    let event = Event::Connected { session_token: None, component_id: Some("env-id".to_string()) };
    let m = sent(step(&mut c, event, 2));
    assert_eq!(text(&m, "component_id"), "cmp-1");
}

#[test]
fn a_refused_registration() {
    let mut c = Component::new(config(), 0);
    step(&mut c, connected(), 0);
    step(&mut c, Event::Sent, 0);
    let refusal = envelope(
        "x",
        MessageType::Lifecycle,
        Command::RegistrationFailed,
        vec![("message", Json::text("bad token"))],
    );
    assert_eq!(
        closed(step(&mut c, refusal, 0)),
        Err(AegisError::Registration("bad token".to_string()))
    );

    step(&mut c, connected(), 0);
    step(&mut c, Event::Sent, 0);
    let refusal = envelope("x", MessageType::Lifecycle, Command::RegistrationFailed, vec![]);
    assert_eq!(
        closed(step(&mut c, refusal, 0)),
        Err(AegisError::Registration("registration failed".to_string()))
    );
    assert_eq!(c.state(), ComponentState::Init);
}

#[test]
fn an_unexpected_answer_to_register() {
    let mut c = Component::new(config(), 0);
    step(&mut c, connected(), 0);
    step(&mut c, Event::Sent, 0);
    let answer = envelope("x", MessageType::Heartbeat, Command::Ping, vec![]);
    assert_eq!(
        closed(step(&mut c, answer, 0)),
        Err(AegisError::Registration("unexpected response: Ping".to_string()))
    );
}

#[test]
fn registered_must_name_the_component_and_the_session() {
    let mut c = Component::new(config(), 0);
    step(&mut c, connected(), 0);
    step(&mut c, Event::Sent, 0);
    let only_id = envelope(
        "x",
        MessageType::Lifecycle,
        Command::Registered,
        vec![("component_id", Json::text("c"))],
    );
    assert!(!c.accepts(&only_id));
    let odd_values = envelope(
        "x",
        MessageType::Lifecycle,
        Command::Registered,
        vec![("component_id", Json::Number(1)), ("session_id", Json::Bool(true))],
    );
    step(&mut c, odd_values, 0);
    assert_eq!(c.component_id(), "");
    assert_eq!(c.session_id(), "");
    assert_eq!(c.state(), ComponentState::Registered);
}

#[test]
fn something_else_than_an_ack() {
    let mut c = Component::new(config(), 0);
    step(&mut c, connected(), 0);
    step(&mut c, Event::Sent, 0);
    step(&mut c, registered("c", "s"), 0);
    step(&mut c, Event::Sent, 0);
    let other = envelope("x", MessageType::Config, Command::Configure, vec![]);
    assert_eq!(
        closed(step(&mut c, other, 0)),
        Err(AegisError::Connection("expected ACK, got Config/Configure".to_string()))
    );
}

#[test]
fn reads_that_fail() {
    let reads = vec![
        (Event::TimedOut, AegisError::Timeout),
        (
            Event::Received(LineRead::Failed("reset".to_string())),
            AegisError::Io("reset".to_string()),
        ),
        (
            Event::Received(LineRead::Line { bytes: 0, parsed: Err("EOF".to_string()) }),
            AegisError::Connection("connection closed by daemon".to_string()),
        ),
        (
            Event::Received(LineRead::Line { bytes: 4, parsed: Err("bad".to_string()) }),
            AegisError::Json("bad".to_string()),
        ),
    ];
    for (event, error) in reads {
        let mut c = Component::new(config(), 0);
        step(&mut c, connected(), 0);
        step(&mut c, Event::Sent, 0);
        assert_eq!(closed(step(&mut c, event, 0)), Err(error));
        assert!(c.accepts(&connected()));
    }
}

#[test]
fn connections_and_sends_that_fail() {
    let mut c = Component::new(config(), 0);
    assert_eq!(
        closed(step(&mut c, Event::ConnectFailed("no such file".to_string()), 0)),
        Err(AegisError::Io("no such file".to_string()))
    );
    step(&mut c, connected(), 0);
    let error = AegisError::Io("broken pipe".to_string());
    assert_eq!(closed(step(&mut c, Event::SendFailed(error.clone()), 0)), Err(error));
}

#[test]
fn a_state_is_not_reached_before_it_is_announced() {
    let mut c = Component::new(config(), 0);
    step(&mut c, connected(), 0);
    step(&mut c, Event::Sent, 0);
    step(&mut c, registered("c", "s"), 0);
    step(&mut c, Event::SendFailed(AegisError::Io("gone".to_string())), 0);
    assert_eq!(c.state(), ComponentState::Registered);
}

#[test]
fn configure_leads_to_running() {
    let mut c = Component::new(config(), 0);
    register(&mut c, 0);
    match step(&mut c, configure(), 1) {
        Action::OnConfigure { socket_path, topics } => {
            assert_eq!(socket_path, "/tmp/data.sock");
            assert_eq!(topics, vec!["t1", "t2"]);
        }
        _ => panic!("no callback"),
    }
    let m = sent(step(&mut c, Event::Done, 2));
    assert_eq!(m.msg_type, MessageType::Control);
    assert_eq!(m.command, Command::Ack);
    assert_eq!(m.correlation_id.as_deref(), Some("cfg"));
    assert_eq!(text(&m, "status"), "ok");
    let m = sent(step(&mut c, Event::Sent, 3));
    assert_eq!(text(&m, "state"), "CONFIGURED");
    assert_eq!(c.state(), ComponentState::Ready);
    let m = sent(step(&mut c, Event::Sent, 4));
    assert_eq!(text(&m, "state"), "RUNNING");
    assert_eq!(c.state(), ComponentState::Configured);
    match step(&mut c, Event::Sent, 5) {
        Action::OnRunning { component_id, session_id } => {
            assert_eq!(component_id, "cmp-1");
            assert_eq!(session_id, "sess-1");
        }
        _ => panic!("not started"),
    }
    assert_eq!(c.state(), ComponentState::Running);
    assert!(listening(step(&mut c, Event::Done, 6)));
}

#[test]
fn on_running_waits_for_the_announcement() {
    let mut c = Component::new(config(), 0);
    register(&mut c, 0);
    step(&mut c, configure(), 1);
    step(&mut c, Event::Done, 1);
    step(&mut c, Event::Sent, 1);
    step(&mut c, Event::Sent, 1);
    closed(step(&mut c, Event::SendFailed(AegisError::Timeout), 1)).unwrap_err();

    step(&mut c, connected(), 2);
    step(&mut c, Event::Sent, 2);
    step(&mut c, registered("cmp-2", "sess-2"), 2);
    step(&mut c, Event::Sent, 2);
    step(&mut c, ack(), 2);
    step(&mut c, Event::Sent, 2);
    step(&mut c, ack(), 2);
    step(&mut c, Event::Done, 2);
    step(&mut c, configure(), 3);
    step(&mut c, Event::Done, 3);
    step(&mut c, Event::Sent, 3);
    step(&mut c, Event::Sent, 3);
    match step(&mut c, Event::Sent, 3) {
        Action::OnRunning { component_id, session_id } => {
            assert_eq!(component_id, "cmp-2");
            assert_eq!(session_id, "sess-2");
        }
        _ => panic!("not started"),
    }
}

#[test]
fn what_the_application_sets_is_adopted() {
    let mut c = running(0);
    c.adopt("cmp-9".to_string(), "sess-9".to_string(), ComponentState::Waiting);
    assert_eq!(c.component_id(), "cmp-9");
    assert_eq!(c.session_id(), "sess-9");
    assert_eq!(c.state(), ComponentState::Waiting);
    assert_eq!(c.config().component_name, "market_data");
    step(&mut c, configure(), 1);
    step(&mut c, Event::Done, 1);
    step(&mut c, Event::Sent, 1);
    step(&mut c, Event::Sent, 1);
    assert!(listening(step(&mut c, Event::Sent, 1)));
}

#[test]
fn adopting_what_is_there_changes_nothing() {
    let mut c = Component::new(config(), 0);
    let events = vec![
        connected(),
        Event::Sent,
        registered("cmp-1", "sess-1"),
        Event::Sent,
        ack(),
        Event::Sent,
        ack(),
        Event::Done,
        configure(),
        Event::Done,
        Event::Sent,
        Event::Sent,
        Event::Sent,
        Event::Done,
    ];
    let mut starts = 0;
    for event in events {
        c.adopt(c.component_id().to_string(), c.session_id().to_string(), c.state());
        if let Action::OnRunning { component_id, session_id } = step(&mut c, event, 1) {
            assert_eq!((component_id.as_str(), session_id.as_str()), ("cmp-1", "sess-1"));
            starts += 1;
        }
    }
    assert_eq!(c.state(), ComponentState::Running);
    assert_eq!(starts, 1);
}

#[test]
fn only_a_shutdown_cancels_the_token() {
    let mut c = running(0);
    let reborn = envelope("rb", MessageType::Lifecycle, Command::Reborn, vec![]);
    let ping = envelope("p", MessageType::Heartbeat, Command::Ping, vec![]);
    let events = vec![
        reborn,
        Event::Done,
        Event::Sent,
        ping,
        Event::Done,
        Event::Sent,
        ack(),
        Event::WatchdogFired,
        connected(),
        Event::Sent,
        registered("cmp-1", "sess-1"),
        Event::Sent,
        ack(),
        Event::Sent,
        ack(),
        Event::Done,
        envelope("e", MessageType::Error, Command::RuntimeError, vec![]),
        Event::Done,
    ];
    for event in events {
        assert!(!matches!(step(&mut c, event, 0), Action::CancelShutdown | Action::Close(Ok(()))));
    }
    register(&mut c, 0);
    let shutdown = envelope("sd", MessageType::Lifecycle, Command::Shutdown, vec![]);
    assert!(matches!(step(&mut c, shutdown, 0), Action::CancelShutdown));
}

#[test]
fn on_running_starts_only_once() {
    let mut c = running(0);
    step(&mut c, configure(), 1);
    step(&mut c, Event::Done, 1);
    step(&mut c, Event::Sent, 1);
    step(&mut c, Event::Sent, 1);
    assert!(listening(step(&mut c, Event::Sent, 1)));
    assert_eq!(c.state(), ComponentState::Running);

    closed(step(&mut c, Event::Received(LineRead::Failed("x".to_string())), 2)).unwrap_err();
    register(&mut c, 3);
    step(&mut c, configure(), 4);
    step(&mut c, Event::Done, 4);
    step(&mut c, Event::Sent, 4);
    step(&mut c, Event::Sent, 4);
    assert!(listening(step(&mut c, Event::Sent, 4)));
}

#[test]
fn configure_without_fields() {
    let mut c = Component::new(config(), 0);
    register(&mut c, 0);
    let bare = envelope("cfg", MessageType::Config, Command::Configure, vec![]);
    match step(&mut c, bare, 0) {
        Action::OnConfigure { socket_path, topics } => {
            assert_eq!(socket_path, "");
            assert!(topics.is_empty());
        }
        _ => panic!("no callback"),
    }
}

#[test]
fn a_refused_configuration_is_reported() {
    let mut c = Component::new(config(), 0);
    register(&mut c, 0);
    step(&mut c, configure(), 0);
    let m = sent(step(&mut c, Event::ConfigureFailed("no disk".to_string()), 0));
    assert_eq!(m.msg_type, MessageType::Error);
    assert_eq!(m.command, Command::RuntimeError);
    assert_eq!(text(&m, "code"), "CONFIGURE_FAILED");
    assert_eq!(text(&m, "message"), "no disk");
    assert!(m.payload.bool_or("recoverable", false));
    assert!(listening(step(&mut c, Event::Sent, 0)));
    assert_eq!(c.state(), ComponentState::Ready);
}

#[test]
fn ping_is_answered() {
    let mut c = running(0);
    let ping = envelope("p-1", MessageType::Heartbeat, Command::Ping, vec![]);
    assert!(matches!(step(&mut c, ping, 3 * SEC), Action::OnPing));
    let m = sent(step(&mut c, Event::Done, 3 * SEC + 999_999_999));
    assert_eq!(m.msg_type, MessageType::Heartbeat);
    assert_eq!(m.command, Command::Pong);
    assert_eq!(m.correlation_id.as_deref(), Some("p-1"));
    assert_eq!(text(&m, "state"), "RUNNING");
    assert!(matches!(m.payload.get("uptime_seconds"), Some(Json::Number(3))));
    assert!(listening(step(&mut c, Event::Sent, 4 * SEC)));
}

#[test]
fn reborn_is_acknowledged_after_the_callback() {
    let mut c = running(0);
    let reborn = envelope("rb", MessageType::Lifecycle, Command::Reborn, vec![]);
    assert!(matches!(step(&mut c, reborn, SEC), Action::OnReborn));
    let m = sent(step(&mut c, Event::Done, SEC));
    assert_eq!(m.command, Command::Ack);
    assert_eq!(m.correlation_id.as_deref(), Some("rb"));
    assert!(listening(step(&mut c, Event::Sent, SEC)));
    assert_eq!(c.state(), ComponentState::Running);
}

#[test]
fn shutdown_ends_well() {
    let mut c = running(0);
    let shutdown = envelope("sd", MessageType::Lifecycle, Command::Shutdown, vec![]);
    assert!(matches!(step(&mut c, shutdown, SEC), Action::CancelShutdown));
    assert!(matches!(step(&mut c, Event::Done, SEC), Action::OnShutdown));
    let m = sent(step(&mut c, Event::Done, SEC));
    assert_eq!(m.command, Command::Ack);
    assert_eq!(m.correlation_id.as_deref(), Some("sd"));
    assert_eq!(c.state(), ComponentState::Running);
    assert_eq!(closed(step(&mut c, Event::Sent, SEC)), Ok(()));
    assert_eq!(c.state(), ComponentState::Shutdown);
}

#[test]
fn reported_errors() {
    let mut c = running(0);
    let mild = envelope(
        "e",
        MessageType::Error,
        Command::RuntimeError,
        vec![
            ("code", Json::text("SLOW")),
            ("message", Json::text("late")),
            ("recoverable", Json::Bool(true)),
        ],
    );
    assert!(listening(step(&mut c, mild, 0)));
    assert_eq!(c.state(), ComponentState::Running);

    let grave = envelope(
        "e",
        MessageType::Error,
        Command::RuntimeError,
        vec![
            ("code", Json::text("DOWN")),
            ("message", Json::text("gone")),
            ("recoverable", Json::Bool(false)),
        ],
    );
    match step(&mut c, grave, 0) {
        Action::OnError { code, message } => {
            assert_eq!(code, "DOWN");
            assert_eq!(message, "gone");
        }
        _ => panic!("no callback"),
    }
    assert_eq!(
        closed(step(&mut c, Event::Done, 0)),
        Err(AegisError::Connection("non-recoverable error from daemon".to_string()))
    );
}

#[test]
fn an_error_that_says_nothing_is_not_recoverable() {
    let mut c = running(0);
    let grave = envelope("e", MessageType::Error, Command::RuntimeError, vec![]);
    match step(&mut c, grave, 0) {
        Action::OnError { code, message } => {
            assert_eq!(code, "UNKNOWN");
            assert_eq!(message, "");
        }
        _ => panic!("no callback"),
    }
    assert_eq!(
        closed(step(&mut c, Event::Done, 0)),
        Err(AegisError::Connection("non-recoverable error from daemon".to_string()))
    );
}

#[test]
fn other_messages_are_passed_over() {
    let mut c = running(0);
    for (msg_type, command) in [
        (MessageType::Control, Command::Ack),
        (MessageType::Unknown, Command::Unknown),
        (MessageType::Heartbeat, Command::Pong),
        (MessageType::Config, Command::Ack),
        (MessageType::Lifecycle, Command::Ack),
        (MessageType::Lifecycle, Command::Unknown),
    ] {
        assert!(listening(step(&mut c, envelope("m", msg_type, command, vec![]), 0)));
    }
    assert_eq!(c.state(), ComponentState::Running);
}

#[test]
fn the_watchdog_fires_within_a_period() {
    assert_eq!(WATCHDOG_PERIOD_SECS, 1);
    let mut c = running(0);
    let mut look = 0;
    while !c.watchdog(look) {
        look += WATCHDOG_PERIOD_SECS * SEC;
    }
    assert_eq!(look, 26 * SEC);
}

#[test]
fn the_watchdog_fires_after_the_timeout() {
    let mut c = running(SEC);
    assert!(!c.watchdog(26 * SEC));
    assert!(c.watchdog(26 * SEC + 1));
    assert_eq!(
        closed(step(&mut c, Event::WatchdogFired, 27 * SEC)),
        Err(AegisError::Connection("ping watchdog: no PING received within timeout".to_string()))
    );
}

#[test]
fn a_ping_resets_the_watchdog() {
    let mut c = running(0);
    let ping = envelope("p", MessageType::Heartbeat, Command::Ping, vec![]);
    step(&mut c, ping, 20 * SEC);
    step(&mut c, Event::Done, 20 * SEC);
    step(&mut c, Event::Sent, 20 * SEC);
    assert!(!c.watchdog(45 * SEC));
    assert!(c.watchdog(46 * SEC));
}

#[test]
fn a_rebirth_resets_the_watchdog() {
    let mut c = running(0);
    let reborn = envelope("rb", MessageType::Lifecycle, Command::Reborn, vec![]);
    step(&mut c, reborn, 10 * SEC);
    assert!(!c.watchdog(35 * SEC));
    assert!(c.watchdog(35 * SEC + 1));
}

#[test]
fn the_watchdog_rests_during_the_handshake() {
    let mut c = Component::new(config(), 0);
    register(&mut c, 0);
    assert!(!c.watchdog(1000 * SEC));
    c.state_update_sent(ComponentState::Waiting);
    assert!(!c.watchdog(1025 * SEC));
    assert!(c.watchdog(1026 * SEC));
}

#[test]
fn a_clock_that_steps_back_is_no_silence() {
    let mut c = running(50 * SEC);
    assert!(!c.watchdog(10 * SEC));
}

#[test]
fn messages_on_request() {
    let c = Component::new(config(), 0);
    let m = c.send_state_update(ComponentState::Waiting, Some("idle"));
    assert_eq!(text(&m, "state"), "WAITING");
    assert_eq!(text(&m, "message"), "idle");
    let m = c.send_error("E1", "text", false);
    assert_eq!(text(&m, "code"), "E1");
    assert_eq!(text(&m, "message"), "text");
    assert!(!m.payload.bool_or("recoverable", true));
}

#[test]
fn names_and_labels() {
    let labels: Vec<&str> = [
        ComponentState::Init,
        ComponentState::Registered,
        ComponentState::Initializing,
        ComponentState::Ready,
        ComponentState::Configured,
        ComponentState::Running,
        ComponentState::Waiting,
        ComponentState::Shutdown,
    ]
    .iter()
    .map(|s| s.label())
    .collect();
    assert_eq!(
        labels,
        vec![
            "INIT",
            "REGISTERED",
            "INITIALIZING",
            "READY",
            "CONFIGURED",
            "RUNNING",
            "WAITING",
            "SHUTDOWN"
        ]
    );
    for c in [
        Command::Register,
        Command::Registered,
        Command::RegistrationFailed,
        Command::StateUpdate,
        Command::Ack,
        Command::Ping,
        Command::Pong,
        Command::Configure,
        Command::Reborn,
        Command::Shutdown,
        Command::RuntimeError,
        Command::Unknown,
    ] {
        assert_eq!(c.name(), format!("{:?}", c));
    }
    for t in [
        MessageType::Lifecycle,
        MessageType::Heartbeat,
        MessageType::Config,
        MessageType::Control,
        MessageType::Error,
        MessageType::Unknown,
    ] {
        assert_eq!(t.name(), format!("{:?}", t));
    }
}
