//! What a component does at each step, in terms of what it holds, what happened
//! and what goes over the wire: every field of every message, every argument of
//! every callback, and what stays as it was.

use vstd::prelude::*;
use crate::component::Component;
use crate::component_model::{ActionView, ComponentView, EventView, PhaseView};
use crate::config::ConfigView;
use crate::error::AegisErrorView;
use crate::json::JsonView;
use crate::protocol::{Command, ComponentState, EnvelopeView, MessageType, Outgoing, OutgoingView};

verus! {

/// A new component knows nothing but its settings: it has no name and no
/// session, it has announced nothing and started nothing, and its clock starts.
pub proof fn law_new_component(cfg: ConfigView, now: u64)
    ensures
        ({
            let m = ComponentView::initial(cfg, now);
            &&& m.cfg == cfg
            &&& m.component_id.len() == 0
            &&& m.session_id.len() == 0
            &&& m.state is Init
            &&& m.phase is Idle
            &&& !m.running_started
            &&& m.started_at == now
            &&& m.last_ping == now
        }),
{
}

/// What can happen where: a connection is opened or not, a message is sent or
/// not, a read with a deadline ends or times out, a read without one ends or is
/// given up, and a callback returns. A REGISTERED message names the component
/// and the session.
pub proof fn law_events_in_place(phase: PhaseView, event: EventView)
    ensures
        phase.accepts(event) <==> match phase {
            PhaseView::Idle => event is Connected || event is ConnectFailed,
            PhaseView::SendRegister
            | PhaseView::SendInitializing
            | PhaseView::SendReady
            | PhaseView::SendPong
            | PhaseView::SendConfigureError
            | PhaseView::SendConfigureAck
            | PhaseView::SendConfigured
            | PhaseView::SendRunning
            | PhaseView::SendRebornAck
            | PhaseView::SendShutdownAck => event is Sent || event is SendFailed,
            PhaseView::AwaitRegistered => match event {
                EventView::Received(Ok(env)) => env.command is Registered ==> {
                    &&& env.payload.dom().contains("component_id"@)
                    &&& env.payload.dom().contains("session_id"@)
                },
                EventView::Received(Err(_)) | EventView::TimedOut => true,
                _ => false,
            },
            PhaseView::AwaitInitializingAck | PhaseView::AwaitReadyAck => event is Received
                || event is TimedOut,
            PhaseView::Listen => event is Received || event is WatchdogFired,
            PhaseView::RunConfigure(_) => event is Done || event is ConfigureFailed,
            PhaseView::StartWatchdog
            | PhaseView::RunPing(_)
            | PhaseView::StartRunning
            | PhaseView::RunReborn(_)
            | PhaseView::CancelShutdown(_)
            | PhaseView::RunShutdown(_)
            | PhaseView::RunError => event is Done,
        },
{
}

/// Once connected, the component sends REGISTER. It carries the configured
/// session token, or the environment's where none is configured, the
/// configured name and version, and what the component can do: each list of the
/// settings under its own name, in order. It names the component's identifier
/// where the daemon has given one, else the environment's, and none where there
/// is neither. It carries nothing more.
pub proof fn law_registers_with_its_settings(
    m: ComponentView,
    env_token: Option<Seq<char>>,
    env_id: Option<Seq<char>>,
    now: u64,
)
    requires
        m.phase is Idle,
    ensures
        ({
            let connected = EventView::Connected { session_token: env_token, component_id: env_id };
            let (n, action) = m.next(connected, now);
            let environment_names_it = match env_id {
                Some(id) => id.len() > 0,
                None => false,
            };
            &&& n == (ComponentView { phase: PhaseView::SendRegister, ..m })
            &&& action matches ActionView::Send(register)
            &&& register.msg_type is Lifecycle
            &&& register.command is Register
            &&& register.source == "component:"@ + m.cfg.component_name
            &&& register.correlation_id is None
            &&& forall|key: Seq<char>| #[trigger]
                register.payload.dom().contains(key) <==> {
                    ||| key == "session_token"@
                    ||| key == "component_name"@
                    ||| key == "version"@
                    ||| key == "capabilities"@
                    ||| key == "component_id"@ && (m.component_id.len() > 0
                        || environment_names_it)
                }
            &&& register.payload["session_token"@] == JsonView::Text(
                if m.cfg.session_token.len() > 0 {
                    m.cfg.session_token
                } else {
                    match env_token {
                        Some(token) => token,
                        None => Seq::empty(),
                    }
                },
            )
            &&& register.payload["component_name"@] == JsonView::Text(m.cfg.component_name)
            &&& register.payload["version"@] == JsonView::Text(m.cfg.version)
            &&& m.component_id.len() > 0 ==> register.payload["component_id"@] == JsonView::Text(
                m.component_id,
            )
            &&& m.component_id.len() == 0 && environment_names_it
                ==> register.payload["component_id"@] == JsonView::Text(env_id->0)
            &&& register.payload["capabilities"@] matches JsonView::Object(offers)
            &&& forall|key: Seq<char>| #[trigger]
                offers.dom().contains(key) <==> {
                    ||| key == "supported_symbols"@
                    ||| key == "supported_timeframes"@
                    ||| key == "supported_orderbook_speeds"@
                    ||| key == "requires_streams"@
                }
            &&& offers["supported_symbols"@] == JsonView::Array(
                Seq::new(
                    m.cfg.supported_symbols.len(),
                    |i: int| JsonView::Text(m.cfg.supported_symbols[i]),
                ),
            )
            &&& offers["supported_timeframes"@] == JsonView::Array(
                Seq::new(
                    m.cfg.supported_timeframes.len(),
                    |i: int| JsonView::Text(m.cfg.supported_timeframes[i]),
                ),
            )
            &&& offers["supported_orderbook_speeds"@] == JsonView::Array(
                Seq::new(
                    m.cfg.supported_orderbook_speeds.len(),
                    |i: int| JsonView::Text(m.cfg.supported_orderbook_speeds[i]),
                ),
            )
            &&& offers["requires_streams"@] == JsonView::Array(
                Seq::new(
                    m.cfg.requires_streams.len(),
                    |i: int| JsonView::Text(m.cfg.requires_streams[i]),
                ),
            )
        }),
{
    reveal_strlit("");
    reveal_strlit("session_token");
    reveal_strlit("component_name");
    reveal_strlit("version");
    reveal_strlit("component_id");
    reveal_strlit("capabilities");
    assert("session_token"@.len() == 13);
    assert("component_name"@.len() == 14);
    assert("version"@.len() == 7);
    assert("component_id"@.len() == 12);
    assert("capabilities"@.len() == 12);
    assert("component_id"@[1] != "capabilities"@[1]);
    reveal_strlit("supported_symbols");
    reveal_strlit("supported_timeframes");
    reveal_strlit("supported_orderbook_speeds");
    reveal_strlit("requires_streams");
    assert("supported_symbols"@.len() == 17);
    assert("supported_timeframes"@.len() == 20);
    assert("supported_orderbook_speeds"@.len() == 26);
    assert("requires_streams"@.len() == 16);
    assert(""@ =~= Seq::<char>::empty());
    let as_text = |s: Seq<char>| JsonView::Text(s);
    assert(m.cfg.supported_symbols.map_values(as_text) =~= Seq::new(
        m.cfg.supported_symbols.len(),
        |i: int| JsonView::Text(m.cfg.supported_symbols[i]),
    ));
    assert(m.cfg.supported_timeframes.map_values(as_text) =~= Seq::new(
        m.cfg.supported_timeframes.len(),
        |i: int| JsonView::Text(m.cfg.supported_timeframes[i]),
    ));
    assert(m.cfg.supported_orderbook_speeds.map_values(as_text) =~= Seq::new(
        m.cfg.supported_orderbook_speeds.len(),
        |i: int| JsonView::Text(m.cfg.supported_orderbook_speeds[i]),
    ));
    assert(m.cfg.requires_streams.map_values(as_text) =~= Seq::new(
        m.cfg.requires_streams.len(),
        |i: int| JsonView::Text(m.cfg.requires_streams[i]),
    ));
}

/// Every message belongs to the family of its command, and the component sends
/// no other commands than these.
pub proof fn law_families(m: ComponentView, event: EventView, now: u64)
    requires
        m.phase.accepts(event),
    ensures
        m.next(event, now).1 matches ActionView::Send(message) ==> match message.command {
            Command::Register | Command::StateUpdate => message.msg_type is Lifecycle,
            Command::Ack => message.msg_type is Control,
            Command::Pong => message.msg_type is Heartbeat,
            Command::RuntimeError => message.msg_type is Error,
            _ => false,
        },
{
}

/// A state is announced by a lifecycle message that names the state in capital
/// letters, with the remark where one is given and with nothing more.
pub proof fn law_state_announcement(
    m: ComponentView,
    new_state: ComponentState,
    remark: Option<Seq<char>>,
)
    ensures
        ({
            let update = m.state_update(new_state, remark);
            &&& update.msg_type is Lifecycle
            &&& update.command is StateUpdate
            &&& update.source == "component:"@ + m.cfg.component_name
            &&& update.correlation_id is None
            &&& update.payload["state"@] == JsonView::Text(
                match new_state {
                    ComponentState::Init => "INIT"@,
                    ComponentState::Registered => "REGISTERED"@,
                    ComponentState::Initializing => "INITIALIZING"@,
                    ComponentState::Ready => "READY"@,
                    ComponentState::Configured => "CONFIGURED"@,
                    ComponentState::Running => "RUNNING"@,
                    ComponentState::Waiting => "WAITING"@,
                    ComponentState::Shutdown => "SHUTDOWN"@,
                },
            )
            &&& remark matches Some(text) ==> update.payload["message"@] == JsonView::Text(text)
            &&& forall|key: Seq<char>| #[trigger]
                update.payload.dom().contains(key) <==> key == "state"@ || key == "message"@
                    && remark is Some
        }),
{
    reveal_strlit("state");
    reveal_strlit("message");
    assert("state"@.len() == 5);
    assert("message"@.len() == 7);
}

/// No two states are announced alike.
pub proof fn law_states_told_apart(m: ComponentView, one: ComponentState, other: ComponentState)
    requires
        one != other,
    ensures
        m.state_update(one, None).payload["state"@] != m.state_update(other, None).payload["state"@],
{
    reveal_strlit("INIT");
    reveal_strlit("REGISTERED");
    reveal_strlit("INITIALIZING");
    reveal_strlit("READY");
    reveal_strlit("CONFIGURED");
    reveal_strlit("RUNNING");
    reveal_strlit("WAITING");
    reveal_strlit("SHUTDOWN");
    assert("INIT"@.len() == 4);
    assert("REGISTERED"@.len() == 10);
    assert("INITIALIZING"@.len() == 12);
    assert("READY"@.len() == 5);
    assert("CONFIGURED"@.len() == 10);
    assert("RUNNING"@.len() == 7);
    assert("WAITING"@.len() == 7);
    assert("SHUTDOWN"@.len() == 8);
    assert("REGISTERED"@[0] != "CONFIGURED"@[0]);
    assert("RUNNING"@[0] != "WAITING"@[0]);
}

/// A report of an error carries its code, its message and whether it is
/// recoverable, each under its own name, and nothing more.
pub proof fn law_error_report(
    m: ComponentView,
    code: Seq<char>,
    message: Seq<char>,
    recoverable: bool,
)
    ensures
        ({
            let report = m.error_report(code, message, recoverable);
            &&& report.msg_type is Error
            &&& report.command is RuntimeError
            &&& report.source == "component:"@ + m.cfg.component_name
            &&& report.correlation_id is None
            &&& report.payload["code"@] == JsonView::Text(code)
            &&& report.payload["message"@] == JsonView::Text(message)
            &&& report.payload["recoverable"@] == JsonView::Bool(recoverable)
            &&& forall|key: Seq<char>| #[trigger]
                report.payload.dom().contains(key) <==> key == "code"@ || key == "message"@ || key
                    == "recoverable"@
        }),
{
    reveal_strlit("code");
    reveal_strlit("message");
    reveal_strlit("recoverable");
    assert("code"@.len() == 4);
    assert("message"@.len() == 7);
    assert("recoverable"@.len() == 11);
}

/// What follows a message that is out. During registration its answer is
/// awaited for fifteen seconds; the ACK of a CONFIGURE is followed by
/// CONFIGURED and that by RUNNING; after RUNNING `on_running` starts, unless it
/// has been started, under the component's name and in its session; the ACK of
/// a SHUTDOWN ends the connection well. A state is reached when its
/// announcement is out. Everything else is followed by listening.
pub proof fn law_after_sending(m: ComponentView, now: u64)
    ensures
        m.phase is SendRegister ==> m.next(EventView::Sent, now) == (
            ComponentView { phase: PhaseView::AwaitRegistered, ..m },
            ActionView::Receive { deadline_secs: Some(15) },
        ),
        m.phase is SendInitializing ==> m.next(EventView::Sent, now) == (
            ComponentView {
                state: ComponentState::Initializing,
                phase: PhaseView::AwaitInitializingAck,
                ..m
            },
            ActionView::Receive { deadline_secs: Some(15) },
        ),
        m.phase is SendReady ==> m.next(EventView::Sent, now) == (
            ComponentView { state: ComponentState::Ready, phase: PhaseView::AwaitReadyAck, ..m },
            ActionView::Receive { deadline_secs: Some(15) },
        ),
        m.phase is SendConfigureAck ==> m.next(EventView::Sent, now) == (
            ComponentView { phase: PhaseView::SendConfigured, ..m },
            ActionView::Send(
                OutgoingView {
                    msg_type: MessageType::Lifecycle,
                    command: Command::StateUpdate,
                    source: "component:"@ + m.cfg.component_name,
                    payload: map!["state"@ => JsonView::Text("CONFIGURED"@)],
                    correlation_id: None,
                },
            ),
        ),
        m.phase is SendConfigured ==> m.next(EventView::Sent, now) == (
            ComponentView { state: ComponentState::Configured, phase: PhaseView::SendRunning, ..m },
            ActionView::Send(
                OutgoingView {
                    msg_type: MessageType::Lifecycle,
                    command: Command::StateUpdate,
                    source: "component:"@ + m.cfg.component_name,
                    payload: map!["state"@ => JsonView::Text("RUNNING"@)],
                    correlation_id: None,
                },
            ),
        ),
        m.phase is SendRunning && !m.running_started ==> m.next(EventView::Sent, now) == (
            ComponentView {
                state: ComponentState::Running,
                last_ping: now,
                running_started: true,
                phase: PhaseView::StartRunning,
                ..m
            },
            ActionView::OnRunning { component_id: m.component_id, session_id: m.session_id },
        ),
        m.phase is SendRunning && m.running_started ==> m.next(EventView::Sent, now) == (
            ComponentView {
                state: ComponentState::Running,
                last_ping: now,
                phase: PhaseView::Listen,
                ..m
            },
            ActionView::Receive { deadline_secs: None },
        ),
        m.phase is SendShutdownAck ==> m.next(EventView::Sent, now) == (
            ComponentView { state: ComponentState::Shutdown, phase: PhaseView::Idle, ..m },
            ActionView::Close(Ok(())),
        ),
        m.phase is SendPong || m.phase is SendConfigureError || m.phase is SendRebornAck
            ==> m.next(EventView::Sent, now) == (
            ComponentView { phase: PhaseView::Listen, ..m },
            ActionView::Receive { deadline_secs: None },
        ),
{
}

/// What the answer to REGISTER comes to. REGISTERED names the component and the
/// session, and INITIALIZING is announced; a refusal ends the connection with
/// the daemon's message, any other answer with the name of what came.
pub proof fn law_registration_answer(m: ComponentView, env: EnvelopeView, now: u64)
    requires
        m.phase is AwaitRegistered,
    ensures
        env.command is Registered ==> m.next(EventView::Received(Ok(env)), now) == (
            ComponentView {
                component_id: match env.payload.get("component_id"@) {
                    Some(JsonView::Text(id)) => id,
                    _ => Seq::empty(),
                },
                session_id: match env.payload.get("session_id"@) {
                    Some(JsonView::Text(id)) => id,
                    _ => Seq::empty(),
                },
                state: ComponentState::Registered,
                phase: PhaseView::SendInitializing,
                ..m
            },
            ActionView::Send(
                OutgoingView {
                    msg_type: MessageType::Lifecycle,
                    command: Command::StateUpdate,
                    source: "component:"@ + m.cfg.component_name,
                    payload: map!["state"@ => JsonView::Text("INITIALIZING"@)],
                    correlation_id: None,
                },
            ),
        ),
        env.command is RegistrationFailed ==> m.next(EventView::Received(Ok(env)), now) == (
            ComponentView { phase: PhaseView::Idle, ..m },
            ActionView::Close(
                Err(
                    AegisErrorView::Registration(
                        match env.payload.get("message"@) {
                            Some(JsonView::Text(reason)) => reason,
                            _ => "registration failed"@,
                        },
                    ),
                ),
            ),
        ),
        !(env.command is Registered || env.command is RegistrationFailed) ==> m.next(
            EventView::Received(Ok(env)),
            now,
        ) == (
            ComponentView { phase: PhaseView::Idle, ..m },
            ActionView::Close(
                Err(
                    AegisErrorView::Registration(
                        "unexpected response: "@ + match env.command {
                            Command::Register => "Register"@,
                            Command::StateUpdate => "StateUpdate"@,
                            Command::Ack => "Ack"@,
                            Command::Ping => "Ping"@,
                            Command::Pong => "Pong"@,
                            Command::Configure => "Configure"@,
                            Command::Reborn => "Reborn"@,
                            Command::Shutdown => "Shutdown"@,
                            Command::RuntimeError => "RuntimeError"@,
                            _ => "Unknown"@,
                        },
                    ),
                ),
            ),
        ),
{
    reveal_strlit("");
    assert(""@ =~= Seq::<char>::empty());
}

/// The ACK of INITIALIZING is followed by READY. The ACK of READY ends the
/// registration: the daemon's silence counts from then, and the watchdog starts
/// with the configured timeout unless that is zero.
pub proof fn law_registration_acks(m: ComponentView, ack: EnvelopeView, now: u64)
    requires
        ack.command is Ack,
    ensures
        m.phase is AwaitInitializingAck ==> m.next(EventView::Received(Ok(ack)), now) == (
            ComponentView { phase: PhaseView::SendReady, ..m },
            ActionView::Send(
                OutgoingView {
                    msg_type: MessageType::Lifecycle,
                    command: Command::StateUpdate,
                    source: "component:"@ + m.cfg.component_name,
                    payload: map!["state"@ => JsonView::Text("READY"@)],
                    correlation_id: None,
                },
            ),
        ),
        m.phase is AwaitReadyAck && m.cfg.ping_timeout > 0 ==> m.next(
            EventView::Received(Ok(ack)),
            now,
        ) == (
            ComponentView { last_ping: now, phase: PhaseView::StartWatchdog, ..m },
            ActionView::StartWatchdog { timeout: m.cfg.ping_timeout },
        ),
        m.phase is AwaitReadyAck && m.cfg.ping_timeout == 0 ==> m.next(
            EventView::Received(Ok(ack)),
            now,
        ) == (
            ComponentView { last_ping: now, phase: PhaseView::Listen, ..m },
            ActionView::Receive { deadline_secs: None },
        ),
{
}

/// Anything but an ACK where an ACK is due ends the connection, with the family
/// and the command of what came.
pub proof fn law_registration_wants_acks(m: ComponentView, env: EnvelopeView, now: u64)
    requires
        m.phase is AwaitInitializingAck || m.phase is AwaitReadyAck,
        !(env.command is Ack),
    ensures
        m.next(EventView::Received(Ok(env)), now) == (
            ComponentView { phase: PhaseView::Idle, ..m },
            ActionView::Close(
                Err(
                    AegisErrorView::Connection(
                        "expected ACK, got "@ + match env.msg_type {
                            MessageType::Lifecycle => "Lifecycle"@,
                            MessageType::Heartbeat => "Heartbeat"@,
                            MessageType::Config => "Config"@,
                            MessageType::Control => "Control"@,
                            MessageType::Error => "Error"@,
                            MessageType::Unknown => "Unknown"@,
                        } + "/"@ + match env.command {
                            Command::Register => "Register"@,
                            Command::Registered => "Registered"@,
                            Command::RegistrationFailed => "RegistrationFailed"@,
                            Command::StateUpdate => "StateUpdate"@,
                            Command::Ping => "Ping"@,
                            Command::Pong => "Pong"@,
                            Command::Configure => "Configure"@,
                            Command::Reborn => "Reborn"@,
                            Command::Shutdown => "Shutdown"@,
                            Command::RuntimeError => "RuntimeError"@,
                            _ => "Unknown"@,
                        },
                    ),
                ),
            ),
        ),
{
}

/// What a listening component makes of the messages that it goes by: each runs
/// its callback with what the message carries, and is kept in mind for the
/// answer. A PING and a REBORN let the daemon's silence count anew.
pub proof fn law_messages_taken(m: ComponentView, env: EnvelopeView, now: u64)
    requires
        m.phase is Listen,
    ensures
        env.msg_type is Heartbeat && env.command is Ping ==> m.next(
            EventView::Received(Ok(env)),
            now,
        ) == (
            ComponentView { last_ping: now, phase: PhaseView::RunPing(env.message_id), ..m },
            ActionView::OnPing,
        ),
        env.msg_type is Config && env.command is Configure ==> m.next(
            EventView::Received(Ok(env)),
            now,
        ) == (
            ComponentView { phase: PhaseView::RunConfigure(env.message_id), ..m },
            ActionView::OnConfigure {
                socket_path: match env.payload.get("data_stream_socket"@) {
                    Some(JsonView::Text(path)) => path,
                    _ => Seq::empty(),
                },
                topics: match env.payload.get("topics"@) {
                    Some(JsonView::Array(items)) => crate::json::texts_of(items),
                    _ => Seq::empty(),
                },
            },
        ),
        env.msg_type is Lifecycle && env.command is Reborn ==> m.next(
            EventView::Received(Ok(env)),
            now,
        ) == (
            ComponentView { last_ping: now, phase: PhaseView::RunReborn(env.message_id), ..m },
            ActionView::OnReborn,
        ),
        env.msg_type is Lifecycle && env.command is Shutdown ==> m.next(
            EventView::Received(Ok(env)),
            now,
        ) == (
            ComponentView { phase: PhaseView::CancelShutdown(env.message_id), ..m },
            ActionView::CancelShutdown,
        ),
        env.msg_type is Error && env.payload.get("recoverable"@) != Some(JsonView::Bool(true))
            ==> m.next(EventView::Received(Ok(env)), now) == (
            ComponentView { phase: PhaseView::RunError, ..m },
            ActionView::OnError {
                code: match env.payload.get("code"@) {
                    Some(JsonView::Text(code)) => code,
                    _ => "UNKNOWN"@,
                },
                message: match env.payload.get("message"@) {
                    Some(JsonView::Text(text)) => text,
                    _ => Seq::empty(),
                },
            },
        ),
{
    reveal_strlit("");
    assert(""@ =~= Seq::<char>::empty());
}

/// What a listening component passes over: an error that says that it is
/// recoverable, and every message but those that it goes by.
pub proof fn law_messages_passed_over(m: ComponentView, env: EnvelopeView, now: u64)
    requires
        m.phase is Listen,
        !(env.msg_type is Heartbeat && env.command is Ping),
        !(env.msg_type is Config && env.command is Configure),
        !(env.msg_type is Lifecycle && (env.command is Reborn || env.command is Shutdown)),
        env.msg_type is Error ==> env.payload.get("recoverable"@) == Some(JsonView::Bool(true)),
    ensures
        m.next(EventView::Received(Ok(env)), now) == (
            m,
            ActionView::Receive { deadline_secs: None },
        ),
{
}

/// When `on_configure`, `on_reborn` or `on_shutdown` has returned, the message
/// that it ran for is acknowledged, and nothing else changes.
pub proof fn law_acknowledged(m: ComponentView, id: Seq<char>, now: u64)
    requires
        m.phase == PhaseView::RunConfigure(id) || m.phase == PhaseView::RunReborn(id) || m.phase
            == PhaseView::RunShutdown(id),
    ensures
        m.next(EventView::Done, now) == (
            ComponentView {
                phase: match m.phase {
                    PhaseView::RunConfigure(_) => PhaseView::SendConfigureAck,
                    PhaseView::RunReborn(_) => PhaseView::SendRebornAck,
                    _ => PhaseView::SendShutdownAck,
                },
                ..m
            },
            ActionView::Send(
                OutgoingView {
                    msg_type: MessageType::Control,
                    command: Command::Ack,
                    source: "component:"@ + m.cfg.component_name,
                    payload: map!["status"@ => JsonView::Text("ok"@)],
                    correlation_id: Some(id),
                },
            ),
        ),
{
}

/// When `on_ping` has returned, a PONG answers the PING. It tells the state in
/// capital letters and for how many whole seconds the component has existed,
/// and nothing more. Nothing else changes.
pub proof fn law_pong(m: ComponentView, id: Seq<char>, now: u64)
    requires
        m.phase == PhaseView::RunPing(id),
    ensures
        ({
            let (n, action) = m.next(EventView::Done, now);
            &&& n == (ComponentView { phase: PhaseView::SendPong, ..m })
            &&& action matches ActionView::Send(pong)
            &&& pong.msg_type is Heartbeat
            &&& pong.command is Pong
            &&& pong.source == "component:"@ + m.cfg.component_name
            &&& pong.correlation_id == Some(id)
            &&& forall|key: Seq<char>| #[trigger]
                pong.payload.dom().contains(key) <==> key == "state"@ || key == "uptime_seconds"@
            &&& pong.payload["state"@] == JsonView::Text(
                match m.state {
                    ComponentState::Init => "INIT"@,
                    ComponentState::Registered => "REGISTERED"@,
                    ComponentState::Initializing => "INITIALIZING"@,
                    ComponentState::Ready => "READY"@,
                    ComponentState::Configured => "CONFIGURED"@,
                    ComponentState::Running => "RUNNING"@,
                    ComponentState::Waiting => "WAITING"@,
                    ComponentState::Shutdown => "SHUTDOWN"@,
                },
            )
            &&& pong.payload["uptime_seconds"@] matches JsonView::Number(seconds)
            &&& now >= m.started_at ==> seconds * 1_000_000_000 <= now - m.started_at < (seconds
                + 1) * 1_000_000_000
            &&& now < m.started_at ==> seconds == 0
        }),
{
    reveal_strlit("state");
    reveal_strlit("uptime_seconds");
    assert("state"@.len() == 5);
    assert("uptime_seconds"@.len() == 14);
}

/// What follows the other callbacks: once the shutdown token is cancelled,
/// `on_shutdown` runs for the same message; after `on_error` the connection is
/// given up; once the watchdog or `on_running` has started, the component
/// listens.
pub proof fn law_after_callbacks(m: ComponentView, now: u64)
    ensures
        m.phase matches PhaseView::CancelShutdown(id) ==> m.next(EventView::Done, now) == (
            ComponentView { phase: PhaseView::RunShutdown(id), ..m },
            ActionView::OnShutdown,
        ),
        m.phase is RunError ==> m.next(EventView::Done, now) == (
            ComponentView { phase: PhaseView::Idle, ..m },
            ActionView::Close(
                Err(AegisErrorView::Connection("non-recoverable error from daemon"@)),
            ),
        ),
        m.phase is StartWatchdog || m.phase is StartRunning ==> m.next(EventView::Done, now) == (
            ComponentView { phase: PhaseView::Listen, ..m },
            ActionView::Receive { deadline_secs: None },
        ),
{
}

/// Where `on_configure` has failed, its message is reported as a recoverable
/// error, and nothing else changes.
pub proof fn law_refusal_reported(m: ComponentView, reason: Seq<char>, now: u64)
    requires
        m.phase is RunConfigure,
    ensures
        ({
            let (n, action) = m.next(EventView::ConfigureFailed(reason), now);
            &&& n == (ComponentView { phase: PhaseView::SendConfigureError, ..m })
            &&& action matches ActionView::Send(report)
            &&& report.msg_type is Error
            &&& report.command is RuntimeError
            &&& report.source == "component:"@ + m.cfg.component_name
            &&& report.correlation_id is None
            &&& report.payload["code"@] == JsonView::Text("CONFIGURE_FAILED"@)
            &&& report.payload["message"@] == JsonView::Text(reason)
            &&& report.payload["recoverable"@] == JsonView::Bool(true)
            &&& forall|key: Seq<char>| #[trigger]
                report.payload.dom().contains(key) <==> key == "code"@ || key == "message"@ || key
                    == "recoverable"@
        }),
{
    reveal_strlit("code");
    reveal_strlit("message");
    reveal_strlit("recoverable");
    assert("code"@.len() == 4);
    assert("message"@.len() == 7);
    assert("recoverable"@.len() == 11);
}

/// Whatever goes wrong with a connection ends it with an error that tells what,
/// and leaves the component as it was, without a connection.
pub proof fn law_failures_told(m: ComponentView, event: EventView, now: u64)
    requires
        m.phase.accepts(event),
    ensures
        match event {
            EventView::ConnectFailed(_)
            | EventView::SendFailed(_)
            | EventView::Received(Err(_))
            | EventView::TimedOut
            | EventView::WatchdogFired => m.next(event, now) == (
                ComponentView { phase: PhaseView::Idle, ..m },
                ActionView::Close(
                    Err(
                        match event {
                            EventView::ConnectFailed(text) => AegisErrorView::Io(text),
                            EventView::SendFailed(e) => e,
                            EventView::Received(Err(e)) => e,
                            EventView::TimedOut => AegisErrorView::Timeout,
                            _ => AegisErrorView::Connection(
                                "ping watchdog: no PING received within timeout"@,
                            ),
                        },
                    ),
                ),
            ),
            _ => true,
        },
{
}

/// The watchdog fires while the component is RUNNING or WAITING and the daemon
/// has been silent for longer than the timeout, and at no other time. A look
/// changes nothing then; in every other state it lets the silence count anew.
pub proof fn law_watchdog_look(m: ComponentView, now: u64)
    ensures
        m.watchdog(now).1 <==> (m.state is Running || m.state is Waiting) && now - m.last_ping
            > m.cfg.ping_timeout,
        m.watchdog(now).0 == if m.state is Running || m.state is Waiting {
            m
        } else {
            ComponentView { last_ping: now, ..m }
        },
{
}

/// The announcement that an application asks for, field by field: a lifecycle
/// message that names the state in capital letters, with the remark.
pub proof fn law_announcement_written(
    c: Component,
    new_state: ComponentState,
    remark: Option<&str>,
    update: Outgoing,
)
    requires
        call_ensures(Component::send_state_update, (&c, new_state, remark), update),
    ensures
        update.msg_type is Lifecycle,
        update.command is StateUpdate,
        update.source@ == "component:"@ + c.view().cfg.component_name,
        update.correlation_id is None,
        update.payload.view()["state"@] == JsonView::Text(
            match new_state {
                ComponentState::Init => "INIT"@,
                ComponentState::Registered => "REGISTERED"@,
                ComponentState::Initializing => "INITIALIZING"@,
                ComponentState::Ready => "READY"@,
                ComponentState::Configured => "CONFIGURED"@,
                ComponentState::Running => "RUNNING"@,
                ComponentState::Waiting => "WAITING"@,
                ComponentState::Shutdown => "SHUTDOWN"@,
            },
        ),
        remark matches Some(text) ==> update.payload.view()["message"@] == JsonView::Text(text@),
        forall|key: Seq<char>| #[trigger]
            update.payload.view().dom().contains(key) <==> key == "state"@ || key == "message"@
                && remark is Some,
{
    let said = match remark {
        Some(text) => Some(text@),
        None => None,
    };
    law_state_announcement(c.view(), new_state, said);
    crate::protocol::law_sent_shown(update);
}

/// The report that an application asks for, field by field.
pub proof fn law_report_written(
    c: Component,
    code: &str,
    message: &str,
    recoverable: bool,
    report: Outgoing,
)
    requires
        call_ensures(Component::send_error, (&c, code, message, recoverable), report),
    ensures
        report.msg_type is Error,
        report.command is RuntimeError,
        report.source@ == "component:"@ + c.view().cfg.component_name,
        report.correlation_id is None,
        report.payload.view()["code"@] == JsonView::Text(code@),
        report.payload.view()["message"@] == JsonView::Text(message@),
        report.payload.view()["recoverable"@] == JsonView::Bool(recoverable),
        forall|key: Seq<char>| #[trigger]
            report.payload.view().dom().contains(key) <==> key == "code"@ || key == "message"@
                || key == "recoverable"@,
{
    law_error_report(c.view(), code@, message@, recoverable);
    crate::protocol::law_sent_shown(report);
}

} // verus!
