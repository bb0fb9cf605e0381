//! The control channel as a state machine: what a component does next, for
//! every state that it can be in and everything that can happen to it there.
//!
//! ```text
//! Idle -> SendRegister -> AwaitRegistered
//!      -> SendInitializing -> AwaitInitializingAck
//!      -> SendReady -> AwaitReadyAck -> [StartWatchdog] -> Listen
//!
//! Listen -- PING ------> RunPing -> SendPong -> Listen
//! Listen -- CONFIGURE -> RunConfigure -> SendConfigureError -> Listen
//!                                     -> SendConfigureAck -> SendConfigured
//!                                        -> SendRunning -> [StartRunning] -> Listen
//! Listen -- REBORN ----> RunReborn -> SendRebornAck -> Listen
//! Listen -- SHUTDOWN --> CancelShutdown -> RunShutdown -> SendShutdownAck -> Idle
//! Listen -- ERROR -----> RunError -> Idle (a recoverable one: Listen)
//! ```
//!
//! From every sending and every waiting state a failure leads back to `Idle`.

use vstd::prelude::*;
use crate::config::ConfigView;
use crate::error::AegisErrorView;
use crate::json::JsonView;
use crate::protocol::{Command, ComponentState, EnvelopeView, MessageType, OutgoingView};

verus! {

/// How long the daemon may take to answer during registration, in seconds.
pub const REPLY_TIMEOUT_SECS: u64 = 15;

/// How often the watchdog looks, in seconds.
pub const WATCHDOG_PERIOD_SECS: u64 = 1;

/// Nanoseconds in a second.
pub const NANOS_PER_SEC: u64 = 1_000_000_000;

/// What a component is in the middle of. The states that answer a message keep
/// its identifier.
pub enum PhaseView {
    /// No connection.
    Idle,
    /// REGISTER is being sent.
    SendRegister,
    /// The answer to REGISTER is awaited.
    AwaitRegistered,
    /// STATE_UPDATE(INITIALIZING) is being sent.
    SendInitializing,
    /// The ACK of STATE_UPDATE(INITIALIZING) is awaited.
    AwaitInitializingAck,
    /// STATE_UPDATE(READY) is being sent.
    SendReady,
    /// The ACK of STATE_UPDATE(READY) is awaited.
    AwaitReadyAck,
    /// The watchdog is being started.
    StartWatchdog,
    /// The next message is awaited, without a deadline.
    Listen,
    /// `on_ping` runs.
    RunPing(Seq<char>),
    /// PONG is being sent.
    SendPong,
    /// `on_configure` runs.
    RunConfigure(Seq<char>),
    /// The report that `on_configure` failed is being sent.
    SendConfigureError,
    /// The ACK of CONFIGURE is being sent.
    SendConfigureAck,
    /// STATE_UPDATE(CONFIGURED) is being sent.
    SendConfigured,
    /// STATE_UPDATE(RUNNING) is being sent.
    SendRunning,
    /// `on_running` is being started.
    StartRunning,
    /// `on_reborn` runs.
    RunReborn(Seq<char>),
    /// The ACK of REBORN is being sent.
    SendRebornAck,
    /// The shutdown token is being cancelled.
    CancelShutdown(Seq<char>),
    /// `on_shutdown` runs.
    RunShutdown(Seq<char>),
    /// The ACK of SHUTDOWN is being sent.
    SendShutdownAck,
    /// `on_error` runs, for an error that ends the connection.
    RunError,
}

/// Something that happened.
pub enum EventView {
    /// The connection stands. The environment's session token and component
    /// identifier come with it, where they are set.
    Connected { session_token: Option<Seq<char>>, component_id: Option<Seq<char>> },
    /// The connection could not be opened.
    ConnectFailed(Seq<char>),
    /// The message was sent.
    Sent,
    /// The message could not be sent.
    SendFailed(AegisErrorView),
    /// A read ended, with a message or an error.
    Received(Result<EnvelopeView, AegisErrorView>),
    /// The deadline of the read passed.
    TimedOut,
    /// The watchdog found the daemon silent for too long.
    WatchdogFired,
    /// The callback returned, or what was to be started has started.
    Done,
    /// `on_configure` returned an error.
    ConfigureFailed(Seq<char>),
}

/// What is to be done next.
pub enum ActionView {
    /// Send a message.
    Send(OutgoingView),
    /// Read a message, within so many seconds where a deadline is given.
    Receive { deadline_secs: Option<u64> },
    /// Start the watchdog with this timeout.
    StartWatchdog { timeout: u128 },
    /// Call `on_ping`.
    OnPing,
    /// Call `on_configure`.
    OnConfigure { socket_path: Seq<char>, topics: Seq<Seq<char>> },
    /// Start `on_running` in a task of its own.
    OnRunning { component_id: Seq<char>, session_id: Seq<char> },
    /// Call `on_reborn`.
    OnReborn,
    /// Cancel the shutdown token.
    CancelShutdown,
    /// Call `on_shutdown`.
    OnShutdown,
    /// Call `on_error`.
    OnError { code: Seq<char>, message: Seq<char> },
    /// Close the connection; this is what it came to.
    Close(Result<(), AegisErrorView>),
}

/// A component.
pub struct ComponentView {
    pub cfg: ConfigView,
    /// Identifier that the daemon gave, empty before the first registration.
    pub component_id: Seq<char>,
    /// Session that the daemon named, empty before the first registration.
    pub session_id: Seq<char>,
    pub state: ComponentState,
    pub phase: PhaseView,
    /// Whether `on_running` has been started.
    pub running_started: bool,
    /// Clock reading when the component was made, in nanoseconds.
    pub started_at: u64,
    /// Clock reading from which the daemon's silence counts, in nanoseconds.
    pub last_ping: u64,
}

/// The given text, or nothing where there is none.
pub open spec fn or_empty(s: Option<Seq<char>>) -> Seq<char> {
    match s {
        Some(t) => t,
        None => ""@,
    }
}

/// An array of texts.
pub open spec fn text_array(items: Seq<Seq<char>>) -> JsonView {
    JsonView::Array(items.map_values(|s: Seq<char>| JsonView::Text(s)))
}

impl EventView {
    /// Whether this is how a send can end.
    pub open spec fn ends_send(self) -> bool {
        self is Sent || self is SendFailed
    }

    /// Whether this is how a read with a deadline can end.
    pub open spec fn ends_timed_read(self) -> bool {
        self is Received || self is TimedOut
    }

    /// Whether this can answer the action.
    pub open spec fn answers(self, action: ActionView) -> bool {
        match action {
            ActionView::Send(_) => self.ends_send(),
            ActionView::Receive { deadline_secs: Some(_) } => self.ends_timed_read(),
            ActionView::Receive { deadline_secs: None } => self is Received
                || self is WatchdogFired,
            ActionView::OnConfigure { .. } => self is Done || self is ConfigureFailed,
            ActionView::Close(_) => self is Connected || self is ConnectFailed,
            _ => self is Done,
        }
    }

    /// Whether this is a REGISTERED message without a component identifier or
    /// a session.
    pub open spec fn nameless_registered(self) -> bool {
        match self {
            EventView::Received(Ok(env)) => env.command is Registered && !(
            env.payload.dom().contains("component_id"@) && env.payload.dom().contains(
                "session_id"@,
            )),
            _ => false,
        }
    }
}

impl PhaseView {
    /// Whether a message is being sent.
    pub open spec fn sends(self) -> bool {
        match self {
            PhaseView::SendRegister | PhaseView::SendInitializing | PhaseView::SendReady
            | PhaseView::SendPong | PhaseView::SendConfigureError | PhaseView::SendConfigureAck
            | PhaseView::SendConfigured | PhaseView::SendRunning | PhaseView::SendRebornAck
            | PhaseView::SendShutdownAck => true,
            _ => false,
        }
    }

    /// Whether the event can happen in this phase.
    pub open spec fn accepts(self, event: EventView) -> bool {
        if self.sends() {
            event.ends_send()
        } else {
            match self {
                PhaseView::Idle => event is Connected || event is ConnectFailed,
                PhaseView::AwaitRegistered => event.ends_timed_read()
                    && !event.nameless_registered(),
                PhaseView::AwaitInitializingAck | PhaseView::AwaitReadyAck =>
                    event.ends_timed_read(),
                PhaseView::Listen => event is Received || event is WatchdogFired,
                PhaseView::RunConfigure(_) => event is Done || event is ConfigureFailed,
                _ => event is Done,
            }
        }
    }
}

impl ComponentView {
    /// A component that has never been connected.
    pub open spec fn initial(cfg: ConfigView, now: u64) -> ComponentView {
        ComponentView {
            cfg,
            component_id: Seq::empty(),
            session_id: Seq::empty(),
            state: ComponentState::Init,
            phase: PhaseView::Idle,
            running_started: false,
            started_at: now,
            last_ping: now,
        }
    }

    /// Name under which the component sends.
    pub open spec fn source(self) -> Seq<char> {
        "component:"@ + self.cfg.component_name
    }

    /// Whole seconds since the component was made.
    pub open spec fn uptime(self, now: u64) -> nat {
        if now >= self.started_at {
            ((now - self.started_at) / NANOS_PER_SEC as int) as nat
        } else {
            0
        }
    }

    /// What the component can do, as REGISTER reports it.
    pub open spec fn capabilities(self) -> Map<Seq<char>, JsonView> {
        Map::empty().insert(
            "supported_symbols"@,
            text_array(self.cfg.supported_symbols),
        ).insert("supported_timeframes"@, text_array(self.cfg.supported_timeframes)).insert(
            "supported_orderbook_speeds"@,
            text_array(self.cfg.supported_orderbook_speeds),
        ).insert("requires_streams"@, text_array(self.cfg.requires_streams))
    }

    /// Session token that REGISTER carries: the configured one, else the
    /// environment's.
    pub open spec fn session_token(self, env_token: Option<Seq<char>>) -> Seq<char> {
        if self.cfg.session_token.len() != 0 {
            self.cfg.session_token
        } else {
            or_empty(env_token)
        }
    }

    /// Component identifier that REGISTER carries: the one that the daemon
    /// gave, else the environment's. Empty where there is neither.
    pub open spec fn claimed_id(self, env_id: Option<Seq<char>>) -> Seq<char> {
        if self.component_id.len() != 0 {
            self.component_id
        } else {
            or_empty(env_id)
        }
    }

    /// REGISTER. It names the component identifier only where there is one.
    pub open spec fn register_message(
        self,
        env_token: Option<Seq<char>>,
        env_id: Option<Seq<char>>,
    ) -> OutgoingView {
        let id = self.claimed_id(env_id);
        let named = Map::empty().insert(
            "session_token"@,
            JsonView::Text(self.session_token(env_token)),
        ).insert("component_name"@, JsonView::Text(self.cfg.component_name)).insert(
            "version"@,
            JsonView::Text(self.cfg.version),
        );
        let identified = if id.len() != 0 {
            named.insert("component_id"@, JsonView::Text(id))
        } else {
            named
        };
        OutgoingView {
            msg_type: MessageType::Lifecycle,
            command: Command::Register,
            source: self.source(),
            payload: identified.insert("capabilities"@, JsonView::Object(self.capabilities())),
            correlation_id: None,
        }
    }

    /// STATE_UPDATE(`new_state`), with a remark where one is given.
    pub open spec fn state_update(
        self,
        new_state: ComponentState,
        message: Option<Seq<char>>,
    ) -> OutgoingView {
        let stated = Map::empty().insert("state"@, JsonView::Text(new_state.spec_label()));
        OutgoingView {
            msg_type: MessageType::Lifecycle,
            command: Command::StateUpdate,
            source: self.source(),
            payload: match message {
                Some(m) => stated.insert("message"@, JsonView::Text(m)),
                None => stated,
            },
            correlation_id: None,
        }
    }

    /// The ACK of the message `id`.
    pub open spec fn ack(self, id: Seq<char>) -> OutgoingView {
        OutgoingView {
            msg_type: MessageType::Control,
            command: Command::Ack,
            source: self.source(),
            payload: Map::empty().insert("status"@, JsonView::Text("ok"@)),
            correlation_id: Some(id),
        }
    }

    /// A report of an error.
    pub open spec fn error_report(
        self,
        code: Seq<char>,
        message: Seq<char>,
        recoverable: bool,
    ) -> OutgoingView {
        OutgoingView {
            msg_type: MessageType::Error,
            command: Command::RuntimeError,
            source: self.source(),
            payload: Map::empty().insert("code"@, JsonView::Text(code)).insert(
                "message"@,
                JsonView::Text(message),
            ).insert("recoverable"@, JsonView::Bool(recoverable)),
            correlation_id: None,
        }
    }

    /// The PONG to the PING `id`.
    pub open spec fn pong(self, id: Seq<char>, now: u64) -> OutgoingView {
        OutgoingView {
            msg_type: MessageType::Heartbeat,
            command: Command::Pong,
            source: self.source(),
            payload: Map::empty().insert("state"@, JsonView::Text(self.state.spec_label())).insert(
                "uptime_seconds"@,
                JsonView::Number(self.uptime(now)),
            ),
            correlation_id: Some(id),
        }
    }

    /// The same component in another phase.
    pub open spec fn at(self, phase: PhaseView) -> ComponentView {
        ComponentView { phase, ..self }
    }

    /// Gives the connection up.
    pub open spec fn close(self, outcome: Result<(), AegisErrorView>) -> (
        ComponentView,
        ActionView,
    ) {
        (self.at(PhaseView::Idle), ActionView::Close(outcome))
    }

    /// Gives the connection up with an error.
    pub open spec fn fail(self, error: AegisErrorView) -> (ComponentView, ActionView) {
        self.close(Err(error))
    }

    /// Sends a message.
    pub open spec fn send(self, phase: PhaseView, message: OutgoingView) -> (
        ComponentView,
        ActionView,
    ) {
        (self.at(phase), ActionView::Send(message))
    }

    /// Waits for an answer that is due within the registration's deadline.
    pub open spec fn await_reply(self, phase: PhaseView) -> (ComponentView, ActionView) {
        (self.at(phase), ActionView::Receive { deadline_secs: Some(REPLY_TIMEOUT_SECS) })
    }

    /// Waits for the next message, without a deadline.
    pub open spec fn listen(self) -> (ComponentView, ActionView) {
        (self.at(PhaseView::Listen), ActionView::Receive { deadline_secs: None })
    }

    /// The daemon answered REGISTER.
    pub open spec fn registration_reply(self, env: EnvelopeView) -> (ComponentView, ActionView) {
        if env.command is RegistrationFailed {
            self.fail(
                AegisErrorView::Registration(
                    crate::json::text_or(env.payload, "message"@, "registration failed"@),
                ),
            )
        } else if !(env.command is Registered) {
            self.fail(
                AegisErrorView::Registration("unexpected response: "@ + env.command.spec_name()),
            )
        } else {
            let registered = ComponentView {
                component_id: crate::json::text_or(env.payload, "component_id"@, ""@),
                session_id: crate::json::text_or(env.payload, "session_id"@, ""@),
                state: ComponentState::Registered,
                ..self
            };
            registered.send(
                PhaseView::SendInitializing,
                registered.state_update(ComponentState::Initializing, None),
            )
        }
    }

    /// The error of a message that came where an ACK was due.
    pub open spec fn not_an_ack(env: EnvelopeView) -> AegisErrorView {
        AegisErrorView::Connection(
            "expected ACK, got "@ + env.msg_type.spec_name() + "/"@ + env.command.spec_name(),
        )
    }

    /// Registration is complete: the daemon's silence counts from now, and the
    /// watchdog is started unless it is turned off.
    pub open spec fn enter_loop(self, now: u64) -> (ComponentView, ActionView) {
        let seeded = ComponentView { last_ping: now, ..self };
        if seeded.cfg.ping_timeout > 0 {
            (
                seeded.at(PhaseView::StartWatchdog),
                ActionView::StartWatchdog { timeout: seeded.cfg.ping_timeout },
            )
        } else {
            seeded.listen()
        }
    }

    /// A message of the heartbeat family came.
    pub open spec fn heartbeat(self, env: EnvelopeView, now: u64) -> (ComponentView, ActionView) {
        if env.command is Ping {
            (
                ComponentView { last_ping: now, ..self }.at(PhaseView::RunPing(env.message_id)),
                ActionView::OnPing,
            )
        } else {
            self.listen()
        }
    }

    /// A message of the configuration family came.
    pub open spec fn configuration(self, env: EnvelopeView) -> (ComponentView, ActionView) {
        if env.command is Configure {
            (
                self.at(PhaseView::RunConfigure(env.message_id)),
                ActionView::OnConfigure {
                    socket_path: crate::json::text_or(
                        env.payload,
                        "data_stream_socket"@,
                        ""@,
                    ),
                    topics: crate::json::texts_at(env.payload, "topics"@),
                },
            )
        } else {
            self.listen()
        }
    }

    /// A message of the lifecycle family came.
    pub open spec fn lifecycle(self, env: EnvelopeView, now: u64) -> (ComponentView, ActionView) {
        match env.command {
            Command::Reborn => (
                ComponentView { last_ping: now, ..self }.at(PhaseView::RunReborn(env.message_id)),
                ActionView::OnReborn,
            ),
            Command::Shutdown => (
                self.at(PhaseView::CancelShutdown(env.message_id)),
                ActionView::CancelShutdown,
            ),
            _ => self.listen(),
        }
    }

    /// A message of the error family came. One that is not recoverable goes to
    /// `on_error` and then ends the connection; one that is changes nothing.
    pub open spec fn reported_error(self, env: EnvelopeView) -> (ComponentView, ActionView) {
        if crate::json::bool_or(env.payload, "recoverable"@, false) {
            self.listen()
        } else {
            (
                self.at(PhaseView::RunError),
                ActionView::OnError {
                    code: crate::json::text_or(env.payload, "code"@, "UNKNOWN"@),
                    message: crate::json::text_or(env.payload, "message"@, ""@),
                },
            )
        }
    }

    /// A message came. ACKs and messages of unknown families change nothing.
    pub open spec fn message(self, env: EnvelopeView, now: u64) -> (ComponentView, ActionView) {
        match env.msg_type {
            MessageType::Heartbeat => self.heartbeat(env, now),
            MessageType::Config => self.configuration(env),
            MessageType::Lifecycle => self.lifecycle(env, now),
            MessageType::Error => self.reported_error(env),
            MessageType::Control | MessageType::Unknown => self.listen(),
        }
    }

    /// STATE_UPDATE(RUNNING) was sent: the daemon's silence counts from now, and
    /// `on_running` is started unless it was started before.
    pub open spec fn reach_running(self, now: u64) -> (ComponentView, ActionView) {
        let running = ComponentView { state: ComponentState::Running, last_ping: now, ..self };
        if running.running_started {
            running.listen()
        } else {
            (
                ComponentView { running_started: true, ..running }.at(PhaseView::StartRunning),
                ActionView::OnRunning {
                    component_id: running.component_id,
                    session_id: running.session_id,
                },
            )
        }
    }

    /// The message was sent. A state counts as reached once it has been
    /// announced.
    pub open spec fn sent(self, now: u64) -> (ComponentView, ActionView) {
        match self.phase {
            PhaseView::SendRegister => self.await_reply(PhaseView::AwaitRegistered),
            PhaseView::SendInitializing => ComponentView {
                state: ComponentState::Initializing,
                ..self
            }.await_reply(PhaseView::AwaitInitializingAck),
            PhaseView::SendReady => ComponentView {
                state: ComponentState::Ready,
                ..self
            }.await_reply(PhaseView::AwaitReadyAck),
            PhaseView::SendConfigureAck => self.send(
                PhaseView::SendConfigured,
                self.state_update(ComponentState::Configured, None),
            ),
            PhaseView::SendConfigured => ComponentView {
                state: ComponentState::Configured,
                ..self
            }.send(
                PhaseView::SendRunning,
                self.state_update(ComponentState::Running, None),
            ),
            PhaseView::SendRunning => self.reach_running(now),
            PhaseView::SendShutdownAck => ComponentView {
                state: ComponentState::Shutdown,
                ..self
            }.close(Ok(())),
            _ => self.listen(),
        }
    }

    /// A read ended with a message.
    pub open spec fn received(self, env: EnvelopeView, now: u64) -> (ComponentView, ActionView) {
        match self.phase {
            PhaseView::AwaitRegistered => self.registration_reply(env),
            PhaseView::AwaitInitializingAck => if env.command is Ack {
                self.send(
                    PhaseView::SendReady,
                    self.state_update(ComponentState::Ready, None),
                )
            } else {
                self.fail(ComponentView::not_an_ack(env))
            },
            PhaseView::AwaitReadyAck => if env.command is Ack {
                self.enter_loop(now)
            } else {
                self.fail(ComponentView::not_an_ack(env))
            },
            _ => self.message(env, now),
        }
    }

    /// A callback returned, or what was to be started has started.
    pub open spec fn done(self, now: u64) -> (ComponentView, ActionView) {
        match self.phase {
            PhaseView::RunPing(id) => self.send(PhaseView::SendPong, self.pong(id, now)),
            PhaseView::RunConfigure(id) => self.send(PhaseView::SendConfigureAck, self.ack(id)),
            PhaseView::RunReborn(id) => self.send(PhaseView::SendRebornAck, self.ack(id)),
            PhaseView::CancelShutdown(id) => (
                self.at(PhaseView::RunShutdown(id)),
                ActionView::OnShutdown,
            ),
            PhaseView::RunShutdown(id) => self.send(PhaseView::SendShutdownAck, self.ack(id)),
            PhaseView::RunError => self.fail(
                AegisErrorView::Connection("non-recoverable error from daemon"@),
            ),
            _ => self.listen(),
        }
    }

    /// What the component becomes and does when `event` happens at the clock
    /// reading `now`.
    pub open spec fn next(self, event: EventView, now: u64) -> (ComponentView, ActionView)
        recommends
            self.phase.accepts(event),
    {
        match event {
            EventView::Connected { session_token, component_id } => self.send(
                PhaseView::SendRegister,
                self.register_message(session_token, component_id),
            ),
            EventView::ConnectFailed(m) => self.fail(AegisErrorView::Io(m)),
            EventView::Sent => self.sent(now),
            EventView::SendFailed(e) => self.fail(e),
            EventView::Received(Ok(env)) => self.received(env, now),
            EventView::Received(Err(e)) => self.fail(e),
            EventView::TimedOut => self.fail(AegisErrorView::Timeout),
            EventView::WatchdogFired => self.fail(
                AegisErrorView::Connection("ping watchdog: no PING received within timeout"@),
            ),
            EventView::Done => self.done(now),
            EventView::ConfigureFailed(m) => self.send(
                PhaseView::SendConfigureError,
                self.error_report("CONFIGURE_FAILED"@, m, true),
            ),
        }
    }

    /// The component after a look of the watchdog, and whether the daemon has
    /// been silent for too long. Outside the steady states the daemon sends no
    /// PINGs, and its silence starts to count anew.
    pub open spec fn watchdog(self, now: u64) -> (ComponentView, bool) {
        if self.state.steady() {
            (self, now - self.last_ping > self.cfg.ping_timeout)
        } else {
            (ComponentView { last_ping: now, ..self }, false)
        }
    }
}

} // verus!
