//! A component's side of the control channel.
//!
//! [`Component`] decides; whoever drives it performs. The driver hands over
//! what happened with [`Component::step`], carries out the [`Action`] that
//! comes back, and hands over what that led to. Clock readings are nanoseconds
//! on one monotonic clock.

use vstd::prelude::*;
use crate::component_model::{
    ActionView, ComponentView, EventView, PhaseView, NANOS_PER_SEC, REPLY_TIMEOUT_SECS,
};
use crate::config::Config;
use crate::error::AegisError;
use crate::json::{Json, Payload};
use crate::protocol::{
    Command, ComponentState, Envelope, LineRead, MessageType, Outgoing,
};

verus! {

/// What a component is in the middle of; see [`PhaseView`].
enum Phase {
    Idle,
    SendRegister,
    AwaitRegistered,
    SendInitializing,
    AwaitInitializingAck,
    SendReady,
    AwaitReadyAck,
    StartWatchdog,
    Listen,
    RunPing(String),
    SendPong,
    RunConfigure(String),
    SendConfigureError,
    SendConfigureAck,
    SendConfigured,
    SendRunning,
    StartRunning,
    RunReborn(String),
    SendRebornAck,
    CancelShutdown(String),
    RunShutdown(String),
    SendShutdownAck,
    RunError,
}

impl Phase {
    spec fn view(&self) -> PhaseView {
        match *self {
            Phase::Idle => PhaseView::Idle,
            Phase::SendRegister => PhaseView::SendRegister,
            Phase::AwaitRegistered => PhaseView::AwaitRegistered,
            Phase::SendInitializing => PhaseView::SendInitializing,
            Phase::AwaitInitializingAck => PhaseView::AwaitInitializingAck,
            Phase::SendReady => PhaseView::SendReady,
            Phase::AwaitReadyAck => PhaseView::AwaitReadyAck,
            Phase::StartWatchdog => PhaseView::StartWatchdog,
            Phase::Listen => PhaseView::Listen,
            Phase::RunPing(id) => PhaseView::RunPing(id@),
            Phase::SendPong => PhaseView::SendPong,
            Phase::RunConfigure(id) => PhaseView::RunConfigure(id@),
            Phase::SendConfigureError => PhaseView::SendConfigureError,
            Phase::SendConfigureAck => PhaseView::SendConfigureAck,
            Phase::SendConfigured => PhaseView::SendConfigured,
            Phase::SendRunning => PhaseView::SendRunning,
            Phase::StartRunning => PhaseView::StartRunning,
            Phase::RunReborn(id) => PhaseView::RunReborn(id@),
            Phase::SendRebornAck => PhaseView::SendRebornAck,
            Phase::CancelShutdown(id) => PhaseView::CancelShutdown(id@),
            Phase::RunShutdown(id) => PhaseView::RunShutdown(id@),
            Phase::SendShutdownAck => PhaseView::SendShutdownAck,
            Phase::RunError => PhaseView::RunError,
        }
    }
}

/// Something that happened.
pub enum Event {
    /// The connection stands. The environment's session token and component
    /// identifier come with it, where they are set.
    Connected { session_token: Option<String>, component_id: Option<String> },
    /// The connection could not be opened.
    ConnectFailed(String),
    /// The message was sent.
    Sent,
    /// The message could not be sent.
    SendFailed(AegisError),
    /// A read ended.
    Received(LineRead<Envelope>),
    /// The deadline of the read passed.
    TimedOut,
    /// The watchdog found the daemon silent for too long.
    WatchdogFired,
    /// The callback returned, or what was to be started has started.
    Done,
    /// `on_configure` returned an error, with its message.
    ConfigureFailed(String),
}

/// The text of an optional string.
pub open spec fn option_view(s: Option<String>) -> Option<Seq<char>> {
    match s {
        Some(t) => Some(t@),
        None => None,
    }
}

impl Event {
    /// What happened.
    pub open spec fn view(&self) -> EventView {
        match *self {
            Event::Connected { session_token, component_id } => EventView::Connected {
                session_token: option_view(session_token),
                component_id: option_view(component_id),
            },
            Event::ConnectFailed(m) => EventView::ConnectFailed(m@),
            Event::Sent => EventView::Sent,
            Event::SendFailed(e) => EventView::SendFailed(e.view()),
            Event::Received(read) => EventView::Received(
                match read.outcome("connection closed by daemon"@) {
                    Ok(env) => Ok(env.view()),
                    Err(e) => Err(e),
                },
            ),
            Event::TimedOut => EventView::TimedOut,
            Event::WatchdogFired => EventView::WatchdogFired,
            Event::Done => EventView::Done,
            Event::ConfigureFailed(m) => EventView::ConfigureFailed(m@),
        }
    }

    /// Whether this is a REGISTERED message without a component identifier or
    /// a session.
    fn is_nameless_registered(&self) -> (res: bool)
        ensures
            res == self.view().nameless_registered(),
    {
        match self {
            Event::Received(LineRead::Line { bytes, parsed: Ok(env) }) => {
                *bytes != 0 && env.command == Command::Registered && !(env.payload.get(
                    "component_id",
                ).is_some() && env.payload.get("session_id").is_some())
            },
            _ => false,
        }
    }
}

/// What is to be done next.
pub enum Action {
    /// Send a message.
    Send(Outgoing),
    /// Read a message, within so many seconds where a deadline is given.
    Receive { deadline_secs: Option<u64> },
    /// Start the watchdog: look with [`Component::watchdog`] every second.
    StartWatchdog { timeout: u128 },
    /// Call `on_ping`.
    OnPing,
    /// Call `on_configure`.
    OnConfigure { socket_path: String, topics: Vec<String> },
    /// Start `on_running` in a task of its own.
    OnRunning { component_id: String, session_id: String },
    /// Call `on_reborn`.
    OnReborn,
    /// Cancel the shutdown token.
    CancelShutdown,
    /// Call `on_shutdown`.
    OnShutdown,
    /// Call `on_error`.
    OnError { code: String, message: String },
    /// Close the connection; this is what it came to.
    Close(Result<(), AegisError>),
}

impl Action {
    /// What is to be done.
    pub open spec fn view(&self) -> ActionView {
        match *self {
            Action::Send(m) => ActionView::Send(m.view()),
            Action::Receive { deadline_secs } => ActionView::Receive { deadline_secs },
            Action::StartWatchdog { timeout } => ActionView::StartWatchdog { timeout },
            Action::OnPing => ActionView::OnPing,
            Action::OnConfigure { socket_path, topics } => ActionView::OnConfigure {
                socket_path: socket_path@,
                topics: crate::config::strings_view(topics@),
            },
            Action::OnRunning { component_id, session_id } => ActionView::OnRunning {
                component_id: component_id@,
                session_id: session_id@,
            },
            Action::OnReborn => ActionView::OnReborn,
            Action::CancelShutdown => ActionView::CancelShutdown,
            Action::OnShutdown => ActionView::OnShutdown,
            Action::OnError { code, message } => ActionView::OnError {
                code: code@,
                message: message@,
            },
            Action::Close(r) => ActionView::Close(crate::error::outcome_view(r)),
        }
    }
}

/// A component.
pub struct Component {
    cfg: Config,
    component_id: String,
    session_id: String,
    state: ComponentState,
    phase: Phase,
    running_started: bool,
    started_at: u64,
    last_ping: u64,
}

impl Component {
    /// The component in terms of the protocol's state machine.
    pub closed spec fn view(&self) -> ComponentView {
        ComponentView {
            cfg: self.cfg.view(),
            component_id: self.component_id@,
            session_id: self.session_id@,
            state: self.state,
            phase: self.phase.view(),
            running_started: self.running_started,
            started_at: self.started_at,
            last_ping: self.last_ping,
        }
    }

    /// A component that has never been connected.
    pub fn new(cfg: Config, now: u64) -> (res: Component)
        ensures
            res.view() == ComponentView::initial(cfg.view(), now),
    {
        Component {
            cfg,
            component_id: String::new(),
            session_id: String::new(),
            state: ComponentState::Init,
            phase: Phase::Idle,
            running_started: false,
            started_at: now,
            last_ping: now,
        }
    }

    /// Identifier that the daemon gave, empty before the first registration.
    pub fn component_id(&self) -> (res: &str)
        ensures
            res@ == self.view().component_id,
    {
        self.component_id.as_str()
    }

    /// Session that the daemon named, empty before the first registration.
    pub fn session_id(&self) -> (res: &str)
        ensures
            res@ == self.view().session_id,
    {
        self.session_id.as_str()
    }

    /// Where the component stands in its life.
    pub fn state(&self) -> (res: ComponentState)
        ensures
            res == self.view().state,
    {
        self.state
    }

    /// The settings.
    pub fn config(&self) -> (res: &Config)
        ensures
            res.view() == self.view().cfg,
    {
        &self.cfg
    }

    /// Whether the event can happen now.
    pub fn accepts(&self, event: &Event) -> (res: bool)
        ensures
            res == self.view().phase.accepts(event.view()),
    {
        match self.phase {
            Phase::SendRegister
            | Phase::SendInitializing
            | Phase::SendReady
            | Phase::SendPong
            | Phase::SendConfigureError
            | Phase::SendConfigureAck
            | Phase::SendConfigured
            | Phase::SendRunning
            | Phase::SendRebornAck
            | Phase::SendShutdownAck => matches!(event, Event::Sent | Event::SendFailed(_)),
            Phase::Idle => matches!(event, Event::Connected { .. } | Event::ConnectFailed(_)),
            Phase::AwaitRegistered => {
                matches!(event, Event::Received(_) | Event::TimedOut)
                    && !event.is_nameless_registered()
            },
            Phase::AwaitInitializingAck | Phase::AwaitReadyAck => {
                matches!(event, Event::Received(_) | Event::TimedOut)
            },
            Phase::Listen => matches!(event, Event::Received(_) | Event::WatchdogFired),
            Phase::RunConfigure(_) => matches!(event, Event::Done | Event::ConfigureFailed(_)),
            Phase::StartWatchdog
            | Phase::RunPing(_)
            | Phase::StartRunning
            | Phase::RunReborn(_)
            | Phase::CancelShutdown(_)
            | Phase::RunShutdown(_)
            | Phase::RunError => matches!(event, Event::Done),
        }
    }

    /// Name under which the component sends.
    fn source(&self) -> (res: String)
        ensures
            res@ == self.view().source(),
    {
        "component:".to_string().concat(self.cfg.component_name.as_str())
    }

    /// Whole seconds since the component was made.
    fn uptime(&self, now: u64) -> (res: u64)
        ensures
            res == self.view().uptime(now),
    {
        if now >= self.started_at {
            (now - self.started_at) / NANOS_PER_SEC
        } else {
            0
        }
    }

    /// REGISTER, with the environment's session token and component identifier
    /// where nothing better is known.
    fn register(&self, env_token: Option<String>, env_id: Option<String>) -> (res: Outgoing)
        ensures
            res.view() == self.view().register_message(
                option_view(env_token),
                option_view(env_id),
            ),
    {
        let session_token: String = if !self.cfg.session_token.as_str().is_empty() {
            self.cfg.session_token.clone()
        } else {
            unwrap_or_empty(env_token)
        };
        let component_id: String = if !self.component_id.as_str().is_empty() {
            self.component_id.clone()
        } else {
            unwrap_or_empty(env_id)
        };

        let mut payload: Payload = Payload::new();
        payload.insert("session_token", Json::Text(session_token));
        payload.insert("component_name", Json::text(self.cfg.component_name.as_str()));
        payload.insert("version", Json::text(self.cfg.version.as_str()));
        if !component_id.as_str().is_empty() {
            payload.insert("component_id", Json::Text(component_id));
        }
        payload.insert("capabilities", self.capabilities());
        Outgoing::new(MessageType::Lifecycle, Command::Register, self.source(), payload)
    }

    /// What the component can do, as REGISTER reports it.
    fn capabilities(&self) -> (res: Json)
        ensures
            res.view() == crate::json::JsonView::Object(self.view().capabilities()),
    {
        let mut offers: Payload = Payload::new();
        offers.insert("supported_symbols", Json::text_array(&self.cfg.supported_symbols));
        offers.insert("supported_timeframes", Json::text_array(&self.cfg.supported_timeframes));
        offers.insert(
            "supported_orderbook_speeds",
            Json::text_array(&self.cfg.supported_orderbook_speeds),
        );
        offers.insert("requires_streams", Json::text_array(&self.cfg.requires_streams));
        proof {
            lemma_text_array(self.cfg.supported_symbols@);
            lemma_text_array(self.cfg.supported_timeframes@);
            lemma_text_array(self.cfg.supported_orderbook_speeds@);
            lemma_text_array(self.cfg.requires_streams@);
        }
        offers.into_object()
    }

    /// STATE_UPDATE(`new_state`), with a remark where one is given. The state
    /// counts as reached once the message has been sent.
    pub fn send_state_update(&self, new_state: ComponentState, message: Option<&str>) -> (res:
        Outgoing)
        ensures
            res.view() == self.view().state_update(
                new_state,
                match message {
                    Some(m) => Some(m@),
                    None => None,
                },
            ),
    {
        let mut payload: Payload = Payload::new();
        payload.insert("state", Json::text(new_state.label()));
        if let Some(msg) = message {
            payload.insert("message", Json::text(msg));
        }
        Outgoing::new(MessageType::Lifecycle, Command::StateUpdate, self.source(), payload)
    }

    /// The message of [`Component::send_state_update`] has been sent: the state
    /// is reached.
    pub fn state_update_sent(&mut self, new_state: ComponentState)
        ensures
            final(self).view() == (ComponentView { state: new_state, ..old(self).view() }),
    {
        self.state = new_state;
    }

    /// The application has set what it shares with the component: the
    /// identifier, the session and the state.
    pub fn adopt(&mut self, component_id: String, session_id: String, state: ComponentState)
        ensures
            final(self).view() == (ComponentView {
                component_id: component_id@,
                session_id: session_id@,
                state,
                ..old(self).view()
            }),
    {
        self.component_id = component_id;
        self.session_id = session_id;
        self.state = state;
    }

    /// The ACK of the message `correlation_id`.
    fn send_ack(&self, correlation_id: String) -> (res: Outgoing)
        ensures
            res.view() == self.view().ack(correlation_id@),
    {
        let mut payload: Payload = Payload::new();
        payload.insert("status", Json::text("ok"));
        Outgoing::new(
            MessageType::Control,
            Command::Ack,
            self.source(),
            payload,
        ).with_correlation(correlation_id)
    }

    /// A report of an error.
    pub fn send_error(&self, code: &str, message: &str, recoverable: bool) -> (res: Outgoing)
        ensures
            res.view() == self.view().error_report(code@, message@, recoverable),
    {
        let mut payload: Payload = Payload::new();
        payload.insert("code", Json::text(code));
        payload.insert("message", Json::text(message));
        payload.insert("recoverable", Json::Bool(recoverable));
        Outgoing::new(MessageType::Error, Command::RuntimeError, self.source(), payload)
    }

    /// The PONG to the PING `correlation_id`.
    fn pong(&self, correlation_id: String, now: u64) -> (res: Outgoing)
        ensures
            res.view() == self.view().pong(correlation_id@, now),
    {
        let mut payload: Payload = Payload::new();
        payload.insert("state", Json::text(self.state.label()));
        payload.insert("uptime_seconds", Json::Number(self.uptime(now)));
        Outgoing::new(
            MessageType::Heartbeat,
            Command::Pong,
            self.source(),
            payload,
        ).with_correlation(correlation_id)
    }

    /// Waits for an answer that is due within the registration's deadline.
    fn await_reply(&mut self, phase: Phase) -> (res: Action)
        ensures
            (final(self).view(), res.view()) == old(self).view().await_reply(phase.view()),
    {
        self.phase = phase;
        Action::Receive { deadline_secs: Some(REPLY_TIMEOUT_SECS) }
    }

    /// Waits for the next message, without a deadline.
    fn listen(&mut self) -> (res: Action)
        ensures
            (final(self).view(), res.view()) == old(self).view().listen(),
    {
        self.phase = Phase::Listen;
        Action::Receive { deadline_secs: None }
    }

    /// Gives the connection up with an error.
    fn fail(&mut self, error: AegisError) -> (res: Action)
        ensures
            (final(self).view(), res.view()) == old(self).view().fail(error.view()),
    {
        self.phase = Phase::Idle;
        Action::Close(Err(error))
    }

    /// The daemon answered REGISTER.
    fn registration_reply(&mut self, resp: Envelope) -> (res: Action)
        requires
            resp.command is Registered ==> resp.payload.view().dom().contains("component_id"@)
                && resp.payload.view().dom().contains("session_id"@),
        ensures
            (final(self).view(), res.view()) == old(self).view().registration_reply(resp.view()),
    {
        if resp.command == Command::RegistrationFailed {
            let reason: String = resp.payload.text_or("message", "registration failed");
            return self.fail(AegisError::Registration(reason));
        }
        if resp.command != Command::Registered {
            let reason: String = "unexpected response: ".to_string().concat(resp.command.name());
            return self.fail(AegisError::Registration(reason));
        }
        self.component_id = resp.payload.text_or("component_id", "");
        self.session_id = resp.payload.text_or("session_id", "");
        self.state = ComponentState::Registered;
        self.phase = Phase::SendInitializing;
        Action::Send(self.send_state_update(ComponentState::Initializing, None))
    }

    /// The error of a message that came where an ACK was due.
    fn not_an_ack(env: &Envelope) -> (res: AegisError)
        ensures
            res.view() == ComponentView::not_an_ack(env.view()),
    {
        let mut text: String = "expected ACK, got ".to_string();
        text.append(env.msg_type.name());
        text.append("/");
        text.append(env.command.name());
        AegisError::Connection(text)
    }

    /// Registration is complete.
    fn enter_loop(&mut self, now: u64) -> (res: Action)
        ensures
            (final(self).view(), res.view()) == old(self).view().enter_loop(now),
    {
        self.last_ping = now;
        if self.cfg.ping_timeout > 0 {
            self.phase = Phase::StartWatchdog;
            Action::StartWatchdog { timeout: self.cfg.ping_timeout }
        } else {
            self.listen()
        }
    }

    /// A message of the heartbeat family came.
    fn handle_heartbeat(&mut self, env: Envelope, now: u64) -> (res: Action)
        ensures
            (final(self).view(), res.view()) == old(self).view().heartbeat(env.view(), now),
    {
        if env.command != Command::Ping {
            return self.listen();
        }
        self.last_ping = now;
        self.phase = Phase::RunPing(env.message_id);
        Action::OnPing
    }

    /// A message of the configuration family came.
    fn handle_config(&mut self, env: Envelope) -> (res: Action)
        ensures
            (final(self).view(), res.view()) == old(self).view().configuration(env.view()),
    {
        if env.command != Command::Configure {
            return self.listen();
        }
        let socket_path: String = env.payload.text_or("data_stream_socket", "");
        let topics: Vec<String> = env.payload.texts("topics");
        self.phase = Phase::RunConfigure(env.message_id);
        Action::OnConfigure { socket_path, topics }
    }

    /// A message of the lifecycle family came.
    fn handle_lifecycle(&mut self, env: Envelope, now: u64) -> (res: Action)
        ensures
            (final(self).view(), res.view()) == old(self).view().lifecycle(env.view(), now),
    {
        match env.command {
            Command::Reborn => {
                self.last_ping = now;
                self.phase = Phase::RunReborn(env.message_id);
                Action::OnReborn
            },
            Command::Shutdown => {
                self.phase = Phase::CancelShutdown(env.message_id);
                Action::CancelShutdown
            },
            _ => self.listen(),
        }
    }

    /// A message of the error family came.
    fn handle_error_msg(&mut self, env: Envelope) -> (res: Action)
        ensures
            (final(self).view(), res.view()) == old(self).view().reported_error(env.view()),
    {
        if env.payload.bool_or("recoverable", false) {
            return self.listen();
        }
        let code: String = env.payload.text_or("code", "UNKNOWN");
        let message: String = env.payload.text_or("message", "");
        self.phase = Phase::RunError;
        Action::OnError { code, message }
    }

    /// A message came while listening.
    fn handle_message(&mut self, env: Envelope, now: u64) -> (res: Action)
        ensures
            (final(self).view(), res.view()) == old(self).view().message(env.view(), now),
    {
        match env.msg_type {
            MessageType::Heartbeat => self.handle_heartbeat(env, now),
            MessageType::Config => self.handle_config(env),
            MessageType::Lifecycle => self.handle_lifecycle(env, now),
            MessageType::Error => self.handle_error_msg(env),
            MessageType::Control | MessageType::Unknown => self.listen(),
        }
    }

    /// STATE_UPDATE(RUNNING) was sent.
    fn reach_running(&mut self, now: u64) -> (res: Action)
        ensures
            (final(self).view(), res.view()) == old(self).view().reach_running(now),
    {
        self.state = ComponentState::Running;
        self.last_ping = now;
        if self.running_started {
            return self.listen();
        }
        self.running_started = true;
        self.phase = Phase::StartRunning;
        Action::OnRunning {
            component_id: self.component_id.clone(),
            session_id: self.session_id.clone(),
        }
    }

    /// The message was sent.
    fn sent(&mut self, now: u64) -> (res: Action)
        ensures
            (final(self).view(), res.view()) == old(self).view().sent(now),
    {
        match self.phase {
            Phase::SendRegister => self.await_reply(Phase::AwaitRegistered),
            Phase::SendInitializing => {
                self.state = ComponentState::Initializing;
                self.await_reply(Phase::AwaitInitializingAck)
            },
            Phase::SendReady => {
                self.state = ComponentState::Ready;
                self.await_reply(Phase::AwaitReadyAck)
            },
            Phase::SendConfigureAck => {
                self.phase = Phase::SendConfigured;
                Action::Send(self.send_state_update(ComponentState::Configured, None))
            },
            Phase::SendConfigured => {
                self.state = ComponentState::Configured;
                self.phase = Phase::SendRunning;
                Action::Send(self.send_state_update(ComponentState::Running, None))
            },
            Phase::SendRunning => self.reach_running(now),
            Phase::SendShutdownAck => {
                self.state = ComponentState::Shutdown;
                self.phase = Phase::Idle;
                Action::Close(Ok(()))
            },
            _ => self.listen(),
        }
    }

    /// A read ended with a message.
    fn received(&mut self, env: Envelope, now: u64) -> (res: Action)
        requires
            old(self).view().phase is AwaitRegistered && env.command is Registered
                ==> env.payload.view().dom().contains("component_id"@)
                && env.payload.view().dom().contains("session_id"@),
        ensures
            (final(self).view(), res.view()) == old(self).view().received(env.view(), now),
    {
        match self.phase {
            Phase::AwaitRegistered => self.registration_reply(env),
            Phase::AwaitInitializingAck => {
                if env.command != Command::Ack {
                    return self.fail(Component::not_an_ack(&env));
                }
                self.phase = Phase::SendReady;
                Action::Send(self.send_state_update(ComponentState::Ready, None))
            },
            Phase::AwaitReadyAck => {
                if env.command != Command::Ack {
                    return self.fail(Component::not_an_ack(&env));
                }
                self.enter_loop(now)
            },
            _ => self.handle_message(env, now),
        }
    }

    /// A callback returned, or what was to be started has started.
    fn done(&mut self, now: u64) -> (res: Action)
        ensures
            (final(self).view(), res.view()) == old(self).view().done(now),
    {
        let mut phase: Phase = Phase::Idle;
        std::mem::swap(&mut phase, &mut self.phase);
        match phase {
            Phase::RunPing(id) => {
                self.phase = Phase::SendPong;
                Action::Send(self.pong(id, now))
            },
            Phase::RunConfigure(id) => {
                self.phase = Phase::SendConfigureAck;
                Action::Send(self.send_ack(id))
            },
            Phase::RunReborn(id) => {
                self.phase = Phase::SendRebornAck;
                Action::Send(self.send_ack(id))
            },
            Phase::CancelShutdown(id) => {
                self.phase = Phase::RunShutdown(id);
                Action::OnShutdown
            },
            Phase::RunShutdown(id) => {
                self.phase = Phase::SendShutdownAck;
                Action::Send(self.send_ack(id))
            },
            Phase::RunError => {
                self.fail(AegisError::Connection("non-recoverable error from daemon".to_string()))
            },
            _ => self.listen(),
        }
    }

    /// Takes note of what happened and says what is to be done next.
    pub fn step(&mut self, event: Event, now: u64) -> (res: Action)
        requires
            old(self).view().phase.accepts(event.view()),
        ensures
            (final(self).view(), res.view()) == old(self).view().next(event.view(), now),
    {
        match event {
            Event::Connected { session_token, component_id } => {
                self.phase = Phase::SendRegister;
                Action::Send(self.register(session_token, component_id))
            },
            Event::ConnectFailed(m) => self.fail(AegisError::Io(m)),
            Event::Sent => self.sent(now),
            Event::SendFailed(e) => self.fail(e),
            Event::Received(read) => match read.into_result("connection closed by daemon") {
                Ok(env) => self.received(env, now),
                Err(e) => self.fail(e),
            },
            Event::TimedOut => self.fail(AegisError::Timeout),
            Event::WatchdogFired => self.fail(
                AegisError::Connection(
                    "ping watchdog: no PING received within timeout".to_string(),
                ),
            ),
            Event::Done => self.done(now),
            Event::ConfigureFailed(m) => {
                self.phase = Phase::SendConfigureError;
                Action::Send(self.send_error("CONFIGURE_FAILED", m.as_str(), true))
            },
        }
    }

    /// One look of the watchdog: whether the daemon has been silent for too
    /// long. Looks come every [`WATCHDOG_PERIOD_SECS`] seconds.
    ///
    /// [`WATCHDOG_PERIOD_SECS`]: crate::component_model::WATCHDOG_PERIOD_SECS
    pub fn watchdog(&mut self, now: u64) -> (res: bool)
        ensures
            (final(self).view(), res) == old(self).view().watchdog(now),
            res ==> now - old(self).view().last_ping > old(self).view().cfg.ping_timeout,
            res ==> old(self).view().state is Running || old(self).view().state is Waiting,
    {
        if !self.state.is_steady() {
            self.last_ping = now;
            return false;
        }
        now > self.last_ping && (now - self.last_ping) as u128 > self.cfg.ping_timeout
    }
}

/// The given text, or nothing where there is none.
fn unwrap_or_empty(s: Option<String>) -> (res: String)
    ensures
        res@ == crate::component_model::or_empty(option_view(s)),
{
    match s {
        Some(t) => t,
        None => "".to_string(),
    }
}

/// Turning strings into JSON texts goes through their characters.
proof fn lemma_text_array(items: Seq<String>)
    ensures
        crate::json::JsonView::Array(
            items.map_values(|s: String| crate::json::JsonView::Text(s@)),
        ) == crate::component_model::text_array(crate::config::strings_view(items)),
{
    assert(items.map_values(|s: String| crate::json::JsonView::Text(s@))
        =~= crate::config::strings_view(items).map_values(
        |s: Seq<char>| crate::json::JsonView::Text(s),
    ));
}

/// The view of an event tells what happened, with every text and every message
/// that came with it. A read is told by what it came to.
pub proof fn law_events_shown(event: Event)
    ensures
        match event {
            Event::Connected { session_token, component_id } => {
                &&& event.view() matches EventView::Connected { session_token: t, component_id: c }
                &&& session_token is None <==> t is None
                &&& session_token matches Some(text) ==> t == Some(text@)
                &&& component_id is None <==> c is None
                &&& component_id matches Some(text) ==> c == Some(text@)
            },
            Event::ConnectFailed(m) => event.view() == EventView::ConnectFailed(m@),
            Event::Sent => event.view() is Sent,
            Event::SendFailed(e) => event.view() == EventView::SendFailed(e.view()),
            Event::Received(LineRead::Failed(m)) => event.view() == EventView::Received(
                Err(crate::error::AegisErrorView::Io(m@)),
            ),
            Event::Received(LineRead::Line { bytes, parsed }) => {
                &&& bytes == 0 ==> event.view() == EventView::Received(
                    Err(
                        crate::error::AegisErrorView::Connection("connection closed by daemon"@),
                    ),
                )
                &&& bytes > 0 && parsed is Err ==> event.view() == EventView::Received(
                    Err(crate::error::AegisErrorView::Json(parsed->Err_0@)),
                )
                &&& bytes > 0 && parsed is Ok ==> event.view() == EventView::Received(
                    Ok(parsed->Ok_0.view()),
                )
            },
            Event::TimedOut => event.view() is TimedOut,
            Event::WatchdogFired => event.view() is WatchdogFired,
            Event::Done => event.view() is Done,
            Event::ConfigureFailed(m) => event.view() == EventView::ConfigureFailed(m@),
        },
{
}

/// The view of an action tells what is to be done, with every text and every
/// message that goes with it.
pub proof fn law_actions_shown(action: Action)
    ensures
        match action {
            Action::Send(m) => action.view() == ActionView::Send(m.view()),
            Action::Receive { deadline_secs } => action.view() == (ActionView::Receive {
                deadline_secs,
            }),
            Action::StartWatchdog { timeout } => action.view() == (ActionView::StartWatchdog {
                timeout,
            }),
            Action::OnPing => action.view() is OnPing,
            Action::OnConfigure { socket_path, topics } => {
                &&& action.view() matches ActionView::OnConfigure { socket_path: p, topics: t }
                &&& p == socket_path@
                &&& t.len() == topics@.len()
                &&& forall|i: int| 0 <= i < topics@.len() ==> #[trigger] t[i] == topics@[i]@
            },
            Action::OnRunning { component_id, session_id } => action.view()
                == (ActionView::OnRunning {
                component_id: component_id@,
                session_id: session_id@,
            }),
            Action::OnReborn => action.view() is OnReborn,
            Action::CancelShutdown => action.view() is CancelShutdown,
            Action::OnShutdown => action.view() is OnShutdown,
            Action::OnError { code, message } => action.view() == (ActionView::OnError {
                code: code@,
                message: message@,
            }),
            Action::Close(Ok(_)) => action.view() == ActionView::Close(Ok(())),
            Action::Close(Err(e)) => action.view() == ActionView::Close(Err(e.view())),
        },
{
}

} // verus!
