//! What holds of every component, whatever happens to it.

use vstd::prelude::*;
use crate::component_model::{
    ActionView, ComponentView, EventView, PhaseView, NANOS_PER_SEC, REPLY_TIMEOUT_SECS,
    WATCHDOG_PERIOD_SECS,
};
use crate::config::ConfigView;
use crate::error::AegisErrorView;
use crate::json::JsonView;
use crate::protocol::{ComponentState, EnvelopeView, MessageType};

verus! {

/// One thing that befalls a component, with its clock reading.
pub enum Input {
    /// An event.
    Happens(EventView, u64),
    /// A look of the watchdog.
    Look(u64),
    /// The application has announced a state of its own accord.
    Announced(ComponentState),
    /// The application has set what it shares with the component.
    Adopted { component_id: Seq<char>, session_id: Seq<char>, state: ComponentState },
}

impl ComponentView {
    /// The component after one input.
    pub open spec fn after(self, input: Input) -> ComponentView {
        match input {
            Input::Happens(e, now) => self.next(e, now).0,
            Input::Look(now) => self.watchdog(now).0,
            Input::Announced(state) => ComponentView { state, ..self },
            Input::Adopted { component_id, session_id, state } => ComponentView {
                component_id,
                session_id,
                state,
                ..self
            },
        }
    }

    /// Whether the input can befall the component.
    pub open spec fn can_take(self, input: Input) -> bool {
        match input {
            Input::Happens(e, _) => self.phase.accepts(e),
            Input::Look(_) | Input::Announced(_) | Input::Adopted { .. } => true,
        }
    }

    /// The component after a series of inputs.
    pub open spec fn after_all(self, inputs: Seq<Input>) -> ComponentView
        decreases inputs.len(),
    {
        if inputs.len() == 0 {
            self
        } else {
            self.after_all(inputs.drop_last()).after(inputs.last())
        }
    }

    /// Whether each of a series of inputs can befall the component where it
    /// comes.
    pub open spec fn can_take_all(self, inputs: Seq<Input>) -> bool
        decreases inputs.len(),
    {
        inputs.len() == 0 || {
            &&& self.can_take_all(inputs.drop_last())
            &&& self.after_all(inputs.drop_last()).can_take(inputs.last())
        }
    }

    /// How often a series of inputs has `on_running` started.
    pub open spec fn starts(self, inputs: Seq<Input>) -> nat
        decreases inputs.len(),
    {
        if inputs.len() == 0 {
            0
        } else {
            let before = self.after_all(inputs.drop_last());
            self.starts(inputs.drop_last()) + match inputs.last() {
                Input::Happens(e, now) => if before.next(e, now).1 is OnRunning {
                    1nat
                } else {
                    0nat
                },
                Input::Look(_) | Input::Announced(_) | Input::Adopted { .. } => 0nat,
            }
        }
    }

    /// Whether the application leaves the component's state alone in a series of
    /// inputs: it announces none of its own accord, and sets none but the one
    /// that the component has.
    pub open spec fn unprompted(self, inputs: Seq<Input>) -> bool
        decreases inputs.len(),
    {
        inputs.len() == 0 || {
            &&& self.unprompted(inputs.drop_last())
            &&& match inputs.last() {
                Input::Happens(_, _) | Input::Look(_) => true,
                Input::Announced(_) => false,
                Input::Adopted { state, .. } => state == self.after_all(inputs.drop_last()).state,
            }
        }
    }

    /// Whether a series of inputs has the shutdown token cancelled.
    pub open spec fn cancelled(self, inputs: Seq<Input>) -> bool
        decreases inputs.len(),
    {
        inputs.len() > 0 && {
            ||| self.cancelled(inputs.drop_last())
            ||| match inputs.last() {
                Input::Happens(e, now) => self.after_all(inputs.drop_last()).next(
                    e,
                    now,
                ).1 is CancelShutdown,
                Input::Look(_) | Input::Announced(_) | Input::Adopted { .. } => false,
            }
        }
    }

    /// Whether input `i` is a SHUTDOWN that comes while the component listens.
    pub open spec fn handles_shutdown(self, inputs: Seq<Input>, i: int) -> bool {
        &&& 0 <= i < inputs.len()
        &&& self.after_all(inputs.take(i)).phase is Listen
        &&& inputs[i] matches Input::Happens(EventView::Received(Ok(env)), _)
        &&& env.msg_type is Lifecycle
        &&& env.command is Shutdown
    }

    /// Whether input `i` tells that RUNNING has been announced, the last step of
    /// a CONFIGURE.
    pub open spec fn reaches_running(self, inputs: Seq<Input>, i: int) -> bool {
        &&& 0 <= i < inputs.len()
        &&& self.after_all(inputs.take(i)).phase is SendRunning
        &&& inputs[i] matches Input::Happens(e, _)
        &&& e is Sent
    }

    /// The same component with another beginning of the daemon's silence.
    pub open spec fn silent_since(self, start: u64) -> ComponentView {
        ComponentView { last_ping: start, ..self }
    }

    /// What is true of a component at all times: the phases of the handshake
    /// have the state that was announced last, and whoever is in a steady state
    /// has been started.
    pub open spec fn consistent(self) -> bool {
        &&& self.state.steady() ==> self.running_started
        &&& match self.phase {
            PhaseView::SendInitializing => self.state is Registered,
            PhaseView::AwaitInitializingAck => self.state is Initializing,
            PhaseView::SendReady => self.state is Initializing,
            PhaseView::AwaitReadyAck => self.state is Ready,
            PhaseView::StartWatchdog => self.state is Ready,
            PhaseView::SendRunning => self.state is Configured,
            PhaseView::StartRunning => self.state is Running && self.running_started,
            _ => true,
        }
    }
}

/// A component is consistent when it is made, and stays so unless the
/// application announces or changes states of its own accord.
pub proof fn law_consistent(cfg: ConfigView, made_at: u64, inputs: Seq<Input>)
    requires
        ComponentView::initial(cfg, made_at).can_take_all(inputs),
        ComponentView::initial(cfg, made_at).unprompted(inputs),
    ensures
        ComponentView::initial(cfg, made_at).after_all(inputs).consistent(),
    decreases inputs.len(),
{
    if inputs.len() > 0 {
        law_consistent(cfg, made_at, inputs.drop_last());
    }
}

/// `on_running` is started at most once in the life of a component, however
/// often it is configured, reborn or reconnected.
pub proof fn law_on_running_at_most_once(cfg: ConfigView, made_at: u64, inputs: Seq<Input>)
    requires
        ComponentView::initial(cfg, made_at).can_take_all(inputs),
    ensures
        ComponentView::initial(cfg, made_at).starts(inputs) <= 1,
{
    lemma_starts(cfg, made_at, inputs);
}

/// `on_running` has been started exactly once by the time the component is
/// RUNNING, unless the application announces or changes states of its own
/// accord.
pub proof fn law_running_means_started(cfg: ConfigView, made_at: u64, inputs: Seq<Input>)
    requires
        ComponentView::initial(cfg, made_at).can_take_all(inputs),
        ComponentView::initial(cfg, made_at).unprompted(inputs),
        ComponentView::initial(cfg, made_at).after_all(inputs).state is Running,
    ensures
        ComponentView::initial(cfg, made_at).starts(inputs) == 1,
{
    lemma_starts(cfg, made_at, inputs);
    law_consistent(cfg, made_at, inputs);
}

/// `on_running` is started exactly once in the life of a component that has ever
/// been configured up to RUNNING, and never in the life of one that has not. It
/// is started the first time that RUNNING has been announced, with the
/// identifier and the session that the component has then.
pub proof fn law_on_running_exactly_once(cfg: ConfigView, made_at: u64, inputs: Seq<Input>)
    requires
        ComponentView::initial(cfg, made_at).can_take_all(inputs),
    ensures
        ({
            let made = ComponentView::initial(cfg, made_at);
            &&& made.starts(inputs) == if exists|i: int| #[trigger] made.reaches_running(inputs, i) {
                1nat
            } else {
                0nat
            }
            &&& forall|i: int|
                (#[trigger] made.reaches_running(inputs, i) && forall|j: int|
                    0 <= j < i ==> !#[trigger] made.reaches_running(inputs, j)) ==> {
                    let m = made.after_all(inputs.take(i));
                    &&& inputs[i] matches Input::Happens(e, now)
                    &&& m.next(e, now).1 == (ActionView::OnRunning {
                        component_id: m.component_id,
                        session_id: m.session_id,
                    })
                }
        }),
{
    let made = ComponentView::initial(cfg, made_at);
    lemma_starts(cfg, made_at, inputs);
    lemma_started_by(cfg, made_at, inputs);
    assert forall|i: int|
        (#[trigger] made.reaches_running(inputs, i) && forall|j: int|
            0 <= j < i ==> !#[trigger] made.reaches_running(inputs, j)) implies {
        let m = made.after_all(inputs.take(i));
        &&& inputs[i] matches Input::Happens(e, now)
        &&& m.next(e, now).1 == (ActionView::OnRunning {
            component_id: m.component_id,
            session_id: m.session_id,
        })
    } by {
        let before = inputs.take(i);
        lemma_can_take_prefix(made, inputs, i);
        lemma_started_by(cfg, made_at, before);
        if made.after_all(before).running_started {
            let j = choose|j: int| made.reaches_running(before, j);
            assert(before.take(j) =~= inputs.take(j));
            assert(made.reaches_running(inputs, j));
        }
    }
}

/// What can be taken can be taken up to any point.
proof fn lemma_can_take_prefix(m: ComponentView, inputs: Seq<Input>, n: int)
    requires
        m.can_take_all(inputs),
        0 <= n <= inputs.len(),
    ensures
        m.can_take_all(inputs.take(n)),
    decreases inputs.len(),
{
    if n == inputs.len() {
        assert(inputs.take(n) =~= inputs);
    } else {
        lemma_can_take_prefix(m, inputs.drop_last(), n);
        assert(inputs.drop_last().take(n) =~= inputs.take(n));
    }
}

/// The component has been started exactly where RUNNING has been announced.
proof fn lemma_started_by(cfg: ConfigView, made_at: u64, inputs: Seq<Input>)
    requires
        ComponentView::initial(cfg, made_at).can_take_all(inputs),
    ensures
        ComponentView::initial(cfg, made_at).after_all(inputs).running_started <==> exists|i: int|
            #[trigger] ComponentView::initial(cfg, made_at).reaches_running(inputs, i),
    decreases inputs.len(),
{
    let made = ComponentView::initial(cfg, made_at);
    if inputs.len() > 0 {
        let before = inputs.drop_last();
        let last = inputs.len() - 1;
        lemma_started_by(cfg, made_at, before);
        assert(inputs.take(last) =~= before);
        if made.after_all(before).running_started {
            let i = choose|i: int| made.reaches_running(before, i);
            assert(before.take(i) =~= inputs.take(i));
            assert(made.reaches_running(inputs, i));
        } else if made.after_all(inputs).running_started {
            assert(made.reaches_running(inputs, last));
        } else if exists|i: int| made.reaches_running(inputs, i) {
            let i = choose|i: int| made.reaches_running(inputs, i);
            if i < last {
                assert(before.take(i) =~= inputs.take(i));
                assert(made.reaches_running(before, i));
            }
        }
    }
}

/// The component remembers whether it has been started.
proof fn lemma_starts(cfg: ConfigView, made_at: u64, inputs: Seq<Input>)
    requires
        ComponentView::initial(cfg, made_at).can_take_all(inputs),
    ensures
        ComponentView::initial(cfg, made_at).starts(inputs) == if ComponentView::initial(
            cfg,
            made_at,
        ).after_all(inputs).running_started {
            1nat
        } else {
            0nat
        },
    decreases inputs.len(),
{
    if inputs.len() > 0 {
        lemma_starts(cfg, made_at, inputs.drop_last());
    }
}

/// `on_running` gets the identifier and the session that the daemon gave, and
/// the component is RUNNING when it starts.
pub proof fn law_on_running_arguments(m: ComponentView, event: EventView, now: u64)
    requires
        m.phase.accepts(event),
        m.next(event, now).1 is OnRunning,
    ensures
        m.next(event, now).1 == (ActionView::OnRunning {
            component_id: m.component_id,
            session_id: m.session_id,
        }),
        m.next(event, now).0.state is Running,
        !m.running_started,
{
}

/// Whatever the component asks for, it takes every answer to it and nothing
/// else. The one exception is a REGISTERED message that names no component or
/// no session.
pub proof fn law_answers_accepted(m: ComponentView, event: EventView, now: u64, answer: EventView)
    requires
        m.phase.accepts(event),
    ensures
        m.next(event, now).0.phase.accepts(answer) <==> {
            &&& answer.answers(m.next(event, now).1)
            &&& !(m.next(event, now).0.phase is AwaitRegistered && answer.nameless_registered())
        },
{
}

/// During registration every read has a deadline of fifteen seconds; after it,
/// no read has one.
pub proof fn law_deadlines(m: ComponentView, event: EventView, now: u64)
    requires
        m.phase.accepts(event),
    ensures
        match m.next(event, now).1 {
            ActionView::Receive { deadline_secs } => match m.next(event, now).0.phase {
                PhaseView::Listen => deadline_secs is None,
                PhaseView::AwaitRegistered
                | PhaseView::AwaitInitializingAck
                | PhaseView::AwaitReadyAck => deadline_secs == Some(REPLY_TIMEOUT_SECS)
                    && REPLY_TIMEOUT_SECS == 15,
                _ => false,
            },
            _ => true,
        },
{
}

/// The component is without a connection exactly where it has given it up.
pub proof fn law_idle_after_close(m: ComponentView, event: EventView, now: u64)
    requires
        m.phase.accepts(event),
    ensures
        m.next(event, now).0.phase is Idle <==> m.next(event, now).1 is Close,
{
}

/// A connection ends well exactly where the ACK of a SHUTDOWN has been sent,
/// and the component is then SHUTDOWN.
pub proof fn law_clean_end(m: ComponentView, event: EventView, now: u64)
    requires
        m.phase.accepts(event),
    ensures
        m.next(event, now).1 == ActionView::Close(Ok(())) <==> m.phase is SendShutdownAck
            && event is Sent,
        m.next(event, now).1 == ActionView::Close(Ok(())) ==> m.next(
            event,
            now,
        ).0.state is Shutdown,
{
}

/// A connection that could not be opened, a message that could not be sent, a
/// read that failed or came too late, and a silent daemon each end the
/// connection with an error of their own, and change nothing else.
pub proof fn law_failures_close(m: ComponentView, event: EventView, now: u64)
    requires
        m.phase.accepts(event),
    ensures
        match event {
            EventView::ConnectFailed(text) => m.next(event, now) == m.fail(AegisErrorView::Io(text)),
            EventView::SendFailed(e) => m.next(event, now) == m.fail(e),
            EventView::Received(Err(e)) => m.next(event, now) == m.fail(e),
            EventView::TimedOut => m.next(event, now) == m.fail(AegisErrorView::Timeout),
            EventView::WatchdogFired => m.next(event, now) == m.fail(
                AegisErrorView::Connection("ping watchdog: no PING received within timeout"@),
            ),
            _ => true,
        },
{
}

/// The shutdown token is cancelled on a SHUTDOWN message and on nothing else.
pub proof fn law_cancelled_only_on_shutdown(m: ComponentView, event: EventView, now: u64)
    requires
        m.phase.accepts(event),
    ensures
        m.next(event, now).1 is CancelShutdown <==> {
            &&& m.phase is Listen
            &&& event matches EventView::Received(Ok(env))
            &&& env.msg_type is Lifecycle
            &&& env.command is Shutdown
        },
{
}

/// Of the lifecycle messages only SHUTDOWN stops the component and only REBORN
/// resets it. Every other one, an ACK or an unknown command, has nothing sent,
/// no callback run and nothing changed.
pub proof fn law_lifecycle(m: ComponentView, env: EnvelopeView, now: u64)
    requires
        m.phase is Listen,
        env.msg_type is Lifecycle,
    ensures
        ({
            let (n, action) = m.next(EventView::Received(Ok(env)), now);
            &&& action is CancelShutdown <==> env.command is Shutdown
            &&& action is OnReborn <==> env.command is Reborn
            &&& !(env.command is Shutdown || env.command is Reborn) ==> {
                &&& n == m
                &&& action == (ActionView::Receive { deadline_secs: None })
            }
        }),
{
}

/// Over the whole life of a component the shutdown token is cancelled exactly
/// where a SHUTDOWN has been handled: no rebirth, no error, no lost connection
/// and no silence of the daemon cancels it.
pub proof fn law_cancelled_iff_shutdown_handled(m: ComponentView, inputs: Seq<Input>)
    requires
        m.can_take_all(inputs),
    ensures
        m.cancelled(inputs) <==> exists|i: int| #[trigger] m.handles_shutdown(inputs, i),
    decreases inputs.len(),
{
    if inputs.len() > 0 {
        let before = inputs.drop_last();
        let last = inputs.len() - 1;
        law_cancelled_iff_shutdown_handled(m, before);
        assert(inputs.take(last) =~= before);
        if m.cancelled(before) {
            let i = choose|i: int| m.handles_shutdown(before, i);
            assert(before.take(i) =~= inputs.take(i));
            assert(m.handles_shutdown(inputs, i));
        } else if m.cancelled(inputs) {
            assert(m.handles_shutdown(inputs, last));
        } else if exists|i: int| m.handles_shutdown(inputs, i) {
            let i = choose|i: int| m.handles_shutdown(inputs, i);
            if i < last {
                assert(before.take(i) =~= inputs.take(i));
                assert(m.handles_shutdown(before, i));
            }
        }
    }
}

/// A connection never ends well unless a SHUTDOWN has been handled, and the
/// shutdown token is then cancelled.
pub proof fn law_clean_end_means_shutdown(
    cfg: ConfigView,
    made_at: u64,
    inputs: Seq<Input>,
    event: EventView,
    now: u64,
)
    requires
        ComponentView::initial(cfg, made_at).can_take_all(inputs),
        ComponentView::initial(cfg, made_at).after_all(inputs).phase.accepts(event),
        ComponentView::initial(cfg, made_at).after_all(inputs).next(event, now).1
            == ActionView::Close(Ok(())),
    ensures
        ComponentView::initial(cfg, made_at).cancelled(inputs),
        exists|i: int| #[trigger]
            ComponentView::initial(cfg, made_at).handles_shutdown(inputs, i),
{
    let made = ComponentView::initial(cfg, made_at);
    law_clean_end(made.after_all(inputs), event, now);
    lemma_shutting_down(cfg, made_at, inputs);
    law_cancelled_iff_shutdown_handled(made, inputs);
}

/// A component shuts down only with its token cancelled.
proof fn lemma_shutting_down(cfg: ConfigView, made_at: u64, inputs: Seq<Input>)
    requires
        ComponentView::initial(cfg, made_at).can_take_all(inputs),
    ensures
        ({
            let made = ComponentView::initial(cfg, made_at);
            match made.after_all(inputs).phase {
                PhaseView::CancelShutdown(_)
                | PhaseView::RunShutdown(_)
                | PhaseView::SendShutdownAck => made.cancelled(inputs),
                _ => true,
            }
        }),
    decreases inputs.len(),
{
    if inputs.len() > 0 {
        lemma_shutting_down(cfg, made_at, inputs.drop_last());
    }
}

/// A state is reached when the daemon has named the component, when the state
/// has been announced, or when the ACK of a SHUTDOWN has been sent; otherwise
/// it stays.
pub proof fn law_state_changes(m: ComponentView, event: EventView, now: u64)
    requires
        m.phase.accepts(event),
    ensures
        m.next(event, now).0.state == match (m.phase, event) {
            (PhaseView::AwaitRegistered, EventView::Received(Ok(env))) =>
                if env.command is Registered {
                    ComponentState::Registered
                } else {
                    m.state
                },
            (PhaseView::SendInitializing, EventView::Sent) => ComponentState::Initializing,
            (PhaseView::SendReady, EventView::Sent) => ComponentState::Ready,
            (PhaseView::SendConfigured, EventView::Sent) => ComponentState::Configured,
            (PhaseView::SendRunning, EventView::Sent) => ComponentState::Running,
            (PhaseView::SendShutdownAck, EventView::Sent) => ComponentState::Shutdown,
            _ => m.state,
        },
{
}

/// The identifier and the session change on a REGISTERED message only, so a
/// lost connection keeps them.
pub proof fn law_identity_kept(m: ComponentView, event: EventView, now: u64)
    requires
        m.phase.accepts(event),
    ensures
        ({
            let named = match event {
                EventView::Received(Ok(env)) => m.phase is AwaitRegistered
                    && env.command is Registered,
                _ => false,
            };
            !named ==> {
                &&& m.next(event, now).0.component_id == m.component_id
                &&& m.next(event, now).0.session_id == m.session_id
            }
        }),
        m.next(event, now).0.cfg == m.cfg,
        m.next(event, now).0.started_at == m.started_at,
{
}

/// A component that the daemon has given an identifier claims it whenever it
/// registers again, whatever the environment says.
pub proof fn law_reconnect_claims_identity(
    m: ComponentView,
    env_token: Option<Seq<char>>,
    env_id: Option<Seq<char>>,
    now: u64,
)
    requires
        m.phase is Idle,
        m.component_id.len() != 0,
    ensures
        ({
            let connected = EventView::Connected { session_token: env_token, component_id: env_id };
            &&& m.next(connected, now).1 matches ActionView::Send(register)
            &&& register.command is Register
            &&& crate::json::text_at(register.payload, "component_id"@) == Some(m.component_id)
        }),
{
    reveal_strlit("component_id");
    reveal_strlit("capabilities");
    assert("component_id"@[1] != "capabilities"@[1]);
}

/// Registration: REGISTER, then STATE_UPDATE(INITIALIZING) and
/// STATE_UPDATE(READY), each sent once the answer to the one before has come.
/// Only then does the component listen; it is READY, under the name that the
/// daemon gave.
pub proof fn law_registration(
    m: ComponentView,
    env_token: Option<Seq<char>>,
    env_id: Option<Seq<char>>,
    registered: EnvelopeView,
    first_ack: EnvelopeView,
    second_ack: EnvelopeView,
    times: Seq<u64>,
)
    requires
        m.phase is Idle,
        registered.command is Registered,
        first_ack.command is Ack,
        second_ack.command is Ack,
    ensures
        ({
            let connected = EventView::Connected { session_token: env_token, component_id: env_id };
            let (m1, a1) = m.next(connected, times[0]);
            let (m2, a2) = m1.next(EventView::Sent, times[1]);
            let (m3, a3) = m2.next(EventView::Received(Ok(registered)), times[2]);
            let (m4, a4) = m3.next(EventView::Sent, times[3]);
            let (m5, a5) = m4.next(EventView::Received(Ok(first_ack)), times[4]);
            let (m6, a6) = m5.next(EventView::Sent, times[5]);
            let (m7, a7) = m6.next(EventView::Received(Ok(second_ack)), times[6]);
            &&& a1 == ActionView::Send(m.register_message(env_token, env_id))
            &&& a2 is Receive
            &&& a3 == ActionView::Send(m.state_update(ComponentState::Initializing, None))
            &&& a4 is Receive
            &&& a5 == ActionView::Send(m.state_update(ComponentState::Ready, None))
            &&& a6 is Receive
            &&& a7 == if m.cfg.ping_timeout > 0 {
                ActionView::StartWatchdog { timeout: m.cfg.ping_timeout }
            } else {
                ActionView::Receive { deadline_secs: None }
            }
            &&& m7.state is Ready
            &&& m7.component_id == crate::json::text_or(
                registered.payload,
                "component_id"@,
                ""@,
            )
            &&& m7.session_id == crate::json::text_or(registered.payload, "session_id"@, ""@)
            &&& m7.last_ping == times[6]
        }),
{
}

/// The answer to REGISTER settles the registration: a REGISTERED message is
/// followed by an announcement, every other message by a registration error.
pub proof fn law_registration_settled(m: ComponentView, env: EnvelopeView, now: u64)
    requires
        m.phase is AwaitRegistered,
    ensures
        ({
            let (n, action) = m.next(EventView::Received(Ok(env)), now);
            if env.command is Registered {
                action is Send && n.phase is SendInitializing
            } else {
                &&& action matches ActionView::Close(Err(AegisErrorView::Registration(_)))
                &&& n.phase is Idle
            }
        }),
{
}

/// A PING resets the watchdog; `on_ping` runs, and then a PONG answers it with
/// the component's state. Nothing else changes.
pub proof fn law_ping(m: ComponentView, ping: EnvelopeView, came: u64, returned: u64, sent: u64)
    requires
        m.phase is Listen,
        ping.msg_type is Heartbeat,
        ping.command is Ping,
    ensures
        ({
            let (m1, a1) = m.next(EventView::Received(Ok(ping)), came);
            let (m2, a2) = m1.next(EventView::Done, returned);
            let (m3, a3) = m2.next(EventView::Sent, sent);
            &&& a1 is OnPing
            &&& a2 matches ActionView::Send(pong)
            &&& pong.command is Pong
            &&& pong.correlation_id == Some(ping.message_id)
            &&& crate::json::text_at(pong.payload, "state"@) == Some(m.state.spec_label())
            &&& pong.payload["uptime_seconds"@] == JsonView::Number(m.uptime(returned))
            &&& a3 == (ActionView::Receive { deadline_secs: None })
            &&& m3 == (ComponentView { last_ping: came, ..m })
        }),
{
    reveal_strlit("state");
    reveal_strlit("uptime_seconds");
    assert("state"@.len() != "uptime_seconds"@.len());
}

/// A CONFIGURE that `on_configure` takes is acknowledged, then CONFIGURED and
/// RUNNING are announced, in this order; `on_running` starts unless it has been
/// started before. The watchdog starts anew.
pub proof fn law_configure(m: ComponentView, configure: EnvelopeView, times: Seq<u64>)
    requires
        m.phase is Listen,
        configure.msg_type is Config,
        configure.command is Configure,
    ensures
        ({
            let (m1, a1) = m.next(EventView::Received(Ok(configure)), times[0]);
            let (m2, a2) = m1.next(EventView::Done, times[1]);
            let (m3, a3) = m2.next(EventView::Sent, times[2]);
            let (m4, a4) = m3.next(EventView::Sent, times[3]);
            let (m5, a5) = m4.next(EventView::Sent, times[4]);
            &&& a1 == (ActionView::OnConfigure {
                socket_path: crate::json::text_or(
                    configure.payload,
                    "data_stream_socket"@,
                    ""@,
                ),
                topics: crate::json::texts_at(configure.payload, "topics"@),
            })
            &&& a2 == ActionView::Send(m.ack(configure.message_id))
            &&& a3 == ActionView::Send(m.state_update(ComponentState::Configured, None))
            &&& a4 == ActionView::Send(m.state_update(ComponentState::Running, None))
            &&& a5 == if m.running_started {
                ActionView::Receive { deadline_secs: None }
            } else {
                ActionView::OnRunning { component_id: m.component_id, session_id: m.session_id }
            }
            &&& m5.state is Running
            &&& m5.running_started
            &&& m5.last_ping == times[4]
        }),
{
}

/// A CONFIGURE that `on_configure` refuses is answered with a recoverable error
/// that carries the message of the refusal. Nothing else changes.
pub proof fn law_configure_refused(
    m: ComponentView,
    configure: EnvelopeView,
    reason: Seq<char>,
    times: Seq<u64>,
)
    requires
        m.phase is Listen,
        configure.msg_type is Config,
        configure.command is Configure,
    ensures
        ({
            let (m1, a1) = m.next(EventView::Received(Ok(configure)), times[0]);
            let (m2, a2) = m1.next(EventView::ConfigureFailed(reason), times[1]);
            let (m3, a3) = m2.next(EventView::Sent, times[2]);
            &&& a2 == ActionView::Send(m.error_report("CONFIGURE_FAILED"@, reason, true))
            &&& a3 == (ActionView::Receive { deadline_secs: None })
            &&& m3 == m
        }),
{
}

/// On REBORN `on_reborn` runs and then the message is acknowledged. The
/// component keeps its state and its name, `on_running` is not started, and the
/// watchdog starts anew.
pub proof fn law_reborn(m: ComponentView, reborn: EnvelopeView, came: u64, returned: u64, sent: u64)
    requires
        m.phase is Listen,
        reborn.msg_type is Lifecycle,
        reborn.command is Reborn,
    ensures
        ({
            let (m1, a1) = m.next(EventView::Received(Ok(reborn)), came);
            let (m2, a2) = m1.next(EventView::Done, returned);
            let (m3, a3) = m2.next(EventView::Sent, sent);
            &&& a1 is OnReborn
            &&& a2 == ActionView::Send(m.ack(reborn.message_id))
            &&& a3 == (ActionView::Receive { deadline_secs: None })
            &&& m3 == (ComponentView { last_ping: came, ..m })
        }),
{
}

/// On SHUTDOWN the shutdown token is cancelled, then `on_shutdown` runs, then
/// the message is acknowledged, and then the connection ends well.
pub proof fn law_shutdown(m: ComponentView, shutdown: EnvelopeView, times: Seq<u64>)
    requires
        m.phase is Listen,
        shutdown.msg_type is Lifecycle,
        shutdown.command is Shutdown,
    ensures
        ({
            let (m1, a1) = m.next(EventView::Received(Ok(shutdown)), times[0]);
            let (m2, a2) = m1.next(EventView::Done, times[1]);
            let (m3, a3) = m2.next(EventView::Done, times[2]);
            let (m4, a4) = m3.next(EventView::Sent, times[3]);
            &&& a1 is CancelShutdown
            &&& a2 is OnShutdown
            &&& a3 == ActionView::Send(m.ack(shutdown.message_id))
            &&& a4 == ActionView::Close(Ok(()))
            &&& m4.state is Shutdown
        }),
{
}

/// An error that the daemon reports and that is not recoverable goes to
/// `on_error` and then ends the connection. One that says that it is recoverable
/// does neither: the component goes on listening.
pub proof fn law_reported_error(m: ComponentView, report: EnvelopeView, times: Seq<u64>)
    requires
        m.phase is Listen,
        report.msg_type is Error,
    ensures
        ({
            let (m1, a1) = m.next(EventView::Received(Ok(report)), times[0]);
            let (m2, a2) = m1.next(EventView::Done, times[1]);
            if crate::json::bool_or(report.payload, "recoverable"@, false) {
                a1 == (ActionView::Receive { deadline_secs: None }) && m1 == m
            } else {
                &&& a1 == (ActionView::OnError {
                    code: crate::json::text_or(report.payload, "code"@, "UNKNOWN"@),
                    message: crate::json::text_or(report.payload, "message"@, ""@),
                })
                &&& (m2, a2) == m.fail(
                    AegisErrorView::Connection("non-recoverable error from daemon"@),
                )
            }
        }),
{
}

/// ACKs, messages of unknown families and commands that do not belong to their
/// family are passed over.
pub proof fn law_passed_over(m: ComponentView, env: EnvelopeView, now: u64)
    requires
        m.phase is Listen,
        match env.msg_type {
            MessageType::Control | MessageType::Unknown => true,
            MessageType::Heartbeat => !(env.command is Ping),
            MessageType::Config => !(env.command is Configure),
            MessageType::Lifecycle => !(env.command is Reborn || env.command is Shutdown),
            MessageType::Error => false,
        },
    ensures
        m.next(EventView::Received(Ok(env)), now) == (
            m,
            ActionView::Receive { deadline_secs: None },
        ),
{
}

/// A look of the watchdog changes the beginning of the daemon's silence and
/// nothing else, and nothing that a component does depends on that beginning.
pub proof fn law_looks_do_not_interfere(m: ComponentView, look: u64, event: EventView, now: u64)
    ensures
        m.watchdog(look).0.silent_since(0) == m.silent_since(0),
        m.watchdog(look).0.next(event, now).1 == m.next(event, now).1,
        m.watchdog(look).0.next(event, now).0.silent_since(0) == m.next(
            event,
            now,
        ).0.silent_since(0),
{
}

/// Outside the steady states the watchdog never fires.
pub proof fn law_watchdog_only_when_steady(m: ComponentView, now: u64)
    requires
        m.watchdog(now).1,
    ensures
        m.state is Running || m.state is Waiting,
{
}

/// The watchdog fires in time: where the look before was quiet and this one
/// comes no later than the period asks, it fires exactly on a silence that is
/// longer than the timeout, and the silence is longer by one period at most.
pub proof fn law_watchdog_fires_in_time(m: ComponentView, before: u64, look: u64)
    requires
        m.state.steady(),
        !m.watchdog(before).1,
        look <= before + WATCHDOG_PERIOD_SECS * NANOS_PER_SEC,
    ensures
        m.watchdog(look).1 <==> look - m.last_ping > m.cfg.ping_timeout,
        look - m.last_ping <= m.cfg.ping_timeout + WATCHDOG_PERIOD_SECS * NANOS_PER_SEC,
{
}

/// After a PING the watchdog stays quiet as long as the timeout lasts; once the
/// timeout has passed without another PING it fires, in the steady states.
pub proof fn law_watchdog_after_ping(m: ComponentView, ping: EnvelopeView, came: u64, look: u64)
    requires
        m.phase is Listen,
        ping.msg_type is Heartbeat,
        ping.command is Ping,
    ensures
        m.next(EventView::Received(Ok(ping)), came).0.watchdog(look).1 <==> m.state.steady()
            && look > came + m.cfg.ping_timeout,
{
}

/// Reaching RUNNING gives the daemon the whole timeout for its first PING.
pub proof fn law_watchdog_after_running(m: ComponentView, reached: u64, look: u64)
    requires
        m.phase is SendRunning,
    ensures
        m.next(EventView::Sent, reached).0.watchdog(look).1 <==> look > reached
            + m.cfg.ping_timeout,
{
}

/// A rebirth gives the daemon the whole timeout for its next PING.
pub proof fn law_watchdog_after_reborn(m: ComponentView, reborn: EnvelopeView, came: u64, look: u64)
    requires
        m.phase is Listen,
        reborn.msg_type is Lifecycle,
        reborn.command is Reborn,
    ensures
        m.next(EventView::Received(Ok(reborn)), came).0.watchdog(look).1 <==> m.state.steady()
            && look > came + m.cfg.ping_timeout,
{
}

/// While the component is not in a steady state, every look of the watchdog
/// lets the daemon's silence count anew.
pub proof fn law_watchdog_seeds(m: ComponentView, now: u64)
    requires
        !m.state.steady(),
    ensures
        m.watchdog(now).0 == (ComponentView { last_ping: now, ..m }),
        !m.watchdog(now).1,
{
}

/// Every message that the component sends carries its name, and every ACK and
/// every PONG the identifier of the message that it answers.
pub proof fn law_messages_attributed(m: ComponentView, event: EventView, now: u64)
    requires
        m.phase.accepts(event),
    ensures
        m.next(event, now).1 matches ActionView::Send(message) ==> {
            &&& message.source == "component:"@ + m.cfg.component_name
            &&& message.correlation_id is Some <==> (message.command is Ack
                || message.command is Pong)
        },
{
}

} // verus!
