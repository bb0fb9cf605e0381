//! Messages of the control channel.

use vstd::prelude::*;
use crate::error::{AegisError, AegisErrorView};
use crate::json::{JsonView, Payload};

verus! {

/// The family of a message.
#[derive(Debug, Clone, Copy, PartialEq, Eq, Structural)]
pub enum MessageType {
    Lifecycle,
    Heartbeat,
    Config,
    Control,
    Error,
    /// A family that this version does not know.
    Unknown,
}

/// What a message asks for or reports.
#[derive(Debug, Clone, Copy, PartialEq, Eq, Structural)]
pub enum Command {
    Register,
    Registered,
    RegistrationFailed,
    StateUpdate,
    Ack,
    Ping,
    Pong,
    Configure,
    Reborn,
    Shutdown,
    RuntimeError,
    /// A command that this version does not know.
    Unknown,
}

/// Where a component stands in its life.
#[derive(Debug, Clone, Copy, PartialEq, Eq, Structural)]
pub enum ComponentState {
    Init,
    Registered,
    Initializing,
    Ready,
    Configured,
    Running,
    Waiting,
    Shutdown,
}

impl MessageType {
    /// The family's name.
    pub open spec fn spec_name(self) -> Seq<char> {
        match self {
            MessageType::Lifecycle => "Lifecycle"@,
            MessageType::Heartbeat => "Heartbeat"@,
            MessageType::Config => "Config"@,
            MessageType::Control => "Control"@,
            MessageType::Error => "Error"@,
            MessageType::Unknown => "Unknown"@,
        }
    }

    /// The family's name.
    pub fn name(&self) -> (res: &'static str)
        ensures
            res@ == self.spec_name(),
    {
        match self {
            MessageType::Lifecycle => "Lifecycle",
            MessageType::Heartbeat => "Heartbeat",
            MessageType::Config => "Config",
            MessageType::Control => "Control",
            MessageType::Error => "Error",
            MessageType::Unknown => "Unknown",
        }
    }
}

impl Command {
    /// The command's name.
    pub open spec fn spec_name(self) -> Seq<char> {
        match self {
            Command::Register => "Register"@,
            Command::Registered => "Registered"@,
            Command::RegistrationFailed => "RegistrationFailed"@,
            Command::StateUpdate => "StateUpdate"@,
            Command::Ack => "Ack"@,
            Command::Ping => "Ping"@,
            Command::Pong => "Pong"@,
            Command::Configure => "Configure"@,
            Command::Reborn => "Reborn"@,
            Command::Shutdown => "Shutdown"@,
            Command::RuntimeError => "RuntimeError"@,
            Command::Unknown => "Unknown"@,
        }
    }

    /// The command's name.
    pub fn name(&self) -> (res: &'static str)
        ensures
            res@ == self.spec_name(),
    {
        match self {
            Command::Register => "Register",
            Command::Registered => "Registered",
            Command::RegistrationFailed => "RegistrationFailed",
            Command::StateUpdate => "StateUpdate",
            Command::Ack => "Ack",
            Command::Ping => "Ping",
            Command::Pong => "Pong",
            Command::Configure => "Configure",
            Command::Reborn => "Reborn",
            Command::Shutdown => "Shutdown",
            Command::RuntimeError => "RuntimeError",
            Command::Unknown => "Unknown",
        }
    }
}

impl ComponentState {
    /// The state as messages write it.
    pub open spec fn spec_label(self) -> Seq<char> {
        match self {
            ComponentState::Init => "INIT"@,
            ComponentState::Registered => "REGISTERED"@,
            ComponentState::Initializing => "INITIALIZING"@,
            ComponentState::Ready => "READY"@,
            ComponentState::Configured => "CONFIGURED"@,
            ComponentState::Running => "RUNNING"@,
            ComponentState::Waiting => "WAITING"@,
            ComponentState::Shutdown => "SHUTDOWN"@,
        }
    }

    /// The state as messages write it.
    pub fn label(&self) -> (res: &'static str)
        ensures
            res@ == self.spec_label(),
    {
        match self {
            ComponentState::Init => "INIT",
            ComponentState::Registered => "REGISTERED",
            ComponentState::Initializing => "INITIALIZING",
            ComponentState::Ready => "READY",
            ComponentState::Configured => "CONFIGURED",
            ComponentState::Running => "RUNNING",
            ComponentState::Waiting => "WAITING",
            ComponentState::Shutdown => "SHUTDOWN",
        }
    }

    /// Whether the daemon sends PINGs in this state.
    pub open spec fn steady(self) -> bool {
        self is Running || self is Waiting
    }

    /// Whether the daemon sends PINGs in this state.
    pub fn is_steady(&self) -> (res: bool)
        ensures
            res == self.steady(),
            res == (*self == ComponentState::Running || *self == ComponentState::Waiting),
    {
        match self {
            ComponentState::Running => true,
            ComponentState::Waiting => true,
            _ => false,
        }
    }
}

/// A message received from the daemon.
pub struct Envelope {
    pub message_id: String,
    pub msg_type: MessageType,
    pub command: Command,
    pub payload: Payload,
}

/// What an [`Envelope`] holds.
pub struct EnvelopeView {
    pub message_id: Seq<char>,
    pub msg_type: MessageType,
    pub command: Command,
    pub payload: Map<Seq<char>, JsonView>,
}

impl Envelope {
    /// What the message holds.
    pub open spec fn view(&self) -> EnvelopeView {
        EnvelopeView {
            message_id: self.message_id@,
            msg_type: self.msg_type,
            command: self.command,
            payload: self.payload.view(),
        }
    }
}

/// A message to be sent. The sender stamps it with a fresh identifier and the
/// time.
pub struct Outgoing {
    pub msg_type: MessageType,
    pub command: Command,
    pub source: String,
    pub payload: Payload,
    /// Identifier of the message that this one answers.
    pub correlation_id: Option<String>,
}

/// What an [`Outgoing`] message holds.
pub struct OutgoingView {
    pub msg_type: MessageType,
    pub command: Command,
    pub source: Seq<char>,
    pub payload: Map<Seq<char>, JsonView>,
    pub correlation_id: Option<Seq<char>>,
}

impl Outgoing {
    /// What the message holds.
    pub open spec fn view(&self) -> OutgoingView {
        OutgoingView {
            msg_type: self.msg_type,
            command: self.command,
            source: self.source@,
            payload: self.payload.view(),
            correlation_id: match self.correlation_id {
                Some(id) => Some(id@),
                None => None,
            },
        }
    }

    /// A message that answers no other.
    pub fn new(msg_type: MessageType, command: Command, source: String, payload: Payload) -> (res:
        Outgoing)
        ensures
            res.view() == (OutgoingView {
                msg_type,
                command,
                source: source@,
                payload: payload.view(),
                correlation_id: None,
            }),
    {
        Outgoing { msg_type, command, source, payload, correlation_id: None }
    }

    /// The same message as an answer to the message `id`.
    pub fn with_correlation(self, id: String) -> (res: Outgoing)
        ensures
            res.view() == (OutgoingView { correlation_id: Some(id@), ..self.view() }),
    {
        Outgoing {
            msg_type: self.msg_type,
            command: self.command,
            source: self.source,
            payload: self.payload,
            correlation_id: Some(id),
        }
    }
}

/// Ends a JSON text with the newline that separates frames.
pub fn frame(json: String) -> (res: String)
    ensures
        res@ == json@.push('\n'),
{
    proof {
        reveal_strlit("\n");
    }
    let mut line: String = json;
    line.append("\n");
    assert(line@ =~= json@.push('\n'));
    line
}

/// A framed text is the text with one newline behind it.
pub proof fn law_framed(json: String, framed: String)
    requires
        call_ensures(frame, (json,), framed),
    ensures
        framed@.len() == json@.len() + 1,
        framed@.last() == '\n',
        framed@.drop_last() == json@,
{
}

/// The frames of the given JSON texts, one after the other.
pub open spec fn frames(texts: Seq<Seq<char>>) -> Seq<char>
    decreases texts.len(),
{
    if texts.len() == 0 {
        Seq::empty()
    } else {
        texts[0].push('\n') + frames(texts.skip(1))
    }
}

/// Reading line by line gives back what was framed, in order and with nothing
/// left over, as long as no text holds a newline itself.
pub proof fn law_frames_separate(texts: Seq<Seq<char>>)
    requires
        forall|i: int| 0 <= i < texts.len() ==> !(#[trigger] texts[i]).contains('\n'),
    ensures
        crate::text::split(frames(texts), '\n') == texts.push(Seq::empty()),
    decreases texts.len(),
{
    if texts.len() == 0 {
        assert(!frames(texts).contains('\n'));
        assert(crate::text::split(frames(texts), '\n') =~= texts.push(Seq::empty()));
    } else {
        let rest = texts.skip(1);
        assert forall|i: int| 0 <= i < rest.len() implies !(#[trigger] rest[i]).contains('\n') by {
            assert(rest[i] == texts[i + 1]);
        }
        law_frames_separate(rest);
        crate::text::lemma_split_cut(texts[0], '\n', frames(rest));
        assert(crate::text::split(frames(texts), '\n') =~= texts.push(Seq::empty()));
    }
}

/// What reading one line from a socket came to: the system's message where the
/// read failed, else the number of bytes read and what the line parsed to, with
/// the parser's message where it did not parse.
pub enum LineRead<T> {
    Failed(String),
    Line { bytes: usize, parsed: Result<T, String> },
}

impl<T> LineRead<T> {
    /// The value read, or the error that the read came to; `closed` is the
    /// message for a connection that ended before a line.
    pub open spec fn outcome(self, closed: Seq<char>) -> Result<T, AegisErrorView> {
        match self {
            LineRead::Failed(m) => Err(AegisErrorView::Io(m@)),
            LineRead::Line { bytes, parsed } => if bytes == 0 {
                Err(AegisErrorView::Connection(closed))
            } else {
                match parsed {
                    Ok(v) => Ok(v),
                    Err(m) => Err(AegisErrorView::Json(m@)),
                }
            },
        }
    }

    /// The value read, or the error that the read came to; `closed` is the
    /// message for a connection that ended before a line.
    pub fn into_result(self, closed: &str) -> (res: Result<T, AegisError>)
        ensures
            match (res, self.outcome(closed@)) {
                (Ok(v), Ok(w)) => v == w,
                (Err(e), Err(f)) => e.view() == f,
                _ => false,
            },
    {
        match self {
            LineRead::Failed(m) => Err(AegisError::Io(m)),
            LineRead::Line { bytes, parsed } => if bytes == 0 {
                Err(AegisError::Connection(closed.to_string()))
            } else {
                match parsed {
                    Ok(v) => Ok(v),
                    Err(m) => Err(AegisError::Json(m)),
                }
            },
        }
    }
}

/// What a read comes to: the system's message where it failed, `closed` where
/// the connection ended before a line, the parser's message where the line did
/// not parse, and else the value that was read.
pub proof fn law_reads_told<T>(read: LineRead<T>, closed: Seq<char>)
    ensures
        match read {
            LineRead::Failed(m) => read.outcome(closed) == Err::<T, AegisErrorView>(
                AegisErrorView::Io(m@),
            ),
            LineRead::Line { bytes, parsed } => {
                &&& bytes == 0 ==> read.outcome(closed) == Err::<T, AegisErrorView>(
                    AegisErrorView::Connection(closed),
                )
                &&& bytes > 0 && parsed is Ok ==> read.outcome(closed) == Ok::<T, AegisErrorView>(
                    parsed->Ok_0,
                )
                &&& bytes > 0 && parsed is Err ==> read.outcome(closed) == Err::<
                    T,
                    AegisErrorView,
                >(AegisErrorView::Json(parsed->Err_0@))
            },
        },
{
}

/// The view of a message that came shows each of its fields.
pub proof fn law_received_shown(env: Envelope)
    ensures
        env.view().message_id == env.message_id@,
        env.view().msg_type == env.msg_type,
        env.view().command == env.command,
        env.view().payload == env.payload.view(),
{
}

/// The view of a message to be sent shows each of its fields.
pub proof fn law_sent_shown(message: Outgoing)
    ensures
        message.view().msg_type == message.msg_type,
        message.view().command == message.command,
        message.view().source == message.source@,
        message.view().payload == message.payload.view(),
        message.correlation_id is None <==> message.view().correlation_id is None,
        message.correlation_id matches Some(id) ==> message.view().correlation_id == Some(id@),
{
}

/// States are written in capital letters.
pub proof fn law_state_labels()
    ensures
        ComponentState::Init.spec_label() == "INIT"@,
        ComponentState::Registered.spec_label() == "REGISTERED"@,
        ComponentState::Initializing.spec_label() == "INITIALIZING"@,
        ComponentState::Ready.spec_label() == "READY"@,
        ComponentState::Configured.spec_label() == "CONFIGURED"@,
        ComponentState::Running.spec_label() == "RUNNING"@,
        ComponentState::Waiting.spec_label() == "WAITING"@,
        ComponentState::Shutdown.spec_label() == "SHUTDOWN"@,
{
}

/// Families and commands are written by their names.
pub proof fn law_names()
    ensures
        MessageType::Lifecycle.spec_name() == "Lifecycle"@,
        MessageType::Heartbeat.spec_name() == "Heartbeat"@,
        MessageType::Config.spec_name() == "Config"@,
        MessageType::Control.spec_name() == "Control"@,
        MessageType::Error.spec_name() == "Error"@,
        MessageType::Unknown.spec_name() == "Unknown"@,
        Command::Register.spec_name() == "Register"@,
        Command::Registered.spec_name() == "Registered"@,
        Command::RegistrationFailed.spec_name() == "RegistrationFailed"@,
        Command::StateUpdate.spec_name() == "StateUpdate"@,
        Command::Ack.spec_name() == "Ack"@,
        Command::Ping.spec_name() == "Ping"@,
        Command::Pong.spec_name() == "Pong"@,
        Command::Configure.spec_name() == "Configure"@,
        Command::Reborn.spec_name() == "Reborn"@,
        Command::Shutdown.spec_name() == "Shutdown"@,
        Command::RuntimeError.spec_name() == "RuntimeError"@,
        Command::Unknown.spec_name() == "Unknown"@,
{
}

} // verus!
