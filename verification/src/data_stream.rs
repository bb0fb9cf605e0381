//! Client for the Aegis data stream.
//!
//! The orchestrator publishes market data as newline-delimited JSON frames over
//! a socket of its own. Data flows once a handshake is complete:
//!
//! ```text
//! Component -> {"component_id": "cmp-...", "session_token": "<session_id>"}
//! Server    -> {"status": "ok", "topics": ["aegis.<sid>.klines.BTCUSDT.1m", ...]}
//! ```
//!
//! Every frame is a JSON object:
//!
//! ```text
//! {"session_id":"...","topic":"aegis.<sid>.<type>.<sym>[.<tf>]","ts":1234,"data":{...}}
//! ```
//!
//! Use [`StreamMessage::parse`] to decode `data` into a typed [`MarketData`]
//! variant, and [`TopicParts::parse`] to break a topic apart.
//!
//! ## AggTrade note
//! In historical mode `event_time == 0` and `symbol` is empty. Always use
//! `transact_time` as the canonical timestamp (equals the envelope `ts`).
//!
//! ## OrderBook note
//! Binance USD-M futures depth streams have an `event_time` (field `"T"`).
//! Spot depth streams do **not**: the server falls back to `last_update_id`
//! as a monotonic proxy.
//!
//! ## Liveness
//! [`DataStream::next`] knows no read deadline. A session can have long periods
//! with no market data (historical gap, trading halt) without the socket being
//! dead. If the daemon dies, the component's watchdog closes the control
//! connection, which the application takes as a signal to reconnect the data
//! stream too.

use vstd::prelude::*;
use crate::error::{AegisError, AegisErrorView};
use crate::market_data::{
    AggTrade, BookDepth, Decoders, Kline, MarketData, Metrics, OrderBook, PayloadKind, Trade,
};
use crate::protocol::LineRead;
use crate::topic::{TopicParts, TopicPartsView};

verus! {

/// How long the server may take to answer the handshake, in seconds. Local
/// sockets answer in microseconds; this is generous while still recovering
/// quickly when the server is momentarily busy.
pub const HANDSHAKE_TIMEOUT_SECS: u64 = 3;

/// A frame as it comes over the wire.
pub struct RawEnvelope {
    pub session_id: String,
    pub topic: String,
    pub ts: i64,
    pub data: serde_json::Value,
}

/// The first message on the wire.
pub struct Handshake {
    pub component_id: String,
    pub session_token: String,
}

impl Handshake {
    /// The handshake of a component in a session: the session's identifier is
    /// its token.
    pub fn new(component_id: &str, session_id: &str) -> (res: Handshake)
        ensures
            res.component_id@ == component_id@,
            res.session_token@ == session_id@,
    {
        Handshake {
            component_id: component_id.to_string(),
            session_token: session_id.to_string(),
        }
    }
}

/// The server's answer to the handshake.
pub struct HandshakeResponse {
    pub status: String,
    pub message: Option<String>,
    pub topics: Option<Vec<String>>,
}

/// A single decoded message from the data stream.
#[derive(Debug, Clone)]
pub struct StreamMessage {
    pub session_id: String,
    /// Full topic: `aegis.<session_id>.<data_type>.<symbol>[.<timeframe>]`
    pub topic: String,
    /// Canonical unix-ms timestamp for this row (see module docs for caveats).
    pub ts: i64,
    /// Raw JSON payload.
    pub data: serde_json::Value,
}

impl StreamMessage {
    /// Parse the topic into its component parts. Returns `None` on malformed topics.
    pub fn topic_parts(&self) -> (res: Option<TopicParts>)
        ensures
            match res {
                Some(parts) => TopicPartsView::of(self.topic@) == Some(parts.view()),
                None => TopicPartsView::of(self.topic@) is None,
            },
    {
        TopicParts::parse(self.topic.as_str())
    }

    /// Whether `res` is what parsing the message with `decoders` comes to.
    pub open spec fn parsed<N, A, T, K, O, B, M>(
        self,
        decoders: Decoders<A, T, K, O, B, M>,
        res: Result<MarketData<N>, AegisError>,
    ) -> bool where
        A: FnOnce(serde_json::Value) -> Result<AggTrade<N>, String>,
        T: FnOnce(serde_json::Value) -> Result<Trade<N>, String>,
        K: FnOnce(serde_json::Value) -> Result<Kline<N>, String>,
        O: FnOnce(serde_json::Value) -> Result<OrderBook<N>, String>,
        B: FnOnce(serde_json::Value) -> Result<BookDepth<N>, String>,
        M: FnOnce(serde_json::Value) -> Result<Metrics<N>, String>,
     {
        match TopicPartsView::of(self.topic@) {
            Some(parts) => decoders.decoded(parts.data_type, self.data, res),
            None => match res {
                Ok(_) => false,
                Err(e) => e.view() == AegisErrorView::Connection(
                    "unparseable topic: "@ + self.topic@,
                ),
            },
        }
    }

    /// Decode the `data` payload into a typed [`MarketData`] variant.
    ///
    /// Returns [`MarketData::Unknown`] for unrecognised data types: forward
    /// compatibility when the server adds new types.
    pub fn parse<N, A, T, K, O, B, M>(&self, decoders: Decoders<A, T, K, O, B, M>) -> (res: Result<
        MarketData<N>,
        AegisError,
    >) where
        A: FnOnce(serde_json::Value) -> Result<AggTrade<N>, String>,
        T: FnOnce(serde_json::Value) -> Result<Trade<N>, String>,
        K: FnOnce(serde_json::Value) -> Result<Kline<N>, String>,
        O: FnOnce(serde_json::Value) -> Result<OrderBook<N>, String>,
        B: FnOnce(serde_json::Value) -> Result<BookDepth<N>, String>,
        M: FnOnce(serde_json::Value) -> Result<Metrics<N>, String>,

        requires
            TopicPartsView::of(self.topic@) matches Some(parts) ==> decoders.take(
                PayloadKind::spec_of(parts.data_type),
                self.data,
            ),
        ensures
            self.parsed(decoders, res),
    {
        match self.topic_parts() {
            Some(parts) => MarketData::decode(
                parts.data_type.as_str(),
                self.data.clone(),
                decoders,
            ),
            None => Err(
                AegisError::Connection(
                    "unparseable topic: ".to_string().concat(self.topic.as_str()),
                ),
            ),
        }
    }
}

/// What a message can decode to depends on its payload and the data type in its
/// topic alone: not on its session, its time stamp, or the symbol and the
/// timeframe. Whatever one of two such messages comes to, so can the other,
/// with any parsers.
pub proof fn law_decoding_ignores_the_rest<N, A, T, K, O, B, M>(
    a: StreamMessage,
    b: StreamMessage,
    decoders: Decoders<A, T, K, O, B, M>,
    res: Result<MarketData<N>, AegisError>,
) where
    A: FnOnce(serde_json::Value) -> Result<AggTrade<N>, String>,
    T: FnOnce(serde_json::Value) -> Result<Trade<N>, String>,
    K: FnOnce(serde_json::Value) -> Result<Kline<N>, String>,
    O: FnOnce(serde_json::Value) -> Result<OrderBook<N>, String>,
    B: FnOnce(serde_json::Value) -> Result<BookDepth<N>, String>,
    M: FnOnce(serde_json::Value) -> Result<Metrics<N>, String>,

    requires
        a.data == b.data,
        TopicPartsView::of(a.topic@) is Some,
        TopicPartsView::of(b.topic@) is Some,
        TopicPartsView::of(a.topic@)->0.data_type == TopicPartsView::of(b.topic@)->0.data_type,
    ensures
        a.parsed(decoders, res) <==> b.parsed(decoders, res),
{
}

/// Two messages with the same payload and the same data type decode to the same,
/// and so does one message each time, wherever the parsers give one result for
/// one payload.
pub proof fn law_decoding_goes_by_type_and_payload<N, A, T, K, O, B, M>(
    a: StreamMessage,
    b: StreamMessage,
    decoders: Decoders<A, T, K, O, B, M>,
    of_a: Result<MarketData<N>, AegisError>,
    of_b: Result<MarketData<N>, AegisError>,
) where
    A: FnOnce(serde_json::Value) -> Result<AggTrade<N>, String>,
    T: FnOnce(serde_json::Value) -> Result<Trade<N>, String>,
    K: FnOnce(serde_json::Value) -> Result<Kline<N>, String>,
    O: FnOnce(serde_json::Value) -> Result<OrderBook<N>, String>,
    B: FnOnce(serde_json::Value) -> Result<BookDepth<N>, String>,
    M: FnOnce(serde_json::Value) -> Result<Metrics<N>, String>,

    requires
        decoders.functional(),
        a.data == b.data,
        TopicPartsView::of(a.topic@) is Some,
        TopicPartsView::of(b.topic@) is Some,
        TopicPartsView::of(a.topic@)->0.data_type == TopicPartsView::of(b.topic@)->0.data_type,
        a.parsed(decoders, of_a),
        b.parsed(decoders, of_b),
    ensures
        crate::market_data::alike(of_a, of_b),
{
}

/// How far the opening of a data stream has come.
#[derive(Debug, Clone, Copy, PartialEq, Eq, Structural)]
pub enum OpeningPhase {
    /// The socket is being opened.
    Connect,
    /// The handshake is being sent.
    Greet,
    /// The server's answer is awaited.
    Wait,
    /// The stream is open, or never will be.
    Over,
}

/// Something that happened while a data stream was being opened.
pub enum OpeningEvent {
    /// The socket is open.
    Connected,
    /// The socket could not be opened.
    ConnectFailed(String),
    /// The handshake was sent.
    Sent,
    /// The handshake could not be sent.
    SendFailed(AegisError),
    /// A line came, with what it parsed to or the parser's message.
    Answered(Result<HandshakeResponse, String>),
    /// The answer could not be read.
    ReadFailed(String),
    /// The server did not answer in time.
    TimedOut,
}

/// What is to be done next to open a data stream.
pub enum OpeningAction {
    /// Send the handshake.
    Greet(Handshake),
    /// Read the server's answer, within so many seconds.
    Receive { deadline_secs: u64 },
    /// The stream is open, or this is why it is not.
    Finish(Result<DataStream, AegisError>),
}

/// What an [`OpeningAction`] says.
pub enum OpeningActionView {
    Greet { component_id: Seq<char>, session_token: Seq<char> },
    Receive { deadline_secs: u64 },
    Finish(Result<Seq<Seq<char>>, AegisErrorView>),
}

impl OpeningAction {
    /// What is to be done. An open stream is known by its topics.
    pub open spec fn view(&self) -> OpeningActionView {
        match *self {
            OpeningAction::Greet(h) => OpeningActionView::Greet {
                component_id: h.component_id@,
                session_token: h.session_token@,
            },
            OpeningAction::Receive { deadline_secs } => OpeningActionView::Receive {
                deadline_secs,
            },
            OpeningAction::Finish(Ok(stream)) => OpeningActionView::Finish(
                Ok(crate::config::strings_view(stream.topics@)),
            ),
            OpeningAction::Finish(Err(e)) => OpeningActionView::Finish(Err(e.view())),
        }
    }
}

impl HandshakeResponse {
    /// The topics of the stream, or why the server refused it.
    pub open spec fn topics_granted(self) -> Result<Seq<Seq<char>>, AegisErrorView> {
        if self.status@ == "ok"@ {
            Ok(
                match self.topics {
                    Some(topics) => crate::config::strings_view(topics@),
                    None => Seq::empty(),
                },
            )
        } else {
            Err(
                AegisErrorView::Connection(
                    "data stream handshake rejected: "@ + match self.message {
                        Some(m) => m@,
                        None => "no message"@,
                    },
                ),
            )
        }
    }

    /// The stream that the server granted, or why it refused it.
    fn into_stream(self) -> (res: Result<DataStream, AegisError>)
        ensures
            match (res, self.topics_granted()) {
                (Ok(stream), Ok(topics)) => crate::config::strings_view(stream.topics@) == topics,
                (Err(e), Err(f)) => e.view() == f,
                _ => false,
            },
    {
        if !crate::text::same_text(self.status.as_str(), "ok") {
            let reason: String = match self.message {
                Some(m) => m,
                None => "no message".to_string(),
            };
            return Err(
                AegisError::Connection(
                    "data stream handshake rejected: ".to_string().concat(reason.as_str()),
                ),
            );
        }
        let topics: Vec<String> = match self.topics {
            Some(topics) => topics,
            None => Vec::new(),
        };
        assert(self.topics is None ==> crate::config::strings_view(topics@) =~= Seq::empty());
        Ok(DataStream { topics })
    }
}

/// A data stream that is being opened.
pub struct Opening {
    socket_path: String,
    component_id: String,
    session_id: String,
    phase: OpeningPhase,
}

/// What an [`Opening`] holds.
pub struct OpeningView {
    pub socket_path: Seq<char>,
    pub component_id: Seq<char>,
    pub session_id: Seq<char>,
    pub phase: OpeningPhase,
}

impl OpeningView {
    /// Whether the event can happen now.
    pub open spec fn accepts(self, event: OpeningEvent) -> bool {
        match self.phase {
            OpeningPhase::Connect => event is Connected || event is ConnectFailed,
            OpeningPhase::Greet => event is Sent || event is SendFailed,
            OpeningPhase::Wait => event is Answered || event is ReadFailed || event is TimedOut,
            OpeningPhase::Over => false,
        }
    }

    /// The same opening in another phase.
    pub open spec fn at(self, phase: OpeningPhase) -> OpeningView {
        OpeningView { phase, ..self }
    }

    /// How far the opening has come after `event`.
    pub open spec fn phase_after(event: OpeningEvent) -> OpeningPhase {
        match event {
            OpeningEvent::Connected => OpeningPhase::Greet,
            OpeningEvent::Sent => OpeningPhase::Wait,
            _ => OpeningPhase::Over,
        }
    }

    /// What is to be done after `event`.
    pub open spec fn action_after(self, event: OpeningEvent) -> OpeningActionView {
        match event {
            OpeningEvent::Connected => OpeningActionView::Greet {
                component_id: self.component_id,
                session_token: self.session_id,
            },
            OpeningEvent::Sent => OpeningActionView::Receive {
                deadline_secs: HANDSHAKE_TIMEOUT_SECS,
            },
            OpeningEvent::Answered(Ok(resp)) => OpeningActionView::Finish(resp.topics_granted()),
            OpeningEvent::ConnectFailed(m) => OpeningActionView::Finish(
                Err(
                    AegisErrorView::Connection(
                        "data stream connect "@ + self.socket_path + ": "@ + m@,
                    ),
                ),
            ),
            OpeningEvent::SendFailed(e) => OpeningActionView::Finish(Err(e.view())),
            OpeningEvent::Answered(Err(m)) => OpeningActionView::Finish(
                Err(AegisErrorView::Connection("handshake response parse: "@ + m@)),
            ),
            OpeningEvent::ReadFailed(m) => OpeningActionView::Finish(Err(AegisErrorView::Io(m@))),
            OpeningEvent::TimedOut => OpeningActionView::Finish(Err(AegisErrorView::Timeout)),
        }
    }
}

impl OpeningEvent {
    /// Whether this can answer the action.
    pub open spec fn answers(self, action: OpeningActionView) -> bool {
        match action {
            OpeningActionView::Greet { .. } => self is Sent || self is SendFailed,
            OpeningActionView::Receive { .. } => self is Answered || self is ReadFailed
                || self is TimedOut,
            OpeningActionView::Finish(_) => false,
        }
    }
}

/// The server is greeted once the socket is open, its answer is awaited once
/// the greeting is out, and everything else ends the opening: whatever is asked
/// for, exactly the answers to it are taken.
pub proof fn law_opening_answers(o: OpeningView, event: OpeningEvent, answer: OpeningEvent)
    requires
        o.accepts(event),
    ensures
        o.at(OpeningView::phase_after(event)).accepts(answer) <==> answer.answers(o.action_after(event)),
{
}

/// A data stream is open exactly where the server has answered "ok"; its topics
/// are those of the answer.
pub proof fn law_opened_only_on_ok(o: OpeningView, event: OpeningEvent)
    requires
        o.accepts(event),
    ensures
        o.action_after(event) matches OpeningActionView::Finish(Ok(topics)) ==> {
            &&& event matches OpeningEvent::Answered(Ok(resp))
            &&& resp.status@ == "ok"@
            &&& resp.topics matches Some(granted) ==> topics == crate::config::strings_view(
                granted@,
            )
            &&& resp.topics is None ==> topics.len() == 0
        },
        event matches OpeningEvent::Answered(Ok(resp)) ==> (resp.status@ == "ok"@
            ==> o.action_after(event) matches OpeningActionView::Finish(Ok(_))),
{
}

impl Opening {
    /// What the opening holds.
    pub closed spec fn view(&self) -> OpeningView {
        OpeningView {
            socket_path: self.socket_path@,
            component_id: self.component_id@,
            session_id: self.session_id@,
            phase: self.phase,
        }
    }

    /// Whether the event can happen now.
    pub fn accepts(&self, event: &OpeningEvent) -> (res: bool)
        ensures
            res == self.view().accepts(*event),
    {
        match self.phase {
            OpeningPhase::Connect => matches!(
                event,
                OpeningEvent::Connected | OpeningEvent::ConnectFailed(_)
            ),
            OpeningPhase::Greet => matches!(event, OpeningEvent::Sent | OpeningEvent::SendFailed(_)),
            OpeningPhase::Wait => matches!(
                event,
                OpeningEvent::Answered(_) | OpeningEvent::ReadFailed(_) | OpeningEvent::TimedOut
            ),
            OpeningPhase::Over => false,
        }
    }

    /// Takes note of what happened and says what is to be done next.
    pub fn step(&mut self, event: OpeningEvent) -> (res: OpeningAction)
        requires
            old(self).view().accepts(event),
        ensures
            final(self).view() == old(self).view().at(OpeningView::phase_after(event)),
            res.view() == old(self).view().action_after(event),
    {
        match event {
            OpeningEvent::Connected => {
                self.phase = OpeningPhase::Greet;
                OpeningAction::Greet(
                    Handshake::new(self.component_id.as_str(), self.session_id.as_str()),
                )
            },
            OpeningEvent::Sent => {
                self.phase = OpeningPhase::Wait;
                OpeningAction::Receive { deadline_secs: HANDSHAKE_TIMEOUT_SECS }
            },
            OpeningEvent::Answered(Ok(resp)) => {
                self.phase = OpeningPhase::Over;
                OpeningAction::Finish(resp.into_stream())
            },
            OpeningEvent::ConnectFailed(m) => {
                self.phase = OpeningPhase::Over;
                let mut text: String = "data stream connect ".to_string();
                text.append(self.socket_path.as_str());
                text.append(": ");
                text.append(m.as_str());
                OpeningAction::Finish(Err(AegisError::Connection(text)))
            },
            OpeningEvent::SendFailed(e) => {
                self.phase = OpeningPhase::Over;
                OpeningAction::Finish(Err(e))
            },
            OpeningEvent::Answered(Err(m)) => {
                self.phase = OpeningPhase::Over;
                let text: String = "handshake response parse: ".to_string().concat(m.as_str());
                OpeningAction::Finish(Err(AegisError::Connection(text)))
            },
            OpeningEvent::ReadFailed(m) => {
                self.phase = OpeningPhase::Over;
                OpeningAction::Finish(Err(AegisError::Io(m)))
            },
            OpeningEvent::TimedOut => {
                self.phase = OpeningPhase::Over;
                OpeningAction::Finish(Err(AegisError::Timeout))
            },
        }
    }
}

/// An open data stream.
///
/// The data stream and the control channel are two independent sockets.
/// Closing one does not affect the other.
#[derive(Debug)]
pub struct DataStream {
    /// Topics this stream is subscribed to (from the handshake response).
    pub topics: Vec<String>,
}

impl DataStream {
    /// Starts to connect to the data stream socket and to complete the handshake.
    ///
    /// - `socket_path`: from the CONFIGURE payload (`data_stream_socket`).
    /// - `component_id`: from `on_running`'s first argument.
    /// - `session_id`: from `on_running`'s second argument.
    pub fn connect(socket_path: &str, component_id: &str, session_id: &str) -> (res: Opening)
        ensures
            res.view() == (OpeningView {
                socket_path: socket_path@,
                component_id: component_id@,
                session_id: session_id@,
                phase: OpeningPhase::Connect,
            }),
    {
        Opening {
            socket_path: socket_path.to_string(),
            component_id: component_id.to_string(),
            session_id: session_id.to_string(),
            phase: OpeningPhase::Connect,
        }
    }

    /// The frame that a read brought, or the error that the read came to. A
    /// frame without a topic is refused.
    pub open spec fn frame(read: LineRead<RawEnvelope>) -> Result<RawEnvelope, AegisErrorView> {
        match read.outcome("data stream closed by server"@) {
            Ok(env) => if env.topic@.len() == 0 {
                Err(AegisErrorView::Connection("received empty topic in frame"@))
            } else {
                Ok(env)
            },
            Err(e) => Err(e),
        }
    }

    /// Whether `msg` carries the frame `env`.
    pub open spec fn carries(msg: StreamMessage, env: RawEnvelope) -> bool {
        &&& msg.session_id == env.session_id
        &&& msg.topic == env.topic
        &&& msg.ts == env.ts
        &&& msg.data == env.data
    }

    /// Whether `res` is what a read of the next message comes to.
    pub open spec fn next_is(
        read: LineRead<RawEnvelope>,
        res: Result<StreamMessage, AegisError>,
    ) -> bool {
        match (res, DataStream::frame(read)) {
            (Ok(msg), Ok(env)) => DataStream::carries(msg, env),
            (Err(e), Err(f)) => e.view() == f,
            _ => false,
        }
    }

    /// The next raw message from the stream, from what the read brought.
    ///
    /// Returns `Err` at the end of the stream and on any I/O error: the caller
    /// should reconnect.
    pub fn next(&self, read: LineRead<RawEnvelope>) -> (res: Result<StreamMessage, AegisError>)
        ensures
            DataStream::next_is(read, res),
            match read {
                LineRead::Failed(m) => res matches Err(AegisError::Io(t)) && t@ == m@,
                LineRead::Line { bytes, parsed } => {
                    &&& bytes == 0 ==> {
                        &&& res matches Err(AegisError::Connection(t))
                        &&& t@ == "data stream closed by server"@
                    }
                    &&& bytes > 0 && parsed is Err ==> {
                        &&& res matches Err(AegisError::Json(t))
                        &&& t@ == parsed->Err_0@
                    }
                    &&& bytes > 0 && parsed is Ok && parsed->Ok_0.topic@.len() == 0 ==> {
                        &&& res matches Err(AegisError::Connection(t))
                        &&& t@ == "received empty topic in frame"@
                    }
                    &&& bytes > 0 && parsed is Ok && parsed->Ok_0.topic@.len() > 0 ==> {
                        &&& res matches Ok(msg)
                        &&& msg.session_id == parsed->Ok_0.session_id
                        &&& msg.topic == parsed->Ok_0.topic
                        &&& msg.ts == parsed->Ok_0.ts
                        &&& msg.data == parsed->Ok_0.data
                    }
                },
            },
    {
        match read.into_result("data stream closed by server") {
            Ok(env) => {
                if env.topic.as_str().is_empty() {
                    return Err(
                        AegisError::Connection("received empty topic in frame".to_string()),
                    );
                }
                Ok(
                    StreamMessage {
                        session_id: env.session_id,
                        topic: env.topic,
                        ts: env.ts,
                        data: env.data,
                    },
                )
            },
            Err(e) => Err(e),
        }
    }

    /// The next message with its payload decoded, from what the read brought.
    ///
    /// Equivalent to [`DataStream::next`] followed by [`StreamMessage::parse`].
    pub fn next_parsed<N, A, T, K, O, B, M>(
        &self,
        read: LineRead<RawEnvelope>,
        decoders: Decoders<A, T, K, O, B, M>,
    ) -> (res: Result<(StreamMessage, MarketData<N>), AegisError>) where
        A: FnOnce(serde_json::Value) -> Result<AggTrade<N>, String>,
        T: FnOnce(serde_json::Value) -> Result<Trade<N>, String>,
        K: FnOnce(serde_json::Value) -> Result<Kline<N>, String>,
        O: FnOnce(serde_json::Value) -> Result<OrderBook<N>, String>,
        B: FnOnce(serde_json::Value) -> Result<BookDepth<N>, String>,
        M: FnOnce(serde_json::Value) -> Result<Metrics<N>, String>,

        requires
            DataStream::frame(read) matches Ok(env) ==> (TopicPartsView::of(
                env.topic@,
            ) matches Some(parts) ==> decoders.take(
                PayloadKind::spec_of(parts.data_type),
                env.data,
            )),
        ensures
            match DataStream::frame(read) {
                Ok(env) => match res {
                    Ok((msg, data)) => DataStream::carries(msg, env) && msg.parsed(
                        decoders,
                        Ok(data),
                    ),
                    Err(e) => exists|msg: StreamMessage|
                        DataStream::carries(msg, env) && #[trigger] msg.parsed(decoders, Err(e)),
                },
                Err(f) => match res {
                    Ok(_) => false,
                    Err(e) => e.view() == f,
                },
            },
            match read {
                LineRead::Failed(m) => res matches Err(AegisError::Io(t)) && t@ == m@,
                LineRead::Line { bytes, parsed } => {
                    &&& bytes == 0 ==> {
                        &&& res matches Err(AegisError::Connection(t))
                        &&& t@ == "data stream closed by server"@
                    }
                    &&& bytes > 0 && parsed is Err ==> {
                        &&& res matches Err(AegisError::Json(t))
                        &&& t@ == parsed->Err_0@
                    }
                    &&& bytes > 0 && parsed is Ok && parsed->Ok_0.topic@.len() == 0 ==> {
                        &&& res matches Err(AegisError::Connection(t))
                        &&& t@ == "received empty topic in frame"@
                    }
                },
            },
            res matches Ok((msg, _)) ==> {
                &&& read matches LineRead::Line { parsed: Ok(env), .. }
                &&& msg.session_id == env.session_id
                &&& msg.topic == env.topic
                &&& msg.ts == env.ts
                &&& msg.data == env.data
            },
    {
        match self.next(read) {
            Ok(msg) => match msg.parse(decoders) {
                Ok(data) => Ok((msg, data)),
                Err(e) => Err(e),
            },
            Err(e) => Err(e),
        }
    }
}

/// A read that brings a frame with a topic gives a message with the frame's
/// session, topic, time stamp and payload, each as it came. Every other read
/// gives an error.
pub proof fn law_frames_carried(read: LineRead<RawEnvelope>, res: Result<StreamMessage, AegisError>)
    requires
        DataStream::next_is(read, res),
    ensures
        res is Ok <==> {
            &&& read matches LineRead::Line { bytes, parsed: Ok(env) }
            &&& bytes > 0
            &&& env.topic@.len() > 0
        },
        res matches Ok(msg) ==> {
            &&& read matches LineRead::Line { bytes, parsed: Ok(env) }
            &&& msg.session_id == env.session_id
            &&& msg.topic == env.topic
            &&& msg.ts == env.ts
            &&& msg.data == env.data
        },
        res matches Err(e) ==> e.view() == match read {
            LineRead::Failed(m) => AegisErrorView::Io(m@),
            LineRead::Line { bytes, parsed } => if bytes == 0 {
                AegisErrorView::Connection("data stream closed by server"@)
            } else {
                match parsed {
                    Err(m) => AegisErrorView::Json(m@),
                    Ok(_) => AegisErrorView::Connection("received empty topic in frame"@),
                }
            },
        },
{
}

/// What a message decodes to goes by the third piece of its topic: for each
/// data type the very value that its parser made of the payload, as the variant
/// of the type, or the parser's message.
pub proof fn law_messages_decoded_as_parsed<N, A, T, K, O, B, M>(
    msg: StreamMessage,
    decoders: Decoders<A, T, K, O, B, M>,
    res: Result<MarketData<N>, AegisError>,
    session: Seq<char>,
    data_type: Seq<char>,
    symbol: Seq<char>,
    timeframe: Option<Seq<char>>,
    more: Seq<char>,
) where
    A: FnOnce(serde_json::Value) -> Result<AggTrade<N>, String>,
    T: FnOnce(serde_json::Value) -> Result<Trade<N>, String>,
    K: FnOnce(serde_json::Value) -> Result<Kline<N>, String>,
    O: FnOnce(serde_json::Value) -> Result<OrderBook<N>, String>,
    B: FnOnce(serde_json::Value) -> Result<BookDepth<N>, String>,
    M: FnOnce(serde_json::Value) -> Result<Metrics<N>, String>,

    requires
        msg.parsed(decoders, res),
        !session.contains('.'),
        !data_type.contains('.'),
        !symbol.contains('.'),
        timeframe matches Some(tf) ==> !tf.contains('.'),
        timeframe is None ==> more.len() == 0,
        more.len() > 0 ==> more[0] == '.',
        ({
            let flat = "aegis."@ + session + "."@ + data_type + "."@ + symbol;
            msg.topic@ == match timeframe {
                Some(tf) => flat + "."@ + tf + more,
                None => flat,
            }
        }),
    ensures
        data_type == "aggTrades"@ ==> match res {
            Ok(data) => exists|v: AggTrade<N>| #[trigger]
                decoders.agg_trade.ensures((msg.data,), Ok(v)) && data == MarketData::AggTrade(v),
            Err(e) => exists|m: String| #[trigger]
                decoders.agg_trade.ensures((msg.data,), Err(m)) && e == AegisError::Json(m),
        },
        data_type == "trades"@ ==> match res {
            Ok(data) => exists|v: Trade<N>| #[trigger]
                decoders.trade.ensures((msg.data,), Ok(v)) && data == MarketData::Trade(v),
            Err(e) => exists|m: String| #[trigger]
                decoders.trade.ensures((msg.data,), Err(m)) && e == AegisError::Json(m),
        },
        data_type == "klines"@ ==> match res {
            Ok(data) => exists|v: Kline<N>| #[trigger]
                decoders.kline.ensures((msg.data,), Ok(v)) && data == MarketData::Kline(v),
            Err(e) => exists|m: String| #[trigger]
                decoders.kline.ensures((msg.data,), Err(m)) && e == AegisError::Json(m),
        },
        data_type == "orderBook"@ ==> match res {
            Ok(data) => exists|v: OrderBook<N>| #[trigger]
                decoders.order_book.ensures((msg.data,), Ok(v)) && data == MarketData::OrderBook(v),
            Err(e) => exists|m: String| #[trigger]
                decoders.order_book.ensures((msg.data,), Err(m)) && e == AegisError::Json(m),
        },
        data_type == "bookDepth"@ ==> match res {
            Ok(data) => exists|v: BookDepth<N>| #[trigger]
                decoders.book_depth.ensures((msg.data,), Ok(v)) && data == MarketData::BookDepth(v),
            Err(e) => exists|m: String| #[trigger]
                decoders.book_depth.ensures((msg.data,), Err(m)) && e == AegisError::Json(m),
        },
        data_type == "metrics"@ ==> match res {
            Ok(data) => exists|v: Metrics<N>| #[trigger]
                decoders.metrics.ensures((msg.data,), Ok(v)) && data == MarketData::Metrics(v),
            Err(e) => exists|m: String| #[trigger]
                decoders.metrics.ensures((msg.data,), Err(m)) && e == AegisError::Json(m),
        },
        data_type != "aggTrades"@ && data_type != "trades"@ && data_type != "klines"@ && data_type
            != "orderBook"@ && data_type != "bookDepth"@ && data_type != "metrics"@ ==> {
            &&& res matches Ok(MarketData::Unknown { data_type: t, payload: p })
            &&& t@ == data_type
            &&& p == msg.data
        },
{
    crate::topic::law_topic_read(session, data_type, symbol, timeframe, more);
    crate::market_data::law_decoded_as_parsed(decoders, data_type, msg.data, res);
}

/// A message whose topic is malformed decodes to an error that names the topic:
/// one that does not begin with `aegis.`, or has fewer than three dots.
pub proof fn law_malformed_topics_named<N, A, T, K, O, B, M>(
    msg: StreamMessage,
    decoders: Decoders<A, T, K, O, B, M>,
    res: Result<MarketData<N>, AegisError>,
) where
    A: FnOnce(serde_json::Value) -> Result<AggTrade<N>, String>,
    T: FnOnce(serde_json::Value) -> Result<Trade<N>, String>,
    K: FnOnce(serde_json::Value) -> Result<Kline<N>, String>,
    O: FnOnce(serde_json::Value) -> Result<OrderBook<N>, String>,
    B: FnOnce(serde_json::Value) -> Result<BookDepth<N>, String>,
    M: FnOnce(serde_json::Value) -> Result<Metrics<N>, String>,

    requires
        msg.parsed(decoders, res),
        forall|session: Seq<char>, data_type: Seq<char>, symbol: Seq<char>, more: Seq<char>|
            msg.topic@ != #[trigger] ("aegis."@ + session + "."@ + data_type + "."@ + symbol
                + more),
    ensures
        res matches Err(AegisError::Connection(t)) && t@ == "unparseable topic: "@ + msg.topic@,
{
    crate::topic::law_topic_made_of_parts(msg.topic@);
    if let Some(parts) = TopicPartsView::of(msg.topic@) {
        let flat = "aegis."@ + parts.session_id + "."@ + parts.data_type + "."@ + parts.symbol;
        let tail = msg.topic@.skip(flat.len() as int);
        assert(msg.topic@ =~= flat + tail);
    }
}

/// What can happen while a data stream is being opened, and how far that brings
/// it: the socket opens, the greeting goes out, the answer comes; anything else
/// ends it, and then nothing more happens.
pub proof fn law_opening_in_order(o: OpeningView, event: OpeningEvent)
    ensures
        o.accepts(event) <==> match event {
            OpeningEvent::Connected | OpeningEvent::ConnectFailed(_) => o.phase is Connect,
            OpeningEvent::Sent | OpeningEvent::SendFailed(_) => o.phase is Greet,
            OpeningEvent::Answered(_)
            | OpeningEvent::ReadFailed(_)
            | OpeningEvent::TimedOut => o.phase is Wait,
        },
        OpeningView::phase_after(event) == match event {
            OpeningEvent::Connected => OpeningPhase::Greet,
            OpeningEvent::Sent => OpeningPhase::Wait,
            _ => OpeningPhase::Over,
        },
        ({
            let n = o.at(OpeningView::phase_after(event));
            &&& n.phase == OpeningView::phase_after(event)
            &&& n.socket_path == o.socket_path
            &&& n.component_id == o.component_id
            &&& n.session_id == o.session_id
        }),
{
}

/// What is done while a data stream is being opened. The greeting names the
/// component, and the session as its token; the answer is awaited for three
/// seconds; an answer "ok" opens the stream on the topics that it lists, in
/// order; every other answer and every failure is told as what it is.
pub proof fn law_opening_steps(o: OpeningView, event: OpeningEvent)
    ensures
        match event {
            OpeningEvent::Connected => o.action_after(event) == (OpeningActionView::Greet {
                component_id: o.component_id,
                session_token: o.session_id,
            }),
            OpeningEvent::Sent => o.action_after(event) == (OpeningActionView::Receive {
                deadline_secs: 3,
            }),
            OpeningEvent::ConnectFailed(m) => o.action_after(event) == OpeningActionView::Finish(
                Err(
                    AegisErrorView::Connection(
                        "data stream connect "@ + o.socket_path + ": "@ + m@,
                    ),
                ),
            ),
            OpeningEvent::SendFailed(e) => o.action_after(event) == OpeningActionView::Finish(
                Err(e.view()),
            ),
            OpeningEvent::ReadFailed(m) => o.action_after(event) == OpeningActionView::Finish(
                Err(AegisErrorView::Io(m@)),
            ),
            OpeningEvent::TimedOut => o.action_after(event) == OpeningActionView::Finish(
                Err(AegisErrorView::Timeout),
            ),
            OpeningEvent::Answered(Err(m)) => o.action_after(event) == OpeningActionView::Finish(
                Err(AegisErrorView::Connection("handshake response parse: "@ + m@)),
            ),
            OpeningEvent::Answered(Ok(resp)) => {
                &&& resp.status@ == "ok"@ ==> {
                    &&& o.action_after(event) matches OpeningActionView::Finish(Ok(topics))
                    &&& resp.topics is None ==> topics.len() == 0
                    &&& resp.topics matches Some(granted) ==> {
                        &&& topics.len() == granted@.len()
                        &&& forall|i: int|
                            0 <= i < granted@.len() ==> #[trigger] topics[i] == granted@[i]@
                    }
                }
                &&& resp.status@ != "ok"@ ==> o.action_after(event) == OpeningActionView::Finish(
                    Err(
                        AegisErrorView::Connection(
                            "data stream handshake rejected: "@ + match resp.message {
                                Some(m) => m@,
                                None => "no message"@,
                            },
                        ),
                    ),
                )
            },
        },
{
}

/// The view of an opening's action tells what is to be done; an open stream is
/// shown by its topics, in order.
pub proof fn law_opening_actions_shown(action: OpeningAction)
    ensures
        match action {
            OpeningAction::Greet(h) => action.view() == (OpeningActionView::Greet {
                component_id: h.component_id@,
                session_token: h.session_token@,
            }),
            OpeningAction::Receive { deadline_secs } => action.view()
                == (OpeningActionView::Receive { deadline_secs }),
            OpeningAction::Finish(Ok(stream)) => {
                &&& action.view() matches OpeningActionView::Finish(Ok(topics))
                &&& topics.len() == stream.topics@.len()
                &&& forall|i: int|
                    0 <= i < stream.topics@.len() ==> #[trigger] topics[i] == stream.topics@[i]@
            },
            OpeningAction::Finish(Err(e)) => action.view() == OpeningActionView::Finish(
                Err(e.view()),
            ),
        },
{
}

/// A data stream is opened at the given path, for the given component and
/// session; each argument goes to its own place.
pub proof fn law_opening_arguments(
    socket_path: &str,
    component_id: &str,
    session_id: &str,
    opening: Opening,
    greeting: Handshake,
)
    requires
        call_ensures(DataStream::connect, (socket_path, component_id, session_id), opening),
        call_ensures(Handshake::new, (component_id, session_id), greeting),
    ensures
        opening.view().socket_path == socket_path@,
        opening.view().component_id == component_id@,
        opening.view().session_id == session_id@,
        opening.view().phase is Connect,
        greeting.component_id@ == component_id@,
        greeting.session_token@ == session_id@,
{
}

/// Where a read brings a frame with a topic, the next message is that frame,
/// field by field.
pub proof fn law_next_message(
    stream: DataStream,
    bytes: usize,
    env: RawEnvelope,
    res: Result<StreamMessage, AegisError>,
)
    requires
        bytes > 0,
        env.topic@.len() > 0,
        call_ensures(
            DataStream::next,
            (&stream, LineRead::Line { bytes, parsed: Ok(env) }),
            res,
        ),
    ensures
        res matches Ok(msg) && msg.session_id == env.session_id && msg.topic == env.topic && msg.ts
            == env.ts && msg.data == env.data,
{
}

} // verus!
