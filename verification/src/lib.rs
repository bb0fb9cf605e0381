//! Client side of the Aegis component protocol.
//!
//! A component talks to the Aegis daemon over a control channel and takes its
//! market data from a data stream. This library decides what it says and does:
//!
//! - [`component`] is the control channel: registration, heartbeat,
//!   configuration, rebirth and shutdown, as a state machine that is driven from
//!   outside. [`component_model`] states its transitions, [`component_steps`]
//!   what each of them does and sends, and [`component_laws`] what follows from
//!   them.
//! - [`retry`] says when a lost connection is opened again.
//! - [`data_stream`] is the data stream: its handshake, its frames, and the
//!   decoding of its payloads ([`market_data`], [`topic`]).
//!
//! Sockets, clocks and the parsing of JSON texts are left to the driver.

pub mod component;
pub mod component_laws;
pub mod component_model;
pub mod component_steps;
pub mod config;
pub mod data_stream;
pub mod error;
pub mod json;
pub mod market_data;
pub mod protocol;
pub mod retry;
pub mod text;
pub mod topic;

pub use component::{Action, Component, Event};
pub use component_model::{
    ActionView, ComponentView, EventView, PhaseView, NANOS_PER_SEC, REPLY_TIMEOUT_SECS,
    WATCHDOG_PERIOD_SECS,
};
pub use config::{Config, ConfigView};
pub use data_stream::{
    DataStream, Handshake, HandshakeResponse, Opening, OpeningAction, OpeningActionView,
    OpeningEvent, OpeningPhase, OpeningView, RawEnvelope, StreamMessage, HANDSHAKE_TIMEOUT_SECS,
};
pub use error::{AegisError, AegisErrorView};
pub use json::{Json, JsonView, Payload};
pub use market_data::{
    AggTrade, BookDepth, Decoders, Kline, MarketData, Metrics, OrderBook, PayloadKind, PriceLevel,
    Trade,
};
pub use protocol::{
    frame, Command, ComponentState, Envelope, EnvelopeView, LineRead, MessageType, Outgoing,
    OutgoingView,
};
pub use retry::{Retry, RunStep, RunStepView};
pub use topic::{TopicParts, TopicPartsView};
