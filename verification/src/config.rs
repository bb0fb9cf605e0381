//! Settings of a component.

use vstd::prelude::*;

verus! {

/// Settings of a component. Durations are in nanoseconds.
#[derive(Debug, Clone)]
pub struct Config {
    /// Path of the daemon's control socket.
    pub socket_path: String,
    /// Session to join. Where it is empty, the environment names the session.
    pub session_token: String,
    pub component_name: String,
    pub version: String,
    pub supported_symbols: Vec<String>,
    pub supported_timeframes: Vec<String>,
    pub supported_orderbook_speeds: Vec<String>,
    pub requires_streams: Vec<String>,
    /// Whether a lost connection is opened again.
    pub reconnect: bool,
    /// How many lost connections are too many; zero sets no limit.
    pub max_reconnect_attempts: u32,
    /// Wait before the first reconnect.
    pub reconnect_delay: u128,
    /// Upper bound of every later wait.
    pub max_reconnect_delay: u128,
    /// How long the daemon may stay silent; zero turns the watchdog off.
    pub ping_timeout: u128,
}

/// What a [`Config`] holds.
#[verifier::ext_equal]
pub struct ConfigView {
    pub socket_path: Seq<char>,
    pub session_token: Seq<char>,
    pub component_name: Seq<char>,
    pub version: Seq<char>,
    pub supported_symbols: Seq<Seq<char>>,
    pub supported_timeframes: Seq<Seq<char>>,
    pub supported_orderbook_speeds: Seq<Seq<char>>,
    pub requires_streams: Seq<Seq<char>>,
    pub reconnect: bool,
    pub max_reconnect_attempts: u32,
    pub reconnect_delay: u128,
    pub max_reconnect_delay: u128,
    pub ping_timeout: u128,
}

/// The characters of each string, in order.
pub open spec fn strings_view(v: Seq<String>) -> Seq<Seq<char>> {
    v.map_values(|s: String| s@)
}

impl Config {
    /// What the settings hold.
    pub open spec fn view(&self) -> ConfigView {
        ConfigView {
            socket_path: self.socket_path@,
            session_token: self.session_token@,
            component_name: self.component_name@,
            version: self.version@,
            supported_symbols: strings_view(self.supported_symbols@),
            supported_timeframes: strings_view(self.supported_timeframes@),
            supported_orderbook_speeds: strings_view(self.supported_orderbook_speeds@),
            requires_streams: strings_view(self.requires_streams@),
            reconnect: self.reconnect,
            max_reconnect_attempts: self.max_reconnect_attempts,
            reconnect_delay: self.reconnect_delay,
            max_reconnect_delay: self.max_reconnect_delay,
            ping_timeout: self.ping_timeout,
        }
    }
}

/// The view shows every setting under its own name: texts by their characters,
/// lists item by item in order, and the rest as it is.
pub proof fn law_settings_shown(c: Config)
    ensures
        c.view().socket_path == c.socket_path@,
        c.view().session_token == c.session_token@,
        c.view().component_name == c.component_name@,
        c.view().version == c.version@,
        c.view().supported_symbols.len() == c.supported_symbols@.len(),
        forall|i: int|
            0 <= i < c.supported_symbols@.len() ==> #[trigger] c.view().supported_symbols[i]
                == c.supported_symbols@[i]@,
        c.view().supported_timeframes.len() == c.supported_timeframes@.len(),
        forall|i: int|
            0 <= i < c.supported_timeframes@.len() ==> #[trigger] c.view().supported_timeframes[i]
                == c.supported_timeframes@[i]@,
        c.view().supported_orderbook_speeds.len() == c.supported_orderbook_speeds@.len(),
        forall|i: int|
            0 <= i < c.supported_orderbook_speeds@.len() ==> #[trigger] c.view().supported_orderbook_speeds[i]
                == c.supported_orderbook_speeds@[i]@,
        c.view().requires_streams.len() == c.requires_streams@.len(),
        forall|i: int|
            0 <= i < c.requires_streams@.len() ==> #[trigger] c.view().requires_streams[i]
                == c.requires_streams@[i]@,
        c.view().reconnect == c.reconnect,
        c.view().max_reconnect_attempts == c.max_reconnect_attempts,
        c.view().reconnect_delay == c.reconnect_delay,
        c.view().max_reconnect_delay == c.max_reconnect_delay,
        c.view().ping_timeout == c.ping_timeout,
{
}

/// The texts of a list of strings are the texts of its items, in order.
pub proof fn law_strings_shown(v: Seq<String>)
    ensures
        strings_view(v).len() == v.len(),
        forall|i: int| 0 <= i < v.len() ==> #[trigger] strings_view(v)[i] == v[i]@,
{
}

} // verus!
