use vstd::prelude::*;

verus! {

/// Interval, in milliseconds, at which a websocket service sends keep-alives.
pub const WS_KEEP_ALIVE_INTERVAL_MS: u64 = 5000;

/// Time, in milliseconds, without incoming traffic after which a websocket
/// service counts as lost.
pub const WS_MAX_IDLE_TIME_MS: u64 = 15000;

/// Settings of a websocket service on one endpoint. Times are in milliseconds.
#[derive(Clone, Debug)]
pub struct WebSocketConfig {
    /// Path and query of the endpoint.
    pub endpoint: String,
    /// Time that establishing the websocket may take.
    pub max_connection_time: u64,
    pub keep_alive_interval: u64,
    pub max_idle_time: u64,
}

/// The settings for `websocket_endpoint`: the connect timeout bounds the
/// time to establish the websocket, and the keep-alive interval and idle
/// time are the fixed ones.
pub fn make_ws_config(websocket_endpoint: String, connect_timeout: u64) -> (config: WebSocketConfig)
    ensures
        config.endpoint == websocket_endpoint,
        config.max_connection_time == connect_timeout,
        config.keep_alive_interval == WS_KEEP_ALIVE_INTERVAL_MS,
        config.max_idle_time == WS_MAX_IDLE_TIME_MS,
        config.keep_alive_interval < config.max_idle_time,
{
    WebSocketConfig {
        endpoint: websocket_endpoint,
        max_connection_time: connect_timeout,
        keep_alive_interval: WS_KEEP_ALIVE_INTERVAL_MS,
        max_idle_time: WS_MAX_IDLE_TIME_MS,
    }
}

} // verus!
