use vstd::prelude::*;

verus! {

/// Options for the WebSocket hook: how often and how fast a dropped
/// connection is retried, whether the connection is opened right away,
/// and which sub-protocols are asked for.
///
/// The callbacks that the hook calls on socket events are not part of
/// this type: they are held by the code that drives the connection, which
/// performs the `Notify*` commands that the connection hands back.
pub struct UseWebSocketOptions {
    /// Retry times.
    pub reconnect_limit: Option<u64>,
    /// Retry interval(ms).
    pub reconnect_interval: Option<u64>,
    /// Manually starts connection
    pub manual: bool,
    /// Sub protocols
    pub protocols: Option<Vec<String>>,
}

/// The sub-protocol list as a sequence of strings.
pub open spec fn protocols_view(protocols: Option<Vec<String>>) -> Option<Seq<Seq<char>>> {
    match protocols {
        Some(list) => Some(list@.map_values(|p: String| p@)),
        None => None,
    }
}

/// The retry count that is used when none is given.
pub const DEFAULT_RECONNECT_LIMIT: u64 = 3;

/// The retry interval, in milliseconds, that is used when none is given.
pub const DEFAULT_RECONNECT_INTERVAL: u64 = 3000;

impl Default for UseWebSocketOptions {
    fn default() -> (options: Self)
        ensures
            options.reconnect_limit == Some(DEFAULT_RECONNECT_LIMIT),
            options.reconnect_interval == Some(DEFAULT_RECONNECT_INTERVAL),
            !options.manual,
            options.protocols.is_none(),
    {
        UseWebSocketOptions {
            reconnect_limit: Some(DEFAULT_RECONNECT_LIMIT),
            reconnect_interval: Some(DEFAULT_RECONNECT_INTERVAL),
            manual: false,
            protocols: None,
        }
    }
}

impl UseWebSocketOptions {
    /// Sets the retry count; `None` stands for the default.
    pub fn reconnect_limit(self, value: Option<u64>) -> (options: Self)
        ensures
            options.reconnect_limit == value,
            options.reconnect_interval == self.reconnect_interval,
            options.manual == self.manual,
            options.protocols == self.protocols,
    {
        UseWebSocketOptions { reconnect_limit: value, ..self }
    }

    /// Sets the retry interval in milliseconds; `None` stands for the default.
    pub fn reconnect_interval(self, value: Option<u64>) -> (options: Self)
        ensures
            options.reconnect_limit == self.reconnect_limit,
            options.reconnect_interval == value,
            options.manual == self.manual,
            options.protocols == self.protocols,
    {
        UseWebSocketOptions { reconnect_interval: value, ..self }
    }

    /// Sets whether the connection waits for an explicit `open`.
    pub fn manual(self, value: bool) -> (options: Self)
        ensures
            options.reconnect_limit == self.reconnect_limit,
            options.reconnect_interval == self.reconnect_interval,
            options.manual == value,
            options.protocols == self.protocols,
    {
        UseWebSocketOptions { manual: value, ..self }
    }

    /// Sets the sub-protocols asked for when connecting.
    pub fn protocols(self, value: Option<Vec<String>>) -> (options: Self)
        ensures
            options.reconnect_limit == self.reconnect_limit,
            options.reconnect_interval == self.reconnect_interval,
            options.manual == self.manual,
            options.protocols == value,
    {
        UseWebSocketOptions { protocols: value, ..self }
    }
}

} // verus!
