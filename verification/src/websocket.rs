use vstd::prelude::*;

use crate::options::{
    protocols_view, UseWebSocketOptions, DEFAULT_RECONNECT_INTERVAL, DEFAULT_RECONNECT_LIMIT,
};
use crate::ready_state::UseWebSocketReadyState;

verus! {

/// How a socket hands over the binary messages it receives.
#[derive(Debug, PartialEq, Eq, Clone, Copy, Structural)]
pub enum BinaryMessages {
    /// As `Blob` objects (the browser's default).
    Blob,
    /// As `ArrayBuffer` objects, whose bytes can be read at once.
    ArrayBuffer,
}

/// What the connection asks its driver to do, in order, after a call.
#[derive(Debug, PartialEq, Eq)]
pub enum WsCommand {
    /// Close the current socket; its own close event may still arrive.
    CloseSocket,
    /// Create a socket to `url` (asking for `protocols` when they are
    /// given), set it to hand over binary messages as `binary_type`, attach
    /// the event handlers and make it the current socket; then report the
    /// outcome with `socket_created` or `socket_create_failed`.
    Connect { url: String, protocols: Option<Vec<String>>, binary_type: BinaryMessages },
    /// Start a timer of `delay_ms` milliseconds that calls
    /// `reconnect_timer_fired(generation)` when it runs out. A timer whose
    /// retry was called off in the meantime does nothing when it runs out.
    ScheduleReconnect { delay_ms: u64, generation: u64 },
    /// Send `text` as a text frame on the current socket.
    SendText { text: String },
    /// Send `data` as a binary frame on the current socket.
    SendBytes { data: Vec<u8> },
    /// Call the user's open callback with the event.
    NotifyOpen,
    /// Call the user's text message callback with `text`.
    NotifyMessage { text: String },
    /// Call the user's binary message callback with `data`.
    NotifyMessageBytes { data: Vec<u8> },
    /// Call the user's error callback with the event.
    NotifyError,
    /// Call the user's close callback with the event.
    NotifyClose,
}

/// A command with its payload taken as plain sequences.
pub enum WsCommandView {
    CloseSocket,
    Connect { url: Seq<char>, protocols: Option<Seq<Seq<char>>>, binary_type: BinaryMessages },
    ScheduleReconnect { delay_ms: u64, generation: u64 },
    SendText { text: Seq<char> },
    SendBytes { data: Seq<u8> },
    NotifyOpen,
    NotifyMessage { text: Seq<char> },
    NotifyMessageBytes { data: Seq<u8> },
    NotifyError,
    NotifyClose,
}

impl View for WsCommand {
    type V = WsCommandView;

    open spec fn view(&self) -> WsCommandView {
        match self {
            WsCommand::CloseSocket => WsCommandView::CloseSocket,
            WsCommand::Connect { url, protocols, binary_type } => WsCommandView::Connect {
                url: url@,
                protocols: protocols_view(*protocols),
                binary_type: *binary_type,
            },
            WsCommand::ScheduleReconnect {
                delay_ms,
                generation,
            } => WsCommandView::ScheduleReconnect { delay_ms: *delay_ms, generation: *generation },
            WsCommand::SendText { text } => WsCommandView::SendText { text: text@ },
            WsCommand::SendBytes { data } => WsCommandView::SendBytes { data: data@ },
            WsCommand::NotifyOpen => WsCommandView::NotifyOpen,
            WsCommand::NotifyMessage { text } => WsCommandView::NotifyMessage { text: text@ },
            WsCommand::NotifyMessageBytes { data } => WsCommandView::NotifyMessageBytes {
                data: data@,
            },
            WsCommand::NotifyError => WsCommandView::NotifyError,
            WsCommand::NotifyClose => WsCommandView::NotifyClose,
        }
    }
}

/// A list of commands as plain values.
pub open spec fn commands_view(cmds: Seq<WsCommand>) -> Seq<WsCommandView> {
    cmds.map_values(|c: WsCommand| c@)
}

pub open spec fn opt_text_view(text: Option<String>) -> Option<Seq<char>> {
    match text {
        Some(t) => Some(t@),
        None => None,
    }
}

pub open spec fn opt_bytes_view(data: Option<Vec<u8>>) -> Option<Seq<u8>> {
    match data {
        Some(d) => Some(d@),
        None => None,
    }
}

/// The state of a connection as plain values.
pub struct WsModel {
    /// The address every connection attempt goes to.
    pub url: Seq<char>,
    /// The sub-protocols asked for, if any.
    pub protocols: Option<Seq<Seq<char>>>,
    /// How many automatic retries are allowed after `open`.
    pub reconnect_limit: u64,
    /// How long, in milliseconds, a retry waits.
    pub reconnect_interval: u64,
    /// Whether the connection waits for an explicit `open`.
    pub manual: bool,
    /// Whether the connection runs where there are no sockets (server-side
    /// rendering): then every call is a no-op.
    pub server: bool,
    /// The state shown to users.
    pub ready_state: UseWebSocketReadyState,
    /// The latest text message received.
    pub message: Option<Seq<char>>,
    /// The latest binary message received.
    pub message_bytes: Option<Seq<u8>>,
    /// Whether a current socket exists.
    pub has_socket: bool,
    /// How many retries have run since the last `open`.
    pub reconnect_times: u64,
    /// Whether a retry is scheduled and not yet run or called off.
    pub retry_pending: bool,
    /// The generation of the latest scheduled retry; only a timer of this
    /// generation may run it.
    pub retry_generation: u64,
    /// While a `Connect` has not been reported on: the ready state and
    /// whether a socket existed before it, to go back to if it fails.
    pub rollback: Option<(UseWebSocketReadyState, bool)>,
    /// Whether the owner has gone away; socket events are ignored then.
    pub unmounted: bool,
}

/// The retry count that options ask for.
pub open spec fn limit_of(options: UseWebSocketOptions) -> u64 {
    match options.reconnect_limit {
        Some(limit) => limit,
        None => DEFAULT_RECONNECT_LIMIT,
    }
}

/// The retry interval that options ask for.
pub open spec fn interval_of(options: UseWebSocketOptions) -> u64 {
    match options.reconnect_interval {
        Some(interval) => interval,
        None => DEFAULT_RECONNECT_INTERVAL,
    }
}

/// The options that `UseWebSocketOptions::default` gives.
pub open spec fn default_options() -> UseWebSocketOptions {
    (UseWebSocketOptions {
        reconnect_limit: Some(DEFAULT_RECONNECT_LIMIT),
        reconnect_interval: Some(DEFAULT_RECONNECT_INTERVAL),
        manual: false,
        protocols: None,
    })
}

/// A connection that has not been opened yet: `Closed`, no socket, no
/// message, no retry.
pub open spec fn initial_model(url: Seq<char>, options: UseWebSocketOptions, server: bool) -> WsModel {
    WsModel {
        url,
        protocols: protocols_view(options.protocols),
        reconnect_limit: limit_of(options),
        reconnect_interval: interval_of(options),
        manual: options.manual,
        server,
        ready_state: UseWebSocketReadyState::Closed,
        message: None,
        message_bytes: None,
        has_socket: false,
        reconnect_times: 0,
        retry_pending: false,
        retry_generation: 0,
        rollback: None,
        unmounted: false,
    }
}

/// The generation after `g` (wrapping round at the top).
pub open spec fn next_generation(g: u64) -> u64 {
    if g == u64::MAX {
        0
    } else {
        (g + 1) as u64
    }
}

impl WsModel {
    /// The command that creates a socket: to the address, with the
    /// sub-protocols, receiving binary messages as array buffers.
    pub open spec fn connect_command(self) -> WsCommandView {
        WsCommandView::Connect {
            url: self.url,
            protocols: self.protocols,
            binary_type: BinaryMessages::ArrayBuffer,
        }
    }

    /// Replace the current socket by a new one: close the old socket, if
    /// there is one, then create the new one; the state becomes
    /// `Connecting`, and what it was is kept in case creating fails.
    pub open spec fn connect(self) -> (WsModel, Seq<WsCommandView>) {
        let close: Seq<WsCommandView> = if self.has_socket {
            seq![WsCommandView::CloseSocket]
        } else {
            seq![]
        };
        (
            WsModel {
                ready_state: UseWebSocketReadyState::Connecting,
                has_socket: true,
                rollback: Some((self.ready_state, self.has_socket)),
                ..self
            },
            close.push(self.connect_command()),
        )
    }

    /// `open`: a pending retry is called off, the retry count starts over,
    /// then a new socket is connected.
    pub open spec fn open(self) -> (WsModel, Seq<WsCommandView>) {
        if self.server {
            (self, seq![])
        } else {
            WsModel { reconnect_times: 0, retry_pending: false, ..self }.connect()
        }
    }

    /// `close`: a pending retry is called off, the retry count is used up,
    /// and the current socket, if any, is closed.
    pub open spec fn close(self) -> (WsModel, Seq<WsCommandView>) {
        if self.server {
            (self, seq![])
        } else {
            (
                WsModel {
                    reconnect_times: self.reconnect_limit,
                    retry_pending: false,
                    rollback: None,
                    ..self
                },
                if self.has_socket {
                    seq![WsCommandView::CloseSocket]
                } else {
                    seq![]
                },
            )
        }
    }

    /// Whether sending goes through: only while the state is `Open` and a
    /// socket exists.
    pub open spec fn can_send(self) -> bool {
        !self.server && self.ready_state == UseWebSocketReadyState::Open && self.has_socket
    }

    /// `send`: a text frame when sending goes through, else nothing.
    pub open spec fn send(self, data: Seq<char>) -> Seq<WsCommandView> {
        if self.can_send() {
            seq![WsCommandView::SendText { text: data }]
        } else {
            seq![]
        }
    }

    /// `send_bytes`: a binary frame when sending goes through, else nothing.
    pub open spec fn send_bytes(self, data: Seq<u8>) -> Seq<WsCommandView> {
        if self.can_send() {
            seq![WsCommandView::SendBytes { data }]
        } else {
            seq![]
        }
    }

    /// Whether a dropped connection gets a retry: retries are left, none is
    /// pending, and the current socket exists and is not open
    /// (`socket_open` is whether the current socket reports itself open).
    pub open spec fn should_reconnect(self, socket_open: bool) -> bool {
        &&& self.reconnect_times < self.reconnect_limit
        &&& !self.retry_pending
        &&& self.has_socket
        &&& !socket_open
    }

    /// The retry that an error or a close schedules, if any.
    pub open spec fn reconnect(self, socket_open: bool) -> (WsModel, Seq<WsCommandView>) {
        if self.should_reconnect(socket_open) {
            let generation = next_generation(self.retry_generation);
            (
                WsModel { retry_pending: true, retry_generation: generation, ..self },
                seq![
                    WsCommandView::ScheduleReconnect {
                        delay_ms: self.reconnect_interval,
                        generation,
                    },
                ],
            )
        } else {
            (self, seq![])
        }
    }

    /// Whether socket events are ignored.
    pub open spec fn ignores_sockets(self) -> bool {
        self.server || self.unmounted
    }

    /// A socket reports that it is open.
    pub open spec fn socket_opened(self) -> (WsModel, Seq<WsCommandView>) {
        if self.ignores_sockets() {
            (self, seq![])
        } else {
            (
                WsModel { ready_state: UseWebSocketReadyState::Open, ..self },
                seq![WsCommandView::NotifyOpen],
            )
        }
    }

    /// A socket delivers a text message.
    pub open spec fn text_received(self, text: Seq<char>) -> (WsModel, Seq<WsCommandView>) {
        if self.ignores_sockets() {
            (self, seq![])
        } else {
            (WsModel { message: Some(text), ..self }, seq![WsCommandView::NotifyMessage { text }])
        }
    }

    /// A socket delivers a binary message.
    pub open spec fn bytes_received(self, data: Seq<u8>) -> (WsModel, Seq<WsCommandView>) {
        if self.ignores_sockets() {
            (self, seq![])
        } else {
            (
                WsModel { message_bytes: Some(data), ..self },
                seq![WsCommandView::NotifyMessageBytes { data }],
            )
        }
    }

    /// A socket reports an error: maybe a retry, then the callback; the
    /// state becomes `Closed`.
    pub open spec fn socket_errored(self, socket_open: bool) -> (WsModel, Seq<WsCommandView>) {
        if self.ignores_sockets() {
            (self, seq![])
        } else {
            let (next, cmds) = self.reconnect(socket_open);
            (
                WsModel { ready_state: UseWebSocketReadyState::Closed, ..next },
                cmds.push(WsCommandView::NotifyError),
            )
        }
    }

    /// A socket reports that it closed: maybe a retry, then the callback;
    /// the state becomes `Closed`.
    pub open spec fn socket_closed(self, socket_open: bool) -> (WsModel, Seq<WsCommandView>) {
        if self.ignores_sockets() {
            (self, seq![])
        } else {
            let (next, cmds) = self.reconnect(socket_open);
            (
                WsModel { ready_state: UseWebSocketReadyState::Closed, ..next },
                cmds.push(WsCommandView::NotifyClose),
            )
        }
    }

    /// Whether a timer of `generation` runs a retry: it is the pending
    /// retry and retries are left.
    pub open spec fn timer_runs_retry(self, generation: u64) -> bool {
        &&& !self.server
        &&& self.retry_pending
        &&& generation == self.retry_generation
        &&& self.reconnect_times < self.reconnect_limit
    }

    /// A retry timer runs out: if it is the pending retry, a new socket is
    /// connected and one more retry is counted; any other timer does
    /// nothing.
    pub open spec fn reconnect_timer_fired(self, generation: u64) -> (WsModel, Seq<WsCommandView>) {
        if self.timer_runs_retry(generation) {
            let (next, cmds) = WsModel { retry_pending: false, ..self }.connect();
            (WsModel { reconnect_times: (self.reconnect_times + 1) as u64, ..next }, cmds)
        } else {
            (self, seq![])
        }
    }

    /// The socket of the latest `Connect` was created.
    pub open spec fn socket_created(self) -> WsModel {
        if self.server {
            self
        } else {
            WsModel { rollback: None, ..self }
        }
    }

    /// Creating the socket of the latest `Connect` failed: the ready state
    /// and the current socket are what they were before it.
    pub open spec fn socket_create_failed(self) -> WsModel {
        if self.server {
            self
        } else {
            match self.rollback {
            Some((ready_state, has_socket)) => WsModel {
                ready_state,
                has_socket,
                rollback: None,
                ..self
            },
            None => self,
        }
        }
    }

    /// The owner goes away: socket events are ignored from now on, and the
    /// connection is closed as by `close`.
    pub open spec fn unmount(self) -> (WsModel, Seq<WsCommandView>) {
        if self.server {
            (self, seq![])
        } else {
            WsModel { unmounted: true, ..self }.close()
        }
    }

    /// The owner is mounted: the connection is opened, unless it is manual,
    /// runs on a server, or the owner has already gone away.
    pub open spec fn mount(self) -> (WsModel, Seq<WsCommandView>) {
        if self.manual || self.server || self.unmounted {
            (self, seq![])
        } else {
            self.open()
        }
    }
}

/// A WebSocket connection's decisions: which socket calls to make, which
/// callbacks to call, when to retry, and what the user sees.
pub struct WebSocketConnection {
    url: String,
    protocols: Option<Vec<String>>,
    reconnect_limit: u64,
    reconnect_interval: u64,
    manual: bool,
    server: bool,
    ready_state: UseWebSocketReadyState,
    message: Option<String>,
    message_bytes: Option<Vec<u8>>,
    has_socket: bool,
    reconnect_times: u64,
    retry_pending: bool,
    retry_generation: u64,
    rollback: Option<(UseWebSocketReadyState, bool)>,
    unmounted: bool,
}

impl View for WebSocketConnection {
    type V = WsModel;

    closed spec fn view(&self) -> WsModel {
        WsModel {
            url: self.url@,
            protocols: protocols_view(self.protocols),
            reconnect_limit: self.reconnect_limit,
            reconnect_interval: self.reconnect_interval,
            manual: self.manual,
            server: self.server,
            ready_state: self.ready_state,
            message: opt_text_view(self.message),
            message_bytes: opt_bytes_view(self.message_bytes),
            has_socket: self.has_socket,
            reconnect_times: self.reconnect_times,
            retry_pending: self.retry_pending,
            retry_generation: self.retry_generation,
            rollback: self.rollback,
            unmounted: self.unmounted,
        }
    }
}

/// A copy of a sub-protocol list.
fn copy_protocols(protocols: &Option<Vec<String>>) -> (copy: Option<Vec<String>>)
    ensures
        protocols_view(copy) == protocols_view(*protocols),
{
    match protocols {
        None => None,
        Some(list) => {
            let mut out: Vec<String> = Vec::new();
            let n = list.len();
            for i in 0..n
                invariant
                    n == list.len(),
                    out@.len() == i,
                    forall|j: int| 0 <= j < i ==> #[trigger] out@[j]@ == list@[j]@,
            {
                out.push(list[i].clone());
            }
            assert(out@.map_values(|p: String| p@) =~= list@.map_values(|p: String| p@));
            Some(out)
        },
    }
}

fn copy_bytes(data: &Vec<u8>) -> (copy: Vec<u8>)
    ensures
        copy@ == data@,
{
    let mut out: Vec<u8> = Vec::new();
    let n = data.len();
    for i in 0..n
        invariant
            n == data.len(),
            out@ =~= data@.take(i as int),
    {
        out.push(data[i]);
    }
    assert(data@.take(n as int) =~= data@);
    out
}

impl WebSocketConnection {
    /// A connection that has not been opened yet.
    fn new(url: String, options: UseWebSocketOptions, server: bool) -> (conn: Self)
        ensures
            conn@ == initial_model(url@, options, server),
    {
        let reconnect_limit = match options.reconnect_limit {
            Some(limit) => limit,
            None => DEFAULT_RECONNECT_LIMIT,
        };
        let reconnect_interval = match options.reconnect_interval {
            Some(interval) => interval,
            None => DEFAULT_RECONNECT_INTERVAL,
        };
        WebSocketConnection {
            url,
            protocols: options.protocols,
            reconnect_limit,
            reconnect_interval,
            manual: options.manual,
            server,
            ready_state: UseWebSocketReadyState::Closed,
            message: None,
            message_bytes: None,
            has_socket: false,
            reconnect_times: 0,
            retry_pending: false,
            retry_generation: 0,
            rollback: None,
            unmounted: false,
        }
    }

    fn connect(&mut self) -> (cmds: Vec<WsCommand>)
        ensures
            (final(self)@, commands_view(cmds@)) == old(self)@.connect(),
    {
        let mut cmds: Vec<WsCommand> = Vec::new();
        if self.has_socket {
            cmds.push(WsCommand::CloseSocket);
        }
        let url = self.url.clone();
        let protocols = copy_protocols(&self.protocols);
        cmds.push(WsCommand::Connect { url, protocols, binary_type: BinaryMessages::ArrayBuffer });
        self.rollback = Some((self.ready_state, self.has_socket));
        self.ready_state = UseWebSocketReadyState::Connecting;
        self.has_socket = true;
        proof {
            let (_, expected) = old(self)@.connect();
            assert(commands_view(cmds@) =~= expected);
        }
        cmds
    }

    /// Opens the connection: a pending retry is called off, the retry count
    /// starts over, the current socket (if any) is closed and a new one is
    /// created.
    pub fn open(&mut self) -> (cmds: Vec<WsCommand>)
        ensures
            (final(self)@, commands_view(cmds@)) == old(self)@.open(),
    {
        if self.server {
            return Vec::new();
        }
        self.reconnect_times = 0;
        self.retry_pending = false;
        self.connect()
    }

    /// Closes the connection: a pending retry is called off, no retry is
    /// scheduled any more until the next `open`, and the current socket
    /// (if any) is closed.
    pub fn close(&mut self) -> (cmds: Vec<WsCommand>)
        ensures
            (final(self)@, commands_view(cmds@)) == old(self)@.close(),
    {
        if self.server {
            return Vec::new();
        }
        self.reconnect_times = self.reconnect_limit;
        self.retry_pending = false;
        self.rollback = None;
        let mut cmds: Vec<WsCommand> = Vec::new();
        if self.has_socket {
            cmds.push(WsCommand::CloseSocket);
        }
        proof {
            let (_, expected) = old(self)@.close();
            assert(commands_view(cmds@) =~= expected);
        }
        cmds
    }

    /// Sends `text` data, if the connection is open.
    pub fn send(&self, data: String) -> (cmds: Vec<WsCommand>)
        ensures
            commands_view(cmds@) == self@.send(data@),
    {
        let mut cmds: Vec<WsCommand> = Vec::new();
        if !self.server && self.ready_state == UseWebSocketReadyState::Open && self.has_socket {
            cmds.push(WsCommand::SendText { text: data });
        }
        proof {
            assert(commands_view(cmds@) =~= self@.send(data@));
        }
        cmds
    }

    /// Sends binary data, if the connection is open.
    pub fn send_bytes(&self, data: Vec<u8>) -> (cmds: Vec<WsCommand>)
        ensures
            commands_view(cmds@) == self@.send_bytes(data@),
    {
        let mut cmds: Vec<WsCommand> = Vec::new();
        if !self.server && self.ready_state == UseWebSocketReadyState::Open && self.has_socket {
            cmds.push(WsCommand::SendBytes { data });
        }
        proof {
            assert(commands_view(cmds@) =~= self@.send_bytes(data@));
        }
        cmds
    }

    /// The retry that an error or a close schedules, if any.
    fn reconnect(&mut self, socket_open: bool) -> (cmds: Vec<WsCommand>)
        ensures
            (final(self)@, commands_view(cmds@)) == old(self)@.reconnect(socket_open),
    {
        let mut cmds: Vec<WsCommand> = Vec::new();
        if self.reconnect_times < self.reconnect_limit && !self.retry_pending && self.has_socket
            && !socket_open {
            let generation = if self.retry_generation == u64::MAX {
                0
            } else {
                self.retry_generation + 1
            };
            self.retry_pending = true;
            self.retry_generation = generation;
            cmds.push(WsCommand::ScheduleReconnect { delay_ms: self.reconnect_interval, generation });
        }
        proof {
            let (_, expected) = old(self)@.reconnect(socket_open);
            assert(commands_view(cmds@) =~= expected);
        }
        cmds
    }

    /// A socket reports that it is open.
    pub fn socket_opened(&mut self) -> (cmds: Vec<WsCommand>)
        ensures
            (final(self)@, commands_view(cmds@)) == old(self)@.socket_opened(),
    {
        let mut cmds: Vec<WsCommand> = Vec::new();
        if !self.server && !self.unmounted {
            cmds.push(WsCommand::NotifyOpen);
            self.ready_state = UseWebSocketReadyState::Open;
        }
        proof {
            let (_, expected) = old(self)@.socket_opened();
            assert(commands_view(cmds@) =~= expected);
        }
        cmds
    }

    /// A socket delivers a text message.
    pub fn text_received(&mut self, text: String) -> (cmds: Vec<WsCommand>)
        ensures
            (final(self)@, commands_view(cmds@)) == old(self)@.text_received(text@),
    {
        let mut cmds: Vec<WsCommand> = Vec::new();
        if !self.server && !self.unmounted {
            let copy = text.clone();
            cmds.push(WsCommand::NotifyMessage { text: copy });
            self.message = Some(text);
        }
        proof {
            let (_, expected) = old(self)@.text_received(text@);
            assert(commands_view(cmds@) =~= expected);
        }
        cmds
    }

    /// A socket delivers a binary message.
    pub fn bytes_received(&mut self, data: Vec<u8>) -> (cmds: Vec<WsCommand>)
        ensures
            (final(self)@, commands_view(cmds@)) == old(self)@.bytes_received(data@),
    {
        let mut cmds: Vec<WsCommand> = Vec::new();
        if !self.server && !self.unmounted {
            let copy = copy_bytes(&data);
            cmds.push(WsCommand::NotifyMessageBytes { data: copy });
            self.message_bytes = Some(data);
        }
        proof {
            let (_, expected) = old(self)@.bytes_received(data@);
            assert(commands_view(cmds@) =~= expected);
        }
        cmds
    }

    /// A socket reports an error; `socket_open` tells whether the current
    /// socket reports itself open.
    pub fn socket_errored(&mut self, socket_open: bool) -> (cmds: Vec<WsCommand>)
        ensures
            (final(self)@, commands_view(cmds@)) == old(self)@.socket_errored(socket_open),
    {
        if self.server || self.unmounted {
            return Vec::new();
        }
        let mut cmds = self.reconnect(socket_open);
        cmds.push(WsCommand::NotifyError);
        self.ready_state = UseWebSocketReadyState::Closed;
        proof {
            let (_, expected) = old(self)@.socket_errored(socket_open);
            assert(commands_view(cmds@) =~= expected);
        }
        cmds
    }

    /// A socket reports that it closed; `socket_open` tells whether the
    /// current socket reports itself open.
    pub fn socket_closed(&mut self, socket_open: bool) -> (cmds: Vec<WsCommand>)
        ensures
            (final(self)@, commands_view(cmds@)) == old(self)@.socket_closed(socket_open),
    {
        if self.server || self.unmounted {
            return Vec::new();
        }
        let mut cmds = self.reconnect(socket_open);
        cmds.push(WsCommand::NotifyClose);
        self.ready_state = UseWebSocketReadyState::Closed;
        proof {
            let (_, expected) = old(self)@.socket_closed(socket_open);
            assert(commands_view(cmds@) =~= expected);
        }
        cmds
    }

    /// A retry timer of `generation` runs out: if it is the pending retry,
    /// a new socket is connected and one more retry is counted; a timer of
    /// a retry that was called off does nothing.
    pub fn reconnect_timer_fired(&mut self, generation: u64) -> (cmds: Vec<WsCommand>)
        ensures
            (final(self)@, commands_view(cmds@)) == old(self)@.reconnect_timer_fired(generation),
    {
        if !(!self.server && self.retry_pending && generation == self.retry_generation
            && self.reconnect_times < self.reconnect_limit) {
            return Vec::new();
        }
        self.retry_pending = false;
        let cmds = self.connect();
        self.reconnect_times = self.reconnect_times + 1;
        cmds
    }

    /// The socket of the latest `Connect` was created.
    pub fn socket_created(&mut self)
        ensures
            final(self)@ == old(self)@.socket_created(),
    {
        if !self.server {
            self.rollback = None;
        }
    }

    /// Creating the socket of the latest `Connect` failed: the ready state
    /// and the current socket go back to what they were before it.
    pub fn socket_create_failed(&mut self)
        ensures
            final(self)@ == old(self)@.socket_create_failed(),
    {
        if self.server {
            return;
        }
        match self.rollback {
            Some((ready_state, has_socket)) => {
                self.ready_state = ready_state;
                self.has_socket = has_socket;
                self.rollback = None;
            },
            None => {},
        }
    }

    /// The owner goes away: socket events are ignored from now on, and the
    /// connection is closed.
    pub fn unmount(&mut self) -> (cmds: Vec<WsCommand>)
        ensures
            (final(self)@, commands_view(cmds@)) == old(self)@.unmount(),
    {
        if self.server {
            return Vec::new();
        }
        self.unmounted = true;
        self.close()
    }

    /// The owner is mounted: the connection is opened unless it is manual,
    /// runs on a server, or the owner has already gone away.
    pub fn mount(&mut self) -> (cmds: Vec<WsCommand>)
        ensures
            (final(self)@, commands_view(cmds@)) == old(self)@.mount(),
    {
        if self.manual || self.server || self.unmounted {
            Vec::new()
        } else {
            self.open()
        }
    }
}

impl WebSocketConnection {
    /// The current state of the connection, as shown to users.
    pub fn ready_state(&self) -> (state: UseWebSocketReadyState)
        ensures
            state == self@.ready_state,
    {
        self.ready_state
    }

    /// The latest text message received, if any.
    pub fn message(&self) -> (text: &Option<String>)
        ensures
            opt_text_view(*text) == self@.message,
    {
        &self.message
    }

    /// The latest binary message received, if any.
    pub fn message_bytes(&self) -> (data: &Option<Vec<u8>>)
        ensures
            opt_bytes_view(*data) == self@.message_bytes,
    {
        &self.message_bytes
    }

    /// Whether a current socket exists.
    pub fn has_socket(&self) -> (b: bool)
        ensures
            b == self@.has_socket,
    {
        self.has_socket
    }

    /// How many retries have run since the last `open`.
    pub fn reconnect_times(&self) -> (n: u64)
        ensures
            n == self@.reconnect_times,
    {
        self.reconnect_times
    }

    /// Whether a retry is scheduled and not yet run or called off.
    pub fn retry_pending(&self) -> (b: bool)
        ensures
            b == self@.retry_pending,
    {
        self.retry_pending
    }

    /// Whether the owner has gone away.
    pub fn is_unmounted(&self) -> (b: bool)
        ensures
            b == self@.unmounted,
    {
        self.unmounted
    }
}

/// A WebSocket connection to `url` with `options`, in the browser: it
/// begins `Closed` with no socket; `mount` opens it unless
/// `options.manual`.
pub fn use_websocket_with_options(url: String, options: UseWebSocketOptions) -> (conn:
    WebSocketConnection)
    ensures
        conn@ == initial_model(url@, options, false),
{
    WebSocketConnection::new(url, options, false)
}

/// A WebSocket connection to `url` with the default options, in the
/// browser.
pub fn use_websocket(url: String) -> (conn: WebSocketConnection)
    ensures
        conn@ == initial_model(url@, default_options(), false),
{
    use_websocket_with_options(url, UseWebSocketOptions::default())
}

/// A WebSocket connection rendered on a server, where there are no
/// sockets: it stays `Closed` and every call hands back nothing.
pub fn use_websocket_on_server(url: String, options: UseWebSocketOptions) -> (conn:
    WebSocketConnection)
    ensures
        conn@ == initial_model(url@, options, true),
{
    WebSocketConnection::new(url, options, true)
}

} // verus!
