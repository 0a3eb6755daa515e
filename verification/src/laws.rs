use vstd::prelude::*;

use crate::ready_state::UseWebSocketReadyState;
use crate::options::UseWebSocketOptions;
use crate::websocket::{initial_model, WsCommandView, WsModel};

verus! {

/// Everything that can happen to a connection and change it.
pub enum WsEvent {
    Mount,
    Open,
    Close,
    Unmount,
    SocketOpened,
    TextReceived(Seq<char>),
    BytesReceived(Seq<u8>),
    SocketErrored(bool),
    SocketClosed(bool),
    ReconnectTimerFired(u64),
    SocketCreated,
    SocketCreateFailed,
}

/// The connection after `event`, and the commands it hands back.
pub open spec fn after(m: WsModel, event: WsEvent) -> (WsModel, Seq<WsCommandView>) {
    match event {
        WsEvent::Mount => m.mount(),
        WsEvent::Open => m.open(),
        WsEvent::Close => m.close(),
        WsEvent::Unmount => m.unmount(),
        WsEvent::SocketOpened => m.socket_opened(),
        WsEvent::TextReceived(text) => m.text_received(text),
        WsEvent::BytesReceived(data) => m.bytes_received(data),
        WsEvent::SocketErrored(socket_open) => m.socket_errored(socket_open),
        WsEvent::SocketClosed(socket_open) => m.socket_closed(socket_open),
        WsEvent::ReconnectTimerFired(generation) => m.reconnect_timer_fired(generation),
        WsEvent::SocketCreated => (m.socket_created(), seq![]),
        WsEvent::SocketCreateFailed => (m.socket_create_failed(), seq![]),
    }
}

/// Whether an event opens the connection (`open`, or the mount that opens
/// it).
pub open spec fn is_opening(event: WsEvent) -> bool {
    event is Open || event is Mount
}

/// How many `Connect` commands a command list holds.
pub open spec fn count_connects(cmds: Seq<WsCommandView>) -> nat
    decreases cmds.len(),
{
    if cmds.len() == 0 {
        0
    } else {
        count_connects(cmds.drop_last()) + if cmds.last() is Connect {
            1nat
        } else {
            0nat
        }
    }
}

/// The connection after a sequence of events, and how many sockets the
/// commands handed back on the way create.
pub open spec fn run(m: WsModel, events: Seq<WsEvent>) -> (WsModel, nat)
    decreases events.len(),
{
    if events.len() == 0 {
        (m, 0)
    } else {
        let (next, cmds) = after(m, events[0]);
        let (last, n) = run(next, events.drop_first());
        (last, n + count_connects(cmds))
    }
}

/// Whether a command list schedules a retry.
pub open spec fn schedules_retry(cmds: Seq<WsCommandView>) -> bool {
    exists|i: int| 0 <= i < cmds.len() && (#[trigger] cmds[i]) is ScheduleReconnect
}

/// How many more sockets retries may still create.
pub open spec fn retry_budget(m: WsModel) -> nat {
    if m.reconnect_times < m.reconnect_limit {
        (m.reconnect_limit - m.reconnect_times) as nat
    } else {
        0
    }
}

/// Whether no retries are left.
pub open spec fn retries_exhausted(m: WsModel) -> bool {
    m.reconnect_times >= m.reconnect_limit
}

/// What users see of a connection.
pub open spec fn observed(m: WsModel) -> (
    UseWebSocketReadyState,
    Option<Seq<char>>,
    Option<Seq<u8>>,
) {
    (m.ready_state, m.message, m.message_bytes)
}

proof fn lemma_count_push(cmds: Seq<WsCommandView>, c: WsCommandView)
    ensures
        count_connects(cmds.push(c)) == count_connects(cmds) + if c is Connect {
            1nat
        } else {
            0nat
        },
{
    assert(cmds.push(c).drop_last() =~= cmds);
}

proof fn lemma_count_small(a: WsCommandView, b: WsCommandView)
    ensures
        count_connects(Seq::<WsCommandView>::empty()) == 0,
        count_connects(seq![a]) == if a is Connect {
            1nat
        } else {
            0nat
        },
        count_connects(seq![a, b]) == count_connects(seq![a]) + if b is Connect {
            1nat
        } else {
            0nat
        },
{
    lemma_count_push(Seq::<WsCommandView>::empty(), a);
    assert(Seq::<WsCommandView>::empty().push(a) =~= seq![a]);
    lemma_count_push(seq![a], b);
    assert(seq![a].push(b) =~= seq![a, b]);
}

/// A `connect` hands back exactly one `Connect`.
proof fn lemma_connect_count(m: WsModel)
    ensures
        count_connects(m.connect().1) == 1,
{
    lemma_count_small(WsCommandView::CloseSocket, m.connect_command());
    lemma_count_push(Seq::<WsCommandView>::empty(), m.connect_command());
    lemma_count_push(seq![WsCommandView::CloseSocket], m.connect_command());
}

/// An error or a close hands back no `Connect`.
proof fn lemma_drop_count(m: WsModel, socket_open: bool)
    ensures
        count_connects(m.socket_errored(socket_open).1) == 0,
        count_connects(m.socket_closed(socket_open).1) == 0,
{
    let (_, r) = m.reconnect(socket_open);
    lemma_count_small(r[0], WsCommandView::NotifyError);
    lemma_count_push(r, WsCommandView::NotifyError);
    lemma_count_push(r, WsCommandView::NotifyClose);
    if r.len() == 0 {
        assert(r =~= Seq::<WsCommandView>::empty());
    } else {
        assert(r =~= seq![r[0]]);
    }
}

/// One event that does not open the connection creates at most as many
/// sockets as the retry budget drops.
proof fn lemma_step_within_budget(m: WsModel, event: WsEvent)
    requires
        !is_opening(event),
    ensures
        count_connects(after(m, event).1) + retry_budget(after(m, event).0) <= retry_budget(m),
{
    let e: WsCommandView = WsCommandView::CloseSocket;
    lemma_count_small(e, e);
    lemma_count_small(WsCommandView::NotifyOpen, e);
    match event {
        WsEvent::TextReceived(text) => {
            lemma_count_small(WsCommandView::NotifyMessage { text }, e);
        },
        WsEvent::BytesReceived(data) => {
            lemma_count_small(WsCommandView::NotifyMessageBytes { data }, e);
        },
        WsEvent::SocketErrored(so) => {
            lemma_drop_count(m, so);
        },
        WsEvent::SocketClosed(so) => {
            lemma_drop_count(m, so);
        },
        WsEvent::ReconnectTimerFired(g) => {
            if m.timer_runs_retry(g) {
                lemma_connect_count(WsModel { retry_pending: false, ..m });
            }
        },
        _ => {},
    }
}

proof fn lemma_run_within_budget(m: WsModel, events: Seq<WsEvent>)
    requires
        forall|i: int| 0 <= i < events.len() ==> !is_opening(#[trigger] events[i]),
    ensures
        run(m, events).1 <= retry_budget(m),
    decreases events.len(),
{
    if events.len() > 0 {
        lemma_step_within_budget(m, events[0]);
        let rest = events.drop_first();
        assert forall|i: int| 0 <= i < rest.len() implies !is_opening(#[trigger] rest[i]) by {
            assert(rest[i] == events[i + 1]);
        }
        lemma_run_within_budget(after(m, events[0]).0, rest);
    }
}

/// Between two opens, automatic retries create at most
/// `reconnect_limit` sockets: a sequence of events without `open` (or the
/// mount that opens) creates at most as many sockets as retries are left;
/// right after `open` that is `reconnect_limit`.
pub proof fn lemma_retries_bounded(m: WsModel, events: Seq<WsEvent>)
    requires
        forall|i: int| 0 <= i < events.len() ==> !is_opening(#[trigger] events[i]),
    ensures
        run(m, events).1 <= retry_budget(m),
        !m.server ==> run(m.open().0, events).1 <= m.reconnect_limit,
{
    lemma_run_within_budget(m, events);
    lemma_run_within_budget(m.open().0, events);
}

/// After `close`, and after the owner goes away, no event but `open` or
/// the mount that opens creates a socket: not even a retry that was
/// scheduled before. (After the owner goes away a mount does nothing
/// either; see `lemma_unmount_freezes_state`.)
pub proof fn lemma_close_stops_connects(m: WsModel, events: Seq<WsEvent>)
    requires
        !m.server,
        forall|i: int| 0 <= i < events.len() ==> !is_opening(#[trigger] events[i]),
    ensures
        run(m.close().0, events).1 == 0,
        run(m.unmount().0, events).1 == 0,
{
    lemma_run_within_budget(m.close().0, events);
    lemma_run_within_budget(m.unmount().0, events);
}

/// The state of an unmounted connection that nothing can reopen but `open`.
pub open spec fn settled_after_unmount(m: WsModel) -> bool {
    m.unmounted && !m.retry_pending && m.rollback is None
}

proof fn lemma_unmounted_step(m: WsModel, event: WsEvent)
    requires
        settled_after_unmount(m),
        !(event is Open),
    ensures
        settled_after_unmount(after(m, event).0),
        observed(after(m, event).0) == observed(m),
        count_connects(after(m, event).1) == 0,
{
    lemma_count_small(WsCommandView::CloseSocket, WsCommandView::CloseSocket);
}

/// After the owner goes away, no event but `open` changes what users see
/// or creates a socket (not even a mount, or a retry scheduled before): the
/// ready state and the latest messages stay as they were.
pub proof fn lemma_unmount_freezes_state(m: WsModel, events: Seq<WsEvent>)
    requires
        !m.server,
        forall|i: int| 0 <= i < events.len() ==> !(#[trigger] events[i] is Open),
    ensures
        observed(run(m.unmount().0, events).0) == observed(m.unmount().0),
        observed(m.unmount().0) == observed(m),
        run(m.unmount().0, events).1 == 0,
{
    lemma_unmount_run(m.unmount().0, events);
}

proof fn lemma_unmount_run(m: WsModel, events: Seq<WsEvent>)
    requires
        settled_after_unmount(m),
        forall|i: int| 0 <= i < events.len() ==> !(#[trigger] events[i] is Open),
    ensures
        settled_after_unmount(run(m, events).0),
        observed(run(m, events).0) == observed(m),
        run(m, events).1 == 0,
    decreases events.len(),
{
    if events.len() > 0 {
        lemma_unmounted_step(m, events[0]);
        let rest = events.drop_first();
        assert forall|i: int| 0 <= i < rest.len() implies !(#[trigger] rest[i] is Open) by {
            assert(rest[i] == events[i + 1]);
        }
        lemma_unmount_run(after(m, events[0]).0, rest);
    }
}

/// A socket that drops while retries are left and none is pending gets a
/// retry: its error (or close), while the current socket is not open,
/// shows `Closed` and schedules a retry that waits the configured interval;
/// when that retry's timer runs out, a new socket to the same address, with
/// the same sub-protocols and receiving array buffers, is created, the
/// state shows `Connecting`, and one more retry is counted. While the
/// current socket is open, no retry is scheduled.
pub proof fn lemma_drop_leads_to_retry(m: WsModel, closes: bool)
    requires
        !m.server,
        !m.unmounted,
        !m.retry_pending,
        m.has_socket,
        m.reconnect_times < m.reconnect_limit,
    ensures
        ({
            let (dropped, cmds) = if closes {
                m.socket_closed(false)
            } else {
                m.socket_errored(false)
            };
            let generation = dropped.retry_generation;
            let (retried, retry_cmds) = dropped.reconnect_timer_fired(generation);
            &&& dropped.ready_state == UseWebSocketReadyState::Closed
            &&& cmds[0] == WsCommandView::ScheduleReconnect {
                delay_ms: m.reconnect_interval,
                generation,
            }
            &&& retry_cmds.last() == m.connect_command()
            &&& retried.ready_state == UseWebSocketReadyState::Connecting
            &&& retried.has_socket
            &&& retried.reconnect_times == m.reconnect_times + 1
            &&& !retried.retry_pending
        }),
        !schedules_retry(m.socket_errored(true).1),
        !schedules_retry(m.socket_closed(true).1),
{
    assert(!m.should_reconnect(true));
    assert(m.socket_errored(true).1 =~= seq![WsCommandView::NotifyError]);
    assert(m.socket_closed(true).1 =~= seq![WsCommandView::NotifyClose]);
}

/// A connection rendered on a server stays as it was made, whatever
/// happens: `Closed`, no socket, no message, and no socket is ever created.
pub proof fn lemma_server_connection_stays_closed(
    url: Seq<char>,
    options: UseWebSocketOptions,
    events: Seq<WsEvent>,
)
    ensures
        run(initial_model(url, options, true), events) == (initial_model(url, options, true), 0nat),
        initial_model(url, options, true).ready_state == UseWebSocketReadyState::Closed,
        !initial_model(url, options, true).has_socket,
        initial_model(url, options, true).message is None,
        initial_model(url, options, true).message_bytes is None,
{
    lemma_server_run_inert(initial_model(url, options, true), events);
}

proof fn lemma_server_run_inert(m: WsModel, events: Seq<WsEvent>)
    requires
        m.server,
    ensures
        run(m, events) == (m, 0nat),
    decreases events.len(),
{
    if events.len() > 0 {
        assert(after(m, events[0]) == (m, Seq::<WsCommandView>::empty()));
        lemma_count_small(WsCommandView::CloseSocket, WsCommandView::CloseSocket);
        lemma_server_run_inert(m, events.drop_first());
    }
}

/// Rendered on a server, a connection does nothing: whatever happens, its
/// state stays as it is and it hands back no command.
pub proof fn lemma_server_is_inert(m: WsModel, event: WsEvent, text: Seq<char>, data: Seq<u8>)
    requires
        m.server,
    ensures
        after(m, event) == (m, Seq::<WsCommandView>::empty()),
        m.send(text) == Seq::<WsCommandView>::empty(),
        m.send_bytes(data) == Seq::<WsCommandView>::empty(),
{
}

/// The address, the sub-protocols, the retry limit and interval, the
/// manual flag and where the connection runs never change.
pub proof fn lemma_configuration_is_fixed(m: WsModel, event: WsEvent)
    ensures
        after(m, event).0.url == m.url,
        after(m, event).0.protocols == m.protocols,
        after(m, event).0.reconnect_limit == m.reconnect_limit,
        after(m, event).0.reconnect_interval == m.reconnect_interval,
        after(m, event).0.manual == m.manual,
        after(m, event).0.server == m.server,
{
}

/// Once the owner has gone away the connection stays unmounted, and the
/// events of any socket change nothing and call no callback.
pub proof fn lemma_unmounted_ignores_socket_events(m: WsModel, event: WsEvent)
    requires
        m.unmounted,
    ensures
        after(m, event).0.unmounted,
        (event is SocketOpened || event is TextReceived || event is BytesReceived
            || event is SocketErrored || event is SocketClosed) ==> after(m, event) == (
        m,
        Seq::<WsCommandView>::empty(),
        ),
{
}

/// `close`, and the owner going away, use up the retries and call off the
/// pending one.
pub proof fn lemma_close_exhausts_retries(m: WsModel)
    requires
        !m.server,
    ensures
        retries_exhausted(m.close().0),
        !m.close().0.retry_pending,
        retries_exhausted(m.unmount().0),
        !m.unmount().0.retry_pending,
{
}

/// Once the retries are used up, no error or close of a socket schedules
/// a retry, and this lasts until the next `open`: every other event keeps
/// them used up.
pub proof fn lemma_exhausted_retries_persist(m: WsModel, event: WsEvent, socket_open: bool)
    requires
        retries_exhausted(m),
        !is_opening(event),
    ensures
        !schedules_retry(m.socket_errored(socket_open).1),
        !schedules_retry(m.socket_closed(socket_open).1),
        retries_exhausted(after(m, event).0),
{
    assert(!m.should_reconnect(socket_open));
    if !m.ignores_sockets() {
        assert(m.socket_errored(socket_open).1 =~= seq![WsCommandView::NotifyError]);
        assert(m.socket_closed(socket_open).1 =~= seq![WsCommandView::NotifyClose]);
    }
}

/// At most one retry is pending: while one is, neither an error nor a
/// close (say, the error and then the close of one failing socket)
/// schedules another.
pub proof fn lemma_one_retry_at_a_time(m: WsModel, socket_open: bool)
    requires
        m.retry_pending,
    ensures
        !schedules_retry(m.socket_errored(socket_open).1),
        !schedules_retry(m.socket_closed(socket_open).1),
        m.socket_errored(socket_open).0.retry_pending,
{
    assert(!m.should_reconnect(socket_open));
    if !m.ignores_sockets() {
        assert(m.socket_errored(socket_open).1 =~= seq![WsCommandView::NotifyError]);
        assert(m.socket_closed(socket_open).1 =~= seq![WsCommandView::NotifyClose]);
    }
}

/// The retry that a connection schedules when it schedules one.
pub open spec fn retry_command(m: WsModel) -> WsCommandView {
    WsCommandView::ScheduleReconnect {
        delay_ms: m.reconnect_interval,
        generation: m.socket_errored(false).0.retry_generation,
    }
}

/// A retry is only ever scheduled while retries are left and none is
/// pending, and then it comes first, waiting the configured interval; its
/// timer, and no other, runs it.
pub proof fn lemma_retry_needs_budget(m: WsModel, socket_open: bool)
    ensures
        schedules_retry(m.socket_errored(socket_open).1) ==> {
            &&& m.reconnect_times < m.reconnect_limit
            &&& !m.retry_pending
            &&& m.socket_errored(socket_open).1[0] == retry_command(m)
            &&& m.socket_errored(socket_open).0.timer_runs_retry(
                m.socket_errored(socket_open).0.retry_generation,
            )
        },
        schedules_retry(m.socket_closed(socket_open).1) ==> {
            &&& m.reconnect_times < m.reconnect_limit
            &&& !m.retry_pending
            &&& m.socket_closed(socket_open).1[0] == retry_command(m)
        },
{
    if !m.should_reconnect(socket_open) && !m.ignores_sockets() {
        assert(m.socket_errored(socket_open).1 =~= seq![WsCommandView::NotifyError]);
        assert(m.socket_closed(socket_open).1 =~= seq![WsCommandView::NotifyClose]);
    }
}

/// `open` re-arms the retries that `close` used up: after `open`, an error
/// of the new socket (which is not open) schedules a retry whenever the
/// limit allows one.
pub proof fn lemma_open_rearms_retries(m: WsModel)
    requires
        !m.server,
        !m.unmounted,
        m.reconnect_limit > 0,
    ensures
        schedules_retry(m.close().0.open().0.socket_errored(false).1),
{
    let opened = m.close().0.open().0;
    assert(opened.should_reconnect(false));
    assert(opened.socket_errored(false).1[0] is ScheduleReconnect);
}

/// A socket that cannot be created changes nothing that users see: after
/// `open` (or a retry) whose socket fails, the ready state and the current
/// socket are what they were before.
pub proof fn lemma_failed_connect_is_undone(m: WsModel, generation: u64)
    requires
        !m.server,
    ensures
        m.open().0.socket_create_failed().ready_state == m.ready_state,
        m.open().0.socket_create_failed().has_socket == m.has_socket,
        m.timer_runs_retry(generation) ==> m.reconnect_timer_fired(generation).0.socket_create_failed().ready_state
            == m.ready_state,
        m.timer_runs_retry(generation) ==> m.reconnect_timer_fired(generation).0.socket_create_failed().has_socket
            == m.has_socket,
{
}

/// Nothing is sent while a socket is being created or after an error or a
/// close of a socket, until a socket reports that it is open again; then
/// sending goes through.
pub proof fn lemma_send_needs_open_socket(m: WsModel, socket_open: bool, text: Seq<char>, data: Seq<u8>)
    requires
        !m.server,
        !m.unmounted,
    ensures
        m.socket_errored(socket_open).0.send(text) == Seq::<WsCommandView>::empty(),
        m.socket_closed(socket_open).0.send(text) == Seq::<WsCommandView>::empty(),
        m.socket_errored(socket_open).0.send_bytes(data) == Seq::<WsCommandView>::empty(),
        m.socket_closed(socket_open).0.send_bytes(data) == Seq::<WsCommandView>::empty(),
        m.open().0.send(text) == Seq::<WsCommandView>::empty(),
        m.open().0.socket_opened().0.send(text) == seq![WsCommandView::SendText { text }],
        m.open().0.socket_opened().0.send_bytes(data) == seq![WsCommandView::SendBytes { data }],
{
}

/// What a socket delivers is what the connection shows afterwards: the
/// latest text message is the last text received, and a binary message
/// leaves it alone (and the other way round).
pub proof fn lemma_latest_message_is_kept(m: WsModel, text: Seq<char>, data: Seq<u8>)
    requires
        !m.server,
        !m.unmounted,
    ensures
        m.text_received(text).0.message == Some(text),
        m.text_received(text).0.bytes_received(data).0.message == Some(text),
        m.text_received(text).0.bytes_received(data).0.message_bytes == Some(data),
        m.bytes_received(data).0.text_received(text).0.message_bytes == Some(data),
{
}

} // verus!
