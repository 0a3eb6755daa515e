use vstd::prelude::*;

use crate::options::{UseWebSocketOptions, DEFAULT_RECONNECT_INTERVAL, DEFAULT_RECONNECT_LIMIT};
use crate::ready_state::{ready_state_name, UseWebSocketReadyState};
use crate::websocket::{initial_model, BinaryMessages, WsCommandView, WsModel};

verus! {

/// The socket that every connection attempt of `m` creates: to its
/// address, with its sub-protocols, receiving binary messages as array
/// buffers.
pub open spec fn new_socket(m: WsModel) -> WsCommandView {
    WsCommandView::Connect {
        url: m.url,
        protocols: m.protocols,
        binary_type: BinaryMessages::ArrayBuffer,
    }
}

/// The commands that replace the current socket of `m` by a new one.
pub open spec fn replace_socket(m: WsModel) -> Seq<WsCommandView> {
    if m.has_socket {
        seq![WsCommandView::CloseSocket, new_socket(m)]
    } else {
        seq![new_socket(m)]
    }
}

/// The commands that close the current socket of `m`, whatever state it is
/// shown in.
pub open spec fn close_socket(m: WsModel) -> Seq<WsCommandView> {
    if m.has_socket {
        seq![WsCommandView::CloseSocket]
    } else {
        seq![]
    }
}

/// A new connection shows `Closed`, has no socket, no message and no
/// retry, is not unmounted, and takes its address, sub-protocols, manual
/// flag and retry settings from the options (3 retries, 3000 ms apart,
/// where none are given).
pub proof fn lemma_new_connection(url: Seq<char>, options: UseWebSocketOptions, server: bool)
    ensures
        ({
            let m = initial_model(url, options, server);
            &&& m.url == url
            &&& m.server == server
            &&& m.manual == options.manual
            &&& m.reconnect_limit == (match options.reconnect_limit {
                Some(l) => l,
                None => 3u64,
            })
            &&& m.reconnect_interval == (match options.reconnect_interval {
                Some(i) => i,
                None => 3000u64,
            })
            &&& m.protocols is Some <==> options.protocols is Some
            &&& m.ready_state == UseWebSocketReadyState::Closed
            &&& !m.has_socket
            &&& m.message is None
            &&& m.message_bytes is None
            &&& m.reconnect_times == 0
            &&& !m.retry_pending
            &&& m.rollback is None
            &&& !m.unmounted
        }),
        DEFAULT_RECONNECT_LIMIT == 3,
        DEFAULT_RECONNECT_INTERVAL == 3000,
{
}

/// `open` starts the retry count over, whatever it was, calls off any
/// pending retry, closes the current socket if there is one and creates a
/// new one; it shows `Connecting` and leaves the messages alone. On a
/// server it does nothing.
pub proof fn lemma_open_behaviour(m: WsModel)
    ensures
        !m.server ==> m.open() == (
        WsModel {
            reconnect_times: 0,
            retry_pending: false,
            ready_state: UseWebSocketReadyState::Connecting,
            has_socket: true,
            rollback: Some((m.ready_state, m.has_socket)),
            ..m
        },
        replace_socket(m),
        ),
        !m.server ==> m.open().0.reconnect_times == 0,
        m.server ==> m.open() == (m, Seq::<WsCommandView>::empty()),
{
    if !m.server {
        assert(m.open().1 =~= replace_socket(m));
    }
}

/// `close` closes the current socket whenever there is one, whatever the
/// state shown (open or not), uses up the retry count and calls off any
/// pending retry; it changes nothing that users see.
pub proof fn lemma_close_behaviour(m: WsModel)
    ensures
        !m.server ==> m.close() == (
        WsModel {
            reconnect_times: m.reconnect_limit,
            retry_pending: false,
            rollback: None,
            ..m
        },
        close_socket(m),
        ),
        !m.server && m.has_socket ==> m.close().1 == seq![WsCommandView::CloseSocket],
        m.server ==> m.close() == (m, Seq::<WsCommandView>::empty()),
{
}

/// Going away closes as `close` does and marks the connection unmounted.
pub proof fn lemma_unmount_behaviour(m: WsModel)
    ensures
        !m.server ==> m.unmount() == (
        WsModel {
            reconnect_times: m.reconnect_limit,
            retry_pending: false,
            rollback: None,
            unmounted: true,
            ..m
        },
        close_socket(m),
        ),
        m.server ==> m.unmount() == (m, Seq::<WsCommandView>::empty()),
{
}

/// Mounting opens the connection exactly when it is neither manual, nor on
/// a server, nor unmounted; otherwise it does nothing.
pub proof fn lemma_mount_behaviour(m: WsModel)
    ensures
        !m.manual && !m.server && !m.unmounted ==> m.mount() == m.open(),
        m.manual || m.server || m.unmounted ==> m.mount() == (m, Seq::<WsCommandView>::empty()),
{
}

/// Sending goes out exactly when the connection shows `Open`, has a socket
/// and is not on a server, whatever else (retry count, past messages,
/// unmounting) holds; it sends the given data unchanged.
pub proof fn lemma_send_behaviour(m: WsModel, text: Seq<char>, data: Seq<u8>)
    ensures
        (!m.server && m.ready_state == UseWebSocketReadyState::Open && m.has_socket) ==> m.send(text)
            == seq![WsCommandView::SendText { text }] && m.send_bytes(data) == seq![
            WsCommandView::SendBytes { data },
        ],
        !(!m.server && m.ready_state == UseWebSocketReadyState::Open && m.has_socket) ==> m.send(
            text,
        ) == Seq::<WsCommandView>::empty() && m.send_bytes(data) == Seq::<WsCommandView>::empty(),
{
}

/// A socket opening shows `Open` and calls the open callback; nothing else
/// changes. Ignored on a server or once unmounted.
pub proof fn lemma_socket_opened_behaviour(m: WsModel)
    ensures
        !m.server && !m.unmounted ==> m.socket_opened() == (
        WsModel { ready_state: UseWebSocketReadyState::Open, ..m },
        seq![WsCommandView::NotifyOpen],
        ),
        m.server || m.unmounted ==> m.socket_opened() == (m, Seq::<WsCommandView>::empty()),
{
}

/// Every message is kept as the latest of its kind and reported to its
/// callback, even when it equals the previous one; the other kind of
/// message and the state shown stay as they were. Ignored on a server or
/// once unmounted.
pub proof fn lemma_message_behaviour(m: WsModel, text: Seq<char>, data: Seq<u8>)
    ensures
        !m.server && !m.unmounted ==> m.text_received(text) == (
        WsModel { message: Some(text), ..m },
        seq![WsCommandView::NotifyMessage { text }],
        ),
        !m.server && !m.unmounted ==> m.bytes_received(data) == (
        WsModel { message_bytes: Some(data), ..m },
        seq![WsCommandView::NotifyMessageBytes { data }],
        ),
        m.server || m.unmounted ==> m.text_received(text) == (m, Seq::<WsCommandView>::empty()),
        m.server || m.unmounted ==> m.bytes_received(data) == (m, Seq::<WsCommandView>::empty()),
{
}

/// An error or a close of a socket always shows `Closed` and calls its
/// callback last, whether or not a retry is scheduled; a retry (first) is
/// scheduled exactly when retries are left, none is pending, a current
/// socket exists and it is not open, and it carries a new generation. The
/// socket and the messages stay as they were. Ignored on a server or once
/// unmounted.
pub proof fn lemma_drop_behaviour(m: WsModel, socket_open: bool)
    ensures
        ({
            let retry = m.reconnect_times < m.reconnect_limit && !m.retry_pending && m.has_socket
                && !socket_open;
            let generation: u64 = if m.retry_generation == u64::MAX {
                0
            } else {
                (m.retry_generation + 1) as u64
            };
            let scheduled = WsCommandView::ScheduleReconnect {
                delay_ms: m.reconnect_interval,
                generation,
            };
            let after = WsModel {
                ready_state: UseWebSocketReadyState::Closed,
                retry_pending: m.retry_pending || retry,
                retry_generation: if retry {
                    generation
                } else {
                    m.retry_generation
                },
                ..m
            };
            !m.server && !m.unmounted ==> {
                &&& m.socket_errored(socket_open) == (after, if retry {
                    seq![scheduled, WsCommandView::NotifyError]
                } else {
                    seq![WsCommandView::NotifyError]
                })
                &&& m.socket_closed(socket_open) == (after, if retry {
                    seq![scheduled, WsCommandView::NotifyClose]
                } else {
                    seq![WsCommandView::NotifyClose]
                })
                &&& m.socket_errored(socket_open).0.ready_state == UseWebSocketReadyState::Closed
                &&& m.socket_closed(socket_open).0.ready_state == UseWebSocketReadyState::Closed
            }
        }),
        m.server || m.unmounted ==> m.socket_errored(socket_open) == (
        m,
        Seq::<WsCommandView>::empty(),
        ) && m.socket_closed(socket_open) == (m, Seq::<WsCommandView>::empty()),
{
    if !m.server && !m.unmounted {
        let retry = m.reconnect_times < m.reconnect_limit && !m.retry_pending && m.has_socket
            && !socket_open;
        assert(m.should_reconnect(socket_open) == retry);
        let (_, r) = m.reconnect(socket_open);
        if retry {
            assert(m.socket_errored(socket_open).1 =~= seq![r[0], WsCommandView::NotifyError]);
            assert(m.socket_closed(socket_open).1 =~= seq![r[0], WsCommandView::NotifyClose]);
        } else {
            assert(m.socket_errored(socket_open).1 =~= seq![WsCommandView::NotifyError]);
            assert(m.socket_closed(socket_open).1 =~= seq![WsCommandView::NotifyClose]);
        }
    }
}

/// A retry timer runs a retry exactly when it carries the generation of the
/// pending retry, retries are left and the connection is not on a server;
/// then the current socket is replaced, `Connecting` is shown and one more
/// retry is counted. Any other timer changes nothing.
pub proof fn lemma_timer_behaviour(m: WsModel, generation: u64)
    ensures
        (!m.server && m.retry_pending && generation == m.retry_generation && m.reconnect_times
            < m.reconnect_limit) ==> m.reconnect_timer_fired(generation) == (
        WsModel {
            reconnect_times: (m.reconnect_times + 1) as u64,
            retry_pending: false,
            ready_state: UseWebSocketReadyState::Connecting,
            has_socket: true,
            rollback: Some((m.ready_state, m.has_socket)),
            ..m
        },
        replace_socket(m),
        ),
        !(!m.server && m.retry_pending && generation == m.retry_generation && m.reconnect_times
            < m.reconnect_limit) ==> m.reconnect_timer_fired(generation) == (
        m,
        Seq::<WsCommandView>::empty(),
        ),
{
    if m.timer_runs_retry(generation) {
        assert(m.reconnect_timer_fired(generation).1 =~= replace_socket(m));
    }
}

/// A created socket settles the attempt and changes nothing users see; a
/// socket that cannot be created brings back the state shown and the
/// current socket from before the attempt.
pub proof fn lemma_create_outcome_behaviour(m: WsModel)
    ensures
        !m.server ==> m.socket_created() == (WsModel { rollback: None, ..m }),
        !m.server ==> match m.rollback {
            Some((before_state, before_socket)) => m.socket_create_failed() == (WsModel {
                ready_state: before_state,
                has_socket: before_socket,
                rollback: None,
                ..m
            }),
            None => m.socket_create_failed() == m,
        },
        m.server ==> m.socket_create_failed() == m && m.socket_created() == m,
{
}

/// Each ready state is shown by its own name.
pub proof fn lemma_ready_state_names()
    ensures
        ready_state_name(UseWebSocketReadyState::Connecting) =~= seq![
            'C', 'o', 'n', 'n', 'e', 'c', 't', 'i', 'n', 'g',
        ],
        ready_state_name(UseWebSocketReadyState::Open) =~= seq!['O', 'p', 'e', 'n'],
        ready_state_name(UseWebSocketReadyState::Closing) =~= seq!['C', 'l', 'o', 's', 'i', 'n', 'g'],
        ready_state_name(UseWebSocketReadyState::Closed) =~= seq!['C', 'l', 'o', 's', 'e', 'd'],
{
    reveal_strlit("Connecting");
    reveal_strlit("Open");
    reveal_strlit("Closing");
    reveal_strlit("Closed");
}

} // verus!
