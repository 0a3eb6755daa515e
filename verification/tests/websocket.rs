use leptos_use::options::UseWebSocketOptions;
use leptos_use::ready_state::UseWebSocketReadyState;
use leptos_use::websocket::{
    use_websocket, use_websocket_on_server, use_websocket_with_options, BinaryMessages,
    WebSocketConnection, WsCommand,
};

fn connect_cmd(url: &str) -> WsCommand {
    WsCommand::Connect {
        url: url.to_string(),
        protocols: None,
        binary_type: BinaryMessages::ArrayBuffer,
    }
}

/// A connection that was mounted and whose socket was created.
fn mounted(url: &str, options: UseWebSocketOptions) -> WebSocketConnection {
    let mut conn = use_websocket_with_options(url.to_string(), options);
    assert_eq!(conn.mount(), vec![connect_cmd(url)]);
    conn.socket_created();
    conn
}

/// The generation of a scheduled retry.
fn retry_generation(cmd: &WsCommand) -> u64 {
    match cmd {
        WsCommand::ScheduleReconnect { generation, .. } => *generation,
        other => panic!("not a retry: {:?}", other),
    }
}

#[test]
fn ready_state_names() {
    assert_eq!(UseWebSocketReadyState::Connecting.to_string(), "Connecting");
    assert_eq!(UseWebSocketReadyState::Open.to_string(), "Open");
    assert_eq!(UseWebSocketReadyState::Closing.to_string(), "Closing");
    assert_eq!(UseWebSocketReadyState::Closed.to_string(), "Closed");
}

#[test]
fn default_options() {
    let o = UseWebSocketOptions::default();
    assert_eq!(o.reconnect_limit, Some(3));
    assert_eq!(o.reconnect_interval, Some(3000));
    assert!(!o.manual);
    assert!(o.protocols.is_none());
}

#[test]
fn option_builders_set_one_field() {
    let o = UseWebSocketOptions::default()
        .reconnect_limit(Some(7))
        .reconnect_interval(None)
        .manual(true)
        .protocols(Some(vec!["chat".to_string()]));
    assert_eq!(o.reconnect_limit, Some(7));
    assert_eq!(o.reconnect_interval, None);
    assert!(o.manual);
    assert_eq!(o.protocols, Some(vec!["chat".to_string()]));
}

#[test]
fn use_websocket_starts_closed_and_connects_on_mount() {
    let mut conn = use_websocket("wss://echo.example/".to_string());
    assert_eq!(conn.ready_state(), UseWebSocketReadyState::Closed);
    assert!(!conn.has_socket());
    assert_eq!(*conn.message(), None);
    assert_eq!(*conn.message_bytes(), None);
    assert_eq!(conn.mount(), vec![connect_cmd("wss://echo.example/")]);
    assert_eq!(conn.ready_state(), UseWebSocketReadyState::Connecting);
    assert!(conn.has_socket());
    assert_eq!(conn.reconnect_times(), 0);
}

#[test]
fn manual_connection_waits_for_open() {
    let options = UseWebSocketOptions::default().manual(true);
    let mut conn = use_websocket_with_options("ws://h".to_string(), options);
    assert!(conn.mount().is_empty());
    assert_eq!(conn.ready_state(), UseWebSocketReadyState::Closed);
    assert!(conn.close().is_empty());
    assert_eq!(conn.open(), vec![connect_cmd("ws://h")]);
    assert_eq!(conn.ready_state(), UseWebSocketReadyState::Connecting);
}

#[test]
fn server_connection_does_nothing() {
    let mut conn = use_websocket_on_server("ws://h".to_string(), UseWebSocketOptions::default());
    assert!(conn.mount().is_empty());
    assert!(conn.open().is_empty());
    assert!(conn.send("x".to_string()).is_empty());
    assert!(conn.send_bytes(vec![1]).is_empty());
    assert!(conn.close().is_empty());
    assert!(conn.unmount().is_empty());
    assert_eq!(conn.ready_state(), UseWebSocketReadyState::Closed);
    assert!(!conn.has_socket());
    assert_eq!(*conn.message(), None);
}

#[test]
fn protocols_are_passed_to_the_socket() {
    let protocols = vec!["a".to_string(), "b".to_string()];
    let options = UseWebSocketOptions::default().protocols(Some(protocols.clone()));
    let mut conn = use_websocket_with_options("ws://h".to_string(), options);
    assert_eq!(
        conn.mount(),
        vec![WsCommand::Connect {
            url: "ws://h".to_string(),
            protocols: Some(protocols),
            binary_type: BinaryMessages::ArrayBuffer,
        }]
    );
}

#[test]
fn failed_socket_creation_is_undone() {
    let mut conn = use_websocket("not a url".to_string());
    conn.mount();
    conn.socket_create_failed();
    assert_eq!(conn.ready_state(), UseWebSocketReadyState::Closed);
    assert!(!conn.has_socket());
    // a later failure of a created socket changes nothing more
    let mut conn = mounted("ws://h", UseWebSocketOptions::default());
    conn.socket_create_failed();
    assert_eq!(conn.ready_state(), UseWebSocketReadyState::Connecting);
    assert!(conn.has_socket());
}

#[test]
fn send_only_when_open() {
    let mut conn = mounted("ws://h", UseWebSocketOptions::default());
    assert!(conn.send("hi".to_string()).is_empty());
    assert!(conn.send_bytes(vec![1, 2]).is_empty());
    assert_eq!(conn.socket_opened(), vec![WsCommand::NotifyOpen]);
    assert_eq!(conn.ready_state(), UseWebSocketReadyState::Open);
    assert_eq!(
        conn.send("hi".to_string()),
        vec![WsCommand::SendText { text: "hi".to_string() }]
    );
    assert_eq!(
        conn.send_bytes(b"Hello, world!\r\n".to_vec()),
        vec![WsCommand::SendBytes { data: b"Hello, world!\r\n".to_vec() }]
    );
}

#[test]
fn messages_are_kept_and_reported() {
    let mut conn = mounted("ws://h", UseWebSocketOptions::default());
    conn.socket_opened();
    assert_eq!(
        conn.text_received("one".to_string()),
        vec![WsCommand::NotifyMessage { text: "one".to_string() }]
    );
    assert_eq!(
        conn.bytes_received(vec![9, 8]),
        vec![WsCommand::NotifyMessageBytes { data: vec![9, 8] }]
    );
    conn.text_received("two".to_string());
    assert_eq!(*conn.message(), Some("two".to_string()));
    assert_eq!(*conn.message_bytes(), Some(vec![9, 8]));
}

#[test]
fn error_schedules_retry_and_closes() {
    let mut conn = mounted("ws://h", UseWebSocketOptions::default());
    conn.socket_opened();
    let cmds = conn.socket_errored(false);
    assert_eq!(
        cmds,
        vec![WsCommand::ScheduleReconnect { delay_ms: 3000, generation: 1 }, WsCommand::NotifyError]
    );
    assert!(conn.retry_pending());
    assert_eq!(conn.ready_state(), UseWebSocketReadyState::Closed);
    assert!(conn.send("x".to_string()).is_empty());
}

#[test]
fn error_then_close_of_one_socket_schedules_one_retry() {
    let options = UseWebSocketOptions::default().reconnect_limit(Some(1));
    let mut conn = mounted("ws://h", options);
    let first = conn.socket_errored(false);
    assert_eq!(first.len(), 2);
    assert_eq!(conn.socket_closed(false), vec![WsCommand::NotifyClose]);
    let g = retry_generation(&first[0]);
    assert_eq!(conn.reconnect_timer_fired(g), vec![WsCommand::CloseSocket, connect_cmd("ws://h")]);
    assert_eq!(conn.reconnect_times(), 1);
    // the same timer again, or a made-up one, does nothing
    assert!(conn.reconnect_timer_fired(g).is_empty());
    conn.socket_created();
    assert_eq!(conn.socket_errored(false), vec![WsCommand::NotifyError]);
}

#[test]
fn no_retry_while_current_socket_is_open() {
    let mut conn = mounted("ws://h", UseWebSocketOptions::default());
    assert_eq!(conn.socket_closed(true), vec![WsCommand::NotifyClose]);
    assert!(!conn.retry_pending());
}

#[test]
fn retry_timer_reconnects_and_counts() {
    let options = UseWebSocketOptions::default().reconnect_interval(Some(50));
    let mut conn = mounted("ws://h", options);
    let cmds = conn.socket_closed(false);
    assert_eq!(
        cmds,
        vec![WsCommand::ScheduleReconnect { delay_ms: 50, generation: 1 }, WsCommand::NotifyClose]
    );
    assert_eq!(
        conn.reconnect_timer_fired(1),
        vec![WsCommand::CloseSocket, connect_cmd("ws://h")]
    );
    assert_eq!(conn.reconnect_times(), 1);
    assert!(!conn.retry_pending());
    assert_eq!(conn.ready_state(), UseWebSocketReadyState::Connecting);
}

#[test]
fn retries_stop_at_the_limit() {
    let options = UseWebSocketOptions::default().reconnect_limit(Some(2));
    let mut conn = mounted("ws://h", options);
    for _ in 0..2 {
        let cmds = conn.socket_errored(false);
        let g = retry_generation(&cmds[0]);
        assert_eq!(conn.reconnect_timer_fired(g).len(), 2);
        conn.socket_created();
    }
    assert_eq!(conn.reconnect_times(), 2);
    assert_eq!(conn.socket_errored(false), vec![WsCommand::NotifyError]);
    // `open` starts the count over
    conn.open();
    conn.socket_created();
    assert_eq!(conn.reconnect_times(), 0);
    assert_eq!(retry_generation(&conn.socket_errored(false)[0]), 3);
}

#[test]
fn close_calls_off_pending_retry() {
    let mut conn = mounted("ws://h", UseWebSocketOptions::default());
    let g = retry_generation(&conn.socket_errored(false)[0]);
    assert_eq!(conn.close(), vec![WsCommand::CloseSocket]);
    assert_eq!(conn.reconnect_times(), 3);
    assert!(!conn.retry_pending());
    assert!(conn.reconnect_timer_fired(g).is_empty());
    assert_eq!(conn.ready_state(), UseWebSocketReadyState::Closed);
    assert_eq!(conn.socket_closed(false), vec![WsCommand::NotifyClose]);
    assert_eq!(conn.open(), vec![WsCommand::CloseSocket, connect_cmd("ws://h")]);
    conn.socket_created();
    assert_eq!(conn.socket_closed(false).len(), 2);
}

#[test]
fn open_calls_off_pending_retry() {
    let mut conn = mounted("ws://h", UseWebSocketOptions::default());
    let g = retry_generation(&conn.socket_errored(false)[0]);
    conn.open();
    conn.socket_created();
    assert!(conn.reconnect_timer_fired(g).is_empty());
    assert_eq!(conn.reconnect_times(), 0);
}

#[test]
fn unmount_closes_and_freezes_state() {
    let mut conn = mounted("ws://h", UseWebSocketOptions::default());
    let g = retry_generation(&conn.socket_errored(false)[0]);
    assert_eq!(conn.unmount(), vec![WsCommand::CloseSocket]);
    assert!(conn.is_unmounted());
    assert!(conn.reconnect_timer_fired(g).is_empty());
    assert!(conn.socket_opened().is_empty());
    assert!(conn.text_received("late".to_string()).is_empty());
    assert!(conn.bytes_received(vec![1]).is_empty());
    assert!(conn.socket_errored(false).is_empty());
    assert!(conn.socket_closed(false).is_empty());
    assert!(conn.mount().is_empty());
    conn.socket_create_failed();
    assert_eq!(conn.ready_state(), UseWebSocketReadyState::Closed);
    assert_eq!(*conn.message(), None);
}

#[test]
fn zero_limit_never_retries() {
    let options = UseWebSocketOptions::default().reconnect_limit(Some(0));
    let mut conn = mounted("ws://h", options);
    assert_eq!(conn.socket_errored(false), vec![WsCommand::NotifyError]);
}
