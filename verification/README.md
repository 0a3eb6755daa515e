# leptos_use

The decision logic of two reactive browser hooks, verified with Verus.

- `src/websocket.rs`: a WebSocket connection as a state machine. Each call
  (`mount`, `open`, `close`, `send`, `send_bytes`, the socket events, the
  outcome of creating a socket, a retry timer running out, the owner going
  away) updates the connection and hands back the commands to perform, in
  order. Every method is specified by a spec function over the plain model
  `WsModel`. A connection made for a server does nothing.
- `src/laws.rs`: properties that span calls: between two opens at most
  `reconnect_limit` sockets come from retries; after `close` only `open` (or
  the mount that opens) creates a socket, and after unmount nothing but
  `open` creates a socket or changes what users see; a dropped socket gets
  its retry while retries are left; at most one retry is pending; a socket that cannot be created
  is undone; a server connection is inert.
- `src/options.rs`, `src/ready_state.rs`: the options and the user-visible
  connection state.
- `src/visibility.rs`: element visibility as last reported by an
  intersection observer.
- `app/`: the Leptos hooks that own the sockets, timers, observers and
  signals, and drive the machines above.
