//! The decision logic of a WebSocket connection hook and of an element
//! visibility hook, as plain verified state machines. The browser side
//! (sockets, timers, observers, reactive signals) drives these machines
//! and performs the commands they hand back.

pub mod ready_state;
pub mod options;
pub mod websocket;
pub mod visibility;
pub mod laws;
pub mod behaviour;
