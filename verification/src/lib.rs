//! A synchronous bridge between a callback-driven caller and an asynchronous
//! chat-protocol client, as far as it decides anything: the session state and
//! its synchronization loop, restore tokens, the three ways to make a client,
//! and the per-room live-event listener. Every function here is a plain
//! computation with a contract; locks, tasks and the protocol engine live
//! with the caller.

pub mod client;
pub mod endpoint;
pub mod error;
pub mod json;
pub mod room;
pub mod session;
pub mod state;
pub mod store;
pub mod token;

pub use client::{guest_client, login_new_client, login_with_token, Client, ClientDelegate};
pub use error::ClientError;
pub use room::{Room, RoomDelegate};
pub use state::{ClientState, ClientStateBuilder};
