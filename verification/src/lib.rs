//! Presence synchronization for a game's Discord Rich Presence integration.
//!
//! The crate models the state a running game reports (menu, lobby, match),
//! reduces it to an activity record suitable for a Rich Presence client,
//! manages the join/spectate session secrets embedded in that record, and
//! drives the connection state machine of the client session. All decisions
//! are made by verified functions; the surrounding process (engine callbacks,
//! the async runtime, the IPC transport) feeds them plain values.

pub mod activity;
pub mod engine;
pub mod reducer;
pub mod secrets;
pub mod session;

pub use activity::ActivityData;
pub use activity::GameState;
pub use activity::GameStateStruct;
pub use activity::Secrets;
pub use activity::UIPresenceStruct;
pub use engine::PresenceEngine;
pub use session::ConnState;
pub use session::SessionEvent;
