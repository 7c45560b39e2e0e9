//! A chat-driven track request player: a keepalive-checked chat transport
//! state machine and a playback orchestrator that maintains the active
//! track, a FIFO queue, and the auto-play policy.

pub mod codec;
pub mod control;
pub mod ext;
pub mod player_state;
pub mod request;
pub mod spotify_lyrics;
mod tab_selection;
mod tab_view;
pub mod transport;
pub mod util;

pub use tab_selection::TabSelection;
pub use tab_view::TabView;
