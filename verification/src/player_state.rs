//! The playback engine's status, as the orchestrator tracks it.
//!
//! The engine is an external collaborator: it consumes commands and emits an
//! asynchronous stream of status events. Only the plain values the
//! orchestrator reads are modeled here: correlation numbers, track
//! identifiers and positions in milliseconds.

use vstd::prelude::*;

verus! {

/// Whether a `Playing` notification has been seen since the last track
/// replacement. Arms the auto-advance: an end-of-track notification only
/// advances the queue when this is `Playing`.
#[derive(Copy, Clone, Debug, PartialEq, Eq, Structural)]
pub enum NextPlayingState {
    Playing,
    StopPlaying,
}

impl Default for NextPlayingState {
    /// Disarmed until the engine confirms playback.
    fn default() -> (r: Self)
        ensures
            r == NextPlayingState::StopPlaying,
    {
        NextPlayingState::StopPlaying
    }
}

/// One status notification from the playback engine. `play_request_id` is
/// the engine's monotonically-issued play-request correlation number; these
/// are not assumed to arrive in issuance order.
#[derive(Copy, Clone, Debug, PartialEq, Eq, Structural)]
pub enum EngineEvent {
    Stopped { play_request_id: u64, track_id: u128 },
    Loading { play_request_id: u64, track_id: u128, position_ms: u32 },
    Playing { play_request_id: u64, track_id: u128, position_ms: u32 },
    Paused { play_request_id: u64, track_id: u128, position_ms: u32 },
    EndOfTrack { play_request_id: u64, track_id: u128 },
    Unavailable { play_request_id: u64, track_id: u128 },
    TimeToPreloadNextTrack { play_request_id: u64, track_id: u128 },
    Seeked { play_request_id: u64, track_id: u128, position_ms: u32 },
    /// The mixer volume moved; carries nothing the orchestrator reads.
    VolumeChanged { volume: u16 },
    /// The engine switched tracks on its own bookkeeping; ignored.
    TrackChanged { track_id: u128 },
    /// The engine's session dropped; ignored here, the engine recovers.
    SessionDisconnected,
}

/// One command to the playback engine; commands are fire-and-forget.
#[derive(Copy, Clone, Debug, PartialEq, Eq, Structural)]
pub enum EngineCommand {
    Load { track_id: u128, autostart: bool, start_position_ms: u32 },
    Play,
    Pause,
    Stop,
    Seek { position_ms: u32 },
    Preload { track_id: u128 },
}

/// What the orchestrator believes the engine is doing, kept up to date
/// from the engine's events; only the most recent one matters for decisions.
#[derive(Copy, Clone, Debug, PartialEq, Eq, Structural)]
pub enum PlayerState {
    NotPlaying,
    Loading { req_id: u64, id: u128 },
    Playing { req_id: u64, pos: u32, id: u128 },
    Seeked { req_id: u64, id: u128, pos: u32 },
    Paused { req_id: u64, pos: u32, id: u128 },
    PreloadNextTrack { req_id: u64, id: u128 },
    EndOfPlaying { req_id: u64, id: u128 },
    Unavailable { req_id: u64, id: u128 },
}

impl Default for PlayerState {
    /// Nothing is playing until the engine says otherwise.
    fn default() -> (r: Self)
        ensures
            r == PlayerState::NotPlaying,
    {
        PlayerState::NotPlaying
    }
}

/// Which internal state an engine event translates to; `None` for the
/// events the orchestrator drops silently.
pub open spec fn state_of_event(event: EngineEvent) -> Option<PlayerState> {
    match event {
        EngineEvent::Stopped { .. } => Some(PlayerState::NotPlaying),
        EngineEvent::Loading { play_request_id, track_id, .. } => Some(
            PlayerState::Loading { req_id: play_request_id, id: track_id },
        ),
        EngineEvent::Playing { play_request_id, track_id, position_ms } => Some(
            PlayerState::Playing { req_id: play_request_id, pos: position_ms, id: track_id },
        ),
        EngineEvent::Paused { play_request_id, track_id, position_ms } => Some(
            PlayerState::Paused { req_id: play_request_id, pos: position_ms, id: track_id },
        ),
        EngineEvent::EndOfTrack { play_request_id, track_id } => Some(
            PlayerState::EndOfPlaying { req_id: play_request_id, id: track_id },
        ),
        EngineEvent::Unavailable { play_request_id, track_id } => Some(
            PlayerState::Unavailable { req_id: play_request_id, id: track_id },
        ),
        EngineEvent::TimeToPreloadNextTrack { play_request_id, track_id } => Some(
            PlayerState::PreloadNextTrack { req_id: play_request_id, id: track_id },
        ),
        EngineEvent::Seeked { play_request_id, track_id, position_ms } => Some(
            PlayerState::Seeked { req_id: play_request_id, id: track_id, pos: position_ms },
        ),
        EngineEvent::VolumeChanged { .. } => None,
        EngineEvent::TrackChanged { .. } => None,
        EngineEvent::SessionDisconnected => None,
    }
}

/// The state after draining a run of engine events: the last one that
/// translates wins; the rest only pass through it.
pub open spec fn last_state(events: Seq<EngineEvent>, init: PlayerState) -> PlayerState
    decreases events.len(),
{
    if events.len() == 0 {
        init
    } else {
        match state_of_event(events.last()) {
            Some(s) => s,
            None => last_state(events.drop_last(), init),
        }
    }
}

impl PlayerState {
    /// Translate one engine event; events that carry nothing the
    /// orchestrator acts on are rejected.
    pub fn try_from(event: EngineEvent) -> (r: Result<PlayerState, ()>)
        ensures
            r == match state_of_event(event) {
                Some(s) => Ok::<PlayerState, ()>(s),
                None => Err::<PlayerState, ()>(()),
            },
    {
        let ev = match event {
            EngineEvent::Stopped { .. } => PlayerState::NotPlaying,
            EngineEvent::Loading { play_request_id, track_id, .. } => PlayerState::Loading {
                req_id: play_request_id,
                id: track_id,
            },
            EngineEvent::Playing { play_request_id, track_id, position_ms } => {
                PlayerState::Playing {
                    req_id: play_request_id,
                    pos: position_ms,
                    id: track_id,
                }
            }
            EngineEvent::Paused { play_request_id, track_id, position_ms } => {
                PlayerState::Paused {
                    req_id: play_request_id,
                    pos: position_ms,
                    id: track_id,
                }
            }
            EngineEvent::EndOfTrack { play_request_id, track_id } => PlayerState::EndOfPlaying {
                req_id: play_request_id,
                id: track_id,
            },
            EngineEvent::Unavailable { play_request_id, track_id } => PlayerState::Unavailable {
                req_id: play_request_id,
                id: track_id,
            },
            EngineEvent::TimeToPreloadNextTrack { play_request_id, track_id } => {
                PlayerState::PreloadNextTrack {
                    req_id: play_request_id,
                    id: track_id,
                }
            }
            EngineEvent::Seeked { play_request_id, track_id, position_ms } => {
                PlayerState::Seeked {
                    req_id: play_request_id,
                    id: track_id,
                    pos: position_ms,
                }
            }
            _ => {
                return Err(());
            }
        };
        Ok(ev)
    }

    /// The state's name, for logs and panels.
    pub fn as_str(&self) -> (r: &'static str)
        ensures
            self is NotPlaying ==> r@ == "NotPlaying"@,
            self is Loading ==> r@ == "Loading"@,
            self is Playing ==> r@ == "Playing"@,
            self is Seeked ==> r@ == "Seeked"@,
            self is Paused ==> r@ == "Paused"@,
            self is PreloadNextTrack ==> r@ == "PreloadNextTrack"@,
            self is EndOfPlaying ==> r@ == "EndOfPlaying"@,
            self is Unavailable ==> r@ == "Unavailable"@,
    {
        match self {
            PlayerState::NotPlaying => "NotPlaying",
            PlayerState::Loading { .. } => "Loading",
            PlayerState::Playing { .. } => "Playing",
            PlayerState::Seeked { .. } => "Seeked",
            PlayerState::Paused { .. } => "Paused",
            PlayerState::PreloadNextTrack { .. } => "PreloadNextTrack",
            PlayerState::EndOfPlaying { .. } => "EndOfPlaying",
            PlayerState::Unavailable { .. } => "Unavailable",
        }
    }

    pub fn is_not_playing(&self) -> (r: bool)
        ensures
            r == (self is NotPlaying),
    {
        matches!(self, PlayerState::NotPlaying)
    }

    pub fn is_playing(&self) -> (r: bool)
        ensures
            r == (self is Playing),
    {
        matches!(self, PlayerState::Playing { .. })
    }

    pub fn is_paused(&self) -> (r: bool)
        ensures
            r == (self is Paused),
    {
        matches!(self, PlayerState::Paused { .. })
    }

    pub fn is_done_playing(&self) -> (r: bool)
        ensures
            r == (self is EndOfPlaying),
    {
        matches!(self, PlayerState::EndOfPlaying { .. })
    }

    /// Whether this track, and no other, is being loaded.
    pub fn is_loading(&self, current: u128) -> (r: bool)
        ensures
            r == (self matches PlayerState::Loading { id, .. } && id == current),
    {
        matches!(self, PlayerState::Loading { id, .. } if *id == current)
    }

    pub fn is_unavailable(&self) -> (r: bool)
        ensures
            r == (self is Unavailable),
    {
        matches!(self, PlayerState::Unavailable { .. })
    }
}

} // verus!
