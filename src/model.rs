use vstd::prelude::*;

verus! {

/// Identifier of a track.
pub type SongId = i64;

/// Whether the output is currently producing sound.
#[derive(Debug, Clone, Copy, PartialEq, Eq, Structural, Default)]
pub enum Playing {
    Playing,
    #[default]
    Paused,
}

/// Which track follows the current one.
#[derive(Debug, Clone, Copy, PartialEq, Eq, Structural, Default)]
pub enum Looping {
    /// Play the queue once, then fall idle.
    Off,
    /// Replay the current entry.
    #[default]
    LoopOne,
    /// Play the queue round and round.
    Loop,
}

/// Sample rate published before any track has played.
pub const DEFAULT_SAMPLE_RATE: usize = 44100;

/// The externally observable snapshot of the player.
#[derive(Debug, Clone, Copy, PartialEq, Eq)]
pub struct PlayerState {
    pub playing: Playing,
    pub looping: Looping,
    pub sample_rate: usize,
    /// Number of samples into the track.
    pub pos: u64,
    /// Total length of the track, in milliseconds.
    pub total_ms: u64,
    /// Index into the queue.
    pub queue_pos_index: Option<usize>,
    /// Current track.
    pub cur_song: Option<SongId>,
}

impl PlayerState {
    /// The state of a player that has played nothing yet.
    pub open spec fn initial() -> PlayerState {
        PlayerState {
            playing: Playing::Paused,
            looping: Looping::LoopOne,
            sample_rate: DEFAULT_SAMPLE_RATE,
            pos: 0,
            total_ms: 0,
            queue_pos_index: None,
            cur_song: None,
        }
    }
}

impl Default for PlayerState {
    fn default() -> (r: PlayerState)
        ensures
            r == PlayerState::initial(),
    {
        PlayerState {
            playing: Playing::Paused,
            looping: Looping::LoopOne,
            sample_rate: DEFAULT_SAMPLE_RATE,
            pos: 0,
            total_ms: 0,
            queue_pos_index: None,
            cur_song: None,
        }
    }
}

} // verus!
