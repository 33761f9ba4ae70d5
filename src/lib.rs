//! Streaming-audio playback core: the player's control decisions, a segment fetcher,
//! a bounded chunk channel, a streaming byte buffer and a frame cursor with a one-frame
//! read-ahead slot, plus the catalog's object model.
pub mod catalog;
pub mod chunk_channel;
pub mod chunk_source;
pub mod decoder;
pub mod model;
pub mod player;
pub mod stream_buffer;

pub use model::{Looping, PlayerState, Playing, SongId};
