//! Client core for the HEOS control protocol spoken by networked audio players.
//!
//! The crate holds the protocol and none of the transport: it builds command
//! lines, reads response headers, applies the volume policy and says, step by
//! step, what is to be sent and what a response means. The caller owns the
//! socket and the decoder.

pub mod client;
pub mod codec;
pub mod commands;
pub mod discovery;
pub mod exchange;
pub mod laws;
pub mod message;
pub mod policy;
pub mod text;
pub mod types;

pub use client::HeosClient;
pub use exchange::{HeosFailure, Outcome, Payload, ReplyShape, Step};
pub use policy::MAX_VOLUME_LIMIT;
pub use types::{
    error_codes, inputs, source_ids, AddCriteria, HeosConfig, HeosError, HeosEvent, HeosHeader,
    HeosResponse, MusicSource, MuteState, NowPlayingMedia, PlayState, Player, RepeatMode,
    ShuffleMode,
};
