//! Control logic of a single-station network radio player.
//!
//! The library holds the decisions of the player: the control object's
//! bookkeeping, the playback worker's state machine, the volume ramp, the
//! streaming MP3 decoder adapter, device selection and configuration checks.
//! Threads, channels, sockets and the audio output are driven by the
//! application around it, which feeds the outcomes back in as plain values.
pub mod cli;
pub mod config;
pub mod decoder;
pub mod devices;
pub mod error;
pub mod lifecycle;
pub mod player;
pub mod ramp;
pub mod response;
pub mod settings;
pub mod worker;
