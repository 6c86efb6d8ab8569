//! Video encoding.
//!
//! The only backend pipes raw RGBA frames to an external `ffmpeg` binary; see [`ffmpeg_cli`].
pub mod ffmpeg_cli;
pub mod sidecar;

pub use ffmpeg_cli::{EncodeSettings, Error as EncodeError, FFmpegCliEncoder, VideoEncodeCodec};
