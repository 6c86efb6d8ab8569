//! Headless rendering of recordings to video: the rules behind a viewer that is marched through a
//! recording, or along a live stream, frame by frame, and whose pixels are piped to an encoder.
pub mod capture;
pub mod clock;
pub mod command;
pub mod compressed_video;
pub mod definitions;
pub mod encode;
pub mod error;
pub mod headless;
pub mod history;
pub mod live;
pub mod live_timeline;
pub mod producer;
pub mod readback;
pub mod recorder;
pub mod run;
pub mod schedule;
pub mod settle;
pub mod text;
pub mod textured_rect;
pub mod timeline;
pub mod wait;
