//! Core of a streaming audio playback engine.
//!
//! Decoded PCM samples travel one way: a decode worker pulls packets from a
//! decoder and pushes them into a fixed-capacity ring buffer; a decoder
//! source drains the ring buffer on the render path, tracks the play-head
//! position and emits rate-limited position events plus a one-shot
//! end-of-file event; optional resampling and channel-mapping stages adapt
//! the stream to the output device. Control (seek, stop) flows the other
//! way as messages to the worker.

pub mod channel;
pub mod control;
pub mod error;
pub mod events;
pub mod manager;
pub mod mapper;
pub mod memory;
pub mod resampler;
pub mod ring;
pub mod sample;
pub mod shared;
pub mod source;
pub mod timing;
pub mod worker;
