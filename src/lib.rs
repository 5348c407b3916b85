//! Frame buffering and caching for streamed video playback.
//!
//! - `buffer`: the frame store behind a playback buffer: a ring of the most
//!   recent frames in front of an LRU cache, lookups that never wait and say
//!   which frames to prefetch, scratch buffers and the counters.
//! - `cache`: a byte-bounded cache with least-recently-used eviction.
//! - `pool`: a pool of ready-made frames of one shape, and a pool of raw
//!   byte buffers under a budget.
//! - `frame`, `traits`, `error`: frames, pixel formats and errors.
//! - `encoder`, `export`, `job`, `presets`, `timeline`: the codec, preset,
//!   job and timeline vocabulary that the rest of an editor speaks.
use vstd::prelude::*;

pub mod buffer;
pub mod cache;
pub mod encoder;
pub mod error;
pub mod export;
pub mod frame;
pub mod job;
pub mod pool;
pub mod presets;
pub mod text;
pub mod timeline;
pub mod traits;

pub use cache::FrameCache;
pub use error::{Result, VideoError};
pub use frame::{ColorSpace, Frame, FrameBuilder, FrameMetadata};
pub use pool::{FramePool, MemoryPool};
pub use traits::PixelFormat;

verus! {

} // verus!
