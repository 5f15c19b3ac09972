//! Brings a remote track to a deterministic place on disk and completes its
//! tag block.
//!
//! The library decides and the caller acts. Each component is either a pure
//! function or a state machine that, told what the last operation gave, says
//! which operation comes next:
//!
//! - [`path`]: where a track is stored;
//! - [`fetch`]: the atomic fetcher;
//! - [`resolve`]: the stream resolver;
//! - [`artwork`]: the artwork processor;
//! - [`tag`]: the tag writer;
//! - [`pipeline`]: the sequence of all of these for one request.

pub mod artwork;
pub mod error;
pub mod fetch;
pub mod model;
pub mod path;
pub mod pipeline;
pub mod resolve;
pub mod tag;
pub mod text;
