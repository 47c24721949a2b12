//! Surface lifecycle management for presenting an externally rendered
//! webview image through a platform swapchain: pixel-format negotiation,
//! surface configuration, per-frame texture acquisition, and recovery from
//! transient presentation errors.
//!
//! The library is the decision core: it works on plain model values
//! (formats, window snapshots, acquisition outcomes) and tells its caller
//! which native surface operation to perform next. The caller owns the
//! native handles and performs the driver calls.

pub mod config;
pub mod formats;
pub mod lifecycle;
pub mod negotiate;
pub mod present;
pub mod quirks;
pub mod snapshot;
