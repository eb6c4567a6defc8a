//! Session and frame synchronisation for an immersive-rendering runtime
//! driven from a two-stage host render pipeline.
//!
//! The library decides; the host performs. Each runtime call that the frame
//! loop wants made is handed out as a [`bracket::Action`], and the host feeds
//! what the runtime answered back in as a [`bracket::Input`].
pub mod bracket;
pub mod laws;
pub mod session;
pub mod status;
pub mod swapchain;

pub use bracket::{end_frame, locate_views, post_frame, xr_begin_frame, FrameLoop};
