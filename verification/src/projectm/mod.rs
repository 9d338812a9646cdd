//! The projectM visualization surface's decision logic: the stop grace
//! period, frame pacing, the audio feed, the hover overlay, and the engine
//! status the surface reports.

pub mod availability;
pub mod feed;
pub mod grace;
pub mod overlay;
pub mod surface;
