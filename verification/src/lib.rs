//! Planet-scale camera placement and staged dataset generation, verified.
//!
//! `pipeline` orders the three generation stages, `progress` turns stage
//! reports into display updates, `geodetic` normalizes the observer's
//! position, `viewport` guards the frame size, and `frame` checks what a
//! frame depends on.

pub mod frame;
pub mod geodetic;
pub mod pipeline;
pub mod progress;
pub mod viewport;
