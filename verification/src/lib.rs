//! Verified control logic of the fiber optic lamp: configuration limits,
//! multisampling choices, the bump schedule of the lamp, the drawing plan of a
//! frame, the renderer's bookkeeping and the decisions taken on window events.

pub mod config;
pub mod msaa;
pub mod bump;
pub mod geometry;
pub mod render_state;
pub mod frame;
pub mod events;
pub mod session;
pub mod macos;
pub mod ffi;
pub mod cli;
pub mod classic_cli;
pub mod window_motion;
