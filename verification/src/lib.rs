//! Native-window and GL-context bootstrap, verified against an explicit
//! platform model.
//!
//! The operating system and the graphics driver are represented by a
//! [`platform::Platform`] value: a window-class registration gate, a window
//! and context handle allocator, the calling thread's message queue, and a
//! profile of what the driver supports. Every decision the window system and
//! the two-phase context bootstrap make is executed and proved against that
//! state; a thin unverified shell performs the real operating-system calls
//! and mirrors the same decisions.

pub mod parser;
pub mod platform;
pub mod registry;
pub mod render;
pub mod window;
