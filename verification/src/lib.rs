//! Control core of a teleoperated tracked vehicle.
//!
//! - `messages`: the commands an operator sends.
//! - `client`: what the session pump's send and receive loops do with what
//!   they read, and when the pump has stopped.
//! - `session`: the life of a session from start to teardown.
//! - `motors`: how bursts of commands are coalesced into writes to the tracks.
//! - `ssd1306`: the page-addressed monochrome display, its commands, its
//!   screen buffer with dirty pages, and what a flush sends.
//! - `image_proc`: packing of grayscale images into the display's format.
//! - `video`: the lifecycle of the video transport.
//! - `fixed_vec`: the contracts assumed of the fixed-capacity vectors in use.
//!
//! Everything here works on plain values. Sockets, channels, pins and buses are
//! owned by the program around this library, which performs the actions these
//! functions decide on and reports back what happened.

pub mod client;
pub mod fixed_vec;
pub mod image_proc;
pub mod messages;
pub mod motors;
pub mod session;
pub mod ssd1306;
pub mod video;
