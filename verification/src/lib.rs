//! Screen capture on Linux, written as a protocol core that performs no I/O.
//!
//! A capture is a small state machine: it names the next action to perform
//! (open the bus, call a service, read a file, ...) and takes the outcome of
//! that action as an event. Everything the capture decides, from the device
//! rectangle to the bytes of the final image, is computed and verified here.

pub mod decode;
pub mod error;
pub mod file_name;
pub mod geometry;
pub mod pixels;
pub mod uri;
pub mod wayland;
pub mod wayland_screenshot;
pub mod xorg;
