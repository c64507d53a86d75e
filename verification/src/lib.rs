//! Verified core of an audio visualiser: the version strings of its two
//! libraries, the decisions its render loop takes, and the data it hands to
//! the graphics device.

pub mod audio;
pub mod version;
pub mod window;
pub mod render_loop;
pub mod viewport;
pub mod geometry;
