//! Planning and argument construction for packaging a macOS application
//! bundle into a disk image.

pub mod args;
pub mod layout;
pub mod path;
pub mod pipeline;
pub mod plan;
pub mod staging;
pub mod text;
