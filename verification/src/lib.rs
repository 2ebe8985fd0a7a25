//! Protocol bootstrap and object registry of a wallpaper daemon's display-server client,
//! together with the plain data types of its control protocol.

pub mod connect;
pub mod globals;
pub mod initializer;
pub mod ipc;
pub mod object;
pub mod path;
pub mod pixel_format;
pub mod protocol;
pub mod state;
pub mod text;
pub mod traces;
