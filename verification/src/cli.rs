//! The pure parts of the command line client: the values it exchanges
//! with the server, its arguments, and the shaping of text for the terminal.

pub mod app;
pub mod args;
pub mod render;
pub mod resolve;
pub mod types;
pub mod utils;
pub mod watch;
