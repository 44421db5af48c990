//! A serial-port terminal core: port configuration and its mapping onto the
//! driver's settings, a connect/disconnect session that talks to a reader
//! and a writer task over message channels, the command-line value parsers,
//! the capped log queue, the message bus, the macro table, and the
//! front-end's state with how each message changes it.

pub mod config;
pub mod channel;
pub mod text;
pub mod session;
pub mod logger;
pub mod cli;
pub mod messages;
pub mod macros;
pub mod ui;
pub mod console;
