//! Serial device core of a kiosk terminal: frame assembly, reader and presence
//! decisions, session lifecycle, printer command encoding and configuration defaults.
pub mod framing;
pub mod slot;
pub mod reader;
pub mod presence;
pub mod printer;
pub mod text;
pub mod config;
pub mod logging;
pub mod login;
