//! Decision and decoding logic of a cellular-monitoring toolkit: turning
//! diagnostic log records into GSMTAP frames, reading device shell output
//! during installation, and the display keep-awake rules.

pub mod text;
pub mod connection;
pub mod diag;
pub mod gsmtap;
pub mod parser;
pub mod setup;
pub mod setup_laws;
pub mod display;
pub mod parser_laws;
pub mod connection_laws;
pub mod text_laws;
