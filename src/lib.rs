//! Decision core of a UDP hole-punching relay that joins two emulator
//! instances over the internet.
//!
//! The library holds the data a session is configured with, the rules that
//! classify and route datagrams, and a state machine that decides, event by
//! event, what the session does next. Sockets, timers and child processes are
//! left to the program that drives it: it hands each event to the session and
//! performs the actions that come back.
pub mod types;
pub mod text;
pub mod session;
pub mod runtime;
pub mod laws;
pub mod cli;
pub mod resources;

