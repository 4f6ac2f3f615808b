//! Verified core of a local text-to-speech daemon and its Speech Dispatcher
//! bridge: configuration, voice selection, the daemon wire protocol, profile
//! metadata, and the decisions the daemon and the command-line client make.

pub mod text;
pub mod model;
pub mod paths;
pub mod protocol;
pub mod lang;
pub mod config;
pub mod spd;
pub mod profile;
pub mod synth;
pub mod daemon;
pub mod client;
pub mod http;
